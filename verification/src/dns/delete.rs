//! Deleting a record.

use crate::endpoint::{
    carried, holds, lemma_wire_holds_entries, number_entry, wire, Endpoint, Payload,
};
use crate::error::{viewed, DecodeError};
use crate::field::Field;
use crate::json::{json_of, Json};
use crate::schema::{
    first_fault, first_fault_from, integer_at, optional, read_optional_u64, read_text, read_u64,
    required, text_at, to_u64, Kind, Member,
};
use std::borrow::Cow;
use vstd::prelude::*;

verus! {

/// A request to delete a record of a domain.
pub struct DeleteRecord<'a> {
    pub domain: &'a str,
    pub record_id: u64,
    /// The domain's identifier. The provider prefers it to the name.
    pub domain_id: Option<u64>,
}

/// What a [`DeleteRecord`] holds.
pub struct DeleteRecordView {
    pub domain: Seq<char>,
    pub record_id: u64,
    pub domain_id: Option<u64>,
}

impl<'a> View for DeleteRecord<'a> {
    type V = DeleteRecordView;

    open spec fn view(&self) -> DeleteRecordView {
        DeleteRecordView {
            domain: self.domain@,
            record_id: self.record_id,
            domain_id: self.domain_id,
        }
    }
}

impl<'a> DeleteRecord<'a> {
    /// A request to delete the record with this identifier from a domain.
    pub fn new(domain: &'a str, record_id: u64) -> (request: Self)
        ensures
            request@ == (DeleteRecordView {
                domain: domain@,
                record_id: record_id,
                domain_id: None,
            }),
    {
        Self { domain, record_id, domain_id: None }
    }

    /// Names the domain by its identifier.
    pub fn with_domain_id(self, domain_id: u64) -> (request: Self)
        ensures
            request@ == (DeleteRecordView { domain_id: Some(domain_id), ..self@ }),
    {
        Self { domain_id: Some(domain_id), ..self }
    }

    /// The members of a request's payload, in the order in which they are read.
    pub open spec fn layout() -> Seq<Member> {
        seq![
            required(Field::Domain, Kind::Text),
            required(Field::RecordId, Kind::Unsigned64),
            optional(Field::DomainId, Kind::Unsigned64),
        ]
    }

    /// The request that a payload describes, or what is wrong with the payload.
    pub open spec fn spec_from_payload(document: Json) -> Result<DeleteRecordView, DecodeError> {
        match first_fault(document, Self::layout()) {
            Some(error) => Err(error),
            None => Ok(
                DeleteRecordView {
                    domain: text_at(document, Field::Domain)->0,
                    record_id: integer_at(document, Field::RecordId)->0 as u64,
                    domain_id: to_u64(integer_at(document, Field::DomainId)),
                },
            ),
        }
    }

    /// Reads a request back from a payload.
    pub fn from_payload(payload: &'a serde_json::Value) -> (outcome: Result<
        DeleteRecord<'a>,
        DecodeError,
    >)
        ensures
            viewed(outcome) == Self::spec_from_payload(json_of(*payload)),
    {
        proof {
            reveal_with_fuel(first_fault_from, 4);
        }
        let domain = read_text(payload, Field::Domain)?;
        let record_id = read_u64(payload, Field::RecordId)?;
        let domain_id = read_optional_u64(payload, Field::DomainId)?;
        Ok(DeleteRecord { domain, record_id, domain_id })
    }
}

impl<'a> Endpoint for DeleteRecord<'a> {
    open spec fn spec_action() -> Seq<char> {
        "DeleteRecord"@
    }

    open spec fn entries(&self) -> Map<Field, Json> {
        carried(
            map![
                Field::Domain => Some(Json::Text(self.domain@)),
                Field::RecordId => Some(Json::Integer(self.record_id as int)),
                Field::DomainId => number_entry(self.domain_id),
            ],
        )
    }

    fn service(&self) -> (name: Cow<'static, str>) {
        Cow::Borrowed("dnspod")
    }

    fn action(&self) -> (name: Cow<'static, str>) {
        Cow::Borrowed("DeleteRecord")
    }

    fn version(&self) -> (name: Cow<'static, str>) {
        Cow::Borrowed("2021-03-23")
    }

    fn region(&self) -> (name: Option<Cow<'_, str>>) {
        None
    }

    fn payload(&self) -> (value: serde_json::Value) {
        let mut payload = Payload::new();
        payload.text(Field::Domain, Some(self.domain));
        payload.number(Field::RecordId, Some(self.record_id));
        payload.number(Field::DomainId, self.domain_id);
        payload.into_value()
    }
}

/// The payload of a request has the domain under `Domain` and the record's
/// identifier under `RecordId`, and the domain's identifier under `DomainId`
/// if it is set, else no member of that name.
pub proof fn lemma_payload_members(request: DeleteRecord)
    ensures
        ({
            let members = wire(request.entries());
            &&& holds(members, "Domain"@, Some(Json::Text(request.domain@)))
            &&& holds(members, "RecordId"@, Some(Json::Integer(request.record_id as int)))
            &&& holds(members, "DomainId"@, number_entry(request.domain_id))
        }),
{
    let entries = request.entries();
    lemma_wire_holds_entries(entries, Field::Domain);
    lemma_wire_holds_entries(entries, Field::RecordId);
    lemma_wire_holds_entries(entries, Field::DomainId);
}

/// Reading a request back from its own payload gives the request.
pub proof fn lemma_payload_round_trip(request: DeleteRecord)
    ensures
        DeleteRecord::spec_from_payload(Json::Object(wire(request.entries()))) == Ok::<
            DeleteRecordView,
            DecodeError,
        >(request@),
{
    lemma_payload_members(request);
    reveal_with_fuel(first_fault_from, 4);
}

} // verus!
