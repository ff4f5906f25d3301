//! Changing a TXT record.

use crate::endpoint::{
    carried, holds, lemma_wire_holds_entries, number_entry, text_entry, wire, Endpoint, Payload,
};
use crate::error::{viewed, DecodeError};
use crate::field::Field;
use crate::json::{json_of, Json};
use crate::schema::{
    first_fault, first_fault_from, integer_at, optional, read_optional_text, read_optional_u64,
    read_text, read_u64, required, text_at, to_u64, Kind, Member,
};
use std::borrow::Cow;
use vstd::prelude::*;

verus! {

/// A request to change a TXT record of a domain.
pub struct ModifyTXTRecord<'a> {
    pub domain: &'a str,
    pub record_id: u64,
    /// The new text of the record.
    pub value: &'a str,
    /// The name of the line that the record answers on.
    pub record_line: Option<&'a str>,
    /// The time to live, in seconds.
    pub ttl: Option<u64>,
    /// `ENABLE` or `DISABLE`.
    pub status: Option<&'a str>,
    /// The host name of the record.
    pub sub_domain: Option<&'a str>,
}

/// What a [`ModifyTXTRecord`] holds.
pub struct ModifyTXTRecordView {
    pub domain: Seq<char>,
    pub record_id: u64,
    pub value: Seq<char>,
    pub record_line: Option<Seq<char>>,
    pub ttl: Option<u64>,
    pub status: Option<Seq<char>>,
    pub sub_domain: Option<Seq<char>>,
}

impl<'a> View for ModifyTXTRecord<'a> {
    type V = ModifyTXTRecordView;

    open spec fn view(&self) -> ModifyTXTRecordView {
        ModifyTXTRecordView {
            domain: self.domain@,
            record_id: self.record_id,
            value: self.value@,
            record_line: self.record_line.deep_view(),
            ttl: self.ttl,
            status: self.status.deep_view(),
            sub_domain: self.sub_domain.deep_view(),
        }
    }
}

impl<'a> ModifyTXTRecord<'a> {
    /// A request to give the record with this identifier this text.
    pub fn new(domain: &'a str, record_id: u64, value: &'a str) -> (request: Self)
        ensures
            request@ == (ModifyTXTRecordView {
                domain: domain@,
                record_id: record_id,
                value: value@,
                record_line: None,
                ttl: None,
                status: None,
                sub_domain: None,
            }),
    {
        Self {
            domain,
            record_id,
            value,
            record_line: None,
            ttl: None,
            status: None,
            sub_domain: None,
        }
    }

    /// Puts the record on the line with this name.
    pub fn with_record_line(self, record_line: &'a str) -> (request: Self)
        ensures
            request@ == (ModifyTXTRecordView { record_line: Some(record_line@), ..self@ }),
    {
        Self { record_line: Some(record_line), ..self }
    }

    /// Sets the time to live, in seconds.
    pub fn with_ttl(self, ttl: u64) -> (request: Self)
        ensures
            request@ == (ModifyTXTRecordView { ttl: Some(ttl), ..self@ }),
    {
        Self { ttl: Some(ttl), ..self }
    }

    /// Sets whether the record is served: `ENABLE` or `DISABLE`.
    pub fn with_status(self, status: &'a str) -> (request: Self)
        ensures
            request@ == (ModifyTXTRecordView { status: Some(status@), ..self@ }),
    {
        Self { status: Some(status), ..self }
    }

    /// Sets the host name of the record.
    pub fn with_sub_domain(self, sub_domain: &'a str) -> (request: Self)
        ensures
            request@ == (ModifyTXTRecordView { sub_domain: Some(sub_domain@), ..self@ }),
    {
        Self { sub_domain: Some(sub_domain), ..self }
    }

    /// The members of a request's payload, in the order in which they are read.
    pub open spec fn layout() -> Seq<Member> {
        seq![
            required(Field::Domain, Kind::Text),
            required(Field::RecordId, Kind::Unsigned64),
            required(Field::Value, Kind::Text),
            optional(Field::RecordLine, Kind::Text),
            optional(Field::Ttl, Kind::Unsigned64),
            optional(Field::Status, Kind::Text),
            optional(Field::SubDomain, Kind::Text),
        ]
    }

    /// The request that a payload describes, or what is wrong with the payload.
    pub open spec fn spec_from_payload(document: Json) -> Result<ModifyTXTRecordView, DecodeError> {
        match first_fault(document, Self::layout()) {
            Some(error) => Err(error),
            None => Ok(
                ModifyTXTRecordView {
                    domain: text_at(document, Field::Domain)->0,
                    record_id: integer_at(document, Field::RecordId)->0 as u64,
                    value: text_at(document, Field::Value)->0,
                    record_line: text_at(document, Field::RecordLine),
                    ttl: to_u64(integer_at(document, Field::Ttl)),
                    status: text_at(document, Field::Status),
                    sub_domain: text_at(document, Field::SubDomain),
                },
            ),
        }
    }

    /// Reads a request back from a payload.
    pub fn from_payload(payload: &'a serde_json::Value) -> (outcome: Result<
        ModifyTXTRecord<'a>,
        DecodeError,
    >)
        ensures
            viewed(outcome) == Self::spec_from_payload(json_of(*payload)),
    {
        proof {
            reveal_with_fuel(first_fault_from, 8);
        }
        let domain = read_text(payload, Field::Domain)?;
        let record_id = read_u64(payload, Field::RecordId)?;
        let value = read_text(payload, Field::Value)?;
        let record_line = read_optional_text(payload, Field::RecordLine)?;
        let ttl = read_optional_u64(payload, Field::Ttl)?;
        let status = read_optional_text(payload, Field::Status)?;
        let sub_domain = read_optional_text(payload, Field::SubDomain)?;
        Ok(ModifyTXTRecord { domain, record_id, value, record_line, ttl, status, sub_domain })
    }
}

impl<'a> Endpoint for ModifyTXTRecord<'a> {
    open spec fn spec_action() -> Seq<char> {
        "ModifyTXTRecord"@
    }

    open spec fn entries(&self) -> Map<Field, Json> {
        carried(
            map![
                Field::Domain => Some(Json::Text(self.domain@)),
                Field::RecordId => Some(Json::Integer(self.record_id as int)),
                Field::Value => Some(Json::Text(self.value@)),
                Field::RecordLine => text_entry(self.record_line.deep_view()),
                Field::Ttl => number_entry(self.ttl),
                Field::Status => text_entry(self.status.deep_view()),
                Field::SubDomain => text_entry(self.sub_domain.deep_view()),
            ],
        )
    }

    fn service(&self) -> (name: Cow<'static, str>) {
        Cow::Borrowed("dnspod")
    }

    fn action(&self) -> (name: Cow<'static, str>) {
        Cow::Borrowed("ModifyTXTRecord")
    }

    fn version(&self) -> (name: Cow<'static, str>) {
        Cow::Borrowed("2021-03-23")
    }

    fn region(&self) -> (name: Option<Cow<'_, str>>) {
        None
    }

    fn payload(&self) -> (value: serde_json::Value) {
        let mut payload = Payload::new();
        payload.text(Field::Domain, Some(self.domain));
        payload.number(Field::RecordId, Some(self.record_id));
        payload.text(Field::Value, Some(self.value));
        payload.text(Field::RecordLine, self.record_line);
        payload.number(Field::Ttl, self.ttl);
        payload.text(Field::Status, self.status);
        payload.text(Field::SubDomain, self.sub_domain);
        payload.into_value()
    }
}

/// The payload of a request has the domain under `Domain`, the record's
/// identifier under `RecordId` and the text under `Value`, and for each
/// optional parameter either its value under its name, if it is set, or no
/// member of that name.
pub proof fn lemma_payload_members(request: ModifyTXTRecord)
    ensures
        ({
            let members = wire(request.entries());
            &&& holds(members, "Domain"@, Some(Json::Text(request.domain@)))
            &&& holds(members, "RecordId"@, Some(Json::Integer(request.record_id as int)))
            &&& holds(members, "Value"@, Some(Json::Text(request.value@)))
            &&& holds(members, "RecordLine"@, text_entry(request.record_line.deep_view()))
            &&& holds(members, "TTL"@, number_entry(request.ttl))
            &&& holds(members, "Status"@, text_entry(request.status.deep_view()))
            &&& holds(members, "SubDomain"@, text_entry(request.sub_domain.deep_view()))
        }),
{
    let entries = request.entries();
    lemma_wire_holds_entries(entries, Field::Domain);
    lemma_wire_holds_entries(entries, Field::RecordId);
    lemma_wire_holds_entries(entries, Field::Value);
    lemma_wire_holds_entries(entries, Field::RecordLine);
    lemma_wire_holds_entries(entries, Field::Ttl);
    lemma_wire_holds_entries(entries, Field::Status);
    lemma_wire_holds_entries(entries, Field::SubDomain);
}

/// Reading a request back from its own payload gives the request.
pub proof fn lemma_payload_round_trip(request: ModifyTXTRecord)
    ensures
        ModifyTXTRecord::spec_from_payload(Json::Object(wire(request.entries()))) == Ok::<
            ModifyTXTRecordView,
            DecodeError,
        >(request@),
{
    lemma_payload_members(request);
    reveal_with_fuel(first_fault_from, 8);
}

} // verus!
