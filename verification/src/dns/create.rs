//! Creating a TXT record.

use crate::endpoint::{
    carried, holds, lemma_wire_holds_entries, number_entry, text_entry, wire, Endpoint, Payload,
};
use crate::error::{viewed, DecodeError};
use crate::field::Field;
use crate::json::{json_of, Json};
use crate::schema::{
    first_fault, first_fault_from, integer_at, optional, read_optional_text, read_optional_u64,
    read_text, required, text_at, to_u64, Kind, Member,
};
use std::borrow::Cow;
use vstd::prelude::*;

verus! {

/// A request to add a TXT record to a domain.
pub struct CreateTXTRecord<'a> {
    pub domain: &'a str,
    /// The text of the record.
    pub value: &'a str,
    /// The name of the line that the record answers on.
    pub record_line: Option<&'a str>,
    /// The identifier of the line. The provider prefers it to the name.
    pub record_line_id: Option<&'a str>,
    /// The time to live, in seconds.
    pub ttl: Option<u64>,
    /// `ENABLE` or `DISABLE`.
    pub status: Option<&'a str>,
    /// The host name of the record.
    pub sub_domain: Option<&'a str>,
    /// The priority of a mail exchange.
    pub mx: Option<u64>,
}

/// What a [`CreateTXTRecord`] holds.
pub struct CreateTXTRecordView {
    pub domain: Seq<char>,
    pub value: Seq<char>,
    pub record_line: Option<Seq<char>>,
    pub record_line_id: Option<Seq<char>>,
    pub ttl: Option<u64>,
    pub status: Option<Seq<char>>,
    pub sub_domain: Option<Seq<char>>,
    pub mx: Option<u64>,
}

impl<'a> View for CreateTXTRecord<'a> {
    type V = CreateTXTRecordView;

    open spec fn view(&self) -> CreateTXTRecordView {
        CreateTXTRecordView {
            domain: self.domain@,
            value: self.value@,
            record_line: self.record_line.deep_view(),
            record_line_id: self.record_line_id.deep_view(),
            ttl: self.ttl,
            status: self.status.deep_view(),
            sub_domain: self.sub_domain.deep_view(),
            mx: self.mx,
        }
    }
}

impl<'a> CreateTXTRecord<'a> {
    /// A request to add a record with this text to a domain.
    pub fn new(domain: &'a str, value: &'a str) -> (request: Self)
        ensures
            request@ == (CreateTXTRecordView {
                domain: domain@,
                value: value@,
                record_line: None,
                record_line_id: None,
                ttl: None,
                status: None,
                sub_domain: None,
                mx: None,
            }),
    {
        Self {
            domain,
            value,
            record_line: None,
            record_line_id: None,
            ttl: None,
            status: None,
            sub_domain: None,
            mx: None,
        }
    }

    /// Puts the record on the line with this name.
    pub fn with_record_line(self, record_line: &'a str) -> (request: Self)
        ensures
            request@ == (CreateTXTRecordView { record_line: Some(record_line@), ..self@ }),
    {
        Self { record_line: Some(record_line), ..self }
    }

    /// Puts the record on the line with this identifier.
    pub fn with_record_line_id(self, record_line_id: &'a str) -> (request: Self)
        ensures
            request@ == (CreateTXTRecordView { record_line_id: Some(record_line_id@), ..self@ }),
    {
        Self { record_line_id: Some(record_line_id), ..self }
    }

    /// Sets the time to live, in seconds.
    pub fn with_ttl(self, ttl: u64) -> (request: Self)
        ensures
            request@ == (CreateTXTRecordView { ttl: Some(ttl), ..self@ }),
    {
        Self { ttl: Some(ttl), ..self }
    }

    /// Sets whether the record is served: `ENABLE` or `DISABLE`.
    pub fn with_status(self, status: &'a str) -> (request: Self)
        ensures
            request@ == (CreateTXTRecordView { status: Some(status@), ..self@ }),
    {
        Self { status: Some(status), ..self }
    }

    /// Sets the host name of the record.
    pub fn with_sub_domain(self, sub_domain: &'a str) -> (request: Self)
        ensures
            request@ == (CreateTXTRecordView { sub_domain: Some(sub_domain@), ..self@ }),
    {
        Self { sub_domain: Some(sub_domain), ..self }
    }

    /// Sets the priority of a mail exchange.
    pub fn with_mx(self, mx: u64) -> (request: Self)
        ensures
            request@ == (CreateTXTRecordView { mx: Some(mx), ..self@ }),
    {
        Self { mx: Some(mx), ..self }
    }

    /// The members of a request's payload, in the order in which they are read.
    pub open spec fn layout() -> Seq<Member> {
        seq![
            required(Field::Domain, Kind::Text),
            required(Field::Value, Kind::Text),
            optional(Field::RecordLine, Kind::Text),
            optional(Field::RecordLineId, Kind::Text),
            optional(Field::Ttl, Kind::Unsigned64),
            optional(Field::Status, Kind::Text),
            optional(Field::SubDomain, Kind::Text),
            optional(Field::Mx, Kind::Unsigned64),
        ]
    }

    /// The request that a payload describes, or what is wrong with the payload.
    pub open spec fn spec_from_payload(document: Json) -> Result<CreateTXTRecordView, DecodeError> {
        match first_fault(document, Self::layout()) {
            Some(error) => Err(error),
            None => Ok(
                CreateTXTRecordView {
                    domain: text_at(document, Field::Domain)->0,
                    value: text_at(document, Field::Value)->0,
                    record_line: text_at(document, Field::RecordLine),
                    record_line_id: text_at(document, Field::RecordLineId),
                    ttl: to_u64(integer_at(document, Field::Ttl)),
                    status: text_at(document, Field::Status),
                    sub_domain: text_at(document, Field::SubDomain),
                    mx: to_u64(integer_at(document, Field::Mx)),
                },
            ),
        }
    }

    /// Reads a request back from a payload.
    pub fn from_payload(payload: &'a serde_json::Value) -> (outcome: Result<
        CreateTXTRecord<'a>,
        DecodeError,
    >)
        ensures
            viewed(outcome) == Self::spec_from_payload(json_of(*payload)),
    {
        proof {
            reveal_with_fuel(first_fault_from, 9);
        }
        let domain = read_text(payload, Field::Domain)?;
        let value = read_text(payload, Field::Value)?;
        let record_line = read_optional_text(payload, Field::RecordLine)?;
        let record_line_id = read_optional_text(payload, Field::RecordLineId)?;
        let ttl = read_optional_u64(payload, Field::Ttl)?;
        let status = read_optional_text(payload, Field::Status)?;
        let sub_domain = read_optional_text(payload, Field::SubDomain)?;
        let mx = read_optional_u64(payload, Field::Mx)?;
        Ok(
            CreateTXTRecord {
                domain,
                value,
                record_line,
                record_line_id,
                ttl,
                status,
                sub_domain,
                mx,
            },
        )
    }
}

impl<'a> Endpoint for CreateTXTRecord<'a> {
    open spec fn spec_action() -> Seq<char> {
        "CreateTXTRecord"@
    }

    open spec fn entries(&self) -> Map<Field, Json> {
        carried(
            map![
                Field::Domain => Some(Json::Text(self.domain@)),
                Field::Value => Some(Json::Text(self.value@)),
                Field::RecordLine => text_entry(self.record_line.deep_view()),
                Field::RecordLineId => text_entry(self.record_line_id.deep_view()),
                Field::Ttl => number_entry(self.ttl),
                Field::Status => text_entry(self.status.deep_view()),
                Field::SubDomain => text_entry(self.sub_domain.deep_view()),
                Field::Mx => number_entry(self.mx),
            ],
        )
    }

    fn service(&self) -> (name: Cow<'static, str>) {
        Cow::Borrowed("dnspod")
    }

    fn action(&self) -> (name: Cow<'static, str>) {
        Cow::Borrowed("CreateTXTRecord")
    }

    fn version(&self) -> (name: Cow<'static, str>) {
        Cow::Borrowed("2021-03-23")
    }

    fn region(&self) -> (name: Option<Cow<'_, str>>) {
        None
    }

    fn payload(&self) -> (value: serde_json::Value) {
        let mut payload = Payload::new();
        payload.text(Field::Domain, Some(self.domain));
        payload.text(Field::Value, Some(self.value));
        payload.text(Field::RecordLine, self.record_line);
        payload.text(Field::RecordLineId, self.record_line_id);
        payload.number(Field::Ttl, self.ttl);
        payload.text(Field::Status, self.status);
        payload.text(Field::SubDomain, self.sub_domain);
        payload.number(Field::Mx, self.mx);
        payload.into_value()
    }
}

/// The payload of a request has the domain under `Domain` and the text under
/// `Value`, and for each optional parameter either its value under its name,
/// if it is set, or no member of that name.
pub proof fn lemma_payload_members(request: CreateTXTRecord)
    ensures
        ({
            let members = wire(request.entries());
            &&& holds(members, "Domain"@, Some(Json::Text(request.domain@)))
            &&& holds(members, "Value"@, Some(Json::Text(request.value@)))
            &&& holds(members, "RecordLine"@, text_entry(request.record_line.deep_view()))
            &&& holds(members, "RecordLineId"@, text_entry(request.record_line_id.deep_view()))
            &&& holds(members, "TTL"@, number_entry(request.ttl))
            &&& holds(members, "Status"@, text_entry(request.status.deep_view()))
            &&& holds(members, "SubDomain"@, text_entry(request.sub_domain.deep_view()))
            &&& holds(members, "MX"@, number_entry(request.mx))
        }),
{
    let entries = request.entries();
    lemma_wire_holds_entries(entries, Field::Domain);
    lemma_wire_holds_entries(entries, Field::Value);
    lemma_wire_holds_entries(entries, Field::RecordLine);
    lemma_wire_holds_entries(entries, Field::RecordLineId);
    lemma_wire_holds_entries(entries, Field::Ttl);
    lemma_wire_holds_entries(entries, Field::Status);
    lemma_wire_holds_entries(entries, Field::SubDomain);
    lemma_wire_holds_entries(entries, Field::Mx);
}

/// Reading a request back from its own payload gives the request.
pub proof fn lemma_payload_round_trip(request: CreateTXTRecord)
    ensures
        CreateTXTRecord::spec_from_payload(Json::Object(wire(request.entries()))) == Ok::<
            CreateTXTRecordView,
            DecodeError,
        >(request@),
{
    lemma_payload_members(request);
    reveal_with_fuel(first_fault_from, 9);
}

} // verus!
