//! Listing the records of a domain.

use crate::endpoint::{
    carried, holds, lemma_wire_holds_entries, number_entry, spec_widened, text_entry, widened,
    wire, Endpoint, Payload,
};
use crate::error::{viewed, DecodeError};
use crate::field::Field;
use crate::json::{json_of, Json};
use crate::schema::{
    first_fault, first_fault_from, integer_at, optional, read_optional_text, read_optional_u32,
    read_optional_u64, read_text, required, text_at, to_u32, to_u64, Kind, Member,
};
use std::borrow::Cow;
use vstd::prelude::*;

verus! {

/// A query for the records of a domain.
pub struct DomainRecordList<'a> {
    pub domain: &'a str,
    /// The domain's identifier. The provider prefers it to the name.
    pub domain_id: Option<u64>,
    /// The host name to list the records of.
    pub subdomain: Option<&'a str>,
    /// The type of record to list, such as `A` or `CNAME`.
    pub record_type: Option<&'a str>,
    /// The name of the line to list the records of.
    pub record_line: Option<&'a str>,
    /// The identifier of the line. The provider prefers it to the name.
    pub record_line_id: Option<&'a str>,
    pub group_id: Option<u64>,
    /// A word to look for in host names and values.
    pub keyword: Option<&'a str>,
    pub sort_field: Option<&'a str>,
    /// `ASC` or `DESC`.
    pub sort_type: Option<&'a str>,
    pub offset: Option<u32>,
    pub limit: Option<u32>,
}

/// What a [`DomainRecordList`] holds.
pub struct DomainRecordListView {
    pub domain: Seq<char>,
    pub domain_id: Option<u64>,
    pub subdomain: Option<Seq<char>>,
    pub record_type: Option<Seq<char>>,
    pub record_line: Option<Seq<char>>,
    pub record_line_id: Option<Seq<char>>,
    pub group_id: Option<u64>,
    pub keyword: Option<Seq<char>>,
    pub sort_field: Option<Seq<char>>,
    pub sort_type: Option<Seq<char>>,
    pub offset: Option<u32>,
    pub limit: Option<u32>,
}

impl<'a> View for DomainRecordList<'a> {
    type V = DomainRecordListView;

    open spec fn view(&self) -> DomainRecordListView {
        DomainRecordListView {
            domain: self.domain@,
            domain_id: self.domain_id,
            subdomain: self.subdomain.deep_view(),
            record_type: self.record_type.deep_view(),
            record_line: self.record_line.deep_view(),
            record_line_id: self.record_line_id.deep_view(),
            group_id: self.group_id,
            keyword: self.keyword.deep_view(),
            sort_field: self.sort_field.deep_view(),
            sort_type: self.sort_type.deep_view(),
            offset: self.offset,
            limit: self.limit,
        }
    }
}

impl<'a> DomainRecordList<'a> {
    /// A query for all the records of a domain.
    pub fn new(domain: &'a str) -> (request: Self)
        ensures
            request@ == (DomainRecordListView {
                domain: domain@,
                domain_id: None,
                subdomain: None,
                record_type: None,
                record_line: None,
                record_line_id: None,
                group_id: None,
                keyword: None,
                sort_field: None,
                sort_type: None,
                offset: None,
                limit: None,
            }),
    {
        Self {
            domain,
            domain_id: None,
            subdomain: None,
            record_type: None,
            record_line: None,
            record_line_id: None,
            group_id: None,
            keyword: None,
            sort_field: None,
            sort_type: None,
            offset: None,
            limit: None,
        }
    }

    /// Asks by the domain's identifier.
    pub fn with_domain_id(self, domain_id: u64) -> (request: Self)
        ensures
            request@ == (DomainRecordListView { domain_id: Some(domain_id), ..self@ }),
    {
        Self { domain_id: Some(domain_id), ..self }
    }

    /// Asks for the records of one host name.
    pub fn with_subdomain(self, subdomain: &'a str) -> (request: Self)
        ensures
            request@ == (DomainRecordListView { subdomain: Some(subdomain@), ..self@ }),
    {
        Self { subdomain: Some(subdomain), ..self }
    }

    /// Asks for the records of one type.
    pub fn with_record_type(self, record_type: &'a str) -> (request: Self)
        ensures
            request@ == (DomainRecordListView { record_type: Some(record_type@), ..self@ }),
    {
        Self { record_type: Some(record_type), ..self }
    }

    /// Asks for the records of the line with this name.
    pub fn with_record_line(self, record_line: &'a str) -> (request: Self)
        ensures
            request@ == (DomainRecordListView { record_line: Some(record_line@), ..self@ }),
    {
        Self { record_line: Some(record_line), ..self }
    }

    /// Asks for the records of the line with this identifier.
    pub fn with_record_line_id(self, record_line_id: &'a str) -> (request: Self)
        ensures
            request@ == (DomainRecordListView { record_line_id: Some(record_line_id@), ..self@ }),
    {
        Self { record_line_id: Some(record_line_id), ..self }
    }

    /// Asks for the records of one group.
    pub fn with_group_id(self, group_id: u64) -> (request: Self)
        ensures
            request@ == (DomainRecordListView { group_id: Some(group_id), ..self@ }),
    {
        Self { group_id: Some(group_id), ..self }
    }

    /// Asks for the records whose host name or value has this word.
    pub fn with_keyword(self, keyword: &'a str) -> (request: Self)
        ensures
            request@ == (DomainRecordListView { keyword: Some(keyword@), ..self@ }),
    {
        Self { keyword: Some(keyword), ..self }
    }

    /// Sorts the list by this member of the records.
    pub fn with_sort_field(self, sort_field: &'a str) -> (request: Self)
        ensures
            request@ == (DomainRecordListView { sort_field: Some(sort_field@), ..self@ }),
    {
        Self { sort_field: Some(sort_field), ..self }
    }

    /// Sorts the list upwards (`ASC`) or downwards (`DESC`).
    pub fn with_sort_type(self, sort_type: &'a str) -> (request: Self)
        ensures
            request@ == (DomainRecordListView { sort_type: Some(sort_type@), ..self@ }),
    {
        Self { sort_type: Some(sort_type), ..self }
    }

    /// Skips this many records.
    pub fn with_offset(self, offset: u32) -> (request: Self)
        ensures
            request@ == (DomainRecordListView { offset: Some(offset), ..self@ }),
    {
        Self { offset: Some(offset), ..self }
    }

    /// Asks for no more than this many records.
    pub fn with_limit(self, limit: u32) -> (request: Self)
        ensures
            request@ == (DomainRecordListView { limit: Some(limit), ..self@ }),
    {
        Self { limit: Some(limit), ..self }
    }
}

impl<'a> Endpoint for DomainRecordList<'a> {
    open spec fn spec_action() -> Seq<char> {
        "DescribeRecordList"@
    }

    open spec fn entries(&self) -> Map<Field, Json> {
        carried(
            map![
                Field::Domain => Some(Json::Text(self.domain@)),
                Field::DomainId => number_entry(self.domain_id),
                Field::Subdomain => text_entry(self.subdomain.deep_view()),
                Field::RecordType => text_entry(self.record_type.deep_view()),
                Field::RecordLine => text_entry(self.record_line.deep_view()),
                Field::RecordLineId => text_entry(self.record_line_id.deep_view()),
                Field::GroupId => number_entry(self.group_id),
                Field::Keyword => text_entry(self.keyword.deep_view()),
                Field::SortField => text_entry(self.sort_field.deep_view()),
                Field::SortType => text_entry(self.sort_type.deep_view()),
                Field::Offset => number_entry(spec_widened(self.offset)),
                Field::Limit => number_entry(spec_widened(self.limit)),
            ],
        )
    }

    fn service(&self) -> (name: Cow<'static, str>) {
        Cow::Borrowed("dnspod")
    }

    fn action(&self) -> (name: Cow<'static, str>) {
        Cow::Borrowed("DescribeRecordList")
    }

    fn version(&self) -> (name: Cow<'static, str>) {
        Cow::Borrowed("2021-03-23")
    }

    fn region(&self) -> (name: Option<Cow<'_, str>>) {
        None
    }

    fn payload(&self) -> (value: serde_json::Value) {
        let mut payload = Payload::new();
        payload.text(Field::Domain, Some(self.domain));
        payload.number(Field::DomainId, self.domain_id);
        payload.text(Field::Subdomain, self.subdomain);
        payload.text(Field::RecordType, self.record_type);
        payload.text(Field::RecordLine, self.record_line);
        payload.text(Field::RecordLineId, self.record_line_id);
        payload.number(Field::GroupId, self.group_id);
        payload.text(Field::Keyword, self.keyword);
        payload.text(Field::SortField, self.sort_field);
        payload.text(Field::SortType, self.sort_type);
        payload.number(Field::Offset, widened(self.offset));
        payload.number(Field::Limit, widened(self.limit));
        payload.into_value()
    }
}

impl<'a> DomainRecordList<'a> {
    /// The members of a query's payload, in the order in which they are read.
    pub open spec fn layout() -> Seq<Member> {
        seq![
            required(Field::Domain, Kind::Text),
            optional(Field::DomainId, Kind::Unsigned64),
            optional(Field::Subdomain, Kind::Text),
            optional(Field::RecordType, Kind::Text),
            optional(Field::RecordLine, Kind::Text),
            optional(Field::RecordLineId, Kind::Text),
            optional(Field::GroupId, Kind::Unsigned64),
            optional(Field::Keyword, Kind::Text),
            optional(Field::SortField, Kind::Text),
            optional(Field::SortType, Kind::Text),
            optional(Field::Offset, Kind::Unsigned32),
            optional(Field::Limit, Kind::Unsigned32),
        ]
    }

    /// The query that a payload describes, or what is wrong with the payload.
    pub open spec fn spec_from_payload(document: Json) -> Result<
        DomainRecordListView,
        DecodeError,
    > {
        match first_fault(document, Self::layout()) {
            Some(error) => Err(error),
            None => Ok(
                DomainRecordListView {
                    domain: text_at(document, Field::Domain)->0,
                    domain_id: to_u64(integer_at(document, Field::DomainId)),
                    subdomain: text_at(document, Field::Subdomain),
                    record_type: text_at(document, Field::RecordType),
                    record_line: text_at(document, Field::RecordLine),
                    record_line_id: text_at(document, Field::RecordLineId),
                    group_id: to_u64(integer_at(document, Field::GroupId)),
                    keyword: text_at(document, Field::Keyword),
                    sort_field: text_at(document, Field::SortField),
                    sort_type: text_at(document, Field::SortType),
                    offset: to_u32(integer_at(document, Field::Offset)),
                    limit: to_u32(integer_at(document, Field::Limit)),
                },
            ),
        }
    }

    /// Reads a query back from a payload.
    pub fn from_payload(payload: &'a serde_json::Value) -> (outcome: Result<
        DomainRecordList<'a>,
        DecodeError,
    >)
        ensures
            viewed(outcome) == Self::spec_from_payload(json_of(*payload)),
    {
        proof {
            reveal_with_fuel(first_fault_from, 13);
        }
        let domain = read_text(payload, Field::Domain)?;
        let domain_id = read_optional_u64(payload, Field::DomainId)?;
        let subdomain = read_optional_text(payload, Field::Subdomain)?;
        let record_type = read_optional_text(payload, Field::RecordType)?;
        let record_line = read_optional_text(payload, Field::RecordLine)?;
        let record_line_id = read_optional_text(payload, Field::RecordLineId)?;
        let group_id = read_optional_u64(payload, Field::GroupId)?;
        let keyword = read_optional_text(payload, Field::Keyword)?;
        let sort_field = read_optional_text(payload, Field::SortField)?;
        let sort_type = read_optional_text(payload, Field::SortType)?;
        let offset = read_optional_u32(payload, Field::Offset)?;
        let limit = read_optional_u32(payload, Field::Limit)?;
        Ok(
            DomainRecordList {
                domain,
                domain_id,
                subdomain,
                record_type,
                record_line,
                record_line_id,
                group_id,
                keyword,
                sort_field,
                sort_type,
                offset,
                limit,
            },
        )
    }
}

/// The payload of a query has the domain under `Domain`, and for each optional
/// parameter either its value under its name, if it is set, or no member of
/// that name.
pub proof fn lemma_payload_members(request: DomainRecordList)
    ensures
        ({
            let members = wire(request.entries());
            &&& holds(members, "Domain"@, Some(Json::Text(request.domain@)))
            &&& holds(members, "DomainId"@, number_entry(request.domain_id))
            &&& holds(members, "Subdomain"@, text_entry(request.subdomain.deep_view()))
            &&& holds(members, "RecordType"@, text_entry(request.record_type.deep_view()))
            &&& holds(members, "RecordLine"@, text_entry(request.record_line.deep_view()))
            &&& holds(members, "RecordLineId"@, text_entry(request.record_line_id.deep_view()))
            &&& holds(members, "GroupId"@, number_entry(request.group_id))
            &&& holds(members, "Keyword"@, text_entry(request.keyword.deep_view()))
            &&& holds(members, "SortField"@, text_entry(request.sort_field.deep_view()))
            &&& holds(members, "SortType"@, text_entry(request.sort_type.deep_view()))
            &&& holds(members, "Offset"@, number_entry(spec_widened(request.offset)))
            &&& holds(members, "Limit"@, number_entry(spec_widened(request.limit)))
        }),
{
    let entries = request.entries();
    lemma_wire_holds_entries(entries, Field::Domain);
    lemma_wire_holds_entries(entries, Field::DomainId);
    lemma_wire_holds_entries(entries, Field::Subdomain);
    lemma_wire_holds_entries(entries, Field::RecordType);
    lemma_wire_holds_entries(entries, Field::RecordLine);
    lemma_wire_holds_entries(entries, Field::RecordLineId);
    lemma_wire_holds_entries(entries, Field::GroupId);
    lemma_wire_holds_entries(entries, Field::Keyword);
    lemma_wire_holds_entries(entries, Field::SortField);
    lemma_wire_holds_entries(entries, Field::SortType);
    lemma_wire_holds_entries(entries, Field::Offset);
    lemma_wire_holds_entries(entries, Field::Limit);
}

/// Reading a query back from its own payload gives the query.
pub proof fn lemma_payload_round_trip(request: DomainRecordList)
    ensures
        DomainRecordList::spec_from_payload(Json::Object(wire(request.entries()))) == Ok::<
            DomainRecordListView,
            DecodeError,
        >(request@),
{
    lemma_payload_members(request);
    reveal_with_fuel(first_fault_from, 13);
}

} // verus!
