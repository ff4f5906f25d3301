//! The answer to a query for records, and how it is decoded.
//!
//! A response is decoded as a whole or not at all. Members that no layout
//! names are ignored, and an optional member that is `null` counts as absent.

use crate::error::{viewed, DecodeError};
use crate::field::Field;
use crate::json::{documents, json_of, member, parse_document, parsed, Json};
use crate::schema::{
    asks_for, collected, fault, first_fault, first_fault_from, flag_at, integer_at,
    is_first_error, lemma_absent_member_is_a_fault, lemma_first_error, nested, optional,
    read_flag, read_member, read_optional_text, read_optional_u32, read_text, read_u32, read_u64,
    required, text_at, to_u32, Kind, Member,
};
use vstd::prelude::*;

verus! {

/// One record of the list.
#[derive(Debug)]
pub struct RecordListItem {
    pub record_id: u64,
    pub value: String,
    /// `ENABLE` or `DISABLE`.
    pub status: String,
    pub updated_on: String,
    /// The host name.
    pub name: String,
    pub line: String,
    pub line_id: String,
    pub record_type: String,
    /// The weight of a load-balanced record.
    pub weight: Option<u32>,
    /// `OK`, `WARN` or `DOWN`; absent without monitoring.
    pub monitor_status: Option<String>,
    pub remark: Option<String>,
    /// The time to live, in seconds.
    pub ttl: u32,
    pub mx: Option<u32>,
    /// Whether this is a default name server record.
    pub default_ns: bool,
}

/// What a [`RecordListItem`] holds.
pub struct RecordListItemView {
    pub record_id: u64,
    pub value: Seq<char>,
    pub status: Seq<char>,
    pub updated_on: Seq<char>,
    pub name: Seq<char>,
    pub line: Seq<char>,
    pub line_id: Seq<char>,
    pub record_type: Seq<char>,
    pub weight: Option<u32>,
    pub monitor_status: Option<Seq<char>>,
    pub remark: Option<Seq<char>>,
    pub ttl: u32,
    pub mx: Option<u32>,
    pub default_ns: bool,
}

impl View for RecordListItem {
    type V = RecordListItemView;

    open spec fn view(&self) -> RecordListItemView {
        RecordListItemView {
            record_id: self.record_id,
            value: self.value@,
            status: self.status@,
            updated_on: self.updated_on@,
            name: self.name@,
            line: self.line@,
            line_id: self.line_id@,
            record_type: self.record_type@,
            weight: self.weight,
            monitor_status: self.monitor_status.deep_view(),
            remark: self.remark.deep_view(),
            ttl: self.ttl,
            mx: self.mx,
            default_ns: self.default_ns,
        }
    }
}

/// An optional piece of text, owned.
fn owned(text: Option<&str>) -> (copy: Option<String>)
    ensures
        copy.deep_view() == text.deep_view(),
{
    match text {
        Some(found) => Some(found.to_owned()),
        None => None,
    }
}

impl RecordListItem {
    /// The members of a record, in the order in which they are read.
    pub open spec fn layout() -> Seq<Member> {
        seq![
            required(Field::RecordId, Kind::Unsigned64),
            required(Field::Value, Kind::Text),
            required(Field::Status, Kind::Text),
            required(Field::UpdatedOn, Kind::Text),
            required(Field::Name, Kind::Text),
            required(Field::Line, Kind::Text),
            required(Field::LineId, Kind::Text),
            required(Field::Type, Kind::Text),
            optional(Field::Weight, Kind::Unsigned32),
            optional(Field::MonitorStatus, Kind::Text),
            optional(Field::Remark, Kind::Text),
            required(Field::Ttl, Kind::Unsigned32),
            optional(Field::Mx, Kind::Unsigned32),
            required(Field::DefaultNs, Kind::Flag),
        ]
    }

    /// The record that a document describes, or what is wrong with the
    /// document. Members beyond the layout are ignored.
    pub open spec fn spec_from_json(document: Json) -> Result<RecordListItemView, DecodeError> {
        match first_fault(document, Self::layout()) {
            Some(error) => Err(error),
            None => Ok(
                RecordListItemView {
                    record_id: integer_at(document, Field::RecordId)->0 as u64,
                    value: text_at(document, Field::Value)->0,
                    status: text_at(document, Field::Status)->0,
                    updated_on: text_at(document, Field::UpdatedOn)->0,
                    name: text_at(document, Field::Name)->0,
                    line: text_at(document, Field::Line)->0,
                    line_id: text_at(document, Field::LineId)->0,
                    record_type: text_at(document, Field::Type)->0,
                    weight: to_u32(integer_at(document, Field::Weight)),
                    monitor_status: text_at(document, Field::MonitorStatus),
                    remark: text_at(document, Field::Remark),
                    ttl: integer_at(document, Field::Ttl)->0 as u32,
                    mx: to_u32(integer_at(document, Field::Mx)),
                    default_ns: flag_at(document, Field::DefaultNs)->0,
                },
            ),
        }
    }

    /// Decodes one record.
    pub fn from_json(value: &serde_json::Value) -> (outcome: Result<RecordListItem, DecodeError>)
        ensures
            viewed(outcome) == Self::spec_from_json(json_of(*value)),
    {
        proof {
            reveal_with_fuel(first_fault_from, 15);
        }
        let record_id = read_u64(value, Field::RecordId)?;
        let text = read_text(value, Field::Value)?;
        let status = read_text(value, Field::Status)?;
        let updated_on = read_text(value, Field::UpdatedOn)?;
        let name = read_text(value, Field::Name)?;
        let line = read_text(value, Field::Line)?;
        let line_id = read_text(value, Field::LineId)?;
        let record_type = read_text(value, Field::Type)?;
        let weight = read_optional_u32(value, Field::Weight)?;
        let monitor_status = read_optional_text(value, Field::MonitorStatus)?;
        let remark = read_optional_text(value, Field::Remark)?;
        let ttl = read_u32(value, Field::Ttl)?;
        let mx = read_optional_u32(value, Field::Mx)?;
        let default_ns = read_flag(value, Field::DefaultNs)?;
        Ok(
            RecordListItem {
                record_id,
                value: text.to_owned(),
                status: status.to_owned(),
                updated_on: updated_on.to_owned(),
                name: name.to_owned(),
                line: line.to_owned(),
                line_id: line_id.to_owned(),
                record_type: record_type.to_owned(),
                weight,
                monitor_status: owned(monitor_status),
                remark: owned(remark),
                ttl,
                mx,
                default_ns,
            },
        )
    }
}

/// How many subdomains and records a query matched.
#[derive(Clone, Copy, Debug, PartialEq, Eq, Structural)]
pub struct RecordCountInfo {
    pub subdomain_count: u32,
    /// The number of records on this page.
    pub list_count: u32,
    /// The number of records that match the query.
    pub total_count: u32,
}

impl View for RecordCountInfo {
    type V = RecordCountInfo;

    open spec fn view(&self) -> RecordCountInfo {
        *self
    }
}

impl RecordCountInfo {
    /// A page holds no more records than the query matched.
    pub open spec fn well_formed(&self) -> bool {
        self.list_count <= self.total_count
    }

    /// The members of the counts, in the order in which they are read.
    pub open spec fn layout() -> Seq<Member> {
        seq![
            required(Field::SubdomainCount, Kind::Unsigned32),
            required(Field::ListCount, Kind::Unsigned32),
            required(Field::TotalCount, Kind::Unsigned32),
        ]
    }

    /// The counts that a document describes, or what is wrong with the
    /// document. Counts that are not well formed are rejected.
    pub open spec fn spec_from_json(document: Json) -> Result<RecordCountInfo, DecodeError> {
        let counts = RecordCountInfo {
            subdomain_count: integer_at(document, Field::SubdomainCount)->0 as u32,
            list_count: integer_at(document, Field::ListCount)->0 as u32,
            total_count: integer_at(document, Field::TotalCount)->0 as u32,
        };
        match first_fault(document, Self::layout()) {
            Some(error) => Err(error),
            None => if counts.well_formed() {
                Ok(counts)
            } else {
                Err(DecodeError::InconsistentCounts)
            },
        }
    }

    /// Decodes the counts.
    pub fn from_json(value: &serde_json::Value) -> (outcome: Result<RecordCountInfo, DecodeError>)
        ensures
            outcome == Self::spec_from_json(json_of(*value)),
            outcome matches Ok(counts) ==> counts.well_formed(),
    {
        proof {
            reveal_with_fuel(first_fault_from, 4);
        }
        let subdomain_count = read_u32(value, Field::SubdomainCount)?;
        let list_count = read_u32(value, Field::ListCount)?;
        let total_count = read_u32(value, Field::TotalCount)?;
        if list_count <= total_count {
            Ok(RecordCountInfo { subdomain_count, list_count, total_count })
        } else {
            Err(DecodeError::InconsistentCounts)
        }
    }
}

/// What the provider answers to a query for records.
#[derive(Debug)]
pub struct DomainRecordListResult {
    pub record_count_info: RecordCountInfo,
    /// The records of this page, in the provider's order.
    pub record_list: Vec<RecordListItem>,
    /// The provider's identifier of the request.
    pub request_id: String,
}

/// What a [`DomainRecordListResult`] holds.
pub struct DomainRecordListResultView {
    pub record_count_info: RecordCountInfo,
    pub record_list: Seq<RecordListItemView>,
    pub request_id: Seq<char>,
}

/// What each record of a list holds.
pub open spec fn views(records: Seq<RecordListItem>) -> Seq<RecordListItemView> {
    records.map_values(|record: RecordListItem| record@)
}

impl View for DomainRecordListResult {
    type V = DomainRecordListResultView;

    open spec fn view(&self) -> DomainRecordListResultView {
        DomainRecordListResultView {
            record_count_info: self.record_count_info,
            record_list: views(self.record_list@),
            request_id: self.request_id@,
        }
    }
}

/// The records that a document lists, in the document's order, or what is
/// wrong with the first item that is no record. A document that is no array
/// is an invalid list.
pub open spec fn spec_records(document: Json) -> Result<Seq<RecordListItemView>, DecodeError> {
    match document {
        Json::Array(items) => collected(
            items.map_values(|item: Json| RecordListItem::spec_from_json(item)),
        ),
        _ => Err(DecodeError::Invalid(Field::RecordList)),
    }
}

/// Decodes the list of records.
fn records_from_json(value: &serde_json::Value) -> (outcome: Result<
    Vec<RecordListItem>,
    DecodeError,
>)
    ensures
        match outcome {
            Ok(records) => spec_records(json_of(*value)) == Ok::<
                Seq<RecordListItemView>,
                DecodeError,
            >(views(records@)),
            Err(error) => spec_records(json_of(*value)) == Err::<
                Seq<RecordListItemView>,
                DecodeError,
            >(error),
        },
{
    let items = match value.as_array() {
        Some(items) => items,
        None => {
            return Err(DecodeError::Invalid(Field::RecordList));
        },
    };
    let ghost outcomes = documents(items@).map_values(
        |item: Json| RecordListItem::spec_from_json(item),
    );
    let mut records: Vec<RecordListItem> = Vec::new();
    let mut at: usize = 0;
    while at < items.len()
        invariant
            at <= items.len(),
            records.len() == at,
            json_of(*value) == Json::Array(documents(items@)),
            outcomes == documents(items@).map_values(
                |item: Json| RecordListItem::spec_from_json(item),
            ),
            forall|before: int|
                0 <= before < at ==> (#[trigger] outcomes[before]) == Ok::<
                    RecordListItemView,
                    DecodeError,
                >(records[before]@),
        decreases items.len() - at,
    {
        match RecordListItem::from_json(&items[at]) {
            Ok(record) => {
                records.push(record);
            },
            Err(error) => {
                proof {
                    lemma_first_error(outcomes, at as int);
                }
                return Err(error);
            },
        }
        at += 1;
    }
    assert(forall|bad: int| !is_first_error(outcomes, bad));
    assert(views(records@) =~= outcomes.map_values(
        |outcome: Result<RecordListItemView, DecodeError>| outcome->Ok_0,
    ));
    Ok(records)
}

impl DomainRecordListResult {
    /// The answer that a document describes, or what is wrong with the
    /// document: with its counts, else with its list, else with its request
    /// identifier.
    pub open spec fn spec_from_json(document: Json) -> Result<
        DomainRecordListResultView,
        DecodeError,
    > {
        match nested(
            document,
            Field::RecordCountInfo,
            |counts: Json| RecordCountInfo::spec_from_json(counts),
        ) {
            Err(error) => Err(error),
            Ok(record_count_info) => match nested(
                document,
                Field::RecordList,
                |list: Json| spec_records(list),
            ) {
                Err(error) => Err(error),
                Ok(record_list) => match fault(document, required(Field::RequestId, Kind::Text)) {
                    Some(error) => Err(error),
                    None => Ok(
                        DomainRecordListResultView {
                            record_count_info,
                            record_list,
                            request_id: text_at(document, Field::RequestId)->0,
                        },
                    ),
                },
            },
        }
    }

    /// Decodes the answer to a query for records.
    pub fn from_json(value: &serde_json::Value) -> (outcome: Result<
        DomainRecordListResult,
        DecodeError,
    >)
        ensures
            viewed(outcome) == Self::spec_from_json(json_of(*value)),
            outcome matches Ok(result) ==> result.record_count_info.well_formed(),
    {
        let record_count_info = RecordCountInfo::from_json(
            read_member(value, Field::RecordCountInfo)?,
        )?;
        let record_list = records_from_json(read_member(value, Field::RecordList)?)?;
        let request_id = read_text(value, Field::RequestId)?;
        Ok(DomainRecordListResult { record_count_info, record_list, request_id: request_id.to_owned() })
    }
}

/// The envelope round the answer to a query for records.
#[derive(Debug)]
pub struct DomainRecordListResponse {
    pub response: DomainRecordListResult,
}

/// What a [`DomainRecordListResponse`] holds.
pub struct DomainRecordListResponseView {
    pub response: DomainRecordListResultView,
}

impl View for DomainRecordListResponse {
    type V = DomainRecordListResponseView;

    open spec fn view(&self) -> DomainRecordListResponseView {
        DomainRecordListResponseView { response: self.response@ }
    }
}

impl DomainRecordListResponse {
    /// The response that a document describes, or what is wrong with the
    /// document.
    pub open spec fn spec_from_json(document: Json) -> Result<
        DomainRecordListResponseView,
        DecodeError,
    > {
        match nested(
            document,
            Field::Response,
            |inner: Json| DomainRecordListResult::spec_from_json(inner),
        ) {
            Ok(response) => Ok(DomainRecordListResponseView { response }),
            Err(error) => Err(error),
        }
    }

    /// The response that a text describes: a text that is no JSON document is
    /// a syntax error, any other is judged as its document is.
    pub open spec fn spec_decode(text: Seq<char>) -> Result<
        DomainRecordListResponseView,
        DecodeError,
    > {
        match parsed(text) {
            Some(document) => Self::spec_from_json(document),
            None => Err(DecodeError::Syntax),
        }
    }

    /// Decodes a response from its document.
    pub fn from_json(value: &serde_json::Value) -> (outcome: Result<
        DomainRecordListResponse,
        DecodeError,
    >)
        ensures
            viewed(outcome) == Self::spec_from_json(json_of(*value)),
            outcome matches Ok(decoded) ==> decoded.response.record_count_info.well_formed(),
    {
        let response = DomainRecordListResult::from_json(read_member(value, Field::Response)?)?;
        Ok(DomainRecordListResponse { response })
    }

    /// Decodes a response from the body that the provider sent.
    pub fn decode(text: &str) -> (outcome: Result<DomainRecordListResponse, DecodeError>)
        ensures
            viewed(outcome) == Self::spec_decode(text@),
            outcome matches Ok(decoded) ==> decoded.response.record_count_info.well_formed(),
    {
        match parse_document(text) {
            Ok(value) => Self::from_json(&value),
            Err(_) => Err(DecodeError::Syntax),
        }
    }
}

/// A response that lacks a required member is rejected as a whole: the
/// envelope without `Response`; the answer without its counts, its list or
/// its request identifier; the counts or a record without a member that
/// their layout asks for.
pub proof fn lemma_incomplete_response_is_rejected(document: Json, field: Field)
    requires
        member(document, field.spec_key()) is None,
    ensures
        field == Field::Response ==> DomainRecordListResponse::spec_from_json(document) is Err,
        field == Field::RecordCountInfo || field == Field::RecordList || field == Field::RequestId
            ==> DomainRecordListResult::spec_from_json(document) is Err,
        asks_for(RecordCountInfo::layout(), field) ==> RecordCountInfo::spec_from_json(document)
            is Err,
        asks_for(RecordListItem::layout(), field) ==> RecordListItem::spec_from_json(document)
            is Err,
{
    if asks_for(RecordCountInfo::layout(), field) {
        lemma_absent_member_is_a_fault(document, RecordCountInfo::layout(), field);
    }
    if asks_for(RecordListItem::layout(), field) {
        lemma_absent_member_is_a_fault(document, RecordListItem::layout(), field);
    }
}

} // verus!
