use dnspod_sdk::dns::{
    DomainRecordListResponse, DomainRecordListResult, RecordCountInfo, RecordListItem,
};
use dnspod_sdk::schema::{
    read_flag, read_member, read_optional_text, read_optional_u32, read_optional_u64, read_text,
    read_u32, read_u64,
};
use dnspod_sdk::{DecodeError, Field};
use serde_json::Value;

fn parse(text: &str) -> Value {
    serde_json::from_str(text).unwrap()
}

const RECORD: &str = r#"{
    "RecordId": 1,
    "Value": "1.1.1.1",
    "Status": "ENABLE",
    "UpdatedOn": "2021-03-28 11:27:09",
    "Name": "m",
    "Line": "默认",
    "LineId": "0",
    "Type": "A",
    "Weight": 20,
    "MonitorStatus": "OK",
    "Remark": "",
    "TTL": 600,
    "MX": 10,
    "DefaultNS": true
}"#;

fn response_with(counts: &str, list: &str) -> String {
    format!(
        r#"{{"Response": {{"RecordCountInfo": {counts}, "RecordList": {list}, "RequestId": "req-1"}}}}"#
    )
}

const COUNTS: &str = r#"{"SubdomainCount": 2, "ListCount": 2, "TotalCount": 10}"#;

fn error_of(text: &str) -> DecodeError {
    DomainRecordListResponse::decode(text).unwrap_err()
}

#[test]
fn record_with_every_member() {
    let record = RecordListItem::from_json(&parse(RECORD)).unwrap();
    assert_eq!(record.record_id, 1);
    assert_eq!(record.value, "1.1.1.1");
    assert_eq!(record.status, "ENABLE");
    assert_eq!(record.updated_on, "2021-03-28 11:27:09");
    assert_eq!(record.name, "m");
    assert_eq!(record.line, "默认");
    assert_eq!(record.line_id, "0");
    assert_eq!(record.record_type, "A");
    assert_eq!(record.weight, Some(20));
    assert_eq!(record.monitor_status.as_deref(), Some("OK"));
    assert_eq!(record.remark.as_deref(), Some(""));
    assert_eq!(record.ttl, 600);
    assert_eq!(record.mx, Some(10));
    assert!(record.default_ns);
}

#[test]
fn absent_and_null_optional_members_are_not_present() {
    let mut document = parse(RECORD);
    let members = document.as_object_mut().unwrap();
    members.remove("Weight");
    members.remove("Remark");
    members.insert("MonitorStatus".to_string(), Value::Null);
    members.insert("MX".to_string(), Value::Null);
    let record = RecordListItem::from_json(&document).unwrap();
    assert_eq!(record.weight, None);
    assert_eq!(record.monitor_status, None);
    assert_eq!(record.remark, None);
    assert_eq!(record.mx, None);
}

#[test]
fn an_empty_remark_is_present() {
    let record = RecordListItem::from_json(&parse(RECORD)).unwrap();
    assert_eq!(record.remark, Some(String::new()));
    assert_ne!(record.remark, None);
}

#[test]
fn each_required_member_of_a_record_is_missed() {
    let required = [
        ("RecordId", Field::RecordId),
        ("Value", Field::Value),
        ("Status", Field::Status),
        ("UpdatedOn", Field::UpdatedOn),
        ("Name", Field::Name),
        ("Line", Field::Line),
        ("LineId", Field::LineId),
        ("Type", Field::Type),
        ("TTL", Field::Ttl),
        ("DefaultNS", Field::DefaultNs),
    ];
    for (name, field) in required {
        let mut document = parse(RECORD);
        document.as_object_mut().unwrap().remove(name);
        assert_eq!(
            RecordListItem::from_json(&document).unwrap_err(),
            DecodeError::Missing(field),
            "without {name}"
        );
        document[name] = Value::Null;
        assert_eq!(
            RecordListItem::from_json(&document).unwrap_err(),
            DecodeError::Invalid(field),
            "with {name} null"
        );
    }
}

#[test]
fn the_first_fault_of_a_record_is_reported() {
    let mut document = parse(RECORD);
    document["Status"] = Value::from(1);
    document.as_object_mut().unwrap().remove("Name");
    document["TTL"] = Value::from("long");
    assert_eq!(
        RecordListItem::from_json(&document).unwrap_err(),
        DecodeError::Invalid(Field::Status)
    );
}

#[test]
fn members_of_the_wrong_type_are_invalid() {
    let cases = [
        ("RecordId", Value::from("1"), Field::RecordId),
        ("RecordId", Value::from(-1), Field::RecordId),
        ("RecordId", Value::from(1.5), Field::RecordId),
        ("Value", Value::from(7), Field::Value),
        ("Weight", Value::from("20"), Field::Weight),
        ("Weight", Value::from(4294967296u64), Field::Weight),
        ("MonitorStatus", Value::from(true), Field::MonitorStatus),
        ("Remark", Value::from(0), Field::Remark),
        ("TTL", Value::from(4294967296u64), Field::Ttl),
        ("TTL", Value::from(-600), Field::Ttl),
        ("MX", Value::from(false), Field::Mx),
        ("DefaultNS", Value::from("true"), Field::DefaultNs),
        ("DefaultNS", Value::from(1), Field::DefaultNs),
    ];
    for (name, value, field) in cases {
        let mut document = parse(RECORD);
        document[name] = value;
        assert_eq!(
            RecordListItem::from_json(&document).unwrap_err(),
            DecodeError::Invalid(field),
            "with {name} changed"
        );
    }
}

#[test]
fn numbers_at_the_edge_of_their_range() {
    let mut document = parse(RECORD);
    document["RecordId"] = Value::from(u64::MAX);
    document["TTL"] = Value::from(u32::MAX);
    document["Weight"] = Value::from(0);
    document["MX"] = Value::from(4294967295u64);
    let record = RecordListItem::from_json(&document).unwrap();
    assert_eq!(record.record_id, 18446744073709551615);
    assert_eq!(record.ttl, 4294967295);
    assert_eq!(record.weight, Some(0));
    assert_eq!(record.mx, Some(4294967295));
}

#[test]
fn a_number_beyond_u64_is_invalid() {
    let text = RECORD.replace("\"RecordId\": 1,", "\"RecordId\": 18446744073709551616,");
    assert_eq!(
        RecordListItem::from_json(&parse(&text)).unwrap_err(),
        DecodeError::Invalid(Field::RecordId)
    );
}

#[test]
fn a_number_written_with_a_fraction_is_invalid() {
    let text = RECORD.replace("\"TTL\": 600,", "\"TTL\": 600.0,");
    assert_eq!(
        RecordListItem::from_json(&parse(&text)).unwrap_err(),
        DecodeError::Invalid(Field::Ttl)
    );
}

#[test]
fn members_that_no_layout_names_are_ignored() {
    let mut document = parse(RECORD);
    document["Extra"] = Value::from("ignored");
    document["recordid"] = Value::from(99);
    let record = RecordListItem::from_json(&document).unwrap();
    assert_eq!(record.record_id, 1);
}

#[test]
fn what_is_no_object_has_no_members() {
    for document in [Value::Null, Value::from(1), Value::from("x"), parse("[]"), parse("[{}]")] {
        assert_eq!(
            RecordListItem::from_json(&document).unwrap_err(),
            DecodeError::Missing(Field::RecordId)
        );
        assert_eq!(
            RecordCountInfo::from_json(&document).unwrap_err(),
            DecodeError::Missing(Field::SubdomainCount)
        );
        assert_eq!(
            DomainRecordListResult::from_json(&document).unwrap_err(),
            DecodeError::Missing(Field::RecordCountInfo)
        );
        assert_eq!(
            DomainRecordListResponse::from_json(&document).unwrap_err(),
            DecodeError::Missing(Field::Response)
        );
    }
}

#[test]
fn counts() {
    let counts = RecordCountInfo::from_json(&parse(COUNTS)).unwrap();
    assert_eq!(counts, RecordCountInfo { subdomain_count: 2, list_count: 2, total_count: 10 });

    let equal = parse(r#"{"SubdomainCount": 0, "ListCount": 3, "TotalCount": 3}"#);
    assert_eq!(
        RecordCountInfo::from_json(&equal).unwrap(),
        RecordCountInfo { subdomain_count: 0, list_count: 3, total_count: 3 }
    );

    let empty = parse(r#"{"SubdomainCount": 0, "ListCount": 0, "TotalCount": 0}"#);
    assert_eq!(
        RecordCountInfo::from_json(&empty).unwrap(),
        RecordCountInfo { subdomain_count: 0, list_count: 0, total_count: 0 }
    );
}

#[test]
fn counts_of_a_page_larger_than_the_total_are_rejected() {
    let counts = parse(r#"{"SubdomainCount": 1, "ListCount": 4, "TotalCount": 3}"#);
    assert_eq!(RecordCountInfo::from_json(&counts).unwrap_err(), DecodeError::InconsistentCounts);
    let text = response_with(r#"{"SubdomainCount": 1, "ListCount": 4, "TotalCount": 3}"#, "[]");
    assert_eq!(error_of(&text), DecodeError::InconsistentCounts);
}

#[test]
fn faulty_counts() {
    let cases = [
        (r#"{"ListCount": 2, "TotalCount": 10}"#, DecodeError::Missing(Field::SubdomainCount)),
        (r#"{"SubdomainCount": 2, "TotalCount": 10}"#, DecodeError::Missing(Field::ListCount)),
        (r#"{"SubdomainCount": 2, "ListCount": 2}"#, DecodeError::Missing(Field::TotalCount)),
        (
            r#"{"SubdomainCount": "2", "ListCount": 2, "TotalCount": 10}"#,
            DecodeError::Invalid(Field::SubdomainCount),
        ),
        (
            r#"{"SubdomainCount": 2, "ListCount": -2, "TotalCount": 10}"#,
            DecodeError::Invalid(Field::ListCount),
        ),
        (
            r#"{"SubdomainCount": 2, "ListCount": 2, "TotalCount": 4294967296}"#,
            DecodeError::Invalid(Field::TotalCount),
        ),
        (
            r#"{"SubdomainCount": 2, "ListCount": 11, "TotalCount": null}"#,
            DecodeError::Invalid(Field::TotalCount),
        ),
    ];
    for (text, error) in cases {
        assert_eq!(RecordCountInfo::from_json(&parse(text)).unwrap_err(), error, "{text}");
    }
}

#[test]
fn response_without_request_id_is_rejected() {
    let text = format!(r#"{{"Response": {{"RecordCountInfo": {COUNTS}, "RecordList": []}}}}"#);
    assert_eq!(error_of(&text), DecodeError::Missing(Field::RequestId));
    let text = format!(
        r#"{{"Response": {{"RecordCountInfo": {COUNTS}, "RecordList": [], "RequestId": 5}}}}"#
    );
    assert_eq!(error_of(&text), DecodeError::Invalid(Field::RequestId));
}

#[test]
fn response_without_its_parts_is_rejected() {
    assert_eq!(error_of("{}"), DecodeError::Missing(Field::Response));
    assert_eq!(error_of(r#"{"response": {}}"#), DecodeError::Missing(Field::Response));
    assert_eq!(error_of(r#"{"Response": {}}"#), DecodeError::Missing(Field::RecordCountInfo));
    assert_eq!(error_of(r#"{"Response": null}"#), DecodeError::Missing(Field::RecordCountInfo));
    let text = format!(r#"{{"Response": {{"RecordCountInfo": {COUNTS}, "RequestId": "r"}}}}"#);
    assert_eq!(error_of(&text), DecodeError::Missing(Field::RecordList));
    let text = r#"{"Response": {"RecordList": [], "RequestId": "r"}}"#;
    assert_eq!(error_of(text), DecodeError::Missing(Field::RecordCountInfo));
}

#[test]
fn a_list_that_is_no_array_is_invalid() {
    for list in ["null", "{}", "\"none\"", "0"] {
        assert_eq!(
            error_of(&response_with(COUNTS, list)),
            DecodeError::Invalid(Field::RecordList),
            "{list}"
        );
    }
}

#[test]
fn the_first_faulty_record_decides() {
    let no_id = RECORD.replace("\"RecordId\": 1,", "");
    let bad_ttl = RECORD.replace("\"TTL\": 600,", "\"TTL\": \"600\",");
    let list = format!("[{RECORD}, {bad_ttl}, {no_id}]");
    assert_eq!(error_of(&response_with(COUNTS, &list)), DecodeError::Invalid(Field::Ttl));
    let list = format!("[{RECORD}, {no_id}, {bad_ttl}]");
    assert_eq!(error_of(&response_with(COUNTS, &list)), DecodeError::Missing(Field::RecordId));
    let list = format!("[{RECORD}, 5]");
    assert_eq!(error_of(&response_with(COUNTS, &list)), DecodeError::Missing(Field::RecordId));
}

#[test]
fn faulty_counts_are_reported_before_a_faulty_list() {
    let text = response_with(r#"{"SubdomainCount": 2, "ListCount": 2}"#, "[5]");
    assert_eq!(error_of(&text), DecodeError::Missing(Field::TotalCount));
}

#[test]
fn records_keep_the_order_of_the_response() {
    let records: Vec<String> = [5, 3, 9, 3, 1]
        .iter()
        .map(|id| RECORD.replace("\"RecordId\": 1,", &format!("\"RecordId\": {id},")))
        .collect();
    let list = format!("[{}]", records.join(","));
    let response = DomainRecordListResponse::decode(&response_with(COUNTS, &list)).unwrap();
    let ids: Vec<u64> = response.response.record_list.iter().map(|r| r.record_id).collect();
    assert_eq!(ids, vec![5, 3, 9, 3, 1]);
    assert_eq!(response.response.request_id, "req-1");
}

#[test]
fn an_empty_list_is_a_list() {
    let response = DomainRecordListResponse::decode(&response_with(COUNTS, "[]")).unwrap();
    assert!(response.response.record_list.is_empty());
    assert_eq!(
        response.response.record_count_info,
        RecordCountInfo { subdomain_count: 2, list_count: 2, total_count: 10 }
    );
}

#[test]
fn text_that_is_no_document_is_a_syntax_error() {
    for text in ["", "   ", "{", "{\"Response\": }", "nul", "{} {}", "{'Response': 1}", "[1,]"] {
        assert_eq!(error_of(text), DecodeError::Syntax, "{text:?}");
    }
}

#[test]
fn a_document_that_is_no_response_is_not_a_syntax_error() {
    for text in ["null", "[]", "1", "\"Response\"", "true"] {
        assert_eq!(error_of(text), DecodeError::Missing(Field::Response), "{text}");
    }
}

#[test]
fn decode_agrees_with_from_json() {
    let text = response_with(COUNTS, &format!("[{RECORD}]"));
    let decoded = DomainRecordListResponse::decode(&text).unwrap();
    let direct = DomainRecordListResponse::from_json(&parse(&text)).unwrap();
    assert_eq!(format!("{decoded:?}"), format!("{direct:?}"));
    assert_eq!(decoded.response.record_list.len(), 1);
    assert_eq!(decoded.response.record_list[0].line, "默认");
}

#[test]
fn typed_readers() {
    let object = parse(
        r#"{"RecordId": 7, "Name": "www", "DefaultNS": false, "Remark": null, "TTL": 4294967296}"#,
    );
    assert_eq!(read_u64(&object, Field::RecordId), Ok(7));
    assert_eq!(read_u64(&object, Field::Ttl), Ok(4294967296));
    assert_eq!(read_u64(&object, Field::Name), Err(DecodeError::Invalid(Field::Name)));
    assert_eq!(read_u64(&object, Field::Mx), Err(DecodeError::Missing(Field::Mx)));
    assert_eq!(read_u32(&object, Field::RecordId), Ok(7));
    assert_eq!(read_u32(&object, Field::Ttl), Err(DecodeError::Invalid(Field::Ttl)));
    assert_eq!(read_u32(&object, Field::Remark), Err(DecodeError::Invalid(Field::Remark)));
    assert_eq!(read_text(&object, Field::Name), Ok("www"));
    assert_eq!(read_text(&object, Field::RecordId), Err(DecodeError::Invalid(Field::RecordId)));
    assert_eq!(read_text(&object, Field::Value), Err(DecodeError::Missing(Field::Value)));
    assert_eq!(read_flag(&object, Field::DefaultNs), Ok(false));
    assert_eq!(read_flag(&object, Field::Name), Err(DecodeError::Invalid(Field::Name)));
    assert_eq!(read_flag(&object, Field::Status), Err(DecodeError::Missing(Field::Status)));
    assert_eq!(read_optional_u64(&object, Field::RecordId), Ok(Some(7)));
    assert_eq!(read_optional_u64(&object, Field::Remark), Ok(None));
    assert_eq!(read_optional_u64(&object, Field::Mx), Ok(None));
    assert_eq!(read_optional_u64(&object, Field::Name), Err(DecodeError::Invalid(Field::Name)));
    assert_eq!(read_optional_u32(&object, Field::RecordId), Ok(Some(7)));
    assert_eq!(read_optional_u32(&object, Field::Weight), Ok(None));
    assert_eq!(read_optional_u32(&object, Field::Ttl), Err(DecodeError::Invalid(Field::Ttl)));
    assert_eq!(read_optional_text(&object, Field::Name), Ok(Some("www")));
    assert_eq!(read_optional_text(&object, Field::Remark), Ok(None));
    assert_eq!(read_optional_text(&object, Field::Line), Ok(None));
    assert_eq!(
        read_optional_text(&object, Field::DefaultNs),
        Err(DecodeError::Invalid(Field::DefaultNs))
    );
    assert_eq!(read_member(&object, Field::Remark), Ok(&Value::Null));
    assert_eq!(read_member(&object, Field::Name), Ok(&Value::from("www")));
    assert_eq!(read_member(&object, Field::Line), Err(DecodeError::Missing(Field::Line)));
    assert_eq!(read_member(&Value::Null, Field::Name), Err(DecodeError::Missing(Field::Name)));
}
