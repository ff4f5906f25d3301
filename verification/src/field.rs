//! The member names of the provider's JSON objects.

use vstd::prelude::*;

verus! {

/// A member of one of the provider's JSON objects, named as the provider spells it.
#[derive(Clone, Copy, Debug, PartialEq, Eq, Structural)]
pub enum Field {
    Domain,
    DomainId,
    Subdomain,
    SubDomain,
    RecordType,
    RecordLine,
    RecordLineId,
    GroupId,
    Keyword,
    SortField,
    SortType,
    Offset,
    Limit,
    Response,
    RecordCountInfo,
    RecordList,
    RequestId,
    SubdomainCount,
    ListCount,
    TotalCount,
    RecordId,
    Value,
    Status,
    UpdatedOn,
    Name,
    Line,
    LineId,
    Type,
    Weight,
    MonitorStatus,
    Remark,
    Ttl,
    Mx,
    DefaultNs,
}

impl Field {
    /// The member's name on the wire.
    pub open spec fn spec_key(self) -> Seq<char> {
        match self {
            Field::Domain => "Domain"@,
            Field::DomainId => "DomainId"@,
            Field::Subdomain => "Subdomain"@,
            Field::SubDomain => "SubDomain"@,
            Field::RecordType => "RecordType"@,
            Field::RecordLine => "RecordLine"@,
            Field::RecordLineId => "RecordLineId"@,
            Field::GroupId => "GroupId"@,
            Field::Keyword => "Keyword"@,
            Field::SortField => "SortField"@,
            Field::SortType => "SortType"@,
            Field::Offset => "Offset"@,
            Field::Limit => "Limit"@,
            Field::Response => "Response"@,
            Field::RecordCountInfo => "RecordCountInfo"@,
            Field::RecordList => "RecordList"@,
            Field::RequestId => "RequestId"@,
            Field::SubdomainCount => "SubdomainCount"@,
            Field::ListCount => "ListCount"@,
            Field::TotalCount => "TotalCount"@,
            Field::RecordId => "RecordId"@,
            Field::Value => "Value"@,
            Field::Status => "Status"@,
            Field::UpdatedOn => "UpdatedOn"@,
            Field::Name => "Name"@,
            Field::Line => "Line"@,
            Field::LineId => "LineId"@,
            Field::Type => "Type"@,
            Field::Weight => "Weight"@,
            Field::MonitorStatus => "MonitorStatus"@,
            Field::Remark => "Remark"@,
            Field::Ttl => "TTL"@,
            Field::Mx => "MX"@,
            Field::DefaultNs => "DefaultNS"@,
        }
    }

    /// The member's name on the wire.
    pub fn key(self) -> (name: &'static str)
        ensures
            name@ == self.spec_key(),
    {
        match self {
            Field::Domain => "Domain",
            Field::DomainId => "DomainId",
            Field::Subdomain => "Subdomain",
            Field::SubDomain => "SubDomain",
            Field::RecordType => "RecordType",
            Field::RecordLine => "RecordLine",
            Field::RecordLineId => "RecordLineId",
            Field::GroupId => "GroupId",
            Field::Keyword => "Keyword",
            Field::SortField => "SortField",
            Field::SortType => "SortType",
            Field::Offset => "Offset",
            Field::Limit => "Limit",
            Field::Response => "Response",
            Field::RecordCountInfo => "RecordCountInfo",
            Field::RecordList => "RecordList",
            Field::RequestId => "RequestId",
            Field::SubdomainCount => "SubdomainCount",
            Field::ListCount => "ListCount",
            Field::TotalCount => "TotalCount",
            Field::RecordId => "RecordId",
            Field::Value => "Value",
            Field::Status => "Status",
            Field::UpdatedOn => "UpdatedOn",
            Field::Name => "Name",
            Field::Line => "Line",
            Field::LineId => "LineId",
            Field::Type => "Type",
            Field::Weight => "Weight",
            Field::MonitorStatus => "MonitorStatus",
            Field::Remark => "Remark",
            Field::Ttl => "TTL",
            Field::Mx => "MX",
            Field::DefaultNs => "DefaultNS",
        }
    }
}

impl Field {
    /// The member that a name belongs to, if it is the name of one.
    pub open spec fn from_key(key: Seq<char>) -> Option<Field> {
        if exists|field: Field| field.spec_key() == key {
            Some(choose|field: Field| field.spec_key() == key)
        } else {
            None
        }
    }
}

/// No two members share a name.
pub proof fn lemma_keys_distinct(a: Field, b: Field)
    requires
        a.spec_key() == b.spec_key(),
    ensures
        a == b,
{
    reveal_strlit("Domain");
    reveal_strlit("DomainId");
    reveal_strlit("Subdomain");
    reveal_strlit("SubDomain");
    reveal_strlit("RecordType");
    reveal_strlit("RecordLine");
    reveal_strlit("RecordLineId");
    reveal_strlit("GroupId");
    reveal_strlit("Keyword");
    reveal_strlit("SortField");
    reveal_strlit("SortType");
    reveal_strlit("Offset");
    reveal_strlit("Limit");
    reveal_strlit("Response");
    reveal_strlit("RecordCountInfo");
    reveal_strlit("RecordList");
    reveal_strlit("RequestId");
    reveal_strlit("SubdomainCount");
    reveal_strlit("ListCount");
    reveal_strlit("TotalCount");
    reveal_strlit("RecordId");
    reveal_strlit("Value");
    reveal_strlit("Status");
    reveal_strlit("UpdatedOn");
    reveal_strlit("Name");
    reveal_strlit("Line");
    reveal_strlit("LineId");
    reveal_strlit("Type");
    reveal_strlit("Weight");
    reveal_strlit("MonitorStatus");
    reveal_strlit("Remark");
    reveal_strlit("TTL");
    reveal_strlit("MX");
    reveal_strlit("DefaultNS");
    let name = a.spec_key();
    assert(2 <= name.len() <= 15);
    assert(name[0] != ' ');
    assert(name.len() > 3 ==> name[3] != ' ');
    assert(name.len() > 8 ==> name[8] != ' ');
}

/// A name belongs to the member that it names, and to no other.
pub proof fn lemma_from_key()
    ensures
        forall|field: Field| #[trigger] Field::from_key(field.spec_key()) == Some(field),
        forall|key: Seq<char>| #[trigger]
            Field::from_key(key) matches Some(field) ==> field.spec_key() == key,
{
    assert forall|field: Field| #[trigger] Field::from_key(field.spec_key()) == Some(field) by {
        let chosen = choose|other: Field| other.spec_key() == field.spec_key();
        lemma_keys_distinct(chosen, field);
    }
}

} // verus!
