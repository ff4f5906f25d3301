//! What every endpoint tells the transport: where a request goes and what it
//! carries.

use crate::field::{lemma_from_key, Field};
use crate::json::{empty_object, json_of, number_value, set_member, text_value, Json};
use std::borrow::Cow;
use vstd::prelude::*;

verus! {

/// The provider's name for the service that all endpoints belong to.
pub open spec fn spec_service() -> Seq<char> {
    "dnspod"@
}

/// The version of the provider's interface that all endpoints speak.
pub open spec fn spec_version() -> Seq<char> {
    "2021-03-23"@
}

/// The fields of a table that carry something, each with what it carries.
pub open spec fn carried(table: Map<Field, Option<Json>>) -> Map<Field, Json> {
    Map::new(
        |field: Field| table.contains_key(field) && table[field] is Some,
        |field: Field| table[field]->0,
    )
}

/// The members of the JSON object that carries some fields: one for each field,
/// under the field's name, and no other.
pub open spec fn wire(entries: Map<Field, Json>) -> Map<Seq<char>, Json> {
    Map::new(
        |key: Seq<char>| Field::from_key(key) matches Some(field) && entries.contains_key(field),
        |key: Seq<char>| entries[Field::from_key(key)->0],
    )
}

/// A request to one action of the provider.
pub trait Endpoint: Sized {
    /// The action's name. It depends on the kind of request alone.
    spec fn spec_action() -> Seq<char>;

    /// The fields that a request carries, each with its value. A field that is
    /// optional and unset is not among them.
    spec fn entries(&self) -> Map<Field, Json>;

    fn service(&self) -> (name: Cow<'static, str>)
        ensures
            name@ == spec_service(),
    ;

    fn action(&self) -> (name: Cow<'static, str>)
        ensures
            name@ == Self::spec_action(),
    ;

    fn version(&self) -> (name: Cow<'static, str>)
        ensures
            name@ == spec_version(),
    ;

    /// The region a request is sent to. The service has none.
    fn region(&self) -> (name: Option<Cow<'_, str>>)
        ensures
            name is None,
    ;

    /// The JSON object to send: a member for each field that the request
    /// carries, under the field's name, and no other member.
    fn payload(&self) -> (value: serde_json::Value)
        ensures
            json_of(value) == Json::Object(wire(self.entries())),
    ;
}

/// Whether an object has under a name exactly what a field carries: that
/// value if it carries one, else no member at all.
pub open spec fn holds(members: Map<Seq<char>, Json>, key: Seq<char>, entry: Option<Json>) -> bool {
    match entry {
        Some(document) => members.contains_key(key) && members[key] == document,
        None => !members.contains_key(key),
    }
}

/// A payload has under the name of each field what the request carries for
/// the field, and no member for a field that the request does not carry.
pub proof fn lemma_wire_holds_entries(entries: Map<Field, Json>, field: Field)
    ensures
        holds(
            wire(entries),
            field.spec_key(),
            if entries.contains_key(field) {
                Some(entries[field])
            } else {
                None
            },
        ),
{
    lemma_from_key();
}

/// What an optional piece of text carries.
pub open spec fn text_entry(text: Option<Seq<char>>) -> Option<Json> {
    match text {
        Some(found) => Some(Json::Text(found)),
        None => None,
    }
}

/// What an optional number carries.
pub open spec fn number_entry(number: Option<u64>) -> Option<Json> {
    match number {
        Some(found) => Some(Json::Integer(found as int)),
        None => None,
    }
}

/// An optional `u32` as a `u64`.
pub open spec fn spec_widened(number: Option<u32>) -> Option<u64> {
    match number {
        Some(found) => Some(found as u64),
        None => None,
    }
}

/// An optional `u32` as a `u64`.
#[verifier::when_used_as_spec(spec_widened)]
pub fn widened(number: Option<u32>) -> (wide: Option<u64>)
    ensures
        wide == spec_widened(number),
{
    match number {
        Some(found) => Some(found as u64),
        None => None,
    }
}

/// A payload under construction: a JSON object and the table of the fields
/// that were put into it, each with what it carries, if anything.
pub struct Payload {
    object: serde_json::Value,
    table: Ghost<Map<Field, Option<Json>>>,
}

impl Payload {
    /// The fields that were put into the payload.
    pub closed spec fn table(&self) -> Map<Field, Option<Json>> {
        self.table@
    }

    /// The object has a member for each field of the table that carries
    /// something, and no other.
    pub closed spec fn well_formed(&self) -> bool {
        json_of(self.object) == Json::Object(wire(carried(self.table@)))
    }

    /// A payload without fields.
    pub fn new() -> (payload: Payload)
        ensures
            payload.well_formed(),
            payload.table() == Map::<Field, Option<Json>>::empty(),
    {
        let payload = Payload { object: empty_object(), table: Ghost(Map::empty()) };
        assert(wire(carried(Map::empty())) =~= Map::empty());
        payload
    }

    /// Puts a field that carries a piece of text, if there is one.
    pub fn text(&mut self, field: Field, text: Option<&str>)
        requires
            old(self).well_formed(),
            !old(self).table().contains_key(field),
        ensures
            final(self).well_formed(),
            final(self).table() == old(self).table().insert(field, text_entry(text.deep_view())),
    {
        proof {
            lemma_wire_insert(self.table@, field, text_entry(text.deep_view()));
            self.table@ = self.table@.insert(field, text_entry(text.deep_view()));
        }
        if let Some(found) = text {
            set_member(&mut self.object, field.key(), text_value(found));
        }
    }

    /// Puts a field that carries a number, if there is one.
    pub fn number(&mut self, field: Field, number: Option<u64>)
        requires
            old(self).well_formed(),
            !old(self).table().contains_key(field),
        ensures
            final(self).well_formed(),
            final(self).table() == old(self).table().insert(field, number_entry(number)),
    {
        proof {
            lemma_wire_insert(self.table@, field, number_entry(number));
            self.table@ = self.table@.insert(field, number_entry(number));
        }
        if let Some(found) = number {
            set_member(&mut self.object, field.key(), number_value(found));
        }
    }

    /// The JSON object to send.
    pub fn into_value(self) -> (value: serde_json::Value)
        requires
            self.well_formed(),
        ensures
            json_of(value) == Json::Object(wire(carried(self.table()))),
    {
        self.object
    }
}

/// A new field in the table is a new member in the object where the field
/// carries something, and nothing where it does not.
proof fn lemma_wire_insert(table: Map<Field, Option<Json>>, field: Field, entry: Option<Json>)
    requires
        !table.contains_key(field),
    ensures
        wire(carried(table.insert(field, entry))) == match entry {
            Some(document) => wire(carried(table)).insert(field.spec_key(), document),
            None => wire(carried(table)),
        },
{
    lemma_from_key();
    match entry {
        Some(document) => {
            assert(wire(carried(table.insert(field, entry))) =~= wire(carried(table)).insert(
                field.spec_key(),
                document,
            ));
        },
        None => {
            assert(wire(carried(table.insert(field, entry))) =~= wire(carried(table)));
        },
    }
}

} // verus!
