//! Reading typed members out of a JSON object.
//!
//! An object's layout is a list of [`Member`]s. The first member of the list
//! that the object does not satisfy decides the error; an object that
//! satisfies them all has a value for each.

use crate::error::DecodeError;
use crate::field::Field;
use crate::json::{as_unsigned, get_member, json_of, member, Json};
use vstd::prelude::*;

verus! {

/// The type of value that a member holds.
pub enum Kind {
    /// An integer from 0 to `u64::MAX`.
    Unsigned64,
    /// An integer from 0 to `u32::MAX`.
    Unsigned32,
    Text,
    Flag,
}

/// One member of an object's layout.
pub struct Member {
    pub field: Field,
    pub kind: Kind,
    /// Whether the object must have the member. One that need not be there may
    /// also be `null`.
    pub required: bool,
}

/// A member that the object must have.
pub open spec fn required(field: Field, kind: Kind) -> Member {
    Member { field, kind, required: true }
}

/// A member that the object need not have.
pub open spec fn optional(field: Field, kind: Kind) -> Member {
    Member { field, kind, required: false }
}

/// Whether a document is a value of a kind.
pub open spec fn admits(kind: Kind, document: Json) -> bool {
    match kind {
        Kind::Unsigned64 => as_unsigned(document) is Some,
        Kind::Unsigned32 => as_unsigned(document) matches Some(n) && n <= u32::MAX,
        Kind::Text => document is Text,
        Kind::Flag => document is Boolean,
    }
}

/// What is wrong with one member of an object, if anything.
pub open spec fn fault(document: Json, entry: Member) -> Option<DecodeError> {
    match member(document, entry.field.spec_key()) {
        None => if entry.required {
            Some(DecodeError::Missing(entry.field))
        } else {
            None
        },
        Some(found) => if !entry.required && found is Null {
            None
        } else if admits(entry.kind, found) {
            None
        } else {
            Some(DecodeError::Invalid(entry.field))
        },
    }
}

/// The fault of the first member, from `start` on, that has one.
pub open spec fn first_fault_from(document: Json, layout: Seq<Member>, start: int) -> Option<
    DecodeError,
>
    decreases layout.len() - start,
{
    if start < 0 || start >= layout.len() {
        None
    } else {
        match fault(document, layout[start]) {
            Some(error) => Some(error),
            None => first_fault_from(document, layout, start + 1),
        }
    }
}

/// The fault of the first member of a layout that has one.
pub open spec fn first_fault(document: Json, layout: Seq<Member>) -> Option<DecodeError> {
    first_fault_from(document, layout, 0)
}

/// Whether a layout asks for a field.
pub open spec fn asks_for(layout: Seq<Member>, field: Field) -> bool {
    exists|at: int|
        0 <= at < layout.len() && (#[trigger] layout[at]).required && layout[at].field == field
}

/// An object that lacks a member that its layout asks for has a fault, and
/// so has everything that is no object.
pub proof fn lemma_absent_member_is_a_fault(document: Json, layout: Seq<Member>, field: Field)
    requires
        asks_for(layout, field),
        member(document, field.spec_key()) is None,
    ensures
        first_fault(document, layout) is Some,
{
    let at = choose|at: int|
        0 <= at < layout.len() && (#[trigger] layout[at]).required && layout[at].field == field;
    lemma_fault_at(document, layout, 0, at);
}

/// A fault at an index shows from every index up to it.
proof fn lemma_fault_at(document: Json, layout: Seq<Member>, start: int, at: int)
    requires
        0 <= start <= at < layout.len(),
        fault(document, layout[at]) is Some,
    ensures
        first_fault_from(document, layout, start) is Some,
    decreases at - start,
{
    if start < at {
        lemma_fault_at(document, layout, start + 1, at);
    }
}

/// Whether the outcome at an index is an error and none before it is.
pub open spec fn is_first_error<T>(outcomes: Seq<Result<T, DecodeError>>, at: int) -> bool {
    &&& 0 <= at < outcomes.len()
    &&& outcomes[at] is Err
    &&& forall|before: int| 0 <= before < at ==> (#[trigger] outcomes[before]) is Ok
}

/// All the values, in order, where every outcome has one; else the first error.
pub open spec fn collected<T>(outcomes: Seq<Result<T, DecodeError>>) -> Result<
    Seq<T>,
    DecodeError,
> {
    if exists|at: int| is_first_error(outcomes, at) {
        Err(outcomes[choose|at: int| is_first_error(outcomes, at)]->Err_0)
    } else {
        Ok(outcomes.map_values(|outcome: Result<T, DecodeError>| outcome->Ok_0))
    }
}

/// Where the first error stands at an index, that error is what is collected.
pub proof fn lemma_first_error<T>(outcomes: Seq<Result<T, DecodeError>>, at: int)
    requires
        is_first_error(outcomes, at),
    ensures
        collected(outcomes) == Err::<Seq<T>, DecodeError>(outcomes[at]->Err_0),
{
    let chosen = choose|other: int| is_first_error(outcomes, other);
    assert(outcomes[at] is Err);
    assert(outcomes[chosen] is Err);
    assert(chosen == at);
}

/// What decoding finds under a required member: the absence of the member, or
/// what decoding its value gives.
pub open spec fn nested<T>(
    document: Json,
    field: Field,
    decode: spec_fn(Json) -> Result<T, DecodeError>,
) -> Result<T, DecodeError> {
    match member(document, field.spec_key()) {
        Some(inner) => decode(inner),
        None => Err(DecodeError::Missing(field)),
    }
}

/// The integer under a field, where there is one.
pub open spec fn integer_at(document: Json, field: Field) -> Option<int> {
    match member(document, field.spec_key()) {
        Some(Json::Integer(n)) => Some(n),
        _ => None,
    }
}

/// The text under a field, where there is one.
pub open spec fn text_at(document: Json, field: Field) -> Option<Seq<char>> {
    match member(document, field.spec_key()) {
        Some(Json::Text(text)) => Some(text),
        _ => None,
    }
}

/// The flag under a field, where there is one.
pub open spec fn flag_at(document: Json, field: Field) -> Option<bool> {
    match member(document, field.spec_key()) {
        Some(Json::Boolean(flag)) => Some(flag),
        _ => None,
    }
}

/// An optional integer as a `u64`.
pub open spec fn to_u64(number: Option<int>) -> Option<u64> {
    match number {
        Some(n) => Some(n as u64),
        None => None,
    }
}

/// An optional integer as a `u32`.
pub open spec fn to_u32(number: Option<int>) -> Option<u32> {
    match number {
        Some(n) => Some(n as u32),
        None => None,
    }
}

/// Reads a required member of any type.
pub fn read_member<'a>(object: &'a serde_json::Value, field: Field) -> (outcome: Result<
    &'a serde_json::Value,
    DecodeError,
>)
    ensures
        match outcome {
            Ok(found) => member(json_of(*object), field.spec_key()) == Some(json_of(*found)),
            Err(error) => member(json_of(*object), field.spec_key()) is None && error
                == DecodeError::Missing(field),
        },
{
    match get_member(object, field.key()) {
        Some(found) => Ok(found),
        None => Err(DecodeError::Missing(field)),
    }
}

/// Finds a member that an object need not have. One that is `null` counts as
/// absent.
fn find_optional<'a>(object: &'a serde_json::Value, field: Field) -> (outcome: Option<
    &'a serde_json::Value,
>)
    ensures
        match outcome {
            Some(found) => member(json_of(*object), field.spec_key()) == Some(json_of(*found))
                && !(json_of(*found) is Null),
            None => member(json_of(*object), field.spec_key()) is None || member(
                json_of(*object),
                field.spec_key(),
            ) == Some(Json::Null),
        },
{
    match get_member(object, field.key()) {
        Some(found) if !found.is_null() => Some(found),
        _ => None,
    }
}

/// The number that a value is, if it is an integer from 0 to `limit`.
fn unsigned_within(found: &serde_json::Value, limit: u64) -> (number: Option<u64>)
    ensures
        number == match as_unsigned(json_of(*found)) {
            Some(n) if n <= limit => Some(n),
            _ => None,
        },
{
    match found.as_u64() {
        Some(n) if n <= limit => Some(n),
        _ => None,
    }
}

/// Reads a required member that is an integer from 0 to `u64::MAX`.
pub fn read_u64(object: &serde_json::Value, field: Field) -> (outcome: Result<u64, DecodeError>)
    ensures
        match outcome {
            Ok(number) => fault(json_of(*object), required(field, Kind::Unsigned64)) is None
                && integer_at(json_of(*object), field) == Some(number as int),
            Err(error) => fault(json_of(*object), required(field, Kind::Unsigned64)) == Some(
                error,
            ),
        },
{
    let found = read_member(object, field)?;
    match unsigned_within(found, u64::MAX) {
        Some(number) => Ok(number),
        None => Err(DecodeError::Invalid(field)),
    }
}

/// Reads a required member that is an integer from 0 to `u32::MAX`.
pub fn read_u32(object: &serde_json::Value, field: Field) -> (outcome: Result<u32, DecodeError>)
    ensures
        match outcome {
            Ok(number) => fault(json_of(*object), required(field, Kind::Unsigned32)) is None
                && integer_at(json_of(*object), field) == Some(number as int),
            Err(error) => fault(json_of(*object), required(field, Kind::Unsigned32)) == Some(
                error,
            ),
        },
{
    let found = read_member(object, field)?;
    match unsigned_within(found, u32::MAX as u64) {
        Some(number) => Ok(number as u32),
        None => Err(DecodeError::Invalid(field)),
    }
}

/// Reads a required member that is a string.
pub fn read_text<'a>(object: &'a serde_json::Value, field: Field) -> (outcome: Result<
    &'a str,
    DecodeError,
>)
    ensures
        match outcome {
            Ok(text) => fault(json_of(*object), required(field, Kind::Text)) is None && text_at(
                json_of(*object),
                field,
            ) == Some(text@),
            Err(error) => fault(json_of(*object), required(field, Kind::Text)) == Some(error),
        },
{
    let found = read_member(object, field)?;
    match found.as_str() {
        Some(text) => Ok(text),
        None => Err(DecodeError::Invalid(field)),
    }
}

/// Reads a required member that is a boolean.
pub fn read_flag(object: &serde_json::Value, field: Field) -> (outcome: Result<bool, DecodeError>)
    ensures
        match outcome {
            Ok(flag) => fault(json_of(*object), required(field, Kind::Flag)) is None && flag_at(
                json_of(*object),
                field,
            ) == Some(flag),
            Err(error) => fault(json_of(*object), required(field, Kind::Flag)) == Some(error),
        },
{
    let found = read_member(object, field)?;
    match found.as_bool() {
        Some(flag) => Ok(flag),
        None => Err(DecodeError::Invalid(field)),
    }
}

/// Reads a member that may be absent and is otherwise an integer from 0 to
/// `u64::MAX`.
pub fn read_optional_u64(object: &serde_json::Value, field: Field) -> (outcome: Result<
    Option<u64>,
    DecodeError,
>)
    ensures
        match outcome {
            Ok(number) => fault(json_of(*object), optional(field, Kind::Unsigned64)) is None && (
            match number {
                Some(n) => integer_at(json_of(*object), field) == Some(n as int),
                None => integer_at(json_of(*object), field) is None,
            }),
            Err(error) => fault(json_of(*object), optional(field, Kind::Unsigned64)) == Some(
                error,
            ),
        },
{
    match find_optional(object, field) {
        Some(found) => match unsigned_within(found, u64::MAX) {
            Some(number) => Ok(Some(number)),
            None => Err(DecodeError::Invalid(field)),
        },
        None => Ok(None),
    }
}

/// Reads a member that may be absent and is otherwise an integer from 0 to
/// `u32::MAX`.
pub fn read_optional_u32(object: &serde_json::Value, field: Field) -> (outcome: Result<
    Option<u32>,
    DecodeError,
>)
    ensures
        match outcome {
            Ok(number) => fault(json_of(*object), optional(field, Kind::Unsigned32)) is None && (
            match number {
                Some(n) => integer_at(json_of(*object), field) == Some(n as int),
                None => integer_at(json_of(*object), field) is None,
            }),
            Err(error) => fault(json_of(*object), optional(field, Kind::Unsigned32)) == Some(
                error,
            ),
        },
{
    match find_optional(object, field) {
        Some(found) => match unsigned_within(found, u32::MAX as u64) {
            Some(number) => Ok(Some(number as u32)),
            None => Err(DecodeError::Invalid(field)),
        },
        None => Ok(None),
    }
}

/// Reads a member that may be absent and is otherwise a string.
pub fn read_optional_text<'a>(object: &'a serde_json::Value, field: Field) -> (outcome: Result<
    Option<&'a str>,
    DecodeError,
>)
    ensures
        match outcome {
            Ok(text) => fault(json_of(*object), optional(field, Kind::Text)) is None && (
            match text {
                Some(t) => text_at(json_of(*object), field) == Some(t@),
                None => text_at(json_of(*object), field) is None,
            }),
            Err(error) => fault(json_of(*object), optional(field, Kind::Text)) == Some(error),
        },
{
    match find_optional(object, field) {
        Some(found) => match found.as_str() {
            Some(text) => Ok(Some(text)),
            None => Err(DecodeError::Invalid(field)),
        },
        None => Ok(None),
    }
}

} // verus!
