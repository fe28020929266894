//! From JSON values to typed records.
//!
//! A record is decoded member by member, in the order of its fields. A member
//! that the record requires has to be there with the right JSON type; one that
//! it can do without may be absent or `null`. Members that the record does not
//! know are passed over. The first member that does not fit decides the
//! [`Mismatch`] that comes back, and no record is built.

use crate::json::{Json, JsonView};
use vstd::prelude::*;

verus! {

/// The JSON types that a record asks for.
#[derive(Clone, Copy, Debug, PartialEq, Eq)]
pub enum Expected {
    Object,
    Array,
    Text,
    Boolean,
    /// An integer of 32 bits with sign.
    Int32,
    /// An integer of 64 bits with sign.
    Int64,
}

/// Why a JSON value does not have the shape of a record.
#[derive(Clone, Copy, Debug, PartialEq, Eq)]
pub enum Mismatch {
    /// The value itself, a document or an item of an array, has another type.
    Value { expected: Expected },
    /// An object lacks a member that the record requires.
    Missing { field: &'static str },
    /// A member of an object has another type.
    Field { field: &'static str, expected: Expected },
}

/// The text that a value holds, if it is a string.
pub open spec fn as_text(value: JsonView) -> Option<Seq<char>> {
    match value {
        JsonView::Text(text) => Some(text),
        _ => None,
    }
}

/// The flag that a value holds, if it is `true` or `false`.
pub open spec fn as_flag(value: JsonView) -> Option<bool> {
    match value {
        JsonView::Bool(flag) => Some(flag),
        _ => None,
    }
}

/// The number that a value holds, if it is an integer of 32 bits with sign.
pub open spec fn as_int32(value: JsonView) -> Option<i32> {
    match value {
        JsonView::Integer(number) if i32::MIN <= number <= i32::MAX => Some(number as i32),
        _ => None,
    }
}

/// The number that a value holds, if it is an integer of 64 bits with sign.
pub open spec fn as_int64(value: JsonView) -> Option<i64> {
    match value {
        JsonView::Integer(number) if i64::MIN <= number <= i64::MAX => Some(number as i64),
        _ => None,
    }
}

/// The member `field` of an object, if it has one; a mismatch for a value
/// that is no object.
pub open spec fn member_of(object: JsonView, field: Seq<char>) -> Result<
    Option<JsonView>,
    Mismatch,
> {
    match object {
        JsonView::Object(_) => Ok(object.get(field)),
        _ => Err(Mismatch::Value { expected: Expected::Object }),
    }
}

/// A member that the record requires: `read` of its value, or what is wrong
/// with `object`.
pub open spec fn required<T>(
    object: JsonView,
    field: &'static str,
    expected: Expected,
    read: spec_fn(JsonView) -> Option<T>,
) -> Result<T, Mismatch> {
    match member_of(object, field@) {
        Err(mismatch) => Err(mismatch),
        Ok(None) => Err(Mismatch::Missing { field }),
        Ok(Some(value)) => match read(value) {
            Some(found) => Ok(found),
            None => Err(Mismatch::Field { field, expected }),
        },
    }
}

/// A member that the record can do without: nothing where it is absent or
/// `null`, else `read` of its value.
pub open spec fn optional<T>(
    object: JsonView,
    field: &'static str,
    expected: Expected,
    read: spec_fn(JsonView) -> Option<T>,
) -> Result<Option<T>, Mismatch> {
    match member_of(object, field@) {
        Err(mismatch) => Err(mismatch),
        Ok(None) => Ok(None),
        Ok(Some(JsonView::Null)) => Ok(None),
        Ok(Some(value)) => match read(value) {
            Some(found) => Ok(Some(found)),
            None => Err(Mismatch::Field { field, expected }),
        },
    }
}

/// A required member that is a string.
pub open spec fn text_field(object: JsonView, field: &'static str) -> Result<Seq<char>, Mismatch> {
    required(object, field, Expected::Text, |value: JsonView| as_text(value))
}

/// A member that is a string where it is there.
pub open spec fn optional_text_field(object: JsonView, field: &'static str) -> Result<
    Option<Seq<char>>,
    Mismatch,
> {
    optional(object, field, Expected::Text, |value: JsonView| as_text(value))
}

/// A required member that is `true` or `false`.
pub open spec fn flag_field(object: JsonView, field: &'static str) -> Result<bool, Mismatch> {
    required(object, field, Expected::Boolean, |value: JsonView| as_flag(value))
}

/// A required member that is an integer of 32 bits.
pub open spec fn int32_field(object: JsonView, field: &'static str) -> Result<i32, Mismatch> {
    required(object, field, Expected::Int32, |value: JsonView| as_int32(value))
}

/// A required member that is an integer of 64 bits.
pub open spec fn int64_field(object: JsonView, field: &'static str) -> Result<i64, Mismatch> {
    required(object, field, Expected::Int64, |value: JsonView| as_int64(value))
}

/// A required member that is an array of `T`. An item that is no `T` gives
/// its own mismatch.
pub open spec fn list_field<T: Decode>(object: JsonView, field: &'static str) -> Result<
    Seq<T::V>,
    Mismatch,
> {
    match member_of(object, field@) {
        Err(mismatch) => Err(mismatch),
        Ok(None) => Err(Mismatch::Missing { field }),
        Ok(Some(JsonView::Array(items))) => decoded_items::<T>(items),
        Ok(Some(_)) => Err(Mismatch::Field { field, expected: Expected::Array }),
    }
}

/// Whether `at` is the place of the first item that is no `T`.
pub open spec fn first_misfit<T: Decode>(items: Seq<JsonView>, at: int) -> bool {
    &&& 0 <= at < items.len()
    &&& T::decoded(items[at]) is Err
    &&& forall|k: int| 0 <= k < at ==> (#[trigger] T::decoded(items[k])) is Ok
}

/// All items decoded, in their order; or the mismatch of the first item that
/// is no `T`.
pub open spec fn decoded_items<T: Decode>(items: Seq<JsonView>) -> Result<Seq<T::V>, Mismatch> {
    if exists|at: int| first_misfit::<T>(items, at) {
        Err(T::decoded(items[choose|at: int| first_misfit::<T>(items, at)])->Err_0)
    } else {
        Ok(Seq::new(items.len(), |i: int| T::decoded(items[i])->Ok_0))
    }
}

/// The first misfit is one place only.
pub proof fn lemma_first_misfit_unique<T: Decode>(items: Seq<JsonView>, at: int, other: int)
    requires
        first_misfit::<T>(items, at),
        first_misfit::<T>(items, other),
    ensures
        at == other,
{
    if at < other {
        assert(T::decoded(items[at]) is Ok);
    }
    if other < at {
        assert(T::decoded(items[other]) is Ok);
    }
}

/// Whether an outcome of decoding is the one that the shape prescribes: the
/// value whose view is prescribed, or the prescribed mismatch.
pub open spec fn agrees<T: DeepView>(
    got: Result<T, Mismatch>,
    due: Result<T::V, Mismatch>,
) -> bool {
    match (got, due) {
        (Ok(value), Ok(model)) => value.deep_view() == model,
        (Err(mismatch), Err(reason)) => mismatch == reason,
        _ => false,
    }
}

/// A type that is decoded from a JSON value.
pub trait Decode: Sized + DeepView {
    /// What a JSON value decodes to: the view of the record, or the first
    /// thing about the value that does not fit.
    spec fn decoded(json: JsonView) -> Result<Self::V, Mismatch>;

    /// Decodes one value. Nothing is built unless all of it fits.
    fn from_json(json: &Json) -> (got: Result<Self, Mismatch>)
        ensures
            agrees(got, Self::decoded(json@)),
    ;
}

impl Decode for String {
    open spec fn decoded(json: JsonView) -> Result<Seq<char>, Mismatch> {
        match json {
            JsonView::Text(text) => Ok(text),
            _ => Err(Mismatch::Value { expected: Expected::Text }),
        }
    }

    fn from_json(json: &Json) -> (got: Result<String, Mismatch>) {
        match json {
            Json::Text(text) => Ok(text.clone()),
            _ => Err(Mismatch::Value { expected: Expected::Text }),
        }
    }
}

/// Decodes the items of an array one after the other and stops at the first
/// that does not fit.
pub fn items_from_json<T: Decode>(items: &Vec<Json>) -> (got: Result<Vec<T>, Mismatch>)
    ensures
        agrees(got, decoded_items::<T>(Json::Array(*items)@->Array_0)),
{
    let ghost views = Json::Array(*items)@->Array_0;
    let mut out: Vec<T> = Vec::new();
    let mut i: usize = 0;
    while i < items.len()
        invariant
            i <= items.len(),
            out.len() == i,
            views == Json::Array(*items)@->Array_0,
            views.len() == items.len(),
            forall|k: int| 0 <= k < items.len() ==> views[k] == #[trigger] items@[k]@,
            forall|k: int|
                0 <= k < i ==> ((#[trigger] T::decoded(views[k])) matches Ok(model)
                    && model == out@[k].deep_view()),
        decreases items.len() - i,
    {
        match T::from_json(&items[i]) {
            Ok(item) => {
                out.push(item);
            },
            Err(mismatch) => {
                proof {
                    assert(views[i as int] == items@[i as int]@);
                    assert(first_misfit::<T>(views, i as int));
                    let chosen = choose|at: int| first_misfit::<T>(views, at);
                    lemma_first_misfit_unique::<T>(views, i as int, chosen);
                }
                return Err(mismatch);
            },
        }
        i = i + 1;
    }
    proof {
        assert forall|at: int| !first_misfit::<T>(views, at) by {
            if 0 <= at < views.len() {
                assert(T::decoded(views[at]) is Ok);
            }
        }
        assert(out.deep_view() =~= Seq::new(views.len(), |i: int| T::decoded(views[i])->Ok_0));
    }
    Ok(out)
}

impl<T: Decode> Decode for Vec<T> {
    open spec fn decoded(json: JsonView) -> Result<Seq<T::V>, Mismatch> {
        match json {
            JsonView::Array(items) => decoded_items::<T>(items),
            _ => Err(Mismatch::Value { expected: Expected::Array }),
        }
    }

    fn from_json(json: &Json) -> (got: Result<Vec<T>, Mismatch>) {
        match json {
            Json::Array(items) => items_from_json(items),
            _ => Err(Mismatch::Value { expected: Expected::Array }),
        }
    }
}

/// Looks a member of an object up.
fn find_member<'a>(object: &'a Json, field: &str) -> (got: Result<Option<&'a Json>, Mismatch>)
    ensures
        match (got, member_of(object@, field@)) {
            (Ok(Some(value)), Ok(Some(model))) => value@ == model,
            (Ok(None), Ok(None)) => true,
            (Err(mismatch), Err(reason)) => mismatch == reason,
            _ => false,
        },
{
    match object {
        Json::Object(_) => Ok(object.get(field)),
        _ => Err(Mismatch::Value { expected: Expected::Object }),
    }
}

/// Reads a required member that is a string.
pub fn required_text(object: &Json, field: &'static str) -> (got: Result<String, Mismatch>)
    ensures
        agrees(got, text_field(object@, field)),
{
    match find_member(object, field)? {
        None => Err(Mismatch::Missing { field }),
        Some(Json::Text(text)) => Ok(text.clone()),
        Some(_) => Err(Mismatch::Field { field, expected: Expected::Text }),
    }
}

/// Reads a member that is a string where it is there.
pub fn optional_text(object: &Json, field: &'static str) -> (got: Result<Option<String>, Mismatch>)
    ensures
        agrees(got, optional_text_field(object@, field)),
{
    match find_member(object, field)? {
        None => Ok(None),
        Some(Json::Null) => Ok(None),
        Some(Json::Text(text)) => Ok(Some(text.clone())),
        Some(_) => Err(Mismatch::Field { field, expected: Expected::Text }),
    }
}

/// Reads a required member that is `true` or `false`.
pub fn required_flag(object: &Json, field: &'static str) -> (got: Result<bool, Mismatch>)
    ensures
        agrees(got, flag_field(object@, field)),
{
    match find_member(object, field)? {
        None => Err(Mismatch::Missing { field }),
        Some(Json::Bool(flag)) => Ok(*flag),
        Some(_) => Err(Mismatch::Field { field, expected: Expected::Boolean }),
    }
}

/// Reads a required member that is an integer of 64 bits.
pub fn required_int64(object: &Json, field: &'static str) -> (got: Result<i64, Mismatch>)
    ensures
        agrees(got, int64_field(object@, field)),
{
    match find_member(object, field)? {
        None => Err(Mismatch::Missing { field }),
        Some(Json::Signed(number)) => Ok(*number),
        Some(Json::Unsigned(number)) if *number <= 0x7FFF_FFFF_FFFF_FFFF => Ok(*number as i64),
        Some(_) => Err(Mismatch::Field { field, expected: Expected::Int64 }),
    }
}

/// Reads a required member that is an integer of 32 bits.
pub fn required_int32(object: &Json, field: &'static str) -> (got: Result<i32, Mismatch>)
    ensures
        agrees(got, int32_field(object@, field)),
{
    match find_member(object, field)? {
        None => Err(Mismatch::Missing { field }),
        Some(Json::Signed(number)) if -0x8000_0000 <= *number && *number <= 0x7FFF_FFFF => Ok(
            *number as i32,
        ),
        Some(Json::Unsigned(number)) if *number <= 0x7FFF_FFFF => Ok(*number as i32),
        Some(_) => Err(Mismatch::Field { field, expected: Expected::Int32 }),
    }
}

/// Reads a required member that is an array of `T`.
pub fn required_list<T: Decode>(object: &Json, field: &'static str) -> (got: Result<
    Vec<T>,
    Mismatch,
>)
    ensures
        agrees(got, list_field::<T>(object@, field)),
{
    match find_member(object, field)? {
        None => Err(Mismatch::Missing { field }),
        Some(Json::Array(items)) => items_from_json(items),
        Some(_) => Err(Mismatch::Field { field, expected: Expected::Array }),
    }
}

} // verus!
