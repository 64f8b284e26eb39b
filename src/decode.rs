//! Classification of response bodies: a decoded result, "no data" when the
//! service reports nothing, or a malformed payload.

use vstd::prelude::*;

verus! {

#[verifier::external_type_specification]
#[verifier::external_body]
pub struct ExJsonError(serde_json::Error);

/// Why a response yielded no record.
#[derive(Debug)]
pub enum ApiError {
    /// The service answered, but with nothing: an empty list, or a null
    /// `error` member.
    Null,
    /// The body did not have the expected JSON shape.
    Error(serde_json::Error),
}

/// What the top level of a JSON document holds under the member `error`.
#[derive(Clone, Copy, Debug, PartialEq, Eq, Structural)]
pub enum ErrorMember {
    /// No such member, or the document is not an object.
    Absent,
    /// The member is `null`.
    Null,
    /// The member holds some other value.
    Present,
}

/// The `error` member of the JSON text `text`, or `None` when the text is
/// not JSON.
pub uninterp spec fn error_member_of(text: Seq<char>) -> Option<ErrorMember>;

/// Relies on `serde_json::from_str::<serde_json::Value>` to parse the text,
/// and on `serde_json::Value::get` with a `str` key, which looks the key up
/// in an object and gives `None` for any other value.
#[verifier::external_body]
fn read_error_member(text: &str) -> (r: Result<ErrorMember, serde_json::Error>)
    ensures
        match r {
            Ok(m) => error_member_of(text@) == Some(m),
            Err(_) => error_member_of(text@) is None,
        },
{
    let v: serde_json::Value = serde_json::from_str(text)?;
    Ok(
        match v.get("error") {
            None => ErrorMember::Absent,
            Some(serde_json::Value::Null) => ErrorMember::Null,
            Some(_) => ErrorMember::Present,
        },
    )
}

/// Classifies a decoded list: a parse failure is malformed, an empty list
/// is "no data", anything else is the result.
pub fn classify_list<T>(parsed: Result<Vec<T>, serde_json::Error>) -> (r: Result<Vec<T>, ApiError>)
    ensures
        match parsed {
            Err(e) => r matches Err(ApiError::Error(e2)) && e2 == e,
            Ok(v) => if v@.len() == 0 {
                r matches Err(ApiError::Null)
            } else {
                r matches Ok(w) && w == v
            },
        },
{
    match parsed {
        Err(e) => Err(ApiError::Error(e)),
        Ok(v) => if v.len() == 0 {
            Err(ApiError::Null)
        } else {
            Ok(v)
        },
    }
}

/// Classifies a single-record body from its `error` member: a parse failure
/// is malformed, a null `error` is "no data", anything else may be decoded.
pub fn classify_record(member: Result<ErrorMember, serde_json::Error>) -> (r: Result<(), ApiError>)
    ensures
        match member {
            Err(e) => r matches Err(ApiError::Error(e2)) && e2 == e,
            Ok(m) => if m == ErrorMember::Null {
                r matches Err(ApiError::Null)
            } else {
                r is Ok
            },
        },
{
    match member {
        Err(e) => Err(ApiError::Error(e)),
        Ok(ErrorMember::Null) => Err(ApiError::Null),
        Ok(_) => Ok(()),
    }
}

/// Checks a single-record body before it is decoded: malformed when it is
/// not JSON, "no data" when its `error` member is null, fine otherwise.
pub fn check_record(text: &str) -> (r: Result<(), ApiError>)
    ensures
        error_member_of(text@) is None <==> r matches Err(ApiError::Error(_)),
        error_member_of(text@) == Some(ErrorMember::Null) <==> r matches Err(ApiError::Null),
        r is Ok <==> (error_member_of(text@) matches Some(m) && m != ErrorMember::Null),
{
    classify_record(read_error_member(text))
}

/// The first record of a list; "no data" when the list is empty.
pub fn first_record<T>(list: Vec<T>) -> (r: Result<T, ApiError>)
    ensures
        list@.len() == 0 ==> r matches Err(ApiError::Null),
        list@.len() > 0 ==> (r matches Ok(x) && x == list@[0]),
{
    let mut list = list;
    if list.len() == 0 {
        Err(ApiError::Null)
    } else {
        Ok(list.swap_remove(0))
    }
}

/// The `num`-th record of a list, counted from 1; "no data" when there is
/// no such record.
pub fn nth_record<T>(list: Vec<T>, num: i8) -> (r: Result<T, ApiError>)
    ensures
        1 <= num <= list@.len() ==> (r matches Ok(x) && x == list@[num - 1]),
        !(1 <= num <= list@.len()) ==> r matches Err(ApiError::Null),
{
    let mut list = list;
    if num < 1 || num as usize > list.len() {
        Err(ApiError::Null)
    } else {
        Ok(list.swap_remove(num as usize - 1))
    }
}

/// The last record of a list; "no data" when the list is empty.
pub fn last_record<T>(list: Vec<T>) -> (r: Result<T, ApiError>)
    ensures
        list@.len() == 0 ==> r matches Err(ApiError::Null),
        list@.len() > 0 ==> (r matches Ok(x) && x == list@.last()),
{
    let mut list = list;
    match list.pop() {
        Some(x) => Ok(x),
        None => Err(ApiError::Null),
    }
}

} // verus!
