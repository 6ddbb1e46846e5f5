//! Reading the members of a JSON object out of the bytes of an answer.

use vstd::prelude::*;
use crate::error::{Error, ErrorKind};
use crate::utils::http::{Exchange, Response};
use crate::utils::text::optional_chars;

verus! {

/// The text that `body`, read as JSON by `serde_json`, holds at the JSON
/// pointer `pointer`: `None` where `body` is no JSON or holds no string
/// there.
pub uninterp spec fn spec_json_text(body: Seq<u8>, pointer: Seq<char>) -> Option<Seq<char>>;

/// The integer that `body`, read as JSON by `serde_json`, holds at the JSON
/// pointer `pointer`: `None` where `body` is no JSON or holds no integer
/// there that a signed 64-bit number can hold.
pub uninterp spec fn spec_json_integer(body: Seq<u8>, pointer: Seq<char>) -> Option<int>;

/// The integer that `body`, read as JSON by `serde_json`, holds at the JSON
/// pointer `pointer`: `None` where `body` is no JSON or holds no integer
/// there that an unsigned 64-bit number can hold.
pub uninterp spec fn spec_json_unsigned(body: Seq<u8>, pointer: Seq<char>) -> Option<int>;

/// The number of elements of the array that `body`, read as JSON by
/// `serde_json`, holds at the JSON pointer `pointer`: `None` where `body` is
/// no JSON or holds no array there.
pub uninterp spec fn spec_json_length(body: Seq<u8>, pointer: Seq<char>) -> Option<int>;

/// Trusted: `serde_json::from_slice` into a `serde_json::Value`, then
/// `Value::pointer` and `Value::as_str`. The result is named by
/// [`spec_json_text`].
#[verifier::external_body]
pub(crate) fn text_at(body: &[u8], pointer: &str) -> (r: Option<String>)
    ensures
        optional_chars(r) == spec_json_text(body@, pointer@),
{
    match serde_json::from_slice::<serde_json::Value>(body) {
        Ok(value) => match value.pointer(pointer) {
            Some(member) => match member.as_str() {
                Some(text) => Some(text.to_string()),
                None => None,
            },
            None => None,
        },
        Err(_) => None,
    }
}

/// Trusted: `serde_json::from_slice` into a `serde_json::Value`, then
/// `Value::pointer` and `Value::as_i64`. The result is named by
/// [`spec_json_integer`].
#[verifier::external_body]
pub(crate) fn integer_at(body: &[u8], pointer: &str) -> (r: Option<i64>)
    ensures
        r.is_some() == spec_json_integer(body@, pointer@).is_some(),
        r matches Some(n) ==> spec_json_integer(body@, pointer@) == Some(n as int),
{
    match serde_json::from_slice::<serde_json::Value>(body) {
        Ok(value) => match value.pointer(pointer) {
            Some(member) => member.as_i64(),
            None => None,
        },
        Err(_) => None,
    }
}

/// Trusted: `serde_json::from_slice` into a `serde_json::Value`, then
/// `Value::pointer` and `Value::as_u64`. The result is named by
/// [`spec_json_unsigned`].
#[verifier::external_body]
pub(crate) fn unsigned_at(body: &[u8], pointer: &str) -> (r: Option<u64>)
    ensures
        r.is_some() == spec_json_unsigned(body@, pointer@).is_some(),
        r matches Some(n) ==> spec_json_unsigned(body@, pointer@) == Some(n as int),
{
    match serde_json::from_slice::<serde_json::Value>(body) {
        Ok(value) => match value.pointer(pointer) {
            Some(member) => member.as_u64(),
            None => None,
        },
        Err(_) => None,
    }
}

/// Trusted: `serde_json::from_slice` into a `serde_json::Value`, then
/// `Value::pointer`, `Value::as_array` and the length of the vector. The
/// result is named by [`spec_json_length`].
#[verifier::external_body]
pub(crate) fn length_at(body: &[u8], pointer: &str) -> (r: Option<usize>)
    ensures
        r.is_some() == spec_json_length(body@, pointer@).is_some(),
        r matches Some(n) ==> spec_json_length(body@, pointer@) == Some(n as int),
{
    match serde_json::from_slice::<serde_json::Value>(body) {
        Ok(value) => match value.pointer(pointer) {
            Some(member) => match member.as_array() {
                Some(elements) => Some(elements.len()),
                None => None,
            },
            None => None,
        },
        Err(_) => None,
    }
}

/// The 32-bit integer at `pointer`, if there is an integer and it fits.
pub open spec fn spec_json_i32(body: Seq<u8>, pointer: Seq<char>) -> Option<i32> {
    match spec_json_integer(body, pointer) {
        Some(n) => if i32::MIN <= n <= i32::MAX {
            Some(n as i32)
        } else {
            None
        },
        None => None,
    }
}

/// The 32-bit integer at `pointer`, if there is an integer and it fits.
pub fn i32_at(body: &[u8], pointer: &str) -> (r: Option<i32>)
    ensures
        r == spec_json_i32(body@, pointer@),
{
    match integer_at(body, pointer) {
        Some(n) => {
            if -2147483648 <= n && n <= 2147483647 {
                Some(n as i32)
            } else {
                None
            }
        },
        None => None,
    }
}

/// The remote's refusal, if `body` reports one: an error code other than 0
/// in the member `errcode`, with the message of the member `errmsg`, or no
/// message where there is none.
pub open spec fn spec_refusal(body: Seq<u8>) -> Option<(int, Seq<char>)> {
    match spec_json_integer(body, "/errcode"@) {
        Some(code) => if code != 0 {
            Some(
                (
                    code,
                    match spec_json_text(body, "/errmsg"@) {
                        Some(message) => message,
                        None => Seq::empty(),
                    },
                ),
            )
        } else {
            None
        },
        None => None,
    }
}

/// The remote's refusal, if `body` reports one.
pub fn refusal(body: &[u8]) -> (r: Option<(i64, String)>)
    ensures
        r.is_some() == spec_refusal(body@).is_some(),
        r matches Some(refused) ==> spec_refusal(body@) == Some((refused.0 as int, refused.1@)),
{
    match integer_at(body, "/errcode") {
        Some(code) => {
            if code != 0 {
                let message = match text_at(body, "/errmsg") {
                    Some(message) => message,
                    None => String::new(),
                };
                Some((code, message))
            } else {
                None
            }
        },
        None => None,
    }
}

/// The message of the failure that an answer without the expected members
/// gives.
pub open spec fn member_missing() -> Seq<char> {
    "the answer lacks an expected member"@
}

/// The failure that an answer without the expected members gives.
pub fn missing_member() -> (e: Error)
    ensures
        e@ == (ErrorKind::Decode, member_missing()),
{
    Error::Decode("the answer lacks an expected member".to_string())
}

/// Takes an exchange apart: the bytes of a successful answer, or, where
/// there is none, the same observation for whatever the answer would have
/// been decoded to.
pub fn answer_of<T>(exchange: Exchange<Vec<u8>>) -> (r: Result<Vec<u8>, Exchange<T>>)
    ensures
        exchange matches Exchange::Decoded { body } ==> r == Ok::<Vec<u8>, Exchange<T>>(body),
        exchange matches Exchange::Unreachable { message } ==> r == Err::<Vec<u8>, Exchange<T>>(
            Exchange::Unreachable { message },
        ),
        exchange matches Exchange::Refused { status, text } ==> r == Err::<Vec<u8>, Exchange<T>>(
            Exchange::Refused { status, text },
        ),
        exchange matches Exchange::Undecodable { message } ==> r == Err::<Vec<u8>, Exchange<T>>(
            Exchange::Undecodable { message },
        ),
{
    match exchange {
        Exchange::Decoded { body } => Ok(body),
        Exchange::Unreachable { message } => Err(Exchange::Unreachable { message }),
        Exchange::Refused { status, text } => Err(Exchange::Refused { status, text }),
        Exchange::Undecodable { message } => Err(Exchange::Undecodable { message }),
    }
}

/// A decoded answer that is either data or a refusal, as mathematics.
pub enum ReplyModel<M> {
    Data(M),
    Refusal { code: int, message: Seq<char> },
}

/// A refusal in the library's terms.
pub fn refused<T>(refusal: (i64, String)) -> (r: Response<T>)
    ensures
        r == (Response::<T>::Error { code: refusal.0, message: refusal.1 }),
{
    Response::Error { code: refusal.0, message: refusal.1 }
}

} // verus!
