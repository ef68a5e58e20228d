//! The token that a request carries.

use crate::error::{AppError, ErrorValue};
use crate::text::starts_with;
use axum::http::{HeaderMap, HeaderValue};
use vstd::prelude::*;
use vstd::string::*;

verus! {

/// The headers of a request, as the `http` crate keeps them.
#[verifier::external_type_specification]
#[verifier::external_body]
#[verifier::reject_recursive_types(T)]
pub struct ExHeaderMap<T>(axum::http::HeaderMap<T>);

/// The value of a header, as the `http` crate keeps it.
#[verifier::external_type_specification]
#[verifier::external_body]
pub struct ExHeaderValue(axum::http::HeaderValue);

/// The first value that a set of headers holds for each header name, names in lower case.
pub uninterp spec fn first_values(headers: HeaderMap<HeaderValue>) -> Map<Seq<char>, Seq<u8>>;

/// The bytes of a header value.
pub uninterp spec fn header_bytes(value: HeaderValue) -> Seq<u8>;

/// `http::HeaderMap::get` for the `Authorization` header: its first value, where the
/// headers hold one.
#[verifier::external_body]
fn get_authorization(headers: &HeaderMap<HeaderValue>) -> (value: Option<&HeaderValue>)
    ensures
        match value {
            Some(value) => first_values(*headers).contains_key("authorization"@) && first_values(
                *headers,
            )["authorization"@] == header_bytes(*value),
            None => !first_values(*headers).contains_key("authorization"@),
        },
{
    headers.get(axum::http::header::AUTHORIZATION)
}

/// Whether a byte is a visible ASCII character, a space or a tab.
pub open spec fn visible(byte: u8) -> bool {
    32 <= byte < 127 || byte == 9
}

/// The text of a header value, where all of its bytes are visible.
pub open spec fn visible_text(bytes: Seq<u8>) -> Option<Seq<char>> {
    if forall|i: int| 0 <= i < bytes.len() ==> visible(#[trigger] bytes[i]) {
        Some(Seq::new(bytes.len(), |i: int| bytes[i] as char))
    } else {
        None
    }
}

/// `http::HeaderValue::to_str`: the value as text, one character for each byte, where
/// every byte is visible ASCII, a space or a tab; an error otherwise.
#[verifier::external_body]
fn value_text(value: &HeaderValue) -> (text: Option<&str>)
    ensures
        match text {
            Some(text) => visible_text(header_bytes(*value)) == Some(text@),
            None => visible_text(header_bytes(*value)) is None,
        },
{
    value.to_str().ok()
}

/// How a request is refused that carries no readable `Authorization` header.
pub open spec fn authorization_missing() -> ErrorValue {
    ErrorValue::Authentication(
        "Missing Authorization header. Supply the CI JWT as: Authorization: Bearer <jwt>"@,
    )
}

/// How a request is refused whose `Authorization` header carries no bearer token.
pub open spec fn bearer_required() -> ErrorValue {
    ErrorValue::Authentication(
        "Authorization header must use the Bearer scheme: Authorization: Bearer <jwt>"@,
    )
}

/// The bearer token in the text of an `Authorization` header, or how the request is
/// refused.
pub open spec fn bearer_token(header: Option<Seq<char>>) -> Result<Seq<char>, ErrorValue> {
    match header {
        None => Err(authorization_missing()),
        Some(text) => if "Bearer "@.is_prefix_of(text) && text.len() > "Bearer "@.len() {
            Ok(text.skip("Bearer "@.len() as int))
        } else {
            Err(bearer_required())
        },
    }
}

/// The text of the `Authorization` header of a request, where it has a readable one.
pub open spec fn authorization_text(headers: HeaderMap<HeaderValue>) -> Option<Seq<char>> {
    if first_values(headers).contains_key("authorization"@) {
        visible_text(first_values(headers)["authorization"@])
    } else {
        None
    }
}

/// The bearer token in the text of an `Authorization` header.
pub fn bearer_of(header: Option<&str>) -> (token: Result<&str, AppError>)
    ensures
        match header {
            Some(text) => match token {
                Ok(token) => bearer_token(Some(text@)) == Ok::<Seq<char>, ErrorValue>(token@),
                Err(error) => bearer_token(Some(text@)) == Err::<Seq<char>, ErrorValue>(error@),
            },
            None => token matches Err(error) && error@ == authorization_missing(),
        },
{
    let text = match header {
        Some(text) => text,
        None => {
            return Err(
                AppError::Authentication(
                    "Missing Authorization header. Supply the CI JWT as: Authorization: Bearer <jwt>".to_owned(),
                ),
            );
        },
    };
    let scheme_len: usize = "Bearer ".unicode_len();
    let text_len: usize = text.unicode_len();
    if starts_with(text, "Bearer ") && text_len > scheme_len {
        let token = text.substring_char(scheme_len, text_len);
        assert(token@ =~= text@.skip(scheme_len as int));
        Ok(token)
    } else {
        Err(
            AppError::Authentication(
                "Authorization header must use the Bearer scheme: Authorization: Bearer <jwt>".to_owned(),
            ),
        )
    }
}

/// The token that a request carries in its `Authorization: Bearer <token>` header.
pub fn extract_bearer_jwt(headers: &HeaderMap<HeaderValue>) -> (token: Result<&str, AppError>)
    ensures
        match token {
            Ok(token) => bearer_token(authorization_text(*headers)) == Ok::<Seq<char>, ErrorValue>(
                token@,
            ),
            Err(error) => bearer_token(authorization_text(*headers)) == Err::<
                Seq<char>,
                ErrorValue,
            >(error@),
        },
{
    match get_authorization(headers) {
        Some(value) => bearer_of(value_text(value)),
        None => bearer_of(None),
    }
}

} // verus!
