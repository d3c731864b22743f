//! Decisions of the HTTP layer that do not depend on the server framework:
//! error-page texts and the API-key check.

use vstd::prelude::*;
use crate::text::concat;

verus! {

pub const INTERNAL_ERROR_MESSAGE: &'static str = "internal server error";

pub const NOT_FOUND_PREFIX: &'static str = "I couldn't find '";

pub const NOT_FOUND_SUFFIX: &'static str = "'. Try something else?";

pub const VALID_API_KEY: &'static str = "123456";

/// Body of the response to an internal server error.
pub fn internal_error() -> (r: &'static str)
    ensures
        r@ == INTERNAL_ERROR_MESSAGE@,
{
    INTERNAL_ERROR_MESSAGE
}

/// Body of the response to a request for `uri` that matched no route.
pub fn not_found(uri: &str) -> (r: String)
    ensures
        r@ == NOT_FOUND_PREFIX@ + uri@ + NOT_FOUND_SUFFIX@,
{
    let head = concat(NOT_FOUND_PREFIX, uri);
    concat(head.as_str(), NOT_FOUND_SUFFIX)
}

/// Body of the response to any other failed request: the status, then the
/// uri in parentheses.
pub fn default(status: &str, uri: &str) -> (r: String)
    ensures
        r@ == status@ + " ("@ + uri@ + ")"@,
{
    let head = concat(status, " (");
    let head = concat(head.as_str(), uri);
    concat(head.as_str(), ")")
}

/// An API key that was presented and accepted.
#[derive(Debug)]
pub struct ApiKey<'a>(pub &'a str);

/// Why a request carries no acceptable API key.
#[derive(Debug, PartialEq, Eq, Structural)]
pub enum ApiKeyError {
    Missing,
    Invalid,
}

/// Whether `key` is the accepted API key.
pub fn is_valid(key: &str) -> (r: bool)
    ensures
        r == (key@ == VALID_API_KEY@),
{
    let presented = key.to_owned();
    let accepted = VALID_API_KEY.to_owned();
    presented == accepted
}

impl<'a> ApiKey<'a> {
    /// The API key of a request, from the value of its key header if any.
    pub fn from_header(header: Option<&'a str>) -> (r: Result<ApiKey<'a>, ApiKeyError>)
        ensures
            header is None ==> r == Err::<ApiKey<'a>, ApiKeyError>(ApiKeyError::Missing),
            header matches Some(k) ==> (k@ == VALID_API_KEY@ ==> (r matches Ok(a) && a.0 == k)),
            header matches Some(k) ==> (k@ != VALID_API_KEY@ ==> r == Err::<ApiKey<'a>, ApiKeyError>(
                ApiKeyError::Invalid,
            )),
    {
        match header {
            None => Err(ApiKeyError::Missing),
            Some(key) => {
                if is_valid(key) {
                    Ok(ApiKey(key))
                } else {
                    Err(ApiKeyError::Invalid)
                }
            },
        }
    }
}

} // verus!
