//! The checks on what goes to and comes from the web: status codes and
//! resource locators.

use crate::effect::{ActionView, HttpResponse, StepView};
use crate::failure::{outcome, TransportError};
use crate::text::optional;
use hyper::{StatusCode, Uri};
use vstd::prelude::*;

verus! {

/// Whether a status code reports success: the codes from 200 to 299.
pub open spec fn is_success(status: u16) -> bool {
    200 <= status < 300
}

/// The standard reason phrase that hyper knows for a status code, if any.
pub uninterp spec fn reason_phrase(status: u16) -> Option<Seq<char>>;

/// What hyper has against a text as a resource locator, in its own words;
/// `None` where it reads the text as one.
pub uninterp spec fn uri_complaint(text: Seq<char>) -> Option<Seq<char>>;

/// Whether hyper takes a number for a status code: the numbers from 100 to
/// 999.
pub open spec fn is_status(status: u16) -> bool {
    100 <= status <= 999
}

/// Calls hyper's `StatusCode::from_u16` and, on a code that it accepts,
/// `StatusCode::is_success`. The contract claims what hyper documents of
/// the two: the numbers from 100 to 999 are accepted and no other, and the
/// codes from 200 to 299 are the successes.
#[verifier::external_body]
fn status_success(status: u16) -> (r: Option<bool>)
    ensures
        r == if is_status(status) {
            Some(is_success(status))
        } else {
            None::<bool>
        },
{
    match StatusCode::from_u16(status) {
        Ok(code) => Some(code.is_success()),
        Err(_) => None,
    }
}

/// Tells whether a status reports success.
pub fn succeeded(status: u16) -> (r: bool)
    ensures
        r == is_success(status),
{
    match status_success(status) {
        Some(success) => success,
        None => false,
    }
}

/// Calls hyper's `StatusCode::from_u16` and, on a code that it accepts,
/// `StatusCode::canonical_reason`. The contract claims only that the phrase
/// is a function of the code.
#[verifier::external_body]
fn canonical_reason(status: u16) -> (r: Option<&'static str>)
    ensures
        match r {
            Some(phrase) => reason_phrase(status) == Some(phrase@),
            None => reason_phrase(status) is None,
        },
{
    match StatusCode::from_u16(status) {
        Ok(code) => code.canonical_reason(),
        Err(_) => None,
    }
}

/// Parses a text as hyper's `Uri` and keeps the error's `Display`. The
/// contract claims only that the outcome is a function of the text.
#[verifier::external_body]
fn parse_uri(text: &str) -> (r: Option<String>)
    ensures
        optional(r) == uri_complaint(text@),
{
    match text.parse::<Uri>() {
        Ok(_) => None,
        Err(e) => Some(e.to_string()),
    }
}

/// What stands for the reason where hyper knows none.
pub const UNKNOWN_FAILURE: &'static str = "Unknown response failure";

/// The verdict on a response with the given status, given the reason
/// phrase for it: a success passes; anything else is an error described by
/// the phrase, or by a fixed text where there is no phrase.
pub open spec fn verdict(status: u16, reason: Option<Seq<char>>) -> Result<(), Seq<char>> {
    if is_success(status) {
        Ok(())
    } else {
        match reason {
            Some(phrase) => Err(phrase),
            None => Err(UNKNOWN_FAILURE@),
        }
    }
}

/// Judges a status, given its reason phrase.
pub fn judge(status: u16, reason: Option<&str>) -> (r: Result<(), TransportError>)
    ensures
        outcome(r) == verdict(
            status,
            match reason {
                Some(p) => Some(p@),
                None => None,
            },
        ),
{
    if succeeded(status) {
        Ok(())
    } else {
        match reason {
            Some(phrase) => Err(TransportError::new(String::from_str(phrase))),
            None => Err(TransportError::new(String::from_str(UNKNOWN_FAILURE))),
        }
    }
}

/// The verdict on a response.
pub open spec fn validated(status: u16) -> Result<(), Seq<char>> {
    verdict(status, reason_phrase(status))
}

/// Passes a response whose status reports success and turns any other into
/// an error that carries the status's reason phrase.
pub fn validate_response(resp: &HttpResponse) -> (r: Result<(), TransportError>)
    ensures
        outcome(r) == validated(resp.status),
        r is Ok <==> is_success(resp.status),
{
    judge(resp.status, canonical_reason(resp.status))
}

/// The request for a resource, given what hyper has against its locator:
/// the locator itself where there is no complaint, else the complaint as an
/// error.
pub open spec fn accepted(url: Seq<char>, complaint: Option<Seq<char>>) -> Result<
    Seq<char>,
    Seq<char>,
> {
    match complaint {
        None => Ok(url),
        Some(c) => Err(c),
    }
}

/// Accepts a locator, given the complaint against it.
pub fn accept_locator(url: String, complaint: Option<String>) -> (r: Result<String, TransportError>)
    ensures
        outcome(r) == accepted(url@, optional(complaint)),
{
    match complaint {
        None => Ok(url),
        Some(c) => Err(TransportError::new(c)),
    }
}

/// The locator as it may be fetched, or why it may not.
pub open spec fn located(url: Seq<char>) -> Result<Seq<char>, Seq<char>> {
    accepted(url, uri_complaint(url))
}

/// Checks a text that is to be fetched: it must read as a resource locator.
pub fn locate(url: String) -> (r: Result<String, TransportError>)
    ensures
        outcome(r) == located(url@),
{
    let complaint = parse_uri(url.as_str());
    accept_locator(url, complaint)
}

/// The request for a resource: the fetch where its locator reads as one,
/// else the complaint as the handler's error.
pub open spec fn requested<S, T>(next: S, url: Seq<char>) -> StepView<S, T> {
    match located(url) {
        Ok(u) => StepView::Next(next, ActionView::Fetch(u)),
        Err(e) => StepView::Done(Err(e)),
    }
}

} // verus!
