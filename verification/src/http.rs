//! The HTTP answers of the service.
use crate::error::{data_view, done_view, CacheError, CacheErrorView};
use vstd::prelude::*;

verus! {

/// An HTTP answer: its status code and its body.
#[derive(Debug, PartialEq, Eq)]
pub struct Response {
    pub status: u16,
    pub body: Vec<u8>,
}

/// What a `Response` stands for.
#[verifier::ext_equal]
pub struct ResponseView {
    pub status: u16,
    pub body: Seq<u8>,
}

impl View for Response {
    type V = ResponseView;

    open spec fn view(&self) -> ResponseView {
        ResponseView { status: self.status, body: self.body@ }
    }
}

/// An answer with nothing but a status code.
pub open spec fn bare(status: u16) -> ResponseView {
    ResponseView { status, body: Seq::empty() }
}

/// The answer to a read: the bytes, `404` for a key that nothing is stored
/// under, `500` for every other failure.
pub open spec fn read_response(result: Result<Seq<u8>, CacheErrorView>) -> ResponseView {
    match result {
        Ok(data) => ResponseView { status: 200, body: data },
        Err(CacheErrorView::NotFound(_)) => bare(404),
        Err(_) => bare(500),
    }
}

/// The answer to a write or a delete.
pub open spec fn change_response(result: Result<(), CacheErrorView>) -> ResponseView {
    match result {
        Ok(()) => bare(200),
        Err(_) => bare(500),
    }
}

fn empty_response(status: u16) -> (response: Response)
    ensures
        response@ == bare(status),
{
    Response { status, body: Vec::new() }
}

/// The answer to a read that came to `result`.
pub fn get_cached_data(result: Result<Vec<u8>, CacheError>) -> (response: Response)
    ensures
        response@ == read_response(data_view(result)),
{
    match result {
        Ok(data) => Response { status: 200, body: data },
        Err(CacheError::NotFound(_)) => empty_response(404),
        Err(_) => empty_response(500),
    }
}

/// The answer to a write that came to `result`.
pub fn set_cached_data(result: Result<(), CacheError>) -> (response: Response)
    ensures
        response@ == change_response(done_view(result)),
{
    match result {
        Ok(()) => empty_response(200),
        Err(_) => empty_response(500),
    }
}

/// The answer to a delete that came to `result`.
pub fn delete_cached_data(result: Result<(), CacheError>) -> (response: Response)
    ensures
        response@ == change_response(done_view(result)),
{
    match result {
        Ok(()) => empty_response(200),
        Err(_) => empty_response(500),
    }
}

/// The answer to the question whether the service is up.
pub fn health_check() -> (response: Response)
    ensures
        response@ == bare(200),
{
    empty_response(200)
}

/// A read is answered `200` with the very bytes that were found, `404` if and only
/// if nothing is stored under the key, and `500` otherwise; no failure has a body.
pub proof fn law_reads_are_answered_with_their_bytes(
    result: Result<Vec<u8>, CacheError>,
    response: Response,
)
    requires
        call_ensures(get_cached_data, (result,), response),
    ensures
        response.status == 200 <==> result is Ok,
        response.status == 404 <==> (result matches Err(e) && e is NotFound),
        response.status == 500 <==> (result matches Err(e) && !(e is NotFound)),
        result matches Ok(data) ==> response.body@ == data@,
        result is Err ==> response.body@.len() == 0,
{
}

/// A write or a delete is answered `200` if and only if it succeeded, and `500`
/// otherwise, never with a body.
pub proof fn law_changes_are_answered_by_their_success(
    result: Result<(), CacheError>,
    written: Response,
    deleted: Response,
)
    requires
        call_ensures(set_cached_data, (result,), written),
        call_ensures(delete_cached_data, (result,), deleted),
    ensures
        result is Ok ==> written.status == 200 && deleted.status == 200,
        result is Err ==> written.status == 500 && deleted.status == 500,
        written.body@.len() == 0,
        deleted.body@.len() == 0,
{
}

/// The service always answers that it is up.
pub proof fn law_health_is_answered_ok(response: Response)
    requires
        call_ensures(health_check, (), response),
    ensures
        response.status == 200,
        response.body@.len() == 0,
{
}

} // verus!
