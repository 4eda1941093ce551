//! The service's decisions: which handler a request's method and path
//! select, what to do with the extracted URL, how the first chunk of a
//! fetched resource is classified, and which response each outcome earns.
//! The surrounding program performs the one network fetch between
//! `plan_request` and `resolve_chunk` and reports a failed fetch as
//! `FetchOutcome::TransportFailure`.

use vstd::prelude::*;
use crate::png::Dimensions;
use crate::png::be_u32;
use crate::png::is_png_header;
use crate::png::png_dimensions;
use crate::query::extract_url;
use crate::query::extract_url_spec;
use crate::response::HttpResponse;
use crate::response::error_body_spec;
use crate::response::error_response;
use crate::response::success_body_spec;
use crate::response::success_response;

verus! {

/// The three handlers the route table knows: the dimension service at the
/// root path, the favicon probe, and everything else.
#[derive(Clone, Copy, Debug, PartialEq, Eq, Structural)]
pub enum Route {
    Service,
    Favicon,
    NotFound,
}

/// The outcome of fetching and classifying a remote resource.
#[derive(Clone, Copy, Debug, PartialEq, Eq, Structural)]
pub enum FetchOutcome {
    /// The resource is a PNG and its header carried these dimensions.
    Decoded(Dimensions),
    /// The resource arrived but is not a PNG the service can read.
    UnsupportedFormat,
    /// The fetch itself failed; never conflated with an unsupported format.
    TransportFailure,
}

/// What the service does with a request before any fetch: answer it at
/// once, or fetch the given URL's leading bytes first.
pub enum RequestPlan {
    Respond(HttpResponse),
    Fetch(Vec<u8>),
}

/// The route a method and path select: `GET /` is the service, `GET
/// /favicon.ico` the favicon probe, anything else is not found.
pub open spec fn route_spec(method: Seq<char>, path: Seq<char>) -> Route {
    if method == "GET"@ && path == "/"@ {
        Route::Service
    } else if method == "GET"@ && path == "/favicon.ico"@ {
        Route::Favicon
    } else {
        Route::NotFound
    }
}

/// The message sent when the `url` parameter is missing or empty.
pub open spec fn missing_url_message() -> Seq<char> {
    "No URL parameter set, please use function_path/?url=http://domain/path/to/image.png"@
}

/// The message sent when the fetched bytes are not a readable PNG.
pub open spec fn unsupported_format_message() -> Seq<char> {
    "Currently only PNG format is supported"@
}

/// The message sent when the fetch itself failed.
pub open spec fn transport_failure_message() -> Seq<char> {
    "The URL could not be fetched"@
}

/// Whether two strings hold the same characters.
pub fn str_eq(a: &str, b: &str) -> (r: bool)
    ensures
        r == (a@ == b@),
{
    let n = a.unicode_len();
    if n != b.unicode_len() {
        return false;
    }
    let mut i: usize = 0;
    while i < n
        invariant
            i <= n,
            n == a@.len(),
            a@.len() == b@.len(),
            forall|j: int| 0 <= j < i ==> a@[j] == b@[j],
        decreases n - i,
    {
        if a.get_char(i) != b.get_char(i) {
            return false;
        }
        i += 1;
    }
    assert(a@ =~= b@);
    true
}

/// Picks the handler for a request's method and path.
pub fn route(method: &str, path: &str) -> (r: Route)
    ensures
        r == route_spec(method@, path@),
{
    if str_eq(method, "GET") {
        if str_eq(path, "/") {
            return Route::Service;
        }
        if str_eq(path, "/favicon.ico") {
            return Route::Favicon;
        }
    }
    Route::NotFound
}

/// The response for a request without a usable `url` parameter.
pub fn missing_url_response() -> (r: HttpResponse)
    ensures
        r.status == 400,
        r.body@ == error_body_spec(missing_url_message()),
{
    error_response(
        "No URL parameter set, please use function_path/?url=http://domain/path/to/image.png",
        400,
    )
}

/// The empty answer to a browser's favicon probe.
pub fn favicon_response() -> (r: HttpResponse)
    ensures
        r.status == 204,
        r.body@ == Seq::<char>::empty(),
{
    HttpResponse { status: 204, body: String::new() }
}

/// The empty answer to any unrecognised method or path.
pub fn not_found_response() -> (r: HttpResponse)
    ensures
        r.status == 404,
        r.body@ == Seq::<char>::empty(),
{
    HttpResponse { status: 404, body: String::new() }
}

/// Classifies the first chunk read from the fetched resource: a chunk that
/// is absent, too short, or not PNG-signed is an unsupported format, and a
/// PNG header yields its two big-endian dimension fields. A transport
/// failure never reaches this point; the caller reports it directly.
pub fn resolve_chunk(chunk: Option<&[u8]>) -> (r: FetchOutcome)
    ensures
        match chunk {
            None => r == FetchOutcome::UnsupportedFormat,
            Some(bytes) => {
                &&& r is Decoded <==> is_png_header(bytes@)
                &&& (r matches FetchOutcome::Decoded(d) ==> d.width as nat == be_u32(
                    bytes@.subrange(16, 20),
                ) && d.height as nat == be_u32(bytes@.subrange(20, 24)))
                &&& !(r is Decoded) ==> r == FetchOutcome::UnsupportedFormat
            },
        },
{
    match chunk {
        None => FetchOutcome::UnsupportedFormat,
        Some(bytes) => match png_dimensions(bytes) {
            Some(d) => FetchOutcome::Decoded(d),
            None => FetchOutcome::UnsupportedFormat,
        },
    }
}

/// Renders the response a fetch outcome earns: the dimensions as JSON with
/// status 200, the unsupported-format error with status 415, or the
/// transport failure as a server-side error with status 502.
pub fn render_outcome(outcome: &FetchOutcome) -> (r: HttpResponse)
    ensures
        match outcome {
            FetchOutcome::Decoded(d) => r.status == 200 && r.body@ == success_body_spec(*d),
            FetchOutcome::UnsupportedFormat => r.status == 415 && r.body@ == error_body_spec(
                unsupported_format_message(),
            ),
            FetchOutcome::TransportFailure => r.status == 502 && r.body@ == error_body_spec(
                transport_failure_message(),
            ),
        },
{
    match outcome {
        FetchOutcome::Decoded(d) => success_response(d),
        FetchOutcome::UnsupportedFormat => error_response(
            "Currently only PNG format is supported",
            415,
        ),
        FetchOutcome::TransportFailure => error_response("The URL could not be fetched", 502),
    }
}

/// Decides everything that precedes the fetch: an unknown route or a
/// favicon probe is answered at once with an empty body, a service request
/// without a usable `url` parameter earns the missing-parameter error, and
/// a service request with one asks the caller to fetch that URL.
pub fn plan_request(method: &str, path: &str, query: &[u8]) -> (r: RequestPlan)
    ensures
        match route_spec(method@, path@) {
            Route::NotFound => r matches RequestPlan::Respond(resp) && resp.status == 404
                && resp.body@ == Seq::<char>::empty(),
            Route::Favicon => r matches RequestPlan::Respond(resp) && resp.status == 204
                && resp.body@ == Seq::<char>::empty(),
            Route::Service => match extract_url_spec(query@) {
                Some(u) => r matches RequestPlan::Fetch(v) && v@ == u,
                None => r matches RequestPlan::Respond(resp) && resp.status == 400 && resp.body@
                    == error_body_spec(missing_url_message()),
            },
        },
{
    match route(method, path) {
        Route::NotFound => RequestPlan::Respond(not_found_response()),
        Route::Favicon => RequestPlan::Respond(favicon_response()),
        Route::Service => match extract_url(query) {
            Some(u) => RequestPlan::Fetch(u),
            None => RequestPlan::Respond(missing_url_response()),
        },
    }
}

} // verus!
