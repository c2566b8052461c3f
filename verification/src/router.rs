//! The route table of the core and the responses it gives.
//!
//! The table holds one rule: `GET /` is answered with a permanent redirect to
//! `/browse/`. A rule for `GET` also answers `HEAD`. A request for `/` with
//! any other method is refused with `405`, and every other path is unknown
//! to the core and answered with `404`. The table has no state and cannot be
//! changed after start-up.

use vstd::prelude::*;
use vstd::string::*;

verus! {

/// `301 Moved Permanently`.
pub const MOVED_PERMANENTLY: u16 = 301;

/// `400 Bad Request`.
pub const BAD_REQUEST: u16 = 400;

/// `404 Not Found`.
pub const NOT_FOUND: u16 = 404;

/// `405 Method Not Allowed`.
pub const METHOD_NOT_ALLOWED: u16 = 405;

/// `500 Internal Server Error`.
pub const INTERNAL_SERVER_ERROR: u16 = 500;

/// The method of a request.
#[derive(Clone, Copy, Debug, PartialEq, Eq, Structural)]
pub enum Method {
    Get,
    Head,
    Post,
    Put,
    Delete,
    Connect,
    Options,
    Trace,
    Patch,
    /// Any method that is not one of the above.
    Extension,
}

/// A response of the core: a status and the headers that go with it. The
/// body is always empty.
#[derive(Clone, Copy, Debug, PartialEq, Eq)]
pub struct Response {
    pub status: u16,
    /// Value of the `Location` header, if the response carries one.
    pub location: Option<&'static str>,
    /// Value of the `Allow` header, if the response carries one.
    pub allow: Option<&'static str>,
}

/// A `Response` with its header values as sequences of characters.
pub struct ResponseView {
    pub status: u16,
    pub location: Option<Seq<char>>,
    pub allow: Option<Seq<char>>,
}

impl View for Response {
    type V = ResponseView;

    open spec fn view(&self) -> ResponseView {
        ResponseView {
            status: self.status,
            location: match self.location {
                Some(s) => Some(s@),
                None => None,
            },
            allow: match self.allow {
                Some(s) => Some(s@),
                None => None,
            },
        }
    }
}

/// Why a single request could not be handled.
#[derive(Clone, Copy, Debug, PartialEq, Eq, Structural)]
pub enum RequestError {
    /// The bytes received are no valid request.
    Malformed,
    /// The handler of the request failed.
    HandlerFailed,
}

/// The path of the one rule in the table: `/`.
pub open spec fn root_path() -> Seq<char> {
    seq!['/']
}

/// Where the rule for `/` sends the client: `/browse/`.
pub open spec fn browse_path() -> Seq<char> {
    seq!['/', 'b', 'r', 'o', 'w', 's', 'e', '/']
}

/// The methods that the rule for `/` answers, as an `Allow` header lists
/// them: `GET,HEAD`.
pub open spec fn root_methods() -> Seq<char> {
    seq!['G', 'E', 'T', ',', 'H', 'E', 'A', 'D']
}

/// A response with the given status and no header.
pub open spec fn bare(status: u16) -> ResponseView {
    ResponseView { status, location: None, allow: None }
}

/// The permanent redirect to `/browse/`.
pub open spec fn redirect_to_browse() -> ResponseView {
    ResponseView { status: MOVED_PERMANENTLY, location: Some(browse_path()), allow: None }
}

/// The refusal of a method on `/`.
pub open spec fn method_refused() -> ResponseView {
    ResponseView { status: METHOD_NOT_ALLOWED, location: None, allow: Some(root_methods()) }
}

/// The route table: what the core answers to `method` on `path`.
pub open spec fn routed(method: Method, path: Seq<char>) -> ResponseView {
    if path != root_path() {
        bare(NOT_FOUND)
    } else if method == Method::Get || method == Method::Head {
        redirect_to_browse()
    } else {
        method_refused()
    }
}

/// The response that stands in for a request that failed.
pub open spec fn recovered(error: RequestError) -> ResponseView {
    match error {
        RequestError::Malformed => bare(BAD_REQUEST),
        RequestError::HandlerFailed => bare(INTERNAL_SERVER_ERROR),
    }
}

/// Whether `path` is exactly `/`.
pub fn is_root(path: &str) -> (b: bool)
    ensures
        b == (path@ == root_path()),
{
    if !path.is_ascii() {
        return false;
    }
    let bytes = path.as_bytes();
    proof {
        is_ascii_spec_bytes(path);
    }
    if bytes.len() == 1 && bytes[0] == 47 {
        assert(path@ =~= root_path());
        true
    } else {
        false
    }
}

/// Answers a request from the route table.
pub fn dispatch(method: Method, path: &str) -> (r: Response)
    ensures
        r@ == routed(method, path@),
{
    if !is_root(path) {
        Response { status: NOT_FOUND, location: None, allow: None }
    } else {
        match method {
            Method::Get | Method::Head => {
                proof {
                    reveal_strlit("/browse/");
                }
                let location: &'static str = "/browse/";
                assert(location@ =~= browse_path());
                Response { status: MOVED_PERMANENTLY, location: Some(location), allow: None }
            },
            _ => {
                proof {
                    reveal_strlit("GET,HEAD");
                }
                let allow: &'static str = "GET,HEAD";
                assert(allow@ =~= root_methods());
                Response { status: METHOD_NOT_ALLOWED, location: None, allow: Some(allow) }
            },
        }
    }
}

/// Turns the failure of one request into the response sent in its place, so
/// that the failure goes no further than the request it belongs to.
pub fn recover(error: RequestError) -> (r: Response)
    ensures
        r@ == recovered(error),
        400 <= r.status <= 599,
{
    match error {
        RequestError::Malformed => Response { status: BAD_REQUEST, location: None, allow: None },
        RequestError::HandlerFailed => Response {
            status: INTERNAL_SERVER_ERROR,
            location: None,
            allow: None,
        },
    }
}

/// Concludes one request: the handler's response if it gave one, else the
/// response that stands in for its failure.
pub fn conclude(outcome: Result<Response, RequestError>) -> (r: Response)
    ensures
        r@ == (match outcome {
            Ok(response) => response@,
            Err(error) => recovered(error),
        }),
{
    match outcome {
        Ok(response) => response,
        Err(error) => recover(error),
    }
}

/// `GET /` is answered with `301` and `Location: /browse/`. The table takes
/// neither the configuration nor the topology, so this holds under each.
pub proof fn lemma_root_redirects()
    ensures
        routed(Method::Get, root_path()) == (ResponseView {
            status: 301,
            location: Some(browse_path()),
            allow: None,
        }),
{
}

/// A path other than `/` is answered with `404`, whatever the method.
pub proof fn lemma_other_paths_not_found(method: Method, path: Seq<char>)
    requires
        path != root_path(),
    ensures
        routed(method, path) == bare(404),
{
}

} // verus!
