//! Request routing and the fixed shape of every response: status codes,
//! CORS headers, content types and bodies.

use vstd::prelude::*;
use vstd::string::StringExecFns;
use crate::jsonbody::{error_body, error_body_spec};

verus! {

/// The request methods the server distinguishes.
#[derive(Clone, Copy, Debug, PartialEq, Eq, Structural)]
pub enum RequestMethod {
    Options,
    Post,
    Other,
}

/// Where a request is sent.
#[derive(Clone, Copy, Debug, PartialEq, Eq, Structural)]
pub enum Route {
    Preflight,
    Inference,
    ResizeVideo,
    NotAllowed,
}

/// Routing: OPTIONS is answered as a CORS preflight whatever the path; a
/// POST to /resize-video is a resize request; any other POST is an inference
/// request (the bare-path legacy endpoint included); every other method is
/// rejected.
pub open spec fn route_spec(m: RequestMethod, path: Seq<char>) -> Route {
    match m {
        RequestMethod::Options => Route::Preflight,
        RequestMethod::Post => if path == "/resize-video"@ {
            Route::ResizeVideo
        } else {
            Route::Inference
        },
        RequestMethod::Other => Route::NotAllowed,
    }
}

/// Route one request by method and path.
pub fn route_request(m: RequestMethod, path: &str) -> (r: Route)
    ensures
        r == route_spec(m, path@),
{
    match m {
        RequestMethod::Options => Route::Preflight,
        RequestMethod::Post => {
            if String::from_str(path) == String::from_str("/resize-video") {
                Route::ResizeVideo
            } else {
                Route::Inference
            }
        },
        RequestMethod::Other => Route::NotAllowed,
    }
}

/// An OPTIONS request is answered as a preflight alone — it never reaches the
/// inference or resize logic — whatever its path.
pub proof fn lemma_options_never_reaches_logic(path: Seq<char>)
    ensures
        route_spec(RequestMethod::Options, path) == Route::Preflight,
        route_spec(RequestMethod::Options, path) != Route::Inference,
        route_spec(RequestMethod::Options, path) != Route::ResizeVideo,
{
}

/// A request that is neither a POST nor an OPTIONS is rejected, whatever its
/// path.
pub proof fn lemma_other_method_rejected(m: RequestMethod, path: Seq<char>)
    requires
        !(m is Options),
        !(m is Post),
    ensures
        route_spec(m, path) == Route::NotAllowed,
{
}

/// What a response carries.
pub enum ResponseBody {
    Empty,
    Text(String),
    Bytes(Vec<u8>),
}

/// A fully determined response: status code, headers in order, and body.
pub struct ResponsePlan {
    pub status: u16,
    pub headers: Vec<(&'static str, &'static str)>,
    pub body: ResponseBody,
}

/// The allow-origin header that every response carries.
pub open spec fn is_allow_origin(p: (&'static str, &'static str)) -> bool {
    p.0@ == "Access-Control-Allow-Origin"@ && p.1@ == "https://madebycommon.com"@
}

/// The CORS preflight answer: an empty 204 naming the allowed origin,
/// methods and headers.
pub fn preflight_plan() -> (p: ResponsePlan)
    ensures
        p.status == 204,
        p.body is Empty,
        p.headers@.len() == 3,
        is_allow_origin(p.headers@[0]),
        p.headers@[1].0@ == "Access-Control-Allow-Methods"@,
        p.headers@[1].1@ == "POST, OPTIONS"@,
        p.headers@[2].0@ == "Access-Control-Allow-Headers"@,
        p.headers@[2].1@ == "Content-Type, X-Inference-Type, X-Max-Width, X-Max-Height"@,
{
    let mut headers: Vec<(&'static str, &'static str)> = Vec::new();
    headers.push(("Access-Control-Allow-Origin", "https://madebycommon.com"));
    headers.push(("Access-Control-Allow-Methods", "POST, OPTIONS"));
    headers.push((
        "Access-Control-Allow-Headers",
        "Content-Type, X-Inference-Type, X-Max-Width, X-Max-Height",
    ));
    ResponsePlan { status: 204, headers, body: ResponseBody::Empty }
}

/// The rejection of a method the server does not serve: a 405, still naming
/// the allowed origin.
pub fn method_not_allowed_plan() -> (p: ResponsePlan)
    ensures
        p.status == 405,
        p.headers@.len() == 1,
        is_allow_origin(p.headers@[0]),
        p.body matches ResponseBody::Text(t) && t@ == "Method not allowed"@,
{
    let mut headers: Vec<(&'static str, &'static str)> = Vec::new();
    headers.push(("Access-Control-Allow-Origin", "https://madebycommon.com"));
    ResponsePlan {
        status: 405,
        headers,
        body: ResponseBody::Text(String::from_str("Method not allowed")),
    }
}

/// A successful inference answer: the serialized predictions as JSON.
pub fn inference_plan(body: String) -> (p: ResponsePlan)
    ensures
        p.status == 200,
        p.headers@.len() == 2,
        is_allow_origin(p.headers@[0]),
        p.headers@[1].0@ == "Content-Type"@,
        p.headers@[1].1@ == "application/json"@,
        p.body matches ResponseBody::Text(t) && t == body,
{
    let mut headers: Vec<(&'static str, &'static str)> = Vec::new();
    headers.push(("Access-Control-Allow-Origin", "https://madebycommon.com"));
    headers.push(("Content-Type", "application/json"));
    ResponsePlan { status: 200, headers, body: ResponseBody::Text(body) }
}

/// A successful resize answer: the re-encoded video bytes.
pub fn video_plan(data: Vec<u8>) -> (p: ResponsePlan)
    ensures
        p.status == 200,
        p.headers@.len() == 2,
        is_allow_origin(p.headers@[0]),
        p.headers@[1].0@ == "Content-Type"@,
        p.headers@[1].1@ == "video/mp4"@,
        p.body matches ResponseBody::Bytes(b) && b == data,
{
    let mut headers: Vec<(&'static str, &'static str)> = Vec::new();
    headers.push(("Access-Control-Allow-Origin", "https://madebycommon.com"));
    headers.push(("Content-Type", "video/mp4"));
    ResponsePlan { status: 200, headers, body: ResponseBody::Bytes(data) }
}

/// A failed resize answer: a 500 carrying the JSON error document.
pub fn resize_error_plan(details: &str) -> (p: ResponsePlan)
    ensures
        p.status == 500,
        p.headers@.len() == 2,
        is_allow_origin(p.headers@[0]),
        p.headers@[1].0@ == "Content-Type"@,
        p.headers@[1].1@ == "application/json"@,
        p.body matches ResponseBody::Text(t) && t@ == error_body_spec(details@),
{
    let mut headers: Vec<(&'static str, &'static str)> = Vec::new();
    headers.push(("Access-Control-Allow-Origin", "https://madebycommon.com"));
    headers.push(("Content-Type", "application/json"));
    ResponsePlan { status: 500, headers, body: ResponseBody::Text(error_body(details)) }
}

} // verus!
