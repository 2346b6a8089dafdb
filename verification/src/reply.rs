//! The status and content type of the answer to each kind of reply.
use vstd::prelude::*;
use crate::operation::{Operation, Reply, op_has_reply};
use vstd::string::StringExecFns;

verus! {

/// The content type of an answer's body.
#[derive(Clone, Copy, PartialEq, Eq, Structural, Debug)]
pub enum ContentType {
    /// `application/json`
    Json,
    /// `application/problem+json`
    ProblemJson,
}

/// The text of a content type.
pub open spec fn content_type_text(c: ContentType) -> Seq<char> {
    match c {
        ContentType::Json => "application/json"@,
        ContentType::ProblemJson => "application/problem+json"@,
    }
}

impl ContentType {
    /// The text of this content type.
    pub fn text(&self) -> (r: &'static str)
        ensures
            r@ == content_type_text(*self),
    {
        match self {
            ContentType::Json => "application/json",
            ContentType::ProblemJson => "application/problem+json",
        }
    }
}

/// The status code that the service gives a kind of reply of an operation;
/// `UnexpectedError` is given 0, which is no status code.
pub open spec fn reply_status(op: Operation, r: Reply) -> u16 {
    match r {
        Reply::Expected => if op == Operation::Subscribe || op == Operation::SubscribeToSharedData {
            201
        } else {
            200
        },
        Reply::Acknowledged => 204,
        Reply::Succeeded => 204,
        Reply::BadRequest => 400,
        Reply::Unauthorized => 401,
        Reply::Forbidden => 403,
        Reply::NotFound => 404,
        Reply::NotAcceptable => 406,
        Reply::TooManyRequests => 429,
        Reply::InternalServerError => 500,
        Reply::NotImplemented => 501,
        Reply::BadGateway => 502,
        Reply::ServiceUnavailable => 503,
        Reply::UnexpectedError => 0,
    }
}

/// The content type of the body that goes with a kind of reply; replies
/// without content type carry no body.
pub open spec fn reply_content_type(r: Reply) -> Option<ContentType> {
    match r {
        Reply::Expected => Some(ContentType::Json),
        Reply::Acknowledged | Reply::Succeeded | Reply::NotAcceptable | Reply::UnexpectedError => None,
        _ => Some(ContentType::ProblemJson),
    }
}

/// The numbers that are status codes.
pub open spec fn is_status_code(code: u16) -> bool {
    100 <= code < 1000
}

/// `hyper::StatusCode::from_u16` (the `http` crate's), read back with
/// `as_u16`: its source refuses codes below 100 and from 1000 on, and keeps
/// every other code.
#[verifier::external_body]
fn status_from_u16(code: u16) -> (r: Option<u16>)
    ensures
        r is Some <==> is_status_code(code),
        r matches Some(c) ==> c == code,
{
    hyper::StatusCode::from_u16(code).ok().map(|s| s.as_u16())
}

/// The status, content type and fixed body text of an answer.
pub struct ResponsePlan {
    pub status: u16,
    pub content_type: Option<ContentType>,
    /// A fixed text for the body; where absent, the body is the reply's
    /// value serialized as JSON when there is a content type, else empty.
    pub fixed_body: Option<&'static str>,
}

/// The answer to a kind of reply of an operation; `Err` with the number
/// where the number the service gives it is no status code.
pub fn plan_reply(op: Operation, r: Reply) -> (res: Result<ResponsePlan, u16>)
    requires
        op_has_reply(op, r),
    ensures
        is_status_code(reply_status(op, r)) <==> res is Ok,
        res matches Ok(p) ==> p.status == reply_status(op, r) && p.content_type == reply_content_type(r)
            && p.fixed_body is None,
        res matches Err(c) ==> c == reply_status(op, r),
{
    let code: u16 = match r {
        Reply::Expected => if op == Operation::Subscribe || op == Operation::SubscribeToSharedData {
            201
        } else {
            200
        },
        Reply::Acknowledged => 204,
        Reply::Succeeded => 204,
        Reply::BadRequest => 400,
        Reply::Unauthorized => 401,
        Reply::Forbidden => 403,
        Reply::NotFound => 404,
        Reply::NotAcceptable => 406,
        Reply::TooManyRequests => 429,
        Reply::InternalServerError => 500,
        Reply::NotImplemented => 501,
        Reply::BadGateway => 502,
        Reply::ServiceUnavailable => 503,
        Reply::UnexpectedError => 0,
    };
    let content_type = match r {
        Reply::Expected => Some(ContentType::Json),
        Reply::Acknowledged | Reply::Succeeded | Reply::NotAcceptable | Reply::UnexpectedError => None,
        _ => Some(ContentType::ProblemJson),
    };
    match status_from_u16(code) {
        Some(status) => Ok(ResponsePlan { status, content_type, fixed_body: None }),
        None => Err(code),
    }
}

/// A response header that an implementation's reply can carry.
#[derive(Clone, Copy, PartialEq, Eq, Structural, Debug)]
pub enum ResponseHeader {
    CacheControl,
    ETag,
    LastModified,
    Location,
}

/// The name of a response header on the wire.
pub open spec fn header_wire_name(h: ResponseHeader) -> Seq<char> {
    match h {
        ResponseHeader::CacheControl => "cache-control"@,
        ResponseHeader::ETag => "etag"@,
        ResponseHeader::LastModified => "last-modified"@,
        ResponseHeader::Location => "location"@,
    }
}

/// The name that the 500 answer gives a response header whose value is no header value.
pub open spec fn header_field_name(h: ResponseHeader) -> Seq<char> {
    match h {
        ResponseHeader::CacheControl => "cache_control"@,
        ResponseHeader::ETag => "e_tag"@,
        ResponseHeader::LastModified => "last_modified"@,
        ResponseHeader::Location => "location"@,
    }
}

/// The text of the 500 answer to a reply whose header `h` holds no valid
/// header value; `detail` is why.
pub open spec fn header_error_text(h: ResponseHeader, detail: Seq<char>) -> Seq<char> {
    "An internal server error occurred handling "@ + header_field_name(h) + " header - "@ + detail
}

impl ResponseHeader {
    /// The name of this header on the wire.
    pub fn wire_name(&self) -> (r: &'static str)
        ensures
            r@ == header_wire_name(*self),
    {
        match self {
            ResponseHeader::CacheControl => "cache-control",
            ResponseHeader::ETag => "etag",
            ResponseHeader::LastModified => "last-modified",
            ResponseHeader::Location => "location",
        }
    }

    /// The text of the 500 answer to a reply whose value for this header is
    /// no valid header value.
    pub fn error_text(&self, detail: &str) -> (r: String)
        ensures
            r@ == header_error_text(*self, detail@),
    {
        let field = match self {
            ResponseHeader::CacheControl => "cache_control",
            ResponseHeader::ETag => "e_tag",
            ResponseHeader::LastModified => "last_modified",
            ResponseHeader::Location => "location",
        };
        let mut m = String::from_str("An internal server error occurred handling ");
        m.append(field);
        m.append(" header - ");
        m.append(detail);
        m
    }
}

/// The text of the answer to a request whose implementation failed.
pub open spec fn failure_text() -> Seq<char> {
    "An internal error occurred"@
}

/// The answer to a request whose implementation returned an error: 500,
/// with a fixed text.
pub fn plan_failure() -> (p: ResponsePlan)
    ensures
        p.status == 500,
        p.content_type is None,
        p.fixed_body matches Some(t) && t@ == failure_text(),
{
    ResponsePlan { status: 500, content_type: None, fixed_body: Some("An internal error occurred") }
}

/// Every reply that an implementation can give is answered with a status
/// code, except `UnexpectedError`, which the service answers with 0, no
/// status code.
pub proof fn law_only_unexpected_error_lacks_a_status(op: Operation, r: Reply)
    requires
        op_has_reply(op, r),
    ensures
        is_status_code(reply_status(op, r)) <==> r != Reply::UnexpectedError,
{
}

} // verus!
