//! The host's HTTP rules: request methods as the application sees them, and
//! the response that the application's answer becomes.
use vstd::prelude::*;

use hyper::http::status::InvalidStatusCode;
use hyper::StatusCode;

use crate::headers::{merge_headers, select_headers, sendable, unsendable, insertable_name, RocHeader};
use crate::text::str_equals;

verus! {

/// hyper's `StatusCode` (http 0.2), carried opaquely.
#[verifier::external_type_specification]
#[verifier::external_body]
pub struct ExStatusCode(StatusCode);

/// The error of `StatusCode::from_u16`, carried opaquely.
#[verifier::external_type_specification]
#[verifier::external_body]
pub struct ExInvalidStatusCode(InvalidStatusCode);

/// `StatusCode::from_u16` (http 0.2) accepts exactly the codes from 100 to 999.
pub assume_specification[ StatusCode::from_u16 ](src: u16) -> (r: Result<
    StatusCode,
    InvalidStatusCode,
>)
    ensures
        r is Ok <==> (100 <= src && src < 1000),
;

/// The request methods that the application tells apart.
#[derive(Clone, Copy, Debug, PartialEq, Eq)]
pub enum RocMethod {
    Connect,
    Delete,
    Get,
    Head,
    Options,
    Other,
    Patch,
    Post,
    Put,
    Trace,
}

/// The application's answer to a request.
#[derive(Debug)]
pub struct RocResponse {
    pub body: String,
    pub headers: Vec<RocHeader>,
    pub status: u16,
}

/// The response that the host sends for an answer of the application.
#[derive(Debug)]
pub struct ResponsePlan {
    /// The status code sent.
    pub status: u16,
    /// The body sent.
    pub body: String,
    /// The headers sent, one per name (names compared regardless of ASCII
    /// case): each where its name first came, with the value of the last
    /// header of that name whose value can be sent.
    pub headers: Vec<RocHeader>,
    /// The headers left out because their value is not a valid header value.
    pub rejected: Vec<RocHeader>,
}

/// The application named a header in a way that hyper refuses: the host
/// cannot answer the request.
#[derive(Clone, Copy, Debug, PartialEq, Eq)]
pub struct HeaderNameRefused {
    /// The place of the first such header among the application's headers.
    pub index: usize,
}

/// Status code sent when the application's answer cannot be sent as it is.
pub const INTERNAL_SERVER_ERROR: u16 = 500;

/// The method that a request method name stands for.
pub open spec fn method_of_name(name: Seq<char>) -> RocMethod {
    if name == "CONNECT"@ {
        RocMethod::Connect
    } else if name == "DELETE"@ {
        RocMethod::Delete
    } else if name == "GET"@ {
        RocMethod::Get
    } else if name == "HEAD"@ {
        RocMethod::Head
    } else if name == "OPTIONS"@ {
        RocMethod::Options
    } else if name == "PATCH"@ {
        RocMethod::Patch
    } else if name == "POST"@ {
        RocMethod::Post
    } else if name == "PUT"@ {
        RocMethod::Put
    } else if name == "TRACE"@ {
        RocMethod::Trace
    } else {
        RocMethod::Other
    }
}

/// The status code sent for the status the application chose.
pub open spec fn status_sent(status: u16) -> u16 {
    if 100 <= status && status < 1000 {
        status
    } else {
        INTERNAL_SERVER_ERROR
    }
}

/// The method of a request, by the method's name.
pub fn roc_fx_method(method: &str) -> (m: RocMethod)
    ensures
        m == method_of_name(method@),
{
    if str_equals(method, "CONNECT") {
        RocMethod::Connect
    } else if str_equals(method, "DELETE") {
        RocMethod::Delete
    } else if str_equals(method, "GET") {
        RocMethod::Get
    } else if str_equals(method, "HEAD") {
        RocMethod::Head
    } else if str_equals(method, "OPTIONS") {
        RocMethod::Options
    } else if str_equals(method, "PATCH") {
        RocMethod::Patch
    } else if str_equals(method, "POST") {
        RocMethod::Post
    } else if str_equals(method, "PUT") {
        RocMethod::Put
    } else if str_equals(method, "TRACE") {
        RocMethod::Trace
    } else {
        RocMethod::Other
    }
}

/// The status code sent: the application's own where HTTP has room for it,
/// else 500 Internal Server Error.
pub fn response_status(status: u16) -> (sent: u16)
    ensures
        sent == status_sent(status),
{
    match StatusCode::from_u16(status) {
        Ok(_) => status,
        Err(_) => INTERNAL_SERVER_ERROR,
    }
}

/// The response that the host sends for the application's answer, or the
/// first header whose value can be sent but whose name hyper refuses.
pub fn plan_response(resp: &RocResponse) -> (r: Result<ResponsePlan, HeaderNameRefused>)
    ensures
        match r {
            Ok(plan) => {
                &&& plan.status == status_sent(resp.status)
                &&& plan.body@ == resp.body@
                &&& forall|j: int|
                    0 <= j < resp.headers@.len() && sendable(#[trigger] resp.headers@[j])
                        ==> insertable_name(resp.headers@[j])
                &&& plan.headers@ == merge_headers(
                    resp.headers@.filter(|h: RocHeader| sendable(h)),
                )
                &&& plan.rejected@ == resp.headers@.filter(|h: RocHeader| unsendable(h))
            },
            Err(e) => {
                &&& e.index < resp.headers@.len()
                &&& sendable(resp.headers@[e.index as int])
                &&& !insertable_name(resp.headers@[e.index as int])
                &&& forall|j: int|
                    0 <= j < e.index && sendable(#[trigger] resp.headers@[j]) ==> insertable_name(
                        resp.headers@[j],
                    )
            },
        },
{
    match select_headers(&resp.headers) {
        Ok((headers, rejected)) => {
            let status = response_status(resp.status);
            Ok(ResponsePlan { status, body: resp.body.clone(), headers, rejected })
        },
        Err(index) => Err(HeaderNameRefused { index }),
    }
}

/// Each of the nine standard method names stands for its own method, spelled
/// in upper case exactly; any other name is `Other`.
pub proof fn lemma_method_names()
    ensures
        method_of_name("CONNECT"@) == RocMethod::Connect,
        method_of_name("DELETE"@) == RocMethod::Delete,
        method_of_name("GET"@) == RocMethod::Get,
        method_of_name("HEAD"@) == RocMethod::Head,
        method_of_name("OPTIONS"@) == RocMethod::Options,
        method_of_name("PATCH"@) == RocMethod::Patch,
        method_of_name("POST"@) == RocMethod::Post,
        method_of_name("PUT"@) == RocMethod::Put,
        method_of_name("TRACE"@) == RocMethod::Trace,
        method_of_name("get"@) == RocMethod::Other,
        method_of_name(""@) == RocMethod::Other,
{
    reveal_strlit("CONNECT");
    reveal_strlit("DELETE");
    reveal_strlit("GET");
    reveal_strlit("HEAD");
    reveal_strlit("OPTIONS");
    reveal_strlit("PATCH");
    reveal_strlit("POST");
    reveal_strlit("PUT");
    reveal_strlit("TRACE");
    reveal_strlit("get");
    reveal_strlit("");
    assert("CONNECT"@.len() == 7);
    assert("DELETE"@.len() == 6);
    assert("GET"@.len() == 3);
    assert("HEAD"@.len() == 4);
    assert("OPTIONS"@.len() == 7);
    assert("PATCH"@.len() == 5);
    assert("POST"@.len() == 4);
    assert("PUT"@.len() == 3);
    assert("TRACE"@.len() == 5);
    assert("get"@.len() == 3);
    assert(""@.len() == 0);
    assert("CONNECT"@[0] == 'C');
    assert("DELETE"@[0] == 'D');
    assert("GET"@[0] == 'G');
    assert("HEAD"@[0] == 'H');
    assert("OPTIONS"@[0] == 'O');
    assert("PATCH"@[0] == 'P');
    assert("POST"@[0] == 'P');
    assert("PUT"@[0] == 'P');
    assert("TRACE"@[0] == 'T');
    assert("get"@[0] == 'g');
    assert("DELETE"@ != "CONNECT"@);
    assert("GET"@ != "CONNECT"@);
    assert("GET"@ != "DELETE"@);
    assert("HEAD"@ != "CONNECT"@);
    assert("HEAD"@ != "DELETE"@);
    assert("HEAD"@ != "GET"@);
    assert("OPTIONS"@ != "CONNECT"@);
    assert("OPTIONS"@ != "DELETE"@);
    assert("OPTIONS"@ != "GET"@);
    assert("OPTIONS"@ != "HEAD"@);
    assert("PATCH"@ != "CONNECT"@);
    assert("PATCH"@ != "DELETE"@);
    assert("PATCH"@ != "GET"@);
    assert("PATCH"@ != "HEAD"@);
    assert("PATCH"@ != "OPTIONS"@);
    assert("POST"@ != "CONNECT"@);
    assert("POST"@ != "DELETE"@);
    assert("POST"@ != "GET"@);
    assert("POST"@ != "HEAD"@);
    assert("POST"@ != "OPTIONS"@);
    assert("POST"@ != "PATCH"@);
    assert("PUT"@ != "CONNECT"@);
    assert("PUT"@ != "DELETE"@);
    assert("PUT"@ != "GET"@);
    assert("PUT"@ != "HEAD"@);
    assert("PUT"@ != "OPTIONS"@);
    assert("PUT"@ != "PATCH"@);
    assert("PUT"@ != "POST"@);
    assert("TRACE"@ != "CONNECT"@);
    assert("TRACE"@ != "DELETE"@);
    assert("TRACE"@ != "GET"@);
    assert("TRACE"@ != "HEAD"@);
    assert("TRACE"@ != "OPTIONS"@);
    assert("TRACE"@ != "PATCH"@);
    assert("TRACE"@ != "POST"@);
    assert("TRACE"@ != "PUT"@);
    assert("get"@ != "CONNECT"@);
    assert("get"@ != "DELETE"@);
    assert("get"@ != "GET"@);
    assert("get"@ != "HEAD"@);
    assert("get"@ != "OPTIONS"@);
    assert("get"@ != "PATCH"@);
    assert("get"@ != "POST"@);
    assert("get"@ != "PUT"@);
    assert("get"@ != "TRACE"@);
    assert(""@ != "CONNECT"@);
    assert(""@ != "DELETE"@);
    assert(""@ != "GET"@);
    assert(""@ != "HEAD"@);
    assert(""@ != "OPTIONS"@);
    assert(""@ != "PATCH"@);
    assert(""@ != "POST"@);
    assert(""@ != "PUT"@);
    assert(""@ != "TRACE"@);
    assert(""@ != "get"@);
}

/// The status code sent is always one that HTTP can carry.
pub proof fn lemma_status_sent_in_range(status: u16)
    ensures
        100 <= status_sent(status) < 1000,
        (100 <= status < 1000) ==> status_sent(status) == status,
        !(100 <= status < 1000) ==> status_sent(status) == 500,
{
}

} // verus!
