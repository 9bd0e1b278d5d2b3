//! The request that carries a payload to the collection endpoint, and what
//! the endpoint's answer means.

use vstd::prelude::*;
use crate::decimal::{decimal_text, push_unsigned};

verus! {

/// The method of every upload.
pub const METHOD: &'static str = "POST";

/// The address every payload is posted to.
pub const ENDPOINT: &'static str =
    "https://bko7deq544.execute-api.us-east-2.amazonaws.com/dev/sensors";

/// The name of the header that says what the body is.
pub const CONTENT_TYPE: &'static str = "content-type";

/// The content type of a payload.
pub const CONTENT_TYPE_JSON: &'static str = "application/json";

/// The name of the header that the endpoint admits a request by.
pub const TOKEN_HEADER: &'static str = "authorization-token";

/// The value of that header.
pub const TOKEN_VALUE: &'static str = "allow";

/// One header of a request.
#[derive(Debug, PartialEq, Eq)]
pub struct Header {
    pub name: String,
    pub value: String,
}

impl View for Header {
    type V = (Seq<char>, Seq<char>);

    open spec fn view(&self) -> (Seq<char>, Seq<char>) {
        (self.name@, self.value@)
    }
}

/// An HTTP request, ready to be sent: by which method, where to, with which
/// headers in which order, and with what body.
#[derive(Debug, PartialEq, Eq)]
pub struct PostRequest {
    pub method: String,
    pub url: String,
    pub headers: Vec<Header>,
    pub body: String,
}

/// What a [`PostRequest`] holds, as mathematical values.
pub struct PostRequestView {
    pub method: Seq<char>,
    pub url: Seq<char>,
    pub headers: Seq<(Seq<char>, Seq<char>)>,
    pub body: Seq<char>,
}

impl View for PostRequest {
    type V = PostRequestView;

    open spec fn view(&self) -> PostRequestView {
        PostRequestView {
            method: self.method@,
            url: self.url@,
            headers: self.headers@.map_values(|h: Header| h@),
            body: self.body@,
        }
    }
}

/// The request that uploads `body`: a POST to [`ENDPOINT`] that declares the
/// body as JSON and carries the fixed token.
pub open spec fn request_for(body: Seq<char>) -> PostRequestView {
    PostRequestView {
        method: METHOD@,
        url: ENDPOINT@,
        headers: seq![(CONTENT_TYPE@, CONTENT_TYPE_JSON@), (TOKEN_HEADER@, TOKEN_VALUE@)],
        body,
    }
}

/// Makes the request that uploads `body`.
pub fn post_request(body: String) -> (r: PostRequest)
    ensures
        r@ == request_for(body@),
{
    let mut headers: Vec<Header> = Vec::new();
    headers.push(
        Header { name: CONTENT_TYPE.to_owned(), value: CONTENT_TYPE_JSON.to_owned() },
    );
    headers.push(Header { name: TOKEN_HEADER.to_owned(), value: TOKEN_VALUE.to_owned() });
    let r = PostRequest { method: METHOD.to_owned(), url: ENDPOINT.to_owned(), headers, body };
    assert(r@.headers =~= request_for(body@).headers);
    r
}

/// What the answer to an upload means. Nothing follows from it but the line
/// that is shown to the operator.
#[derive(Clone, Copy, Debug, PartialEq, Eq, Structural)]
pub enum Outcome {
    /// The status was one of 200 to 299.
    Success,
    /// The status was one of 500 to 599.
    ServerError(u16),
    /// Any other status, those of 400 to 499 among them.
    Other(u16),
}

/// The meaning of a status.
pub open spec fn outcome_of(status: u16) -> Outcome {
    if 200 <= status <= 299 {
        Outcome::Success
    } else if 500 <= status <= 599 {
        Outcome::ServerError(status)
    } else {
        Outcome::Other(status)
    }
}

/// The line that reports an outcome. But for success it ends in the status.
pub open spec fn report_text(outcome: Outcome) -> Seq<char> {
    match outcome {
        Outcome::Success => "success!"@,
        Outcome::ServerError(status) => "server error! Status: "@ + decimal_text(status as nat),
        Outcome::Other(status) => "Something else happened. Status: "@ + decimal_text(
            status as nat,
        ),
    }
}

/// Classifies the status of an answer.
pub fn classify(status: u16) -> (outcome: Outcome)
    ensures
        outcome == outcome_of(status),
{
    if 200 <= status && status <= 299 {
        Outcome::Success
    } else if 500 <= status && status <= 599 {
        Outcome::ServerError(status)
    } else {
        Outcome::Other(status)
    }
}

impl Outcome {
    /// The line that reports this outcome.
    pub fn report(&self) -> (line: String)
        ensures
            line@ == report_text(*self),
    {
        match *self {
            Outcome::Success => "success!".to_owned(),
            Outcome::ServerError(status) => {
                let mut line = "server error! Status: ".to_owned();
                push_unsigned(&mut line, status as u64);
                line
            },
            Outcome::Other(status) => {
                let mut line = "Something else happened. Status: ".to_owned();
                push_unsigned(&mut line, status as u64);
                line
            },
        }
    }
}

} // verus!
