//! Requests, responses and the methods they carry.

use vstd::prelude::*;
use vstd::string::*;
use crate::text::same_text;

verus! {

/// The method of a request, as named on its request line.
#[derive(Clone, Copy, Debug, PartialEq, Eq)]
pub enum Method {
    Get,
    Head,
    Post,
    Put,
    Delete,
    Connect,
    Options,
    Trace,
    Patch,
    /// Any token that is none of the standard method names.
    Other,
}

/// A method that routes can be registered for.
#[derive(Clone, Copy, Debug, PartialEq, Eq)]
pub enum RouteMethod {
    Get,
    Post,
}

impl RouteMethod {
    /// The request method that a route of this kind answers.
    pub open spec fn spec_method(self) -> Method {
        match self {
            RouteMethod::Get => Method::Get,
            RouteMethod::Post => Method::Post,
        }
    }

    /// The request method that a route of this kind answers.
    #[verifier::when_used_as_spec(spec_method)]
    pub fn method(self) -> (m: Method)
        ensures
            m == self.spec_method(),
    {
        match self {
            RouteMethod::Get => Method::Get,
            RouteMethod::Post => Method::Post,
        }
    }
}

impl Method {
    /// The method that a request-line token names. Names are case-sensitive.
    pub open spec fn spec_from_name(name: Seq<char>) -> Method {
        if name == "GET"@ {
            Method::Get
        } else if name == "HEAD"@ {
            Method::Head
        } else if name == "POST"@ {
            Method::Post
        } else if name == "PUT"@ {
            Method::Put
        } else if name == "DELETE"@ {
            Method::Delete
        } else if name == "CONNECT"@ {
            Method::Connect
        } else if name == "OPTIONS"@ {
            Method::Options
        } else if name == "TRACE"@ {
            Method::Trace
        } else if name == "PATCH"@ {
            Method::Patch
        } else {
            Method::Other
        }
    }

    /// Reads a method from its request-line token.
    pub fn from_name(name: &str) -> (m: Method)
        ensures
            m == Method::spec_from_name(name@),
    {
        if same_text(name, "GET") {
            Method::Get
        } else if same_text(name, "HEAD") {
            Method::Head
        } else if same_text(name, "POST") {
            Method::Post
        } else if same_text(name, "PUT") {
            Method::Put
        } else if same_text(name, "DELETE") {
            Method::Delete
        } else if same_text(name, "CONNECT") {
            Method::Connect
        } else if same_text(name, "OPTIONS") {
            Method::Options
        } else if same_text(name, "TRACE") {
            Method::Trace
        } else if same_text(name, "PATCH") {
            Method::Patch
        } else {
            Method::Other
        }
    }

    /// The kind of route that answers this method, if routes exist for it.
    pub open spec fn spec_route_method(self) -> Option<RouteMethod> {
        match self {
            Method::Get => Some(RouteMethod::Get),
            Method::Post => Some(RouteMethod::Post),
            _ => None,
        }
    }

    /// The kind of route that answers this method, if routes exist for it.
    #[verifier::when_used_as_spec(spec_route_method)]
    pub fn route_method(self) -> (kind: Option<RouteMethod>)
        ensures
            kind == self.spec_route_method(),
    {
        match self {
            Method::Get => Some(RouteMethod::Get),
            Method::Post => Some(RouteMethod::Post),
            _ => None,
        }
    }
}

/// One parsed request. It lives for a single exchange.
#[derive(Clone, Debug, PartialEq, Eq)]
pub struct Request {
    pub method: Method,
    /// The path of the request target, without the query.
    pub path: String,
    pub headers: Vec<(String, String)>,
    pub body: Vec<u8>,
}

impl Request {
    /// A request with no headers and an empty body.
    pub fn new(method: Method, path: &str) -> (request: Request)
        ensures
            request.method == method,
            request.path@ == path@,
            request.headers@.len() == 0,
            request.body@.len() == 0,
    {
        Request { method, path: path.to_owned(), headers: Vec::new(), body: Vec::new() }
    }
}

/// What a response says, with its strings as character sequences.
pub struct ResponseView {
    pub status: u16,
    pub headers: Seq<(Seq<char>, Seq<char>)>,
    pub body: Seq<u8>,
}

/// One response, built afresh for each request.
#[derive(Clone, Debug, PartialEq, Eq)]
pub struct Response {
    pub status: u16,
    /// The header lines, each a name and a value, in the order they are
    /// sent.
    pub headers: Vec<(String, String)>,
    pub body: Vec<u8>,
}

/// Header lines with their strings as character sequences.
pub open spec fn headers_view(headers: Seq<(String, String)>) -> Seq<(Seq<char>, Seq<char>)> {
    headers.map_values(|line: (String, String)| (line.0@, line.1@))
}

impl View for Response {
    type V = ResponseView;

    open spec fn view(&self) -> ResponseView {
        ResponseView {
            status: self.status,
            headers: headers_view(self.headers@),
            body: self.body@,
        }
    }
}

} // verus!
