//! The answers that the service gives to requests that succeed.

use vstd::prelude::*;
use crate::document::Document;

verus! {

/// The body of an answer: text, one document, or a list of documents
/// (the last two are sent as JSON).
#[derive(Clone, Debug, PartialEq, Eq)]
pub enum Body {
    Text(String),
    Document(Document),
    Documents(Vec<Document>),
}

/// An answer: HTTP status, headers in order, and body.
#[derive(Clone, Debug, PartialEq, Eq)]
pub struct Response {
    pub status: u16,
    pub headers: Vec<(String, String)>,
    pub body: Body,
}

pub open spec fn spec_header(h: (String, String), name: Seq<char>, value: Seq<char>) -> bool {
    h.0@ == name && h.1@ == value
}

pub open spec fn spec_text_body(b: Body, text: Seq<char>) -> bool {
    b matches Body::Text(t) && t@ == text
}

impl Response {
    /// An answer with no headers.
    pub fn new(status: u16, body: Body) -> (r: Response)
        ensures
            r.status == status,
            r.headers@.len() == 0,
            r.body == body,
    {
        Response { status, headers: Vec::new(), body }
    }

    /// An answer with a text body and no headers.
    pub fn text(status: u16, text: &str) -> (r: Response)
        ensures
            r.status == status,
            r.headers@.len() == 0,
            spec_text_body(r.body, text@),
    {
        Response { status, headers: Vec::new(), body: Body::Text(String::from_str(text)) }
    }

    /// An answer with one header and a text body.
    pub fn text_with_header(status: u16, name: &str, value: &str, text: &str) -> (r: Response)
        ensures
            r.status == status,
            r.headers@.len() == 1,
            spec_header(r.headers@[0], name@, value@),
            spec_text_body(r.body, text@),
    {
        let mut headers: Vec<(String, String)> = Vec::new();
        headers.push((String::from_str(name), String::from_str(value)));
        Response { status, headers, body: Body::Text(String::from_str(text)) }
    }

    /// Appends a header.
    pub fn add_header(&mut self, header: (String, String))
        ensures
            final(self).status == old(self).status,
            final(self).body == old(self).body,
            final(self).headers@ == old(self).headers@.push(header),
    {
        self.headers.push(header);
    }
}

} // verus!
