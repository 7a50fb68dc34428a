//! The responses of the service, as plain values.
//!
//! Every response carries the status 200: an error is told from an answer by
//! the shape of its body alone, an object with the one field `err`.

use vstd::prelude::*;
use crate::envelope::{error_envelope, error_json, list_envelope, word_envelope, word_json, words_json};
use crate::error::EcdictError;
use crate::word::{word_views, Word};

verus! {

/// The status of every response.
pub const STATUS_OK: u16 = 200;

/// The body of the response to a request for the root path.
pub const ROOT_BODY: &'static str = "REST API FOR ECDICT";

/// What kind of text a body holds.
#[derive(Clone, Copy, Debug, PartialEq, Eq, Structural)]
pub enum ContentType {
    /// Plain text.
    Text,
    /// JSON.
    Json,
}

impl ContentType {
    /// The value of the `content-type` header for this kind of body.
    pub open spec fn header(self) -> Seq<char> {
        match self {
            ContentType::Text => "text/plain; charset=utf-8"@,
            ContentType::Json => "application/json"@,
        }
    }

    /// The value of the `content-type` header for this kind of body.
    pub fn header_value(self) -> (value: &'static str)
        ensures
            value@ == self.header(),
    {
        match self {
            ContentType::Text => "text/plain; charset=utf-8",
            ContentType::Json => "application/json",
        }
    }
}

/// A response: status, kind of body, and body.
#[derive(Debug, PartialEq, Eq)]
pub struct Response {
    pub status: u16,
    pub content_type: ContentType,
    pub body: String,
}

/// The mathematical value of a [`Response`].
pub struct ResponseView {
    pub status: u16,
    pub content_type: ContentType,
    pub body: Seq<char>,
}

impl View for Response {
    type V = ResponseView;

    open spec fn view(&self) -> ResponseView {
        ResponseView { status: self.status, content_type: self.content_type, body: self.body@ }
    }
}

/// The response with status 200 that carries `body` as JSON.
pub open spec fn json_reply(body: Seq<char>) -> ResponseView {
    ResponseView { status: STATUS_OK, content_type: ContentType::Json, body }
}

/// The response to a request for the root path.
pub open spec fn root_reply() -> ResponseView {
    ResponseView { status: STATUS_OK, content_type: ContentType::Text, body: ROOT_BODY@ }
}

impl Response {
    /// The response with status 200 that carries `body` as JSON.
    pub fn json(body: String) -> (response: Response)
        ensures
            response@ == json_reply(body@),
    {
        Response { status: STATUS_OK, content_type: ContentType::Json, body }
    }
}

impl Word {
    /// The response that carries this entry: its JSON object.
    pub fn into_response(self) -> (response: Response)
        ensures
            response@ == json_reply(word_envelope(self@)),
    {
        Response::json(word_json(&self))
    }
}

impl EcdictError {
    /// The response that carries this error: the object with the one field
    /// `err`, which holds the description of the error.
    pub fn into_response(self) -> (response: Response)
        ensures
            response@ == json_reply(error_envelope(self@)),
    {
        Response::json(error_json(&self))
    }
}

/// The response that carries a list of entries: the array of their objects,
/// in the order of the list.
pub fn words_response(words: &Vec<Word>) -> (response: Response)
    ensures
        response@ == json_reply(list_envelope(word_views(words@))),
{
    Response::json(words_json(words))
}

/// The response to a request for the root path: a fixed line of plain text.
pub fn root_response() -> (response: Response)
    ensures
        response@ == root_reply(),
{
    Response { status: STATUS_OK, content_type: ContentType::Text, body: ROOT_BODY.to_owned() }
}

} // verus!
