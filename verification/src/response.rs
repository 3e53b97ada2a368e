//! HTTP responses as plain values.

use vstd::prelude::*;

verus! {

/// The status code of a response that was served from a handler.
pub const STATUS_OK: u16 = 200;

/// The status code of a response to a request that no route matches.
pub const STATUS_NOT_FOUND: u16 = 404;

/// The kind of body that a response carries.
#[derive(Clone, Copy, Debug, PartialEq, Eq, Structural)]
pub enum ContentType {
    Html,
    Json,
}

impl ContentType {
    /// The media type alone: `text/html` or `application/json`.
    pub open spec fn spec_media_type(self) -> Seq<char> {
        match self {
            ContentType::Html => "text/html"@,
            ContentType::Json => "application/json"@,
        }
    }

    /// The value of the `Content-Type` header: the media type, and for HTML
    /// the character set of the body.
    pub open spec fn spec_header_value(self) -> Seq<char> {
        match self {
            ContentType::Html => "text/html; charset=utf-8"@,
            ContentType::Json => "application/json"@,
        }
    }

    /// The media type alone: `text/html` or `application/json`.
    pub fn media_type(self) -> (name: &'static str)
        ensures
            name@ == self.spec_media_type(),
    {
        match self {
            ContentType::Html => "text/html",
            ContentType::Json => "application/json",
        }
    }

    /// The value of the `Content-Type` header.
    pub fn header_value(self) -> (value: &'static str)
        ensures
            value@ == self.spec_header_value(),
    {
        match self {
            ContentType::Html => "text/html; charset=utf-8",
            ContentType::Json => "application/json",
        }
    }
}

/// A complete response: status, kind of body, and the body itself.
#[derive(Clone, Copy, Debug, PartialEq, Eq)]
pub struct Response {
    pub status: u16,
    pub content_type: ContentType,
    pub body: &'static str,
}

/// The mathematical value of a [`Response`].
pub struct ResponseView {
    pub status: int,
    pub content_type: ContentType,
    pub body: Seq<char>,
}

impl View for Response {
    type V = ResponseView;

    open spec fn view(&self) -> ResponseView {
        ResponseView {
            status: self.status as int,
            content_type: self.content_type,
            body: self.body@,
        }
    }
}

} // verus!
