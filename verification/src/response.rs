//! Responses: what a request for a stream is answered with, and the status
//! and header fields that go with each answer.

use crate::numeral::{decimal, push_decimal};
use crate::text::{owned_text_of, text_of};
use vstd::prelude::*;
use vstd::string::*;

verus! {

/// Why a request could not be served.
#[derive(Clone, Copy, Debug, PartialEq, Eq, Structural)]
pub enum StreamError {
    /// No file is registered under the identifier.
    NotRegistered,
    /// The file could not be opened: moved, deleted, or not permitted.
    FileUnavailable,
    /// The length of the file could not be found.
    MetadataFailure,
    /// The bytes of the span could not be read in full.
    ReadFailure,
}

impl StreamError {
    /// The status that the failure is reported with: 404 where the file is
    /// not to be had, 500 where it was opened and then failed.
    pub open spec fn spec_status(self) -> u16 {
        match self {
            StreamError::NotRegistered => 404,
            StreamError::FileUnavailable => 404,
            StreamError::MetadataFailure => 500,
            StreamError::ReadFailure => 500,
        }
    }

    /// The status that the failure is reported with.
    pub fn status(&self) -> (code: u16)
        ensures
            code == self.spec_status(),
    {
        match self {
            StreamError::NotRegistered => 404,
            StreamError::FileUnavailable => 404,
            StreamError::MetadataFailure => 500,
            StreamError::ReadFailure => 500,
        }
    }
}

/// The answer to a request.
#[derive(Debug, Clone, PartialEq, Eq)]
pub enum StreamResponse {
    /// The request failed; the answer has no body.
    Failed(StreamError),
    /// The whole file at `path`, to be sent in chunks as it is read.
    Full { path: String, content_type: &'static str, content_length: u64 },
    /// The bytes `start` to `end`, both included, of a file of `total` bytes.
    Partial { content_type: &'static str, start: u64, end: u64, total: u64, body: Vec<u8> },
}

/// A response as a mathematical value.
pub enum ResponseView {
    Failed(StreamError),
    Full { path: Seq<char>, content_type: Seq<char>, content_length: u64 },
    Partial { content_type: Seq<char>, start: u64, end: u64, total: u64, body: Seq<u8> },
}

impl View for StreamResponse {
    type V = ResponseView;

    open spec fn view(&self) -> ResponseView {
        match *self {
            StreamResponse::Failed(error) => ResponseView::Failed(error),
            StreamResponse::Full { path, content_type, content_length } => ResponseView::Full {
                path: path@,
                content_type: content_type@,
                content_length,
            },
            StreamResponse::Partial {
                content_type,
                start,
                end,
                total,
                body,
            } => ResponseView::Partial { content_type: content_type@, start, end, total, body: body@ },
        }
    }
}

/// The status and the header fields of a response. A field that is `None` is
/// not sent.
#[derive(Debug, Clone, PartialEq, Eq)]
pub struct ResponseHead {
    pub status: u16,
    pub content_type: Option<&'static str>,
    pub content_length: Option<u64>,
    pub content_range: Option<String>,
    pub accept_ranges: Option<&'static str>,
}

/// A response head as a mathematical value.
pub struct HeadView {
    pub status: u16,
    pub content_type: Option<Seq<char>>,
    pub content_length: Option<u64>,
    pub content_range: Option<Seq<char>>,
    pub accept_ranges: Option<Seq<char>>,
}

impl View for ResponseHead {
    type V = HeadView;

    open spec fn view(&self) -> HeadView {
        HeadView {
            status: self.status,
            content_type: text_of(self.content_type),
            content_length: self.content_length,
            content_range: owned_text_of(self.content_range),
            accept_ranges: text_of(self.accept_ranges),
        }
    }
}

/// The value of a `Content-Range` field: the unit, the span and the length of
/// the whole file.
pub open spec fn content_range_text(start: u64, end: u64, total: u64) -> Seq<char> {
    "bytes "@ + decimal(start as nat) + seq!['-'] + decimal(end as nat) + seq!['/'] + decimal(
        total as nat,
    )
}

/// The head that goes with a response.
///
/// A failure carries its status and no field. The whole file goes out with
/// 200, its type and its length; a span with 206, its type, the number of its
/// bytes and its `Content-Range`. Both announce that ranges in bytes are
/// accepted.
pub open spec fn head_of(response: ResponseView) -> HeadView {
    match response {
        ResponseView::Failed(error) => HeadView {
            status: error.spec_status(),
            content_type: None,
            content_length: None,
            content_range: None,
            accept_ranges: None,
        },
        ResponseView::Full { path, content_type, content_length } => HeadView {
            status: 200,
            content_type: Some(content_type),
            content_length: Some(content_length),
            content_range: None,
            accept_ranges: Some("bytes"@),
        },
        ResponseView::Partial { content_type, start, end, total, body } => HeadView {
            status: 206,
            content_type: Some(content_type),
            content_length: Some(body.len() as u64),
            content_range: Some(content_range_text(start, end, total)),
            accept_ranges: Some("bytes"@),
        },
    }
}

/// The value of the `Content-Range` field for the span `start` to `end` of a
/// file of `total` bytes.
pub fn content_range(start: u64, end: u64, total: u64) -> (text: String)
    ensures
        text@ == content_range_text(start, end, total),
{
    proof {
        reveal_strlit("-");
        reveal_strlit("/");
    }
    let mut text = String::from_str("bytes ");
    push_decimal(&mut text, start);
    text.append("-");
    push_decimal(&mut text, end);
    text.append("/");
    push_decimal(&mut text, total);
    text
}

impl StreamResponse {
    /// The status of the response.
    pub fn status(&self) -> (code: u16)
        ensures
            code == head_of(self@).status,
    {
        match self {
            StreamResponse::Failed(error) => error.status(),
            StreamResponse::Full { .. } => 200,
            StreamResponse::Partial { .. } => 206,
        }
    }

    /// The status and the header fields of the response.
    pub fn head(&self) -> (head: ResponseHead)
        ensures
            head@ == head_of(self@),
    {
        match self {
            StreamResponse::Failed(error) => ResponseHead {
                status: error.status(),
                content_type: None,
                content_length: None,
                content_range: None,
                accept_ranges: None,
            },
            StreamResponse::Full { path, content_type, content_length } => ResponseHead {
                status: 200,
                content_type: Some(*content_type),
                content_length: Some(*content_length),
                content_range: None,
                accept_ranges: Some("bytes"),
            },
            StreamResponse::Partial { content_type, start, end, total, body } => ResponseHead {
                status: 206,
                content_type: Some(*content_type),
                content_length: Some(body.len() as u64),
                content_range: Some(content_range(*start, *end, *total)),
                accept_ranges: Some("bytes"),
            },
        }
    }
}

} // verus!
