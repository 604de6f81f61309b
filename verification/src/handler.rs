//! The stream handler: the decisions that lead from a request to its response.
//!
//! Serving a file needs up to three things from the file system, in this
//! order: the file opened, its length, and the bytes of the span asked for.
//! The handler performs none of them. It says which one is pending, takes the
//! event that answers it, and decides what comes next, until the response is
//! known. Whoever drives it opens, measures and reads, and holds the registry
//! only for the first decision.
//!
//! A request without a readable range is answered with the whole file: a
//! range that cannot be read, or that does not lie within the file, is no
//! error.

use crate::content_type::{content_type_of, get_content_type};
use crate::range::{
    closed_range_text, lemma_closed_range_parses, lemma_open_range_parses,
    lemma_range_outside_file_is_none, open_range_text, parse_range, spec_parse_range,
};
use crate::numeral::is_lower_hex;
use crate::registry::{
    consistent, lemma_other_text_is_not_registered, looked_up, FileRegistry,
};
use crate::response::{
    content_range_text, head_of, ResponseView, StreamError, StreamResponse,
};
use crate::text::{owned_text_of, text_of};
use vstd::prelude::*;
use vstd::string::*;

verus! {

/// What the handler waits for. Each state names the one thing to do next.
#[derive(Debug, Clone, PartialEq, Eq)]
pub enum Pending {
    /// Open the file at `path` for reading.
    Open { path: String, range: Option<String> },
    /// Find the length of the opened file.
    Size { path: String, range: Option<String> },
    /// Read the bytes `start` to `end`, both included, of the opened file.
    Read { path: String, start: u64, end: u64, size: u64 },
}

/// What the file system answered.
#[derive(Debug, Clone, PartialEq, Eq)]
pub enum FileEvent {
    /// The file is open.
    Opened,
    /// The file could not be opened.
    OpenFailed,
    /// The length of the file in bytes.
    Size(u64),
    /// The length could not be found.
    SizeFailed,
    /// The bytes that were read.
    Bytes(Vec<u8>),
    /// The bytes could not be read.
    ReadFailed,
}

/// A decision of the handler: wait for one more event, or respond.
#[derive(Debug, Clone, PartialEq, Eq)]
pub enum Outcome {
    /// Do what is pending and come back with the event.
    Wait(Pending),
    /// The request is answered.
    Respond(StreamResponse),
}

/// A pending state as a mathematical value.
pub enum PendingView {
    Open { path: Seq<char>, range: Option<Seq<char>> },
    Size { path: Seq<char>, range: Option<Seq<char>> },
    Read { path: Seq<char>, start: u64, end: u64, size: u64 },
}

/// An event as a mathematical value.
pub enum EventView {
    Opened,
    OpenFailed,
    Size(u64),
    SizeFailed,
    Bytes(Seq<u8>),
    ReadFailed,
}

/// A decision as a mathematical value.
pub enum OutcomeView {
    Wait(PendingView),
    Respond(ResponseView),
}

impl View for Pending {
    type V = PendingView;

    open spec fn view(&self) -> PendingView {
        match *self {
            Pending::Open { path, range } => PendingView::Open {
                path: path@,
                range: owned_text_of(range),
            },
            Pending::Size { path, range } => PendingView::Size {
                path: path@,
                range: owned_text_of(range),
            },
            Pending::Read { path, start, end, size } => PendingView::Read {
                path: path@,
                start,
                end,
                size,
            },
        }
    }
}

impl PendingView {
    /// The offset and the number of the bytes to read, where a span within
    /// the file is pending.
    pub open spec fn read_span(self) -> Option<(u64, u64)> {
        match self {
            PendingView::Read { path, start, end, size } => if start <= end && end < size {
                Some((start, (end - start + 1) as u64))
            } else {
                None
            },
            _ => None,
        }
    }
}

impl Pending {
    /// The offset to read from and the number of bytes to read, where reading
    /// is pending: the bytes that `step` will take.
    pub fn read_span(&self) -> (span: Option<(u64, u64)>)
        ensures
            span == self@.read_span(),
    {
        match self {
            Pending::Read { path, start, end, size } => {
                if *start <= *end && *end < *size {
                    Some((*start, *end - *start + 1))
                } else {
                    None
                }
            },
            _ => None,
        }
    }
}

impl View for FileEvent {
    type V = EventView;

    open spec fn view(&self) -> EventView {
        match *self {
            FileEvent::Opened => EventView::Opened,
            FileEvent::OpenFailed => EventView::OpenFailed,
            FileEvent::Size(size) => EventView::Size(size),
            FileEvent::SizeFailed => EventView::SizeFailed,
            FileEvent::Bytes(bytes) => EventView::Bytes(bytes@),
            FileEvent::ReadFailed => EventView::ReadFailed,
        }
    }
}

impl View for Outcome {
    type V = OutcomeView;

    open spec fn view(&self) -> OutcomeView {
        match *self {
            Outcome::Wait(pending) => OutcomeView::Wait(pending@),
            Outcome::Respond(response) => OutcomeView::Respond(response@),
        }
    }
}

/// The span that a request asks for in a file of `size` bytes: that of its
/// `Range` header, where it has one that can be read.
pub open spec fn requested_span(range: Option<Seq<char>>, size: u64) -> Option<(u64, u64)> {
    match range {
        Some(header) => spec_parse_range(header, size),
        None => None,
    }
}

/// The first decision: an identifier that is not registered is answered with
/// `NotRegistered`, any other leads to opening its file.
pub open spec fn spec_begin(
    files: Map<Seq<char>, Seq<char>>,
    file_id: Seq<char>,
    range: Option<Seq<char>>,
) -> OutcomeView {
    match looked_up(files, file_id) {
        Some(path) => OutcomeView::Wait(PendingView::Open { path, range }),
        None => OutcomeView::Respond(ResponseView::Failed(StreamError::NotRegistered)),
    }
}

/// The decision that follows an event.
///
/// Each state has one event that answers it well. Any other event is the
/// failure of what was pending: `FileUnavailable` while opening,
/// `MetadataFailure` while measuring, `ReadFailure` while reading. Bytes are
/// taken only where their number is that of the span, `end - start + 1`.
pub open spec fn spec_step(pending: PendingView, event: EventView) -> OutcomeView {
    match pending {
        PendingView::Open { path, range } => match event {
            EventView::Opened => OutcomeView::Wait(PendingView::Size { path, range }),
            _ => OutcomeView::Respond(ResponseView::Failed(StreamError::FileUnavailable)),
        },
        PendingView::Size { path, range } => match event {
            EventView::Size(size) => match requested_span(range, size) {
                Some((start, end)) => OutcomeView::Wait(
                    PendingView::Read { path, start, end, size },
                ),
                None => OutcomeView::Respond(
                    ResponseView::Full {
                        path,
                        content_type: content_type_of(path),
                        content_length: size,
                    },
                ),
            },
            _ => OutcomeView::Respond(ResponseView::Failed(StreamError::MetadataFailure)),
        },
        PendingView::Read { path, start, end, size } => match event {
            EventView::Bytes(body) => match pending.read_span() {
                Some((offset, length)) => if body.len() == length {
                    OutcomeView::Respond(
                        ResponseView::Partial {
                            content_type: content_type_of(path),
                            start,
                            end,
                            total: size,
                            body,
                        },
                    )
                } else {
                    OutcomeView::Respond(ResponseView::Failed(StreamError::ReadFailure))
                },
                None => OutcomeView::Respond(ResponseView::Failed(StreamError::ReadFailure)),
            },
            _ => OutcomeView::Respond(ResponseView::Failed(StreamError::ReadFailure)),
        },
    }
}

/// Takes up a request for the file registered under `file_id`, with the value
/// of its `Range` header if it has one.
pub fn begin(registry: &FileRegistry, file_id: &str, range: Option<&str>) -> (outcome: Outcome)
    ensures
        outcome@ == spec_begin(registry@, file_id@, text_of(range)),
{
    match registry.lookup(file_id) {
        Some(path) => {
            let range = match range {
                Some(header) => Some(String::from_str(header)),
                None => None,
            };
            Outcome::Wait(Pending::Open { path, range })
        },
        None => Outcome::Respond(StreamResponse::Failed(StreamError::NotRegistered)),
    }
}

/// Decides what follows `event`, the answer to what was pending.
pub fn step(pending: Pending, event: FileEvent) -> (outcome: Outcome)
    ensures
        outcome@ == spec_step(pending@, event@),
{
    match pending {
        Pending::Open { path, range } => match event {
            FileEvent::Opened => Outcome::Wait(Pending::Size { path, range }),
            _ => Outcome::Respond(StreamResponse::Failed(StreamError::FileUnavailable)),
        },
        Pending::Size { path, range } => match event {
            FileEvent::Size(size) => {
                let span = match &range {
                    Some(header) => parse_range(header.as_str(), size),
                    None => None,
                };
                match span {
                    Some((start, end)) => Outcome::Wait(Pending::Read { path, start, end, size }),
                    None => {
                        let content_type = get_content_type(path.as_str());
                        Outcome::Respond(
                            StreamResponse::Full { path, content_type, content_length: size },
                        )
                    },
                }
            },
            _ => Outcome::Respond(StreamResponse::Failed(StreamError::MetadataFailure)),
        },
        Pending::Read { path, start, end, size } => match event {
            FileEvent::Bytes(body) => {
                if start <= end && end < size && body.len() as u64 == end - start + 1 {
                    let content_type = get_content_type(path.as_str());
                    Outcome::Respond(
                        StreamResponse::Partial { content_type, start, end, total: size, body },
                    )
                } else {
                    Outcome::Respond(StreamResponse::Failed(StreamError::ReadFailure))
                }
            },
            _ => Outcome::Respond(StreamResponse::Failed(StreamError::ReadFailure)),
        },
    }
}

/// What a file system that holds `disk`, the contents of each file by its
/// path, answers to what is pending. A path that `disk` does not hold cannot
/// be opened.
pub open spec fn answer_of(disk: Map<Seq<char>, Seq<u8>>, pending: PendingView) -> EventView {
    match pending {
        PendingView::Open { path, range } => if disk.contains_key(path) {
            EventView::Opened
        } else {
            EventView::OpenFailed
        },
        PendingView::Size { path, range } => if disk.contains_key(path) && disk[path].len()
            <= u64::MAX {
            EventView::Size(disk[path].len() as u64)
        } else {
            EventView::SizeFailed
        },
        PendingView::Read { path, start, end, size } => if disk.contains_key(path) && start <= end
            && end < disk[path].len() {
            EventView::Bytes(disk[path].subrange(start as int, end + 1))
        } else {
            EventView::ReadFailed
        },
    }
}

/// The bytes that go out with a response when the file system holds `disk`:
/// none with a failure, the whole file with a full response, and with a
/// partial one the bytes it carries.
pub open spec fn body_of(disk: Map<Seq<char>, Seq<u8>>, response: ResponseView) -> Seq<u8> {
    match response {
        ResponseView::Failed(error) => Seq::empty(),
        ResponseView::Full { path, content_type, content_length } => if disk.contains_key(path) {
            disk[path]
        } else {
            Seq::empty()
        },
        ResponseView::Partial { content_type, start, end, total, body } => body,
    }
}

/// One turn of the handler against `disk`: a pending state is answered and
/// decided on; a response stays.
pub open spec fn advance(disk: Map<Seq<char>, Seq<u8>>, outcome: OutcomeView) -> OutcomeView {
    match outcome {
        OutcomeView::Wait(pending) => spec_step(pending, answer_of(disk, pending)),
        OutcomeView::Respond(response) => outcome,
    }
}

/// The decision reached for a request after the three turns that a request
/// can take.
pub open spec fn served(
    files: Map<Seq<char>, Seq<char>>,
    disk: Map<Seq<char>, Seq<u8>>,
    file_id: Seq<char>,
    range: Option<Seq<char>>,
) -> OutcomeView {
    advance(disk, advance(disk, advance(disk, spec_begin(files, file_id, range))))
}

/// Three events are enough for any request, whatever they are: opening,
/// measuring and reading each happen at most once.
pub proof fn lemma_three_events_suffice(
    files: Map<Seq<char>, Seq<char>>,
    file_id: Seq<char>,
    range: Option<Seq<char>>,
    first: EventView,
    second: EventView,
    third: EventView,
)
    ensures
        spec_begin(files, file_id, range) matches OutcomeView::Wait(opening) ==> (spec_step(
            opening,
            first,
        ) matches OutcomeView::Wait(measuring) ==> (spec_step(measuring, second)
            matches OutcomeView::Wait(reading) ==> spec_step(reading, third) is Respond)),
{
}

/// Against any file system, the decision reached after three turns is a
/// response.
pub proof fn lemma_served_is_a_response(
    files: Map<Seq<char>, Seq<char>>,
    disk: Map<Seq<char>, Seq<u8>>,
    file_id: Seq<char>,
    range: Option<Seq<char>>,
)
    ensures
        served(files, disk, file_id, range) is Respond,
{
}

/// A request for an identifier that is not registered is answered with 404,
/// whatever the registry and the file system hold.
pub proof fn lemma_unknown_id_is_not_found(
    files: Map<Seq<char>, Seq<char>>,
    disk: Map<Seq<char>, Seq<u8>>,
    file_id: Seq<char>,
    range: Option<Seq<char>>,
)
    requires
        !files.contains_key(file_id),
    ensures
        served(files, disk, file_id, range) == OutcomeView::Respond(
            ResponseView::Failed(StreamError::NotRegistered),
        ),
        head_of(ResponseView::Failed(StreamError::NotRegistered)).status == 404,
{
}

/// Text that is no identifier is answered with 404 by any registry that was
/// filled by registration, however many files it holds: identifiers are
/// numerals in lower-case hexadecimal, and nothing else is ever a key.
pub proof fn lemma_other_text_is_not_found(
    files: Map<Seq<char>, Seq<char>>,
    disk: Map<Seq<char>, Seq<u8>>,
    file_id: Seq<char>,
    range: Option<Seq<char>>,
)
    requires
        consistent(files),
        !is_lower_hex(file_id),
    ensures
        served(files, disk, file_id, range) == OutcomeView::Respond(
            ResponseView::Failed(StreamError::NotRegistered),
        ),
{
    lemma_other_text_is_not_registered(files, file_id);
}

/// A request without a `Range` header for a registered file that can be read
/// is answered with the whole file: status 200, for `Content-Length` the
/// length of the file, and for body its contents.
pub proof fn lemma_full_file(
    files: Map<Seq<char>, Seq<char>>,
    disk: Map<Seq<char>, Seq<u8>>,
    file_id: Seq<char>,
)
    requires
        files.contains_key(file_id),
        disk.contains_key(files[file_id]),
        disk[files[file_id]].len() <= u64::MAX,
    ensures
        ({
            let path = files[file_id];
            let response = ResponseView::Full {
                path,
                content_type: content_type_of(path),
                content_length: disk[path].len() as u64,
            };
            &&& served(files, disk, file_id, None) == OutcomeView::Respond(response)
            &&& head_of(response).status == 200
            &&& head_of(response).content_length == Some(disk[path].len() as u64)
            &&& body_of(disk, response) == disk[path]
        }),
{
}

/// A request for a span that lies within a registered file is answered with
/// exactly the bytes of that span: status 206, for `Content-Length` their
/// number, and for `Content-Range` the span and the length of the file.
pub proof fn lemma_exact_range(
    files: Map<Seq<char>, Seq<char>>,
    disk: Map<Seq<char>, Seq<u8>>,
    file_id: Seq<char>,
    start: u64,
    end: u64,
)
    requires
        files.contains_key(file_id),
        disk.contains_key(files[file_id]),
        disk[files[file_id]].len() <= u64::MAX,
        start <= end < disk[files[file_id]].len(),
    ensures
        ({
            let path = files[file_id];
            let total = disk[path].len() as u64;
            let response = ResponseView::Partial {
                content_type: content_type_of(path),
                start,
                end,
                total,
                body: disk[path].subrange(start as int, end + 1),
            };
            &&& served(files, disk, file_id, Some(closed_range_text(start, end)))
                == OutcomeView::Respond(response)
            &&& head_of(response).status == 206
            &&& head_of(response).content_length == Some((end - start + 1) as u64)
            &&& head_of(response).content_range == Some(content_range_text(start, end, total))
            &&& body_of(disk, response) == disk[path].subrange(start as int, end + 1)
        }),
{
    let path = files[file_id];
    let total = disk[path].len() as u64;
    lemma_closed_range_parses(start, end, total);
}

/// A request that names a start and no end is answered with the bytes from
/// that start to the end of the file.
pub proof fn lemma_open_ended_range(
    files: Map<Seq<char>, Seq<char>>,
    disk: Map<Seq<char>, Seq<u8>>,
    file_id: Seq<char>,
    start: u64,
)
    requires
        files.contains_key(file_id),
        disk.contains_key(files[file_id]),
        disk[files[file_id]].len() <= u64::MAX,
        start < disk[files[file_id]].len(),
    ensures
        ({
            let path = files[file_id];
            let total = disk[path].len() as u64;
            let response = ResponseView::Partial {
                content_type: content_type_of(path),
                start,
                end: (total - 1) as u64,
                total,
                body: disk[path].subrange(start as int, total as int),
            };
            &&& served(files, disk, file_id, Some(open_range_text(start))) == OutcomeView::Respond(
                response,
            )
            &&& head_of(response).status == 206
            &&& head_of(response).content_length == Some((total - start) as u64)
            &&& head_of(response).content_range == Some(
                content_range_text(start, (total - 1) as u64, total),
            )
        }),
{
    let path = files[file_id];
    let total = disk[path].len() as u64;
    lemma_open_range_parses(start, total);
}

/// A request for a span that reaches beyond the file is not refused: it is
/// answered with the whole file and status 200.
pub proof fn lemma_range_beyond_file_falls_back(
    files: Map<Seq<char>, Seq<char>>,
    disk: Map<Seq<char>, Seq<u8>>,
    file_id: Seq<char>,
    start: u64,
    end: u64,
)
    requires
        files.contains_key(file_id),
        disk.contains_key(files[file_id]),
        disk[files[file_id]].len() <= u64::MAX,
        end >= disk[files[file_id]].len(),
    ensures
        ({
            let path = files[file_id];
            let response = ResponseView::Full {
                path,
                content_type: content_type_of(path),
                content_length: disk[path].len() as u64,
            };
            &&& served(files, disk, file_id, Some(closed_range_text(start, end)))
                == OutcomeView::Respond(response)
            &&& head_of(response).status == 200
            &&& body_of(disk, response) == disk[path]
        }),
{
    let path = files[file_id];
    let total = disk[path].len() as u64;
    lemma_range_outside_file_is_none(start, end, total);
}

/// Two requests for spans of two files are answered each from its own file:
/// the bytes of one never go out with the other, and each answer has the
/// length of its own span. No request changes the registry, so the order in
/// which the two are served does not matter.
pub proof fn lemma_two_streams_do_not_mix(
    files: Map<Seq<char>, Seq<char>>,
    disk: Map<Seq<char>, Seq<u8>>,
    one: Seq<char>,
    one_span: (u64, u64),
    other: Seq<char>,
    other_span: (u64, u64),
)
    requires
        files.contains_key(one),
        files.contains_key(other),
        disk.contains_key(files[one]),
        disk.contains_key(files[other]),
        disk[files[one]].len() <= u64::MAX,
        disk[files[other]].len() <= u64::MAX,
        one_span.0 <= one_span.1 < disk[files[one]].len(),
        other_span.0 <= other_span.1 < disk[files[other]].len(),
    ensures
        ({
            let range = Some(closed_range_text(one_span.0, one_span.1));
            let bytes = disk[files[one]].subrange(one_span.0 as int, one_span.1 + 1);
            &&& served(files, disk, one, range) matches OutcomeView::Respond(response)
            &&& body_of(disk, response) == bytes
            &&& bytes.len() == one_span.1 - one_span.0 + 1
        }),
        ({
            let range = Some(closed_range_text(other_span.0, other_span.1));
            let bytes = disk[files[other]].subrange(other_span.0 as int, other_span.1 + 1);
            &&& served(files, disk, other, range) matches OutcomeView::Respond(response)
            &&& body_of(disk, response) == bytes
            &&& bytes.len() == other_span.1 - other_span.0 + 1
        }),
{
    lemma_exact_range(files, disk, one, one_span.0, one_span.1);
    lemma_exact_range(files, disk, other, other_span.0, other_span.1);
}

} // verus!
