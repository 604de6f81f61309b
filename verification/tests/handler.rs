use std::collections::HashMap;
use video_streaming::handler::{begin, step, FileEvent, Outcome, Pending};
use video_streaming::registry::FileRegistry;
use video_streaming::response::{content_range, ResponseHead, StreamError, StreamResponse};

/// A file of `len` bytes whose byte at `i` is `i * 7 + seed`, cut to eight bits.
fn contents(len: usize, seed: u8) -> Vec<u8> {
    (0..len).map(|i| (i * 7) as u8 ^ seed).collect()
}

/// Answers what is pending from files held in memory.
fn answer(disk: &HashMap<String, Vec<u8>>, pending: &Pending) -> FileEvent {
    match pending {
        Pending::Open { path, .. } => {
            if disk.contains_key(path) {
                FileEvent::Opened
            } else {
                FileEvent::OpenFailed
            }
        }
        Pending::Size { path, .. } => match disk.get(path) {
            Some(bytes) => FileEvent::Size(bytes.len() as u64),
            None => FileEvent::SizeFailed,
        },
        Pending::Read { path, .. } => match (disk.get(path), pending.read_span()) {
            (Some(bytes), Some((offset, length))) if offset + length <= bytes.len() as u64 => {
                FileEvent::Bytes(bytes[offset as usize..(offset + length) as usize].to_vec())
            }
            _ => FileEvent::ReadFailed,
        },
    }
}

/// Runs one request to its response.
fn serve(
    registry: &FileRegistry,
    disk: &HashMap<String, Vec<u8>>,
    id: &str,
    range: Option<&str>,
) -> StreamResponse {
    let mut outcome = begin(registry, id, range);
    let mut turns = 0;
    loop {
        let pending = match outcome {
            Outcome::Respond(response) => return response,
            Outcome::Wait(pending) => pending,
        };
        turns += 1;
        assert!(turns <= 3);
        let event = answer(disk, &pending);
        outcome = step(pending, event);
    }
}

/// The bytes that go out with a response.
fn body(disk: &HashMap<String, Vec<u8>>, response: &StreamResponse) -> Vec<u8> {
    match response {
        StreamResponse::Failed(_) => Vec::new(),
        StreamResponse::Full { path, .. } => disk[path].clone(),
        StreamResponse::Partial { body, .. } => body.clone(),
    }
}

fn one_file(path: &str, bytes: Vec<u8>) -> (FileRegistry, HashMap<String, Vec<u8>>, String) {
    let mut registry = FileRegistry::new();
    let id = registry.register(String::from(path));
    let mut disk = HashMap::new();
    disk.insert(String::from(path), bytes);
    (registry, disk, id)
}

#[test]
fn the_whole_file_is_served_without_a_range() {
    let bytes = contents(1000, 3);
    let (registry, disk, id) = one_file("/videos/a.mkv", bytes.clone());
    let response = serve(&registry, &disk, &id, None);
    assert_eq!(
        response,
        StreamResponse::Full {
            path: String::from("/videos/a.mkv"),
            content_type: "video/x-matroska",
            content_length: 1000,
        }
    );
    assert_eq!(body(&disk, &response), bytes);
    assert_eq!(
        response.head(),
        ResponseHead {
            status: 200,
            content_type: Some("video/x-matroska"),
            content_length: Some(1000),
            content_range: None,
            accept_ranges: Some("bytes"),
        }
    );
}

#[test]
fn an_empty_file_is_served_whole() {
    let (registry, disk, id) = one_file("/videos/empty.mp4", Vec::new());
    for range in [None, Some("bytes=0-"), Some("bytes=0-0")] {
        let response = serve(&registry, &disk, &id, range);
        assert_eq!(response.status(), 200);
        assert_eq!(response.head().content_length, Some(0));
        assert_eq!(body(&disk, &response), Vec::<u8>::new());
    }
}

#[test]
fn a_span_is_served_exactly() {
    let bytes = contents(1000, 5);
    let (registry, disk, id) = one_file("/videos/a.webm", bytes.clone());
    let response = serve(&registry, &disk, &id, Some("bytes=200-299"));
    assert_eq!(
        response,
        StreamResponse::Partial {
            content_type: "video/webm",
            start: 200,
            end: 299,
            total: 1000,
            body: bytes[200..300].to_vec(),
        }
    );
    assert_eq!(
        response.head(),
        ResponseHead {
            status: 206,
            content_type: Some("video/webm"),
            content_length: Some(100),
            content_range: Some(String::from("bytes 200-299/1000")),
            accept_ranges: Some("bytes"),
        }
    );
}

#[test]
fn every_span_of_a_small_file_is_served_exactly() {
    let bytes = contents(9, 11);
    let (registry, disk, id) = one_file("/videos/small.mp4", bytes.clone());
    for start in 0..9usize {
        for end in start..9usize {
            let header = format!("bytes={}-{}", start, end);
            let response = serve(&registry, &disk, &id, Some(&header));
            assert_eq!(response.status(), 206);
            assert_eq!(body(&disk, &response), bytes[start..=end].to_vec());
            let head = response.head();
            assert_eq!(head.content_length, Some((end - start + 1) as u64));
            assert_eq!(head.content_range, Some(format!("bytes {}-{}/9", start, end)));
        }
    }
}

#[test]
fn an_open_ended_range_runs_to_the_end_of_the_file() {
    let bytes = contents(1000, 7);
    let (registry, disk, id) = one_file("/videos/a.mp4", bytes.clone());
    let response = serve(&registry, &disk, &id, Some("bytes=100-"));
    assert_eq!(response.status(), 206);
    assert_eq!(body(&disk, &response), bytes[100..1000].to_vec());
    let head = response.head();
    assert_eq!(head.content_length, Some(900));
    assert_eq!(head.content_range, Some(String::from("bytes 100-999/1000")));
    assert_eq!(head.content_type, Some("video/mp4"));
    assert_eq!(head.accept_ranges, Some("bytes"));
}

#[test]
fn a_range_beyond_the_file_falls_back_to_the_whole_file() {
    let bytes = contents(1000, 9);
    let (registry, disk, id) = one_file("/videos/a.mp4", bytes.clone());
    let response = serve(&registry, &disk, &id, Some("bytes=0-99999"));
    assert_eq!(response.status(), 200);
    assert_ne!(response.status(), 416);
    assert_eq!(
        response,
        StreamResponse::Full {
            path: String::from("/videos/a.mp4"),
            content_type: "video/mp4",
            content_length: 1000,
        }
    );
    assert_eq!(body(&disk, &response), bytes);
    assert_eq!(response.head().content_range, None);
}

#[test]
fn a_range_that_cannot_be_read_falls_back_to_the_whole_file() {
    let bytes = contents(1000, 13);
    let (registry, disk, id) = one_file("/videos/a.mp4", bytes.clone());
    for header in ["bytes=-500", "bytes=0-10,20-30", "bytes=500-100", "bytes=1000-", "lines=0-10", ""] {
        let response = serve(&registry, &disk, &id, Some(header));
        assert_eq!(response.status(), 200);
        assert_eq!(response.head().content_length, Some(1000));
        assert_eq!(body(&disk, &response), bytes);
    }
}

#[test]
fn a_request_for_an_unknown_identifier_is_answered_with_404() {
    let empty = FileRegistry::new();
    let no_files = HashMap::new();
    assert_eq!(
        serve(&empty, &no_files, "nonexistent-id", None),
        StreamResponse::Failed(StreamError::NotRegistered)
    );
    let (registry, disk, _) = one_file("/videos/a.mp4", contents(10, 1));
    let response = serve(&registry, &disk, "nonexistent-id", Some("bytes=0-1"));
    assert_eq!(response, StreamResponse::Failed(StreamError::NotRegistered));
    assert_eq!(response.status(), 404);
    assert_eq!(
        response.head(),
        ResponseHead {
            status: 404,
            content_type: None,
            content_length: None,
            content_range: None,
            accept_ranges: None,
        }
    );
}

#[test]
fn a_registered_file_that_is_gone_is_not_found() {
    let mut registry = FileRegistry::new();
    let id = registry.register(String::from("/videos/moved.mp4"));
    let disk = HashMap::new();
    let response = serve(&registry, &disk, &id, None);
    assert_eq!(response, StreamResponse::Failed(StreamError::FileUnavailable));
    assert_eq!(response.status(), 404);
}

#[test]
fn a_failure_to_measure_is_a_server_error() {
    let pending = Pending::Size { path: String::from("/videos/a.mp4"), range: None };
    let outcome = step(pending, FileEvent::SizeFailed);
    assert_eq!(
        outcome,
        Outcome::Respond(StreamResponse::Failed(StreamError::MetadataFailure))
    );
    assert_eq!(StreamError::MetadataFailure.status(), 500);
}

#[test]
fn a_failure_to_read_is_a_server_error() {
    let pending = Pending::Read { path: String::from("/videos/a.mp4"), start: 0, end: 9, size: 100 };
    let outcome = step(pending, FileEvent::ReadFailed);
    assert_eq!(outcome, Outcome::Respond(StreamResponse::Failed(StreamError::ReadFailure)));
    assert_eq!(StreamError::ReadFailure.status(), 500);
}

#[test]
fn a_short_read_is_a_server_error() {
    let pending = Pending::Read { path: String::from("/videos/a.mp4"), start: 0, end: 9, size: 100 };
    let outcome = step(pending.clone(), FileEvent::Bytes(vec![0; 9]));
    assert_eq!(outcome, Outcome::Respond(StreamResponse::Failed(StreamError::ReadFailure)));
    let outcome = step(pending.clone(), FileEvent::Bytes(vec![0; 11]));
    assert_eq!(outcome, Outcome::Respond(StreamResponse::Failed(StreamError::ReadFailure)));
    let outcome = step(pending, FileEvent::Bytes(vec![1; 10]));
    assert_eq!(
        outcome,
        Outcome::Respond(StreamResponse::Partial {
            content_type: "video/mp4",
            start: 0,
            end: 9,
            total: 100,
            body: vec![1; 10],
        })
    );
}

#[test]
fn a_span_outside_its_file_is_never_served() {
    let reversed = Pending::Read { path: String::from("a.mp4"), start: 9, end: 0, size: 100 };
    assert_eq!(
        step(reversed, FileEvent::Bytes(Vec::new())),
        Outcome::Respond(StreamResponse::Failed(StreamError::ReadFailure))
    );
    let beyond = Pending::Read { path: String::from("a.mp4"), start: 0, end: 100, size: 100 };
    assert_eq!(
        step(beyond, FileEvent::Bytes(vec![0; 101])),
        Outcome::Respond(StreamResponse::Failed(StreamError::ReadFailure))
    );
}

#[test]
fn a_pending_read_names_offset_and_length() {
    let reading = Pending::Read { path: String::from("a.mp4"), start: 100, end: 999, size: 1000 };
    assert_eq!(reading.read_span(), Some((100, 900)));
    let one = Pending::Read { path: String::from("a.mp4"), start: 7, end: 7, size: 8 };
    assert_eq!(one.read_span(), Some((7, 1)));
    let all = Pending::Read { path: String::from("a.mp4"), start: 0, end: u64::MAX - 1, size: u64::MAX };
    assert_eq!(all.read_span(), Some((0, u64::MAX)));
    let reversed = Pending::Read { path: String::from("a.mp4"), start: 9, end: 0, size: 100 };
    assert_eq!(reversed.read_span(), None);
    let beyond = Pending::Read { path: String::from("a.mp4"), start: 0, end: 100, size: 100 };
    assert_eq!(beyond.read_span(), None);
    let opening = Pending::Open { path: String::from("a.mp4"), range: None };
    assert_eq!(opening.read_span(), None);
    let measuring = Pending::Size { path: String::from("a.mp4"), range: None };
    assert_eq!(measuring.read_span(), None);
}

#[test]
fn the_statuses_of_the_failures() {
    assert_eq!(StreamError::NotRegistered.status(), 404);
    assert_eq!(StreamError::FileUnavailable.status(), 404);
    assert_eq!(StreamError::MetadataFailure.status(), 500);
    assert_eq!(StreamError::ReadFailure.status(), 500);
}

#[test]
fn the_turns_of_a_range_request() {
    let (registry, _, id) = one_file("/videos/a.mov", Vec::new());
    let opening = begin(&registry, &id, Some("bytes=2-5"));
    assert_eq!(
        opening,
        Outcome::Wait(Pending::Open {
            path: String::from("/videos/a.mov"),
            range: Some(String::from("bytes=2-5")),
        })
    );
    let measuring = step(
        Pending::Open { path: String::from("/videos/a.mov"), range: Some(String::from("bytes=2-5")) },
        FileEvent::Opened,
    );
    assert_eq!(
        measuring,
        Outcome::Wait(Pending::Size {
            path: String::from("/videos/a.mov"),
            range: Some(String::from("bytes=2-5")),
        })
    );
    let reading = step(
        Pending::Size { path: String::from("/videos/a.mov"), range: Some(String::from("bytes=2-5")) },
        FileEvent::Size(10),
    );
    assert_eq!(
        reading,
        Outcome::Wait(Pending::Read { path: String::from("/videos/a.mov"), start: 2, end: 5, size: 10 })
    );
    let done = step(
        Pending::Read { path: String::from("/videos/a.mov"), start: 2, end: 5, size: 10 },
        FileEvent::Bytes(vec![2, 3, 4, 5]),
    );
    assert_eq!(
        done,
        Outcome::Respond(StreamResponse::Partial {
            content_type: "video/quicktime",
            start: 2,
            end: 5,
            total: 10,
            body: vec![2, 3, 4, 5],
        })
    );
}

#[test]
fn an_event_that_does_not_answer_fails_what_was_pending() {
    let opening = Pending::Open { path: String::from("a.mp4"), range: None };
    for event in [FileEvent::OpenFailed, FileEvent::Size(3), FileEvent::SizeFailed, FileEvent::Bytes(vec![1]), FileEvent::ReadFailed] {
        assert_eq!(
            step(opening.clone(), event),
            Outcome::Respond(StreamResponse::Failed(StreamError::FileUnavailable))
        );
    }
    let measuring = Pending::Size { path: String::from("a.mp4"), range: None };
    for event in [FileEvent::Opened, FileEvent::OpenFailed, FileEvent::SizeFailed, FileEvent::Bytes(vec![1]), FileEvent::ReadFailed] {
        assert_eq!(
            step(measuring.clone(), event),
            Outcome::Respond(StreamResponse::Failed(StreamError::MetadataFailure))
        );
    }
    let reading = Pending::Read { path: String::from("a.mp4"), start: 0, end: 0, size: 1 };
    for event in [FileEvent::Opened, FileEvent::OpenFailed, FileEvent::Size(1), FileEvent::SizeFailed, FileEvent::ReadFailed] {
        assert_eq!(
            step(reading.clone(), event),
            Outcome::Respond(StreamResponse::Failed(StreamError::ReadFailure))
        );
    }
}

#[test]
fn two_requests_taken_in_turns_do_not_mix() {
    let first_bytes = contents(300, 21);
    let second_bytes = contents(500, 42);
    let mut registry = FileRegistry::new();
    let first_id = registry.register(String::from("/videos/first.mp4"));
    let second_id = registry.register(String::from("/videos/second.mkv"));
    let mut disk = HashMap::new();
    disk.insert(String::from("/videos/first.mp4"), first_bytes.clone());
    disk.insert(String::from("/videos/second.mkv"), second_bytes.clone());

    let mut first = begin(&registry, &first_id, Some("bytes=10-109"));
    let mut second = begin(&registry, &second_id, Some("bytes=250-499"));
    for _ in 0..3 {
        first = match first {
            Outcome::Wait(pending) => {
                let event = answer(&disk, &pending);
                step(pending, event)
            }
            done => done,
        };
        second = match second {
            Outcome::Wait(pending) => {
                let event = answer(&disk, &pending);
                step(pending, event)
            }
            done => done,
        };
    }
    assert_eq!(
        first,
        Outcome::Respond(StreamResponse::Partial {
            content_type: "video/mp4",
            start: 10,
            end: 109,
            total: 300,
            body: first_bytes[10..110].to_vec(),
        })
    );
    assert_eq!(
        second,
        Outcome::Respond(StreamResponse::Partial {
            content_type: "video/x-matroska",
            start: 250,
            end: 499,
            total: 500,
            body: second_bytes[250..500].to_vec(),
        })
    );
    assert_eq!(first, Outcome::Respond(serve(&registry, &disk, &first_id, Some("bytes=10-109"))));
    assert_eq!(second, Outcome::Respond(serve(&registry, &disk, &second_id, Some("bytes=250-499"))));
}

#[test]
fn a_content_range_names_span_and_length() {
    assert_eq!(content_range(100, 999, 1000), "bytes 100-999/1000");
    assert_eq!(content_range(0, 0, 1), "bytes 0-0/1");
    assert_eq!(
        content_range(0, u64::MAX - 1, u64::MAX),
        "bytes 0-18446744073709551614/18446744073709551615"
    );
}
