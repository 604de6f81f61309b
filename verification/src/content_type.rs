//! Content types: the media type that a file is served with, found from the
//! extension of its name.

use crate::text::{ascii_lowercase, lower_chars_of, spells, text_of};
use vstd::prelude::*;

verus! {

/// The extension of the file name at the end of `path`, without its dot, as
/// the standard library's path type finds it; `None` where the name has none.
pub uninterp spec fn path_extension(path: Seq<char>) -> Option<Seq<char>>;

/// The media type for a file extension.
///
/// The table is keyed by the extension in lower case, so `MKV` and `mkv` are
/// one key. An extension that the table does not hold, and a missing one, give
/// the default, `video/mp4`.
pub open spec fn media_type(extension: Option<Seq<char>>) -> Seq<char> {
    match extension {
        Some(extension) => {
            let key = ascii_lowercase(extension);
            if key == "mp4"@ {
                "video/mp4"@
            } else if key == "webm"@ {
                "video/webm"@
            } else if key == "mkv"@ {
                "video/x-matroska"@
            } else if key == "mov"@ {
                "video/quicktime"@
            } else if key == "avi"@ {
                "video/x-msvideo"@
            } else if key == "wmv"@ {
                "video/x-ms-wmv"@
            } else if key == "flv"@ {
                "video/x-flv"@
            } else if key == "m4v"@ {
                "video/x-m4v"@
            } else if key == "mpg"@ || key == "mpeg"@ {
                "video/mpeg"@
            } else {
                "video/mp4"@
            }
        },
        None => "video/mp4"@,
    }
}

/// The media type that the file at `path` is served with.
pub open spec fn content_type_of(path: Seq<char>) -> Seq<char> {
    media_type(path_extension(path))
}

/// Calls `std::path::Path::extension` on the path that `path` spells and
/// hands the extension back as text.
///
/// Nothing is proved of it. The contract gives the result its name,
/// `path_extension`, and claims no more than that the extension is found from
/// the characters of the path alone.
#[verifier::external_body]
fn extension_of<'a>(path: &'a str) -> (extension: Option<&'a str>)
    ensures
        text_of(extension) == path_extension(path@),
{
    match std::path::Path::new(path).extension() {
        Some(extension) => extension.to_str(),
        None => None,
    }
}

/// The media type for a file extension, given without its dot.
pub fn content_type_for_extension(extension: Option<&str>) -> (content_type: &'static str)
    ensures
        content_type@ == media_type(text_of(extension)),
{
    let key = match extension {
        Some(extension) => lower_chars_of(extension),
        None => {
            return "video/mp4";
        },
    };
    if spells(&key, "mp4") {
        "video/mp4"
    } else if spells(&key, "webm") {
        "video/webm"
    } else if spells(&key, "mkv") {
        "video/x-matroska"
    } else if spells(&key, "mov") {
        "video/quicktime"
    } else if spells(&key, "avi") {
        "video/x-msvideo"
    } else if spells(&key, "wmv") {
        "video/x-ms-wmv"
    } else if spells(&key, "flv") {
        "video/x-flv"
    } else if spells(&key, "m4v") {
        "video/x-m4v"
    } else if spells(&key, "mpg") || spells(&key, "mpeg") {
        "video/mpeg"
    } else {
        "video/mp4"
    }
}

/// The media type that the file at `path` is served with: that of the
/// extension of its name.
pub fn get_content_type(path: &str) -> (content_type: &'static str)
    ensures
        content_type@ == content_type_of(path@),
{
    content_type_for_extension(extension_of(path))
}

} // verus!
