//! Interpretation of clipboard reads and of commands from the local bridge.
use vstd::prelude::*;

use crate::text::{has_substring, str_contains};

verus! {

/// Error texts of the mobile clipboard plugin that mean "nothing to read".
pub open spec fn means_empty_clipboard(err: Seq<char>) -> bool {
    has_substring(err, "empty"@) || has_substring(err, "no text"@) || has_substring(err, "not available"@)
        || has_substring(err, "Null"@) || has_substring(err, "null"@)
}

/// Whether a clipboard read error only says that the clipboard holds no text.
pub fn clipboard_error_means_empty(err: &str) -> (r: bool)
    ensures
        r == means_empty_clipboard(err@),
{
    str_contains(err, "empty") || str_contains(err, "no text") || str_contains(err, "not available")
        || str_contains(err, "Null") || str_contains(err, "null")
}

/// The answer to a clipboard read from the mobile clipboard plugin: empty text
/// and "nothing to read" errors become `None`; other errors are passed on.
pub fn clipboard_read_result(read: Result<String, String>) -> (r: Result<Option<String>, String>)
    ensures
        match read {
            Ok(text) => if text@.len() == 0 {
                r == Ok::<Option<String>, String>(None)
            } else {
                r == Ok::<Option<String>, String>(Some(text))
            },
            Err(e) => if means_empty_clipboard(e@) {
                r == Ok::<Option<String>, String>(None)
            } else {
                r == Err::<Option<String>, String>(e)
            },
        },
{
    match read {
        Ok(text) => {
            if text.as_str().is_empty() {
                Ok(None)
            } else {
                Ok(Some(text))
            }
        },
        Err(e) => {
            if clipboard_error_means_empty(e.as_str()) {
                Ok(None)
            } else {
                Err(e)
            }
        },
    }
}

/// A command received from the native clipboard bridge.
#[derive(Clone, Debug, PartialEq, Eq)]
pub enum LocalCommand {
    /// Send this clipboard text.
    Text(String),
    /// Send this clipboard image: MIME type and base64 data.
    Image(String, String),
    /// Nothing to do.
    Ignore,
}

/// Interprets a bridge message of type `msg_type` with its optional fields.
pub fn classify_local_command(
    msg_type: &str,
    text: Option<String>,
    mime_type: Option<String>,
    image_base64: Option<String>,
) -> (r: LocalCommand)
    ensures
        r == (if msg_type@ == "text"@ && text is Some {
            LocalCommand::Text(text->0)
        } else if msg_type@ == "image"@ && mime_type is Some && image_base64 is Some {
            LocalCommand::Image(mime_type->0, image_base64->0)
        } else {
            LocalCommand::Ignore
        }),
{
    let kind = msg_type.to_owned();
    proof {
        reveal_strlit("text");
        reveal_strlit("image");
        assert("text"@ != "image"@) by {
            assert("text"@.len() != "image"@.len());
        }
    }
    if kind == "text".to_owned() {
        match text {
            Some(t) => LocalCommand::Text(t),
            None => LocalCommand::Ignore,
        }
    } else if kind == "image".to_owned() {
        match (mime_type, image_base64) {
            (Some(m), Some(b)) => LocalCommand::Image(m, b),
            _ => LocalCommand::Ignore,
        }
    } else {
        LocalCommand::Ignore
    }
}

} // verus!
