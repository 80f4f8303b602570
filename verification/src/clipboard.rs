use vstd::prelude::*;

verus! {

pub const INVALID_CLIPBOARD_MESSAGE: &'static str = "Invalid data in clipboard";

/// What the clipboard holds, as far as the tool cares.
pub enum ClipboardData {
    /// UTF-8 text.
    Text(String),
    /// Anything else (an image, for instance).
    Other,
}

/// The text to type from what was read off the clipboard: the text itself,
/// or an error if the clipboard was empty or held something else.
pub fn clipboard_text(data: Option<ClipboardData>) -> (r: Result<String, String>)
    ensures
        match data {
            Some(ClipboardData::Text(t)) => r matches Ok(s) && s@ == t@,
            _ => r matches Err(e) && e@ == INVALID_CLIPBOARD_MESSAGE@,
        },
{
    match data {
        Some(ClipboardData::Text(text)) => Ok(text),
        _ => Err(INVALID_CLIPBOARD_MESSAGE.to_owned()),
    }
}

} // verus!
