//! The error that the native layer reports.
use crate::text::{string_from_utf16_lossy, utf16_lossy};
use vstd::prelude::*;

verus! {

/// The text of a message that the native layer wrote for an error code:
/// the first `len` code units of the buffer, decoded. There is none where the
/// native layer wrote nothing.
pub open spec fn message_text(len: u32, buffer: Seq<u16>) -> Option<Seq<char>> {
    if len == 0 {
        None
    } else if len <= buffer.len() {
        Some(utf16_lossy(buffer.subrange(0, len as int)))
    } else {
        Some(utf16_lossy(buffer))
    }
}

/// Decodes the message that the native layer wrote for an error code. `len`
/// is the number of code units that it says it wrote, `buffer` what it wrote.
pub fn format_message(len: u32, buffer: &[u16]) -> (r: Option<String>)
    ensures
        match message_text(len, buffer@) {
            Some(text) => r matches Some(s) && s@ == text,
            None => r is None,
        },
{
    if len == 0 {
        return None;
    }
    let units: &[u16] = if (len as usize) <= buffer.len() {
        vstd::slice::slice_subrange(buffer, 0, len as usize)
    } else {
        buffer
    };
    Some(string_from_utf16_lossy(units))
}

/// Represents an Win32 API error.
#[derive(Clone, Copy, PartialEq, Eq, Structural, Debug)]
pub struct ApiError(pub u32);

impl ApiError {
    /// The error with the code that the native layer reported last.
    pub fn new(code: u32) -> (r: Self)
        ensures
            r.0 == code,
    {
        Self(code)
    }

    pub fn code(&self) -> (r: u32)
        ensures
            r == self.0,
    {
        self.0
    }

    /// The text of the error: the message that the native layer wrote for
    /// its code, or the empty string where it wrote none.
    pub fn to_string(&self, len: u32, buffer: &[u16]) -> (s: String)
        ensures
            s@ == match message_text(len, buffer@) {
                Some(text) => text,
                None => Seq::<char>::empty(),
            },
    {
        match format_message(len, buffer) {
            Some(s) => s,
            None => String::new(),
        }
    }
}

impl Default for ApiError {
    fn default() -> (r: Self)
        ensures
            r.0 == 0,
    {
        Self(0)
    }
}

} // verus!
