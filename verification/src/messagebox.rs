use vstd::prelude::*;
use vstd::string::StrSliceExecFns;

use crate::error::{SdlError, SdlResult};

verus! {

/// Native flag bit for an error dialog.
pub const MESSAGEBOX_ERROR: u32 = 0x10;

/// Native flag bit for a warning dialog.
pub const MESSAGEBOX_WARNING: u32 = 0x20;

/// Native flag bit for an informational dialog.
pub const MESSAGEBOX_INFORMATION: u32 = 0x40;

/// The severity of a notification dialog: any combination of the three named
/// flags. Pure data; `bits` renders it as the native library's flag mask.
#[derive(Clone, Copy, PartialEq, Eq, Structural, Debug)]
pub struct MessageBoxFlag {
    pub error: bool,
    pub warning: bool,
    pub information: bool,
}

impl MessageBoxFlag {
    /// The native flag mask this severity renders to.
    pub open spec fn bits_spec(self) -> u32 {
        (if self.error {
            MESSAGEBOX_ERROR
        } else {
            0u32
        }) | (if self.warning {
            MESSAGEBOX_WARNING
        } else {
            0u32
        }) | (if self.information {
            MESSAGEBOX_INFORMATION
        } else {
            0u32
        })
    }

    /// Renders the severity as the native library's flag mask.
    pub fn bits(&self) -> (r: u32)
        ensures
            r == self.bits_spec(),
    {
        (if self.error {
            MESSAGEBOX_ERROR
        } else {
            0u32
        }) | (if self.warning {
            MESSAGEBOX_WARNING
        } else {
            0u32
        }) | (if self.information {
            MESSAGEBOX_INFORMATION
        } else {
            0u32
        })
    }
}

/// Whether the text holds an embedded terminator, which the native
/// null-terminated string convention cannot carry.
pub open spec fn has_terminator(s: Seq<char>) -> bool {
    exists|i: int| 0 <= i < s.len() && s[i] == '\0'
}

/// Scans the text for an embedded terminator byte.
fn contains_terminator(s: &str) -> (r: bool)
    ensures
        r == has_terminator(s@),
{
    let len = s.unicode_len();
    let mut i: usize = 0;
    while i < len
        invariant
            i <= len,
            len == s@.len(),
            forall|j: int| 0 <= j < i ==> s@[j] != '\0',
        decreases len - i,
    {
        if s.get_char(i) == '\0' {
            return true;
        }
        i = i + 1;
    }
    false
}

/// Checks a title and a message destined for a notification dialog against
/// the native string convention: text with an embedded terminator is rejected
/// with `InvalidText`, before any native call can be made with it. Any other
/// text is accepted.
pub fn validate_simple_message_box(title: &str, message: &str) -> (r: SdlResult<()>)
    ensures
        r is Ok <==> !has_terminator(title@) && !has_terminator(message@),
        r is Err ==> r == Err::<(), SdlError>(SdlError::InvalidText),
{
    if contains_terminator(title) || contains_terminator(message) {
        Err(SdlError::InvalidText)
    } else {
        Ok(())
    }
}

} // verus!
