use vstd::prelude::*;

verus! {

/// Every failure this library reports.
///
/// The size queries signal an encoding without a fixed byte size with
/// `UnsupportedEncoding` instead of aborting or returning a plausible-looking
/// wrong number; `InvalidText` rejects text that the native string convention
/// cannot carry, before any native call is made; `NativeFailure` carries the
/// native library's last-recorded error message verbatim.
#[derive(Clone, PartialEq, Eq, Debug)]
pub enum SdlError {
    /// The encoding has no fixed per-pixel byte size: the unknown member or a
    /// sub-byte indexed member.
    UnsupportedEncoding,
    /// A string destined for the native library contains an embedded
    /// terminator byte.
    InvalidText,
    /// A delegated native call failed; the message is the native library's
    /// last-recorded error at the point of failure.
    NativeFailure(String),
}

pub type SdlResult<T> = Result<T, SdlError>;

} // verus!
