//! A small, verified model of SDL's pixel machinery: the closed catalog of
//! pixel encodings with exact byte-size arithmetic, a tagged color value that
//! converts to and from a packed integer through the native packing
//! primitives, and the text validation required by the native string
//! convention for the message-box boundary.

pub mod error;
pub mod messagebox;
pub mod pixels;
