use sdl2::error::SdlError;
use sdl2::messagebox::{
    validate_simple_message_box, MessageBoxFlag, MESSAGEBOX_ERROR, MESSAGEBOX_INFORMATION,
    MESSAGEBOX_WARNING,
};

#[test]
fn embedded_terminator_in_title_is_invalid_text() {
    let r = validate_simple_message_box("bad\0title", "fine message");
    assert_eq!(r, Err(SdlError::InvalidText));
}

#[test]
fn embedded_terminator_in_message_is_invalid_text() {
    let r = validate_simple_message_box("fine title", "bad\0message");
    assert_eq!(r, Err(SdlError::InvalidText));
}

#[test]
fn clean_text_is_accepted() {
    assert_eq!(validate_simple_message_box("title", "message"), Ok(()));
    assert_eq!(validate_simple_message_box("", ""), Ok(()));
}

#[test]
fn flag_bits_match_the_native_mask() {
    let none = MessageBoxFlag { error: false, warning: false, information: false };
    assert_eq!(none.bits(), 0);
    let error = MessageBoxFlag { error: true, ..none };
    assert_eq!(error.bits(), MESSAGEBOX_ERROR);
    let warning = MessageBoxFlag { warning: true, ..none };
    assert_eq!(warning.bits(), MESSAGEBOX_WARNING);
    let information = MessageBoxFlag { information: true, ..none };
    assert_eq!(information.bits(), MESSAGEBOX_INFORMATION);
    let all = MessageBoxFlag { error: true, warning: true, information: true };
    assert_eq!(all.bits(), 0x70);
}

#[test]
fn native_failure_carries_its_message() {
    let e = SdlError::NativeFailure(String::from("out of memory"));
    assert!(matches!(e, SdlError::NativeFailure(ref m) if m == "out of memory"));
    assert_ne!(e, SdlError::InvalidText);
}
