use insh::ansi_escaped_text::{parser, ANSIEscapeCode, ANSIEscapedText, ParseError};

#[test]
fn the_alternative_screen_codes_are_read() {
    assert_eq!(
        parser(b"\x1b[?1049hrest"),
        Ok((8, ANSIEscapedText::ANSIEscapeCode(ANSIEscapeCode::EnableAlternativeScreen)))
    );
    assert_eq!(
        parser(b"\x1b[?1049l"),
        Ok((8, ANSIEscapedText::ANSIEscapeCode(ANSIEscapeCode::DisableAlternativeScreen)))
    );
}

#[test]
fn any_other_byte_is_read_as_it_is() {
    assert_eq!(parser(b"abc"), Ok((1, ANSIEscapedText::Character(b'a'))));
    assert_eq!(parser(b"\x1b[2J"), Ok((1, ANSIEscapedText::Character(0x1b))));
}

#[test]
fn the_start_of_a_code_needs_more_bytes() {
    assert_eq!(parser(b"\x1b[?10"), Err(ParseError::Incomplete));
    assert_eq!(parser(b""), Err(ParseError::Incomplete));
}
