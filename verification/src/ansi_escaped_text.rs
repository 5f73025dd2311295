//! A reader of text with ANSI escape codes in it, which reads one character or escape code at a
//! time from the front of some bytes.

use vstd::prelude::*;

verus! {

/// A piece of text with ANSI escape codes in it.
#[derive(Debug, Clone, Copy, PartialEq, Eq, Structural)]
pub enum ANSIEscapedText {
    /// An escape code.
    ANSIEscapeCode(ANSIEscapeCode),
    /// Any other byte.
    Character(u8),
}

/// The escape codes which are read.
#[derive(Debug, Clone, Copy, PartialEq, Eq, Structural)]
pub enum ANSIEscapeCode {
    /// Switch to the alternative screen: `<Esc>[?1049h`.
    EnableAlternativeScreen,
    /// Switch back from the alternative screen: `<Esc>[?1049l`.
    DisableAlternativeScreen,
}

/// Why nothing could be read.
#[derive(Debug, Clone, Copy, PartialEq, Eq, Structural)]
pub enum ParseError {
    /// The bytes could be the start of an escape code, so more of them are needed to tell.
    Incomplete,
}

/// The control sequence introducer, `<Esc>[`.
pub open spec fn csi() -> Seq<u8> {
    seq![0x1Bu8, 0x5Bu8]
}

/// What starts the escape codes for the alternative screen, after the control sequence
/// introducer: `?1049`.
pub open spec fn alternative_screen_prefix() -> Seq<u8> {
    seq![0x3Fu8, 0x31u8, 0x30u8, 0x34u8, 0x39u8]
}

/// The bytes of an escape code.
pub open spec fn escape_bytes(code: ANSIEscapeCode) -> Seq<u8> {
    csi() + alternative_screen_prefix() + match code {
        ANSIEscapeCode::EnableAlternativeScreen => seq![0x68u8],
        ANSIEscapeCode::DisableAlternativeScreen => seq![0x6Cu8],
    }
}

/// What is read from the front of some bytes: how many bytes it takes and what they are, or
/// nothing when the bytes could still be the start of an escape code.
///
/// An escape code is read as one piece; anything else is read a byte at a time. Reading is
/// streaming: bytes which are the start of an escape code but stop before its end need more
/// bytes, rather than being taken as characters.
pub open spec fn spec_parse(input: Seq<u8>) -> Result<(nat, ANSIEscapedText), ParseError> {
    let start = csi() + alternative_screen_prefix();
    if input.len() == 0 {
        Err(ParseError::Incomplete)
    } else if input.len() >= 8 && input.take(8) == escape_bytes(ANSIEscapeCode::EnableAlternativeScreen) {
        Ok((8, ANSIEscapedText::ANSIEscapeCode(ANSIEscapeCode::EnableAlternativeScreen)))
    } else if input.len() >= 8 && input.take(8) == escape_bytes(ANSIEscapeCode::DisableAlternativeScreen) {
        Ok((8, ANSIEscapedText::ANSIEscapeCode(ANSIEscapeCode::DisableAlternativeScreen)))
    } else if input.len() <= 7 && input == start.take(input.len() as int) {
        Err(ParseError::Incomplete)
    } else {
        Ok((1, ANSIEscapedText::Character(input[0])))
    }
}

/// Return how many of the bytes are the start of `<Esc>[?1049`, up to where they stop matching.
fn matched_prefix(input: &[u8]) -> (n: usize)
    ensures
        n <= 7,
        n <= input@.len(),
        input@.take(n as int) == (csi() + alternative_screen_prefix()).take(n as int),
        n < 7 && n < input@.len() ==> input@[n as int] != (csi() + alternative_screen_prefix())[n as int],
{
    let start: [u8; 7] = [0x1B, 0x5B, 0x3F, 0x31, 0x30, 0x34, 0x39];
    assert(start@ =~= csi() + alternative_screen_prefix());
    let mut n: usize = 0;
    while n < 7 && n < input.len()
        invariant
            n <= 7,
            n <= input@.len(),
            start@ == csi() + alternative_screen_prefix(),
            input@.take(n as int) == start@.take(n as int),
        decreases 7 - n,
    {
        if input[n] != start[n] {
            return n;
        }
        assert(input@.take(n + 1) =~= input@.take(n as int).push(input@[n as int]));
        assert(start@.take(n + 1) =~= start@.take(n as int).push(start@[n as int]));
        n = n + 1;
    }
    n
}

/// Read a character or an escape code from the front of some bytes, and return how many bytes
/// it took along with what was read.
pub fn parser(input: &[u8]) -> (r: Result<(usize, ANSIEscapedText), ParseError>)
    ensures
        match r {
            Ok((n, text)) => spec_parse(input@) == Ok::<(nat, ANSIEscapedText), ParseError>((n as nat, text)),
            Err(e) => spec_parse(input@) == Err::<(nat, ANSIEscapedText), ParseError>(e),
        },
{
    if input.len() == 0 {
        return Err(ParseError::Incomplete);
    }
    let n = matched_prefix(input);
    let ghost start = csi() + alternative_screen_prefix();
    if n == 7 && input.len() >= 8 {
        assert(input@.take(8) =~= input@.take(7).push(input@[7]));
        if input[7] == 0x68 {
            assert(input@.take(8) =~= escape_bytes(ANSIEscapeCode::EnableAlternativeScreen));
            return Ok((8, ANSIEscapedText::ANSIEscapeCode(ANSIEscapeCode::EnableAlternativeScreen)));
        }
        if input[7] == 0x6C {
            assert(input@.take(8) =~= escape_bytes(ANSIEscapeCode::DisableAlternativeScreen));
            assert(input@.take(8)[7] != escape_bytes(ANSIEscapeCode::EnableAlternativeScreen)[7]);
            return Ok((8, ANSIEscapedText::ANSIEscapeCode(ANSIEscapeCode::DisableAlternativeScreen)));
        }
        assert(input@.take(8)[7] != escape_bytes(ANSIEscapeCode::EnableAlternativeScreen)[7]);
        assert(input@.take(8)[7] != escape_bytes(ANSIEscapeCode::DisableAlternativeScreen)[7]);
        return Ok((1, ANSIEscapedText::Character(input[0])));
    }
    if n == input.len() {
        assert(input@ =~= input@.take(n as int));
        return Err(ParseError::Incomplete);
    }
    // The bytes stop matching before the end of the escape code.
    assert(n < 7);
    assert(input@[n as int] != start[n as int]);
    assert(escape_bytes(ANSIEscapeCode::EnableAlternativeScreen)[n as int] == start[n as int]);
    assert(escape_bytes(ANSIEscapeCode::DisableAlternativeScreen)[n as int] == start[n as int]);
    if input.len() >= 8 {
        assert(input@.take(8)[n as int] != escape_bytes(ANSIEscapeCode::EnableAlternativeScreen)[n as int]);
        assert(input@.take(8)[n as int] != escape_bytes(ANSIEscapeCode::DisableAlternativeScreen)[n as int]);
    }
    if input.len() <= 7 {
        assert(input@[n as int] != start.take(input@.len() as int)[n as int]);
    }
    Ok((1, ANSIEscapedText::Character(input[0])))
}


/// The bytes a program writes to switch to the alternative screen, `<Esc>[?1049h`.
pub open spec fn enable_bytes() -> Seq<u8> {
    seq![0x1Bu8, 0x5Bu8, 0x3Fu8, 0x31u8, 0x30u8, 0x34u8, 0x39u8, 0x68u8]
}

/// The bytes a program writes to switch back from the alternative screen, `<Esc>[?1049l`.
pub open spec fn disable_bytes() -> Seq<u8> {
    seq![0x1Bu8, 0x5Bu8, 0x3Fu8, 0x31u8, 0x30u8, 0x34u8, 0x39u8, 0x6Cu8]
}

/// The bytes of an escape code are read as that code, all eight of them, whatever comes after
/// them, nothing included.
pub proof fn law_an_escape_code_is_read_whatever_follows(rest: Seq<u8>)
    ensures
        spec_parse(enable_bytes() + rest) == Ok::<(nat, ANSIEscapedText), ParseError>(
            (8, ANSIEscapedText::ANSIEscapeCode(ANSIEscapeCode::EnableAlternativeScreen)),
        ),
        spec_parse(disable_bytes() + rest) == Ok::<(nat, ANSIEscapedText), ParseError>(
            (8, ANSIEscapedText::ANSIEscapeCode(ANSIEscapeCode::DisableAlternativeScreen)),
        ),
{
    assert((enable_bytes() + rest).take(8) =~= enable_bytes());
    assert((disable_bytes() + rest).take(8) =~= disable_bytes());
    assert(enable_bytes() =~= escape_bytes(ANSIEscapeCode::EnableAlternativeScreen));
    assert(disable_bytes() =~= escape_bytes(ANSIEscapeCode::DisableAlternativeScreen));
}

/// A byte which cannot start an escape code is read as itself, one byte at a time, whatever
/// comes after it.
pub proof fn law_other_bytes_are_read_as_themselves(input: Seq<u8>)
    requires
        input.len() > 0,
        input[0] != 0x1Bu8,
    ensures
        spec_parse(input) == Ok::<(nat, ANSIEscapedText), ParseError>((1, ANSIEscapedText::Character(input[0]))),
{
    if input.len() >= 8 {
        assert(input.take(8)[0] == input[0]);
    }
    assert(escape_bytes(ANSIEscapeCode::EnableAlternativeScreen)[0] == 0x1Bu8);
    assert(escape_bytes(ANSIEscapeCode::DisableAlternativeScreen)[0] == 0x1Bu8);
    assert((csi() + alternative_screen_prefix())[0] == 0x1Bu8);
    if input.len() <= 7 {
        assert((csi() + alternative_screen_prefix()).take(input.len() as int)[0] == 0x1Bu8);
    }
}

/// What stops before the end of an escape code asks for more bytes rather than being read: each
/// of the first seven bytes an escape code starts with, on their own, are not yet anything.
pub proof fn law_part_of_an_escape_code_waits_for_the_rest(n: int)
    requires
        0 < n < 8,
    ensures
        spec_parse(enable_bytes().take(n)) == Err::<(nat, ANSIEscapedText), ParseError>(ParseError::Incomplete),
{
    let start = csi() + alternative_screen_prefix();
    assert(enable_bytes().take(n) =~= start.take(n));
}

} // verus!
