//! A compiler front- and middle-end for ASN.1 schema modules.
//!
//! Module source text is parsed into an abstract syntax tree of
//! assignments, the resolution passes make every cross reference, default
//! value and tag concrete, and the generator emits one Rust declaration
//! per assignment, annotated with the codec metadata a paired runtime
//! consumes.  Every stage is deterministic: each executable function is
//! proved equal to a specification-level twin, so compiling the same text
//! twice yields the same output.

use vstd::prelude::*;

pub mod intermediate;
pub mod lexer;
pub mod parser;
pub mod compiler;

pub use crate::compiler::RasnCompiler;
pub mod generator;
pub mod resolver;
pub mod text;

verus! {

/// Decodes a string of hexadecimal digit pairs into the bytes they spell.
///
/// Mirrors `spec_decode_hex`: the call succeeds exactly when every
/// character is a hexadecimal digit, and then returns one byte per pair.
pub fn decode_hex(s: &str) -> (r: Result<Vec<u8>, HexError>)
    requires
        s@.len() % 2 == 0,
    ensures
        match r {
            Ok(bytes) => spec_decode_hex(s@) == Some(bytes@),
            Err(_) => spec_decode_hex(s@) is None,
        },
{
    let chars = crate::text::chars_of(s);
    let mut out: Vec<u8> = Vec::new();
    let mut i: usize = 0;
    proof {
        assert(s@.skip(0) =~= s@);
    }
    while i + 1 < chars.len()
        invariant
            i % 2 == 0,
            i <= chars@.len(),
            chars@.len() % 2 == 0,
            chars@ == s@,
            spec_decode_hex(s@) is Some <==> spec_decode_hex(s@.skip(i as int)) is Some,
            spec_decode_hex(s@) is Some ==> spec_decode_hex(s@)->Some_0 == out@
                + spec_decode_hex(s@.skip(i as int))->Some_0,
        decreases chars@.len() - i,
    {
        let hi = hex_digit_value(chars[i]);
        let lo = hex_digit_value(chars[i + 1]);
        proof {
            assert(s@.skip(i as int)[0] == s@[i as int]);
            assert(s@.skip(i as int)[1] == s@[i + 1]);
            assert(s@.skip(i as int).skip(2) =~= s@.skip(i + 2));
        }
        match (hi, lo) {
            (Some(h), Some(l)) => {
                out.push(h * 16 + l);
            },
            _ => {
                return Err(HexError { position: i });
            },
        }
        i = i + 2;
    }
    proof {
        assert(i == chars@.len());
        assert(s@.skip(i as int) =~= Seq::<char>::empty());
        assert(spec_decode_hex(s@)->Some_0 =~= out@);
    }
    Ok(out)
}

/// Error for `decode_hex`: the index of the first pair that is not made
/// of hexadecimal digits.
#[derive(Debug, PartialEq, Eq)]
pub struct HexError {
    pub position: usize,
}

/// The mathematical meaning of `decode_hex`: `None` when some character
/// is not a hexadecimal digit, otherwise one byte per digit pair.
pub open spec fn spec_decode_hex(s: Seq<char>) -> Option<Seq<u8>>
    decreases s.len(),
{
    if s.len() < 2 {
        Some(Seq::empty())
    } else if spec_is_hex_digit(s[0]) && spec_is_hex_digit(s[1]) {
        match spec_decode_hex(s.skip(2)) {
            Some(rest) => Some(
                seq![(spec_hex_value(s[0]) * 16 + spec_hex_value(s[1])) as u8] + rest,
            ),
            None => None,
        }
    } else {
        None
    }
}

pub open spec fn spec_is_hex_digit(c: char) -> bool {
    ('0' <= c && c <= '9') || ('a' <= c && c <= 'f') || ('A' <= c && c <= 'F')
}

pub open spec fn spec_hex_value(c: char) -> int {
    if '0' <= c && c <= '9' {
        c as int - '0' as int
    } else if 'a' <= c && c <= 'f' {
        10 + c as int - 'a' as int
    } else {
        10 + c as int - 'A' as int
    }
}

/// Value of one hexadecimal digit, or `None` for any other character.
fn hex_digit_value(c: char) -> (r: Option<u8>)
    ensures
        match r {
            Some(v) => spec_is_hex_digit(c) && v == spec_hex_value(c) && v < 16,
            None => !spec_is_hex_digit(c),
        },
{
    if '0' <= c && c <= '9' {
        Some((c as u8) - ('0' as u8))
    } else if 'a' <= c && c <= 'f' {
        Some(10 + (c as u8) - ('a' as u8))
    } else if 'A' <= c && c <= 'F' {
        Some(10 + (c as u8) - ('A' as u8))
    } else {
        None
    }
}

} // verus!
