//! The mathematical model of the emitted JSON text.
//!
//! Every contract in the crate states what a call appends to the output
//! buffer as a sequence of characters built by the functions of this module.

use vstd::prelude::*;

verus! {

/// The `null` token.
pub open spec fn lit_null() -> Seq<char> {
    seq!['n', 'u', 'l', 'l']
}

/// The `true` token.
pub open spec fn lit_true() -> Seq<char> {
    seq!['t', 'r', 'u', 'e']
}

/// The `false` token.
pub open spec fn lit_false() -> Seq<char> {
    seq!['f', 'a', 'l', 's', 'e']
}

/// The uppercase hexadecimal digit for a value below sixteen.
pub open spec fn hex_digit(n: nat) -> char {
    if n == 0 { '0' } else if n == 1 { '1' } else if n == 2 { '2' } else if n == 3 { '3' }
    else if n == 4 { '4' } else if n == 5 { '5' } else if n == 6 { '6' } else if n == 7 { '7' }
    else if n == 8 { '8' } else if n == 9 { '9' } else if n == 10 { 'A' } else if n == 11 { 'B' }
    else if n == 12 { 'C' } else if n == 13 { 'D' } else if n == 14 { 'E' } else { 'F' }
}

/// Whether a character is replaced by an escape in JSON string contents:
/// the ASCII control characters, the quote, the backslash and the solidus.
/// Every other character, multi-byte ones included, passes through unchanged.
pub open spec fn needs_escape(c: char) -> bool {
    (c as u32) < 0x20 || c == '"' || c == '\\' || c == '/'
}

/// The escape of one character: itself when no escape is needed, the
/// two-character short form where one exists, and `\u00XX` with uppercase
/// hex digits for the remaining control characters.
pub open spec fn escape_char(c: char) -> Seq<char> {
    if c == '"' {
        seq!['\\', '"']
    } else if c == '\\' {
        seq!['\\', '\\']
    } else if c == '/' {
        seq!['\\', '/']
    } else if c == '\u{8}' {
        seq!['\\', 'b']
    } else if c == '\u{c}' {
        seq!['\\', 'f']
    } else if c == '\n' {
        seq!['\\', 'n']
    } else if c == '\r' {
        seq!['\\', 'r']
    } else if c == '\t' {
        seq!['\\', 't']
    } else if (c as u32) < 0x20 {
        seq!['\\', 'u', '0', '0', hex_digit((c as u32) as nat / 16), hex_digit((c as u32) as nat % 16)]
    } else {
        seq![c]
    }
}

/// The escaped form of a whole string: each character replaced by its escape.
pub open spec fn escaped(s: Seq<char>) -> Seq<char>
    decreases s.len(),
{
    if s.len() == 0 {
        Seq::empty()
    } else {
        escape_char(s[0]) + escaped(s.drop_first())
    }
}

/// The escaped form of a string wrapped in a leading and a trailing quote.
pub open spec fn quoted(s: Seq<char>) -> Seq<char> {
    seq!['"'] + escaped(s) + seq!['"']
}

/// The decimal digit for a value below ten.
pub open spec fn dec_digit(n: nat) -> char {
    hex_digit(n % 10)
}

/// The decimal digits of a natural number, most significant first,
/// with no leading zeros.
pub open spec fn dec_text(n: nat) -> Seq<char>
    decreases n,
{
    if n < 10 {
        seq![dec_digit(n)]
    } else {
        dec_text(n / 10) + seq![dec_digit(n % 10)]
    }
}

/// The decimal text of an integer: a leading `-` for negative values.
pub open spec fn int_text(i: int) -> Seq<char> {
    if i < 0 {
        seq!['-'] + dec_text((-i) as nat)
    } else {
        dec_text(i as nat)
    }
}

/// A sequence repeated a number of times.
pub open spec fn repeated(unit: Seq<char>, n: nat) -> Seq<char>
    decreases n,
{
    if n == 0 {
        Seq::empty()
    } else {
        repeated(unit, (n - 1) as nat) + unit
    }
}

/// A newline followed by the indentation of the given depth.
pub open spec fn nl_indent(unit: Seq<char>, depth: nat) -> Seq<char> {
    seq!['\n'] + repeated(unit, depth)
}

/// The text placed before a member of an object or an array: nothing before
/// the first member and a comma before every later one in compact output;
/// the same separator followed by a newline and the indentation in pretty
/// output.
pub open spec fn sep_text(pretty: bool, unit: Seq<char>, depth: nat, first: bool) -> Seq<char> {
    let comma: Seq<char> = if first { Seq::empty() } else { seq![','] };
    if pretty {
        comma + nl_indent(unit, depth)
    } else {
        comma
    }
}

/// The delimiter between a key and its value.
pub open spec fn colon_text(pretty: bool) -> Seq<char> {
    if pretty {
        seq![':', ' ']
    } else {
        seq![':']
    }
}

/// The text of an object key: the member separator, the quoted and escaped
/// key, and the key/value delimiter.
pub open spec fn key_text(
    pretty: bool,
    unit: Seq<char>,
    depth: nat,
    first: bool,
    key: Seq<char>,
) -> Seq<char> {
    sep_text(pretty, unit, depth, first) + quoted(key) + colon_text(pretty)
}

/// The text placed before a closing bracket or brace: empty containers close
/// at once in either mode, and a non-empty one in pretty output first returns
/// to the line and the indentation of the enclosing depth.
pub open spec fn close_text(pretty: bool, unit: Seq<char>, depth: nat, empty: bool) -> Seq<char> {
    if pretty && !empty {
        nl_indent(unit, depth)
    } else {
        Seq::empty()
    }
}

/// Whether a double with this bit pattern is finite: the biased exponent
/// field of an IEEE 754 double is not all ones.
pub open spec fn is_finite_bits(bits: u64) -> bool {
    (bits >> 52) & 0x7ff != 0x7ff
}

/// A rendered numeral with a trailing `.0` removed, so that whole-valued
/// doubles read like integers; any other text is kept as it is.
pub open spec fn strip_dot_zero(s: Seq<char>) -> Seq<char> {
    if s.len() >= 2 && s[s.len() - 2] == '.' && s[s.len() - 1] == '0' {
        s.take(s.len() - 2)
    } else {
        s
    }
}

/// The token emitted for a double: the rendered numeral, stripped of a
/// trailing `.0`, when the bit pattern is finite, and the `null` token
/// otherwise.
pub open spec fn double_text(bits: u64, rendered: Seq<char>) -> Seq<char> {
    if is_finite_bits(bits) {
        strip_dot_zero(rendered)
    } else {
        lit_null()
    }
}

} // verus!
