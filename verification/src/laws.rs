//! Statements the library stands behind, proved once and for all: the
//! escaper inverts under a conforming JSON parser, empty scopes close with
//! no interior text in either mode, and every member past the first is
//! preceded by exactly one separator.

use vstd::prelude::*;

use crate::text;
use crate::value;
use crate::value::JSONWriterValue;

verus! {

/// The value of a hexadecimal digit, either case.
pub open spec fn hex_val(c: char) -> nat {
    if c == '0' { 0 } else if c == '1' { 1 } else if c == '2' { 2 } else if c == '3' { 3 }
    else if c == '4' { 4 } else if c == '5' { 5 } else if c == '6' { 6 } else if c == '7' { 7 }
    else if c == '8' { 8 } else if c == '9' { 9 }
    else if c == 'A' || c == 'a' { 10 } else if c == 'B' || c == 'b' { 11 }
    else if c == 'C' || c == 'c' { 12 } else if c == 'D' || c == 'd' { 13 }
    else if c == 'E' || c == 'e' { 14 } else if c == 'F' || c == 'f' { 15 } else { 0 }
}

/// The character a conforming parser reads for a two-character escape.
pub open spec fn short_unescape(c: char) -> char {
    if c == 'b' { '\u{8}' } else if c == 'f' { '\u{c}' } else if c == 'n' { '\n' }
    else if c == 'r' { '\r' } else if c == 't' { '\t' } else { c }
}

/// What a conforming JSON parser makes of escaped string contents: a
/// backslash starts an escape, read as its short form or as a `\uXXXX`
/// code; every other character stands for itself. Malformed trailing
/// escapes decode to nothing.
pub open spec fn unescaped(s: Seq<char>) -> Seq<char>
    decreases s.len(),
{
    if s.len() == 0 {
        Seq::empty()
    } else if s[0] != '\\' {
        seq![s[0]] + unescaped(s.drop_first())
    } else if s.len() >= 2 && s[1] == 'u' {
        if s.len() >= 6 {
            let code = hex_val(s[2]) * 4096 + hex_val(s[3]) * 256 + hex_val(s[4]) * 16 + hex_val(
                s[5],
            );
            seq![code as char] + unescaped(s.skip(6))
        } else {
            Seq::empty()
        }
    } else if s.len() >= 2 {
        seq![short_unescape(s[1])] + unescaped(s.skip(2))
    } else {
        Seq::empty()
    }
}

/// Decoding consumes one escape and yields the character it encodes.
proof fn lemma_unescape_one(c: char, t: Seq<char>)
    ensures
        unescaped(text::escape_char(c) + t) == seq![c] + unescaped(t),
{
    let s = text::escape_char(c) + t;
    if !text::needs_escape(c) {
        assert(s.drop_first() =~= t);
        assert(unescaped(s) =~= seq![c] + unescaped(t));
    } else if (c as u32) < 0x20 && c != '\u{8}' && c != '\u{c}' && c != '\n' && c != '\r'
        && c != '\t' {
        let v = c as u32;
        assert(s.skip(6) =~= t);
        assert(hex_val('0') == 0);
        assert(hex_val(text::hex_digit(v as nat / 16)) == v as nat / 16);
        assert(hex_val(text::hex_digit(v as nat % 16)) == v as nat % 16);
        assert((v as nat / 16) * 16 + v as nat % 16 == v as nat) by {
            vstd::arithmetic::div_mod::lemma_fundamental_div_mod(v as int, 16);
        }
        assert(s[2] == '0' && s[3] == '0');
        assert(hex_val(s[2]) * 4096 + hex_val(s[3]) * 256 + hex_val(s[4]) * 16 + hex_val(s[5])
            == v as nat);
        assert((v as nat) as char == c);
        assert(unescaped(s) =~= seq![c] + unescaped(t));
    } else {
        assert(s.skip(2) =~= t);
        assert(unescaped(s) =~= seq![c] + unescaped(t));
    }
}

/// The escaper inverts: a conforming JSON parser reads the escaped form of
/// any string back to that very string.
pub proof fn lemma_escape_round_trip(s: Seq<char>)
    ensures
        unescaped(text::escaped(s)) == s,
    decreases s.len(),
{
    if s.len() == 0 {
        assert(unescaped(text::escaped(s)) =~= s);
    } else {
        lemma_unescape_one(s[0], text::escaped(s.drop_first()));
        lemma_escape_round_trip(s.drop_first());
        assert(unescaped(text::escaped(s)) =~= s);
    }
}

/// A scope closed with no members emitted reads `{}` or `[]` exactly,
/// whatever the output mode, the indentation and the depth.
pub proof fn lemma_empty_scope(pretty: bool, unit: Seq<char>, depth: nat)
    ensures
        seq!['{'] + text::close_text(pretty, unit, depth, true) + seq!['}'] == seq!['{', '}'],
        seq!['['] + text::close_text(pretty, unit, depth, true) + seq![']'] == seq!['[', ']'],
{
    assert(seq!['{'] + text::close_text(pretty, unit, depth, true) + seq!['}'] =~= seq!['{', '}']);
    assert(seq!['['] + text::close_text(pretty, unit, depth, true) + seq![']'] =~= seq!['[', ']']);
}

/// Separator placement: every member past the first is preceded by exactly
/// one comma more than the first, which is preceded by none in compact
/// output and by a newline and the indentation in pretty output. The same
/// holds of keyed members.
pub proof fn lemma_separator_placement(pretty: bool, unit: Seq<char>, depth: nat, key: Seq<char>)
    ensures
        text::sep_text(pretty, unit, depth, false) == seq![','] + text::sep_text(
            pretty,
            unit,
            depth,
            true,
        ),
        !pretty ==> text::sep_text(pretty, unit, depth, true) == Seq::<char>::empty(),
        pretty ==> text::sep_text(pretty, unit, depth, true) == text::nl_indent(unit, depth),
        text::key_text(pretty, unit, depth, false, key) == seq![','] + text::key_text(
            pretty,
            unit,
            depth,
            true,
            key,
        ),
{
    assert(text::sep_text(pretty, unit, depth, false) =~= seq![','] + text::sep_text(
        pretty,
        unit,
        depth,
        true,
    ));
    assert(text::key_text(pretty, unit, depth, false, key) =~= seq![','] + text::key_text(
        pretty,
        unit,
        depth,
        true,
        key,
    ));
    if !pretty {
        assert(text::sep_text(pretty, unit, depth, true) =~= Seq::<char>::empty());
    }
}

/// A container encoded with no items reads `[]` or `{}` exactly, whatever
/// the output mode, the indentation and the depth.
pub proof fn lemma_empty_containers<V: JSONWriterValue>(pretty: bool, unit: Seq<char>, depth: nat)
    ensures
        value::array_text(Seq::<V>::empty(), pretty, unit, depth) == seq!['[', ']'],
        value::object_text(Seq::<(String, V)>::empty(), pretty, unit, depth) == seq!['{', '}'],
{
    assert(value::array_text(Seq::<V>::empty(), pretty, unit, depth) =~= seq!['[', ']']);
    assert(value::object_text(Seq::<(String, V)>::empty(), pretty, unit, depth) =~= seq![
        '{',
        '}',
    ]);
}

/// Within an encoded container, every item past the first is preceded by
/// exactly one comma more than a first item would be.
pub proof fn lemma_item_separator_placement<V: JSONWriterValue>(
    items: Seq<V>,
    k: int,
    pretty: bool,
    unit: Seq<char>,
    depth: nat,
)
    requires
        0 <= k < items.len(),
    ensures
        value::items_text(items, k, pretty, unit, depth, false) == seq![','] + value::items_text(
            items,
            k,
            pretty,
            unit,
            depth,
            true,
        ),
{
    lemma_separator_placement(pretty, unit, depth, Seq::empty());
    assert(value::items_text(items, k, pretty, unit, depth, false) =~= seq![',']
        + value::items_text(items, k, pretty, unit, depth, true));
}

} // verus!
