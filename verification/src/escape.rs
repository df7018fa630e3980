//! The string escaper: a single forward scan that replaces the characters
//! JSON cannot hold verbatim and passes every other character through.

use vstd::prelude::*;

use crate::text;

verus! {

/// Relies on String::push: appends exactly the one character.
#[verifier::external_body]
pub(crate) fn push_char(out: &mut String, c: char)
    ensures
        final(out)@ == old(out)@.push(c),
{
    out.push(c);
}

/// The uppercase hexadecimal digit of a value below sixteen.
fn hex_digit_char(d: u32) -> (c: char)
    requires
        d < 16,
    ensures
        c == text::hex_digit(d as nat),
{
    match d {
        0 => '0',
        1 => '1',
        2 => '2',
        3 => '3',
        4 => '4',
        5 => '5',
        6 => '6',
        7 => '7',
        8 => '8',
        9 => '9',
        10 => 'A',
        11 => 'B',
        12 => 'C',
        13 => 'D',
        14 => 'E',
        _ => 'F',
    }
}

/// Appends the escape of one character to the buffer.
fn write_escaped_char(out: &mut String, c: char)
    ensures
        final(out)@ == old(out)@ + text::escape_char(c),
{
    if c == '"' {
        push_char(out, '\\');
        push_char(out, '"');
    } else if c == '\\' {
        push_char(out, '\\');
        push_char(out, '\\');
    } else if c == '/' {
        push_char(out, '\\');
        push_char(out, '/');
    } else if c == '\u{8}' {
        push_char(out, '\\');
        push_char(out, 'b');
    } else if c == '\u{c}' {
        push_char(out, '\\');
        push_char(out, 'f');
    } else if c == '\n' {
        push_char(out, '\\');
        push_char(out, 'n');
    } else if c == '\r' {
        push_char(out, '\\');
        push_char(out, 'r');
    } else if c == '\t' {
        push_char(out, '\\');
        push_char(out, 't');
    } else if (c as u32) < 0x20 {
        let v = c as u32;
        push_char(out, '\\');
        push_char(out, 'u');
        push_char(out, '0');
        push_char(out, '0');
        push_char(out, hex_digit_char(v / 16));
        push_char(out, hex_digit_char(v % 16));
    } else {
        push_char(out, c);
    }
    proof {
        assert(out@ =~= old(out)@ + text::escape_char(c));
    }
}

/// Escaping a string distributes over concatenation.
pub proof fn lemma_escaped_append(a: Seq<char>, b: Seq<char>)
    ensures
        text::escaped(a + b) == text::escaped(a) + text::escaped(b),
    decreases a.len(),
{
    if a.len() == 0 {
        assert(a + b =~= b);
        assert(text::escaped(a) + text::escaped(b) =~= text::escaped(b));
    } else {
        assert((a + b).drop_first() =~= a.drop_first() + b);
        lemma_escaped_append(a.drop_first(), b);
        assert(text::escaped(a + b) =~= text::escaped(a) + text::escaped(b));
    }
}

/// Escaping one more character appends that character's escape.
proof fn lemma_escaped_snoc(s: Seq<char>, i: int)
    requires
        0 <= i < s.len(),
    ensures
        text::escaped(s.take(i + 1)) == text::escaped(s.take(i)) + text::escape_char(s[i]),
{
    assert(s.take(i + 1) =~= s.take(i) + seq![s[i]]);
    lemma_escaped_append(s.take(i), seq![s[i]]);
    assert(seq![s[i]].drop_first() =~= Seq::<char>::empty());
    assert(text::escaped(Seq::<char>::empty()) =~= Seq::<char>::empty());
    assert(text::escape_char(s[i]) + Seq::<char>::empty() =~= text::escape_char(s[i]));
    assert(text::escaped(seq![s[i]]) =~= text::escape_char(s[i]));
}

/// Escapes the input and appends the result to the output buffer without
/// adding quotes.
pub fn write_part_of_string(output_buffer: &mut String, input: &str)
    ensures
        final(output_buffer)@ == old(output_buffer)@ + text::escaped(input@),
{
    for c in it: input.chars()
        invariant
            it.seq() == input@,
            output_buffer@ == old(output_buffer)@ + text::escaped(it.seq().take(it.index())),
    {
        write_escaped_char(output_buffer, c);
        proof {
            lemma_escaped_snoc(input@, it.index());
        }
    }
    proof {
        assert(input@.take(input@.len() as int) =~= input@);
    }
}

/// Quotes and escapes the input and appends the result to the output buffer.
pub fn write_string(output_buffer: &mut String, input: &str)
    ensures
        final(output_buffer)@ == old(output_buffer)@ + text::quoted(input@),
{
    push_char(output_buffer, '"');
    write_part_of_string(output_buffer, input);
    push_char(output_buffer, '"');
    proof {
        assert(output_buffer@ =~= old(output_buffer)@ + text::quoted(input@));
    }
}

} // verus!
