//! Number rendering: integers through a fast decimal formatter, doubles
//! through a pre-rendered shortest-round-trip numeral with the non-finite
//! values collapsed to the null token.

use vstd::prelude::*;

use vstd::string::StrSliceExecFns;

use crate::sink::JSONWriter;
use crate::text;

verus! {

/// Relies on itoa::Buffer::format: the decimal digits of the integer,
/// without leading zeros.
#[verifier::external_body]
pub(crate) fn format_u128(value: u128) -> (r: String)
    ensures
        r@ == text::dec_text(value as nat),
{
    let mut buffer = itoa::Buffer::new();
    buffer.format(value).to_owned()
}

/// Relies on itoa::Buffer::format: the decimal digits of the integer,
/// without leading zeros and with a leading `-` when negative.
#[verifier::external_body]
pub(crate) fn format_i128(value: i128) -> (r: String)
    ensures
        r@ == text::int_text(value as int),
{
    let mut buffer = itoa::Buffer::new();
    buffer.format(value).to_owned()
}

/// Whether a double with this bit pattern is finite: neither an infinity nor
/// a NaN.
pub fn double_is_finite(bits: u64) -> (r: bool)
    ensures
        r == text::is_finite_bits(bits),
{
    ((bits >> 52u64) & 0x7ffu64) != 0x7ffu64
}

/// Writes the token of a double given by its bit pattern and, when finite,
/// by its shortest-round-trip rendering: the numeral with a trailing `.0`
/// stripped, or the null token for an infinity or a NaN, whatever text came
/// with it.
pub fn write_double<W: JSONWriter>(writer: &mut W, bits: u64, rendered: &str)
    ensures
        final(writer).buf() == old(writer).buf() + text::double_text(bits, rendered@),
        final(writer).pretty() == old(writer).pretty(),
        final(writer).indent_unit() == old(writer).indent_unit(),
        final(writer).depth() == old(writer).depth(),
{
    if double_is_finite(bits) {
        let n = rendered.unicode_len();
        if n >= 2 && rendered.get_char(n - 2) == '.' && rendered.get_char(n - 1) == '0' {
            let head = rendered.substring_char(0, n - 2);
            proof {
                assert(rendered@.subrange(0, n - 2) =~= rendered@.take(rendered@.len() - 2));
            }
            writer.json_number_str(head);
        } else {
            writer.json_number_str(rendered);
        }
    } else {
        writer.json_null();
    }
}

} // verus!
