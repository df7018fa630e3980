//! Value encoding: the conversion from a value to sink operations.
//!
//! A type with [`JSONWriterValue`] knows how to append itself to a sink, and
//! says in `json_text` exactly which characters that appends.

use vstd::prelude::*;

use crate::number;
use crate::sink::JSONWriter;
use crate::sink;
use crate::text;

verus! {

/// Represents the null value in JSON.
///
/// Note: `Option::None` may be used instead in most cases.
#[derive(Debug, Copy, Clone)]
pub struct Null;

/// The null value in JSON.
pub const NULL: Null = Null;

/// Types with this trait can be converted to JSON.
pub trait JSONWriterValue: Sized {
    /// The JSON text of the value, in the given output mode at the given
    /// nesting depth.
    spec fn json_text(&self, pretty: bool, unit: Seq<char>, depth: nat) -> Seq<char>;

    /// An upper bound on how many container scopes the value opens within
    /// one another; scalars open none.
    spec fn nest(&self) -> nat;

    /// Appends a JSON representation of the value to the sink.
    fn write_json<W: JSONWriter>(self, writer: &mut W)
        requires
            old(writer).pretty() ==> old(writer).depth() + self.nest() < usize::MAX as nat,
        ensures
            final(writer).buf() == old(writer).buf() + self.json_text(
                old(writer).pretty(),
                old(writer).indent_unit(),
                old(writer).depth(),
            ),
            final(writer).pretty() == old(writer).pretty(),
            final(writer).indent_unit() == old(writer).indent_unit(),
            final(writer).depth() == old(writer).depth(),
    ;
}

/// Converts the given value to a JSON string.
pub fn to_json_string<T: JSONWriterValue>(v: T) -> (r: String)
    ensures
        r@ == v.json_text(false, Seq::empty(), 0),
{
    let mut result = String::new();
    v.write_json(&mut result);
    result
}

impl JSONWriterValue for Null {
    open spec fn json_text(&self, pretty: bool, unit: Seq<char>, depth: nat) -> Seq<char> {
        text::lit_null()
    }

    open spec fn nest(&self) -> nat {
        0
    }

    fn write_json<W: JSONWriter>(self, writer: &mut W) {
        writer.json_null();
    }
}

impl JSONWriterValue for bool {
    open spec fn json_text(&self, pretty: bool, unit: Seq<char>, depth: nat) -> Seq<char> {
        if *self {
            text::lit_true()
        } else {
            text::lit_false()
        }
    }

    open spec fn nest(&self) -> nat {
        0
    }

    fn write_json<W: JSONWriter>(self, writer: &mut W) {
        writer.json_bool(self);
    }
}

impl JSONWriterValue for &str {
    open spec fn json_text(&self, pretty: bool, unit: Seq<char>, depth: nat) -> Seq<char> {
        text::quoted(self@)
    }

    open spec fn nest(&self) -> nat {
        0
    }

    fn write_json<W: JSONWriter>(self, writer: &mut W) {
        writer.json_string(self);
    }
}

/// Relies on Cow::as_ref: hands out the borrowed or owned string unchanged.
#[verifier::external_body]
fn cow_as_str<'a>(c: &'a std::borrow::Cow<'_, str>) -> (r: &'a str)
    ensures
        r@ == c@,
{
    std::convert::AsRef::as_ref(c)
}

impl JSONWriterValue for &std::borrow::Cow<'_, str> {
    open spec fn json_text(&self, pretty: bool, unit: Seq<char>, depth: nat) -> Seq<char> {
        text::quoted((**self)@)
    }

    open spec fn nest(&self) -> nat {
        0
    }

    fn write_json<W: JSONWriter>(self, writer: &mut W) {
        writer.json_string(cow_as_str(self));
    }
}

impl JSONWriterValue for &String {
    open spec fn json_text(&self, pretty: bool, unit: Seq<char>, depth: nat) -> Seq<char> {
        text::quoted(self@)
    }

    open spec fn nest(&self) -> nat {
        0
    }

    fn write_json<W: JSONWriter>(self, writer: &mut W) {
        writer.json_string(self.as_str());
    }
}

impl JSONWriterValue for u128 {
    open spec fn json_text(&self, pretty: bool, unit: Seq<char>, depth: nat) -> Seq<char> {
        text::int_text(*self as int)
    }

    open spec fn nest(&self) -> nat {
        0
    }

    fn write_json<W: JSONWriter>(self, writer: &mut W) {
        let s = number::format_u128(self);
        writer.json_number_str(s.as_str());
    }
}

impl JSONWriterValue for i128 {
    open spec fn json_text(&self, pretty: bool, unit: Seq<char>, depth: nat) -> Seq<char> {
        text::int_text(*self as int)
    }

    open spec fn nest(&self) -> nat {
        0
    }

    fn write_json<W: JSONWriter>(self, writer: &mut W) {
        let s = number::format_i128(self);
        writer.json_number_str(s.as_str());
    }
}

impl JSONWriterValue for u64 {
    open spec fn json_text(&self, pretty: bool, unit: Seq<char>, depth: nat) -> Seq<char> {
        text::int_text(*self as int)
    }

    open spec fn nest(&self) -> nat {
        0
    }

    fn write_json<W: JSONWriter>(self, writer: &mut W) {
        let s = number::format_u128(self as u128);
        writer.json_number_str(s.as_str());
    }
}

impl JSONWriterValue for i64 {
    open spec fn json_text(&self, pretty: bool, unit: Seq<char>, depth: nat) -> Seq<char> {
        text::int_text(*self as int)
    }

    open spec fn nest(&self) -> nat {
        0
    }

    fn write_json<W: JSONWriter>(self, writer: &mut W) {
        let s = number::format_i128(self as i128);
        writer.json_number_str(s.as_str());
    }
}

impl JSONWriterValue for u32 {
    open spec fn json_text(&self, pretty: bool, unit: Seq<char>, depth: nat) -> Seq<char> {
        text::int_text(*self as int)
    }

    open spec fn nest(&self) -> nat {
        0
    }

    fn write_json<W: JSONWriter>(self, writer: &mut W) {
        let s = number::format_u128(self as u128);
        writer.json_number_str(s.as_str());
    }
}

impl JSONWriterValue for i32 {
    open spec fn json_text(&self, pretty: bool, unit: Seq<char>, depth: nat) -> Seq<char> {
        text::int_text(*self as int)
    }

    open spec fn nest(&self) -> nat {
        0
    }

    fn write_json<W: JSONWriter>(self, writer: &mut W) {
        let s = number::format_i128(self as i128);
        writer.json_number_str(s.as_str());
    }
}

impl JSONWriterValue for u16 {
    open spec fn json_text(&self, pretty: bool, unit: Seq<char>, depth: nat) -> Seq<char> {
        text::int_text(*self as int)
    }

    open spec fn nest(&self) -> nat {
        0
    }

    fn write_json<W: JSONWriter>(self, writer: &mut W) {
        let s = number::format_u128(self as u128);
        writer.json_number_str(s.as_str());
    }
}

impl JSONWriterValue for i16 {
    open spec fn json_text(&self, pretty: bool, unit: Seq<char>, depth: nat) -> Seq<char> {
        text::int_text(*self as int)
    }

    open spec fn nest(&self) -> nat {
        0
    }

    fn write_json<W: JSONWriter>(self, writer: &mut W) {
        let s = number::format_i128(self as i128);
        writer.json_number_str(s.as_str());
    }
}

impl JSONWriterValue for u8 {
    open spec fn json_text(&self, pretty: bool, unit: Seq<char>, depth: nat) -> Seq<char> {
        text::int_text(*self as int)
    }

    open spec fn nest(&self) -> nat {
        0
    }

    fn write_json<W: JSONWriter>(self, writer: &mut W) {
        let s = number::format_u128(self as u128);
        writer.json_number_str(s.as_str());
    }
}

impl JSONWriterValue for i8 {
    open spec fn json_text(&self, pretty: bool, unit: Seq<char>, depth: nat) -> Seq<char> {
        text::int_text(*self as int)
    }

    open spec fn nest(&self) -> nat {
        0
    }

    fn write_json<W: JSONWriter>(self, writer: &mut W) {
        let s = number::format_i128(self as i128);
        writer.json_number_str(s.as_str());
    }
}

impl<T: JSONWriterValue + Copy> JSONWriterValue for &T {
    open spec fn json_text(&self, pretty: bool, unit: Seq<char>, depth: nat) -> Seq<char> {
        (**self).json_text(pretty, unit, depth)
    }

    open spec fn nest(&self) -> nat {
        (**self).nest()
    }

    fn write_json<W: JSONWriter>(self, writer: &mut W) {
        (*self).write_json(writer);
    }
}

/// An upper bound on the container nesting of the items from position `k`
/// on.
pub open spec fn items_nest<T: JSONWriterValue>(items: Seq<T>, k: int) -> nat
    decreases items.len() - k,
{
    if k < 0 || k >= items.len() {
        0
    } else {
        let head = items[k].nest();
        let rest = items_nest(items, k + 1);
        if head >= rest {
            head
        } else {
            rest
        }
    }
}

/// No item nests deeper than the bound of its sequence.
proof fn lemma_items_nest_bound<T: JSONWriterValue>(items: Seq<T>, k: int, i: int)
    requires
        0 <= k <= i < items.len(),
    ensures
        items[i].nest() <= items_nest(items, k),
    decreases i - k,
{
    if k < i {
        lemma_items_nest_bound(items, k + 1, i);
    }
}

/// The text of the array items from position `k` on: each item preceded by
/// the member separator, the first by the first-member form of it.
pub open spec fn items_text<T: JSONWriterValue>(
    items: Seq<T>,
    k: int,
    pretty: bool,
    unit: Seq<char>,
    depth: nat,
    first: bool,
) -> Seq<char>
    decreases items.len() - k,
{
    if k < 0 || k >= items.len() {
        Seq::empty()
    } else {
        text::sep_text(pretty, unit, depth, first) + items[k].json_text(pretty, unit, depth)
            + items_text(items, k + 1, pretty, unit, depth, false)
    }
}

/// The text of a whole array of items: the opening bracket, the items at
/// one deeper level, and the closing bracket.
pub open spec fn array_text<T: JSONWriterValue>(
    items: Seq<T>,
    pretty: bool,
    unit: Seq<char>,
    depth: nat,
) -> Seq<char> {
    seq!['['] + items_text(items, 0, pretty, unit, sink::depth_after_open(pretty, depth), true)
        + text::close_text(pretty, unit, depth, items.len() == 0) + seq![']']
}

impl<Item: JSONWriterValue + Copy> JSONWriterValue for &[Item] {
    open spec fn json_text(&self, pretty: bool, unit: Seq<char>, depth: nat) -> Seq<char> {
        array_text(self@, pretty, unit, depth)
    }

    open spec fn nest(&self) -> nat {
        1 + items_nest(self@, 0)
    }

    fn write_json<W: JSONWriter>(self, writer: &mut W) {
        let ghost p = old(writer).pretty();
        let ghost u = old(writer).indent_unit();
        let ghost d = old(writer).depth();
        let mut array = crate::writer::JSONArrayWriter::new(writer);
        let n = self.len();
        let mut i: usize = 0;
        while i < n
            invariant
                n == self@.len(),
                i <= n,
                array.writer.pretty() == p,
                array.writer.indent_unit() == u,
                array.writer.depth() == sink::depth_after_open(p, d),
                p ==> d + 1 + items_nest(self@, 0) < usize::MAX as nat,
                array.wf(),
                array.empty <==> i == 0,
                array.writer.buf() + items_text(
                    self@,
                    i as int,
                    p,
                    u,
                    sink::depth_after_open(p, d),
                    i == 0,
                ) == old(writer).buf() + seq!['['] + items_text(
                    self@,
                    0,
                    p,
                    u,
                    sink::depth_after_open(p, d),
                    true,
                ),
                after_borrow(*writer) == *final(array.writer),
            decreases n - i,
        {
            proof {
                if p {
                    lemma_items_nest_bound(self@, 0, i as int);
                }
            }
            array.value(*vstd::slice::slice_index_get(self, i));
            i += 1;
        }
        array.end();
        proof {
            assert(final(writer).buf() =~= old(writer).buf() + array_text(self@, p, u, d));
        }
    }
}

impl<Item: JSONWriterValue + Copy> JSONWriterValue for &Vec<Item> {
    open spec fn json_text(&self, pretty: bool, unit: Seq<char>, depth: nat) -> Seq<char> {
        array_text(self@, pretty, unit, depth)
    }

    open spec fn nest(&self) -> nat {
        1 + items_nest(self@, 0)
    }

    fn write_json<W: JSONWriter>(self, writer: &mut W) {
        self.as_slice().write_json(writer);
    }
}

/// An upper bound on the container nesting of the entry values from
/// position `k` on.
pub open spec fn entries_nest<V: JSONWriterValue>(entries: Seq<(String, V)>, k: int) -> nat
    decreases entries.len() - k,
{
    if k < 0 || k >= entries.len() {
        0
    } else {
        let head = entries[k].1.nest();
        let rest = entries_nest(entries, k + 1);
        if head >= rest {
            head
        } else {
            rest
        }
    }
}

/// No entry value nests deeper than the bound of its sequence.
proof fn lemma_entries_nest_bound<V: JSONWriterValue>(entries: Seq<(String, V)>, k: int, i: int)
    requires
        0 <= k <= i < entries.len(),
    ensures
        entries[i].1.nest() <= entries_nest(entries, k),
    decreases i - k,
{
    if k < i {
        lemma_entries_nest_bound(entries, k + 1, i);
    }
}

/// The text of the object members from position `k` on: each key escaped
/// and quoted, followed by its value, the pairs separated as members are.
pub open spec fn entries_text<V: JSONWriterValue>(
    entries: Seq<(String, V)>,
    k: int,
    pretty: bool,
    unit: Seq<char>,
    depth: nat,
    first: bool,
) -> Seq<char>
    decreases entries.len() - k,
{
    if k < 0 || k >= entries.len() {
        Seq::empty()
    } else {
        text::key_text(pretty, unit, depth, first, entries[k].0@) + entries[k].1.json_text(
            pretty,
            unit,
            depth,
        ) + entries_text(entries, k + 1, pretty, unit, depth, false)
    }
}

/// The text of a whole object: the opening brace, the members at one deeper
/// level, each key in the order given and kept verbatim, and the closing
/// brace.
pub open spec fn object_text<V: JSONWriterValue>(
    entries: Seq<(String, V)>,
    pretty: bool,
    unit: Seq<char>,
    depth: nat,
) -> Seq<char> {
    seq!['{'] + entries_text(entries, 0, pretty, unit, sink::depth_after_open(pretty, depth), true)
        + text::close_text(pretty, unit, depth, entries.len() == 0) + seq!['}']
}

/// Writes the given key-value pairs as one JSON object, in order, each key
/// kept as it comes: duplicates pass through verbatim. This is the member
/// encoding behind the string-keyed map conveniences, which enumerate their
/// pairs and hand them here.
pub fn write_entries<W: JSONWriter, V: JSONWriterValue + Copy>(
    writer: &mut W,
    entries: &[(String, V)],
)
    requires
        old(writer).pretty() ==> old(writer).depth() + 1 + entries_nest(entries@, 0)
            < usize::MAX as nat,
    ensures
        final(writer).buf() == old(writer).buf() + object_text(
            entries@,
            old(writer).pretty(),
            old(writer).indent_unit(),
            old(writer).depth(),
        ),
        final(writer).pretty() == old(writer).pretty(),
        final(writer).indent_unit() == old(writer).indent_unit(),
        final(writer).depth() == old(writer).depth(),
{
    let ghost p = old(writer).pretty();
    let ghost u = old(writer).indent_unit();
    let ghost d = old(writer).depth();
    let mut obj = crate::writer::JSONObjectWriter::new(writer);
    let n = entries.len();
    let mut i: usize = 0;
    while i < n
        invariant
            n == entries@.len(),
            i <= n,
            obj.writer.pretty() == p,
            obj.writer.indent_unit() == u,
            obj.writer.depth() == sink::depth_after_open(p, d),
            p ==> d + 1 + entries_nest(entries@, 0) < usize::MAX as nat,
            obj.wf(),
            obj.empty <==> i == 0,
            obj.writer.buf() + entries_text(
                entries@,
                i as int,
                p,
                u,
                sink::depth_after_open(p, d),
                i == 0,
            ) == old(writer).buf() + seq!['{'] + entries_text(
                entries@,
                0,
                p,
                u,
                sink::depth_after_open(p, d),
                true,
            ),
            after_borrow(*writer) == *final(obj.writer),
        decreases n - i,
    {
        proof {
            if p {
                lemma_entries_nest_bound(entries@, 0, i as int);
            }
        }
        let pair = vstd::slice::slice_index_get(entries, i);
        obj.value(pair.0.as_str(), pair.1);
        i += 1;
    }
    obj.end();
    proof {
        assert(final(writer).buf() =~= old(writer).buf() + object_text(entries@, p, u, d));
    }
}

impl<T: JSONWriterValue> JSONWriterValue for Option<T> {
    open spec fn json_text(&self, pretty: bool, unit: Seq<char>, depth: nat) -> Seq<char> {
        match self {
            Option::None => text::lit_null(),
            Option::Some(v) => v.json_text(pretty, unit, depth),
        }
    }

    open spec fn nest(&self) -> nat {
        match self {
            Option::None => 0,
            Option::Some(v) => v.nest(),
        }
    }

    fn write_json<W: JSONWriter>(self, writer: &mut W) {
        match self {
            Option::None => {
                writer.json_null();
            },
            Option::Some(value) => {
                value.write_json(writer);
            },
        }
    }
}

} // verus!
