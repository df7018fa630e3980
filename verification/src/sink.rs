//! The abstract output sink: the capability the writers drive.
//!
//! A sink is a growable text buffer together with a formatting mode. Compact
//! sinks hold nothing but the buffer; a pretty sink also tracks the nesting
//! depth that drives its indentation. Each operation appends exactly the text
//! given by the model functions in [`crate::text`].

use vstd::prelude::*;

use crate::escape;
use crate::text;

verus! {

/// The nesting depth after a structural open: pretty sinks indent one level
/// deeper, compact sinks keep no depth.
pub open spec fn depth_after_open(pretty: bool, depth: nat) -> nat {
    if pretty {
        depth + 1
    } else {
        depth
    }
}

/// The nesting depth after a structural close.
pub open spec fn depth_after_close(pretty: bool, depth: nat) -> nat {
    if pretty {
        (depth - 1) as nat
    } else {
        depth
    }
}

/// Writer trait for custom formatting and output.
///
/// Most uses go through [`crate::JSONObjectWriter`] and
/// [`crate::JSONArrayWriter`] rather than calling the sink directly.
pub trait JSONWriter: Sized {
    /// The characters the sink has accumulated.
    spec fn buf(&self) -> Seq<char>;

    /// Whether the sink inserts newlines and indentation.
    spec fn pretty(&self) -> bool;

    /// One level of indentation; meaningful only for a pretty sink.
    spec fn indent_unit(&self) -> Seq<char>;

    /// The current nesting depth; zero on a compact sink.
    spec fn depth(&self) -> nat;

    /// Writes the null token.
    fn json_null(&mut self)
        ensures
            final(self).pretty() == old(self).pretty(),
            final(self).indent_unit() == old(self).indent_unit(),
            final(self).depth() == old(self).depth(),
            final(self).buf() == old(self).buf() + text::lit_null(),
    ;

    /// Writes `true` or `false`.
    fn json_bool(&mut self, value: bool)
        ensures
            final(self).pretty() == old(self).pretty(),
            final(self).indent_unit() == old(self).indent_unit(),
            final(self).depth() == old(self).depth(),
            final(self).buf() == old(self).buf() + (if value {
                text::lit_true()
            } else {
                text::lit_false()
            }),
    ;

    /// Quotes and escapes the given string and writes the result.
    fn json_string(&mut self, value: &str)
        ensures
            final(self).pretty() == old(self).pretty(),
            final(self).indent_unit() == old(self).indent_unit(),
            final(self).depth() == old(self).depth(),
            final(self).buf() == old(self).buf() + text::quoted(value@),
    ;

    /// Writes a numeral that has already been rendered as text.
    fn json_number_str(&mut self, value: &str)
        ensures
            final(self).pretty() == old(self).pretty(),
            final(self).indent_unit() == old(self).indent_unit(),
            final(self).depth() == old(self).depth(),
            final(self).buf() == old(self).buf() + value@,
    ;

    /// Called at the start of writing an object; writes the opening brace.
    fn json_begin_object(&mut self)
        requires
            old(self).pretty() ==> old(self).depth() < usize::MAX as nat,
        ensures
            final(self).pretty() == old(self).pretty(),
            final(self).indent_unit() == old(self).indent_unit(),
            final(self).depth() == depth_after_open(old(self).pretty(), old(self).depth()),
            final(self).buf() == old(self).buf() + seq!['{'],
    ;

    /// Called after all key-value pairs of an object; writes the closing
    /// brace. `empty` is true when the object held no pair.
    fn json_end_object(&mut self, empty: bool)
        requires
            old(self).pretty() ==> old(self).depth() >= 1,
        ensures
            final(self).pretty() == old(self).pretty(),
            final(self).indent_unit() == old(self).indent_unit(),
            final(self).depth() == depth_after_close(old(self).pretty(), old(self).depth()),
            final(self).buf() == old(self).buf() + text::close_text(
                old(self).pretty(),
                old(self).indent_unit(),
                depth_after_close(old(self).pretty(), old(self).depth()),
                empty,
            ) + seq!['}'],
    ;

    /// Called at the start of writing an array; writes the opening bracket.
    fn json_begin_array(&mut self)
        requires
            old(self).pretty() ==> old(self).depth() < usize::MAX as nat,
        ensures
            final(self).pretty() == old(self).pretty(),
            final(self).indent_unit() == old(self).indent_unit(),
            final(self).depth() == depth_after_open(old(self).pretty(), old(self).depth()),
            final(self).buf() == old(self).buf() + seq!['['],
    ;

    /// Called after all items of an array; writes the closing bracket.
    /// `empty` is true when the array held no item.
    fn json_end_array(&mut self, empty: bool)
        requires
            old(self).pretty() ==> old(self).depth() >= 1,
        ensures
            final(self).pretty() == old(self).pretty(),
            final(self).indent_unit() == old(self).indent_unit(),
            final(self).depth() == depth_after_close(old(self).pretty(), old(self).depth()),
            final(self).buf() == old(self).buf() + text::close_text(
                old(self).pretty(),
                old(self).indent_unit(),
                depth_after_close(old(self).pretty(), old(self).depth()),
                empty,
            ) + seq![']'],
    ;

    /// Called before each item of an array: the member separator.
    fn json_begin_array_value(&mut self, first: bool)
        ensures
            final(self).pretty() == old(self).pretty(),
            final(self).indent_unit() == old(self).indent_unit(),
            final(self).depth() == old(self).depth(),
            final(self).buf() == old(self).buf() + text::sep_text(
                old(self).pretty(),
                old(self).indent_unit(),
                old(self).depth(),
                first,
            ),
    ;

    /// Writes the member separator unless first, then the escaped key and
    /// the key/value delimiter.
    fn json_object_key(&mut self, key: &str, first: bool)
        ensures
            final(self).pretty() == old(self).pretty(),
            final(self).indent_unit() == old(self).indent_unit(),
            final(self).depth() == old(self).depth(),
            final(self).buf() == old(self).buf() + text::key_text(
                old(self).pretty(),
                old(self).indent_unit(),
                old(self).depth(),
                first,
                key@,
            ),
    ;

    /// Writes a raw, already formatted fragment.
    fn json_fragment(&mut self, value: &str)
        ensures
            final(self).pretty() == old(self).pretty(),
            final(self).indent_unit() == old(self).indent_unit(),
            final(self).depth() == old(self).depth(),
            final(self).buf() == old(self).buf() + value@,
    ;
}

/// The compact sink: a plain string buffer, no inserted whitespace.
impl JSONWriter for String {
    open spec fn buf(&self) -> Seq<char> {
        self@
    }

    open spec fn pretty(&self) -> bool {
        false
    }

    open spec fn indent_unit(&self) -> Seq<char> {
        Seq::empty()
    }

    open spec fn depth(&self) -> nat {
        0
    }

    fn json_null(&mut self) {
        self.append("null");
        proof {
            reveal_strlit("null");
            assert(self@ =~= old(self)@ + text::lit_null());
        }
    }

    fn json_bool(&mut self, value: bool) {
        if value {
            self.append("true");
            proof {
                reveal_strlit("true");
                assert(self@ =~= old(self)@ + text::lit_true());
            }
        } else {
            self.append("false");
            proof {
                reveal_strlit("false");
                assert(self@ =~= old(self)@ + text::lit_false());
            }
        }
    }

    fn json_string(&mut self, value: &str) {
        escape::write_string(self, value);
    }

    fn json_number_str(&mut self, value: &str) {
        self.append(value);
    }

    fn json_begin_object(&mut self) {
        escape::push_char(self, '{');
        proof {
            assert(self@ =~= old(self)@ + seq!['{']);
        }
    }

    fn json_end_object(&mut self, _empty: bool) {
        escape::push_char(self, '}');
        proof {
            assert(self@ =~= old(self)@ + Seq::<char>::empty() + seq!['}']);
        }
    }

    fn json_begin_array(&mut self) {
        escape::push_char(self, '[');
        proof {
            assert(self@ =~= old(self)@ + seq!['[']);
        }
    }

    fn json_end_array(&mut self, _empty: bool) {
        escape::push_char(self, ']');
        proof {
            assert(self@ =~= old(self)@ + Seq::<char>::empty() + seq![']']);
        }
    }

    fn json_begin_array_value(&mut self, first: bool) {
        if !first {
            escape::push_char(self, ',');
            proof {
                assert(self@ =~= old(self)@ + seq![',']);
            }
        } else {
            proof {
                assert(self@ =~= old(self)@ + Seq::<char>::empty());
            }
        }
    }

    fn json_object_key(&mut self, key: &str, first: bool) {
        if !first {
            escape::push_char(self, ',');
        }
        escape::write_string(self, key);
        escape::push_char(self, ':');
        proof {
            assert(self@ =~= old(self)@ + text::key_text(false, Seq::empty(), 0, first, key@));
        }
    }

    fn json_fragment(&mut self, value: &str) {
        self.append(value);
    }
}

} // verus!
