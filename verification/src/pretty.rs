//! The pretty sink: a string buffer behind a depth counter, inserting a
//! newline and one unit of indentation per nesting level at every structural
//! boundary. Empty containers close with no interior whitespace.

use vstd::prelude::*;

use crate::escape;
use crate::sink::JSONWriter;
use crate::sink;
use crate::text;

verus! {

/// Appends the unit the given number of times.
fn push_repeated(out: &mut String, unit: &str, count: usize)
    ensures
        final(out)@ == old(out)@ + text::repeated(unit@, count as nat),
{
    let mut i: usize = 0;
    while i < count
        invariant
            i <= count,
            out@ == old(out)@ + text::repeated(unit@, i as nat),
        decreases count - i,
    {
        out.append(unit);
        i += 1;
    }
}

/// Formats JSON in a human-readable form with newlines and indentation.
pub struct PrettyJSONWriter<'a> {
    /// The buffer that receives the output.
    pub buffer: &'a mut String,
    /// One level of indentation.
    pub indent: &'a str,
    /// The current nesting depth.
    pub depth: usize,
}

impl<'a> PrettyJSONWriter<'a> {
    /// Creates a pretty sink with two spaces for indentation.
    pub fn new(buffer: &'a mut String) -> (w: PrettyJSONWriter<'a>)
        ensures
            w.buf() == old(buffer)@,
            w.indent_unit() == seq![' ', ' '],
            w.depth() == 0,
            *final(buffer) == *final(w.buffer),
    {
        let w = PrettyJSONWriter { buffer, indent: "  ", depth: 0 };
        proof {
            reveal_strlit("  ");
            assert(w.indent_unit() =~= seq![' ', ' ']);
        }
        w
    }

    /// Creates a pretty sink using `indent` as one level of indentation.
    pub fn with_indent(buffer: &'a mut String, indent: &'a str) -> (w: PrettyJSONWriter<'a>)
        ensures
            w.buf() == old(buffer)@,
            w.indent_unit() == indent@,
            w.depth() == 0,
            *final(buffer) == *final(w.buffer),
    {
        PrettyJSONWriter { buffer, indent, depth: 0 }
    }
}

impl<'a> JSONWriter for PrettyJSONWriter<'a> {
    open spec fn buf(&self) -> Seq<char> {
        self.buffer@
    }

    open spec fn pretty(&self) -> bool {
        true
    }

    open spec fn indent_unit(&self) -> Seq<char> {
        self.indent@
    }

    open spec fn depth(&self) -> nat {
        self.depth as nat
    }

    fn json_null(&mut self) {
        self.buffer.append("null");
        proof {
            reveal_strlit("null");
            assert(self.buffer@ =~= old(self).buffer@ + text::lit_null());
        }
    }

    fn json_bool(&mut self, value: bool) {
        if value {
            self.buffer.append("true");
            proof {
                reveal_strlit("true");
                assert(self.buffer@ =~= old(self).buffer@ + text::lit_true());
            }
        } else {
            self.buffer.append("false");
            proof {
                reveal_strlit("false");
                assert(self.buffer@ =~= old(self).buffer@ + text::lit_false());
            }
        }
    }

    fn json_string(&mut self, value: &str) {
        escape::write_string(self.buffer, value);
    }

    fn json_number_str(&mut self, value: &str) {
        self.buffer.append(value);
    }

    fn json_begin_object(&mut self) {
        self.depth += 1;
        escape::push_char(self.buffer, '{');
        proof {
            assert(self.buffer@ =~= old(self).buffer@ + seq!['{']);
        }
    }

    fn json_end_object(&mut self, empty: bool) {
        self.depth -= 1;
        if !empty {
            escape::push_char(self.buffer, '\n');
            push_repeated(self.buffer, self.indent, self.depth);
        }
        escape::push_char(self.buffer, '}');
        proof {
            assert(self.buffer@ =~= old(self).buffer@ + text::close_text(
                true,
                old(self).indent@,
                sink::depth_after_close(true, old(self).depth as nat),
                empty,
            ) + seq!['}']);
        }
    }

    fn json_begin_array(&mut self) {
        self.depth += 1;
        escape::push_char(self.buffer, '[');
        proof {
            assert(self.buffer@ =~= old(self).buffer@ + seq!['[']);
        }
    }

    fn json_end_array(&mut self, empty: bool) {
        self.depth -= 1;
        if !empty {
            escape::push_char(self.buffer, '\n');
            push_repeated(self.buffer, self.indent, self.depth);
        }
        escape::push_char(self.buffer, ']');
        proof {
            assert(self.buffer@ =~= old(self).buffer@ + text::close_text(
                true,
                old(self).indent@,
                sink::depth_after_close(true, old(self).depth as nat),
                empty,
            ) + seq![']']);
        }
    }

    fn json_begin_array_value(&mut self, first: bool) {
        if first {
            self.buffer.append("\n");
            proof {
                reveal_strlit("\n");
            }
        } else {
            self.buffer.append(",\n");
            proof {
                reveal_strlit(",\n");
            }
        }
        push_repeated(self.buffer, self.indent, self.depth);
        proof {
            assert(self.buffer@ =~= old(self).buffer@ + text::sep_text(
                true,
                old(self).indent@,
                old(self).depth as nat,
                first,
            ));
        }
    }

    fn json_object_key(&mut self, key: &str, first: bool) {
        if first {
            self.buffer.append("\n");
            proof {
                reveal_strlit("\n");
            }
        } else {
            self.buffer.append(",\n");
            proof {
                reveal_strlit(",\n");
            }
        }
        push_repeated(self.buffer, self.indent, self.depth);
        escape::write_string(self.buffer, key);
        self.buffer.append(": ");
        proof {
            reveal_strlit(": ");
            assert(self.buffer@ =~= old(self).buffer@ + text::key_text(
                true,
                old(self).indent@,
                old(self).depth as nat,
                first,
                key@,
            ));
        }
    }

    fn json_fragment(&mut self, value: &str) {
        self.buffer.append(value);
    }
}

} // verus!
