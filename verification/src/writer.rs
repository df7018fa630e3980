//! The scoped object and array writers: the public surface.
//!
//! A writer holds the exclusive borrow of a sink for its lifetime, emits the
//! opening punctuation at construction and the matching closing punctuation
//! exactly once, at the explicit `end`. While a nested writer is alive the
//! parent is inaccessible: the borrow discipline keeps the output well
//! nested and append-only.

use vstd::prelude::*;

use crate::sink::JSONWriter;
use crate::sink;
use crate::text;
use crate::value::JSONWriterValue;

verus! {

/// Helper for appending a JSON object to the borrowed sink.
///
/// Appends `{` on creation and `}` at `end`.
pub struct JSONObjectWriter<'a, W: JSONWriter = String> {
    /// Exclusive borrow of the sink.
    ///
    /// Consider using the methods instead of writing through this field.
    pub writer: &'a mut W,
    /// Whether no member has been written yet.
    pub empty: bool,
}

/// Helper for appending a JSON array to the borrowed sink.
///
/// Appends `[` on creation and `]` at `end`.
pub struct JSONArrayWriter<'a, W: JSONWriter = String> {
    /// Exclusive borrow of the sink.
    ///
    /// Consider using the methods instead of writing through this field.
    pub writer: &'a mut W,
    /// Whether no item has been written yet.
    pub empty: bool,
}

impl<'a, W: JSONWriter> JSONObjectWriter<'a, W> {
    /// A pretty sink inside an open scope sits at least one level deep, so
    /// the closing punctuation can return to the enclosing depth.
    pub open spec fn wf(&self) -> bool {
        self.writer.pretty() ==> self.writer.depth() >= 1
    }

    /// Creates a writer on the given sink and appends `{` immediately.
    pub fn new(writer: &'a mut W) -> (w: JSONObjectWriter<'a, W>)
        requires
            old(writer).pretty() ==> old(writer).depth() < usize::MAX as nat,
        ensures
            w.empty,
            w.wf(),
            w.writer.buf() == old(writer).buf() + seq!['{'],
            w.writer.pretty() == old(writer).pretty(),
            w.writer.indent_unit() == old(writer).indent_unit(),
            w.writer.depth() == sink::depth_after_open(old(writer).pretty(), old(writer).depth()),
            *final(writer) == *final(w.writer),
    {
        writer.json_begin_object();
        JSONObjectWriter { writer, empty: true }
    }

    /// Writes the member separator unless first, then the escaped key and
    /// the key/value delimiter. The caller must append exactly one value
    /// afterwards, directly through the sink.
    pub fn write_key(&mut self, key: &str)
        ensures
            final(self).writer.buf() == old(self).writer.buf() + text::key_text(
                old(self).writer.pretty(),
                old(self).writer.indent_unit(),
                old(self).writer.depth(),
                old(self).empty,
                key@,
            ),
            !final(self).empty,
            final(self).writer.pretty() == old(self).writer.pretty(),
            final(self).writer.indent_unit() == old(self).writer.indent_unit(),
            final(self).writer.depth() == old(self).writer.depth(),
            *final(old(self).writer) == *final(final(self).writer),
    {
        self.writer.json_object_key(key, self.empty);
        self.empty = false;
    }

    /// Escapes the key and appends the key and the value.
    pub fn value<T: JSONWriterValue>(&mut self, key: &str, value: T)
        requires
            old(self).writer.pretty() ==> old(self).writer.depth() + value.nest()
                < usize::MAX as nat,
        ensures
            final(self).writer.buf() == old(self).writer.buf() + text::key_text(
                old(self).writer.pretty(),
                old(self).writer.indent_unit(),
                old(self).writer.depth(),
                old(self).empty,
                key@,
            ) + value.json_text(
                old(self).writer.pretty(),
                old(self).writer.indent_unit(),
                old(self).writer.depth(),
            ),
            !final(self).empty,
            final(self).writer.pretty() == old(self).writer.pretty(),
            final(self).writer.indent_unit() == old(self).writer.indent_unit(),
            final(self).writer.depth() == old(self).writer.depth(),
            *final(old(self).writer) == *final(final(self).writer),
    {
        self.write_key(key);
        value.write_json(&mut *self.writer);
    }

    /// Starts writing a nested object under the given key: appends the key
    /// and `{`, and returns a writer that holds the sink until its own `end`.
    pub fn object<'b>(&'b mut self, key: &str) -> (w: JSONObjectWriter<'b, W>)
        requires
            old(self).writer.pretty() ==> old(self).writer.depth() < usize::MAX as nat,
        ensures
            w.empty,
            w.wf(),
            w.writer.buf() == old(self).writer.buf() + text::key_text(
                old(self).writer.pretty(),
                old(self).writer.indent_unit(),
                old(self).writer.depth(),
                old(self).empty,
                key@,
            ) + seq!['{'],
            w.writer.pretty() == old(self).writer.pretty(),
            w.writer.indent_unit() == old(self).writer.indent_unit(),
            w.writer.depth() == sink::depth_after_open(
                old(self).writer.pretty(),
                old(self).writer.depth(),
            ),
            !final(self).empty,
            *final(self).writer == *final(w.writer),
            *final(old(self).writer) == *final(final(self).writer),
    {
        self.write_key(key);
        JSONObjectWriter::new(&mut *self.writer)
    }

    /// Starts writing a nested array under the given key: appends the key
    /// and `[`, and returns a writer that holds the sink until its own `end`.
    pub fn array<'b>(&'b mut self, key: &str) -> (w: JSONArrayWriter<'b, W>)
        requires
            old(self).writer.pretty() ==> old(self).writer.depth() < usize::MAX as nat,
        ensures
            w.empty,
            w.wf(),
            w.writer.buf() == old(self).writer.buf() + text::key_text(
                old(self).writer.pretty(),
                old(self).writer.indent_unit(),
                old(self).writer.depth(),
                old(self).empty,
                key@,
            ) + seq!['['],
            w.writer.pretty() == old(self).writer.pretty(),
            w.writer.indent_unit() == old(self).writer.indent_unit(),
            w.writer.depth() == sink::depth_after_open(
                old(self).writer.pretty(),
                old(self).writer.depth(),
            ),
            !final(self).empty,
            *final(self).writer == *final(w.writer),
            *final(old(self).writer) == *final(final(self).writer),
    {
        self.write_key(key);
        JSONArrayWriter::new(&mut *self.writer)
    }

    /// Ends the scope: appends `}` exactly once and releases the sink.
    pub fn end(self)
        requires
            self.wf(),
        ensures
            final(self.writer).buf() == old(self.writer).buf() + text::close_text(
                old(self.writer).pretty(),
                old(self.writer).indent_unit(),
                sink::depth_after_close(old(self.writer).pretty(), old(self.writer).depth()),
                self.empty,
            ) + seq!['}'],
            final(self.writer).pretty() == old(self.writer).pretty(),
            final(self.writer).indent_unit() == old(self.writer).indent_unit(),
            final(self.writer).depth() == sink::depth_after_close(
                old(self.writer).pretty(),
                old(self.writer).depth(),
            ),
    {
        let JSONObjectWriter { writer, empty } = self;
        writer.json_end_object(empty);
    }
}

impl<'a, W: JSONWriter> JSONArrayWriter<'a, W> {
    /// A pretty sink inside an open scope sits at least one level deep, so
    /// the closing punctuation can return to the enclosing depth.
    pub open spec fn wf(&self) -> bool {
        self.writer.pretty() ==> self.writer.depth() >= 1
    }

    /// Creates a writer on the given sink and appends `[` immediately.
    pub fn new(writer: &'a mut W) -> (w: JSONArrayWriter<'a, W>)
        requires
            old(writer).pretty() ==> old(writer).depth() < usize::MAX as nat,
        ensures
            w.empty,
            w.wf(),
            w.writer.buf() == old(writer).buf() + seq!['['],
            w.writer.pretty() == old(writer).pretty(),
            w.writer.indent_unit() == old(writer).indent_unit(),
            w.writer.depth() == sink::depth_after_open(old(writer).pretty(), old(writer).depth()),
            *final(writer) == *final(w.writer),
    {
        writer.json_begin_array();
        JSONArrayWriter { writer, empty: true }
    }

    /// Writes the member separator unless at the beginning of the array.
    /// The caller must append exactly one value afterwards, directly through
    /// the sink.
    pub fn write_comma(&mut self)
        ensures
            final(self).writer.buf() == old(self).writer.buf() + text::sep_text(
                old(self).writer.pretty(),
                old(self).writer.indent_unit(),
                old(self).writer.depth(),
                old(self).empty,
            ),
            !final(self).empty,
            final(self).writer.pretty() == old(self).writer.pretty(),
            final(self).writer.indent_unit() == old(self).writer.indent_unit(),
            final(self).writer.depth() == old(self).writer.depth(),
            *final(old(self).writer) == *final(final(self).writer),
    {
        self.writer.json_begin_array_value(self.empty);
        self.empty = false;
    }

    /// Writes the given value as an array item.
    pub fn value<T: JSONWriterValue>(&mut self, value: T)
        requires
            old(self).writer.pretty() ==> old(self).writer.depth() + value.nest()
                < usize::MAX as nat,
        ensures
            final(self).writer.buf() == old(self).writer.buf() + text::sep_text(
                old(self).writer.pretty(),
                old(self).writer.indent_unit(),
                old(self).writer.depth(),
                old(self).empty,
            ) + value.json_text(
                old(self).writer.pretty(),
                old(self).writer.indent_unit(),
                old(self).writer.depth(),
            ),
            !final(self).empty,
            final(self).writer.pretty() == old(self).writer.pretty(),
            final(self).writer.indent_unit() == old(self).writer.indent_unit(),
            final(self).writer.depth() == old(self).writer.depth(),
            *final(old(self).writer) == *final(final(self).writer),
    {
        self.write_comma();
        value.write_json(&mut *self.writer);
    }

    /// Starts writing a nested object as an array item: appends the
    /// separator and `{`, and returns a writer that holds the sink until its
    /// own `end`.
    pub fn object<'b>(&'b mut self) -> (w: JSONObjectWriter<'b, W>)
        requires
            old(self).writer.pretty() ==> old(self).writer.depth() < usize::MAX as nat,
        ensures
            w.empty,
            w.wf(),
            w.writer.buf() == old(self).writer.buf() + text::sep_text(
                old(self).writer.pretty(),
                old(self).writer.indent_unit(),
                old(self).writer.depth(),
                old(self).empty,
            ) + seq!['{'],
            w.writer.pretty() == old(self).writer.pretty(),
            w.writer.indent_unit() == old(self).writer.indent_unit(),
            w.writer.depth() == sink::depth_after_open(
                old(self).writer.pretty(),
                old(self).writer.depth(),
            ),
            !final(self).empty,
            *final(self).writer == *final(w.writer),
            *final(old(self).writer) == *final(final(self).writer),
    {
        self.write_comma();
        JSONObjectWriter::new(&mut *self.writer)
    }

    /// Starts writing a nested array as an array item: appends the separator
    /// and `[`, and returns a writer that holds the sink until its own `end`.
    pub fn array<'b>(&'b mut self) -> (w: JSONArrayWriter<'b, W>)
        requires
            old(self).writer.pretty() ==> old(self).writer.depth() < usize::MAX as nat,
        ensures
            w.empty,
            w.wf(),
            w.writer.buf() == old(self).writer.buf() + text::sep_text(
                old(self).writer.pretty(),
                old(self).writer.indent_unit(),
                old(self).writer.depth(),
                old(self).empty,
            ) + seq!['['],
            w.writer.pretty() == old(self).writer.pretty(),
            w.writer.indent_unit() == old(self).writer.indent_unit(),
            w.writer.depth() == sink::depth_after_open(
                old(self).writer.pretty(),
                old(self).writer.depth(),
            ),
            !final(self).empty,
            *final(self).writer == *final(w.writer),
            *final(old(self).writer) == *final(final(self).writer),
    {
        self.write_comma();
        JSONArrayWriter::new(&mut *self.writer)
    }

    /// Ends the scope: appends `]` exactly once and releases the sink.
    pub fn end(self)
        requires
            self.wf(),
        ensures
            final(self.writer).buf() == old(self.writer).buf() + text::close_text(
                old(self.writer).pretty(),
                old(self.writer).indent_unit(),
                sink::depth_after_close(old(self.writer).pretty(), old(self.writer).depth()),
                self.empty,
            ) + seq![']'],
            final(self.writer).pretty() == old(self.writer).pretty(),
            final(self.writer).indent_unit() == old(self.writer).indent_unit(),
            final(self.writer).depth() == sink::depth_after_close(
                old(self.writer).pretty(),
                old(self.writer).depth(),
            ),
    {
        let JSONArrayWriter { writer, empty } = self;
        writer.json_end_array(empty);
    }
}

impl<'a> JSONObjectWriter<'a, String> {
    /// Returns the buffer length in bytes.
    pub fn buffer_len(&self) -> usize {
        self.writer.as_str().len()
    }
}

impl<'a> JSONArrayWriter<'a, String> {
    /// Returns the buffer length in bytes.
    pub fn buffer_len(&self) -> usize {
        self.writer.as_str().len()
    }
}

} // verus!
