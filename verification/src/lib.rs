//! A small, allocation-light JSON writer: values are appended in order to a
//! growable text buffer, with no intermediate tree.
//!
//! The scoped [`JSONObjectWriter`] and [`JSONArrayWriter`] emit the opening
//! punctuation when they are created and the matching closing punctuation at
//! their `end`, holding the sink exclusively in between so the output stays
//! well nested. The sinks come in two modes: a plain `String` writes compact
//! output, a [`PrettyJSONWriter`] indents it. Every contract states exactly
//! which characters a call appends, over the model in [`text`]; the laws the
//! library stands behind are proved in [`laws`].

pub mod escape;
pub mod laws;
pub mod number;
pub mod pretty;
pub mod sink;
pub mod text;
pub mod value;
pub mod writer;

pub use escape::write_part_of_string;
pub use escape::write_string;
pub use number::double_is_finite;
pub use number::write_double;
pub use pretty::PrettyJSONWriter;
pub use sink::JSONWriter;
pub use value::to_json_string;
pub use value::write_entries;
pub use value::JSONWriterValue;
pub use value::Null;
pub use value::NULL;
pub use writer::JSONArrayWriter;
pub use writer::JSONObjectWriter;
