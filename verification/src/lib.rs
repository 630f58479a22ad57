//! Event-driven conversion between typed values and the Arrow columnar
//! in-memory format, in both directions.
//!
//! The write side consumes a uniform stream of primitive serialization
//! events ([`event::Event`]) through the sink contract ([`sink::EventSink`])
//! and accumulates typed columnar buffers: validity bitmaps, value
//! buffers, offsets, dictionary key tables. The read side answers
//! random-access requests — "is this row null", "this row as this width" —
//! over committed columns, range-checked and without truncation. An
//! outer-sequence stripper turns a stream representing "one sequence of N
//! records" into the N records' own event trees.
//!
//! Every buffer layout, state machine and conversion rule carries a
//! machine-checked contract; the calendar rendering of temporal columns
//! and the UTF-8 decoding of text columns rely on the calendar library
//! and the standard library through the few trusted declarations beside
//! their uses.

pub mod array;
pub mod array_deserializer;
pub mod bits;
pub mod bool8_field;
pub mod bool_deserializer;
pub mod builder;
pub mod context;
pub mod date_deserializer;
pub mod decimal;
pub mod dictionary_builder;
pub mod dictionary_deserializer;
pub mod event;
pub mod integer;
pub mod integer_deserializer;
pub mod laws;
pub mod offsets;
pub mod primitive_builder;
pub mod schema;
pub mod sink;
pub mod string_deserializer;
pub mod time_deserializer;
pub mod utf8_builder;
pub mod util;
pub mod validity;
pub mod views;

use vstd::prelude::*;

verus! {

/// The kinds of failure the library reports. Every fallible operation
/// returns one of these; no verified function panics.
#[derive(Clone, Copy, Debug, PartialEq, Eq, Structural)]
pub enum Error {
    /// Invalid field or type construction.
    Schema,
    /// An event arrived in a state the state machine forbids.
    EventState,
    /// Numeric narrowing failure, offset-width or key-space exhaustion;
    /// carries the offending value — the integer that does not fit the
    /// requested width, the byte count past the offset range, or the
    /// first key past the configured key space.
    Overflow(i128),
    /// The requested logical kind does not match the physical column.
    TypeMismatch,
    /// A row index or dictionary key resolves outside buffer bounds.
    OutOfRange,
    /// A calendar or time value cannot be represented.
    Conversion,
}

} // verus!
