use vstd::prelude::*;
use crate::Error;
use crate::array::{Array, TimeUnit};
use crate::dictionary_builder::DictionaryUtf8Builder;
use crate::event::Event;
use crate::primitive_builder::{BoolBuilder, PrimitiveBuilder};
use crate::schema::{select_dictionary_kind, spec_dictionary_kind, GenericDataType, GenericField};
use crate::sink::{ArrayBuilder, EventSink, StripOuterSequenceSink, StripState};
use crate::utf8_builder::Utf8Builder;

verus! {

/// One accumulating builder per physical layout this library builds:
/// the dispatch table of the write side.
#[derive(Debug)]
pub enum TypedBuilder {
    /// Counts rows of a null column.
    Null(usize),
    Bool(BoolBuilder),
    I8(PrimitiveBuilder<i8>),
    I16(PrimitiveBuilder<i16>),
    I32(PrimitiveBuilder<i32>),
    I64(PrimitiveBuilder<i64>),
    U8(PrimitiveBuilder<u8>),
    U16(PrimitiveBuilder<u16>),
    U32(PrimitiveBuilder<u32>),
    U64(PrimitiveBuilder<u64>),
    Date32(PrimitiveBuilder<i32>),
    Date64(PrimitiveBuilder<i64>),
    Time32(TimeUnit, PrimitiveBuilder<i32>),
    Time64(TimeUnit, PrimitiveBuilder<i64>),
    Utf8(Utf8Builder<i32>),
    LargeUtf8(Utf8Builder<i64>),
    DictionaryUtf8(DictionaryUtf8Builder<i32>),
    DictionaryLargeUtf8(DictionaryUtf8Builder<i64>),
}

impl TypedBuilder {
    pub open spec fn wf(self) -> bool {
        match self {
            TypedBuilder::Null(_) => true,
            TypedBuilder::Bool(b) => b.wf(),
            TypedBuilder::I8(b) => b.wf(),
            TypedBuilder::I16(b) => b.wf(),
            TypedBuilder::I32(b) => b.wf(),
            TypedBuilder::I64(b) => b.wf(),
            TypedBuilder::U8(b) => b.wf(),
            TypedBuilder::U16(b) => b.wf(),
            TypedBuilder::U32(b) => b.wf(),
            TypedBuilder::U64(b) => b.wf(),
            TypedBuilder::Date32(b) => b.wf(),
            TypedBuilder::Date64(b) => b.wf(),
            TypedBuilder::Time32(_, b) => b.wf(),
            TypedBuilder::Time64(_, b) => b.wf(),
            TypedBuilder::Utf8(b) => b.wf(),
            TypedBuilder::LargeUtf8(b) => b.wf(),
            TypedBuilder::DictionaryUtf8(b) => b.wf(),
            TypedBuilder::DictionaryLargeUtf8(b) => b.wf(),
        }
    }

    /// The number of rows accumulated so far.
    pub open spec fn spec_rows(self) -> int {
        match self {
            TypedBuilder::Null(n) => n as int,
            TypedBuilder::Bool(b) => b.spec_rows(),
            TypedBuilder::I8(b) => b.spec_rows(),
            TypedBuilder::I16(b) => b.spec_rows(),
            TypedBuilder::I32(b) => b.spec_rows(),
            TypedBuilder::I64(b) => b.spec_rows(),
            TypedBuilder::U8(b) => b.spec_rows(),
            TypedBuilder::U16(b) => b.spec_rows(),
            TypedBuilder::U32(b) => b.spec_rows(),
            TypedBuilder::U64(b) => b.spec_rows(),
            TypedBuilder::Date32(b) => b.spec_rows(),
            TypedBuilder::Date64(b) => b.spec_rows(),
            TypedBuilder::Time32(_, b) => b.spec_rows(),
            TypedBuilder::Time64(_, b) => b.spec_rows(),
            TypedBuilder::Utf8(b) => b.spec_rows(),
            TypedBuilder::LargeUtf8(b) => b.spec_rows(),
            TypedBuilder::DictionaryUtf8(b) => b.spec_rows(),
            TypedBuilder::DictionaryLargeUtf8(b) => b.spec_rows(),
        }
    }
}

/// Whether the builder's physical kind has any use for the event: a
/// present-option marker is always taken (the following value carries the
/// row), null and default entries fit every kind (null only a nullable
/// column), and each value event fits exactly the kinds that store it.
/// Start or end markers, item markers and variant markers never fit a
/// flat builder.
pub open spec fn spec_event_fits(b: TypedBuilder, e: Event) -> bool {
    match e {
        Event::Present => true,
        Event::Null => true,
        Event::Default => true,
        Event::Bool(_) => b is Bool,
        Event::I8(_) => b is I8,
        Event::I16(_) => b is I16,
        Event::I32(_) => b is I32 || b is Date32 || b is Time32,
        Event::I64(_) => b is I64 || b is Date64 || b is Time64,
        Event::U8(_) => b is U8,
        Event::U16(_) => b is U16,
        Event::U32(_) => b is U32,
        Event::U64(_) => b is U64,
        Event::Str(_) => b is Utf8 || b is LargeUtf8 || b is DictionaryUtf8
            || b is DictionaryLargeUtf8,
        _ => false,
    }
}


/// Whether a builder of any kind keeps a validity bitmap — that is,
/// whether its column is nullable.
pub open spec fn spec_builder_nullable(b: TypedBuilder) -> bool {
    match b {
        TypedBuilder::Null(_) => true,
        TypedBuilder::Bool(x) => x.validity is Some,
        TypedBuilder::I8(x) => x.validity is Some,
        TypedBuilder::I16(x) => x.validity is Some,
        TypedBuilder::I32(x) => x.validity is Some,
        TypedBuilder::I64(x) => x.validity is Some,
        TypedBuilder::U8(x) => x.validity is Some,
        TypedBuilder::U16(x) => x.validity is Some,
        TypedBuilder::U32(x) => x.validity is Some,
        TypedBuilder::U64(x) => x.validity is Some,
        TypedBuilder::Date32(x) => x.validity is Some,
        TypedBuilder::Date64(x) => x.validity is Some,
        TypedBuilder::Time32(_, x) => x.validity is Some,
        TypedBuilder::Time64(_, x) => x.validity is Some,
        TypedBuilder::Utf8(x) => x.validity is Some,
        TypedBuilder::LargeUtf8(x) => x.validity is Some,
        TypedBuilder::DictionaryUtf8(x) => x.key_validity is Some,
        TypedBuilder::DictionaryLargeUtf8(x) => x.key_validity is Some,
    }
}

/// The exact effect of one null or default entry on a fixed-width
/// builder: one more row, marked invalid where a bitmap exists, holding
/// zero, with every earlier row untouched.
pub open spec fn prim_after_blank<T: crate::integer::Integer>(
    x: crate::primitive_builder::PrimitiveBuilder<T>,
    y: crate::primitive_builder::PrimitiveBuilder<T>,
) -> bool {
    &&& y.spec_rows() == x.spec_rows() + 1
    &&& (y.validity is Some <==> x.validity is Some)
    &&& (x.validity is Some ==> !y.spec_is_valid(x.spec_rows()))
    &&& y.spec_value(x.spec_rows()).as_int() == 0
    &&& forall|i: int|
        0 <= i < x.spec_rows() ==> y.spec_is_valid(i) == x.spec_is_valid(i) && y.spec_value(i)
            == x.spec_value(i)
}

/// The exact effect of one value on a fixed-width builder: one more row,
/// marked valid, holding the value as given, with every earlier row
/// untouched.
pub open spec fn prim_after_value<T: crate::integer::Integer>(
    x: crate::primitive_builder::PrimitiveBuilder<T>,
    y: crate::primitive_builder::PrimitiveBuilder<T>,
    v: T,
) -> bool {
    &&& y.spec_rows() == x.spec_rows() + 1
    &&& (y.validity is Some <==> x.validity is Some)
    &&& y.spec_is_valid(x.spec_rows())
    &&& y.spec_value(x.spec_rows()) == v
    &&& forall|i: int|
        0 <= i < x.spec_rows() ==> y.spec_is_valid(i) == x.spec_is_valid(i) && y.spec_value(i)
            == x.spec_value(i)
}

pub open spec fn bool_after_blank(
    x: crate::primitive_builder::BoolBuilder,
    y: crate::primitive_builder::BoolBuilder,
) -> bool {
    &&& y.spec_rows() == x.spec_rows() + 1
    &&& (y.validity is Some <==> x.validity is Some)
    &&& (x.validity is Some ==> !y.spec_is_valid(x.spec_rows()))
    &&& y.spec_value(x.spec_rows()) == false
    &&& forall|i: int|
        0 <= i < x.spec_rows() ==> y.spec_is_valid(i) == x.spec_is_valid(i) && y.spec_value(i)
            == x.spec_value(i)
}

pub open spec fn bool_after_value(
    x: crate::primitive_builder::BoolBuilder,
    y: crate::primitive_builder::BoolBuilder,
    v: bool,
) -> bool {
    &&& y.spec_rows() == x.spec_rows() + 1
    &&& (y.validity is Some <==> x.validity is Some)
    &&& y.spec_is_valid(x.spec_rows())
    &&& y.spec_value(x.spec_rows()) == v
    &&& forall|i: int|
        0 <= i < x.spec_rows() ==> y.spec_is_valid(i) == x.spec_is_valid(i) && y.spec_value(i)
            == x.spec_value(i)
}

/// The exact effect of one null or default entry on a string builder: one
/// more zero-length row, marked invalid where a bitmap exists, the value
/// bytes untouched.
pub open spec fn utf8_after_blank<O: crate::offsets::Offset>(
    x: Utf8Builder<O>,
    y: Utf8Builder<O>,
) -> bool {
    &&& y.spec_rows() == x.spec_rows() + 1
    &&& (y.validity is Some <==> x.validity is Some)
    &&& (x.validity is Some ==> !y.spec_is_valid(x.spec_rows()))
    &&& y.spec_row_data(x.spec_rows()) == Seq::<u8>::empty()
    &&& y.buffer@ == x.buffer@
    &&& forall|i: int|
        0 <= i < x.spec_rows() ==> y.spec_is_valid(i) == x.spec_is_valid(i) && y.spec_row_data(i)
            == x.spec_row_data(i)
}

/// The exact effect of one string value on a string builder: one more
/// valid row holding the value's UTF-8 bytes, earlier rows untouched.
pub open spec fn utf8_after_str<O: crate::offsets::Offset>(
    x: Utf8Builder<O>,
    y: Utf8Builder<O>,
    s: Seq<char>,
) -> bool {
    &&& y.spec_rows() == x.spec_rows() + 1
    &&& (y.validity is Some <==> x.validity is Some)
    &&& y.spec_is_valid(x.spec_rows())
    &&& y.spec_row_data(x.spec_rows()) == vstd::utf8::encode_utf8(s)
    &&& forall|i: int|
        0 <= i < x.spec_rows() ==> y.spec_is_valid(i) == x.spec_is_valid(i) && y.spec_row_data(i)
            == x.spec_row_data(i)
}

pub open spec fn dict_after_blank<O: crate::offsets::Offset>(
    x: DictionaryUtf8Builder<O>,
    y: DictionaryUtf8Builder<O>,
) -> bool {
    &&& y.spec_rows() == x.spec_rows() + 1
    &&& y.key_kind == x.key_kind
    &&& (y.key_validity is Some <==> x.key_validity is Some)
    &&& (x.key_validity is Some ==> !y.spec_is_valid(x.spec_rows()))
    &&& y.table_view() == x.table_view()
    &&& y.values == x.values
    &&& forall|i: int|
        0 <= i < x.spec_rows() ==> y.spec_is_valid(i) == x.spec_is_valid(i) && y.spec_key(i)
            == x.spec_key(i)
}

/// The exact effect of one string value on a dictionary builder: one more
/// valid row keyed by the value's existing first position in the table,
/// or by the table's length with the value newly entered.
pub open spec fn dict_after_str<O: crate::offsets::Offset>(
    x: DictionaryUtf8Builder<O>,
    y: DictionaryUtf8Builder<O>,
    s: Seq<char>,
) -> bool {
    &&& y.spec_rows() == x.spec_rows() + 1
    &&& y.key_kind == x.key_kind
    &&& (y.key_validity is Some <==> x.key_validity is Some)
    &&& y.spec_is_valid(x.spec_rows())
    &&& forall|i: int|
        0 <= i < x.spec_rows() ==> y.spec_is_valid(i) == x.spec_is_valid(i) && y.spec_key(i)
            == x.spec_key(i)
    &&& match crate::dictionary_builder::spec_lookup(x.table_view(), s) {
        Some(j) => y.spec_key(x.spec_rows()) == j && y.table_view() == x.table_view()
            && y.values == x.values,
        None => y.spec_key(x.spec_rows()) == x.table_view().len() && y.table_view()
            == x.table_view().push(s),
    }
}

/// The transition relation of the dispatching sink: exactly what a
/// successful `accept` of each event does to each builder kind.
pub open spec fn spec_accept_ok(b: TypedBuilder, e: Event, b2: TypedBuilder) -> bool {
    match e {
        Event::Present => b2 == b,
        Event::Null | Event::Default => match (b, b2) {
            (TypedBuilder::Null(n), TypedBuilder::Null(m)) => m == n + 1,
            (TypedBuilder::Bool(x), TypedBuilder::Bool(y)) => bool_after_blank(x, y),
            (TypedBuilder::I8(x), TypedBuilder::I8(y)) => prim_after_blank(x, y),
            (TypedBuilder::I16(x), TypedBuilder::I16(y)) => prim_after_blank(x, y),
            (TypedBuilder::I32(x), TypedBuilder::I32(y)) => prim_after_blank(x, y),
            (TypedBuilder::I64(x), TypedBuilder::I64(y)) => prim_after_blank(x, y),
            (TypedBuilder::U8(x), TypedBuilder::U8(y)) => prim_after_blank(x, y),
            (TypedBuilder::U16(x), TypedBuilder::U16(y)) => prim_after_blank(x, y),
            (TypedBuilder::U32(x), TypedBuilder::U32(y)) => prim_after_blank(x, y),
            (TypedBuilder::U64(x), TypedBuilder::U64(y)) => prim_after_blank(x, y),
            (TypedBuilder::Date32(x), TypedBuilder::Date32(y)) => prim_after_blank(x, y),
            (TypedBuilder::Date64(x), TypedBuilder::Date64(y)) => prim_after_blank(x, y),
            (TypedBuilder::Time32(u, x), TypedBuilder::Time32(u2, y)) => u2 == u
                && prim_after_blank(x, y),
            (TypedBuilder::Time64(u, x), TypedBuilder::Time64(u2, y)) => u2 == u
                && prim_after_blank(x, y),
            (TypedBuilder::Utf8(x), TypedBuilder::Utf8(y)) => utf8_after_blank(x, y),
            (TypedBuilder::LargeUtf8(x), TypedBuilder::LargeUtf8(y)) => utf8_after_blank(x, y),
            (TypedBuilder::DictionaryUtf8(x), TypedBuilder::DictionaryUtf8(y)) => dict_after_blank(
                x,
                y,
            ),
            (
                TypedBuilder::DictionaryLargeUtf8(x),
                TypedBuilder::DictionaryLargeUtf8(y),
            ) => dict_after_blank(x, y),
            _ => false,
        },
        Event::Bool(v) => match (b, b2) {
            (TypedBuilder::Bool(x), TypedBuilder::Bool(y)) => bool_after_value(x, y, v),
            _ => false,
        },
        Event::I8(v) => match (b, b2) {
            (TypedBuilder::I8(x), TypedBuilder::I8(y)) => prim_after_value(x, y, v),
            _ => false,
        },
        Event::I16(v) => match (b, b2) {
            (TypedBuilder::I16(x), TypedBuilder::I16(y)) => prim_after_value(x, y, v),
            _ => false,
        },
        Event::I32(v) => match (b, b2) {
            (TypedBuilder::I32(x), TypedBuilder::I32(y)) => prim_after_value(x, y, v),
            (TypedBuilder::Date32(x), TypedBuilder::Date32(y)) => prim_after_value(x, y, v),
            (TypedBuilder::Time32(u, x), TypedBuilder::Time32(u2, y)) => u2 == u
                && prim_after_value(x, y, v),
            _ => false,
        },
        Event::I64(v) => match (b, b2) {
            (TypedBuilder::I64(x), TypedBuilder::I64(y)) => prim_after_value(x, y, v),
            (TypedBuilder::Date64(x), TypedBuilder::Date64(y)) => prim_after_value(x, y, v),
            (TypedBuilder::Time64(u, x), TypedBuilder::Time64(u2, y)) => u2 == u
                && prim_after_value(x, y, v),
            _ => false,
        },
        Event::U8(v) => match (b, b2) {
            (TypedBuilder::U8(x), TypedBuilder::U8(y)) => prim_after_value(x, y, v),
            _ => false,
        },
        Event::U16(v) => match (b, b2) {
            (TypedBuilder::U16(x), TypedBuilder::U16(y)) => prim_after_value(x, y, v),
            _ => false,
        },
        Event::U32(v) => match (b, b2) {
            (TypedBuilder::U32(x), TypedBuilder::U32(y)) => prim_after_value(x, y, v),
            _ => false,
        },
        Event::U64(v) => match (b, b2) {
            (TypedBuilder::U64(x), TypedBuilder::U64(y)) => prim_after_value(x, y, v),
            _ => false,
        },
        Event::Str(s) => match (b, b2) {
            (TypedBuilder::Utf8(x), TypedBuilder::Utf8(y)) => utf8_after_str(x, y, s@),
            (TypedBuilder::LargeUtf8(x), TypedBuilder::LargeUtf8(y)) => utf8_after_str(x, y, s@),
            (TypedBuilder::DictionaryUtf8(x), TypedBuilder::DictionaryUtf8(y)) => dict_after_str(
                x,
                y,
                s@,
            ),
            (
                TypedBuilder::DictionaryLargeUtf8(x),
                TypedBuilder::DictionaryLargeUtf8(y),
            ) => dict_after_str(x, y, s@),
            _ => false,
        },
        _ => false,
    }
}


/// Whether the builder is the one the field calls for: the same physical
/// kind as the field's logical type, the field's nullability, the time
/// unit kept, and — for a dictionary — the key width and value offset
/// width its two children resolve to.
pub open spec fn spec_builder_matches_field(b: TypedBuilder, field: GenericField) -> bool {
    match field.data_type {
        GenericDataType::Null => b is Null,
        GenericDataType::Bool => b matches TypedBuilder::Bool(x) && (x.validity is Some
            <==> field.nullable),
        GenericDataType::I8 => b matches TypedBuilder::I8(x) && (x.validity is Some
            <==> field.nullable),
        GenericDataType::I16 => b matches TypedBuilder::I16(x) && (x.validity is Some
            <==> field.nullable),
        GenericDataType::I32 => b matches TypedBuilder::I32(x) && (x.validity is Some
            <==> field.nullable),
        GenericDataType::I64 => b matches TypedBuilder::I64(x) && (x.validity is Some
            <==> field.nullable),
        GenericDataType::U8 => b matches TypedBuilder::U8(x) && (x.validity is Some
            <==> field.nullable),
        GenericDataType::U16 => b matches TypedBuilder::U16(x) && (x.validity is Some
            <==> field.nullable),
        GenericDataType::U32 => b matches TypedBuilder::U32(x) && (x.validity is Some
            <==> field.nullable),
        GenericDataType::U64 => b matches TypedBuilder::U64(x) && (x.validity is Some
            <==> field.nullable),
        GenericDataType::Date32 => b matches TypedBuilder::Date32(x) && (x.validity is Some
            <==> field.nullable),
        GenericDataType::Date64 => b matches TypedBuilder::Date64(x) && (x.validity is Some
            <==> field.nullable),
        GenericDataType::Time32(u) => b matches TypedBuilder::Time32(u2, x) && u2 == u && (
        x.validity is Some <==> field.nullable),
        GenericDataType::Time64(u) => b matches TypedBuilder::Time64(u2, x) && u2 == u && (
        x.validity is Some <==> field.nullable),
        GenericDataType::Utf8 => b matches TypedBuilder::Utf8(x) && (x.validity is Some
            <==> field.nullable),
        GenericDataType::LargeUtf8 => b matches TypedBuilder::LargeUtf8(x) && (
        x.validity is Some <==> field.nullable),
        GenericDataType::Dictionary => field.children@.len() == 2 && match spec_dictionary_kind(
            field.children@[0].data_type,
            field.children@[1].data_type,
        ) {
            Ok((kind, large)) => if large {
                b matches TypedBuilder::DictionaryLargeUtf8(x) && x.key_kind == kind && (
                x.key_validity is Some <==> field.nullable)
            } else {
                b matches TypedBuilder::DictionaryUtf8(x) && x.key_kind == kind && (
                x.key_validity is Some <==> field.nullable)
            },
            Err(_) => false,
        },
        _ => false,
    }
}

/// Whether a dictionary builder still has an empty value table — the
/// freshly constructed state, before any value was entered.
pub open spec fn spec_table_empty(b: TypedBuilder) -> bool {
    match b {
        TypedBuilder::DictionaryUtf8(x) => x.table_view().len() == 0,
        TypedBuilder::DictionaryLargeUtf8(x) => x.table_view().len() == 0,
        _ => true,
    }
}

/// The exact error one `accept` of the event answers with, or nothing
/// where success is owed: an event the kind has no use for is an
/// event-state error; an explicit null on a non-nullable column is a
/// schema error; a string past the offset range or the key space — and a
/// null column past the row counter — is an overflow error.
pub open spec fn spec_accept_err(b: TypedBuilder, e: Event) -> Option<Error> {
    if !spec_event_fits(b, e) {
        Some(Error::EventState)
    } else {
        match e {
            Event::Null => match b {
                TypedBuilder::Null(n) => if n == usize::MAX {
                    Some(Error::Overflow((usize::MAX + 1) as i128))
                } else {
                    None
                },
                _ => if !spec_builder_nullable(b) {
                    Some(Error::Schema)
                } else {
                    None
                },
            },
            Event::Default => match b {
                TypedBuilder::Null(n) => if n == usize::MAX {
                    Some(Error::Overflow((usize::MAX + 1) as i128))
                } else {
                    None
                },
                _ => None,
            },
            Event::Str(s) => spec_str_err(b, s@),
            _ => None,
        }
    }
}

/// The exact error a string value answers with on a string or dictionary
/// column, or nothing where it is taken.
pub open spec fn spec_str_err(b: TypedBuilder, s: Seq<char>) -> Option<Error> {
    match b {
        TypedBuilder::Utf8(x) => if x.buffer@.len() + vstd::utf8::encode_utf8(s).len()
            > i32::MAX {
            Some(Error::Overflow((x.buffer@.len() + vstd::utf8::encode_utf8(s).len()) as i128))
        } else {
            None
        },
        TypedBuilder::LargeUtf8(x) => if x.buffer@.len() + vstd::utf8::encode_utf8(s).len()
            > i64::MAX {
            Some(Error::Overflow((x.buffer@.len() + vstd::utf8::encode_utf8(s).len()) as i128))
        } else {
            None
        },
        TypedBuilder::DictionaryUtf8(x) => match crate::dictionary_builder::spec_lookup(
            x.table_view(),
            s,
        ) {
            Some(_) => None,
            None => if x.table_view().len() > x.key_kind.max_key() {
                Some(Error::Overflow(x.table_view().len() as i128))
            } else if x.values.buffer@.len() + vstd::utf8::encode_utf8(s).len() > i32::MAX {
                Some(Error::Overflow(
                    (x.values.buffer@.len() + vstd::utf8::encode_utf8(s).len()) as i128,
                ))
            } else {
                None
            },
        },
        TypedBuilder::DictionaryLargeUtf8(x) => match crate::dictionary_builder::spec_lookup(
            x.table_view(),
            s,
        ) {
            Some(_) => None,
            None => if x.table_view().len() > x.key_kind.max_key() {
                Some(Error::Overflow(x.table_view().len() as i128))
            } else if x.values.buffer@.len() + vstd::utf8::encode_utf8(s).len() > i64::MAX {
                Some(Error::Overflow(
                    (x.values.buffer@.len() + vstd::utf8::encode_utf8(s).len()) as i128,
                ))
            } else {
                None
            },
        },
        _ => None,
    }
}

/// Whether a string event's byte count is machine-representable; every
/// string that exists in memory satisfies this.
pub open spec fn spec_event_bytes_bounded(e: Event) -> bool {
    match e {
        Event::Str(s) => vstd::utf8::encode_utf8(s@).len() <= usize::MAX,
        _ => true,
    }
}

/// The write side's dispatching sink: events arrive generically and land
/// in the one typed builder. The ghost history `sunk()` records the
/// events taken in.
pub struct DynamicArrayBuilder {
    pub builder: TypedBuilder,
    pub received: Ghost<Seq<Event>>,
}

impl DynamicArrayBuilder {
    pub open spec fn wf(self) -> bool {
        self.builder.wf()
    }

    pub fn new(builder: TypedBuilder) -> (r: Self)
        ensures
            r.builder == builder,
            r.sunk() == Seq::<Event>::empty(),
    {
        DynamicArrayBuilder { builder, received: Ghost(Seq::empty()) }
    }
}

impl EventSink for DynamicArrayBuilder {
    open spec fn sunk(&self) -> Seq<Event> {
        self.received@
    }

    open spec fn sink_wf(&self) -> bool {
        self.wf()
    }

    open spec fn accept_rel(self, event: Event, post: Self) -> bool {
        spec_accept_ok(self.builder, event, post.builder)
    }

    /// An event lands in the typed builder. One that its physical kind
    /// has no use for is an event-state error; a string that would
    /// overflow the offset or key width is an overflow error; an
    /// explicit null on a non-nullable column is a schema error. A
    /// failed call leaves the builder unchanged; a successful one grows
    /// it by one row (a present-option marker by none).
    #[verifier::rlimit(100)]
    fn accept(&mut self, event: Event) -> (r: Result<(), Error>)
        ensures
            r is Ok ==> final(self).sunk() == old(self).sunk().push(event),
            r is Err ==> final(self).builder == old(self).builder,
            r is Ok ==> final(self).builder.spec_rows() == old(self).builder.spec_rows() + (
            if event is Present {
                0int
            } else {
                1int
            }),
            r is Ok ==> spec_accept_ok(old(self).builder, event, final(self).builder),
            r is Ok ==> old(self).accept_rel(event, *final(self)),
            r is Ok <==> spec_accept_err(old(self).builder, event) is None,
            spec_event_bytes_bounded(event) && r is Err ==> Some(r->Err_0) == spec_accept_err(
                old(self).builder,
                event,
            ),
    {
        let r: Result<(), Error> = match (&mut self.builder, &event) {
            (_, Event::Present) => Ok(()),
            (TypedBuilder::Null(n), Event::Null) => {
                if *n < usize::MAX {
                    *n = *n + 1;
                    Ok(())
                } else {
                    Err(Error::Overflow(usize::MAX as i128 + 1))
                }
            },
            (TypedBuilder::Null(n), Event::Default) => {
                if *n < usize::MAX {
                    *n = *n + 1;
                    Ok(())
                } else {
                    Err(Error::Overflow(usize::MAX as i128 + 1))
                }
            },
            (TypedBuilder::Bool(b), Event::Null) => b.serialize_none(),
            (TypedBuilder::Bool(b), Event::Default) => b.serialize_default(),
            (TypedBuilder::Bool(b), Event::Bool(v)) => b.serialize_value(*v),
            (TypedBuilder::I8(b), Event::Null) => b.serialize_none(),
            (TypedBuilder::I8(b), Event::Default) => b.serialize_default(),
            (TypedBuilder::I8(b), Event::I8(v)) => b.serialize_value(*v),
            (TypedBuilder::I16(b), Event::Null) => b.serialize_none(),
            (TypedBuilder::I16(b), Event::Default) => b.serialize_default(),
            (TypedBuilder::I16(b), Event::I16(v)) => b.serialize_value(*v),
            (TypedBuilder::I32(b), Event::Null) => b.serialize_none(),
            (TypedBuilder::I32(b), Event::Default) => b.serialize_default(),
            (TypedBuilder::I32(b), Event::I32(v)) => b.serialize_value(*v),
            (TypedBuilder::I64(b), Event::Null) => b.serialize_none(),
            (TypedBuilder::I64(b), Event::Default) => b.serialize_default(),
            (TypedBuilder::I64(b), Event::I64(v)) => b.serialize_value(*v),
            (TypedBuilder::U8(b), Event::Null) => b.serialize_none(),
            (TypedBuilder::U8(b), Event::Default) => b.serialize_default(),
            (TypedBuilder::U8(b), Event::U8(v)) => b.serialize_value(*v),
            (TypedBuilder::U16(b), Event::Null) => b.serialize_none(),
            (TypedBuilder::U16(b), Event::Default) => b.serialize_default(),
            (TypedBuilder::U16(b), Event::U16(v)) => b.serialize_value(*v),
            (TypedBuilder::U32(b), Event::Null) => b.serialize_none(),
            (TypedBuilder::U32(b), Event::Default) => b.serialize_default(),
            (TypedBuilder::U32(b), Event::U32(v)) => b.serialize_value(*v),
            (TypedBuilder::U64(b), Event::Null) => b.serialize_none(),
            (TypedBuilder::U64(b), Event::Default) => b.serialize_default(),
            (TypedBuilder::U64(b), Event::U64(v)) => b.serialize_value(*v),
            (TypedBuilder::Date32(b), Event::Null) => b.serialize_none(),
            (TypedBuilder::Date32(b), Event::Default) => b.serialize_default(),
            (TypedBuilder::Date32(b), Event::I32(v)) => b.serialize_value(*v),
            (TypedBuilder::Date64(b), Event::Null) => b.serialize_none(),
            (TypedBuilder::Date64(b), Event::Default) => b.serialize_default(),
            (TypedBuilder::Date64(b), Event::I64(v)) => b.serialize_value(*v),
            (TypedBuilder::Time32(_, b), Event::Null) => b.serialize_none(),
            (TypedBuilder::Time32(_, b), Event::Default) => b.serialize_default(),
            (TypedBuilder::Time32(_, b), Event::I32(v)) => b.serialize_value(*v),
            (TypedBuilder::Time64(_, b), Event::Null) => b.serialize_none(),
            (TypedBuilder::Time64(_, b), Event::Default) => b.serialize_default(),
            (TypedBuilder::Time64(_, b), Event::I64(v)) => b.serialize_value(*v),
            (TypedBuilder::Utf8(b), Event::Null) => b.serialize_none(),
            (TypedBuilder::Utf8(b), Event::Default) => b.serialize_default(),
            (TypedBuilder::Utf8(b), Event::Str(s)) => b.serialize_str(s.as_str()),
            (TypedBuilder::LargeUtf8(b), Event::Null) => b.serialize_none(),
            (TypedBuilder::LargeUtf8(b), Event::Default) => b.serialize_default(),
            (TypedBuilder::LargeUtf8(b), Event::Str(s)) => b.serialize_str(s.as_str()),
            (TypedBuilder::DictionaryUtf8(b), Event::Null) => b.serialize_none(),
            (TypedBuilder::DictionaryUtf8(b), Event::Default) => b.serialize_default(),
            (TypedBuilder::DictionaryUtf8(b), Event::Str(s)) => b.serialize_str(s.as_str()),
            (TypedBuilder::DictionaryLargeUtf8(b), Event::Null) => b.serialize_none(),
            (TypedBuilder::DictionaryLargeUtf8(b), Event::Default) => b.serialize_default(),
            (TypedBuilder::DictionaryLargeUtf8(b), Event::Str(s)) => b.serialize_str(s.as_str()),
            (_, _) => Err(Error::EventState),
        };
        if r.is_ok() {
            proof {
                self.received@ = self.received@.push(event);
            }
        }
        r
    }

    fn finish(&mut self) -> (r: Result<(), Error>)
        ensures
            *final(self) == *old(self),
    {
        Ok(())
    }
}

impl ArrayBuilder<Array> for DynamicArrayBuilder {
    open spec fn builder_wf(&self) -> bool {
        self.wf()
    }

    /// Yields the finished neutral array of the builder's physical kind
    /// and resets the per-row state (a dictionary keeps its key mapping).
    fn build_array(&mut self) -> (r: Result<Array, Error>)
        ensures
            final(self).wf(),
            r is Ok,
            r matches Ok(a) ==> spec_built(old(self).builder, a),
            final(self).builder.spec_rows() == 0,
    {
        let arr = match &mut self.builder {
            TypedBuilder::Null(n) => {
                let len = *n;
                *n = 0;
                Array::Null(len)
            },
            TypedBuilder::Bool(b) => Array::Boolean(b.build_array()),
            TypedBuilder::I8(b) => Array::Int8(b.build_array()),
            TypedBuilder::I16(b) => Array::Int16(b.build_array()),
            TypedBuilder::I32(b) => Array::Int32(b.build_array()),
            TypedBuilder::I64(b) => Array::Int64(b.build_array()),
            TypedBuilder::U8(b) => Array::UInt8(b.build_array()),
            TypedBuilder::U16(b) => Array::UInt16(b.build_array()),
            TypedBuilder::U32(b) => Array::UInt32(b.build_array()),
            TypedBuilder::U64(b) => Array::UInt64(b.build_array()),
            TypedBuilder::Date32(b) => Array::Date32(b.build_array()),
            TypedBuilder::Date64(b) => Array::Date64(b.build_array()),
            TypedBuilder::Time32(unit, b) => Array::Time32(*unit, b.build_array()),
            TypedBuilder::Time64(unit, b) => Array::Time64(*unit, b.build_array()),
            TypedBuilder::Utf8(b) => Array::Utf8(b.build_array()),
            TypedBuilder::LargeUtf8(b) => Array::LargeUtf8(b.build_array()),
            TypedBuilder::DictionaryUtf8(b) => {
                let (keys, values) = b.build_array();
                Array::Dictionary(
                    crate::array::DictionaryArray {
                        keys,
                        values: crate::array::DictionaryValues::Utf8(values),
                    },
                )
            },
            TypedBuilder::DictionaryLargeUtf8(b) => {
                let (keys, values) = b.build_array();
                Array::Dictionary(
                    crate::array::DictionaryArray {
                        keys,
                        values: crate::array::DictionaryValues::LargeUtf8(values),
                    },
                )
            },
        };
        Ok(arr)
    }
}


/// The finished fixed-width column reproduces the builder's rows: same
/// values, same validity.
pub open spec fn prim_built<T: crate::integer::Integer>(
    x: crate::primitive_builder::PrimitiveBuilder<T>,
    a: crate::array::PrimitiveArray<T>,
) -> bool {
    &&& a.wf()
    &&& a.values@ == x.values@
    &&& (a.validity is Some <==> x.validity is Some)
    &&& forall|i: int| 0 <= i < x.spec_rows() ==> a.spec_is_valid(i) == x.spec_is_valid(i)
}

pub open spec fn bool_built(
    x: crate::primitive_builder::BoolBuilder,
    a: crate::array::BooleanArray,
) -> bool {
    &&& a.wf()
    &&& a.len == x.spec_rows()
    &&& (a.validity is Some <==> x.validity is Some)
    &&& forall|i: int|
        0 <= i < x.spec_rows() ==> a.spec_is_valid(i) == x.spec_is_valid(i) && a.spec_value(i)
            == x.spec_value(i)
}

pub open spec fn utf8_built<O: crate::offsets::Offset>(
    x: Utf8Builder<O>,
    a: crate::array::Utf8Array<O>,
) -> bool {
    &&& a.wf()
    &&& a.spec_rows() == x.spec_rows()
    &&& a.offset_ints() == x.offsets.view_ints()
    &&& a.data@ == x.buffer@
    &&& (a.validity is Some <==> x.validity is Some)
    &&& forall|i: int|
        0 <= i < x.spec_rows() ==> a.spec_is_valid(i) == x.spec_is_valid(i) && a.spec_row_data(i)
            == x.spec_row_data(i)
}

pub open spec fn dict_built<O: crate::offsets::Offset>(
    x: DictionaryUtf8Builder<O>,
    a: crate::array::DictionaryArray,
    large: bool,
) -> bool {
    &&& crate::dictionary_builder::keys_match(a.keys, x)
    &&& match a.values {
        crate::array::DictionaryValues::Utf8(v) => !large && v.wf() && v.spec_rows()
            == x.table_view().len() && forall|i: int|
            0 <= i < x.table_view().len() ==> v.spec_is_valid(i) && v.spec_row_data(i)
                == vstd::utf8::encode_utf8(#[trigger] x.table_view()[i]),
        crate::array::DictionaryValues::LargeUtf8(v) => large && v.wf() && v.spec_rows()
            == x.table_view().len() && forall|i: int|
            0 <= i < x.table_view().len() ==> v.spec_is_valid(i) && v.spec_row_data(i)
                == vstd::utf8::encode_utf8(#[trigger] x.table_view()[i]),
    }
}

/// A finished array holds exactly the rows its builder had accumulated.
pub proof fn lemma_built_len(b: TypedBuilder, a: Array)
    requires
        spec_built(b, a),
    ensures
        crate::array::spec_array_len(a) == b.spec_rows(),
{
}

/// The finished array reproduces the builder's column, kind for kind.
pub open spec fn spec_built(b: TypedBuilder, a: Array) -> bool {
    match (b, a) {
        (TypedBuilder::Null(n), Array::Null(m)) => m == n,
        (TypedBuilder::Bool(x), Array::Boolean(y)) => bool_built(x, y),
        (TypedBuilder::I8(x), Array::Int8(y)) => prim_built(x, y),
        (TypedBuilder::I16(x), Array::Int16(y)) => prim_built(x, y),
        (TypedBuilder::I32(x), Array::Int32(y)) => prim_built(x, y),
        (TypedBuilder::I64(x), Array::Int64(y)) => prim_built(x, y),
        (TypedBuilder::U8(x), Array::UInt8(y)) => prim_built(x, y),
        (TypedBuilder::U16(x), Array::UInt16(y)) => prim_built(x, y),
        (TypedBuilder::U32(x), Array::UInt32(y)) => prim_built(x, y),
        (TypedBuilder::U64(x), Array::UInt64(y)) => prim_built(x, y),
        (TypedBuilder::Date32(x), Array::Date32(y)) => prim_built(x, y),
        (TypedBuilder::Date64(x), Array::Date64(y)) => prim_built(x, y),
        (TypedBuilder::Time32(u, x), Array::Time32(u2, y)) => u2 == u && prim_built(x, y),
        (TypedBuilder::Time64(u, x), Array::Time64(u2, y)) => u2 == u && prim_built(x, y),
        (TypedBuilder::Utf8(x), Array::Utf8(y)) => utf8_built(x, y),
        (TypedBuilder::LargeUtf8(x), Array::LargeUtf8(y)) => utf8_built(x, y),
        (TypedBuilder::DictionaryUtf8(x), Array::Dictionary(y)) => dict_built(x, y, false),
        (TypedBuilder::DictionaryLargeUtf8(x), Array::Dictionary(y)) => dict_built(x, y, true),
        _ => false,
    }
}

/// Whether this library's write side can build the field's logical type:
/// the flat kinds, and a dictionary whose two children resolve to a
/// supported key/value pairing.
pub open spec fn spec_buildable(field: GenericField) -> bool {
    match field.data_type {
        GenericDataType::Null => true,
        GenericDataType::Bool => true,
        GenericDataType::I8 => true,
        GenericDataType::I16 => true,
        GenericDataType::I32 => true,
        GenericDataType::I64 => true,
        GenericDataType::U8 => true,
        GenericDataType::U16 => true,
        GenericDataType::U32 => true,
        GenericDataType::U64 => true,
        GenericDataType::Utf8 => true,
        GenericDataType::LargeUtf8 => true,
        GenericDataType::Date32 => true,
        GenericDataType::Date64 => true,
        GenericDataType::Time32(_) => true,
        GenericDataType::Time64(_) => true,
        GenericDataType::Dictionary => field.children@.len() == 2 && spec_dictionary_kind(
            field.children@[0].data_type,
            field.children@[1].data_type,
        ) is Ok,
        _ => false,
    }
}

/// Creates the typed builder for a field. Construction fails with a
/// schema error exactly on the logical types the write side does not
/// build (floats and the nested kinds) and on a dictionary without a
/// supported key/value child pairing.
pub fn build_typed_builder(field: &GenericField) -> (r: Result<TypedBuilder, Error>)
    ensures
        r is Ok <==> spec_buildable(*field),
        r matches Err(e) ==> e == Error::Schema,
        r matches Ok(b) ==> b.wf() && b.spec_rows() == 0 && spec_builder_matches_field(b, *field)
            && spec_table_empty(b),
{
    let nullable = field.nullable;
    match field.data_type {
        GenericDataType::Null => Ok(TypedBuilder::Null(0)),
        GenericDataType::Bool => Ok(TypedBuilder::Bool(BoolBuilder::new(nullable))),
        GenericDataType::I8 => Ok(TypedBuilder::I8(PrimitiveBuilder::new(nullable))),
        GenericDataType::I16 => Ok(TypedBuilder::I16(PrimitiveBuilder::new(nullable))),
        GenericDataType::I32 => Ok(TypedBuilder::I32(PrimitiveBuilder::new(nullable))),
        GenericDataType::I64 => Ok(TypedBuilder::I64(PrimitiveBuilder::new(nullable))),
        GenericDataType::U8 => Ok(TypedBuilder::U8(PrimitiveBuilder::new(nullable))),
        GenericDataType::U16 => Ok(TypedBuilder::U16(PrimitiveBuilder::new(nullable))),
        GenericDataType::U32 => Ok(TypedBuilder::U32(PrimitiveBuilder::new(nullable))),
        GenericDataType::U64 => Ok(TypedBuilder::U64(PrimitiveBuilder::new(nullable))),
        GenericDataType::Utf8 => Ok(TypedBuilder::Utf8(Utf8Builder::new(nullable))),
        GenericDataType::LargeUtf8 => Ok(TypedBuilder::LargeUtf8(Utf8Builder::new(nullable))),
        GenericDataType::Date32 => Ok(TypedBuilder::Date32(PrimitiveBuilder::new(nullable))),
        GenericDataType::Date64 => Ok(TypedBuilder::Date64(PrimitiveBuilder::new(nullable))),
        GenericDataType::Time32(unit) => Ok(
            TypedBuilder::Time32(unit, PrimitiveBuilder::new(nullable)),
        ),
        GenericDataType::Time64(unit) => Ok(
            TypedBuilder::Time64(unit, PrimitiveBuilder::new(nullable)),
        ),
        GenericDataType::Dictionary => {
            if field.children.len() != 2 {
                return Err(Error::Schema);
            }
            let key_type = field.children[0].data_type;
            let value_type = field.children[1].data_type;
            let (kind, large) = select_dictionary_kind(key_type, value_type)?;
            if large {
                Ok(
                    TypedBuilder::DictionaryLargeUtf8(
                        DictionaryUtf8Builder::new(kind, nullable),
                    ),
                )
            } else {
                Ok(TypedBuilder::DictionaryUtf8(DictionaryUtf8Builder::new(kind, nullable)))
            }
        },
        _ => Err(Error::Schema),
    }
}


/// A run of the dispatching sink: the second builder is reachable from
/// the first by accepting each event in turn.
pub open spec fn spec_accept_run(b: TypedBuilder, events: Seq<Event>, b2: TypedBuilder) -> bool
    decreases events.len(),
{
    if events.len() == 0 {
        b2 == b
    } else {
        exists|mid: TypedBuilder|
            #[trigger] spec_accept_ok(b, events[0], mid) && spec_accept_run(
                mid,
                events.drop_first(),
                b2,
            )
    }
}

/// Extending a run by one accepted event at the back.
pub proof fn lemma_accept_run_snoc(
    b: TypedBuilder,
    events: Seq<Event>,
    e: Event,
    b1: TypedBuilder,
    b2: TypedBuilder,
)
    requires
        spec_accept_run(b, events, b1),
        spec_accept_ok(b1, e, b2),
    ensures
        spec_accept_run(b, events.push(e), b2),
    decreases events.len(),
{
    reveal_with_fuel(spec_accept_run, 3);
    if events.len() == 0 {
        assert(events.push(e)[0] == e);
        assert(events.push(e).drop_first() =~= Seq::<Event>::empty());
    } else {
        let mid = choose|mid: TypedBuilder|
            #[trigger] spec_accept_ok(b, events[0], mid) && spec_accept_run(
                mid,
                events.drop_first(),
                b1,
            );
        lemma_accept_run_snoc(mid, events.drop_first(), e, b1, b2);
        assert(events.push(e)[0] == events[0]);
        assert(events.push(e).drop_first() =~= events.drop_first().push(e));
    }
}


/// Whether the stream is well-formed for the stripper and every
/// forwarded event plainly fits the builder's kind, with nulls only
/// where nullable, no string values, and not a null column: the
/// conditions under which a whole `extend` is owed success.
pub open spec fn spec_plain_stream(b: TypedBuilder, events: Seq<Event>) -> bool {
    match crate::sink::strip_run(StripState::WaitForStart, events) {
        Some((_, fwd)) => !(b is Null) && forall|j: int|
            0 <= j < fwd.len() ==> spec_event_fits(b, #[trigger] fwd[j]) && !(
            fwd[j] matches Event::Str(_)) && (fwd[j] is Null ==> spec_builder_nullable(b)),
        None => false,
    }
}

/// A well-formed builder has a non-negative row count.
pub proof fn lemma_rows_nonneg(b: TypedBuilder)
    requires
        b.wf(),
    ensures
        b.spec_rows() >= 0,
{
}

/// Builds one array for one field, driven event by event. The field is
/// kept so the caller can see what the column was built as.
pub struct GenericArrayBuilder {
    pub builder: DynamicArrayBuilder,
    pub field: GenericField,
}

impl GenericArrayBuilder {
    pub open spec fn wf(self) -> bool {
        self.builder.wf()
    }

    /// Construction fails with a schema error exactly on the logical
    /// types the write side does not build.
    pub fn new(field: GenericField) -> (r: Result<Self, Error>)
        ensures
            r is Ok <==> spec_buildable(field),
            r matches Err(e) ==> e == Error::Schema,
            r matches Ok(b) ==> b.wf() && b.builder.builder.spec_rows() == 0 && b.builder.sunk()
                == Seq::<Event>::empty() && b.field == field && spec_builder_matches_field(
                b.builder.builder,
                field,
            ) && spec_table_empty(b.builder.builder),
    {
        let typed = build_typed_builder(&field)?;
        Ok(GenericArrayBuilder { builder: DynamicArrayBuilder::new(typed), field })
    }

    /// Feeds one event of one record into the column.
    pub fn push(&mut self, event: Event) -> (r: Result<(), Error>)
        requires
            old(self).wf(),
        ensures
            final(self).wf(),
            final(self).field == old(self).field,
            r is Ok ==> final(self).builder.sunk() == old(self).builder.sunk().push(event),
            r is Ok ==> spec_accept_ok(
                old(self).builder.builder,
                event,
                final(self).builder.builder,
            ),
            r is Ok <==> spec_accept_err(old(self).builder.builder, event) is None,
            spec_event_bytes_bounded(event) && r is Err ==> Some(r->Err_0) == spec_accept_err(
                old(self).builder.builder,
                event,
            ),
            r is Err ==> final(self).builder.builder == old(self).builder.builder,
    {
        self.builder.accept(event)
    }

    /// Feeds a whole stream that represents one sequence of records,
    /// stripping the outer sequence. The stream's shape is validated up
    /// front: one not accepted by the stripper's machine is an
    /// event-state error and nothing is written. On success the builder
    /// has taken in exactly the events the stripper forwards; success is
    /// owed whenever every forwarded event plainly fits the column — the
    /// right value kind, nulls only where nullable, no string values
    /// (whose byte growth the string builders' own contracts bound) and
    /// not a null column.
    pub fn extend(&mut self, events: Vec<Event>) -> (r: Result<(), Error>)
        requires
            old(self).wf(),
        ensures
            final(self).wf(),
            final(self).field == old(self).field,
            !crate::sink::spec_stream_valid(events@) ==> r == Err::<(), Error>(
                Error::EventState,
            ) && *final(self) == *old(self),
            r is Ok ==> match crate::sink::strip_run(StripState::WaitForStart, events@) {
                Some((_, fwd)) => final(self).builder.sunk() == old(self).builder.sunk() + fwd
                    && spec_accept_run(
                    old(self).builder.builder,
                    fwd,
                    final(self).builder.builder,
                ),
                None => false,
            },
            spec_plain_stream(old(self).builder.builder, events@) ==> r is Ok,
    {
        let ghost all = events@;
        if !crate::sink::validate_stream(&events) {
            return Err(Error::EventState);
        }
        let mut rest = events;
        let mut st = StripState::WaitForStart;
        let ghost mut done: Seq<Event> = Seq::empty();
        proof {
            assert(all.take(0) =~= Seq::<Event>::empty());
        }
        while rest.len() > 0
            invariant
                old(self).wf(),
                self.wf(),
                self.field == old(self).field,
                all == events@,
                crate::sink::spec_stream_valid(all),
                done + rest@ == all,
                done == all.take(done.len() as int),
                match crate::sink::strip_run(StripState::WaitForStart, done) {
                    Some((s1, f_done)) => s1 == st && self.builder.sunk() == old(
                        self,
                    ).builder.sunk() + f_done && spec_accept_run(
                        old(self).builder.builder,
                        f_done,
                        self.builder.builder,
                    ),
                    None => false,
                },
            decreases rest@.len(),
        {
            let ghost prev_done = done;
            let ghost rest_all = all.skip(prev_done.len() as int);
            proof {
                assert(all =~= prev_done + rest_all);
                crate::sink::lemma_strip_run_append(
                    StripState::WaitForStart,
                    prev_done,
                    rest_all,
                );
                assert(rest_all =~= rest@);
            }
            let e = rest.remove(0);
            proof {
                assert(e == rest_all[0]);
                reveal_with_fuel(crate::sink::strip_run, 2);
            }
            match crate::sink::strip_try_step(st, &e) {
                None => {
                    proof {
                        assert(false);
                    }
                    return Err(Error::EventState);
                },
                Some((s2, forwarded)) => {
                    if forwarded {
                        let ghost f_done = crate::sink::strip_run(
                            StripState::WaitForStart,
                            prev_done,
                        )->Some_0.1;
                        let ghost pre_b = self.builder.builder;
                        match self.builder.accept(e) {
                            Ok(()) => {
                                proof {
                                    done = prev_done.push(e);
                                    crate::sink::lemma_strip_run_snoc(
                                        StripState::WaitForStart,
                                        prev_done,
                                        e,
                                    );
                                    assert(done =~= all.take(done.len() as int));
                                    lemma_accept_run_snoc(
                                        old(self).builder.builder,
                                        f_done,
                                        e,
                                        pre_b,
                                        self.builder.builder,
                                    );
                                }
                            },
                            Err(err) => {
                                proof {
                                    if spec_plain_stream(old(self).builder.builder, all) {
                                        let fwd = crate::sink::strip_run(
                                            StripState::WaitForStart,
                                            all,
                                        )->Some_0.1;
                                        let f_rest = crate::sink::strip_run(st, rest_all)->Some_0.1;
                                        assert(fwd == f_done + f_rest);
                                        assert(f_rest[0] == e);
                                        assert(fwd[f_done.len() as int] == e);
                                        lemma_rows_nonneg(old(self).builder.builder);
                                        lemma_validity_invariant(
                                            old(self).builder.builder,
                                            f_done,
                                            pre_b,
                                        );
                                        lemma_fits_same_kind(
                                            old(self).builder.builder,
                                            pre_b,
                                            e,
                                        );
                                        assert(spec_accept_err(pre_b, e) is None);
                                        assert(false);
                                    }
                                }
                                return Err(err);
                            },
                        }
                    } else {
                        proof {
                            done = prev_done.push(e);
                            crate::sink::lemma_strip_run_snoc(
                                StripState::WaitForStart,
                                prev_done,
                                e,
                            );
                            assert(done =~= all.take(done.len() as int));
                        }
                    }
                    st = s2;
                },
            }
        }
        proof {
            assert(done =~= all);
        }
        Ok(())
    }

    /// Yields the finished array and resets the column for the next
    /// chunk.
    pub fn build_array(&mut self) -> (r: Result<Array, Error>)
        requires
            old(self).wf(),
        ensures
            final(self).wf(),
            final(self).field == old(self).field,
            r is Ok,
            r matches Ok(a) ==> spec_built(old(self).builder.builder, a),
            final(self).builder.builder.spec_rows() == 0,
    {
        crate::sink::ArrayBuilder::build_array(&mut self.builder)
    }
}

/// Builds one array per field, row by row: row `i` of the logical table
/// hands one event to each column in field order.
pub struct GenericArraysBuilder {
    pub fields: Vec<GenericField>,
    pub builders: Vec<DynamicArrayBuilder>,
}

impl GenericArraysBuilder {
    pub open spec fn wf(self) -> bool {
        &&& self.builders@.len() == self.fields@.len()
        &&& forall|i: int| 0 <= i < self.builders@.len() ==> (#[trigger] self.builders@[i]).wf()
    }

    /// Whether every column holds the same number of rows — true after
    /// construction and preserved by every whole row successfully fed.
    pub open spec fn rows_aligned(self) -> bool {
        forall|i: int, j: int|
            0 <= i < self.builders@.len() && 0 <= j < self.builders@.len()
                ==> self.builders@[i].builder.spec_rows() == self.builders@[j].builder.spec_rows()
    }

    /// Construction fails with a schema error exactly where some field's
    /// logical type is not buildable.
    pub fn new(fields: Vec<GenericField>) -> (r: Result<Self, Error>)
        ensures
            r is Ok <==> (forall|i: int|
                0 <= i < fields@.len() ==> spec_buildable(#[trigger] fields@[i])),
            r matches Err(e) ==> e == Error::Schema,
            r matches Ok(b) ==> b.wf() && b.fields@ == fields@ && forall|i: int|
                0 <= i < fields@.len() ==> spec_builder_matches_field(
                    (#[trigger] b.builders@[i]).builder,
                    fields@[i],
                ) && b.builders@[i].builder.spec_rows() == 0 && spec_table_empty(
                    b.builders@[i].builder,
                ),
    {
        let mut builders: Vec<DynamicArrayBuilder> = Vec::new();
        let mut i: usize = 0;
        while i < fields.len()
            invariant
                i <= fields@.len(),
                builders@.len() == i,
                forall|k: int| 0 <= k < i ==> (#[trigger] builders@[k]).wf(),
                forall|k: int| 0 <= k < i ==> spec_buildable(#[trigger] fields@[k]),
                forall|k: int|
                    0 <= k < i ==> spec_builder_matches_field(
                        (#[trigger] builders@[k]).builder,
                        fields@[k],
                    ) && builders@[k].builder.spec_rows() == 0 && spec_table_empty(
                        builders@[k].builder,
                    ),
            decreases fields@.len() - i,
        {
            let typed = build_typed_builder(&fields[i])?;
            builders.push(DynamicArrayBuilder::new(typed));
            i += 1;
        }
        Ok(GenericArraysBuilder { fields, builders })
    }

    /// Feeds one row: one event per column, in field order. A row of the
    /// wrong width is a schema error and a row holding a bare
    /// present-option marker an event-state error, both before anything
    /// is written; a failed column mid-row leaves the row partially
    /// written, so the caller must abandon the whole build. Success is
    /// owed exactly where every column takes its event.
    pub fn push(&mut self, row: Vec<Event>) -> (r: Result<(), Error>)
        requires
            old(self).wf(),
        ensures
            final(self).wf(),
            final(self).fields == old(self).fields,
            row@.len() != old(self).fields@.len() ==> r == Err::<(), Error>(Error::Schema),
            row@.len() == old(self).fields@.len() && (exists|j: int|
                0 <= j < row@.len() && (#[trigger] row@[j]) is Present) ==> r == Err::<
                (),
                Error,
            >(Error::EventState),
            r is Ok <==> (row@.len() == old(self).fields@.len() && (forall|j: int|
                0 <= j < row@.len() ==> !((#[trigger] row@[j]) is Present)) && (forall|j: int|
                0 <= j < row@.len() ==> spec_accept_err(
                    (#[trigger] old(self).builders@[j]).builder,
                    row@[j],
                ) is None)),
            r is Ok ==> forall|k: int|
                0 <= k < row@.len() ==> spec_accept_ok(
                    old(self).builders@[k].builder,
                    row@[k],
                    (#[trigger] final(self).builders@[k]).builder,
                ),
            r is Ok && old(self).rows_aligned() ==> final(self).rows_aligned(),
    {
        if row.len() != self.builders.len() {
            return Err(Error::Schema);
        }
        let mut j: usize = 0;
        while j < row.len()
            invariant
                old(self).wf(),
                *self == *old(self),
                row@.len() == old(self).builders@.len(),
                j <= row@.len(),
                forall|k: int| 0 <= k < j ==> !((#[trigger] row@[k]) is Present),
            decreases row@.len() - j,
        {
            match &row[j] {
                Event::Present => {
                    return Err(Error::EventState);
                },
                _ => {},
            }
            j += 1;
        }
        let mut rest = row;
        let mut i: usize = 0;
        while i < self.builders.len()
            invariant
                old(self).wf(),
                self.builders@.len() == old(self).builders@.len(),
                self.builders@.len() == self.fields@.len(),
                self.fields == old(self).fields,
                rest@.len() + i == old(self).builders@.len(),
                row@.len() == old(self).builders@.len(),
                rest@ == row@.skip(i as int),
                i <= self.builders@.len(),
                forall|k: int| 0 <= k < row@.len() ==> !((#[trigger] row@[k]) is Present),
                forall|k: int|
                    0 <= k < self.builders@.len() ==> (#[trigger] self.builders@[k]).wf(),
                forall|k: int|
                    i <= k < self.builders@.len() ==> #[trigger] self.builders@[k] == old(
                        self,
                    ).builders@[k],
                forall|k: int|
                    0 <= k < i ==> spec_accept_ok(
                        old(self).builders@[k].builder,
                        row@[k],
                        (#[trigger] self.builders@[k]).builder,
                    ),
                forall|k: int|
                    0 <= k < i ==> spec_accept_err(
                        (#[trigger] old(self).builders@[k]).builder,
                        row@[k],
                    ) is None,
                forall|k: int|
                    0 <= k < i ==> (#[trigger] self.builders@[k]).builder.spec_rows() == old(
                        self,
                    ).builders@[k].builder.spec_rows() + 1,
            decreases self.builders@.len() - i,
        {
            let e = rest.remove(0);
            proof {
                assert(e == row@[i as int]);
                assert(rest@ =~= row@.skip(i + 1));
            }
            let mut b = DynamicArrayBuilder::new(TypedBuilder::Null(0));
            core::mem::swap(&mut b, &mut self.builders[i]);
            proof {
                assert(b == old(self).builders@[i as int]);
            }
            let ghost pre = b;
            let res = b.accept(e);
            core::mem::swap(&mut b, &mut self.builders[i]);
            proof {
                assert(res is Ok <==> spec_accept_err(pre.builder, e) is None);
                assert(forall|k: int|
                    0 <= k < self.builders@.len() ==> (#[trigger] self.builders@[k]).wf());
            }
            match res {
                Ok(()) => {
                    proof {
                        assert(spec_accept_err(
                            old(self).builders@[i as int].builder,
                            row@[i as int],
                        ) is None);
                    }
                },
                Err(err) => {
                    proof {
                        assert(spec_accept_err(
                            old(self).builders@[i as int].builder,
                            row@[i as int],
                        ) is Some);
                    }
                    return Err(err);
                },
            }
            i += 1;
        }
        Ok(())
    }

    /// Yields the finished arrays, one per field, and resets every
    /// column for the next chunk.
    pub fn build_arrays(&mut self) -> (r: Result<Vec<Array>, Error>)
        requires
            old(self).wf(),
        ensures
            final(self).wf(),
            final(self).fields == old(self).fields,
            r is Ok,
            r matches Ok(arrays) ==> arrays@.len() == old(self).fields@.len() && forall|k: int|
                0 <= k < arrays@.len() ==> spec_built(
                    old(self).builders@[k].builder,
                    #[trigger] arrays@[k],
                ) && crate::array::spec_array_len(#[trigger] arrays@[k]) == old(
                    self,
                ).builders@[k].builder.spec_rows(),
            old(self).rows_aligned() ==> match r {
                Ok(arrays) => forall|i: int, j: int|
                    0 <= i < arrays@.len() && 0 <= j < arrays@.len()
                        ==> crate::array::spec_array_len(arrays@[i])
                        == crate::array::spec_array_len(arrays@[j]),
                Err(_) => true,
            },
    {
        let mut arrays: Vec<Array> = Vec::new();
        let mut i: usize = 0;
        while i < self.builders.len()
            invariant
                self.builders@.len() == old(self).builders@.len(),
                self.builders@.len() == self.fields@.len(),
                self.fields == old(self).fields,
                arrays@.len() == i,
                i <= self.builders@.len(),
                forall|k: int|
                    0 <= k < self.builders@.len() ==> (#[trigger] self.builders@[k]).wf(),
                forall|k: int|
                    i <= k < self.builders@.len() ==> #[trigger] self.builders@[k] == old(
                        self,
                    ).builders@[k],
                forall|k: int|
                    0 <= k < i ==> spec_built(
                        old(self).builders@[k].builder,
                        #[trigger] arrays@[k],
                    ),
                forall|k: int|
                    0 <= k < i ==> crate::array::spec_array_len(#[trigger] arrays@[k]) == old(
                        self,
                    ).builders@[k].builder.spec_rows(),
            decreases self.builders@.len() - i,
        {
            let mut b = DynamicArrayBuilder::new(TypedBuilder::Null(0));
            core::mem::swap(&mut b, &mut self.builders[i]);
            let res = crate::sink::ArrayBuilder::build_array(&mut b);
            core::mem::swap(&mut b, &mut self.builders[i]);
            match res {
                Ok(arr) => {
                    proof {
                        lemma_built_len(old(self).builders@[i as int].builder, arr);
                    }
                    arrays.push(arr);
                },
                Err(err) => {
                    return Err(err);
                },
            }
            i += 1;
        }
        Ok(arrays)
    }
}

/// The library's settings, threaded explicitly through callers instead
/// of living in process-wide state.
#[derive(Debug, Clone, Copy, PartialEq, Eq, Structural)]
pub struct Configuration {
    /// Whether the experimental bytecode serializer may be used by the
    /// surrounding application.
    pub serialize_with_bytecode: bool,
}

/// The settings a caller starts from.
pub open spec fn spec_default_configuration() -> Configuration {
    Configuration { serialize_with_bytecode: false }
}

impl Default for Configuration {
    fn default() -> (r: Self)
        ensures
            r == spec_default_configuration(),
    {
        Configuration { serialize_with_bytecode: false }
    }
}

/// Produces a configuration by applying the caller's changes to the
/// default settings.
pub fn configure<F: FnOnce(Configuration) -> Configuration>(f: F) -> (r: Configuration)
    requires
        f.requires((spec_default_configuration(),)),
    ensures
        f.ensures((spec_default_configuration(),), r),
{
    f(Configuration { serialize_with_bytecode: false })
}


/// Whether two builders are of the same physical kind; accepting events
/// never changes a builder's kind.
pub open spec fn spec_same_kind(a: TypedBuilder, b: TypedBuilder) -> bool {
    ||| (a is Null && b is Null)
    ||| (a is Bool && b is Bool)
    ||| (a is I8 && b is I8)
    ||| (a is I16 && b is I16)
    ||| (a is I32 && b is I32)
    ||| (a is I64 && b is I64)
    ||| (a is U8 && b is U8)
    ||| (a is U16 && b is U16)
    ||| (a is U32 && b is U32)
    ||| (a is U64 && b is U64)
    ||| (a is Date32 && b is Date32)
    ||| (a is Date64 && b is Date64)
    ||| (a is Time32 && b is Time32)
    ||| (a is Time64 && b is Time64)
    ||| (a is Utf8 && b is Utf8)
    ||| (a is LargeUtf8 && b is LargeUtf8)
    ||| (a is DictionaryUtf8 && b is DictionaryUtf8)
    ||| (a is DictionaryLargeUtf8 && b is DictionaryLargeUtf8)
}

/// An event either fits both of two same-kind builders or neither: the
/// fit depends on the kind alone.
pub proof fn lemma_fits_same_kind(a: TypedBuilder, b: TypedBuilder, e: Event)
    requires
        spec_same_kind(a, b),
    ensures
        spec_event_fits(a, e) == spec_event_fits(b, e),
{
}

/// Whether row `i` of the builder is marked valid (a null column's rows
/// never are; a column without a bitmap always is).
pub open spec fn builder_is_valid(b: TypedBuilder, i: int) -> bool {
    match b {
        TypedBuilder::Null(_) => false,
        TypedBuilder::Bool(x) => x.spec_is_valid(i),
        TypedBuilder::I8(x) => x.spec_is_valid(i),
        TypedBuilder::I16(x) => x.spec_is_valid(i),
        TypedBuilder::I32(x) => x.spec_is_valid(i),
        TypedBuilder::I64(x) => x.spec_is_valid(i),
        TypedBuilder::U8(x) => x.spec_is_valid(i),
        TypedBuilder::U16(x) => x.spec_is_valid(i),
        TypedBuilder::U32(x) => x.spec_is_valid(i),
        TypedBuilder::U64(x) => x.spec_is_valid(i),
        TypedBuilder::Date32(x) => x.spec_is_valid(i),
        TypedBuilder::Date64(x) => x.spec_is_valid(i),
        TypedBuilder::Time32(_, x) => x.spec_is_valid(i),
        TypedBuilder::Time64(_, x) => x.spec_is_valid(i),
        TypedBuilder::Utf8(x) => x.spec_is_valid(i),
        TypedBuilder::LargeUtf8(x) => x.spec_is_valid(i),
        TypedBuilder::DictionaryUtf8(x) => x.spec_is_valid(i),
        TypedBuilder::DictionaryLargeUtf8(x) => x.spec_is_valid(i),
    }
}

/// The events of a stream that fill a row: everything but the
/// present-option markers.
pub open spec fn row_events(events: Seq<Event>) -> Seq<Event>
    decreases events.len(),
{
    if events.len() == 0 {
        Seq::empty()
    } else if events[0] is Present {
        row_events(events.drop_first())
    } else {
        seq![events[0]] + row_events(events.drop_first())
    }
}

/// Law (validity invariant): after a builder accepts a stream of events,
/// it has grown by one row per row-filling event, and a row is marked
/// invalid exactly where its event was a null or default entry (on a
/// column that keeps no bitmap, no row ever is); rows written earlier
/// keep their flags.
pub proof fn lemma_validity_invariant(b0: TypedBuilder, events: Seq<Event>, b1: TypedBuilder)
    requires
        spec_accept_run(b0, events, b1),
        b0.spec_rows() >= 0,
    ensures
        b1.spec_rows() == b0.spec_rows() + row_events(events).len(),
        spec_builder_nullable(b1) == spec_builder_nullable(b0),
        spec_same_kind(b0, b1),
        forall|j: int|
            0 <= j < row_events(events).len() ==> builder_is_valid(b1, b0.spec_rows() + j) == (
            !spec_builder_nullable(b0) || !(row_events(events)[j] is Null || row_events(
                events,
            )[j] is Default)) && !(b0 is Null && builder_is_valid(b1, b0.spec_rows() + j)),
        forall|i: int| 0 <= i < b0.spec_rows() ==> builder_is_valid(b1, i) == builder_is_valid(
            b0,
            i,
        ),
    decreases events.len(),
{
    reveal_with_fuel(spec_accept_run, 2);
    reveal_with_fuel(row_events, 2);
    if events.len() == 0 {
    } else {
        let e = events[0];
        let mid = choose|mid: TypedBuilder|
            #[trigger] spec_accept_ok(b0, e, mid) && spec_accept_run(
                mid,
                events.drop_first(),
                b1,
            );
        lemma_validity_invariant(mid, events.drop_first(), b1);
        if e is Present {
        } else {
            assert(row_events(events) =~= seq![e] + row_events(events.drop_first()));
            assert(mid.spec_rows() == b0.spec_rows() + 1);
            assert(spec_same_kind(b0, mid));
            assert(spec_builder_nullable(mid) == spec_builder_nullable(b0));
            assert(builder_is_valid(mid, b0.spec_rows()) == (!spec_builder_nullable(b0) || !(
            e is Null || e is Default)) && !(b0 is Null && builder_is_valid(
                mid,
                b0.spec_rows(),
            )));
            assert(forall|i: int|
                0 <= i < b0.spec_rows() ==> builder_is_valid(mid, i) == builder_is_valid(b0, i));
            let rs = row_events(events);
            let rs_rest = row_events(events.drop_first());
            assert forall|j: int|
                0 <= j < rs.len() implies builder_is_valid(b1, b0.spec_rows() + j) == (
            !spec_builder_nullable(b0) || !(rs[j] is Null || rs[j] is Default)) && !(b0 is Null
                && builder_is_valid(b1, b0.spec_rows() + j)) by {
                if j == 0 {
                    assert(builder_is_valid(b1, b0.spec_rows()) == builder_is_valid(
                        mid,
                        b0.spec_rows(),
                    ));
                    assert(rs[0] == e);
                } else {
                    assert(rs[j] == rs_rest[j - 1]);
                    assert(builder_is_valid(b1, mid.spec_rows() + (j - 1)) == (
                    !spec_builder_nullable(mid) || !(rs_rest[j - 1] is Null || rs_rest[j
                        - 1] is Default)) && !(mid is Null && builder_is_valid(
                        b1,
                        mid.spec_rows() + (j - 1),
                    )));
                    assert(mid is Null <==> b0 is Null);
                }
            }
        }
    }
}

} // verus!
