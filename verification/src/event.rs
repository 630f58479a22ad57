use vstd::prelude::*;

verus! {

/// One primitive serialization signal in the uniform stream that represents
/// an arbitrary typed value tree.
///
/// Floating-point payloads are carried as their IEEE-754 bit patterns
/// (`F32` holds 32 bits, `F64` holds 64 bits), so that the event stream and
/// the buffers built from it are bit-for-bit faithful while the library
/// itself stays free of floating-point arithmetic.
#[derive(Debug, Clone, PartialEq)]
pub enum Event {
    StartSequence,
    EndSequence,
    StartTuple,
    EndTuple,
    StartStruct,
    EndStruct,
    StartMap,
    EndMap,
    Item,
    Present,
    Null,
    Default,
    Str(String),
    Variant(String, usize),
    Bool(bool),
    I8(i8),
    I16(i16),
    I32(i32),
    I64(i64),
    U8(u8),
    U16(u16),
    U32(u32),
    U64(u64),
    F32(u32),
    F64(u64),
}

/// An event that opens a nested container.
pub open spec fn is_start_event(e: Event) -> bool {
    e is StartSequence || e is StartTuple || e is StartStruct || e is StartMap
}

/// An event that closes a nested container.
pub open spec fn is_end_event(e: Event) -> bool {
    e is EndSequence || e is EndTuple || e is EndStruct || e is EndMap
}

/// An event that announces a value without itself filling a row: an item
/// marker, a present-option marker, or an enum-variant marker.
pub open spec fn is_marker_event(e: Event) -> bool {
    e is Item || e is Present || e matches Event::Variant(_, _)
}

/// An event that carries one complete primitive value (a null and a default
/// entry both fill one row).
pub open spec fn is_value_event(e: Event) -> bool {
    !is_start_event(e) && !is_end_event(e) && !is_marker_event(e)
}

impl Event {
    /// The container-nesting category of the event, used by the
    /// outer-sequence stripper to track depth.
    pub fn is_start(&self) -> (r: bool)
        ensures
            r == is_start_event(*self),
    {
        matches!(self, Event::StartSequence | Event::StartTuple | Event::StartStruct | Event::StartMap)
    }

    pub fn is_end(&self) -> (r: bool)
        ensures
            r == is_end_event(*self),
    {
        matches!(self, Event::EndSequence | Event::EndTuple | Event::EndStruct | Event::EndMap)
    }

    pub fn is_marker(&self) -> (r: bool)
        ensures
            r == is_marker_event(*self),
    {
        matches!(self, Event::Item | Event::Present | Event::Variant(_, _))
    }

    pub fn is_value(&self) -> (r: bool)
        ensures
            r == is_value_event(*self),
    {
        !self.is_start() && !self.is_end() && !self.is_marker()
    }
}

} // verus!
