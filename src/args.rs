use vstd::prelude::*;
use vstd::slice::slice_to_vec;
use vstd::string::StringSliceAdditionalSpecFns;

verus! {

/// The most arguments one probe may carry.
pub const MAX_ARGS: usize = 6;

/// The kinds of value a probe argument may have.
#[derive(Clone, Copy, Debug, PartialEq, Eq, Structural)]
pub enum ArgKind {
    Integer64,
    UnsignedInteger64,
    Text,
    OptionalText,
}

/// One probe argument, as the caller supplies it.
#[derive(Clone, Copy, Debug)]
pub enum ArgValue<'a> {
    Integer64(i64),
    UnsignedInteger64(u64),
    Text(&'a str),
    OptionalText(Option<&'a str>),
}

/// One probe argument in the form the backend consumes: a fixed-width
/// integer, the borrowed bytes of a text with their length, or the marker
/// of an absent optional text.
#[derive(Clone, Copy, Debug)]
pub enum WireArg<'a> {
    Int(i64),
    UInt(u64),
    Bytes { bytes: &'a [u8], len: usize },
    Absent,
}

/// What a wire argument carries, as a mathematical value.
pub enum WireValue {
    Int(i64),
    UInt(u64),
    Bytes(Seq<u8>, nat),
    Absent,
}

/// An owned copy of a wire argument, for backends that keep what was fired.
#[derive(Clone, Debug, PartialEq, Eq)]
pub enum OwnedWire {
    Int(i64),
    UInt(u64),
    Bytes(Vec<u8>, usize),
    Absent,
}

impl<'a> WireArg<'a> {
    pub open spec fn value(&self) -> WireValue {
        match *self {
            WireArg::Int(i) => WireValue::Int(i),
            WireArg::UInt(u) => WireValue::UInt(u),
            WireArg::Bytes { bytes, len } => WireValue::Bytes(bytes@, len as nat),
            WireArg::Absent => WireValue::Absent,
        }
    }
}

impl OwnedWire {
    pub open spec fn value(&self) -> WireValue {
        match *self {
            OwnedWire::Int(i) => WireValue::Int(i),
            OwnedWire::UInt(u) => WireValue::UInt(u),
            OwnedWire::Bytes(b, len) => WireValue::Bytes(b@, len as nat),
            OwnedWire::Absent => WireValue::Absent,
        }
    }

    /// Copies a wire argument out of the memory it borrows.
    pub fn from_wire(w: &WireArg) -> (r: OwnedWire)
        ensures
            r.value() == w.value(),
    {
        match *w {
            WireArg::Int(i) => OwnedWire::Int(i),
            WireArg::UInt(u) => OwnedWire::UInt(u),
            WireArg::Bytes { bytes, len } => OwnedWire::Bytes(slice_to_vec(bytes), len),
            WireArg::Absent => OwnedWire::Absent,
        }
    }
}

/// The wire value of a text: its UTF-8 bytes and their count.
pub open spec fn text_wire(s: &str) -> WireValue {
    WireValue::Bytes(s.spec_bytes(), s.spec_bytes().len())
}

/// The wire value that marshaling `v` yields.
pub open spec fn wire_of(v: ArgValue) -> WireValue {
    match v {
        ArgValue::Integer64(i) => WireValue::Int(i),
        ArgValue::UnsignedInteger64(u) => WireValue::UInt(u),
        ArgValue::Text(s) => text_wire(s),
        ArgValue::OptionalText(None) => WireValue::Absent,
        ArgValue::OptionalText(Some(s)) => text_wire(s),
    }
}

pub open spec fn kind_spec(v: ArgValue) -> ArgKind {
    match v {
        ArgValue::Integer64(_) => ArgKind::Integer64,
        ArgValue::UnsignedInteger64(_) => ArgKind::UnsignedInteger64,
        ArgValue::Text(_) => ArgKind::Text,
        ArgValue::OptionalText(_) => ArgKind::OptionalText,
    }
}

/// Whether the values fit the declared kinds, position by position.
pub open spec fn kinds_match(values: Seq<ArgValue>, kinds: Seq<ArgKind>) -> bool {
    &&& values.len() == kinds.len()
    &&& forall|i: int| 0 <= i < values.len() ==> kind_spec(#[trigger] values[i]) == kinds[i]
}

impl<'a> ArgValue<'a> {
    /// The kind of this value.
    pub fn kind(&self) -> (r: ArgKind)
        ensures
            r == kind_spec(*self),
    {
        match self {
            ArgValue::Integer64(_) => ArgKind::Integer64,
            ArgValue::UnsignedInteger64(_) => ArgKind::UnsignedInteger64,
            ArgValue::Text(_) => ArgKind::Text,
            ArgValue::OptionalText(_) => ArgKind::OptionalText,
        }
    }
}

/// Borrowed bytes of a text, as the wire carries them.
fn text_to_wire<'a>(s: &'a str) -> (w: WireArg<'a>)
    ensures
        w.value() == text_wire(s),
{
    let bytes = s.as_bytes();
    WireArg::Bytes { bytes, len: bytes.len() }
}

/// Marshals one argument into its wire form, borrowing a text's bytes
/// rather than copying them.
pub fn wrap<'a>(v: &ArgValue<'a>) -> (w: WireArg<'a>)
    ensures
        w.value() == wire_of(*v),
{
    match *v {
        ArgValue::Integer64(i) => WireArg::Int(i),
        ArgValue::UnsignedInteger64(u) => WireArg::UInt(u),
        ArgValue::Text(s) => text_to_wire(s),
        ArgValue::OptionalText(None) => WireArg::Absent,
        ArgValue::OptionalText(Some(s)) => text_to_wire(s),
    }
}

/// Marshals every argument, keeping their order.
pub fn wrap_all<'a>(values: &Vec<ArgValue<'a>>) -> (r: Vec<WireArg<'a>>)
    ensures
        r@.len() == values@.len(),
        forall|i: int| 0 <= i < values@.len() ==> (#[trigger] r@[i]).value() == wire_of(values@[i]),
{
    let mut r: Vec<WireArg<'a>> = Vec::new();
    let mut i: usize = 0;
    while i < values.len()
        invariant
            i <= values@.len(),
            r@.len() == i,
            forall|j: int| 0 <= j < i ==> (#[trigger] r@[j]).value() == wire_of(values@[j]),
        decreases values@.len() - i,
    {
        r.push(wrap(&values[i]));
        i = i + 1;
    }
    r
}

/// An absent optional text never travels in the form of any text, the
/// empty text included.
pub proof fn lemma_absent_is_not_text(s: &str)
    ensures
        wire_of(ArgValue::OptionalText(None)) != wire_of(ArgValue::Text(s)),
{
}

/// A present optional text travels exactly as the same text would.
pub proof fn lemma_present_is_text(s: &str)
    ensures
        wire_of(ArgValue::OptionalText(Some(s))) == wire_of(ArgValue::Text(s)),
{
}

} // verus!
