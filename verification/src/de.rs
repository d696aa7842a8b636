use vstd::prelude::*;
use vstd::string::*;

use crate::access::{CidDeserializer, EnumDeserializer, MapDeserializer, SeqDeserializer};
use crate::cid_link::{cid_identifier, is_cid_identifier};
use crate::ipld::{views_of, Ipld, IpldView};

verus! {

/// What a consumer asked an [`Ipld`] value to become, as named in errors.
#[derive(Debug, Clone, Copy, PartialEq, Eq)]
pub enum Target {
    I8,
    I16,
    I32,
    I64,
    U8,
    U16,
    U32,
    U64,
    Unit,
    Bool,
    F32,
    F64,
    Char,
    Str,
    Bytes,
    Sequence,
    Tuple,
    MapFromList,
    Identifier,
    Struct,
    Cid,
    Enum,
    TupleVariant,
    StructVariant,
}

/// What a consumer found in a variant's content where it expected another shape.
#[derive(Debug, Clone, Copy, PartialEq, Eq)]
pub enum Unexpected {
    UnitVariant,
    TupleVariant,
}

/// The shape of enum variant that a consumer asked for.
#[derive(Debug, Clone, Copy, PartialEq, Eq)]
pub enum VariantShape {
    Newtype,
    Tuple,
    Struct,
}

/// Why an [`Ipld`] value could not become what was asked of it.
#[derive(Debug)]
pub enum DeError {
    /// The integer does not fit the integer type asked for.
    IntegerTooBig { target: Target },
    /// The value is not of the kind that the target is read from.
    WrongKind { target: Target, found: Ipld },
    /// The float (given by its bits) is infinite or NaN.
    NotFinite { bits: u64 },
    /// A string asked to be a `char` does not hold exactly one character.
    NotSingleChar,
    /// A list asked to be a tuple has another length.
    TupleLength { wanted: usize, got: usize },
    /// A list asked to be a tuple variant has another length.
    TupleVariantLength { wanted: usize, got: usize },
    /// Maps are not handed to self-describing consumers.
    MapsUnsupported,
    /// Unit structs cannot be read.
    UnitStruct,
    /// The tag of an enum is not an integer below the number of its variants.
    BadEnumTag { variants: usize, tag: Ipld },
    /// Only bytes can be read from a CID.
    CidOnlyBytes,
    /// A map value was asked for before its key.
    ValueMissing,
    /// A variant's content has another shape than the one asked for.
    InvalidType { unexpected: Unexpected, shape: VariantShape },
    /// The bytes are not the encoding of a CID.
    InvalidCid(cid::Error),
}

/// What the consumer is to be handed: the `visit_*` call to make.
pub enum Visit {
    NoneValue,
    SomeValue(Ipld),
    Unit,
    Bool(bool),
    I8(i8),
    I16(i16),
    I32(i32),
    I64(i64),
    U8(u8),
    U16(u16),
    U32(u32),
    U64(u64),
    I128(i128),
    /// A finite float, by its bits, to be narrowed to `f32`.
    F32(u64),
    /// A finite float, by its bits.
    F64(u64),
    Char(char),
    Str(String),
    String(String),
    Bytes(Vec<u8>),
    ByteBuf(Vec<u8>),
    Sequence(SeqDeserializer),
    Mapping(MapDeserializer),
    NewtypeCid(CidDeserializer),
    Newtype(Ipld),
    Enum(EnumDeserializer),
}

/// The model of a [`Visit`].
pub enum VisitView {
    NoneValue,
    SomeValue(Ipld),
    Unit,
    Bool(bool),
    I8(i8),
    I16(i16),
    I32(i32),
    I64(i64),
    U8(u8),
    U16(u16),
    U32(u32),
    U64(u64),
    I128(i128),
    F32(u64),
    F64(u64),
    Char(char),
    Str(Seq<char>),
    String(Seq<char>),
    Bytes(Seq<u8>),
    ByteBuf(Seq<u8>),
    /// The items still to come.
    Sequence(Seq<Ipld>),
    /// The entries still to come and the pending value.
    Mapping(Seq<Ipld>, Option<Ipld>),
    NewtypeCid(Seq<u8>),
    Newtype(Ipld),
    /// The variant's name and the model of its content.
    Enum(Seq<char>, Option<IpldView>),
}

impl View for Visit {
    type V = VisitView;

    open spec fn view(&self) -> VisitView {
        match *self {
            Visit::NoneValue => VisitView::NoneValue,
            Visit::SomeValue(v) => VisitView::SomeValue(v),
            Visit::Unit => VisitView::Unit,
            Visit::Bool(b) => VisitView::Bool(b),
            Visit::I8(x) => VisitView::I8(x),
            Visit::I16(x) => VisitView::I16(x),
            Visit::I32(x) => VisitView::I32(x),
            Visit::I64(x) => VisitView::I64(x),
            Visit::U8(x) => VisitView::U8(x),
            Visit::U16(x) => VisitView::U16(x),
            Visit::U32(x) => VisitView::U32(x),
            Visit::U64(x) => VisitView::U64(x),
            Visit::I128(x) => VisitView::I128(x),
            Visit::F32(b) => VisitView::F32(b),
            Visit::F64(b) => VisitView::F64(b),
            Visit::Char(c) => VisitView::Char(c),
            Visit::Str(s) => VisitView::Str(s@),
            Visit::String(s) => VisitView::String(s@),
            Visit::Bytes(b) => VisitView::Bytes(b@),
            Visit::ByteBuf(b) => VisitView::ByteBuf(b@),
            Visit::Sequence(d) => VisitView::Sequence(d@),
            Visit::Mapping(d) => VisitView::Mapping(d.entries(), d.pending()),
            Visit::NewtypeCid(c) => VisitView::NewtypeCid(c.bytes@),
            Visit::Newtype(v) => VisitView::Newtype(v),
            Visit::Enum(e) => VisitView::Enum(
                e.variant@,
                match e.value {
                    Some(p) => Some(p@),
                    None => None,
                },
            ),
        }
    }
}

/// The model of the outcome of a request.
pub open spec fn outcome(r: Result<Visit, DeError>) -> Result<VisitView, DeError> {
    match r {
        Ok(v) => Ok(v@),
        Err(e) => Err(e),
    }
}

pub open spec fn wrong_kind(target: Target, found: Ipld) -> Result<VisitView, DeError> {
    Err(DeError::WrongKind { target, found })
}

/// Whether a float, given by its IEEE-754 binary64 bits, is neither infinite
/// nor NaN: its exponent field is not all ones.
pub open spec fn is_finite_bits(bits: u64) -> bool {
    (bits >> 52u64) & 0x7ffu64 != 0x7ffu64
}

/// Tells whether a float, given by its bits, is finite.
pub fn float_bits_are_finite(bits: u64) -> (b: bool)
    ensures
        b == is_finite_bits(bits),
{
    (bits >> 52u64) & 0x7ffu64 != 0x7ffu64
}

/// Reading an integer type whose values lie in `min..=max`; `fits` is what
/// the consumer is handed for an integer in that range.
pub open spec fn integer_outcome(
    v: Ipld,
    target: Target,
    min: int,
    max: int,
    fits: spec_fn(i128) -> VisitView,
) -> Result<VisitView, DeError> {
    match v {
        Ipld::Integer(i) => if min <= i <= max {
            Ok(fits(i))
        } else {
            Err(DeError::IntegerTooBig { target })
        },
        _ => wrong_kind(target, v),
    }
}

/// Reading `i8`.
pub open spec fn i8_outcome(v: Ipld) -> Result<VisitView, DeError> {
    integer_outcome(v, Target::I8, -128, 127, |i: i128| VisitView::I8(i as i8))
}

/// Reading `i16`.
pub open spec fn i16_outcome(v: Ipld) -> Result<VisitView, DeError> {
    integer_outcome(v, Target::I16, -0x8000, 0x7fff, |i: i128| VisitView::I16(i as i16))
}

/// Reading `i32`.
pub open spec fn i32_outcome(v: Ipld) -> Result<VisitView, DeError> {
    integer_outcome(v, Target::I32, -0x8000_0000, 0x7fff_ffff, |i: i128| VisitView::I32(i as i32))
}

/// Reading `i64`.
pub open spec fn i64_outcome(v: Ipld) -> Result<VisitView, DeError> {
    integer_outcome(v, Target::I64, -0x8000_0000_0000_0000, 0x7fff_ffff_ffff_ffff, |i: i128| VisitView::I64(i as i64))
}

/// Reading `u8`.
pub open spec fn u8_outcome(v: Ipld) -> Result<VisitView, DeError> {
    integer_outcome(v, Target::U8, 0, 0xff, |i: i128| VisitView::U8(i as u8))
}

/// Reading `u16`.
pub open spec fn u16_outcome(v: Ipld) -> Result<VisitView, DeError> {
    integer_outcome(v, Target::U16, 0, 0xffff, |i: i128| VisitView::U16(i as u16))
}

/// Reading `u32`.
pub open spec fn u32_outcome(v: Ipld) -> Result<VisitView, DeError> {
    integer_outcome(v, Target::U32, 0, 0xffff_ffff, |i: i128| VisitView::U32(i as u32))
}

/// Reading `u64`.
pub open spec fn u64_outcome(v: Ipld) -> Result<VisitView, DeError> {
    integer_outcome(v, Target::U64, 0, 0xffff_ffff_ffff_ffff, |i: i128| VisitView::U64(i as u64))
}

pub open spec fn any_outcome(v: Ipld) -> Result<VisitView, DeError> {
    match v {
        Ipld::Null => Ok(VisitView::NoneValue),
        Ipld::Bool(b) => Ok(VisitView::Bool(b)),
        Ipld::Integer(i) => Ok(VisitView::I128(i)),
        Ipld::Float(bits) => Ok(VisitView::F64(bits)),
        Ipld::String(s) => Ok(VisitView::Str(s@)),
        Ipld::Bytes(b) => Ok(VisitView::Bytes(b@)),
        Ipld::List(xs) => Ok(VisitView::Sequence(xs@)),
        Ipld::Dict(_) => Err(DeError::MapsUnsupported),
        Ipld::Link(c) => Ok(VisitView::NewtypeCid(c@)),
    }
}

pub open spec fn unit_outcome(v: Ipld) -> Result<VisitView, DeError> {
    match v {
        Ipld::List(xs) => if xs@.len() == 0 {
            Ok(VisitView::Unit)
        } else {
            wrong_kind(Target::Unit, v)
        },
        _ => wrong_kind(Target::Unit, v),
    }
}

pub open spec fn bool_outcome(v: Ipld) -> Result<VisitView, DeError> {
    match v {
        Ipld::Bool(b) => Ok(VisitView::Bool(b)),
        _ => wrong_kind(Target::Bool, v),
    }
}

/// Reading a float: the `f64` target hands finite floats over as they are;
/// the `f32` target hands them over to be narrowed.
pub open spec fn float_outcome(v: Ipld, target: Target) -> Result<VisitView, DeError> {
    match v {
        Ipld::Float(bits) => if !is_finite_bits(bits) {
            Err(DeError::NotFinite { bits })
        } else if target == Target::F32 {
            Ok(VisitView::F32(bits))
        } else {
            Ok(VisitView::F64(bits))
        },
        _ => wrong_kind(target, v),
    }
}

pub open spec fn char_outcome(v: Ipld) -> Result<VisitView, DeError> {
    match v {
        Ipld::String(s) => if s@.len() == 1 {
            Ok(VisitView::Char(s@[0]))
        } else {
            Err(DeError::NotSingleChar)
        },
        _ => wrong_kind(Target::Char, v),
    }
}

/// Reading a string; `owned` tells whether the string itself is handed over.
pub open spec fn str_outcome(v: Ipld, target: Target, owned: bool) -> Result<VisitView, DeError> {
    match v {
        Ipld::String(s) => if owned {
            Ok(VisitView::String(s@))
        } else {
            Ok(VisitView::Str(s@))
        },
        _ => wrong_kind(target, v),
    }
}

/// Reading bytes; `owned` tells whether the buffer itself is handed over.
pub open spec fn bytes_outcome(v: Ipld, owned: bool) -> Result<VisitView, DeError> {
    match v {
        Ipld::Bytes(b) => if owned {
            Ok(VisitView::ByteBuf(b@))
        } else {
            Ok(VisitView::Bytes(b@))
        },
        _ => wrong_kind(Target::Bytes, v),
    }
}

/// Reading the items of a list, as a sequence or a struct.
pub open spec fn seq_outcome(v: Ipld, target: Target) -> Result<VisitView, DeError> {
    match v {
        Ipld::List(xs) => Ok(VisitView::Sequence(xs@)),
        _ => wrong_kind(target, v),
    }
}

pub open spec fn tuple_outcome(v: Ipld, len: usize) -> Result<VisitView, DeError> {
    match v {
        Ipld::List(xs) => if xs@.len() == len {
            Ok(VisitView::Sequence(xs@))
        } else {
            Err(DeError::TupleLength { wanted: len, got: xs@.len() as usize })
        },
        _ => wrong_kind(Target::Tuple, v),
    }
}

pub open spec fn map_outcome(v: Ipld) -> Result<VisitView, DeError> {
    match v {
        Ipld::List(xs) => Ok(VisitView::Mapping(xs@, None)),
        _ => wrong_kind(Target::MapFromList, v),
    }
}

/// Reading a newtype struct named `name`: the CID marker name asks for a
/// link, any other name reads the value itself.
pub open spec fn newtype_outcome(v: Ipld, name: Seq<char>) -> Result<VisitView, DeError> {
    if name == cid_identifier() {
        match v {
            Ipld::Link(c) => Ok(VisitView::NewtypeCid(c@)),
            _ => wrong_kind(Target::Cid, v),
        }
    } else {
        Ok(VisitView::Newtype(v))
    }
}

/// Reading an enum whose variants are named `variants` from a list whose
/// first item is the variant's index and whose other items, if any, are its
/// content.
pub open spec fn enum_outcome(v: Ipld, variants: Seq<&str>) -> Result<VisitView, DeError> {
    match v {
        Ipld::List(xs) => if xs@.len() == 0 {
            wrong_kind(Target::Enum, v)
        } else {
            match xs@[0] {
                Ipld::Integer(idx) => if 0 <= idx < variants.len() {
                    Ok(
                        VisitView::Enum(
                            variants[idx as int]@,
                            if xs@.len() == 1 {
                                None
                            } else {
                                Some(IpldView::List(views_of(xs@.subrange(1, xs@.len() as int))))
                            },
                        ),
                    )
                } else {
                    Err(DeError::BadEnumTag { variants: variants.len() as usize, tag: xs@[0] })
                },
                _ => Err(DeError::BadEnumTag { variants: variants.len() as usize, tag: xs@[0] }),
            }
        },
        _ => wrong_kind(Target::Enum, v),
    }
}

pub open spec fn option_outcome(v: Ipld) -> Result<VisitView, DeError> {
    match v {
        Ipld::Null => Ok(VisitView::NoneValue),
        _ => Ok(VisitView::SomeValue(v)),
    }
}

} // verus!

verus! {

impl Ipld {
    /// Hands the value to a self-describing consumer, as the kind it is.
    pub fn deserialize_any(self) -> (r: Result<Visit, DeError>)
        ensures
            outcome(r) == any_outcome(self),
    {
        match self {
            Ipld::Null => Ok(Visit::NoneValue),
            Ipld::Bool(b) => Ok(Visit::Bool(b)),
            Ipld::Integer(i) => Ok(Visit::I128(i)),
            Ipld::Float(bits) => Ok(Visit::F64(bits)),
            Ipld::String(s) => Ok(Visit::Str(s)),
            Ipld::Bytes(b) => Ok(Visit::Bytes(b)),
            Ipld::List(xs) => Ok(Visit::Sequence(SeqDeserializer::new(xs))),
            Ipld::Dict(_) => Err(DeError::MapsUnsupported),
            Ipld::Link(c) => Ok(Visit::NewtypeCid(CidDeserializer { bytes: c })),
        }
    }

    pub fn deserialize_i8(self) -> (r: Result<Visit, DeError>)
        ensures
            outcome(r) == i8_outcome(self),
    {
        match self {
            Ipld::Integer(i) => if -128 <= i && i <= 127 {
                Ok(Visit::I8(i as i8))
            } else {
                Err(DeError::IntegerTooBig { target: Target::I8 })
            },
            _ => Err(DeError::WrongKind { target: Target::I8, found: self }),
        }
    }

    pub fn deserialize_i16(self) -> (r: Result<Visit, DeError>)
        ensures
            outcome(r) == i16_outcome(self),
    {
        match self {
            Ipld::Integer(i) => if -0x8000 <= i && i <= 0x7fff {
                Ok(Visit::I16(i as i16))
            } else {
                Err(DeError::IntegerTooBig { target: Target::I16 })
            },
            _ => Err(DeError::WrongKind { target: Target::I16, found: self }),
        }
    }

    pub fn deserialize_i32(self) -> (r: Result<Visit, DeError>)
        ensures
            outcome(r) == i32_outcome(self),
    {
        match self {
            Ipld::Integer(i) => if -0x8000_0000 <= i && i <= 0x7fff_ffff {
                Ok(Visit::I32(i as i32))
            } else {
                Err(DeError::IntegerTooBig { target: Target::I32 })
            },
            _ => Err(DeError::WrongKind { target: Target::I32, found: self }),
        }
    }

    pub fn deserialize_i64(self) -> (r: Result<Visit, DeError>)
        ensures
            outcome(r) == i64_outcome(self),
    {
        match self {
            Ipld::Integer(i) => if -0x8000_0000_0000_0000 <= i && i <= 0x7fff_ffff_ffff_ffff {
                Ok(Visit::I64(i as i64))
            } else {
                Err(DeError::IntegerTooBig { target: Target::I64 })
            },
            _ => Err(DeError::WrongKind { target: Target::I64, found: self }),
        }
    }

    pub fn deserialize_u8(self) -> (r: Result<Visit, DeError>)
        ensures
            outcome(r) == u8_outcome(self),
    {
        match self {
            Ipld::Integer(i) => if 0 <= i && i <= 0xff {
                Ok(Visit::U8(i as u8))
            } else {
                Err(DeError::IntegerTooBig { target: Target::U8 })
            },
            _ => Err(DeError::WrongKind { target: Target::U8, found: self }),
        }
    }

    pub fn deserialize_u16(self) -> (r: Result<Visit, DeError>)
        ensures
            outcome(r) == u16_outcome(self),
    {
        match self {
            Ipld::Integer(i) => if 0 <= i && i <= 0xffff {
                Ok(Visit::U16(i as u16))
            } else {
                Err(DeError::IntegerTooBig { target: Target::U16 })
            },
            _ => Err(DeError::WrongKind { target: Target::U16, found: self }),
        }
    }

    pub fn deserialize_u32(self) -> (r: Result<Visit, DeError>)
        ensures
            outcome(r) == u32_outcome(self),
    {
        match self {
            Ipld::Integer(i) => if 0 <= i && i <= 0xffff_ffff {
                Ok(Visit::U32(i as u32))
            } else {
                Err(DeError::IntegerTooBig { target: Target::U32 })
            },
            _ => Err(DeError::WrongKind { target: Target::U32, found: self }),
        }
    }

    pub fn deserialize_u64(self) -> (r: Result<Visit, DeError>)
        ensures
            outcome(r) == u64_outcome(self),
    {
        match self {
            Ipld::Integer(i) => if 0 <= i && i <= 0xffff_ffff_ffff_ffff {
                Ok(Visit::U64(i as u64))
            } else {
                Err(DeError::IntegerTooBig { target: Target::U64 })
            },
            _ => Err(DeError::WrongKind { target: Target::U64, found: self }),
        }
    }

    /// Only the empty list reads as unit.
    pub fn deserialize_unit(self) -> (r: Result<Visit, DeError>)
        ensures
            outcome(r) == unit_outcome(self),
    {
        match self {
            Ipld::List(xs) => if xs.len() == 0 {
                Ok(Visit::Unit)
            } else {
                Err(DeError::WrongKind { target: Target::Unit, found: Ipld::List(xs) })
            },
            _ => Err(DeError::WrongKind { target: Target::Unit, found: self }),
        }
    }

    pub fn deserialize_bool(self) -> (r: Result<Visit, DeError>)
        ensures
            outcome(r) == bool_outcome(self),
    {
        match self {
            Ipld::Bool(b) => Ok(Visit::Bool(b)),
            _ => Err(DeError::WrongKind { target: Target::Bool, found: self }),
        }
    }

    /// A finite float is handed over to be narrowed to `f32`; whether that
    /// loses precision is for the consumer's side to tell.
    pub fn deserialize_f32(self) -> (r: Result<Visit, DeError>)
        ensures
            outcome(r) == float_outcome(self, Target::F32),
    {
        match self {
            Ipld::Float(bits) => if !float_bits_are_finite(bits) {
                Err(DeError::NotFinite { bits })
            } else {
                Ok(Visit::F32(bits))
            },
            _ => Err(DeError::WrongKind { target: Target::F32, found: self }),
        }
    }

    pub fn deserialize_f64(self) -> (r: Result<Visit, DeError>)
        ensures
            outcome(r) == float_outcome(self, Target::F64),
    {
        match self {
            Ipld::Float(bits) => if float_bits_are_finite(bits) {
                Ok(Visit::F64(bits))
            } else {
                Err(DeError::NotFinite { bits })
            },
            _ => Err(DeError::WrongKind { target: Target::F64, found: self }),
        }
    }

    /// A string of exactly one character reads as that character.
    pub fn deserialize_char(self) -> (r: Result<Visit, DeError>)
        ensures
            outcome(r) == char_outcome(self),
    {
        match self {
            Ipld::String(s) => if s.as_str().unicode_len() == 1 {
                Ok(Visit::Char(s.as_str().get_char(0)))
            } else {
                Err(DeError::NotSingleChar)
            },
            _ => Err(DeError::WrongKind { target: Target::Char, found: self }),
        }
    }

    pub fn deserialize_str(self) -> (r: Result<Visit, DeError>)
        ensures
            outcome(r) == str_outcome(self, Target::Str, false),
    {
        match self {
            Ipld::String(s) => Ok(Visit::Str(s)),
            _ => Err(DeError::WrongKind { target: Target::Str, found: self }),
        }
    }

    pub fn deserialize_string(self) -> (r: Result<Visit, DeError>)
        ensures
            outcome(r) == str_outcome(self, Target::Str, true),
    {
        match self {
            Ipld::String(s) => Ok(Visit::String(s)),
            _ => Err(DeError::WrongKind { target: Target::Str, found: self }),
        }
    }

    pub fn deserialize_bytes(self) -> (r: Result<Visit, DeError>)
        ensures
            outcome(r) == bytes_outcome(self, false),
    {
        match self {
            Ipld::Bytes(b) => Ok(Visit::Bytes(b)),
            _ => Err(DeError::WrongKind { target: Target::Bytes, found: self }),
        }
    }

    pub fn deserialize_byte_buf(self) -> (r: Result<Visit, DeError>)
        ensures
            outcome(r) == bytes_outcome(self, true),
    {
        match self {
            Ipld::Bytes(b) => Ok(Visit::ByteBuf(b)),
            _ => Err(DeError::WrongKind { target: Target::Bytes, found: self }),
        }
    }

    pub fn deserialize_seq(self) -> (r: Result<Visit, DeError>)
        ensures
            outcome(r) == seq_outcome(self, Target::Sequence),
    {
        match self {
            Ipld::List(xs) => Ok(visit_seq(xs)),
            _ => Err(DeError::WrongKind { target: Target::Sequence, found: self }),
        }
    }

    /// A list reads as a tuple of its own length only.
    pub fn deserialize_tuple(self, len: usize) -> (r: Result<Visit, DeError>)
        ensures
            outcome(r) == tuple_outcome(self, len),
    {
        match self {
            Ipld::List(xs) => if len == xs.len() {
                Ok(visit_seq(xs))
            } else {
                Err(DeError::TupleLength { wanted: len, got: xs.len() })
            },
            _ => Err(DeError::WrongKind { target: Target::Tuple, found: self }),
        }
    }

    /// A tuple struct reads as a tuple; its name plays no part.
    pub fn deserialize_tuple_struct(self, _name: &str, len: usize) -> (r: Result<Visit, DeError>)
        ensures
            outcome(r) == tuple_outcome(self, len),
    {
        self.deserialize_tuple(len)
    }

    /// A map is read from a list of `[key, value]` lists.
    pub fn deserialize_map(self) -> (r: Result<Visit, DeError>)
        ensures
            outcome(r) == map_outcome(self),
    {
        match self {
            Ipld::List(xs) => Ok(visit_map(xs)),
            _ => Err(DeError::WrongKind { target: Target::MapFromList, found: self }),
        }
    }

    pub fn deserialize_identifier(self) -> (r: Result<Visit, DeError>)
        ensures
            outcome(r) == str_outcome(self, Target::Identifier, false),
    {
        match self {
            Ipld::String(s) => Ok(Visit::Str(s)),
            _ => Err(DeError::WrongKind { target: Target::Identifier, found: self }),
        }
    }

    /// A struct is read from the list of its fields' values, in order; the
    /// names play no part.
    pub fn deserialize_struct(self, _name: &str, _fields: &[&str]) -> (r: Result<Visit, DeError>)
        ensures
            outcome(r) == seq_outcome(self, Target::Struct),
    {
        match self {
            Ipld::List(xs) => Ok(visit_seq(xs)),
            _ => Err(DeError::WrongKind { target: Target::Struct, found: self }),
        }
    }

    pub fn deserialize_unit_struct(self, _name: &str) -> (r: Result<Visit, DeError>)
        ensures
            outcome(r) == Err::<VisitView, DeError>(DeError::UnitStruct),
    {
        Err(DeError::UnitStruct)
    }

    /// The CID marker name asks for a link; any other newtype struct reads the
    /// value itself.
    pub fn deserialize_newtype_struct(self, name: &str) -> (r: Result<Visit, DeError>)
        ensures
            outcome(r) == newtype_outcome(self, name@),
    {
        if is_cid_identifier(name) {
            match self {
                Ipld::Link(c) => Ok(Visit::NewtypeCid(CidDeserializer { bytes: c })),
                _ => Err(DeError::WrongKind { target: Target::Cid, found: self }),
            }
        } else {
            Ok(Visit::Newtype(self))
        }
    }

    /// An enum is read from a list: the first item is the index of the
    /// variant among `variants`, the others, if any, its content.
    pub fn deserialize_enum(self, _name: &str, variants: &[&str]) -> (r: Result<Visit, DeError>)
        ensures
            outcome(r) == enum_outcome(self, variants@),
    {
        match self {
            Ipld::List(xs) => {
                if xs.len() == 0 {
                    return Err(DeError::WrongKind { target: Target::Enum, found: Ipld::List(xs) });
                }
                let ghost items = xs@;
                let mut rest = xs;
                let tag = rest.remove(0);
                assert(rest@ =~= items.subrange(1, items.len() as int));
                match tag {
                    Ipld::Integer(idx) => if 0 <= idx && idx < variants.len() as i128 {
                        let value = if rest.len() == 0 {
                            None
                        } else {
                            proof {
                                crate::ipld::lemma_list_view(rest);
                            }
                            Some(Ipld::List(rest))
                        };
                        let variant = variants[idx as usize].to_owned();
                        Ok(Visit::Enum(EnumDeserializer { variant, value }))
                    } else {
                        Err(DeError::BadEnumTag { variants: variants.len(), tag })
                    },
                    _ => Err(DeError::BadEnumTag { variants: variants.len(), tag }),
                }
            },
            _ => Err(DeError::WrongKind { target: Target::Enum, found: self }),
        }
    }

    /// Any value can be ignored.
    pub fn deserialize_ignored_any(self) -> (r: Result<Visit, DeError>)
        ensures
            outcome(r) == Ok::<VisitView, DeError>(VisitView::Unit),
    {
        Ok(Visit::Unit)
    }

    /// Null reads as an absent option; any other value as a present one.
    pub fn deserialize_option(self) -> (r: Result<Visit, DeError>)
        ensures
            outcome(r) == option_outcome(self),
    {
        match self {
            Ipld::Null => Ok(Visit::NoneValue),
            _ => Ok(Visit::SomeValue(self)),
        }
    }

    /// IPLD values are not in a human-readable form.
    pub fn is_human_readable(&self) -> (b: bool)
        ensures
            !b,
    {
        false
    }
}

/// Hands the items of `list` to the consumer, as a sequence.
pub fn visit_seq(list: Vec<Ipld>) -> (r: Visit)
    ensures
        r@ == VisitView::Sequence(list@),
{
    Visit::Sequence(SeqDeserializer::new(list))
}

/// Hands the `[key, value]` lists of `map` to the consumer, as a map.
pub fn visit_map(map: Vec<Ipld>) -> (r: Visit)
    ensures
        r@ == VisitView::Mapping(map@, None),
{
    Visit::Mapping(MapDeserializer::new(map))
}

} // verus!
