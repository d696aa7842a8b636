//! What each request hands over, stated in terms of the value asked.
use vstd::prelude::*;

use crate::de::{
    any_outcome,
    bool_outcome,
    bytes_outcome,
    char_outcome,
    enum_outcome,
    float_outcome,
    i16_outcome,
    i32_outcome,
    i64_outcome,
    i8_outcome,
    is_finite_bits,
    map_outcome,
    newtype_outcome,
    option_outcome,
    seq_outcome,
    str_outcome,
    tuple_outcome,
    u16_outcome,
    u32_outcome,
    u64_outcome,
    u8_outcome,
    unit_outcome,
    DeError,
    Target,
    VisitView,
};
use crate::cid_link::cid_identifier;
use crate::ipld::{Ipld, IpldView};

verus! {

/// An integer reads as a signed integer type exactly when the type holds it,
/// and then as the same number; otherwise the error says it is too big.
pub proof fn law_signed_integers_read_in_range(n: i128)
    ensures
        i8::MIN <= n <= i8::MAX ==> (i8_outcome(Ipld::Integer(n)) matches Ok(VisitView::I8(x)) && x == n),
        !(i8::MIN <= n <= i8::MAX) ==> i8_outcome(Ipld::Integer(n)) == Err::<VisitView, DeError>(
            DeError::IntegerTooBig { target: Target::I8 },
        ),
        i16::MIN <= n <= i16::MAX ==> (i16_outcome(Ipld::Integer(n)) matches Ok(VisitView::I16(x)) && x
            == n),
        !(i16::MIN <= n <= i16::MAX) ==> i16_outcome(Ipld::Integer(n)) == Err::<VisitView, DeError>(
            DeError::IntegerTooBig { target: Target::I16 },
        ),
        i32::MIN <= n <= i32::MAX ==> (i32_outcome(Ipld::Integer(n)) matches Ok(VisitView::I32(x)) && x
            == n),
        !(i32::MIN <= n <= i32::MAX) ==> i32_outcome(Ipld::Integer(n)) == Err::<VisitView, DeError>(
            DeError::IntegerTooBig { target: Target::I32 },
        ),
        i64::MIN <= n <= i64::MAX ==> (i64_outcome(Ipld::Integer(n)) matches Ok(VisitView::I64(x)) && x
            == n),
        !(i64::MIN <= n <= i64::MAX) ==> i64_outcome(Ipld::Integer(n)) == Err::<VisitView, DeError>(
            DeError::IntegerTooBig { target: Target::I64 },
        ),
{
}

/// An integer reads as an unsigned integer type exactly when the type holds
/// it, and then as the same number; otherwise the error says it is too big.
pub proof fn law_unsigned_integers_read_in_range(n: i128)
    ensures
        0 <= n <= u8::MAX ==> (u8_outcome(Ipld::Integer(n)) matches Ok(VisitView::U8(x)) && x == n),
        !(0 <= n <= u8::MAX) ==> u8_outcome(Ipld::Integer(n)) == Err::<VisitView, DeError>(
            DeError::IntegerTooBig { target: Target::U8 },
        ),
        0 <= n <= u16::MAX ==> (u16_outcome(Ipld::Integer(n)) matches Ok(VisitView::U16(x)) && x == n),
        !(0 <= n <= u16::MAX) ==> u16_outcome(Ipld::Integer(n)) == Err::<VisitView, DeError>(
            DeError::IntegerTooBig { target: Target::U16 },
        ),
        0 <= n <= u32::MAX ==> (u32_outcome(Ipld::Integer(n)) matches Ok(VisitView::U32(x)) && x == n),
        !(0 <= n <= u32::MAX) ==> u32_outcome(Ipld::Integer(n)) == Err::<VisitView, DeError>(
            DeError::IntegerTooBig { target: Target::U32 },
        ),
        0 <= n <= u64::MAX ==> (u64_outcome(Ipld::Integer(n)) matches Ok(VisitView::U64(x)) && x == n),
        !(0 <= n <= u64::MAX) ==> u64_outcome(Ipld::Integer(n)) == Err::<VisitView, DeError>(
            DeError::IntegerTooBig { target: Target::U64 },
        ),
{
}

/// Only an integer reads as an integer type; anything else is of the wrong
/// kind.
pub proof fn law_integers_only_from_integers(v: Ipld)
    requires
        !(v is Integer),
    ensures
        i8_outcome(v) == Err::<VisitView, DeError>(DeError::WrongKind { target: Target::I8, found: v }),
        i16_outcome(v) == Err::<VisitView, DeError>(DeError::WrongKind { target: Target::I16, found: v }),
        i32_outcome(v) == Err::<VisitView, DeError>(DeError::WrongKind { target: Target::I32, found: v }),
        i64_outcome(v) == Err::<VisitView, DeError>(DeError::WrongKind { target: Target::I64, found: v }),
        u8_outcome(v) == Err::<VisitView, DeError>(DeError::WrongKind { target: Target::U8, found: v }),
        u16_outcome(v) == Err::<VisitView, DeError>(DeError::WrongKind { target: Target::U16, found: v }),
        u32_outcome(v) == Err::<VisitView, DeError>(DeError::WrongKind { target: Target::U32, found: v }),
        u64_outcome(v) == Err::<VisitView, DeError>(DeError::WrongKind { target: Target::U64, found: v }),
{
}

/// A float counts as not finite exactly when its exponent field (bits 52 to
/// 62) is all ones, which is infinity or NaN; every other float, zero
/// included, is handed over with its bits unchanged.
pub proof fn law_floats_finite_unless_exponent_all_ones(bits: u64)
    ensures
        is_finite_bits(bits) <==> (bits / 0x10_0000_0000_0000u64) % 0x800 != 0x7ff,
        (bits / 0x10_0000_0000_0000u64) % 0x800 != 0x7ff ==> float_outcome(Ipld::Float(bits), Target::F64)
            == Ok::<VisitView, DeError>(VisitView::F64(bits)) && float_outcome(
            Ipld::Float(bits),
            Target::F32,
        ) == Ok::<VisitView, DeError>(VisitView::F32(bits)),
        (bits / 0x10_0000_0000_0000u64) % 0x800 == 0x7ff ==> float_outcome(Ipld::Float(bits), Target::F64)
            == Err::<VisitView, DeError>(DeError::NotFinite { bits }) && float_outcome(
            Ipld::Float(bits),
            Target::F32,
        ) == Err::<VisitView, DeError>(DeError::NotFinite { bits }),
{
    assert((bits >> 52u64) & 0x7ffu64 == (bits / 0x10_0000_0000_0000u64) % 0x800) by (bit_vector);
}

/// Only a float reads as a float.
pub proof fn law_floats_only_from_floats(v: Ipld)
    requires
        !(v is Float),
    ensures
        float_outcome(v, Target::F64) == Err::<VisitView, DeError>(
            DeError::WrongKind { target: Target::F64, found: v },
        ),
        float_outcome(v, Target::F32) == Err::<VisitView, DeError>(
            DeError::WrongKind { target: Target::F32, found: v },
        ),
{
}

/// A self-describing consumer is handed each value as what it is: a list
/// item by item, in order, a link as a CID; a dictionary is refused.
pub proof fn law_any_hands_over_as_is(v: Ipld)
    ensures
        v is Null ==> any_outcome(v) == Ok::<VisitView, DeError>(VisitView::NoneValue),
        v matches Ipld::Bool(b) ==> any_outcome(v) == Ok::<VisitView, DeError>(VisitView::Bool(b)),
        v matches Ipld::Integer(i) ==> any_outcome(v) == Ok::<VisitView, DeError>(VisitView::I128(i)),
        v matches Ipld::Float(f) ==> any_outcome(v) == Ok::<VisitView, DeError>(VisitView::F64(f)),
        v matches Ipld::String(s) ==> (any_outcome(v) matches Ok(VisitView::Str(t)) && t == s@),
        v matches Ipld::Bytes(b) ==> (any_outcome(v) matches Ok(VisitView::Bytes(c)) && c == b@),
        v matches Ipld::List(xs) ==> (any_outcome(v) matches Ok(VisitView::Sequence(items)) && items.len()
            == xs@.len() && forall|i: int| 0 <= i < xs@.len() ==> #[trigger] items[i] == xs@[i]),
        v is Dict ==> any_outcome(v) == Err::<VisitView, DeError>(DeError::MapsUnsupported),
        v matches Ipld::Link(c) ==> (any_outcome(v) matches Ok(VisitView::NewtypeCid(d)) && d == c@),
{
}

/// A map is read from a list: every item of the list is an entry, handed out
/// in order, and no value is pending at the start; anything else is of the
/// wrong kind.
pub proof fn law_map_reads_every_entry(v: Ipld)
    ensures
        v matches Ipld::List(xs) ==> (map_outcome(v) matches Ok(VisitView::Mapping(es, pending))
            && es.len() == xs@.len() && (forall|i: int| 0 <= i < xs@.len() ==> #[trigger] es[i] == xs@[i])
            && pending is None),
        !(v is List) ==> map_outcome(v) == Err::<VisitView, DeError>(
            DeError::WrongKind { target: Target::MapFromList, found: v },
        ),
{
}

/// An enum is read from a list whose first item is an integer `idx` with
/// `0 <= idx < variants.len()`: the variant handed over is `variants[idx]`,
/// with no content when the tag stands alone and otherwise the list of the
/// items after the tag; any other first item is a bad tag, and an empty list
/// or a value that is no list is of the wrong kind.
pub proof fn law_enum_variant_named_by_index(v: Ipld, variants: Seq<&str>)
    ensures
        v matches Ipld::List(xs) ==> (xs@.len() >= 1 ==> match xs@[0] {
            Ipld::Integer(idx) => if 0 <= idx < variants.len() {
                enum_outcome(v, variants) matches Ok(VisitView::Enum(name, content)) && name
                    == variants[idx as int]@ && (xs@.len() == 1 ==> content is None) && (xs@.len() > 1
                    ==> (content matches Some(IpldView::List(cs)) && cs.len() == xs@.len() - 1
                    && forall|i: int| 0 <= i < cs.len() ==> #[trigger] cs[i] == xs@[i + 1]@))
            } else {
                enum_outcome(v, variants) == Err::<VisitView, DeError>(
                    DeError::BadEnumTag { variants: variants.len() as usize, tag: xs@[0] },
                )
            },
            _ => enum_outcome(v, variants) == Err::<VisitView, DeError>(
                DeError::BadEnumTag { variants: variants.len() as usize, tag: xs@[0] },
            ),
        }),
        !(v matches Ipld::List(xs) && xs@.len() >= 1) ==> enum_outcome(v, variants) == Err::<
            VisitView,
            DeError,
        >(DeError::WrongKind { target: Target::Enum, found: v }),
{
}

/// Only the empty list reads as unit.
pub proof fn law_unit_only_from_empty_list(v: Ipld)
    ensures
        (v matches Ipld::List(xs) && xs@.len() == 0) ==> unit_outcome(v) == Ok::<VisitView, DeError>(
            VisitView::Unit,
        ),
        !(v matches Ipld::List(xs) && xs@.len() == 0) ==> unit_outcome(v) == Err::<VisitView, DeError>(
            DeError::WrongKind { target: Target::Unit, found: v },
        ),
{
}

/// Only a boolean reads as a boolean, and as itself.
pub proof fn law_bool_only_from_bool(v: Ipld, b: bool)
    ensures
        v == Ipld::Bool(b) ==> bool_outcome(v) == Ok::<VisitView, DeError>(VisitView::Bool(b)),
        !(v is Bool) ==> bool_outcome(v) == Err::<VisitView, DeError>(
            DeError::WrongKind { target: Target::Bool, found: v },
        ),
{
}

/// A string of exactly one character reads as that character; a string of
/// another length is refused, and a value that is no string is of the wrong
/// kind.
pub proof fn law_char_from_single_character(v: Ipld)
    ensures
        v matches Ipld::String(s) ==> (s@.len() == 1 ==> (char_outcome(v) matches Ok(VisitView::Char(c))
            && seq![c] == s@)),
        v matches Ipld::String(s) ==> (s@.len() != 1 ==> char_outcome(v) == Err::<VisitView, DeError>(
            DeError::NotSingleChar,
        )),
        !(v is String) ==> char_outcome(v) == Err::<VisitView, DeError>(
            DeError::WrongKind { target: Target::Char, found: v },
        ),
{
    if let Ipld::String(s) = v {
        if s@.len() == 1 {
            assert(seq![s@[0]] =~= s@);
        }
    }
}

/// A string reads as its own characters, borrowed or owned as asked; bytes
/// read as their own bytes likewise; other values are of the wrong kind.
pub proof fn law_strings_and_bytes_as_they_are(v: Ipld, target: Target)
    ensures
        v matches Ipld::String(s) ==> (str_outcome(v, target, false) matches Ok(VisitView::Str(t)) && t
            == s@) && (str_outcome(v, target, true) matches Ok(VisitView::String(t)) && t == s@),
        !(v is String) ==> str_outcome(v, target, false) == Err::<VisitView, DeError>(
            DeError::WrongKind { target, found: v },
        ) && str_outcome(v, target, true) == Err::<VisitView, DeError>(
            DeError::WrongKind { target, found: v },
        ),
        v matches Ipld::Bytes(b) ==> (bytes_outcome(v, false) matches Ok(VisitView::Bytes(c)) && c == b@)
            && (bytes_outcome(v, true) matches Ok(VisitView::ByteBuf(c)) && c == b@),
        !(v is Bytes) ==> bytes_outcome(v, false) == Err::<VisitView, DeError>(
            DeError::WrongKind { target: Target::Bytes, found: v },
        ) && bytes_outcome(v, true) == Err::<VisitView, DeError>(
            DeError::WrongKind { target: Target::Bytes, found: v },
        ),
{
}

/// A list reads as a sequence (or struct) of its items in order, and as a
/// tuple of `len` fields exactly when it has `len` items; other values are
/// of the wrong kind.
pub proof fn law_lists_read_item_by_item(v: Ipld, target: Target, len: usize)
    ensures
        v matches Ipld::List(xs) ==> (seq_outcome(v, target) matches Ok(VisitView::Sequence(items))
            && items.len() == xs@.len() && forall|i: int| 0 <= i < xs@.len() ==> #[trigger] items[i] == xs@[i]),
        v matches Ipld::List(xs) ==> (xs@.len() == len ==> (tuple_outcome(v, len) matches Ok(VisitView::Sequence(items))
            && items.len() == xs@.len() && forall|i: int| 0 <= i < xs@.len() ==> #[trigger] items[i] == xs@[i])),
        v matches Ipld::List(xs) ==> (xs@.len() != len ==> tuple_outcome(v, len) == Err::<VisitView, DeError>(
            DeError::TupleLength { wanted: len, got: xs@.len() as usize },
        )),
        !(v is List) ==> seq_outcome(v, target) == Err::<VisitView, DeError>(
            DeError::WrongKind { target, found: v },
        ) && tuple_outcome(v, len) == Err::<VisitView, DeError>(
            DeError::WrongKind { target: Target::Tuple, found: v },
        ),
{
}

/// Asked for under the CID name, a link hands over its CID bytes and any
/// other value is of the wrong kind; under any other name the value itself
/// is handed over.
pub proof fn law_newtype_struct(v: Ipld, name: Seq<char>)
    ensures
        name == cid_identifier() ==> (v matches Ipld::Link(c) ==> (newtype_outcome(v, name) matches Ok(
            VisitView::NewtypeCid(d),
        ) && d == c@)),
        name == cid_identifier() && !(v is Link) ==> newtype_outcome(v, name) == Err::<VisitView, DeError>(
            DeError::WrongKind { target: Target::Cid, found: v },
        ),
        name != cid_identifier() ==> newtype_outcome(v, name) == Ok::<VisitView, DeError>(
            VisitView::Newtype(v),
        ),
{
}

/// Null reads as an absent option and every other value as a present one
/// holding that value.
pub proof fn law_option(v: Ipld)
    ensures
        v is Null ==> option_outcome(v) == Ok::<VisitView, DeError>(VisitView::NoneValue),
        !(v is Null) ==> option_outcome(v) == Ok::<VisitView, DeError>(VisitView::SomeValue(v)),
{
}

} // verus!
