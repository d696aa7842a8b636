use lurk_ipld_core::access::{MapDeserializer, SeqDeserializer};
use lurk_ipld_core::de::{float_bits_are_finite, visit_map, visit_seq, DeError, Target, Visit};
use lurk_ipld_core::ipld::Ipld;

fn string(s: &str) -> Ipld {
    Ipld::String(s.to_string())
}

fn list(items: Vec<Ipld>) -> Ipld {
    Ipld::List(items)
}

fn cid_bytes() -> Vec<u8> {
    cid::Cid::try_from("bafyreibjo4xmgaevkgud7mbifn3dzp4v4lyaui4yvqp3f2bqwtxcjrdqg4")
        .unwrap()
        .to_bytes()
}

fn drain(mut d: SeqDeserializer) -> Vec<Ipld> {
    let mut out = Vec::new();
    while let Some(v) = d.next_element_seed() {
        out.push(v);
    }
    out
}

fn is_wrong_kind(r: &Result<Visit, DeError>, t: Target) -> bool {
    matches!(r, Err(DeError::WrongKind { target, .. }) if *target == t)
}

fn is_too_big(r: &Result<Visit, DeError>, t: Target) -> bool {
    matches!(r, Err(DeError::IntegerTooBig { target }) if *target == t)
}

/// The documented example: a list read as a struct `Person { name, age, hobbies, is_cool }`.
#[test]
fn person_from_list_scenario() {
    let ipld = list(vec![
        string("Hello World!"),
        Ipld::Integer(52),
        list(vec![string("geography"), string("programming")]),
        Ipld::Bool(true),
    ]);
    let fields = ["name", "age", "hobbies", "is_cool"];
    let d = match ipld.deserialize_struct("Person", &fields) {
        Ok(Visit::Sequence(d)) => d,
        _ => panic!("a list reads as a struct"),
    };
    assert_eq!(d.size_hint(), Some(4));
    let mut items = drain(d).into_iter();
    match items.next().unwrap().deserialize_string() {
        Ok(Visit::String(s)) => assert_eq!(s, "Hello World!"),
        _ => panic!("name"),
    }
    match items.next().unwrap().deserialize_u8() {
        Ok(Visit::U8(age)) => assert_eq!(age, 52),
        _ => panic!("age"),
    }
    match items.next().unwrap().deserialize_seq() {
        Ok(Visit::Sequence(h)) => {
            let hobbies = drain(h);
            assert_eq!(hobbies, vec![string("geography"), string("programming")]);
        }
        _ => panic!("hobbies"),
    }
    match items.next().unwrap().deserialize_bool() {
        Ok(Visit::Bool(b)) => assert!(b),
        _ => panic!("is_cool"),
    }
}

#[test]
fn any_hands_over_each_kind() {
    assert!(matches!(Ipld::Null.deserialize_any(), Ok(Visit::NoneValue)));
    assert!(matches!(Ipld::Bool(false).deserialize_any(), Ok(Visit::Bool(false))));
    assert!(matches!(Ipld::Integer(-7).deserialize_any(), Ok(Visit::I128(-7))));
    assert!(matches!(Ipld::Float(0x3ff0_0000_0000_0000).deserialize_any(), Ok(Visit::F64(0x3ff0_0000_0000_0000))));
    assert!(matches!(string("x").deserialize_any(), Ok(Visit::Str(s)) if s == "x"));
    assert!(matches!(Ipld::Bytes(vec![1, 2]).deserialize_any(), Ok(Visit::Bytes(b)) if b == vec![1, 2]));
    match list(vec![Ipld::Integer(1), Ipld::Null]).deserialize_any() {
        Ok(Visit::Sequence(d)) => assert_eq!(drain(d), vec![Ipld::Integer(1), Ipld::Null]),
        _ => panic!("list"),
    }
    assert!(matches!(Ipld::Dict(vec![]).deserialize_any(), Err(DeError::MapsUnsupported)));
    match Ipld::Link(cid_bytes()).deserialize_any() {
        Ok(Visit::NewtypeCid(c)) => assert_eq!(c.bytes, cid_bytes()),
        _ => panic!("link"),
    }
}

#[test]
fn signed_integers_fit_or_fail() {
    assert!(matches!(Ipld::Integer(127).deserialize_i8(), Ok(Visit::I8(127))));
    assert!(matches!(Ipld::Integer(-128).deserialize_i8(), Ok(Visit::I8(-128))));
    assert!(is_too_big(&Ipld::Integer(128).deserialize_i8(), Target::I8));
    assert!(is_too_big(&Ipld::Integer(-129).deserialize_i8(), Target::I8));
    assert!(matches!(Ipld::Integer(32767).deserialize_i16(), Ok(Visit::I16(32767))));
    assert!(is_too_big(&Ipld::Integer(32768).deserialize_i16(), Target::I16));
    assert!(matches!(Ipld::Integer(-2147483648).deserialize_i32(), Ok(Visit::I32(-2147483648))));
    assert!(is_too_big(&Ipld::Integer(2147483648).deserialize_i32(), Target::I32));
    assert!(matches!(Ipld::Integer(i64::MAX as i128).deserialize_i64(), Ok(Visit::I64(i64::MAX))));
    assert!(is_too_big(&Ipld::Integer(i64::MIN as i128 - 1).deserialize_i64(), Target::I64));
    assert!(is_wrong_kind(&Ipld::Bool(true).deserialize_i32(), Target::I32));
}

#[test]
fn unsigned_integers_fit_or_fail() {
    assert!(matches!(Ipld::Integer(255).deserialize_u8(), Ok(Visit::U8(255))));
    assert!(is_too_big(&Ipld::Integer(256).deserialize_u8(), Target::U8));
    assert!(is_too_big(&Ipld::Integer(-1).deserialize_u8(), Target::U8));
    assert!(matches!(Ipld::Integer(65535).deserialize_u16(), Ok(Visit::U16(65535))));
    assert!(is_too_big(&Ipld::Integer(65536).deserialize_u16(), Target::U16));
    assert!(matches!(Ipld::Integer(4294967295).deserialize_u32(), Ok(Visit::U32(4294967295))));
    assert!(is_too_big(&Ipld::Integer(4294967296).deserialize_u32(), Target::U32));
    assert!(matches!(Ipld::Integer(u64::MAX as i128).deserialize_u64(), Ok(Visit::U64(u64::MAX))));
    assert!(is_too_big(&Ipld::Integer(u64::MAX as i128 + 1).deserialize_u64(), Target::U64));
    assert!(is_too_big(&Ipld::Integer(-1).deserialize_u64(), Target::U64));
    assert!(is_wrong_kind(&string("1").deserialize_u64(), Target::U64));
}

#[test]
fn floats_must_be_finite() {
    let one = 1.5f64.to_bits();
    let inf = f64::INFINITY.to_bits();
    let nan = f64::NAN.to_bits();
    assert!(float_bits_are_finite(one));
    assert!(float_bits_are_finite(f64::MAX.to_bits()));
    assert!(float_bits_are_finite((-0.0f64).to_bits()));
    assert!(!float_bits_are_finite(inf));
    assert!(!float_bits_are_finite(f64::NEG_INFINITY.to_bits()));
    assert!(!float_bits_are_finite(nan));
    assert!(matches!(Ipld::Float(one).deserialize_f64(), Ok(Visit::F64(b)) if b == one));
    assert!(matches!(Ipld::Float(inf).deserialize_f64(), Err(DeError::NotFinite { bits }) if bits == inf));
    assert!(matches!(Ipld::Float(one).deserialize_f32(), Ok(Visit::F32(b)) if b == one));
    assert!(matches!(Ipld::Float(nan).deserialize_f32(), Err(DeError::NotFinite { .. })));
    assert!(is_wrong_kind(&Ipld::Integer(1).deserialize_f64(), Target::F64));
    assert!(is_wrong_kind(&Ipld::Integer(1).deserialize_f32(), Target::F32));
}

#[test]
fn chars_are_single_character_strings() {
    assert!(matches!(string("a").deserialize_char(), Ok(Visit::Char('a'))));
    assert!(matches!(string("é").deserialize_char(), Ok(Visit::Char('é'))));
    assert!(matches!(string("ab").deserialize_char(), Err(DeError::NotSingleChar)));
    assert!(matches!(string("").deserialize_char(), Err(DeError::NotSingleChar)));
    assert!(is_wrong_kind(&Ipld::Integer(97).deserialize_char(), Target::Char));
}

#[test]
fn strings_and_bytes() {
    assert!(matches!(string("s").deserialize_str(), Ok(Visit::Str(s)) if s == "s"));
    assert!(matches!(string("s").deserialize_string(), Ok(Visit::String(s)) if s == "s"));
    assert!(matches!(string("id").deserialize_identifier(), Ok(Visit::Str(s)) if s == "id"));
    assert!(is_wrong_kind(&Ipld::Bytes(vec![]).deserialize_str(), Target::Str));
    assert!(is_wrong_kind(&Ipld::Bytes(vec![]).deserialize_string(), Target::Str));
    assert!(is_wrong_kind(&Ipld::Null.deserialize_identifier(), Target::Identifier));
    assert!(matches!(Ipld::Bytes(vec![9]).deserialize_bytes(), Ok(Visit::Bytes(b)) if b == vec![9]));
    assert!(matches!(Ipld::Bytes(vec![9]).deserialize_byte_buf(), Ok(Visit::ByteBuf(b)) if b == vec![9]));
    assert!(is_wrong_kind(&string("s").deserialize_bytes(), Target::Bytes));
    assert!(is_wrong_kind(&Ipld::Link(cid_bytes()).deserialize_byte_buf(), Target::Bytes));
}

#[test]
fn unit_bool_option_and_ignored() {
    assert!(matches!(list(vec![]).deserialize_unit(), Ok(Visit::Unit)));
    assert!(is_wrong_kind(&list(vec![Ipld::Null]).deserialize_unit(), Target::Unit));
    assert!(is_wrong_kind(&Ipld::Null.deserialize_unit(), Target::Unit));
    assert!(is_wrong_kind(&Ipld::Integer(0).deserialize_bool(), Target::Bool));
    assert!(matches!(Ipld::Null.deserialize_option(), Ok(Visit::NoneValue)));
    assert!(matches!(Ipld::Integer(3).deserialize_option(), Ok(Visit::SomeValue(Ipld::Integer(3)))));
    assert!(matches!(string("z").deserialize_ignored_any(), Ok(Visit::Unit)));
    assert!(matches!(Ipld::Null.deserialize_unit_struct("U"), Err(DeError::UnitStruct)));
    assert!(!Ipld::Null.is_human_readable());
}

#[test]
fn sequences_tuples_structs_and_maps() {
    match list(vec![Ipld::Integer(1), Ipld::Integer(2)]).deserialize_tuple(2) {
        Ok(Visit::Sequence(d)) => assert_eq!(drain(d), vec![Ipld::Integer(1), Ipld::Integer(2)]),
        _ => panic!("tuple"),
    }
    assert!(matches!(
        list(vec![Ipld::Integer(1)]).deserialize_tuple(2),
        Err(DeError::TupleLength { wanted: 2, got: 1 })
    ));
    assert!(matches!(
        list(vec![Ipld::Integer(1)]).deserialize_tuple_struct("T", 3),
        Err(DeError::TupleLength { wanted: 3, got: 1 })
    ));
    assert!(matches!(list(vec![]).deserialize_tuple_struct("T", 0), Ok(Visit::Sequence(_))));
    assert!(is_wrong_kind(&Ipld::Null.deserialize_tuple(0), Target::Tuple));
    assert!(is_wrong_kind(&Ipld::Null.deserialize_seq(), Target::Sequence));
    assert!(is_wrong_kind(&Ipld::Null.deserialize_struct("S", &[]), Target::Struct));
    assert!(is_wrong_kind(&Ipld::Dict(vec![]).deserialize_map(), Target::MapFromList));
    match list(vec![list(vec![string("k"), Ipld::Integer(1)])]).deserialize_map() {
        Ok(Visit::Mapping(d)) => assert_eq!(d.size_hint(), Some(1)),
        _ => panic!("map"),
    }
    assert!(matches!(visit_seq(vec![Ipld::Null]), Visit::Sequence(d) if d.size_hint() == Some(1)));
    assert!(matches!(visit_map(vec![]), Visit::Mapping(d) if d.size_hint() == Some(0)));
}

#[test]
fn newtype_structs_and_cids() {
    let marker = "$__private__serde__identifier__for__cid";
    match Ipld::Link(cid_bytes()).deserialize_newtype_struct(marker) {
        Ok(Visit::NewtypeCid(c)) => assert_eq!(c.deserialize_bytes(), cid_bytes()),
        _ => panic!("a link reads as a CID"),
    }
    assert!(is_wrong_kind(&Ipld::Bytes(cid_bytes()).deserialize_newtype_struct(marker), Target::Cid));
    assert!(matches!(
        Ipld::Bytes(vec![1]).deserialize_newtype_struct("Wrapper"),
        Ok(Visit::Newtype(Ipld::Bytes(b))) if b == vec![1]
    ));
    assert!(matches!(
        Ipld::Link(cid_bytes()).deserialize_newtype_struct("Wrapper"),
        Ok(Visit::Newtype(Ipld::Link(_)))
    ));
}

#[test]
fn map_deserializer_hands_out_pairs() {
    let entries = vec![
        list(vec![string("a"), Ipld::Integer(1)]),
        list(vec![string("b"), Ipld::Integer(2)]),
    ];
    let mut d = MapDeserializer::new(entries);
    assert_eq!(d.size_hint(), Some(2));
    assert!(matches!(d.next_value_seed(), Err(DeError::ValueMissing)));
    assert!(d.has_pair_or_end());
    assert_eq!(d.next_key_seed(), Some(string("a")));
    assert_eq!(d.size_hint(), Some(1));
    assert_eq!(d.next_value_seed().unwrap(), Ipld::Integer(1));
    assert!(matches!(d.next_value_seed(), Err(DeError::ValueMissing)));
    assert_eq!(d.next_key_seed(), Some(string("b")));
    assert_eq!(d.next_value_seed().unwrap(), Ipld::Integer(2));
    assert!(d.has_pair_or_end());
    assert_eq!(d.next_key_seed(), None);
    assert_eq!(d.size_hint(), Some(0));

    let bad = MapDeserializer::new(vec![list(vec![string("a")])]);
    assert!(!bad.has_pair_or_end());
    let bad = MapDeserializer::new(vec![Ipld::Null]);
    assert!(!bad.has_pair_or_end());
}

#[test]
fn seq_deserializer_hands_out_in_order() {
    let mut d = SeqDeserializer::new(vec![Ipld::Integer(1), Ipld::Integer(2), Ipld::Integer(3)]);
    assert_eq!(d.size_hint(), Some(3));
    assert_eq!(d.next_element_seed(), Some(Ipld::Integer(1)));
    assert_eq!(d.size_hint(), Some(2));
    assert_eq!(d.next_element_seed(), Some(Ipld::Integer(2)));
    assert_eq!(d.next_element_seed(), Some(Ipld::Integer(3)));
    assert_eq!(d.next_element_seed(), None);
    assert_eq!(d.next_element_seed(), None);
    assert_eq!(d.size_hint(), Some(0));
}
