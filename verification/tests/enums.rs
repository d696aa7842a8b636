use lurk_ipld_core::access::{CidDeserializer, EnumDeserializer, SeqDeserializer, VariantDeserializer};
use lurk_ipld_core::de::{DeError, Target, Unexpected, VariantShape, Visit};
use lurk_ipld_core::ipld::Ipld;

fn list(items: Vec<Ipld>) -> Ipld {
    Ipld::List(items)
}

fn drain(mut d: SeqDeserializer) -> Vec<Ipld> {
    let mut out = Vec::new();
    while let Some(v) = d.next_element_seed() {
        out.push(v);
    }
    out
}

const THREE: [&str; 3] = ["A", "B", "C"];

fn enum_of(v: Ipld, variants: &[&str]) -> EnumDeserializer {
    match v.deserialize_enum("E", variants) {
        Ok(Visit::Enum(e)) => e,
        _ => panic!("expected an enum"),
    }
}

#[test]
fn enum_tag_alone_has_no_content() {
    let e = enum_of(list(vec![Ipld::Integer(1)]), &THREE);
    assert_eq!(e.variant, "B");
    assert_eq!(e.value, None);
    let (name, variant) = e.variant_seed();
    assert_eq!(name, "B");
    assert!(variant.unit_variant().is_ok());
}

#[test]
fn enum_content_is_the_rest_of_the_list() {
    let e = enum_of(list(vec![Ipld::Integer(0), Ipld::Bool(true), Ipld::Null]), &["X", "Y"]);
    assert_eq!(e.variant, "X");
    assert_eq!(e.value, Some(list(vec![Ipld::Bool(true), Ipld::Null])));
}

#[test]
fn enum_bad_tags_and_kinds() {
    assert!(matches!(
        list(vec![Ipld::Integer(3)]).deserialize_enum("E", &THREE),
        Err(DeError::BadEnumTag { variants: 3, tag: Ipld::Integer(3) })
    ));
    assert!(matches!(
        list(vec![Ipld::Integer(-1)]).deserialize_enum("E", &THREE),
        Err(DeError::BadEnumTag { variants: 3, tag: Ipld::Integer(-1) })
    ));
    assert!(matches!(
        list(vec![Ipld::String("A".to_string())]).deserialize_enum("E", &THREE),
        Err(DeError::BadEnumTag { tag: Ipld::String(_), .. })
    ));
    assert!(matches!(
        list(vec![]).deserialize_enum("E", &THREE),
        Err(DeError::WrongKind { target: Target::Enum, found: Ipld::List(_) })
    ));
    assert!(matches!(
        Ipld::Integer(0).deserialize_enum("E", &THREE),
        Err(DeError::WrongKind { target: Target::Enum, found: Ipld::Integer(0) })
    ));
}

#[test]
fn unit_variant_rejects_content() {
    let e = enum_of(list(vec![Ipld::Integer(0), Ipld::Null]), &["Only"]);
    let (_, variant) = e.variant_seed();
    assert!(matches!(variant.unit_variant(), Err(DeError::WrongKind { target: Target::Unit, .. })));
    assert!(VariantDeserializer(Some(list(vec![]))).unit_variant().is_ok());
    assert!(VariantDeserializer(None).unit_variant().is_ok());
}

#[test]
fn newtype_variant_takes_exactly_one_value() {
    let v = VariantDeserializer(Some(list(vec![Ipld::Integer(7)])));
    assert_eq!(v.newtype_variant_seed().unwrap(), Ipld::Integer(7));
    let v = VariantDeserializer(Some(list(vec![Ipld::Integer(7), Ipld::Null])));
    assert!(matches!(
        v.newtype_variant_seed(),
        Err(DeError::InvalidType { unexpected: Unexpected::TupleVariant, shape: VariantShape::Newtype })
    ));
    let v = VariantDeserializer(None);
    assert!(matches!(
        v.newtype_variant_seed(),
        Err(DeError::InvalidType { unexpected: Unexpected::UnitVariant, shape: VariantShape::Newtype })
    ));
    let v = VariantDeserializer(Some(Ipld::Integer(7)));
    assert!(matches!(
        v.newtype_variant_seed(),
        Err(DeError::InvalidType { unexpected: Unexpected::UnitVariant, shape: VariantShape::Newtype })
    ));
}

#[test]
fn tuple_variant_needs_its_length() {
    let v = VariantDeserializer(Some(list(vec![Ipld::Integer(1), Ipld::Integer(2)])));
    assert_eq!(drain(v.tuple_variant(2).ok().unwrap()), vec![Ipld::Integer(1), Ipld::Integer(2)]);
    let v = VariantDeserializer(Some(list(vec![Ipld::Integer(1)])));
    assert!(matches!(v.tuple_variant(2), Err(DeError::TupleVariantLength { wanted: 2, got: 1 })));
    let v = VariantDeserializer(Some(Ipld::Null));
    assert!(matches!(
        v.tuple_variant(1),
        Err(DeError::WrongKind { target: Target::TupleVariant, found: Ipld::Null })
    ));
    let v = VariantDeserializer(None);
    assert!(matches!(
        v.tuple_variant(1),
        Err(DeError::InvalidType { unexpected: Unexpected::UnitVariant, shape: VariantShape::Tuple })
    ));
}

#[test]
fn struct_variant_reads_the_list() {
    let v = VariantDeserializer(Some(list(vec![Ipld::Bool(false)])));
    assert_eq!(drain(v.struct_variant(&["f"]).ok().unwrap()), vec![Ipld::Bool(false)]);
    let v = VariantDeserializer(Some(Ipld::Bool(false)));
    assert!(matches!(
        v.struct_variant(&["f"]),
        Err(DeError::WrongKind { target: Target::StructVariant, found: Ipld::Bool(false) })
    ));
    let v = VariantDeserializer(None);
    assert!(matches!(
        v.struct_variant(&["f"]),
        Err(DeError::InvalidType { unexpected: Unexpected::UnitVariant, shape: VariantShape::Struct })
    ));
}

#[test]
fn cid_deserializer_gives_only_bytes() {
    let c = CidDeserializer { bytes: vec![1, 2, 3] };
    assert!(matches!(c.deserialize_any(), Err(DeError::CidOnlyBytes)));
    let c = CidDeserializer { bytes: vec![1, 2, 3] };
    assert_eq!(c.deserialize_bytes(), vec![1, 2, 3]);
}
