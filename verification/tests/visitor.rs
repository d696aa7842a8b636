use lurk_ipld_core::access::SeqDeserializer;
use lurk_ipld_core::de::{DeError, Visit};
use lurk_ipld_core::dict::DictBuilder;
use lurk_ipld_core::ipld::Ipld;
use lurk_ipld_core::visitor::IpldVisitor;

fn cid_bytes() -> Vec<u8> {
    cid::Cid::try_from("bafyreibjo4xmgaevkgud7mbifn3dzp4v4lyaui4yvqp3f2bqwtxcjrdqg4")
        .unwrap()
        .to_bytes()
}

fn key(s: &str) -> String {
    s.to_string()
}

#[test]
fn visitor_builds_scalars() {
    assert_eq!(IpldVisitor.visit_str("hi"), Ipld::String(key("hi")));
    assert_eq!(IpldVisitor.visit_bytes(&[1, 2]), Ipld::Bytes(vec![1, 2]));
    assert_eq!(IpldVisitor.visit_byte_buf(vec![3]), Ipld::Bytes(vec![3]));
    assert_eq!(IpldVisitor.visit_u64(u64::MAX), Ipld::Integer(u64::MAX as i128));
    assert_eq!(IpldVisitor.visit_i64(-5), Ipld::Integer(-5));
    assert_eq!(IpldVisitor.visit_i128(i128::MIN), Ipld::Integer(i128::MIN));
    assert_eq!(IpldVisitor.visit_f64(2.5f64.to_bits()), Ipld::Float(2.5f64.to_bits()));
    assert_eq!(IpldVisitor.visit_bool(true), Ipld::Bool(true));
    assert_eq!(IpldVisitor.visit_none(), Ipld::Null);
    assert_eq!(
        IpldVisitor.visit_seq(vec![Ipld::Null, Ipld::Bool(false)]),
        Ipld::List(vec![Ipld::Null, Ipld::Bool(false)])
    );
}

#[test]
fn visitor_orders_map_keys_and_keeps_the_last_value() {
    let entries = vec![
        (key("b"), Ipld::Integer(1)),
        (key("a"), Ipld::Integer(2)),
        (key("ab"), Ipld::Integer(3)),
        (key("b"), Ipld::Integer(4)),
        (key(""), Ipld::Null),
        (key("é"), Ipld::Integer(5)),
        (key("z"), Ipld::Integer(6)),
    ];
    let expected = Ipld::Dict(vec![
        (key(""), Ipld::Null),
        (key("a"), Ipld::Integer(2)),
        (key("ab"), Ipld::Integer(3)),
        (key("b"), Ipld::Integer(4)),
        (key("z"), Ipld::Integer(6)),
        (key("é"), Ipld::Integer(5)),
    ]);
    assert_eq!(IpldVisitor.visit_map(entries), expected);
    assert_eq!(IpldVisitor.visit_map(vec![]), Ipld::Dict(vec![]));
}

#[test]
fn dict_builder_inserts_in_order() {
    let mut b = DictBuilder::new();
    b.insert(key("m"), Ipld::Integer(1));
    b.insert(key("c"), Ipld::Integer(2));
    b.insert(key("m"), Ipld::Integer(3));
    assert_eq!(
        b.finish(),
        Ipld::Dict(vec![(key("c"), Ipld::Integer(2)), (key("m"), Ipld::Integer(3))])
    );
}

#[test]
fn visitor_reads_links_from_cid_bytes() {
    let bytes = cid_bytes();
    assert_eq!(IpldVisitor.visit_newtype_struct(&bytes).unwrap(), Ipld::Link(bytes.clone()));
    // The crate reads a CID from the front of the bytes: trailing bytes are dropped.
    let mut longer = bytes.clone();
    longer.extend_from_slice(&[0xde, 0xad]);
    assert_eq!(IpldVisitor.visit_newtype_struct(&longer).unwrap(), Ipld::Link(bytes));
    assert!(matches!(IpldVisitor.visit_newtype_struct(&[0xff, 0xff]), Err(DeError::InvalidCid(_))));
    assert!(matches!(IpldVisitor.visit_newtype_struct(&[]), Err(DeError::InvalidCid(_))));
}

/// Drives the visitor with what `deserialize_any` hands over, as `Ipld::deserialize` does.
fn rebuild(v: Ipld) -> Result<Ipld, DeError> {
    match v.deserialize_any()? {
        Visit::NoneValue => Ok(IpldVisitor.visit_none()),
        Visit::Bool(b) => Ok(IpldVisitor.visit_bool(b)),
        Visit::I128(i) => Ok(IpldVisitor.visit_i128(i)),
        Visit::F64(bits) => Ok(IpldVisitor.visit_f64(bits)),
        Visit::Str(s) => Ok(IpldVisitor.visit_str(&s)),
        Visit::Bytes(b) => Ok(IpldVisitor.visit_bytes(&b)),
        Visit::Sequence(d) => {
            let mut d: SeqDeserializer = d;
            let mut items = Vec::new();
            while let Some(item) = d.next_element_seed() {
                items.push(rebuild(item)?);
            }
            Ok(IpldVisitor.visit_seq(items))
        }
        Visit::NewtypeCid(c) => IpldVisitor.visit_newtype_struct(&c.deserialize_bytes()),
        _ => panic!("deserialize_any hands over nothing else"),
    }
}

#[test]
fn ipld_roundtrips_through_deserialize_any() {
    let v = Ipld::List(vec![
        Ipld::Null,
        Ipld::Bool(true),
        Ipld::Integer(-3),
        Ipld::Float(0.25f64.to_bits()),
        Ipld::String(key("s")),
        Ipld::Bytes(vec![0, 1]),
        Ipld::List(vec![Ipld::Link(cid_bytes())]),
    ]);
    let expected = Ipld::List(vec![
        Ipld::Null,
        Ipld::Bool(true),
        Ipld::Integer(-3),
        Ipld::Float(0.25f64.to_bits()),
        Ipld::String(key("s")),
        Ipld::Bytes(vec![0, 1]),
        Ipld::List(vec![Ipld::Link(cid_bytes())]),
    ]);
    assert_eq!(rebuild(v).unwrap(), expected);
}

#[test]
fn dicts_do_not_roundtrip() {
    let v = Ipld::List(vec![Ipld::Integer(1), Ipld::Dict(vec![(key("k"), Ipld::Null)])]);
    assert!(matches!(rebuild(v), Err(DeError::MapsUnsupported)));
}
