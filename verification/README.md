# lurk_ipld_core

Deserialization of IPLD data-model values, verified with Verus.

- `src/ipld.rs`: the `Ipld` value, its model `IpldView` and well-formedness.
- `src/de.rs`: for each request that a serde consumer makes of an `Ipld`
  value, what it is handed (`Visit`) or which error it gets (`DeError`).
- `src/access.rs`: the sequence, map, enum, variant and CID deserializers.
- `src/visitor.rs`: building `Ipld` values from what a deserializer hands over.
- `src/dict.rs`: dictionaries kept in key order, as a `BTreeMap` keeps them.
- `src/cid_link.rs`: the calls into the `cid` crate.
- `src/laws.rs`: properties that span several functions.
- `app/`: the serde `Deserializer` and `Deserialize` implementations that
  perform what the library decides, `from_ipld`, and the error messages.
