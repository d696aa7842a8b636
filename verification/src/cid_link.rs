use vstd::prelude::*;

verus! {

#[verifier::external_type_specification]
#[verifier::external_body]
pub struct ExCidError(cid::Error);

/// The binary encoding of the CID that the `cid` crate reads from the front of
/// `bytes`, or `None` where it reads none.
pub uninterp spec fn cid_reading(bytes: Seq<u8>) -> Option<Seq<u8>>;

/// Whether `bytes` is the binary encoding of a CID exactly as the `cid` crate
/// writes it.
pub open spec fn is_cid_encoding(bytes: Seq<u8>) -> bool {
    cid_reading(bytes) == Some(bytes)
}

/// Reads a CID from the front of `bytes` with `cid::Cid::try_from(&[u8])` and
/// returns its binary encoding, as `cid::Cid::to_bytes` writes it, or the
/// crate's error. The contract claims that the result is a function of `bytes`
/// alone, and that reading the encoding that comes back gives that encoding
/// again (the crate writes the version, the codec and the multihash that it
/// read, each in its shortest form). What the error holds is left unsaid.
#[verifier::external_body]
pub(crate) fn read_cid(bytes: &[u8]) -> (r: Result<Vec<u8>, cid::Error>)
    ensures
        r is Ok <==> cid_reading(bytes@) is Some,
        r matches Ok(c) ==> Some(c@) == cid_reading(bytes@) && is_cid_encoding(c@),
{
    match cid::Cid::try_from(bytes) {
        Ok(c) => Ok(c.to_bytes()),
        Err(e) => Err(e),
    }
}

/// The name under which serde implementations that know CIDs ask for one:
/// `cid::serde::CID_SERDE_PRIVATE_IDENTIFIER`.
pub open spec fn cid_identifier() -> Seq<char> {
    "$__private__serde__identifier__for__cid"@
}

/// Compares `name` with `cid::serde::CID_SERDE_PRIVATE_IDENTIFIER`; the
/// contract claims that this constant is the string that the crate's source
/// gives it.
#[verifier::external_body]
pub(crate) fn is_cid_identifier(name: &str) -> (b: bool)
    ensures
        b == (name@ == cid_identifier()),
{
    name == cid::serde::CID_SERDE_PRIVATE_IDENTIFIER
}

} // verus!
