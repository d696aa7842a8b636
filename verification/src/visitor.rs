use vstd::prelude::*;

use crate::access::into_stack;
use crate::cid_link::{cid_reading, read_cid};
use crate::de::{any_outcome, DeError, VisitView};
use crate::dict::{dict_model, inserted_all, keys_sorted, DictBuilder};
use crate::ipld::{ipld_wf, views_of, Ipld, IpldView};

verus! {

/// Builds [`Ipld`] values from what a deserializer hands over: this is how an
/// [`Ipld`] value is deserialized from any data format.
pub struct IpldVisitor;

/// What the visitor builds from each thing that [`Ipld::deserialize_any`]
/// hands over, short of a sequence, whose items are built one by one.
pub open spec fn any_visited(a: VisitView) -> Option<IpldView> {
    match a {
        VisitView::NoneValue => Some(IpldView::Null),
        VisitView::Bool(b) => Some(IpldView::Bool(b)),
        VisitView::I128(i) => Some(IpldView::Integer(i as int)),
        VisitView::F64(bits) => Some(IpldView::Float(bits)),
        VisitView::Str(s) => Some(IpldView::String(s)),
        VisitView::Bytes(b) => Some(IpldView::Bytes(b)),
        VisitView::NewtypeCid(c) => match cid_reading(c) {
            Some(e) => Some(IpldView::Link(e)),
            None => None,
        },
        _ => None,
    }
}

impl IpldVisitor {
    pub fn visit_str(self, value: &str) -> (r: Ipld)
        ensures
            r@ == IpldView::String(value@),
            Some(r@) == any_visited(VisitView::Str(value@)),
            ipld_wf(r),
    {
        Ipld::String(value.to_owned())
    }

    pub fn visit_bytes(self, v: &[u8]) -> (r: Ipld)
        ensures
            r@ == IpldView::Bytes(v@),
            Some(r@) == any_visited(VisitView::Bytes(v@)),
            ipld_wf(r),
    {
        Ipld::Bytes(vstd::slice::slice_to_vec(v))
    }

    pub fn visit_byte_buf(self, v: Vec<u8>) -> (r: Ipld)
        ensures
            r == Ipld::Bytes(v),
            ipld_wf(r),
    {
        Ipld::Bytes(v)
    }

    pub fn visit_u64(self, v: u64) -> (r: Ipld)
        ensures
            r == Ipld::Integer(v as i128),
            ipld_wf(r),
    {
        Ipld::Integer(v as i128)
    }

    pub fn visit_i64(self, v: i64) -> (r: Ipld)
        ensures
            r == Ipld::Integer(v as i128),
            ipld_wf(r),
    {
        Ipld::Integer(v as i128)
    }

    pub fn visit_i128(self, v: i128) -> (r: Ipld)
        ensures
            r == Ipld::Integer(v),
            Some(r@) == any_visited(VisitView::I128(v)),
            ipld_wf(r),
    {
        Ipld::Integer(v)
    }

    /// A float, by its IEEE-754 binary64 bits.
    pub fn visit_f64(self, bits: u64) -> (r: Ipld)
        ensures
            r == Ipld::Float(bits),
            Some(r@) == any_visited(VisitView::F64(bits)),
            ipld_wf(r),
    {
        Ipld::Float(bits)
    }

    pub fn visit_bool(self, v: bool) -> (r: Ipld)
        ensures
            r == Ipld::Bool(v),
            Some(r@) == any_visited(VisitView::Bool(v)),
            ipld_wf(r),
    {
        Ipld::Bool(v)
    }

    pub fn visit_none(self) -> (r: Ipld)
        ensures
            r == Ipld::Null,
            Some(r@) == any_visited(VisitView::NoneValue),
            ipld_wf(r),
    {
        Ipld::Null
    }

    /// A list of the items that the sequence held, each already built.
    pub fn visit_seq(self, items: Vec<Ipld>) -> (r: Ipld)
        ensures
            r == Ipld::List(items),
            r@ == IpldView::List(views_of(items@)),
            ipld_wf(r) <==> forall|i: int| 0 <= i < items@.len() ==> ipld_wf(#[trigger] items@[i]),
    {
        proof {
            crate::ipld::lemma_list_view(items);
        }
        Ipld::List(items)
    }

    /// A dictionary of the map's entries, inserted in order as into a
    /// `BTreeMap`: keys in order, a later entry replacing the value of an
    /// earlier one with the same key.
    pub fn visit_map(self, entries: Vec<(String, Ipld)>) -> (r: Ipld)
        ensures
            r matches Ipld::Dict(es) && keys_sorted(es@) && dict_model(es@) == inserted_all(
                Map::empty(),
                entries@,
            ),
            (forall|i: int| 0 <= i < entries@.len() ==> ipld_wf(#[trigger] entries@[i].1)) ==> ipld_wf(r),
    {
        let ghost orig = entries@;
        let mut stack = into_stack(entries);
        let mut builder = DictBuilder::new();
        let ghost mut k: int = 0;
        assert(orig.subrange(0, 0) =~= Seq::<(String, Ipld)>::empty());
        while stack.len() > 0
            invariant
                builder.wf(),
                0 <= k <= orig.len(),
                stack@.len() == orig.len() - k,
                forall|i: int|
                    0 <= i < orig.len() ==> #[trigger] stack@[stack@.len() - 1 - (i - k)]
                        == orig[i] || i < k,
                keys_sorted(builder.entries()),
                dict_model(builder.entries()) == inserted_all(Map::empty(), orig.subrange(0, k)),
                forall|i: int|
                    0 <= i < builder.entries().len() ==> exists|j: int|
                        0 <= j < k && #[trigger] builder.entries()[i].1 == orig[j].1,
            decreases stack@.len(),
        {
            let ghost before = builder.entries();
            assert(stack@[stack@.len() - 1 - (k - k)] == orig[k]);
            let (key, value) = stack.pop().unwrap();
            builder.insert(key, value);
            proof {
                let sub = orig.subrange(0, k + 1);
                assert(sub.drop_last() =~= orig.subrange(0, k));
                assert(sub.last() == orig[k]);
                assert forall|i: int| 0 <= i < builder.entries().len() implies exists|j: int|
                    0 <= j < k + 1 && #[trigger] builder.entries()[i].1 == orig[j].1 by {
                    if builder.entries()[i].1 != value {
                        let j0 = choose|j: int| 0 <= j < before.len() && builder.entries()[i].1 == before[j].1;
                        assert(before[j0].1 == builder.entries()[i].1);
                        let j1 = choose|j: int| 0 <= j < k && #[trigger] before[j0].1 == orig[j].1;
                        assert(builder.entries()[i].1 == orig[j1].1);
                    } else {
                        assert(builder.entries()[i].1 == orig[k].1);
                    }
                }
                assert forall|i: int| 0 <= i < orig.len() implies #[trigger] stack@[stack@.len() - 1 - (i - (k
                    + 1))] == orig[i] || i < k + 1 by {
                    if i >= k + 1 {
                        assert(stack@[stack@.len() - 1 - (i - (k + 1))] == stack@[(stack@.len() + 1) - 1 - (i
                            - k)]);
                    }
                }
                k = k + 1;
            }
        }
        assert(orig.subrange(0, k) =~= orig);
        let r = builder.finish();
        proof {
            if forall|i: int| 0 <= i < orig.len() ==> ipld_wf(#[trigger] orig[i].1) {
                if let Ipld::Dict(es) = &r {
                    assert forall|i: int| 0 <= i < es.len() implies ipld_wf(#[trigger] es[i].1) by {
                        let j = choose|j: int| 0 <= j < k && #[trigger] builder.entries()[i].1 == orig[j].1;
                        assert(ipld_wf(orig[j].1));
                    }
                }
            }
        }
        r
    }

    /// A link to the CID that the bytes that a newtype struct holds encode.
    pub fn visit_newtype_struct(self, bytes: &[u8]) -> (r: Result<Ipld, DeError>)
        ensures
            match cid_reading(bytes@) {
                Some(c) => r matches Ok(l) && l@ == IpldView::Link(c) && ipld_wf(l),
                None => r matches Err(DeError::InvalidCid(_)),
            },
            match r {
                Ok(l) => Some(l@) == any_visited(VisitView::NewtypeCid(bytes@)),
                Err(_) => any_visited(VisitView::NewtypeCid(bytes@)) is None,
            },
    {
        match read_cid(bytes) {
            Ok(c) => Ok(Ipld::Link(c)),
            Err(e) => Err(DeError::InvalidCid(e)),
        }
    }
}

} // verus!

verus! {

/// What deserializing an [`Ipld`] value from the value `v` itself builds:
/// [`Ipld::deserialize_any`] hands over what `v` holds, and the visitor builds
/// from it; the items of a sequence are each built by the same process, in
/// order, and the first that fails fails the whole.
pub open spec fn ipld_from_ipld(v: Ipld) -> Option<IpldView>
    decreases v,
{
    match v {
        Ipld::List(xs) => match any_outcome(v) {
            Ok(VisitView::Sequence(items)) => {
                if forall|i: int| 0 <= i < xs.len() ==> ipld_from_ipld(#[trigger] xs[i]) is Some {
                    Some(
                        IpldView::List(
                            Seq::new(
                                items.len(),
                                |i: int|
                                    if 0 <= i < xs.len() {
                                        ipld_from_ipld(xs[i])->0
                                    } else {
                                        IpldView::Null
                                    },
                            ),
                        ),
                    )
                } else {
                    None
                }
            },
            _ => None,
        },
        _ => match any_outcome(v) {
            Ok(a) => any_visited(a),
            Err(_) => None,
        },
    }
}

} // verus!
