use vstd::prelude::*;

use crate::cid_link::is_cid_encoding;
use crate::dict::keys_sorted;

verus! {

/// A value of the IPLD data model.
///
/// Floats are held as the bit pattern of an IEEE-754 binary64 number, and a
/// link holds the binary encoding of its CID.
#[derive(Debug, PartialEq, Eq)]
pub enum Ipld {
    /// The null value.
    Null,
    /// A boolean.
    Bool(bool),
    /// An integer.
    Integer(i128),
    /// A float, by the bits of its IEEE-754 binary64 form.
    Float(u64),
    /// A UTF-8 string.
    String(String),
    /// A byte string.
    Bytes(Vec<u8>),
    /// A list of values.
    List(Vec<Ipld>),
    /// A map from strings to values, its entries in key order.
    Dict(Vec<(String, Ipld)>),
    /// A link, by the binary encoding of its CID.
    Link(Vec<u8>),
}

/// The mathematical model of an [`Ipld`] value.
pub enum IpldView {
    Null,
    Bool(bool),
    Integer(int),
    Float(u64),
    String(Seq<char>),
    Bytes(Seq<u8>),
    List(Seq<IpldView>),
    Dict(Seq<(Seq<char>, IpldView)>),
    Link(Seq<u8>),
}

pub open spec fn ipld_view(v: Ipld) -> IpldView
    decreases v,
{
    match v {
        Ipld::Null => IpldView::Null,
        Ipld::Bool(b) => IpldView::Bool(b),
        Ipld::Integer(i) => IpldView::Integer(i as int),
        Ipld::Float(bits) => IpldView::Float(bits),
        Ipld::String(s) => IpldView::String(s@),
        Ipld::Bytes(b) => IpldView::Bytes(b@),
        Ipld::List(xs) => IpldView::List(
            Seq::new(
                xs.len() as nat,
                |i: int|
                    if 0 <= i < xs.len() {
                        ipld_view(xs[i])
                    } else {
                        IpldView::Null
                    },
            ),
        ),
        Ipld::Dict(es) => IpldView::Dict(
            Seq::new(
                es.len() as nat,
                |i: int|
                    if 0 <= i < es.len() {
                        (es[i].0@, ipld_view(es[i].1))
                    } else {
                        (Seq::empty(), IpldView::Null)
                    },
            ),
        ),
        Ipld::Link(c) => IpldView::Link(c@),
    }
}

/// The models of a sequence of values.
pub open spec fn views_of(xs: Seq<Ipld>) -> Seq<IpldView> {
    Seq::new(xs.len(), |i: int| ipld_view(xs[i]))
}

/// A list's model is the list of its items' models.
pub proof fn lemma_list_view(xs: Vec<Ipld>)
    ensures
        ipld_view(Ipld::List(xs)) == IpldView::List(views_of(xs@)),
{
    if let IpldView::List(s) = ipld_view(Ipld::List(xs)) {
        assert(s =~= views_of(xs@));
    }
}

/// Well-formedness: every link holds a CID encoding as the `cid` crate
/// writes it, and the keys of every dictionary strictly increase.
pub open spec fn ipld_wf(v: Ipld) -> bool
    decreases v,
{
    match v {
        Ipld::List(xs) => forall|i: int| 0 <= i < xs.len() ==> ipld_wf(#[trigger] xs[i]),
        Ipld::Dict(es) => keys_sorted(es@) && forall|i: int|
            0 <= i < es.len() ==> ipld_wf(#[trigger] es[i].1),
        Ipld::Link(c) => is_cid_encoding(c@),
        _ => true,
    }
}

/// Whether a dictionary occurs anywhere in `v`.
pub open spec fn has_dict(v: Ipld) -> bool
    decreases v,
{
    match v {
        Ipld::List(xs) => exists|i: int| 0 <= i < xs.len() && has_dict(#[trigger] xs[i]),
        Ipld::Dict(_) => true,
        _ => false,
    }
}

impl View for Ipld {
    type V = IpldView;

    open spec fn view(&self) -> IpldView {
        ipld_view(*self)
    }
}

} // verus!
