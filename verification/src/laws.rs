use vstd::prelude::*;

use crate::access::{
    is_key_value_pair,
    key_step,
    seq_step,
    unit_variant_outcome,
    value_step,
    EnumDeserializer,
};
use crate::cid_link::{cid_identifier, cid_reading};
use crate::de::{any_outcome, bytes_outcome, enum_outcome, newtype_outcome, DeError, Visit, VisitView};
use crate::ipld::{has_dict, ipld_view, ipld_wf, lemma_list_view, views_of, Ipld, IpldView};
use crate::dict::{
    agree_below,
    bytes_lt,
    dict_model,
    inserted_all,
    key_bytes,
    keys_sorted,
    lemma_bytes_lt_irreflexive,
};
use crate::visitor::ipld_from_ipld;

verus! {

/// Deserializing an [`Ipld`] value from a well-formed [`Ipld`] value gives it
/// back, unless a dictionary occurs in it, which is never handed over.
pub proof fn law_ipld_roundtrip(v: Ipld)
    requires
        ipld_wf(v),
    ensures
        ipld_from_ipld(v) == if has_dict(v) {
            None
        } else {
            Some(v@)
        },
    decreases v,
{
    match v {
        Ipld::List(xs) => {
            assert forall|i: int| 0 <= i < xs.len() implies #[trigger] ipld_from_ipld(xs[i]) == if has_dict(
                xs[i],
            ) {
                None
            } else {
                Some(xs[i]@)
            } by {
                law_ipld_roundtrip(xs[i]);
            }
            lemma_list_view(xs);
            if has_dict(v) {
                let i = choose|i: int| 0 <= i < xs.len() && has_dict(#[trigger] xs[i]);
                assert(ipld_from_ipld(xs[i]) is None);
            } else {
                assert forall|i: int| 0 <= i < xs.len() implies #[trigger] ipld_from_ipld(xs[i]) == Some(
                    xs[i]@,
                ) by {
                    assert(!has_dict(xs[i]));
                }
                assert(any_outcome(v) == Ok::<VisitView, DeError>(VisitView::Sequence(xs@)));
                assert(forall|i: int| 0 <= i < xs.len() ==> ipld_from_ipld(#[trigger] xs[i]) is Some);
                assert(ipld_from_ipld(v) is Some);
                let t = ipld_from_ipld(v)->0;
                assert(t is List);
                let s = t->List_0;
                assert(s.len() == xs@.len());
                assert forall|i: int| 0 <= i < s.len() implies s[i] == views_of(xs@)[i] by {
                    assert(ipld_from_ipld(xs[i]) == Some(xs[i]@));
                }
                assert(s =~= views_of(xs@));
            }
        },
        Ipld::Link(c) => {
            assert(cid_reading(c@) == Some(c@));
        },
        _ => {},
    }
}

/// Only a link is handed over as a CID, and a link only as a CID; bytes are
/// handed over only from bytes.
pub proof fn law_cids_only_from_links(v: Ipld)
    ensures
        newtype_outcome(v, cid_identifier()) is Ok <==> v is Link,
        (any_outcome(v) matches Ok(VisitView::NewtypeCid(_))) <==> v is Link,
        bytes_outcome(v, false) is Ok ==> v is Bytes,
        bytes_outcome(v, true) is Ok ==> v is Bytes,
{
}

/// The unit variant of an enum is accepted exactly when the list holds the
/// variant's index alone.
pub proof fn law_unit_variant_iff_index_alone(v: Ipld, variants: Seq<&str>, e: EnumDeserializer)
    requires
        enum_outcome(v, variants) == Ok::<VisitView, DeError>(Visit::Enum(e)@),
    ensures
        unit_variant_outcome(e.value) is Ok <==> (v matches Ipld::List(xs) && xs@.len() == 1),
{
    if let Ipld::List(xs) = v {
        if xs@.len() > 1 {
            let p = e.value->0;
            assert(ipld_view(p) == IpldView::List(views_of(xs@.subrange(1, xs@.len() as int))));
            if let Ipld::List(ys) = p {
                lemma_list_view(ys);
                assert(views_of(ys@).len() == ys@.len());
            }
        }
    }
}

/// The items handed out and the items left after taking `k` items.
pub open spec fn seq_steps(items: Seq<Ipld>, k: nat) -> (Seq<Option<Ipld>>, Seq<Ipld>)
    decreases k,
{
    if k == 0 {
        (Seq::empty(), items)
    } else {
        let (out, rest) = seq_steps(items, (k - 1) as nat);
        (out.push(seq_step(rest).0), seq_step(rest).1)
    }
}

/// A sequence deserializer hands out the list's items in order, each once,
/// and then nothing.
pub proof fn law_seq_items_in_order(items: Seq<Ipld>, k: nat)
    ensures
        seq_steps(items, k).0.len() == k,
        forall|i: int|
            0 <= i < k ==> #[trigger] seq_steps(items, k).0[i] == if i < items.len() {
                Some(items[i])
            } else {
                None
            },
        seq_steps(items, k).1 == if k <= items.len() {
            items.skip(k as int)
        } else {
            Seq::empty()
        },
    decreases k,
{
    if k > 0 {
        law_seq_items_in_order(items, (k - 1) as nat);
        let rest = seq_steps(items, (k - 1) as nat).1;
        if k - 1 < items.len() {
            assert(rest[0] == items[k - 1]);
            assert(rest.drop_first() =~= items.skip(k as int));
        } else {
            assert(rest =~= Seq::<Ipld>::empty());
        }
    } else {
        assert(items.skip(0) =~= items);
    }
}

/// An entry of a map is handed out key first, then value; its value is
/// handed out once.
pub proof fn law_map_key_then_value(entries: Seq<Ipld>, pending: Option<Ipld>)
    requires
        entries.len() > 0,
        is_key_value_pair(entries[0]),
    ensures
        ({
            let (key, rest, held) = key_step(entries, pending);
            let (value, rest2, held2) = value_step(rest, held);
            let (again, _, _) = value_step(rest2, held2);
            &&& entries[0] matches Ipld::List(xs) && key == Some(xs@[0]) && value == Ok::<Ipld, DeError>(xs@[1])
            &&& rest2 == entries.drop_first()
            &&& again == Err::<Ipld, DeError>(DeError::ValueMissing)
        }),
{
}

/// The first place at or after `n` at which `a` and `b` differ, or the end of
/// the shorter one.
proof fn lemma_first_difference(a: Seq<u8>, b: Seq<u8>, n: int) -> (m: int)
    requires
        0 <= n <= a.len(),
        n <= b.len(),
        agree_below(a, b, n),
    ensures
        n <= m <= a.len(),
        m <= b.len(),
        agree_below(a, b, m),
        m == a.len() || m == b.len() || a[m] != b[m],
    decreases a.len() - n,
{
    if n == a.len() || n == b.len() || a[n] != b[n] {
        n
    } else {
        assert(agree_below(a, b, n + 1));
        lemma_first_difference(a, b, n + 1)
    }
}

/// Keys are ordered lexicographically by their bytes: a proper prefix comes
/// first, at the first differing place the smaller byte comes first, and of
/// two different byte strings exactly one comes first.
pub proof fn law_key_order_is_lexicographic(a: Seq<u8>, b: Seq<u8>)
    ensures
        a != b ==> (bytes_lt(a, b) || bytes_lt(b, a)),
        !(bytes_lt(a, b) && bytes_lt(b, a)),
        !bytes_lt(a, a),
        a.len() < b.len() && a == b.subrange(0, a.len() as int) ==> bytes_lt(a, b),
        forall|n: int|
            0 <= n < a.len() && n < b.len() && a.subrange(0, n) == b.subrange(0, n) && a[n] < b[n]
                ==> #[trigger] bytes_lt(a, b),
        bytes_lt(a, b) ==> a != b,
{
    lemma_bytes_lt_irreflexive(a);
    if bytes_lt(a, b) && bytes_lt(b, a) {
        crate::dict::lemma_bytes_lt_transitive(a, b, a);
    }
    assert(agree_below(a, b, 0));
    let m = lemma_first_difference(a, b, 0);
    assert(agree_below(b, a, m));
    if a != b {
        if m == a.len() && m == b.len() {
            assert(a =~= b);
        }
    }
    if a.len() < b.len() && a == b.subrange(0, a.len() as int) {
        assert(agree_below(a, b, a.len() as int));
    }
    assert forall|n: int|
        0 <= n < a.len() && n < b.len() && a.subrange(0, n) == b.subrange(0, n) && a[n] < b[n]
            implies #[trigger] bytes_lt(a, b) by {
        assert forall|i: int| 0 <= i < n implies a[i] == b[i] by {
            assert(a.subrange(0, n)[i] == b.subrange(0, n)[i]);
        }
        assert(agree_below(a, b, n));
    }
}

/// Two keys have the same bytes exactly when they are the same string.
pub proof fn law_key_bytes_identify_keys(k1: String, k2: String)
    ensures
        key_bytes(k1) == key_bytes(k2) <==> k1@ == k2@,
{
    vstd::utf8::encode_utf8_decode_utf8(k1@);
    vstd::utf8::encode_utf8_decode_utf8(k2@);
}

/// Entries whose keys strictly increase stand for the map from each entry's
/// key to that entry's value, and from no other key.
pub proof fn law_sorted_entries_are_their_map(es: Seq<(String, Ipld)>)
    requires
        keys_sorted(es),
    ensures
        forall|i: int|
            0 <= i < es.len() ==> dict_model(es).contains_key(#[trigger] es[i].0@) && dict_model(es)[es[i].0@]
                == es[i].1,
        forall|k: Seq<char>|
            #[trigger] dict_model(es).contains_key(k) ==> exists|i: int| #![trigger es[i]] 0 <= i < es.len() && es[i].0@ == k,
    decreases es.len(),
{
    if es.len() > 0 {
        let d = es.drop_last();
        assert(keys_sorted(d)) by {
            assert forall|i: int, j: int| 0 <= i < j < d.len() implies bytes_lt(
                #[trigger] key_bytes(d[i].0),
                #[trigger] key_bytes(d[j].0),
            ) by {
                assert(d[i] == es[i] && d[j] == es[j]);
            }
        }
        law_sorted_entries_are_their_map(d);
        let last = es.last();
        assert forall|i: int| 0 <= i < es.len() implies dict_model(es).contains_key(#[trigger] es[i].0@)
            && dict_model(es)[es[i].0@] == es[i].1 by {
            if i < es.len() - 1 {
                assert(d[i] == es[i]);
                assert(bytes_lt(key_bytes(es[i].0), key_bytes(es[es.len() - 1].0)));
                lemma_bytes_lt_irreflexive(key_bytes(es[i].0));
                assert(es[i].0@ != last.0@);
            }
        }
        assert forall|k: Seq<char>| #[trigger] dict_model(es).contains_key(k) implies exists|i: int| #![trigger es[i]] 0 <= i < es.len() && es[i].0@ == k by {
            if k != last.0@ {
                assert(dict_model(d).contains_key(k));
                let i = choose|i: int| #![trigger d[i]] 0 <= i < d.len() && d[i].0@ == k;
                assert(es[i] == d[i]);
            } else {
                assert(es[es.len() - 1] == last);
            }
        }
    }
}

/// Inserting entries in order gives a map whose keys are the entries' keys.
pub proof fn law_inserted_entries_keys(es: Seq<(String, Ipld)>, k: Seq<char>)
    ensures
        inserted_all(Map::empty(), es).contains_key(k) <==> exists|i: int| #![trigger es[i]] 0 <= i < es.len() && es[i].0@ == k,
    decreases es.len(),
{
    if es.len() > 0 {
        let d = es.drop_last();
        law_inserted_entries_keys(d, k);
        if exists|i: int| #![trigger es[i]] 0 <= i < es.len() && es[i].0@ == k {
            let i = choose|i: int| #![trigger es[i]] 0 <= i < es.len() && es[i].0@ == k;
            if i < es.len() - 1 {
                assert(d[i] == es[i]);
            } else {
                assert(es.last() == es[i]);
            }
        }
        if inserted_all(Map::empty(), d).contains_key(k) {
            let i = choose|i: int| #![trigger d[i]] 0 <= i < d.len() && d[i].0@ == k;
            assert(es[i] == d[i]);
        }
        if es.last().0@ == k {
            assert(es[es.len() - 1] == es.last());
        }
    }
}

/// Inserting entries in order maps each key to the value of the last entry
/// with that key.
pub proof fn law_inserted_entries_last_one_wins(es: Seq<(String, Ipld)>, j: int)
    requires
        0 <= j < es.len(),
        forall|i: int| j < i < es.len() ==> #[trigger] es[i].0@ != es[j].0@,
    ensures
        inserted_all(Map::empty(), es)[es[j].0@] == es[j].1,
    decreases es.len(),
{
    let d = es.drop_last();
    if j < es.len() - 1 {
        assert(es[es.len() - 1].0@ != es[j].0@);
        assert(d[j] == es[j]);
        assert forall|i: int| j < i < d.len() implies #[trigger] d[i].0@ != d[j].0@ by {
            assert(d[i] == es[i]);
        }
        law_inserted_entries_last_one_wins(d, j);
    }
}

/// Once every entry of a map is taken, no key is handed out and nothing
/// changes.
pub proof fn law_map_ends_when_entries_run_out(pending: Option<Ipld>)
    ensures
        key_step(Seq::empty(), pending) == (None::<Ipld>, Seq::<Ipld>::empty(), pending),
{
}

} // verus!
