use vstd::prelude::*;
use vstd::utf8::*;

use crate::ipld::Ipld;

verus! {

/// The bytes by which a key is ordered: its UTF-8 encoding.
pub open spec fn key_bytes(key: String) -> Seq<u8> {
    encode_utf8(key@)
}

/// Whether `a` and `b` agree on their first `n` bytes.
pub open spec fn agree_below(a: Seq<u8>, b: Seq<u8>, n: int) -> bool {
    forall|i: int| 0 <= i < n ==> a[i] == b[i]
}

/// The lexicographic order of byte strings, which is the order of strings:
/// `a` comes first where it is a proper prefix of `b`, or where at the first
/// place at which they differ its byte is the smaller.
pub open spec fn bytes_lt(a: Seq<u8>, b: Seq<u8>) -> bool {
    exists|n: int|
        #![trigger agree_below(a, b, n)]
        0 <= n <= a.len() && n <= b.len() && agree_below(a, b, n) && ((n == a.len() && n < b.len())
            || (n < a.len() && n < b.len() && a[n] < b[n]))
}

pub proof fn lemma_bytes_lt_irreflexive(a: Seq<u8>)
    ensures
        !bytes_lt(a, a),
{
}

pub proof fn lemma_bytes_lt_transitive(a: Seq<u8>, b: Seq<u8>, c: Seq<u8>)
    requires
        bytes_lt(a, b),
        bytes_lt(b, c),
    ensures
        bytes_lt(a, c),
{
    let n1 = choose|n: int|
        #![trigger agree_below(a, b, n)]
        0 <= n <= a.len() && n <= b.len() && agree_below(a, b, n) && ((n == a.len() && n < b.len())
            || (n < a.len() && n < b.len() && a[n] < b[n]));
    let n2 = choose|n: int|
        #![trigger agree_below(b, c, n)]
        0 <= n <= b.len() && n <= c.len() && agree_below(b, c, n) && ((n == b.len() && n < c.len())
            || (n < b.len() && n < c.len() && b[n] < c[n]));
    let n = if n1 <= n2 {
        n1
    } else {
        n2
    };
    assert(agree_below(a, c, n));
}

/// Which of two keys comes first.
pub enum KeyOrder {
    Less,
    Equal,
    Greater,
}

/// Compares two byte strings in lexicographic order.
pub fn compare_bytes(a: &[u8], b: &[u8]) -> (r: KeyOrder)
    ensures
        r is Less <==> bytes_lt(a@, b@),
        r is Equal <==> a@ == b@,
        r is Greater <==> bytes_lt(b@, a@),
{
    let mut i: usize = 0;
    while i < a.len() && i < b.len() && a[i] == b[i]
        invariant
            i <= a@.len(),
            i <= b@.len(),
            agree_below(a@, b@, i as int),
        decreases a@.len() - i,
    {
        i = i + 1;
    }
    assert(agree_below(b@, a@, i as int));
    proof {
        lemma_bytes_lt_irreflexive(a@);
        lemma_bytes_lt_irreflexive(b@);
    }
    if i < a.len() && i < b.len() {
        if a[i] < b[i] {
            proof {
                if bytes_lt(b@, a@) {
                    lemma_bytes_lt_transitive(a@, b@, a@);
                }
            }
            KeyOrder::Less
        } else {
            proof {
                if bytes_lt(a@, b@) {
                    lemma_bytes_lt_transitive(a@, b@, a@);
                }
            }
            KeyOrder::Greater
        }
    } else if i < b.len() {
        proof {
            if bytes_lt(b@, a@) {
                lemma_bytes_lt_transitive(a@, b@, a@);
            }
        }
        KeyOrder::Less
    } else if i < a.len() {
        proof {
            if bytes_lt(a@, b@) {
                lemma_bytes_lt_transitive(a@, b@, a@);
            }
        }
        KeyOrder::Greater
    } else {
        assert(a@ =~= b@);
        KeyOrder::Equal
    }
}

/// Whether the keys of `entries` strictly increase, which is the order in
/// which a `BTreeMap` keyed by strings holds them; no key occurs twice.
pub open spec fn keys_sorted(entries: Seq<(String, Ipld)>) -> bool {
    forall|i: int, j: int|
        0 <= i < j < entries.len() ==> bytes_lt(
            #[trigger] key_bytes(entries[i].0),
            #[trigger] key_bytes(entries[j].0),
        )
}

/// The map that `entries` stands for, from keys to values; where a key were
/// to occur twice, the later entry would win.
pub open spec fn dict_model(entries: Seq<(String, Ipld)>) -> Map<Seq<char>, Ipld>
    decreases entries.len(),
{
    if entries.len() == 0 {
        Map::empty()
    } else {
        dict_model(entries.drop_last()).insert(entries.last().0@, entries.last().1)
    }
}

/// The map after inserting `entries` in order, each later entry replacing the
/// value of an earlier one with the same key.
pub open spec fn inserted_all(m: Map<Seq<char>, Ipld>, entries: Seq<(String, Ipld)>) -> Map<
    Seq<char>,
    Ipld,
>
    decreases entries.len(),
{
    if entries.len() == 0 {
        m
    } else {
        inserted_all(m, entries.drop_last()).insert(entries.last().0@, entries.last().1)
    }
}

/// Inserting a key that no entry holds, at any place.
proof fn lemma_dict_model_insert(entries: Seq<(String, Ipld)>, p: int, e: (String, Ipld))
    requires
        0 <= p <= entries.len(),
        forall|i: int| 0 <= i < entries.len() ==> #[trigger] entries[i].0@ != e.0@,
    ensures
        dict_model(entries.insert(p, e)) == dict_model(entries).insert(e.0@, e.1),
    decreases entries.len(),
{
    let s = entries.insert(p, e);
    if p == entries.len() {
        assert(s.drop_last() =~= entries);
    } else {
        assert(s.drop_last() =~= entries.drop_last().insert(p, e));
        assert forall|i: int| 0 <= i < entries.drop_last().len() implies #[trigger] entries.drop_last()[i].0@
            != e.0@ by {
            assert(entries.drop_last()[i] == entries[i]);
        }
        lemma_dict_model_insert(entries.drop_last(), p, e);
        assert(s.last() == entries.last());
        assert(entries.last().0@ != e.0@) by {
            assert(entries[entries.len() - 1] == entries.last());
        }
        assert(dict_model(s) =~= dict_model(entries).insert(e.0@, e.1));
    }
}

/// Replacing the value of the entry at `p`, whose key no other entry holds.
proof fn lemma_dict_model_update(entries: Seq<(String, Ipld)>, p: int, v: Ipld)
    requires
        0 <= p < entries.len(),
        forall|i: int| 0 <= i < entries.len() && i != p ==> #[trigger] entries[i].0@ != entries[p].0@,
    ensures
        dict_model(entries.update(p, (entries[p].0, v))) == dict_model(entries).insert(entries[p].0@, v),
    decreases entries.len(),
{
    let s = entries.update(p, (entries[p].0, v));
    if p == entries.len() - 1 {
        assert(s.drop_last() =~= entries.drop_last());
        assert(dict_model(s) =~= dict_model(entries).insert(entries[p].0@, v));
    } else {
        let d = entries.drop_last();
        assert(s.drop_last() =~= d.update(p, (d[p].0, v)));
        assert forall|i: int| 0 <= i < d.len() && i != p implies #[trigger] d[i].0@ != d[p].0@ by {
            assert(d[i] == entries[i]);
        }
        lemma_dict_model_update(d, p, v);
        assert(entries.last().0@ != entries[p].0@) by {
            assert(entries[entries.len() - 1] == entries.last());
        }
        assert(dict_model(s) =~= dict_model(entries).insert(entries[p].0@, v));
    }
}

/// Builds a dictionary the way a `BTreeMap<String, Ipld>` is built: each
/// insertion puts its key in order, or replaces the value of an equal key.
pub struct DictBuilder {
    entries: Vec<(String, Ipld)>,
}

impl DictBuilder {
    /// The entries so far, in key order.
    pub closed spec fn entries(&self) -> Seq<(String, Ipld)> {
        self.entries@
    }

    /// The invariant: keys strictly increase.
    pub closed spec fn wf(&self) -> bool {
        keys_sorted(self.entries@)
    }

    pub fn new() -> (b: DictBuilder)
        ensures
            b.wf(),
            b.entries() == Seq::<(String, Ipld)>::empty(),
    {
        DictBuilder { entries: Vec::new() }
    }

    /// Inserts `value` under `key`; an entry with an equal key keeps its key
    /// and takes the new value.
    pub fn insert(&mut self, key: String, value: Ipld)
        requires
            old(self).wf(),
        ensures
            final(self).wf(),
            keys_sorted(final(self).entries()),
            dict_model(final(self).entries()) == dict_model(old(self).entries()).insert(key@, value),
            forall|i: int|
                0 <= i < final(self).entries().len() ==> #[trigger] final(self).entries()[i].1 == value
                    || exists|j: int|
                    0 <= j < old(self).entries().len() && final(self).entries()[i].1 == old(
                        self,
                    ).entries()[j].1,
    {
        let ghost old_entries = self.entries@;
        let kb = key.as_str().as_bytes();
        let n = self.entries.len();
        let mut p: usize = 0;
        let mut done = false;
        let mut found = false;
        while p < n && !done
            invariant
                n == self.entries@.len(),
                self.entries@ == old_entries,
                keys_sorted(old_entries),
                kb@ == key_bytes(key),
                p <= n,
                forall|i: int| 0 <= i < p ==> bytes_lt(#[trigger] key_bytes(old_entries[i].0), kb@),
                done ==> p < n,
                done && found ==> key_bytes(old_entries[p as int].0) == kb@,
                done && !found ==> bytes_lt(kb@, key_bytes(old_entries[p as int].0)),
                !done ==> !found,
            decreases n - p + (if done { 0int } else { 1int }),
        {
            let eb = self.entries[p].0.as_str().as_bytes();
            match compare_bytes(eb, kb) {
                KeyOrder::Less => {
                    p = p + 1;
                },
                KeyOrder::Equal => {
                    done = true;
                    found = true;
                },
                KeyOrder::Greater => {
                    done = true;
                },
            }
        }
        proof {
            lemma_bytes_lt_irreflexive(kb@);
        }
        if found {
            let ghost p0 = p as int;
            proof {
                encode_utf8_decode_utf8(key@);
                encode_utf8_decode_utf8(old_entries[p0].0@);
                assert(old_entries[p0].0@ == key@);
                assert forall|i: int| 0 <= i < old_entries.len() && i != p0 implies #[trigger] old_entries[i].0@
                    != old_entries[p0].0@ by {
                    if i < p0 {
                        assert(bytes_lt(key_bytes(old_entries[i].0), key_bytes(old_entries[p0].0)));
                        lemma_bytes_lt_irreflexive(key_bytes(old_entries[i].0));
                    } else {
                        assert(bytes_lt(key_bytes(old_entries[p0].0), key_bytes(old_entries[i].0)));
                        lemma_bytes_lt_irreflexive(key_bytes(old_entries[i].0));
                    }
                }
                lemma_dict_model_update(old_entries, p0, value);
            }
            let (k, _previous) = self.entries.remove(p);
            self.entries.insert(p, (k, value));
            assert(self.entries@ =~= old_entries.update(p0, (old_entries[p0].0, value)));
            assert forall|i: int| 0 <= i < self.entries@.len() && #[trigger] self.entries@[i].1 != value
                implies exists|j: int| 0 <= j < old_entries.len() && self.entries@[i].1 == old_entries[j].1 by {
                assert(self.entries@[i] == old_entries[i]);
            }
            assert forall|i: int, j: int| 0 <= i < j < self.entries@.len() implies bytes_lt(
                #[trigger] key_bytes(self.entries@[i].0),
                #[trigger] key_bytes(self.entries@[j].0),
            ) by {
                assert(key_bytes(self.entries@[i].0) == key_bytes(old_entries[i].0));
                assert(key_bytes(self.entries@[j].0) == key_bytes(old_entries[j].0));
            }
        } else {
            let ghost p0 = p as int;
            let ghost e = (key, value);
            proof {
                assert forall|i: int| 0 <= i < old_entries.len() implies #[trigger] old_entries[i].0@
                    != key@ by {
                    if i < p0 {
                        assert(bytes_lt(key_bytes(old_entries[i].0), kb@));
                        lemma_bytes_lt_irreflexive(kb@);
                    } else if i == p0 {
                        assert(bytes_lt(kb@, key_bytes(old_entries[i].0)));
                        lemma_bytes_lt_irreflexive(kb@);
                    } else {
                        assert(bytes_lt(key_bytes(old_entries[p0].0), key_bytes(old_entries[i].0)));
                        lemma_bytes_lt_transitive(
                            kb@,
                            key_bytes(old_entries[p0].0),
                            key_bytes(old_entries[i].0),
                        );
                        lemma_bytes_lt_irreflexive(kb@);
                    }
                }
                lemma_dict_model_insert(old_entries, p0, e);
            }
            self.entries.insert(p, (key, value));
            assert(self.entries@ == old_entries.insert(p0, e));
            assert forall|i: int| 0 <= i < self.entries@.len() && #[trigger] self.entries@[i].1 != value
                implies exists|j: int| 0 <= j < old_entries.len() && self.entries@[i].1 == old_entries[j].1 by {
                if i < p0 {
                    assert(self.entries@[i] == old_entries[i]);
                } else {
                    assert(self.entries@[i] == old_entries[i - 1]);
                }
            }
            assert forall|i: int, j: int| 0 <= i < j < self.entries@.len() implies bytes_lt(
                #[trigger] key_bytes(self.entries@[i].0),
                #[trigger] key_bytes(self.entries@[j].0),
            ) by {
                let s = self.entries@;
                if j < p0 {
                    assert(s[i] == old_entries[i] && s[j] == old_entries[j]);
                } else if j == p0 {
                    assert(s[i] == old_entries[i]);
                } else if i == p0 {
                    assert(s[j] == old_entries[j - 1]);
                    if j - 1 > p0 {
                        assert(bytes_lt(key_bytes(old_entries[p0].0), key_bytes(old_entries[j - 1].0)));
                        lemma_bytes_lt_transitive(
                            kb@,
                            key_bytes(old_entries[p0].0),
                            key_bytes(old_entries[j - 1].0),
                        );
                    }
                } else if i < p0 {
                    assert(s[i] == old_entries[i] && s[j] == old_entries[j - 1]);
                } else {
                    assert(s[i] == old_entries[i - 1] && s[j] == old_entries[j - 1]);
                }
            }
        }
    }

    /// The dictionary built so far.
    pub fn finish(self) -> (d: Ipld)
        requires
            self.wf(),
        ensures
            d matches Ipld::Dict(es) && es@ == self.entries() && keys_sorted(es@),
    {
        Ipld::Dict(self.entries)
    }
}

} // verus!
