use vstd::prelude::*;

use crate::de::{unit_outcome, DeError, Target, Unexpected, VariantShape};
use crate::ipld::Ipld;

verus! {

/// Reverses `items` into a stack whose top is the first item.
pub(crate) fn into_stack<T>(items: Vec<T>) -> (stack: Vec<T>)
    ensures
        stack@.len() == items@.len(),
        forall|i: int| 0 <= i < items@.len() ==> #[trigger] stack@[stack@.len() - 1 - i] == items@[i],
{
    let ghost orig = items@;
    let mut items = items;
    let mut stack: Vec<T> = Vec::new();
    while items.len() > 0
        invariant
            items@ == orig.subrange(0, items@.len() as int),
            stack@.len() + items@.len() == orig.len(),
            forall|j: int| 0 <= j < stack@.len() ==> #[trigger] stack@[j] == orig[orig.len() - 1 - j],
        decreases items@.len(),
    {
        let x = items.pop().unwrap();
        stack.push(x);
    }
    assert forall|i: int| 0 <= i < orig.len() implies #[trigger] stack@[stack@.len() - 1 - i] == orig[i] by {
        assert(stack@[stack@.len() - 1 - i] == orig[orig.len() - 1 - (stack@.len() - 1 - i)]);
    }
    stack
}

/// The items of a stack, first item on top, in the order in which they come off.
pub open spec fn stack_items<T>(stack: Seq<T>) -> Seq<T> {
    Seq::new(stack.len(), |i: int| stack[stack.len() - 1 - i])
}

/// Taking the next of `items`: the item handed out, if any, and the items left.
pub open spec fn seq_step(items: Seq<Ipld>) -> (Option<Ipld>, Seq<Ipld>) {
    if items.len() == 0 {
        (None, items)
    } else {
        (Some(items[0]), items.drop_first())
    }
}

/// Hands out the items of an `Ipld::List`, first to last.
pub struct SeqDeserializer {
    stack: Vec<Ipld>,
}

impl View for SeqDeserializer {
    type V = Seq<Ipld>;

    /// The items that are still to come, in order.
    closed spec fn view(&self) -> Seq<Ipld> {
        stack_items(self.stack@)
    }
}

impl SeqDeserializer {
    /// A deserializer for the items of `vec`.
    pub fn new(vec: Vec<Ipld>) -> (d: SeqDeserializer)
        ensures
            d@ == vec@,
    {
        let stack = into_stack(vec);
        let d = SeqDeserializer { stack };
        assert(d@ =~= vec@);
        d
    }

    /// The next item, which the element seed is to deserialize; `None` once
    /// every item has been handed out.
    pub fn next_element_seed(&mut self) -> (r: Option<Ipld>)
        ensures
            (r, final(self)@) == seq_step(old(self)@),
    {
        let r = self.stack.pop();
        proof {
            if old(self)@.len() > 0 {
                assert(self@ =~= old(self)@.drop_first());
            } else {
                assert(self@ =~= old(self)@);
            }
        }
        r
    }

    /// The number of items still to come, which is always known exactly.
    pub fn size_hint(&self) -> (r: Option<usize>)
        ensures
            r == Some(self@.len() as usize),
    {
        Some(self.stack.len())
    }
}

/// Whether `entry` is a list of exactly two values, a key and a value.
pub open spec fn is_key_value_pair(entry: Ipld) -> bool {
    entry matches Ipld::List(xs) && xs@.len() == 2
}

/// Taking the next of `entries`, each a `[key, value]` list, with `pending`
/// the value held so far: the key handed out, if any, the entries left and the
/// value then held.
pub open spec fn key_step(entries: Seq<Ipld>, pending: Option<Ipld>) -> (Option<Ipld>, Seq<Ipld>, Option<Ipld>) {
    if entries.len() == 0 {
        (None, entries, pending)
    } else {
        match entries[0] {
            Ipld::List(xs) => (Some(xs@[0]), entries.drop_first(), Some(xs@[1])),
            _ => (None, entries, pending),
        }
    }
}

/// Taking the value held: the value or the error, the entries left and the
/// value then held, which is none.
pub open spec fn value_step(entries: Seq<Ipld>, pending: Option<Ipld>) -> (Result<Ipld, DeError>, Seq<Ipld>, Option<Ipld>) {
    (
        match pending {
            Some(v) => Ok(v),
            None => Err(DeError::ValueMissing),
        },
        entries,
        None,
    )
}

/// Hands out the entries of a map that is written as an `Ipld::List` of
/// two-item lists `[key, value]`.
pub struct MapDeserializer {
    stack: Vec<Ipld>,
    value: Option<Ipld>,
}

impl MapDeserializer {
    /// The entries that are still to come, in order.
    pub closed spec fn entries(&self) -> Seq<Ipld> {
        stack_items(self.stack@)
    }

    /// The value of the entry whose key was handed out last, while it has not
    /// been taken.
    pub closed spec fn pending(&self) -> Option<Ipld> {
        self.value
    }

    /// Whether the next call of [`Self::next_key_seed`] can be made: no entry
    /// is left, or the next one is a `[key, value]` pair.
    pub open spec fn next_is_pair_or_end(&self) -> bool {
        self.entries().len() == 0 || is_key_value_pair(self.entries()[0])
    }

    /// A deserializer for the entries of `map`, with no value pending.
    pub fn new(map: Vec<Ipld>) -> (d: MapDeserializer)
        ensures
            d.entries() == map@,
            d.pending() is None,
    {
        let stack = into_stack(map);
        let d = MapDeserializer { stack, value: None };
        assert(d.entries() =~= map@);
        d
    }

    /// Tells whether [`Self::next_key_seed`] may be called.
    pub fn has_pair_or_end(&self) -> (b: bool)
        ensures
            b == self.next_is_pair_or_end(),
    {
        let n = self.stack.len();
        if n == 0 {
            true
        } else {
            match &self.stack[n - 1] {
                Ipld::List(xs) => xs.len() == 2,
                _ => false,
            }
        }
    }

    /// Takes the next entry: keeps its value pending and returns its key,
    /// which the key seed is to deserialize; `None` once every entry is taken.
    pub fn next_key_seed(&mut self) -> (r: Option<Ipld>)
        requires
            old(self).next_is_pair_or_end(),
        ensures
            (r, final(self).entries(), final(self).pending()) == key_step(
                old(self).entries(),
                old(self).pending(),
            ),
    {
        match self.stack.pop() {
            None => None,
            Some(entry) => {
                proof {
                    assert(self.entries() =~= old(self).entries().drop_first());
                }
                match entry {
                    Ipld::List(xs) => {
                        let mut xs = xs;
                        let val = xs.pop().unwrap();
                        let key = xs.pop().unwrap();
                        self.value = Some(val);
                        Some(key)
                    },
                    _ => {
                        proof {
                            assert(false);
                        }
                        None
                    },
                }
            },
        }
    }

    /// Takes the pending value, which the value seed is to deserialize.
    pub fn next_value_seed(&mut self) -> (r: Result<Ipld, DeError>)
        ensures
            (r, final(self).entries(), final(self).pending()) == value_step(
                old(self).entries(),
                old(self).pending(),
            ),
    {
        match self.value.take() {
            Some(v) => Ok(v),
            None => Err(DeError::ValueMissing),
        }
    }

    /// The number of entries still to come, which is always known exactly.
    pub fn size_hint(&self) -> (r: Option<usize>)
        ensures
            r == Some(self.entries().len() as usize),
    {
        Some(self.stack.len())
    }
}

} // verus!

verus! {

/// Hands a CID, by its binary encoding, to whoever asks for it.
pub struct CidDeserializer {
    pub bytes: Vec<u8>,
}

impl CidDeserializer {
    /// A CID can only be read as bytes.
    pub fn deserialize_any(self) -> (r: Result<Vec<u8>, DeError>)
        ensures
            r matches Err(DeError::CidOnlyBytes),
    {
        Err(DeError::CidOnlyBytes)
    }

    /// The CID's binary encoding, for the consumer to read.
    pub fn deserialize_bytes(self) -> (r: Vec<u8>)
        ensures
            r == self.bytes,
    {
        self.bytes
    }
}

/// Names the chosen variant of an enum and holds its content.
pub struct EnumDeserializer {
    pub variant: String,
    pub value: Option<Ipld>,
}

impl EnumDeserializer {
    /// The variant's name, for the seed to read, and the deserializer of its
    /// content.
    pub fn variant_seed(self) -> (r: (String, VariantDeserializer))
        ensures
            r.0 == self.variant,
            r.1.0 == self.value,
    {
        (self.variant, VariantDeserializer(self.value))
    }
}

/// Reading a unit variant whose content is `content`.
pub open spec fn unit_variant_outcome(content: Option<Ipld>) -> Result<(), DeError> {
    match content {
        None => Ok(()),
        Some(v) => match unit_outcome(v) {
            Ok(_) => Ok(()),
            Err(e) => Err(e),
        },
    }
}

/// Reads the content of an enum variant: absent, or a list of values.
pub struct VariantDeserializer(pub Option<Ipld>);

impl VariantDeserializer {
    /// A unit variant has no content, or content that reads as unit.
    pub fn unit_variant(self) -> (r: Result<(), DeError>)
        ensures
            r == unit_variant_outcome(self.0),
    {
        match self.0 {
            Some(value) => match value.deserialize_unit() {
                Ok(_) => Ok(()),
                Err(e) => Err(e),
            },
            None => Ok(()),
        }
    }

    /// A newtype variant's content is a list of exactly one value, which the
    /// seed is to deserialize.
    pub fn newtype_variant_seed(self) -> (r: Result<Ipld, DeError>)
        ensures
            match self.0 {
                Some(Ipld::List(xs)) => if xs@.len() == 1 {
                    r == Ok::<Ipld, DeError>(xs@[0])
                } else {
                    r == Err::<Ipld, DeError>(
                        DeError::InvalidType {
                            unexpected: Unexpected::TupleVariant,
                            shape: VariantShape::Newtype,
                        },
                    )
                },
                _ => r == Err::<Ipld, DeError>(
                    DeError::InvalidType {
                        unexpected: Unexpected::UnitVariant,
                        shape: VariantShape::Newtype,
                    },
                ),
            },
    {
        match self.0 {
            Some(Ipld::List(xs)) => if xs.len() == 1 {
                let mut xs = xs;
                Ok(xs.pop().unwrap())
            } else {
                Err(
                    DeError::InvalidType {
                        unexpected: Unexpected::TupleVariant,
                        shape: VariantShape::Newtype,
                    },
                )
            },
            _ => Err(
                DeError::InvalidType {
                    unexpected: Unexpected::UnitVariant,
                    shape: VariantShape::Newtype,
                },
            ),
        }
    }

    /// A tuple variant of `len` fields is read from a list of that length.
    pub fn tuple_variant(self, len: usize) -> (r: Result<SeqDeserializer, DeError>)
        ensures
            match self.0 {
                Some(Ipld::List(xs)) => if xs@.len() == len {
                    r matches Ok(d) && d@ == xs@
                } else {
                    r matches Err(DeError::TupleVariantLength { wanted, got }) && wanted == len
                        && got == xs@.len()
                },
                Some(v) => r matches Err(DeError::WrongKind { target, found }) && target
                    == Target::TupleVariant && found == v,
                None => r matches Err(
                    DeError::InvalidType { unexpected, shape },
                ) && unexpected == Unexpected::UnitVariant && shape == VariantShape::Tuple,
            },
    {
        match self.0 {
            Some(Ipld::List(list)) => if len == list.len() {
                Ok(SeqDeserializer::new(list))
            } else {
                Err(DeError::TupleVariantLength { wanted: len, got: list.len() })
            },
            Some(v) => Err(DeError::WrongKind { target: Target::TupleVariant, found: v }),
            None => Err(
                DeError::InvalidType {
                    unexpected: Unexpected::UnitVariant,
                    shape: VariantShape::Tuple,
                },
            ),
        }
    }

    /// A struct variant is read from the list of its fields' values.
    pub fn struct_variant(self, _fields: &[&str]) -> (r: Result<SeqDeserializer, DeError>)
        ensures
            match self.0 {
                Some(Ipld::List(xs)) => r matches Ok(d) && d@ == xs@,
                Some(v) => r matches Err(DeError::WrongKind { target, found }) && target
                    == Target::StructVariant && found == v,
                None => r matches Err(
                    DeError::InvalidType { unexpected, shape },
                ) && unexpected == Unexpected::UnitVariant && shape == VariantShape::Struct,
            },
    {
        match self.0 {
            Some(Ipld::List(xs)) => Ok(SeqDeserializer::new(xs)),
            Some(v) => Err(DeError::WrongKind { target: Target::StructVariant, found: v }),
            None => Err(
                DeError::InvalidType {
                    unexpected: Unexpected::UnitVariant,
                    shape: VariantShape::Struct,
                },
            ),
        }
    }
}

} // verus!
