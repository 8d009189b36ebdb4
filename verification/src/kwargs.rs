//! The parameter bag: a dynamically keyed, heterogeneous container used to
//! assemble request parameters whose shape varies per endpoint. Values are a
//! tagged union of the three parameter kinds (integer, text, nested bag), so
//! retrieval by kind is explicit and a kind mismatch reads as absent rather
//! than being coerced.

use vstd::prelude::*;
use crate::entries::entry_get;
use crate::entries::entry_map;
use crate::entries::lemma_entry_map_push;

verus! {

/// One parameter value: an integer, a text, or a nested group of parameters.
pub enum KwargValue {
    Int(i64),
    Text(String),
    Bag(Kwargs),
}

/// An insert-or-overwrite mapping from string keys to parameter values.
/// A key is bound at most once in the map view; a later insertion for the
/// same key overrides the earlier one.
pub struct Kwargs {
    entries: Vec<(String, KwargValue)>,
}

impl View for Kwargs {
    type V = Map<Seq<char>, KwargValue>;

    closed spec fn view(&self) -> Map<Seq<char>, KwargValue> {
        entry_map(self.entries@)
    }
}

impl Kwargs {
    /// An empty bag.
    pub fn new() -> (r: Kwargs)
        ensures
            r@ == Map::<Seq<char>, KwargValue>::empty(),
    {
        Kwargs { entries: Vec::new() }
    }

    /// Binds `key` to `value`, overriding any earlier binding of the key.
    pub fn insert(&mut self, key: &str, value: KwargValue)
        ensures
            final(self)@ == old(self)@.insert(key@, value),
    {
        let owned = key.to_owned();
        proof {
            lemma_entry_map_push(self.entries@, (owned, value));
        }
        self.entries.push((owned, value));
    }

    /// The latest integer bound to `key`; absent when the key is unbound or
    /// bound to another kind.
    pub fn get_pair_int(&self, key: &str) -> (r: Option<(String, i64)>)
        ensures
            match r {
                Some(p) => p.0@ == key@ && self@.contains_key(key@) && self@[key@]
                    == KwargValue::Int(p.1),
                None => !(self@.contains_key(key@) && self@[key@] is Int),
            },
    {
        match entry_get(&self.entries, key) {
            Some(KwargValue::Int(v)) => Some((key.to_owned(), *v)),
            _ => None,
        }
    }

    /// The latest text bound to `key`; absent when the key is unbound or
    /// bound to another kind.
    pub fn get_pair_text(&self, key: &str) -> (r: Option<(String, String)>)
        ensures
            match r {
                Some(p) => p.0@ == key@ && self@.contains_key(key@) && self@[key@] is Text
                    && self@[key@]->Text_0@ == p.1@,
                None => !(self@.contains_key(key@) && self@[key@] is Text),
            },
    {
        match entry_get(&self.entries, key) {
            Some(KwargValue::Text(v)) => Some((key.to_owned(), v.clone())),
            _ => None,
        }
    }

    /// The latest nested bag bound to `key`; absent when the key is unbound
    /// or bound to another kind.
    pub fn get_pair_bag(&self, key: &str) -> (r: Option<(String, &Kwargs)>)
        ensures
            match r {
                Some(p) => p.0@ == key@ && self@.contains_key(key@) && self@[key@] is Bag
                    && *p.1 == self@[key@]->Bag_0,
                None => !(self@.contains_key(key@) && self@[key@] is Bag),
            },
    {
        match entry_get(&self.entries, key) {
            Some(KwargValue::Bag(v)) => Some((key.to_owned(), v)),
            _ => None,
        }
    }
}

} // verus!
