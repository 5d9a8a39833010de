//! The property-list value tree that requests and replies are built from.
use vstd::prelude::*;
use vstd::string::StringExecFns;
use crate::text::str_eq;

verus! {

/// A property-list value. A dictionary keeps its entries in order.
#[derive(Debug)]
pub enum PlistValue {
    Array(Vec<PlistValue>),
    Dictionary(Vec<(String, PlistValue)>),
    Boolean(bool),
    Data(Vec<u8>),
    /// A date, as its ISO 8601 text.
    Date(String),
    /// A real number, as the bits of its IEEE 754 double.
    Real(u64),
    Integer(i128),
    String(String),
    Uid(u64),
}

/// The value of the first entry whose key reads `key`.
pub open spec fn lookup(entries: Seq<(String, PlistValue)>, key: Seq<char>) -> Option<PlistValue>
    decreases entries.len(),
{
    if entries.len() == 0 {
        None
    } else if entries[0].0@ == key {
        Some(entries[0].1)
    } else {
        lookup(entries.drop_first(), key)
    }
}

/// The index of the first entry whose key reads `key`.
pub open spec fn lookup_index(entries: Seq<(String, PlistValue)>, key: Seq<char>) -> int
    decreases entries.len(),
{
    if entries.len() == 0 {
        -1
    } else if entries[0].0@ == key {
        0
    } else {
        let i = lookup_index(entries.drop_first(), key);
        if i < 0 { -1 } else { i + 1 }
    }
}

pub proof fn lemma_lookup_index(entries: Seq<(String, PlistValue)>, key: Seq<char>)
    ensures
        -1 <= lookup_index(entries, key) < entries.len(),
        lookup_index(entries, key) >= 0 ==> lookup(entries, key) == Some(
            entries[lookup_index(entries, key)].1,
        ),
        lookup_index(entries, key) < 0 ==> lookup(entries, key).is_none(),
    decreases entries.len(),
{
    if entries.len() > 0 && entries[0].0@ != key {
        lemma_lookup_index(entries.drop_first(), key);
    }
}

impl PlistValue {
    /// The value under `key`, where `self` is a dictionary that has one.
    pub open spec fn field(self, key: Seq<char>) -> Option<PlistValue> {
        match self {
            PlistValue::Dictionary(e) => lookup(e@, key),
            _ => None,
        }
    }

    /// The text under `key`, where that value is a string.
    pub open spec fn text_field(self, key: Seq<char>) -> Option<Seq<char>> {
        match self.field(key) {
            Some(PlistValue::String(s)) => Some(s@),
            _ => None,
        }
    }

    /// Finds where the entry under `key` stands in a dictionary.
    fn position(entries: &Vec<(String, PlistValue)>, key: &str) -> (r: Option<usize>)
        ensures
            match r {
                Some(i) => lookup_index(entries@, key@) == i as int,
                None => lookup_index(entries@, key@) < 0,
            },
    {
        let mut i: usize = 0;
        assert(entries@.skip(0) =~= entries@);
        while i < entries.len()
            invariant
                0 <= i <= entries@.len(),
                lookup_index(entries@, key@) == if lookup_index(entries@.skip(i as int), key@) < 0 {
                    -1
                } else {
                    lookup_index(entries@.skip(i as int), key@) + i
                },
            decreases entries@.len() - i,
        {
            let matched = str_eq(entries[i].0.as_str(), key);
            assert(entries@.skip(i as int).drop_first() =~= entries@.skip(i + 1));
            if matched {
                return Some(i);
            }
            i = i + 1;
        }
        assert(entries@.skip(i as int) =~= Seq::<(String, PlistValue)>::empty());
        None
    }

    /// The value under `key`, where `self` is a dictionary that has one.
    pub fn get(&self, key: &str) -> (r: Option<&PlistValue>)
        ensures
            match r {
                Some(v) => self.field(key@) == Some(*v),
                None => self.field(key@).is_none(),
            },
    {
        match self {
            PlistValue::Dictionary(entries) => {
                proof {
                    lemma_lookup_index(entries@, key@);
                }
                match Self::position(entries, key) {
                    Some(i) => Some(&entries[i].1),
                    None => None,
                }
            },
            _ => None,
        }
    }

    /// Moves the value under `key` out of a dictionary.
    pub fn take(self, key: &str) -> (r: Option<PlistValue>)
        ensures
            r == self.field(key@),
    {
        match self {
            PlistValue::Dictionary(entries) => {
                proof {
                    lemma_lookup_index(entries@, key@);
                }
                match Self::position(&entries, key) {
                    Some(i) => {
                        let mut entries = entries;
                        let (_, v) = entries.remove(i);
                        Some(v)
                    },
                    None => None,
                }
            },
            _ => None,
        }
    }

    /// The text under `key`, where that value is a string.
    pub fn get_text(&self, key: &str) -> (r: Option<&String>)
        ensures
            match r {
                Some(s) => self.text_field(key@) == Some(s@),
                None => self.text_field(key@).is_none(),
            },
    {
        match self.get(key) {
            Some(PlistValue::String(s)) => Some(s),
            _ => None,
        }
    }
}

/// The entries of a dictionary; an empty sequence for any other value.
pub open spec fn dict_entries(v: PlistValue) -> Seq<(String, PlistValue)> {
    match v {
        PlistValue::Dictionary(e) => e@,
        _ => Seq::empty(),
    }
}

/// Whether `v` is the string `t`.
pub open spec fn is_text(v: PlistValue, t: Seq<char>) -> bool {
    v matches PlistValue::String(s) && s@ == t
}

/// Whether entry `e` holds the text `v` under the key `k`.
pub open spec fn entry_text(e: (String, PlistValue), k: Seq<char>, v: Seq<char>) -> bool {
    e.0@ == k && (e.1 matches PlistValue::String(s) && s@ == v)
}

/// Whether entry `e` holds the value `v` under the key `k`.
pub open spec fn entry_value(e: (String, PlistValue), k: Seq<char>, v: PlistValue) -> bool {
    e.0@ == k && e.1 == v
}

/// A dictionary entry that holds the text `v` under `k`.
pub fn text_entry(k: &str, v: &str) -> (r: (String, PlistValue))
    ensures
        entry_text(r, k@, v@),
{
    (String::from_str(k), PlistValue::String(String::from_str(v)))
}

/// A dictionary entry that holds `v` under `k`.
pub fn value_entry(k: &str, v: PlistValue) -> (r: (String, PlistValue))
    ensures
        entry_value(r, k@, v),
{
    (String::from_str(k), v)
}

} // verus!
