//! Per-key details: the type of a key, its time to live, a one-line summary,
//! and the round trip to the store that gathers them.

use vstd::prelude::*;
use vstd::string::*;
use crate::text::{decimal, decimal_text, join, signed_decimal, signed_decimal_text};

verus! {

/// The type of the value that a key holds.
#[derive(Clone, Copy, Debug, PartialEq, Eq, Structural)]
pub enum KeyType {
    String,
    Hash,
    List,
    UnorderedSet,
    SortedSet,
    Unknown,
}

/// The type that a type tag of the store stands for.
pub open spec fn classify_spec(raw: Seq<char>) -> KeyType {
    if raw == "string"@ {
        KeyType::String
    } else if raw == "hash"@ {
        KeyType::Hash
    } else if raw == "list"@ {
        KeyType::List
    } else if raw == "set"@ {
        KeyType::UnorderedSet
    } else if raw == "zset"@ {
        KeyType::SortedSet
    } else {
        KeyType::Unknown
    }
}

/// Decides the type of a key from the tag that the store reports.
pub fn classify(raw: &str) -> (kind: KeyType)
    ensures
        kind == classify_spec(raw@),
{
    let tag = raw.to_owned();
    if tag == String::from_str("string") {
        KeyType::String
    } else if tag == String::from_str("hash") {
        KeyType::Hash
    } else if tag == String::from_str("list") {
        KeyType::List
    } else if tag == String::from_str("set") {
        KeyType::UnorderedSet
    } else if tag == String::from_str("zset") {
        KeyType::SortedSet
    } else {
        KeyType::Unknown
    }
}

/// The summary of a key whose details are a count of `n` parts.
pub open spec fn count_summary(kind: KeyType, n: nat) -> Seq<char> {
    match kind {
        KeyType::Hash => "Hash type, "@ + decimal(n) + " fields"@,
        KeyType::List => "List type, "@ + decimal(n) + " elements"@,
        KeyType::UnorderedSet => "Set type, "@ + decimal(n) + " elements"@,
        KeyType::SortedSet => "ZSet type, "@ + decimal(n) + " elements"@,
        _ => Seq::empty(),
    }
}

/// The summary of a key whose type tag is not known.
pub open spec fn unknown_summary(raw: Seq<char>) -> Seq<char> {
    "Unknown type "@ + raw
}

/// How a time to live reads: `-1` never expires, `-2` marks an absent key,
/// any other value is a number of seconds.
pub open spec fn ttl_text(ttl: int) -> Seq<char> {
    if ttl == -1 {
        "Never expires"@
    } else if ttl == -2 {
        "Key does not exist"@
    } else {
        signed_decimal(ttl) + " seconds"@
    }
}

/// Renders a time to live for display.
pub fn format_ttl(ttl: i64) -> (r: String)
    ensures
        r@ == ttl_text(ttl as int),
{
    if ttl == -1 {
        String::from_str("Never expires")
    } else if ttl == -2 {
        String::from_str("Key does not exist")
    } else {
        join(signed_decimal_text(ttl), " seconds")
    }
}

/// Renders the summary of a Hash, List, Set or SortedSet key that holds `n`
/// parts; empty for the other types.
pub fn format_count(kind: KeyType, n: usize) -> (r: String)
    ensures
        r@ == count_summary(kind, n as nat),
{
    let digits = decimal_text(n as u64);
    match kind {
        KeyType::Hash => join(join(String::from_str("Hash type, "), digits.as_str()), " fields"),
        KeyType::List => join(join(String::from_str("List type, "), digits.as_str()), " elements"),
        KeyType::UnorderedSet => join(join(String::from_str("Set type, "), digits.as_str()), " elements"),
        KeyType::SortedSet => join(
            join(String::from_str("ZSet type, "), digits.as_str()),
            " elements",
        ),
        _ => String::new(),
    }
}

/// The character sequences of a list of field and value pairs.
pub open spec fn pairs(fields: Seq<(String, String)>) -> Seq<(Seq<char>, Seq<char>)> {
    fields.map_values(|p: (String, String)| (p.0@, p.1@))
}

/// What is known of one key.
pub struct KeyDetails {
    pub key_type: KeyType,
    pub raw_type: String,
    pub ttl: i64,
    pub summary: String,
    pub fields: Option<Vec<(String, String)>>,
}

/// The mathematical value of a `KeyDetails`.
pub struct DetailsView {
    pub key_type: KeyType,
    pub raw_type: Seq<char>,
    pub ttl: int,
    pub summary: Seq<char>,
    pub fields: Option<Seq<(Seq<char>, Seq<char>)>>,
}

impl View for KeyDetails {
    type V = DetailsView;

    open spec fn view(&self) -> DetailsView {
        DetailsView {
            key_type: self.key_type,
            raw_type: self.raw_type@,
            ttl: self.ttl as int,
            summary: self.summary@,
            fields: match self.fields {
                Some(f) => Some(pairs(f@)),
                None => None,
            },
        }
    }
}

/// Copies a list of field and value pairs.
pub fn clone_fields(fields: &Vec<(String, String)>) -> (r: Vec<(String, String)>)
    ensures
        pairs(r@) == pairs(fields@),
{
    let mut out: Vec<(String, String)> = Vec::new();
    let mut i: usize = 0;
    while i < fields.len()
        invariant
            i <= fields.len(),
            pairs(out@) == pairs(fields@.take(i as int)),
        decreases fields.len() - i,
    {
        let ghost before = pairs(out@);
        let name = fields[i].0.clone();
        let value = fields[i].1.clone();
        out.push((name, value));
        proof {
            let entry = (fields@[i as int].0@, fields@[i as int].1@);
            assert(pairs(out@) =~= before.push(entry));
            assert(before.push(entry) =~= pairs(fields@.take(i as int + 1)));
        }
        i += 1;
    }
    proof {
        assert(fields@.take(i as int) =~= fields@);
    }
    out
}

impl KeyDetails {
    /// The number of rows that the body of a detail view scrolls over: one
    /// per field of a hash, a single row otherwise.
    pub open spec fn rows_spec(v: DetailsView) -> nat {
        match v.fields {
            Some(f) => f.len(),
            None => 1,
        }
    }

    /// The number of rows in the body of the detail view.
    pub fn rows(&self) -> (n: usize)
        ensures
            n == Self::rows_spec(self@),
    {
        match &self.fields {
            Some(f) => f.len(),
            None => 1,
        }
    }
}

/// The details of a String key with value `value`.
pub open spec fn string_details(raw: Seq<char>, ttl: int, value: Seq<char>) -> DetailsView {
    DetailsView { key_type: KeyType::String, raw_type: raw, ttl, summary: value, fields: None }
}

/// The details of a Hash key with the given fields.
pub open spec fn hash_details(raw: Seq<char>, ttl: int, fields: Seq<(Seq<char>, Seq<char>)>)
    -> DetailsView {
    DetailsView {
        key_type: KeyType::Hash,
        raw_type: raw,
        ttl,
        summary: count_summary(KeyType::Hash, fields.len()),
        fields: Some(fields),
    }
}

/// The details of a List, Set or SortedSet key that holds `n` elements.
pub open spec fn counted_details(kind: KeyType, raw: Seq<char>, ttl: int, n: nat) -> DetailsView {
    DetailsView { key_type: kind, raw_type: raw, ttl, summary: count_summary(kind, n), fields: None }
}

/// The details of a key whose type tag is not known.
pub open spec fn unknown_details(raw: Seq<char>, ttl: int) -> DetailsView {
    DetailsView {
        key_type: KeyType::Unknown,
        raw_type: raw,
        ttl,
        summary: unknown_summary(raw),
        fields: None,
    }
}

} // verus!
