//! Gathering the details of one key: which question goes to the store next,
//! and what each answer leads to.
//!
//! The caller owns the connection. It asks the store what `Fetch::request`
//! names, hands the answer to `Fetch::advance`, and goes on until the fetch
//! is done or has failed.

use vstd::prelude::*;
use vstd::string::*;
use crate::details::{
    classify, classify_spec, counted_details, format_count, hash_details, pairs, string_details,
    unknown_details, DetailsView, KeyDetails, KeyType,
};
use crate::text::join;

verus! {

/// A question to the store about the key of a fetch.
#[derive(Clone, Copy, Debug, PartialEq, Eq, Structural)]
pub enum Request {
    /// The type tag of the key.
    Type,
    /// The remaining time to live of the key, in seconds.
    Ttl,
    /// The value of a String key.
    Value,
    /// The fields of a Hash key, with their values.
    HashFields,
    /// The number of elements of a List key.
    ListLength,
    /// The number of elements of a Set key.
    SetSize,
    /// The number of elements of a SortedSet key.
    SortedSetSize,
}

/// An answer of the store, or its failure.
pub enum Reply {
    Type(String),
    Ttl(i64),
    Value(String),
    HashFields(Vec<(String, String)>),
    Count(usize),
    Failed(String),
}

/// A fetch under way: the key, the question that is due, and what the
/// answers so far have told.
pub struct Fetch {
    pub key: String,
    pub next: Request,
    pub raw_type: String,
    pub ttl: i64,
}

/// The mathematical value of a `Fetch`.
pub struct FetchView {
    pub key: Seq<char>,
    pub next: Request,
    pub raw_type: Seq<char>,
    pub ttl: int,
}

impl View for Fetch {
    type V = FetchView;

    open spec fn view(&self) -> FetchView {
        FetchView { key: self.key@, next: self.next, raw_type: self.raw_type@, ttl: self.ttl as int }
    }
}

/// A fetch for `key` of which nothing is known yet: its first question is
/// the type.
pub open spec fn begin_spec(key: Seq<char>) -> FetchView {
    FetchView { key, next: Request::Type, raw_type: Seq::empty(), ttl: 0 }
}

/// Where a fetch stands after an answer.
pub enum Progress {
    /// Another question is due.
    Ask(Fetch),
    /// The details of the key are complete.
    Done(String, KeyDetails),
    /// The fetch was given up; the text says why.
    Failed(String),
}

/// The mathematical value of a `Progress`.
pub enum Outcome {
    Ask(FetchView),
    Done(Seq<char>, DetailsView),
    Failed(Seq<char>),
}

impl View for Progress {
    type V = Outcome;

    open spec fn view(&self) -> Outcome {
        match self {
            Progress::Ask(f) => Outcome::Ask(f@),
            Progress::Done(k, d) => Outcome::Done(k@, d@),
            Progress::Failed(m) => Outcome::Failed(m@),
        }
    }
}

/// What a fetch is told when an answer does not fit its question.
pub open spec fn unexpected() -> Outcome {
    Outcome::Failed("unexpected reply from the store"@)
}

/// The question that follows the time to live: what the type calls for. A
/// key of unknown type has no further question.
pub open spec fn body_question(kind: KeyType) -> Option<Request> {
    match kind {
        KeyType::String => Some(Request::Value),
        KeyType::Hash => Some(Request::HashFields),
        KeyType::List => Some(Request::ListLength),
        KeyType::UnorderedSet => Some(Request::SetSize),
        KeyType::SortedSet => Some(Request::SortedSetSize),
        KeyType::Unknown => None,
    }
}

/// Where a fetch stands after `reply`. A failure of the store ends it with
/// the store's text. An answer that fits the question leads to the next
/// question or to the finished details: the type is followed by the time to
/// live, the time to live by what the type calls for, and a key of unknown
/// type is finished once its time to live is known. Any other answer ends
/// the fetch.
pub open spec fn advance_spec(f: FetchView, reply: Reply) -> Outcome {
    match (f.next, reply) {
        (_, Reply::Failed(m)) => Outcome::Failed(m@),
        (Request::Type, Reply::Type(raw)) => Outcome::Ask(
            FetchView { key: f.key, next: Request::Ttl, raw_type: raw@, ttl: f.ttl },
        ),
        (Request::Ttl, Reply::Ttl(t)) => match body_question(classify_spec(f.raw_type)) {
            Some(question) => Outcome::Ask(
                FetchView { key: f.key, next: question, raw_type: f.raw_type, ttl: t as int },
            ),
            None => Outcome::Done(f.key, unknown_details(f.raw_type, t as int)),
        },
        (Request::Value, Reply::Value(v)) => Outcome::Done(
            f.key,
            string_details(f.raw_type, f.ttl, v@),
        ),
        (Request::HashFields, Reply::HashFields(fields)) => Outcome::Done(
            f.key,
            hash_details(f.raw_type, f.ttl, pairs(fields@)),
        ),
        (Request::ListLength, Reply::Count(n)) => Outcome::Done(
            f.key,
            counted_details(KeyType::List, f.raw_type, f.ttl, n as nat),
        ),
        (Request::SetSize, Reply::Count(n)) => Outcome::Done(
            f.key,
            counted_details(KeyType::UnorderedSet, f.raw_type, f.ttl, n as nat),
        ),
        (Request::SortedSetSize, Reply::Count(n)) => Outcome::Done(
            f.key,
            counted_details(KeyType::SortedSet, f.raw_type, f.ttl, n as nat),
        ),
        _ => unexpected(),
    }
}

fn refuse() -> (r: Progress)
    ensures
        r@ == unexpected(),
{
    Progress::Failed(String::from_str("unexpected reply from the store"))
}

fn counted(fetch: Fetch, kind: KeyType, n: usize) -> (r: Progress)
    ensures
        r@ == Outcome::Done(fetch@.key, counted_details(kind, fetch@.raw_type, fetch@.ttl, n as nat)),
{
    let summary = format_count(kind, n);
    Progress::Done(
        fetch.key,
        KeyDetails {
            key_type: kind,
            raw_type: fetch.raw_type,
            ttl: fetch.ttl,
            summary,
            fields: None,
        },
    )
}

impl Fetch {
    /// Starts a fetch for `key`: nothing is known of it yet.
    pub fn begin(key: String) -> (f: Fetch)
        ensures
            f@ == begin_spec(key@),
    {
        Fetch { key, next: Request::Type, raw_type: String::new(), ttl: 0 }
    }

    /// The question to put to the store next.
    pub fn request(&self) -> (r: Request)
        ensures
            r == self@.next,
    {
        self.next
    }

    /// Takes the store's answer to the question of `request`.
    pub fn advance(self, reply: Reply) -> (r: Progress)
        ensures
            r@ == advance_spec(self@, reply),
    {
        match (self.next, reply) {
            (_, Reply::Failed(m)) => Progress::Failed(m),
            (Request::Type, Reply::Type(raw)) => Progress::Ask(
                Fetch { key: self.key, next: Request::Ttl, raw_type: raw, ttl: self.ttl },
            ),
            (Request::Ttl, Reply::Ttl(t)) => {
                let question = match classify(self.raw_type.as_str()) {
                    KeyType::String => Some(Request::Value),
                    KeyType::Hash => Some(Request::HashFields),
                    KeyType::List => Some(Request::ListLength),
                    KeyType::UnorderedSet => Some(Request::SetSize),
                    KeyType::SortedSet => Some(Request::SortedSetSize),
                    KeyType::Unknown => None,
                };
                match question {
                    Some(next) => Progress::Ask(
                        Fetch { key: self.key, next, raw_type: self.raw_type, ttl: t },
                    ),
                    None => {
                        let summary = join(
                            String::from_str("Unknown type "),
                            self.raw_type.as_str(),
                        );
                        Progress::Done(
                            self.key,
                            KeyDetails {
                                key_type: KeyType::Unknown,
                                raw_type: self.raw_type,
                                ttl: t,
                                summary,
                                fields: None,
                            },
                        )
                    },
                }
            },
            (Request::Value, Reply::Value(v)) => Progress::Done(
                self.key,
                KeyDetails {
                    key_type: KeyType::String,
                    raw_type: self.raw_type,
                    ttl: self.ttl,
                    summary: v,
                    fields: None,
                },
            ),
            (Request::HashFields, Reply::HashFields(fields)) => {
                let summary = format_count(KeyType::Hash, fields.len());
                Progress::Done(
                    self.key,
                    KeyDetails {
                        key_type: KeyType::Hash,
                        raw_type: self.raw_type,
                        ttl: self.ttl,
                        summary,
                        fields: Some(fields),
                    },
                )
            },
            (Request::ListLength, Reply::Count(n)) => counted(self, KeyType::List, n),
            (Request::SetSize, Reply::Count(n)) => counted(self, KeyType::UnorderedSet, n),
            (Request::SortedSetSize, Reply::Count(n)) => counted(self, KeyType::SortedSet, n),
            _ => refuse(),
        }
    }
}

} // verus!
