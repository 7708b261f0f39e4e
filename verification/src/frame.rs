//! The frame: what a front end draws for one state of the browser. Three
//! regions stand one above the other: the main region, the status line and
//! the help line.

use vstd::prelude::*;
use vstd::string::*;
use crate::details::{clone_fields, pairs, DetailsView, KeyDetails, KeyType};
use crate::filter::views;

verus! {

/// The body of the detail view.
pub enum Body {
    /// Running text, to be wrapped to the width at hand.
    Text(String),
    /// A table of fields and values, one row each, in the order given.
    Table(Vec<(String, String)>),
}

/// The mathematical value of a `Body`.
pub enum BodyView {
    Text(Seq<char>),
    Table(Seq<(Seq<char>, Seq<char>)>),
}

impl View for Body {
    type V = BodyView;

    open spec fn view(&self) -> BodyView {
        match self {
            Body::Text(t) => BodyView::Text(t@),
            Body::Table(rows) => BodyView::Table(pairs(rows@)),
        }
    }
}

/// The list view: the search box above the list of visible keys.
pub struct ListRegion {
    pub search: String,
    pub title: String,
    pub items: Vec<String>,
    pub selected: Option<usize>,
}

/// The mathematical value of a `ListRegion`.
pub struct ListRegionView {
    pub search: Seq<char>,
    pub title: Seq<char>,
    pub items: Seq<Seq<char>>,
    pub selected: Option<usize>,
}

impl View for ListRegion {
    type V = ListRegionView;

    open spec fn view(&self) -> ListRegionView {
        ListRegionView {
            search: self.search@,
            title: self.title@,
            items: views(self.items@),
            selected: self.selected,
        }
    }
}

/// The detail view: a header with the key and its type, the body, and the
/// time to live.
pub struct DetailRegion {
    pub key: String,
    pub type_tag: String,
    pub body: Body,
    pub ttl: String,
    pub scroll: usize,
}

/// The mathematical value of a `DetailRegion`.
pub struct DetailRegionView {
    pub key: Seq<char>,
    pub type_tag: Seq<char>,
    pub body: BodyView,
    pub ttl: Seq<char>,
    pub scroll: nat,
}

impl View for DetailRegion {
    type V = DetailRegionView;

    open spec fn view(&self) -> DetailRegionView {
        DetailRegionView {
            key: self.key@,
            type_tag: self.type_tag@,
            body: self.body@,
            ttl: self.ttl@,
            scroll: self.scroll as nat,
        }
    }
}

/// The main region of a frame.
pub enum MainRegion {
    Listing(ListRegion),
    Detail(DetailRegion),
}

/// The mathematical value of a `MainRegion`.
pub enum MainRegionView {
    Listing(ListRegionView),
    Detail(DetailRegionView),
}

impl View for MainRegion {
    type V = MainRegionView;

    open spec fn view(&self) -> MainRegionView {
        match self {
            MainRegion::Listing(l) => MainRegionView::Listing(l@),
            MainRegion::Detail(d) => MainRegionView::Detail(d@),
        }
    }
}

/// One frame.
pub struct Frame {
    pub main: MainRegion,
    pub status: String,
    pub help: Vec<(String, String)>,
}

/// The mathematical value of a `Frame`.
pub struct FrameView {
    pub main: MainRegionView,
    pub status: Seq<char>,
    pub help: Seq<(Seq<char>, Seq<char>)>,
}

impl View for Frame {
    type V = FrameView;

    open spec fn view(&self) -> FrameView {
        FrameView { main: self.main@, status: self.status@, help: pairs(self.help@) }
    }
}

/// The body that shows the details of a key: the value of a String key, the
/// field table of a Hash key, the summary with the count for a List, Set or
/// SortedSet key, the type tag for a key of unknown type.
pub open spec fn body_spec(d: DetailsView) -> BodyView {
    match d.key_type {
        KeyType::String => BodyView::Text(d.summary),
        KeyType::Hash => match d.fields {
            Some(f) => BodyView::Table(f),
            None => BodyView::Text(d.summary),
        },
        KeyType::List => BodyView::Text(d.summary),
        KeyType::UnorderedSet => BodyView::Text(d.summary),
        KeyType::SortedSet => BodyView::Text(d.summary),
        KeyType::Unknown => BodyView::Text(d.raw_type),
    }
}

/// Builds the body of the detail view.
pub fn body_of(d: &KeyDetails) -> (b: Body)
    ensures
        b@ == body_spec(d@),
{
    match d.key_type {
        KeyType::String => Body::Text(d.summary.clone()),
        KeyType::Hash => match &d.fields {
            Some(f) => Body::Table(clone_fields(f)),
            None => Body::Text(d.summary.clone()),
        },
        KeyType::List => Body::Text(d.summary.clone()),
        KeyType::UnorderedSet => Body::Text(d.summary.clone()),
        KeyType::SortedSet => Body::Text(d.summary.clone()),
        KeyType::Unknown => Body::Text(d.raw_type.clone()),
    }
}

/// The help line: each key of the fixed keymap with what it does.
pub open spec fn help_spec() -> Seq<(Seq<char>, Seq<char>)> {
    seq![
        ("Q"@, "Quit"@),
        ("R"@, "Refresh"@),
        ("Enter"@, "View Details"@),
        ("ESC"@, "Back"@),
    ]
}

/// Builds the help line.
pub fn help_line() -> (help: Vec<(String, String)>)
    ensures
        pairs(help@) == help_spec(),
{
    let mut help: Vec<(String, String)> = Vec::new();
    help.push((String::from_str("Q"), String::from_str("Quit")));
    help.push((String::from_str("R"), String::from_str("Refresh")));
    help.push((String::from_str("Enter"), String::from_str("View Details")));
    help.push((String::from_str("ESC"), String::from_str("Back")));
    assert(pairs(help@) =~= help_spec());
    help
}

} // verus!
