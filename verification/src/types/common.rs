//! Values that occur in many answers.

use crate::json::{FromJson, Json, JsonView};
use vstd::prelude::*;

verus! {

/// A link to a related resource.
#[derive(Clone, Debug, PartialEq, Eq)]
pub struct Link {
    pub rel: String,
    pub uri: String,
}

pub struct LinkView {
    pub rel: Seq<char>,
    pub uri: Seq<char>,
}

impl View for Link {
    type V = LinkView;

    open spec fn view(&self) -> LinkView {
        LinkView { rel: self.rel@, uri: self.uri@ }
    }
}

/// The link that a value denotes: an object with the strings `rel` and `uri`.
pub open spec fn link_of(value: JsonView) -> Option<LinkView> {
    match (value.text_member("rel"@), value.text_member("uri"@)) {
        (Some(rel), Some(uri)) => Some(LinkView { rel, uri }),
        _ => None,
    }
}

impl FromJson for Link {
    fn from_json(value: &Json) -> (decoded: Option<Link>)
        ensures
            match decoded {
                Some(link) => link_of(value@) == Some(link@),
                None => link_of(value@) is None,
            },
    {
        let rel = match value.text_member("rel") {
            Some(rel) => rel,
            None => {
                return None;
            },
        };
        let uri = match value.text_member("uri") {
            Some(uri) => uri,
            None => {
                return None;
            },
        };
        Some(Link { rel, uri })
    }
}

/// Where a page lies in its collection.
#[derive(Clone, Copy, Debug, PartialEq, Eq, Structural)]
pub struct Pagination {
    /// The index of the page's first item in the collection.
    pub offset: u64,
    /// The largest number of items that a page holds.
    pub max: u64,
    /// The number of items in this page.
    pub size: u64,
}

/// The cursor that a value denotes: an object with the non-negative integers
/// `offset`, `max` and `size`.
pub open spec fn pagination_of(value: JsonView) -> Option<Pagination> {
    match (value.count_member("offset"@), value.count_member("max"@), value.count_member("size"@)) {
        (Some(offset), Some(max), Some(size)) => Some(Pagination { offset, max, size }),
        _ => None,
    }
}

impl FromJson for Pagination {
    fn from_json(value: &Json) -> (decoded: Option<Pagination>)
        ensures
            decoded == pagination_of(value@),
    {
        let offset = match value.count_member("offset") {
            Some(offset) => offset,
            None => {
                return None;
            },
        };
        let max = match value.count_member("max") {
            Some(max) => max,
            None => {
                return None;
            },
        };
        let size = match value.count_member("size") {
            Some(size) => size,
            None => {
                return None;
            },
        };
        Some(Pagination { offset, max, size })
    }
}

} // verus!
