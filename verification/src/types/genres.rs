//! Genres of games.

use crate::json::{read_all, views, FromJson, Json, JsonView};
use crate::types::common::{link_of, Link, LinkView};
use vstd::prelude::*;

verus! {

/// A genre that games are filed under.
#[derive(Clone, Debug, PartialEq, Eq)]
pub struct Genre {
    pub id: String,
    pub name: String,
    pub links: Vec<Link>,
}

pub struct GenreView {
    pub id: Seq<char>,
    pub name: Seq<char>,
    pub links: Seq<LinkView>,
}

impl View for Genre {
    type V = GenreView;

    open spec fn view(&self) -> GenreView {
        GenreView {
            id: self.id@,
            name: self.name@,
            links: Seq::new(self.links@.len(), |i: int| self.links@[i]@),
        }
    }
}

impl Default for Genre {
    /// The genre with an empty id, an empty name and no links.
    fn default() -> (genre: Genre)
        ensures
            genre.id@.len() == 0,
            genre.name@.len() == 0,
            genre.links@.len() == 0,
    {
        Genre { id: String::new(), name: String::new(), links: Vec::new() }
    }
}

/// The links that a sequence of values denotes, where each of them is a link.
pub open spec fn links_of(items: Seq<JsonView>) -> Option<Seq<LinkView>> {
    if forall|i: int| 0 <= i < items.len() ==> link_of(#[trigger] items[i]) is Some {
        Some(Seq::new(items.len(), |i: int| link_of(items[i])->Some_0))
    } else {
        None
    }
}

/// The genre that a value denotes: an object with the strings `id` and
/// `name` and the array of links `links`.
pub open spec fn genre_of(value: JsonView) -> Option<GenreView> {
    match (value.text_member("id"@), value.text_member("name"@), value.member("links"@)) {
        (Some(id), Some(name), Some(JsonView::Array(items))) => match links_of(items) {
            Some(links) => Some(GenreView { id, name, links }),
            None => None,
        },
        _ => None,
    }
}

impl FromJson for Genre {
    fn from_json(value: &Json) -> (decoded: Option<Genre>)
        ensures
            match decoded {
                Some(genre) => genre_of(value@) == Some(genre@),
                None => genre_of(value@) is None,
            },
    {
        let id = match value.text_member("id") {
            Some(id) => id,
            None => {
                return None;
            },
        };
        let name = match value.text_member("name") {
            Some(name) => name,
            None => {
                return None;
            },
        };
        let items = match value.member("links") {
            Some(links) => match links.as_array() {
                Some(items) => items,
                None => {
                    return None;
                },
            },
            None => {
                return None;
            },
        };
        let ghost listed = views(items@);
        match read_all::<Link>(items) {
            Some(links) => {
                let genre = Genre { id, name, links };
                proof {
                    assert(links_of(listed)->Some_0 =~= genre@.links);
                }
                Some(genre)
            },
            None => {
                proof {
                    let k = choose|k: int|
                        0 <= k < items@.len() && call_ensures(
                            Link::from_json,
                            (&#[trigger] items@[k],),
                            None::<Link>,
                        );
                    assert(link_of(listed[k]) is None);
                }
                None
            },
        }
    }
}

} // verus!
