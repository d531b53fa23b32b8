//! Options that several requests share.

use crate::api::form::Keyword;
use vstd::prelude::*;

verus! {

/// The direction in which a collection is sorted.
#[derive(Clone, Copy, Debug, PartialEq, Eq, Structural)]
pub enum Direction {
    /// Smallest first (default).
    Asc,
    /// Largest first.
    Desc,
}

impl Keyword for Direction {
    open spec fn word(self) -> Seq<char> {
        match self {
            Direction::Asc => "asc"@,
            Direction::Desc => "desc"@,
        }
    }

    open spec fn from_word(word: Seq<char>) -> Option<Direction> {
        if word == "asc"@ {
            Some(Direction::Asc)
        } else if word == "desc"@ {
            Some(Direction::Desc)
        } else {
            None
        }
    }

    fn as_str(&self) -> (word: &'static str) {
        match self {
            Direction::Asc => "asc",
            Direction::Desc => "desc",
        }
    }

    proof fn lemma_word_round_trip(self) {
        reveal_strlit("asc");
        reveal_strlit("desc");
        assert("desc"@.len() == 4);
    }
}

impl Default for Direction {
    fn default() -> (option: Direction)
        ensures
            option == Direction::Asc,
    {
        Direction::Asc
    }
}

/// Sorting options for categories.
#[derive(Clone, Copy, Debug, PartialEq, Eq, Structural)]
pub enum CategoriesSorting {
    /// Sorts alphanumerically by the category name.
    Name,
    /// Sorts by the miscellaneous flag.
    Miscellaneous,
    /// Sorts by the order defined by the game moderator (default).
    Pos,
}

impl Keyword for CategoriesSorting {
    open spec fn word(self) -> Seq<char> {
        match self {
            CategoriesSorting::Name => "name"@,
            CategoriesSorting::Miscellaneous => "miscellaneous"@,
            CategoriesSorting::Pos => "pos"@,
        }
    }

    open spec fn from_word(word: Seq<char>) -> Option<CategoriesSorting> {
        if word == "name"@ {
            Some(CategoriesSorting::Name)
        } else if word == "miscellaneous"@ {
            Some(CategoriesSorting::Miscellaneous)
        } else if word == "pos"@ {
            Some(CategoriesSorting::Pos)
        } else {
            None
        }
    }

    fn as_str(&self) -> (word: &'static str) {
        match self {
            CategoriesSorting::Name => "name",
            CategoriesSorting::Miscellaneous => "miscellaneous",
            CategoriesSorting::Pos => "pos",
        }
    }

    proof fn lemma_word_round_trip(self) {
        reveal_strlit("name");
        reveal_strlit("miscellaneous");
        reveal_strlit("pos");
        assert("miscellaneous"@.len() == 13);
        assert("pos"@.len() == 3);
    }
}

impl Default for CategoriesSorting {
    fn default() -> (option: CategoriesSorting)
        ensures
            option == CategoriesSorting::Pos,
    {
        CategoriesSorting::Pos
    }
}

/// Sorting options for variables.
#[derive(Clone, Copy, Debug, PartialEq, Eq, Structural)]
pub enum VariablesSorting {
    /// Sorts alphanumerically by the variable name.
    Name,
    /// Sorts by the mandatory flag.
    Mandatory,
    /// Sorts by the user-defined flag.
    UserDefined,
    /// Sorts by the order defined by the game moderator (default).
    Pos,
}

impl Keyword for VariablesSorting {
    open spec fn word(self) -> Seq<char> {
        match self {
            VariablesSorting::Name => "name"@,
            VariablesSorting::Mandatory => "mandatory"@,
            VariablesSorting::UserDefined => "user-defined"@,
            VariablesSorting::Pos => "pos"@,
        }
    }

    open spec fn from_word(word: Seq<char>) -> Option<VariablesSorting> {
        if word == "name"@ {
            Some(VariablesSorting::Name)
        } else if word == "mandatory"@ {
            Some(VariablesSorting::Mandatory)
        } else if word == "user-defined"@ {
            Some(VariablesSorting::UserDefined)
        } else if word == "pos"@ {
            Some(VariablesSorting::Pos)
        } else {
            None
        }
    }

    fn as_str(&self) -> (word: &'static str) {
        match self {
            VariablesSorting::Name => "name",
            VariablesSorting::Mandatory => "mandatory",
            VariablesSorting::UserDefined => "user-defined",
            VariablesSorting::Pos => "pos",
        }
    }

    proof fn lemma_word_round_trip(self) {
        reveal_strlit("name");
        reveal_strlit("mandatory");
        reveal_strlit("user-defined");
        reveal_strlit("pos");
        assert("mandatory"@.len() == 9);
        assert("user-defined"@.len() == 12);
        assert("pos"@.len() == 3);
    }
}

impl Default for VariablesSorting {
    fn default() -> (option: VariablesSorting)
        ensures
            option == VariablesSorting::Pos,
    {
        VariablesSorting::Pos
    }
}

} // verus!
