//! Requests about games.

use crate::api::builder::BuilderError;
use crate::api::common::{CategoriesSorting, Direction, VariablesSorting};
use crate::api::endpoint::{Body, Endpoint, Method, Pageable};
use crate::api::error::BodyError;
use crate::api::form::{
    decoded_pairs, encode_pairs, encoded_pairs, flag_read, flag_text, lemma_flag_read,
    lemma_number_read, lemma_pairs_round_trip, lemma_parameter_concat, lemma_parameter_optional,
    lemma_word_read, number_read, number_text, optional_pair, parameter, push_flag, push_keyword,
    push_number, push_text, push_word, word_of, word_read, Keyword, Pair,
};
use crate::api::query::{
    lemma_between, lemma_url_parts, lemma_url_path, request_url, url_path, url_query,
};
use crate::text::{copy_text, text_view};
use vstd::prelude::*;
use vstd::string::StringExecFns;

verus! {

/// Sorting options for games.
#[derive(Clone, Copy, Debug, PartialEq, Eq, Structural)]
pub enum GamesSorting {
    /// Sorts alphanumerically by the international name (default).
    NameInternational,
    /// Sorts alphanumerically by the Japanese name.
    NameJapanese,
    /// Sorts alphanumerically by the abbreviation.
    Abbreviation,
    /// Sorts by the release date.
    Released,
    /// Sorts by the date the game was added to speedrun.com.
    Created,
    /// Sorts by string similarity. Only available when searching games by name
    /// (default when searching by name).
    Similarity,
}

impl Keyword for GamesSorting {
    open spec fn word(self) -> Seq<char> {
        match self {
            GamesSorting::NameInternational => "name.int"@,
            GamesSorting::NameJapanese => "name.jap"@,
            GamesSorting::Abbreviation => "abbreviation"@,
            GamesSorting::Released => "released"@,
            GamesSorting::Created => "created"@,
            GamesSorting::Similarity => "similarity"@,
        }
    }

    open spec fn from_word(word: Seq<char>) -> Option<GamesSorting> {
        if word == "name.int"@ {
            Some(GamesSorting::NameInternational)
        } else if word == "name.jap"@ {
            Some(GamesSorting::NameJapanese)
        } else if word == "abbreviation"@ {
            Some(GamesSorting::Abbreviation)
        } else if word == "released"@ {
            Some(GamesSorting::Released)
        } else if word == "created"@ {
            Some(GamesSorting::Created)
        } else if word == "similarity"@ {
            Some(GamesSorting::Similarity)
        } else {
            None
        }
    }

    fn as_str(&self) -> (word: &'static str) {
        match self {
            GamesSorting::NameInternational => "name.int",
            GamesSorting::NameJapanese => "name.jap",
            GamesSorting::Abbreviation => "abbreviation",
            GamesSorting::Released => "released",
            GamesSorting::Created => "created",
            GamesSorting::Similarity => "similarity",
        }
    }

    proof fn lemma_word_round_trip(self) {
        reveal_strlit("name.int");
        reveal_strlit("name.jap");
        reveal_strlit("abbreviation");
        reveal_strlit("released");
        reveal_strlit("created");
        reveal_strlit("similarity");
        assert("name.jap"@.len() == 8 && "name.jap"@[0] == 'n' && "name.jap"@[5] == 'j');
        assert("abbreviation"@.len() == 12);
        assert("released"@.len() == 8 && "released"@[0] == 'r');
        assert("created"@.len() == 7);
        assert("similarity"@.len() == 10);
    }
}

/// Sorting options for levels.
#[derive(Clone, Copy, Debug, PartialEq, Eq, Structural)]
pub enum LevelsSorting {
    /// Sorts alphanumerically by the level name.
    Name,
    /// Sorts by the order defined by the game moderator (default).
    Pos,
}

impl Keyword for LevelsSorting {
    open spec fn word(self) -> Seq<char> {
        match self {
            LevelsSorting::Name => "name"@,
            LevelsSorting::Pos => "pos"@,
        }
    }

    open spec fn from_word(word: Seq<char>) -> Option<LevelsSorting> {
        if word == "name"@ {
            Some(LevelsSorting::Name)
        } else if word == "pos"@ {
            Some(LevelsSorting::Pos)
        } else {
            None
        }
    }

    fn as_str(&self) -> (word: &'static str) {
        match self {
            LevelsSorting::Name => "name",
            LevelsSorting::Pos => "pos",
        }
    }

    proof fn lemma_word_round_trip(self) {
        reveal_strlit("name");
        reveal_strlit("pos");
        assert("pos"@.len() == 3);
    }
}

impl Default for LevelsSorting {
    fn default() -> (option: LevelsSorting)
        ensures
            option == LevelsSorting::Pos,
    {
        LevelsSorting::Pos
    }
}

/// Which leaderboards of a game are asked for.
#[derive(Clone, Copy, Debug, PartialEq, Eq, Structural)]
pub enum LeaderboardScope {
    /// Only the full-game leaderboards.
    FullGame,
    /// Only the leaderboards of individual levels.
    Levels,
    /// Both.
    All,
}

impl Keyword for LeaderboardScope {
    open spec fn word(self) -> Seq<char> {
        match self {
            LeaderboardScope::FullGame => "full-game"@,
            LeaderboardScope::Levels => "levels"@,
            LeaderboardScope::All => "all"@,
        }
    }

    open spec fn from_word(word: Seq<char>) -> Option<LeaderboardScope> {
        if word == "full-game"@ {
            Some(LeaderboardScope::FullGame)
        } else if word == "levels"@ {
            Some(LeaderboardScope::Levels)
        } else if word == "all"@ {
            Some(LeaderboardScope::All)
        } else {
            None
        }
    }

    fn as_str(&self) -> (word: &'static str) {
        match self {
            LeaderboardScope::FullGame => "full-game",
            LeaderboardScope::Levels => "levels",
            LeaderboardScope::All => "all",
        }
    }

    proof fn lemma_word_round_trip(self) {
        reveal_strlit("full-game");
        reveal_strlit("levels");
        reveal_strlit("all");
        assert("levels"@.len() == 6);
        assert("all"@.len() == 3);
    }
}

/// Lists games, with optional filters and sorting.
#[derive(Clone, Debug)]
pub struct Games {
    name: Option<String>,
    abbreviation: Option<String>,
    released: Option<i64>,
    gametype: Option<String>,
    platform: Option<String>,
    region: Option<String>,
    genre: Option<String>,
    engine: Option<String>,
    developer: Option<String>,
    publisher: Option<String>,
    moderator: Option<String>,
    bulk: Option<bool>,
    orderby: Option<GamesSorting>,
    direction: Option<Direction>,
}

/// What a [`Games`] request holds.
pub struct GamesView {
    pub name: Option<Seq<char>>,
    pub abbreviation: Option<Seq<char>>,
    pub released: Option<i64>,
    pub gametype: Option<Seq<char>>,
    pub platform: Option<Seq<char>>,
    pub region: Option<Seq<char>>,
    pub genre: Option<Seq<char>>,
    pub engine: Option<Seq<char>>,
    pub developer: Option<Seq<char>>,
    pub publisher: Option<Seq<char>>,
    pub moderator: Option<Seq<char>>,
    pub bulk: Option<bool>,
    pub orderby: Option<GamesSorting>,
    pub direction: Option<Direction>,
}

impl View for Games {
    type V = GamesView;

    closed spec fn view(&self) -> GamesView {
        GamesView {
            name: text_view(self.name),
            abbreviation: text_view(self.abbreviation),
            released: self.released,
            gametype: text_view(self.gametype),
            platform: text_view(self.platform),
            region: text_view(self.region),
            genre: text_view(self.genre),
            engine: text_view(self.engine),
            developer: text_view(self.developer),
            publisher: text_view(self.publisher),
            moderator: text_view(self.moderator),
            bulk: self.bulk,
            orderby: self.orderby,
            direction: self.direction,
        }
    }
}

impl GamesView {
    /// No field set.
    pub open spec fn unset() -> GamesView {
        GamesView {
            name: None,
            abbreviation: None,
            released: None,
            gametype: None,
            platform: None,
            region: None,
            genre: None,
            engine: None,
            developer: None,
            publisher: None,
            moderator: None,
            bulk: None,
            orderby: None,
            direction: None,
        }
    }

    /// The path of the request.
    pub open spec fn path(self) -> Seq<char> {
        "games"@
    }

    /// The parameters of the query string: one for each field that is set,
    /// in the order of the fields.
    pub open spec fn pairs(self) -> Seq<(Seq<char>, Seq<char>)> {
        optional_pair("name"@, self.name)
            + optional_pair("abbreviation"@, self.abbreviation)
            + optional_pair("released"@, number_text(self.released))
            + optional_pair("gametype"@, self.gametype)
            + optional_pair("platform"@, self.platform)
            + optional_pair("region"@, self.region)
            + optional_pair("genre"@, self.genre)
            + optional_pair("engine"@, self.engine)
            + optional_pair("developer"@, self.developer)
            + optional_pair("publisher"@, self.publisher)
            + optional_pair("moderator"@, self.moderator)
            + optional_pair("_bulk"@, flag_text(self.bulk))
            + optional_pair("orderby"@, word_of(self.orderby))
            + optional_pair("direction"@, word_of(self.direction))
    }

    /// The fields that a list of parameters sets: each is read from the
    /// first parameter of its name.
    pub open spec fn from_pairs(pairs: Seq<(Seq<char>, Seq<char>)>) -> GamesView {
        GamesView {
            name: parameter(pairs, "name"@),
            abbreviation: parameter(pairs, "abbreviation"@),
            released: number_read(parameter(pairs, "released"@)),
            gametype: parameter(pairs, "gametype"@),
            platform: parameter(pairs, "platform"@),
            region: parameter(pairs, "region"@),
            genre: parameter(pairs, "genre"@),
            engine: parameter(pairs, "engine"@),
            developer: parameter(pairs, "developer"@),
            publisher: parameter(pairs, "publisher"@),
            moderator: parameter(pairs, "moderator"@),
            bulk: flag_read(parameter(pairs, "_bulk"@)),
            orderby: word_read(parameter(pairs, "orderby"@)),
            direction: word_read(parameter(pairs, "direction"@)),
        }
    }

    /// The request that a URL under the base URL `base` stands for.
    pub open spec fn from_url(url: Seq<char>, base: Seq<char>) -> GamesView {
        Self::from_pairs(decoded_pairs(url_query(url)))
    }

    /// The URL of the request under the base URL `base`.
    pub open spec fn url(self, base: Seq<char>) -> Seq<char> {
        request_url(base, self.path(), encoded_pairs(self.pairs()))
    }

    /// Every field is read back from the parameters that the request writes.
    pub proof fn lemma_fields_round_trip(self)
        ensures
            Self::from_pairs(self.pairs()) == self,
    {
        broadcast use {
            lemma_parameter_concat,
            lemma_parameter_optional,
            lemma_number_read,
            lemma_flag_read,
            lemma_word_read,
        };

        reveal_strlit("name");
        reveal_strlit("abbreviation");
        reveal_strlit("released");
        reveal_strlit("gametype");
        reveal_strlit("platform");
        reveal_strlit("region");
        reveal_strlit("genre");
        reveal_strlit("engine");
        reveal_strlit("developer");
        reveal_strlit("publisher");
        reveal_strlit("moderator");
        reveal_strlit("_bulk");
        reveal_strlit("orderby");
        reveal_strlit("direction");
        assert("abbreviation"@.len() == 12);
        assert("released"@.len() == 8 && "released"@[0] == 'r');
        assert("gametype"@.len() == 8 && "gametype"@[0] == 'g');
        assert("platform"@.len() == 8 && "platform"@[0] == 'p');
        assert("region"@.len() == 6 && "region"@[0] == 'r');
        assert("genre"@.len() == 5 && "genre"@[0] == 'g');
        assert("engine"@.len() == 6 && "engine"@[0] == 'e');
        assert("developer"@.len() == 9 && "developer"@[0] == 'd' && "developer"@[1] == 'e');
        assert("publisher"@.len() == 9 && "publisher"@[0] == 'p');
        assert("moderator"@.len() == 9 && "moderator"@[0] == 'm');
        assert("_bulk"@.len() == 5 && "_bulk"@[0] == '_');
        assert("orderby"@.len() == 7);
        assert("direction"@.len() == 9 && "direction"@[0] == 'd' && "direction"@[1] == 'i');
    }

    /// The request is read back from its URL: the path and the query string
    /// are found again in the URL, and they give the fields that were set.
    /// The base URL must hold no `?`, which would cut the URL short.
    pub proof fn lemma_url_round_trip(self, base: Seq<char>)
        requires
            !base.contains('?'),
        ensures
            Self::from_url(self.url(base), base) == self,
    {
        let path = self.path();
        let query = encoded_pairs(self.pairs());
        reveal_strlit("games");
        lemma_url_parts(base, path, query);
        lemma_pairs_round_trip(self.pairs());
        self.lemma_fields_round_trip();
    }
}

/// Builds a [`Games`] request.
#[derive(Clone, Debug)]
pub struct GamesBuilder {
    name: Option<String>,
    abbreviation: Option<String>,
    released: Option<i64>,
    gametype: Option<String>,
    platform: Option<String>,
    region: Option<String>,
    genre: Option<String>,
    engine: Option<String>,
    developer: Option<String>,
    publisher: Option<String>,
    moderator: Option<String>,
    bulk: Option<bool>,
    orderby: Option<GamesSorting>,
    direction: Option<Direction>,
}

impl View for GamesBuilder {
    type V = GamesView;

    /// The fields that have been set.
    closed spec fn view(&self) -> GamesView {
        GamesView {
            name: text_view(self.name),
            abbreviation: text_view(self.abbreviation),
            released: self.released,
            gametype: text_view(self.gametype),
            platform: text_view(self.platform),
            region: text_view(self.region),
            genre: text_view(self.genre),
            engine: text_view(self.engine),
            developer: text_view(self.developer),
            publisher: text_view(self.publisher),
            moderator: text_view(self.moderator),
            bulk: self.bulk,
            orderby: self.orderby,
            direction: self.direction,
        }
    }
}

impl Default for GamesBuilder {
    /// A builder with no field set.
    fn default() -> (builder: GamesBuilder)
        ensures
            builder@ == GamesView::unset(),
    {
        GamesBuilder {
            name: None,
            abbreviation: None,
            released: None,
            gametype: None,
            platform: None,
            region: None,
            genre: None,
            engine: None,
            developer: None,
            publisher: None,
            moderator: None,
            bulk: None,
            orderby: None,
            direction: None,
        }
    }
}

impl GamesBuilder {
    /// Searches for games by name.
    pub fn name(&mut self, value: &str) -> (builder: &mut Self)
        ensures
            *final(self) == *final(builder),
            builder@ == (GamesView { name: Some(value@), ..old(self)@ }),
    {
        self.name = Some(String::from_str(value));
        self
    }

    /// Asks for the game with this abbreviation.
    pub fn abbreviation(&mut self, value: &str) -> (builder: &mut Self)
        ensures
            *final(self) == *final(builder),
            builder@ == (GamesView { abbreviation: Some(value@), ..old(self)@ }),
    {
        self.abbreviation = Some(String::from_str(value));
        self
    }

    /// Asks for the games released in this year.
    pub fn released(&mut self, value: i64) -> (builder: &mut Self)
        ensures
            *final(self) == *final(builder),
            builder@ == (GamesView { released: Some(value), ..old(self)@ }),
    {
        self.released = Some(value);
        self
    }

    /// Asks for the games of this game type, given by its id.
    pub fn gametype(&mut self, value: &str) -> (builder: &mut Self)
        ensures
            *final(self) == *final(builder),
            builder@ == (GamesView { gametype: Some(value@), ..old(self)@ }),
    {
        self.gametype = Some(String::from_str(value));
        self
    }

    /// Asks for the games on this platform, given by its id.
    pub fn platform(&mut self, value: &str) -> (builder: &mut Self)
        ensures
            *final(self) == *final(builder),
            builder@ == (GamesView { platform: Some(value@), ..old(self)@ }),
    {
        self.platform = Some(String::from_str(value));
        self
    }

    /// Asks for the games of this region, given by its id.
    pub fn region(&mut self, value: &str) -> (builder: &mut Self)
        ensures
            *final(self) == *final(builder),
            builder@ == (GamesView { region: Some(value@), ..old(self)@ }),
    {
        self.region = Some(String::from_str(value));
        self
    }

    /// Asks for the games of this genre, given by its id.
    pub fn genre(&mut self, value: &str) -> (builder: &mut Self)
        ensures
            *final(self) == *final(builder),
            builder@ == (GamesView { genre: Some(value@), ..old(self)@ }),
    {
        self.genre = Some(String::from_str(value));
        self
    }

    /// Asks for the games with this engine, given by its id.
    pub fn engine(&mut self, value: &str) -> (builder: &mut Self)
        ensures
            *final(self) == *final(builder),
            builder@ == (GamesView { engine: Some(value@), ..old(self)@ }),
    {
        self.engine = Some(String::from_str(value));
        self
    }

    /// Asks for the games of this developer, given by its id.
    pub fn developer(&mut self, value: &str) -> (builder: &mut Self)
        ensures
            *final(self) == *final(builder),
            builder@ == (GamesView { developer: Some(value@), ..old(self)@ }),
    {
        self.developer = Some(String::from_str(value));
        self
    }

    /// Asks for the games of this publisher, given by its id.
    pub fn publisher(&mut self, value: &str) -> (builder: &mut Self)
        ensures
            *final(self) == *final(builder),
            builder@ == (GamesView { publisher: Some(value@), ..old(self)@ }),
    {
        self.publisher = Some(String::from_str(value));
        self
    }

    /// Asks for the games that this user moderates, given by their id.
    pub fn moderator(&mut self, value: &str) -> (builder: &mut Self)
        ensures
            *final(self) == *final(builder),
            builder@ == (GamesView { moderator: Some(value@), ..old(self)@ }),
    {
        self.moderator = Some(String::from_str(value));
        self
    }

    /// Turns bulk access on or off.
    pub fn bulk(&mut self, value: bool) -> (builder: &mut Self)
        ensures
            *final(self) == *final(builder),
            builder@ == (GamesView { bulk: Some(value), ..old(self)@ }),
    {
        self.bulk = Some(value);
        self
    }

    /// Sets what the games are sorted by.
    pub fn orderby(&mut self, value: GamesSorting) -> (builder: &mut Self)
        ensures
            *final(self) == *final(builder),
            builder@ == (GamesView { orderby: Some(value), ..old(self)@ }),
    {
        self.orderby = Some(value);
        self
    }

    /// Sets the direction in which the games are sorted.
    pub fn direction(&mut self, value: Direction) -> (builder: &mut Self)
        ensures
            *final(self) == *final(builder),
            builder@ == (GamesView { direction: Some(value), ..old(self)@ }),
    {
        self.direction = Some(value);
        self
    }

    /// Builds the request. A field that has not been set is left unset.
    pub fn build(&self) -> (request: Result<Games, BuilderError>)
        ensures
            request matches Ok(r) && r@ == self@,
    {
        Ok(
            Games {
                name: copy_text(&self.name),
                abbreviation: copy_text(&self.abbreviation),
                released: self.released,
                gametype: copy_text(&self.gametype),
                platform: copy_text(&self.platform),
                region: copy_text(&self.region),
                genre: copy_text(&self.genre),
                engine: copy_text(&self.engine),
                developer: copy_text(&self.developer),
                publisher: copy_text(&self.publisher),
                moderator: copy_text(&self.moderator),
                bulk: self.bulk,
                orderby: self.orderby,
                direction: self.direction,
            },
        )
    }
}

impl Games {
    /// A builder with no field set.
    pub fn builder() -> (builder: GamesBuilder)
        ensures
            builder@ == GamesView::unset(),
    {
        GamesBuilder::default()
    }
}

impl Default for Games {
    /// The request with no field set.
    fn default() -> (request: Games)
        ensures
            request@ == GamesView::unset(),
    {
        Games {
            name: None,
            abbreviation: None,
            released: None,
            gametype: None,
            platform: None,
            region: None,
            genre: None,
            engine: None,
            developer: None,
            publisher: None,
            moderator: None,
            bulk: None,
            orderby: None,
            direction: None,
        }
    }
}

impl Endpoint for Games {
    fn method(&self) -> (method: Method)
        ensures
            method == Method::Get,
    {
        Method::Get
    }

    fn endpoint_path(&self) -> (path: String)
        ensures
            path@ == self@.path(),
    {
        String::from_str("games")
    }

    fn query_parameters(&self) -> (query: Result<String, BodyError>)
        ensures
            query matches Ok(text) && text@ == encoded_pairs(self@.pairs()),
    {
        let mut pairs: Vec<Pair> = Vec::new();
        push_text(&mut pairs, "name", &self.name);
        push_text(&mut pairs, "abbreviation", &self.abbreviation);
        push_number(&mut pairs, "released", self.released);
        push_text(&mut pairs, "gametype", &self.gametype);
        push_text(&mut pairs, "platform", &self.platform);
        push_text(&mut pairs, "region", &self.region);
        push_text(&mut pairs, "genre", &self.genre);
        push_text(&mut pairs, "engine", &self.engine);
        push_text(&mut pairs, "developer", &self.developer);
        push_text(&mut pairs, "publisher", &self.publisher);
        push_text(&mut pairs, "moderator", &self.moderator);
        push_flag(&mut pairs, "_bulk", self.bulk);
        push_keyword(&mut pairs, "orderby", self.orderby);
        push_keyword(&mut pairs, "direction", self.direction);
        encode_pairs(&pairs)
    }

    fn body(&self) -> (body: Result<Option<Body>, BodyError>)
        ensures
            body matches Ok(None),
    {
        Ok(None)
    }
}

impl Pageable for Games {}

/// Asks for one game by its id.
#[derive(Clone, Debug)]
pub struct Game {
    id: String,
}

/// What a [`Game`] request holds.
pub struct GameView {
    pub id: Seq<char>,
}

impl View for Game {
    type V = GameView;

    closed spec fn view(&self) -> GameView {
        GameView {
            id: self.id@,
        }
    }
}

impl GameView {
    /// An empty id.
    pub open spec fn unset() -> GameView {
        GameView { id: Seq::empty() }
    }

    /// The path of the request.
    pub open spec fn path(self) -> Seq<char> {
        "/games/"@ + self.id
    }

    /// The id that a path of such a request holds.
    pub open spec fn id_of(path: Seq<char>) -> Seq<char> {
        path.subrange("/games/"@.len() as int, path.len() as int)
    }

    /// The request that a URL under the base URL `base` stands for.
    pub open spec fn from_url(url: Seq<char>, base: Seq<char>) -> GameView {
        GameView { id: Self::id_of(url_path(url, base)) }
    }

    /// The URL of the request under the base URL `base`.
    pub open spec fn url(self, base: Seq<char>) -> Seq<char> {
        request_url(base, self.path(), Seq::empty())
    }

    /// The request is read back from its URL: the path and the query string
    /// are found again in the URL, and they give the fields that were set.
    /// The base URL and the id must hold no `?`, which would cut the URL short.
    pub proof fn lemma_url_round_trip(self, base: Seq<char>)
        requires
            !base.contains('?'),
            !self.id.contains('?'),
        ensures
            Self::from_url(self.url(base), base) == self,
    {
        let path = self.path();
        let query = Seq::<char>::empty();
        reveal_strlit("/games/");
        lemma_url_path(base, path, query);
        lemma_between("/games/"@, self.id, Seq::empty());
    }
}

/// Builds a [`Game`] request.
#[derive(Clone, Debug)]
pub struct GameBuilder {
    id: Option<String>,
}

/// What a [`GameBuilder`] holds: the fields that have been set.
pub struct GameBuilderView {
    pub id: Option<Seq<char>>,
}

impl GameBuilderView {
    /// No field set.
    pub open spec fn unset() -> GameBuilderView {
        GameBuilderView { id: None }
    }
}

impl View for GameBuilder {
    type V = GameBuilderView;

    closed spec fn view(&self) -> GameBuilderView {
        GameBuilderView {
            id: text_view(self.id),
        }
    }
}

impl Default for GameBuilder {
    /// A builder with no field set.
    fn default() -> (builder: GameBuilder)
        ensures
            builder@ == GameBuilderView::unset(),
    {
        GameBuilder { id: None }
    }
}

impl GameBuilder {
    /// Sets the id of the game.
    pub fn id(&mut self, value: &str) -> (builder: &mut Self)
        ensures
            *final(self) == *final(builder),
            builder@ == (GameBuilderView { id: Some(value@), ..old(self)@ }),
    {
        self.id = Some(String::from_str(value));
        self
    }

    /// Builds the request. The id is required: without it the build fails
    /// and names the field.
    pub fn build(&self) -> (request: Result<Game, BuilderError>)
        ensures
            match request {
                Ok(r) => self@.id == Some(r@.id),
                Err(e) => self@.id is None && e == BuilderError::UninitializedField("id"),
            },
    {
        match &self.id {
            Some(id) => Ok(Game { id: id.clone() }),
            None => Err(BuilderError::UninitializedField("id")),
        }
    }
}

impl Game {
    /// A builder with no field set.
    pub fn builder() -> (builder: GameBuilder)
        ensures
            builder@ == GameBuilderView::unset(),
    {
        GameBuilder::default()
    }
}

impl Default for Game {
    /// The request with an empty id.
    fn default() -> (request: Game)
        ensures
            request@ == GameView::unset(),
    {
        Game { id: String::new() }
    }
}

impl Endpoint for Game {
    fn method(&self) -> (method: Method)
        ensures
            method == Method::Get,
    {
        Method::Get
    }

    fn endpoint_path(&self) -> (path: String)
        ensures
            path@ == self@.path(),
    {
        let mut path = String::from_str("/games/");
        path.append(self.id.as_str());
        path
    }

    fn query_parameters(&self) -> (query: Result<String, BodyError>)
        ensures
            query matches Ok(text) && text@ == Seq::<char>::empty(),
    {
        Ok(String::new())
    }

    fn body(&self) -> (body: Result<Option<Body>, BodyError>)
        ensures
            body matches Ok(None),
    {
        Ok(None)
    }
}

/// Lists the categories of a game.
#[derive(Clone, Debug)]
pub struct GameCategories {
    id: String,
    miscellaneous: Option<bool>,
    orderby: Option<CategoriesSorting>,
    direction: Option<Direction>,
}

/// What a [`GameCategories`] request holds.
pub struct GameCategoriesView {
    pub id: Seq<char>,
    pub miscellaneous: Option<bool>,
    pub orderby: Option<CategoriesSorting>,
    pub direction: Option<Direction>,
}

impl View for GameCategories {
    type V = GameCategoriesView;

    closed spec fn view(&self) -> GameCategoriesView {
        GameCategoriesView {
            id: self.id@,
            miscellaneous: self.miscellaneous,
            orderby: self.orderby,
            direction: self.direction,
        }
    }
}

impl GameCategoriesView {
    /// An empty id and no other field set.
    pub open spec fn unset() -> GameCategoriesView {
        GameCategoriesView { id: Seq::empty(), miscellaneous: None, orderby: None, direction: None }
    }

    /// The path of the request.
    pub open spec fn path(self) -> Seq<char> {
        "/games/"@ + self.id + "/categories"@
    }

    /// The id that a path of such a request holds.
    pub open spec fn id_of(path: Seq<char>) -> Seq<char> {
        path.subrange("/games/"@.len() as int, path.len() - "/categories"@.len())
    }

    /// The parameters of the query string: one for each field that is set,
    /// in the order of the fields.
    pub open spec fn pairs(self) -> Seq<(Seq<char>, Seq<char>)> {
        optional_pair("miscellaneous"@, flag_text(self.miscellaneous))
            + optional_pair("orderby"@, word_of(self.orderby))
            + optional_pair("direction"@, word_of(self.direction))
    }

    /// The fields that a list of parameters sets: each is read from the
    /// first parameter of its name.
    pub open spec fn from_pairs(
        pairs: Seq<(Seq<char>, Seq<char>)>,
        id: Seq<char>,
    ) -> GameCategoriesView {
        GameCategoriesView {
            id,
            miscellaneous: flag_read(parameter(pairs, "miscellaneous"@)),
            orderby: word_read(parameter(pairs, "orderby"@)),
            direction: word_read(parameter(pairs, "direction"@)),
        }
    }

    /// The request that a URL under the base URL `base` stands for.
    pub open spec fn from_url(url: Seq<char>, base: Seq<char>) -> GameCategoriesView {
        Self::from_pairs(decoded_pairs(url_query(url)), Self::id_of(url_path(url, base)))
    }

    /// The URL of the request under the base URL `base`.
    pub open spec fn url(self, base: Seq<char>) -> Seq<char> {
        request_url(base, self.path(), encoded_pairs(self.pairs()))
    }

    /// Every field that the request writes as a parameter is read back from
    /// its parameters.
    pub proof fn lemma_fields_round_trip(self)
        ensures
            Self::from_pairs(self.pairs(), self.id) == self,
    {
        broadcast use {
            lemma_parameter_concat,
            lemma_parameter_optional,
            lemma_flag_read,
            lemma_word_read,
        };

        reveal_strlit("miscellaneous");
        reveal_strlit("orderby");
        reveal_strlit("direction");
        assert("orderby"@.len() == 7);
        assert("direction"@.len() == 9);
    }

    /// The request is read back from its URL: the path and the query string
    /// are found again in the URL, and they give the fields that were set.
    /// The base URL and the id must hold no `?`, which would cut the URL short.
    pub proof fn lemma_url_round_trip(self, base: Seq<char>)
        requires
            !base.contains('?'),
            !self.id.contains('?'),
        ensures
            Self::from_url(self.url(base), base) == self,
    {
        let path = self.path();
        let query = encoded_pairs(self.pairs());
        reveal_strlit("/games/");
        reveal_strlit("/categories");
        lemma_url_parts(base, path, query);
        lemma_url_path(base, path, query);
        lemma_between("/games/"@, self.id, "/categories"@);
        lemma_pairs_round_trip(self.pairs());
        self.lemma_fields_round_trip();
    }
}

/// Builds a [`GameCategories`] request.
#[derive(Clone, Debug)]
pub struct GameCategoriesBuilder {
    id: Option<String>,
    miscellaneous: Option<bool>,
    orderby: Option<CategoriesSorting>,
    direction: Option<Direction>,
}

/// What a [`GameCategoriesBuilder`] holds: the fields that have been set.
pub struct GameCategoriesBuilderView {
    pub id: Option<Seq<char>>,
    pub miscellaneous: Option<bool>,
    pub orderby: Option<CategoriesSorting>,
    pub direction: Option<Direction>,
}

impl GameCategoriesBuilderView {
    /// No field set.
    pub open spec fn unset() -> GameCategoriesBuilderView {
        GameCategoriesBuilderView { id: None, miscellaneous: None, orderby: None, direction: None }
    }
}

impl View for GameCategoriesBuilder {
    type V = GameCategoriesBuilderView;

    closed spec fn view(&self) -> GameCategoriesBuilderView {
        GameCategoriesBuilderView {
            id: text_view(self.id),
            miscellaneous: self.miscellaneous,
            orderby: self.orderby,
            direction: self.direction,
        }
    }
}

impl Default for GameCategoriesBuilder {
    /// A builder with no field set.
    fn default() -> (builder: GameCategoriesBuilder)
        ensures
            builder@ == GameCategoriesBuilderView::unset(),
    {
        GameCategoriesBuilder { id: None, miscellaneous: None, orderby: None, direction: None }
    }
}

impl GameCategoriesBuilder {
    /// Sets the id of the game.
    pub fn id(&mut self, value: &str) -> (builder: &mut Self)
        ensures
            *final(self) == *final(builder),
            builder@ == (GameCategoriesBuilderView { id: Some(value@), ..old(self)@ }),
    {
        self.id = Some(String::from_str(value));
        self
    }

    /// Includes or leaves out the miscellaneous categories.
    pub fn miscellaneous(&mut self, value: bool) -> (builder: &mut Self)
        ensures
            *final(self) == *final(builder),
            builder@ == (GameCategoriesBuilderView { miscellaneous: Some(value), ..old(self)@ }),
    {
        self.miscellaneous = Some(value);
        self
    }

    /// Sets what the categories are sorted by.
    pub fn orderby(&mut self, value: CategoriesSorting) -> (builder: &mut Self)
        ensures
            *final(self) == *final(builder),
            builder@ == (GameCategoriesBuilderView { orderby: Some(value), ..old(self)@ }),
    {
        self.orderby = Some(value);
        self
    }

    /// Sets the direction in which the categories are sorted.
    pub fn direction(&mut self, value: Direction) -> (builder: &mut Self)
        ensures
            *final(self) == *final(builder),
            builder@ == (GameCategoriesBuilderView { direction: Some(value), ..old(self)@ }),
    {
        self.direction = Some(value);
        self
    }

    /// Builds the request. The id is required: without it the build fails
    /// and names the field. Any other field that has not been set is left
    /// unset.
    pub fn build(&self) -> (request: Result<GameCategories, BuilderError>)
        ensures
            match request {
                Ok(r) => self@.id is Some && r@ == (GameCategoriesView {
                    id: self@.id->Some_0,
                    miscellaneous: self@.miscellaneous,
                    orderby: self@.orderby,
                    direction: self@.direction,
                }),
                Err(e) => self@.id is None && e == BuilderError::UninitializedField("id"),
            },
    {
        match &self.id {
            Some(id) => Ok(
                GameCategories {
                    id: id.clone(),
                    miscellaneous: self.miscellaneous,
                    orderby: self.orderby,
                    direction: self.direction,
                },
            ),
            None => Err(BuilderError::UninitializedField("id")),
        }
    }
}

impl GameCategories {
    /// A builder with no field set.
    pub fn builder() -> (builder: GameCategoriesBuilder)
        ensures
            builder@ == GameCategoriesBuilderView::unset(),
    {
        GameCategoriesBuilder::default()
    }
}

impl Default for GameCategories {
    /// The request with an empty id and no other field set.
    fn default() -> (request: GameCategories)
        ensures
            request@ == GameCategoriesView::unset(),
    {
        GameCategories { id: String::new(), miscellaneous: None, orderby: None, direction: None }
    }
}

impl Endpoint for GameCategories {
    fn method(&self) -> (method: Method)
        ensures
            method == Method::Get,
    {
        Method::Get
    }

    fn endpoint_path(&self) -> (path: String)
        ensures
            path@ == self@.path(),
    {
        let mut path = String::from_str("/games/");
        path.append(self.id.as_str());
        path.append("/categories");
        path
    }

    fn query_parameters(&self) -> (query: Result<String, BodyError>)
        ensures
            query matches Ok(text) && text@ == encoded_pairs(self@.pairs()),
    {
        let mut pairs: Vec<Pair> = Vec::new();
        push_flag(&mut pairs, "miscellaneous", self.miscellaneous);
        push_keyword(&mut pairs, "orderby", self.orderby);
        push_keyword(&mut pairs, "direction", self.direction);
        encode_pairs(&pairs)
    }

    fn body(&self) -> (body: Result<Option<Body>, BodyError>)
        ensures
            body matches Ok(None),
    {
        Ok(None)
    }
}

/// Lists the levels of a game.
#[derive(Clone, Debug)]
pub struct GameLevels {
    id: String,
    orderby: Option<LevelsSorting>,
    direction: Option<Direction>,
}

/// What a [`GameLevels`] request holds.
pub struct GameLevelsView {
    pub id: Seq<char>,
    pub orderby: Option<LevelsSorting>,
    pub direction: Option<Direction>,
}

impl View for GameLevels {
    type V = GameLevelsView;

    closed spec fn view(&self) -> GameLevelsView {
        GameLevelsView {
            id: self.id@,
            orderby: self.orderby,
            direction: self.direction,
        }
    }
}

impl GameLevelsView {
    /// An empty id and no other field set.
    pub open spec fn unset() -> GameLevelsView {
        GameLevelsView { id: Seq::empty(), orderby: None, direction: None }
    }

    /// The path of the request.
    pub open spec fn path(self) -> Seq<char> {
        "/games/"@ + self.id + "/levels"@
    }

    /// The id that a path of such a request holds.
    pub open spec fn id_of(path: Seq<char>) -> Seq<char> {
        path.subrange("/games/"@.len() as int, path.len() - "/levels"@.len())
    }

    /// The parameters of the query string: one for each field that is set,
    /// in the order of the fields.
    pub open spec fn pairs(self) -> Seq<(Seq<char>, Seq<char>)> {
        optional_pair("orderby"@, word_of(self.orderby))
            + optional_pair("direction"@, word_of(self.direction))
    }

    /// The fields that a list of parameters sets: each is read from the
    /// first parameter of its name.
    pub open spec fn from_pairs(
        pairs: Seq<(Seq<char>, Seq<char>)>,
        id: Seq<char>,
    ) -> GameLevelsView {
        GameLevelsView {
            id,
            orderby: word_read(parameter(pairs, "orderby"@)),
            direction: word_read(parameter(pairs, "direction"@)),
        }
    }

    /// The request that a URL under the base URL `base` stands for.
    pub open spec fn from_url(url: Seq<char>, base: Seq<char>) -> GameLevelsView {
        Self::from_pairs(decoded_pairs(url_query(url)), Self::id_of(url_path(url, base)))
    }

    /// The URL of the request under the base URL `base`.
    pub open spec fn url(self, base: Seq<char>) -> Seq<char> {
        request_url(base, self.path(), encoded_pairs(self.pairs()))
    }

    /// Every field that the request writes as a parameter is read back from
    /// its parameters.
    pub proof fn lemma_fields_round_trip(self)
        ensures
            Self::from_pairs(self.pairs(), self.id) == self,
    {
        broadcast use {lemma_parameter_concat, lemma_parameter_optional, lemma_word_read};

        reveal_strlit("orderby");
        reveal_strlit("direction");
        assert("direction"@.len() == 9);
    }

    /// The request is read back from its URL: the path and the query string
    /// are found again in the URL, and they give the fields that were set.
    /// The base URL and the id must hold no `?`, which would cut the URL short.
    pub proof fn lemma_url_round_trip(self, base: Seq<char>)
        requires
            !base.contains('?'),
            !self.id.contains('?'),
        ensures
            Self::from_url(self.url(base), base) == self,
    {
        let path = self.path();
        let query = encoded_pairs(self.pairs());
        reveal_strlit("/games/");
        reveal_strlit("/levels");
        lemma_url_parts(base, path, query);
        lemma_url_path(base, path, query);
        lemma_between("/games/"@, self.id, "/levels"@);
        lemma_pairs_round_trip(self.pairs());
        self.lemma_fields_round_trip();
    }
}

/// Builds a [`GameLevels`] request.
#[derive(Clone, Debug)]
pub struct GameLevelsBuilder {
    id: Option<String>,
    orderby: Option<LevelsSorting>,
    direction: Option<Direction>,
}

/// What a [`GameLevelsBuilder`] holds: the fields that have been set.
pub struct GameLevelsBuilderView {
    pub id: Option<Seq<char>>,
    pub orderby: Option<LevelsSorting>,
    pub direction: Option<Direction>,
}

impl GameLevelsBuilderView {
    /// No field set.
    pub open spec fn unset() -> GameLevelsBuilderView {
        GameLevelsBuilderView { id: None, orderby: None, direction: None }
    }
}

impl View for GameLevelsBuilder {
    type V = GameLevelsBuilderView;

    closed spec fn view(&self) -> GameLevelsBuilderView {
        GameLevelsBuilderView {
            id: text_view(self.id),
            orderby: self.orderby,
            direction: self.direction,
        }
    }
}

impl Default for GameLevelsBuilder {
    /// A builder with no field set.
    fn default() -> (builder: GameLevelsBuilder)
        ensures
            builder@ == GameLevelsBuilderView::unset(),
    {
        GameLevelsBuilder { id: None, orderby: None, direction: None }
    }
}

impl GameLevelsBuilder {
    /// Sets the id of the game.
    pub fn id(&mut self, value: &str) -> (builder: &mut Self)
        ensures
            *final(self) == *final(builder),
            builder@ == (GameLevelsBuilderView { id: Some(value@), ..old(self)@ }),
    {
        self.id = Some(String::from_str(value));
        self
    }

    /// Sets what the levels are sorted by.
    pub fn orderby(&mut self, value: LevelsSorting) -> (builder: &mut Self)
        ensures
            *final(self) == *final(builder),
            builder@ == (GameLevelsBuilderView { orderby: Some(value), ..old(self)@ }),
    {
        self.orderby = Some(value);
        self
    }

    /// Sets the direction in which the levels are sorted.
    pub fn direction(&mut self, value: Direction) -> (builder: &mut Self)
        ensures
            *final(self) == *final(builder),
            builder@ == (GameLevelsBuilderView { direction: Some(value), ..old(self)@ }),
    {
        self.direction = Some(value);
        self
    }

    /// Builds the request. The id is required: without it the build fails
    /// and names the field. Any other field that has not been set is left
    /// unset.
    pub fn build(&self) -> (request: Result<GameLevels, BuilderError>)
        ensures
            match request {
                Ok(r) => self@.id is Some && r@ == (GameLevelsView {
                    id: self@.id->Some_0,
                    orderby: self@.orderby,
                    direction: self@.direction,
                }),
                Err(e) => self@.id is None && e == BuilderError::UninitializedField("id"),
            },
    {
        match &self.id {
            Some(id) => Ok(
                GameLevels {
                    id: id.clone(),
                    orderby: self.orderby,
                    direction: self.direction,
                },
            ),
            None => Err(BuilderError::UninitializedField("id")),
        }
    }
}

impl GameLevels {
    /// A builder with no field set.
    pub fn builder() -> (builder: GameLevelsBuilder)
        ensures
            builder@ == GameLevelsBuilderView::unset(),
    {
        GameLevelsBuilder::default()
    }
}

impl Default for GameLevels {
    /// The request with an empty id and no other field set.
    fn default() -> (request: GameLevels)
        ensures
            request@ == GameLevelsView::unset(),
    {
        GameLevels { id: String::new(), orderby: None, direction: None }
    }
}

impl Endpoint for GameLevels {
    fn method(&self) -> (method: Method)
        ensures
            method == Method::Get,
    {
        Method::Get
    }

    fn endpoint_path(&self) -> (path: String)
        ensures
            path@ == self@.path(),
    {
        let mut path = String::from_str("/games/");
        path.append(self.id.as_str());
        path.append("/levels");
        path
    }

    fn query_parameters(&self) -> (query: Result<String, BodyError>)
        ensures
            query matches Ok(text) && text@ == encoded_pairs(self@.pairs()),
    {
        let mut pairs: Vec<Pair> = Vec::new();
        push_keyword(&mut pairs, "orderby", self.orderby);
        push_keyword(&mut pairs, "direction", self.direction);
        encode_pairs(&pairs)
    }

    fn body(&self) -> (body: Result<Option<Body>, BodyError>)
        ensures
            body matches Ok(None),
    {
        Ok(None)
    }
}

/// Lists the variables of a game.
#[derive(Clone, Debug)]
pub struct GameVariables {
    id: String,
    orderby: Option<VariablesSorting>,
    direction: Option<Direction>,
}

/// What a [`GameVariables`] request holds.
pub struct GameVariablesView {
    pub id: Seq<char>,
    pub orderby: Option<VariablesSorting>,
    pub direction: Option<Direction>,
}

impl View for GameVariables {
    type V = GameVariablesView;

    closed spec fn view(&self) -> GameVariablesView {
        GameVariablesView {
            id: self.id@,
            orderby: self.orderby,
            direction: self.direction,
        }
    }
}

impl GameVariablesView {
    /// An empty id and no other field set.
    pub open spec fn unset() -> GameVariablesView {
        GameVariablesView { id: Seq::empty(), orderby: None, direction: None }
    }

    /// The path of the request.
    pub open spec fn path(self) -> Seq<char> {
        "/games/"@ + self.id + "/variables"@
    }

    /// The id that a path of such a request holds.
    pub open spec fn id_of(path: Seq<char>) -> Seq<char> {
        path.subrange("/games/"@.len() as int, path.len() - "/variables"@.len())
    }

    /// The parameters of the query string: one for each field that is set,
    /// in the order of the fields.
    pub open spec fn pairs(self) -> Seq<(Seq<char>, Seq<char>)> {
        optional_pair("orderby"@, word_of(self.orderby))
            + optional_pair("direction"@, word_of(self.direction))
    }

    /// The fields that a list of parameters sets: each is read from the
    /// first parameter of its name.
    pub open spec fn from_pairs(
        pairs: Seq<(Seq<char>, Seq<char>)>,
        id: Seq<char>,
    ) -> GameVariablesView {
        GameVariablesView {
            id,
            orderby: word_read(parameter(pairs, "orderby"@)),
            direction: word_read(parameter(pairs, "direction"@)),
        }
    }

    /// The request that a URL under the base URL `base` stands for.
    pub open spec fn from_url(url: Seq<char>, base: Seq<char>) -> GameVariablesView {
        Self::from_pairs(decoded_pairs(url_query(url)), Self::id_of(url_path(url, base)))
    }

    /// The URL of the request under the base URL `base`.
    pub open spec fn url(self, base: Seq<char>) -> Seq<char> {
        request_url(base, self.path(), encoded_pairs(self.pairs()))
    }

    /// Every field that the request writes as a parameter is read back from
    /// its parameters.
    pub proof fn lemma_fields_round_trip(self)
        ensures
            Self::from_pairs(self.pairs(), self.id) == self,
    {
        broadcast use {lemma_parameter_concat, lemma_parameter_optional, lemma_word_read};

        reveal_strlit("orderby");
        reveal_strlit("direction");
        assert("direction"@.len() == 9);
    }

    /// The request is read back from its URL: the path and the query string
    /// are found again in the URL, and they give the fields that were set.
    /// The base URL and the id must hold no `?`, which would cut the URL short.
    pub proof fn lemma_url_round_trip(self, base: Seq<char>)
        requires
            !base.contains('?'),
            !self.id.contains('?'),
        ensures
            Self::from_url(self.url(base), base) == self,
    {
        let path = self.path();
        let query = encoded_pairs(self.pairs());
        reveal_strlit("/games/");
        reveal_strlit("/variables");
        lemma_url_parts(base, path, query);
        lemma_url_path(base, path, query);
        lemma_between("/games/"@, self.id, "/variables"@);
        lemma_pairs_round_trip(self.pairs());
        self.lemma_fields_round_trip();
    }
}

/// Builds a [`GameVariables`] request.
#[derive(Clone, Debug)]
pub struct GameVariablesBuilder {
    id: Option<String>,
    orderby: Option<VariablesSorting>,
    direction: Option<Direction>,
}

/// What a [`GameVariablesBuilder`] holds: the fields that have been set.
pub struct GameVariablesBuilderView {
    pub id: Option<Seq<char>>,
    pub orderby: Option<VariablesSorting>,
    pub direction: Option<Direction>,
}

impl GameVariablesBuilderView {
    /// No field set.
    pub open spec fn unset() -> GameVariablesBuilderView {
        GameVariablesBuilderView { id: None, orderby: None, direction: None }
    }
}

impl View for GameVariablesBuilder {
    type V = GameVariablesBuilderView;

    closed spec fn view(&self) -> GameVariablesBuilderView {
        GameVariablesBuilderView {
            id: text_view(self.id),
            orderby: self.orderby,
            direction: self.direction,
        }
    }
}

impl Default for GameVariablesBuilder {
    /// A builder with no field set.
    fn default() -> (builder: GameVariablesBuilder)
        ensures
            builder@ == GameVariablesBuilderView::unset(),
    {
        GameVariablesBuilder { id: None, orderby: None, direction: None }
    }
}

impl GameVariablesBuilder {
    /// Sets the id of the game.
    pub fn id(&mut self, value: &str) -> (builder: &mut Self)
        ensures
            *final(self) == *final(builder),
            builder@ == (GameVariablesBuilderView { id: Some(value@), ..old(self)@ }),
    {
        self.id = Some(String::from_str(value));
        self
    }

    /// Sets what the variables are sorted by.
    pub fn orderby(&mut self, value: VariablesSorting) -> (builder: &mut Self)
        ensures
            *final(self) == *final(builder),
            builder@ == (GameVariablesBuilderView { orderby: Some(value), ..old(self)@ }),
    {
        self.orderby = Some(value);
        self
    }

    /// Sets the direction in which the variables are sorted.
    pub fn direction(&mut self, value: Direction) -> (builder: &mut Self)
        ensures
            *final(self) == *final(builder),
            builder@ == (GameVariablesBuilderView { direction: Some(value), ..old(self)@ }),
    {
        self.direction = Some(value);
        self
    }

    /// Builds the request. The id is required: without it the build fails
    /// and names the field. Any other field that has not been set is left
    /// unset.
    pub fn build(&self) -> (request: Result<GameVariables, BuilderError>)
        ensures
            match request {
                Ok(r) => self@.id is Some && r@ == (GameVariablesView {
                    id: self@.id->Some_0,
                    orderby: self@.orderby,
                    direction: self@.direction,
                }),
                Err(e) => self@.id is None && e == BuilderError::UninitializedField("id"),
            },
    {
        match &self.id {
            Some(id) => Ok(
                GameVariables {
                    id: id.clone(),
                    orderby: self.orderby,
                    direction: self.direction,
                },
            ),
            None => Err(BuilderError::UninitializedField("id")),
        }
    }
}

impl GameVariables {
    /// A builder with no field set.
    pub fn builder() -> (builder: GameVariablesBuilder)
        ensures
            builder@ == GameVariablesBuilderView::unset(),
    {
        GameVariablesBuilder::default()
    }
}

impl Default for GameVariables {
    /// The request with an empty id and no other field set.
    fn default() -> (request: GameVariables)
        ensures
            request@ == GameVariablesView::unset(),
    {
        GameVariables { id: String::new(), orderby: None, direction: None }
    }
}

impl Endpoint for GameVariables {
    fn method(&self) -> (method: Method)
        ensures
            method == Method::Get,
    {
        Method::Get
    }

    fn endpoint_path(&self) -> (path: String)
        ensures
            path@ == self@.path(),
    {
        let mut path = String::from_str("/games/");
        path.append(self.id.as_str());
        path.append("/variables");
        path
    }

    fn query_parameters(&self) -> (query: Result<String, BodyError>)
        ensures
            query matches Ok(text) && text@ == encoded_pairs(self@.pairs()),
    {
        let mut pairs: Vec<Pair> = Vec::new();
        push_keyword(&mut pairs, "orderby", self.orderby);
        push_keyword(&mut pairs, "direction", self.direction);
        encode_pairs(&pairs)
    }

    fn body(&self) -> (body: Result<Option<Body>, BodyError>)
        ensures
            body matches Ok(None),
    {
        Ok(None)
    }
}

/// Why a [`GameDerivedGames`] request could not be built.
#[derive(Clone, Copy, Debug, PartialEq, Eq)]
pub enum GameDerivedGamesBuilderError {
    /// A required field has not been set; holds the name of the field.
    UninitializedField(&'static str),
    /// The filters could not be built.
    Inner(BuilderError),
}

impl GameDerivedGamesBuilderError {
    /// What the error says, as a sentence.
    pub open spec fn text(self) -> Seq<char> {
        match self {
            GameDerivedGamesBuilderError::UninitializedField(field) => field@
                + " must be initialized"@,
            GameDerivedGamesBuilderError::Inner(inner) => inner.text(),
        }
    }

    /// What the error says, as a sentence.
    pub fn message(&self) -> (message: String)
        ensures
            message@ == self.text(),
    {
        match self {
            GameDerivedGamesBuilderError::UninitializedField(field) => {
                let mut message = String::from_str(field);
                message.append(" must be initialized");
                message
            },
            GameDerivedGamesBuilderError::Inner(inner) => inner.message(),
        }
    }
}

/// Lists the games derived from a game, with the filters and the sorting of
/// [`Games`].
#[derive(Clone, Debug)]
pub struct GameDerivedGames {
    id: String,
    inner: Games,
}

/// What a [`GameDerivedGames`] request holds.
pub struct GameDerivedGamesView {
    pub id: Seq<char>,
    pub inner: GamesView,
}

impl View for GameDerivedGames {
    type V = GameDerivedGamesView;

    closed spec fn view(&self) -> GameDerivedGamesView {
        GameDerivedGamesView { id: self.id@, inner: self.inner@ }
    }
}

impl GameDerivedGamesView {
    /// The path of the request.
    pub open spec fn path(self) -> Seq<char> {
        "/games/"@ + self.id + "/derived-games"@
    }

    /// The id that a path of such a request holds.
    pub open spec fn id_of(path: Seq<char>) -> Seq<char> {
        path.subrange("/games/"@.len() as int, path.len() - "/derived-games"@.len())
    }

    /// The request that a URL under the base URL `base` stands for.
    pub open spec fn from_url(url: Seq<char>, base: Seq<char>) -> GameDerivedGamesView {
        GameDerivedGamesView {
            id: Self::id_of(url_path(url, base)),
            inner: GamesView::from_pairs(decoded_pairs(url_query(url))),
        }
    }

    /// The URL of the request under the base URL `base`.
    pub open spec fn url(self, base: Seq<char>) -> Seq<char> {
        request_url(base, self.path(), encoded_pairs(self.inner.pairs()))
    }

    /// The request is read back from its URL: the path and the query string
    /// are found again in the URL, and they give the fields that were set.
    /// The base URL and the id must hold no `?`, which would cut the URL short.
    pub proof fn lemma_url_round_trip(self, base: Seq<char>)
        requires
            !base.contains('?'),
            !self.id.contains('?'),
        ensures
            Self::from_url(self.url(base), base) == self,
    {
        let path = self.path();
        let query = encoded_pairs(self.inner.pairs());
        reveal_strlit("/games/");
        reveal_strlit("/derived-games");
        lemma_url_parts(base, path, query);
        lemma_url_path(base, path, query);
        lemma_between("/games/"@, self.id, "/derived-games"@);
        lemma_pairs_round_trip(self.inner.pairs());
        self.inner.lemma_fields_round_trip();
    }
}

/// Builds a [`GameDerivedGames`] request.
#[derive(Clone, Debug)]
pub struct GameDerivedGamesBuilder {
    id: Option<String>,
    inner: GamesBuilder,
}

/// What a [`GameDerivedGamesBuilder`] holds: the fields that have been set.
pub struct GameDerivedGamesBuilderView {
    pub id: Option<Seq<char>>,
    pub inner: GamesView,
}

impl View for GameDerivedGamesBuilder {
    type V = GameDerivedGamesBuilderView;

    closed spec fn view(&self) -> GameDerivedGamesBuilderView {
        GameDerivedGamesBuilderView { id: text_view(self.id), inner: self.inner@ }
    }
}

impl Default for GameDerivedGamesBuilder {
    /// A builder with no field set.
    fn default() -> (builder: GameDerivedGamesBuilder)
        ensures
            builder@.id is None,
            builder@.inner == GamesView::unset(),
    {
        GameDerivedGamesBuilder { id: None, inner: GamesBuilder::default() }
    }
}

impl GameDerivedGamesBuilder {
    /// Sets the id of the game.
    pub fn id(&mut self, value: &str) -> (builder: &mut Self)
        ensures
            *final(self) == *final(builder),
            builder@ == (GameDerivedGamesBuilderView { id: Some(value@), ..old(self)@ }),
    {
        self.id = Some(String::from_str(value));
        self
    }

    /// Searches for games by name.
    pub fn name(&mut self, value: &str) -> (builder: &mut Self)
        ensures
            *final(self) == *final(builder),
            builder@ == (GameDerivedGamesBuilderView {
                inner: (GamesView { name: Some(value@), ..old(self)@.inner }),
                ..old(self)@
            }),
    {
        self.inner.name(value);
        self
    }

    /// Asks for the game with this abbreviation.
    pub fn abbreviation(&mut self, value: &str) -> (builder: &mut Self)
        ensures
            *final(self) == *final(builder),
            builder@ == (GameDerivedGamesBuilderView {
                inner: (GamesView { abbreviation: Some(value@), ..old(self)@.inner }),
                ..old(self)@
            }),
    {
        self.inner.abbreviation(value);
        self
    }

    /// Asks for the games released in this year.
    pub fn released(&mut self, value: i64) -> (builder: &mut Self)
        ensures
            *final(self) == *final(builder),
            builder@ == (GameDerivedGamesBuilderView {
                inner: (GamesView { released: Some(value), ..old(self)@.inner }),
                ..old(self)@
            }),
    {
        self.inner.released(value);
        self
    }

    /// Asks for the games of this game type, given by its id.
    pub fn gametype(&mut self, value: &str) -> (builder: &mut Self)
        ensures
            *final(self) == *final(builder),
            builder@ == (GameDerivedGamesBuilderView {
                inner: (GamesView { gametype: Some(value@), ..old(self)@.inner }),
                ..old(self)@
            }),
    {
        self.inner.gametype(value);
        self
    }

    /// Asks for the games on this platform, given by its id.
    pub fn platform(&mut self, value: &str) -> (builder: &mut Self)
        ensures
            *final(self) == *final(builder),
            builder@ == (GameDerivedGamesBuilderView {
                inner: (GamesView { platform: Some(value@), ..old(self)@.inner }),
                ..old(self)@
            }),
    {
        self.inner.platform(value);
        self
    }

    /// Asks for the games of this region, given by its id.
    pub fn region(&mut self, value: &str) -> (builder: &mut Self)
        ensures
            *final(self) == *final(builder),
            builder@ == (GameDerivedGamesBuilderView {
                inner: (GamesView { region: Some(value@), ..old(self)@.inner }),
                ..old(self)@
            }),
    {
        self.inner.region(value);
        self
    }

    /// Asks for the games of this genre, given by its id.
    pub fn genre(&mut self, value: &str) -> (builder: &mut Self)
        ensures
            *final(self) == *final(builder),
            builder@ == (GameDerivedGamesBuilderView {
                inner: (GamesView { genre: Some(value@), ..old(self)@.inner }),
                ..old(self)@
            }),
    {
        self.inner.genre(value);
        self
    }

    /// Asks for the games with this engine, given by its id.
    pub fn engine(&mut self, value: &str) -> (builder: &mut Self)
        ensures
            *final(self) == *final(builder),
            builder@ == (GameDerivedGamesBuilderView {
                inner: (GamesView { engine: Some(value@), ..old(self)@.inner }),
                ..old(self)@
            }),
    {
        self.inner.engine(value);
        self
    }

    /// Asks for the games of this developer, given by its id.
    pub fn developer(&mut self, value: &str) -> (builder: &mut Self)
        ensures
            *final(self) == *final(builder),
            builder@ == (GameDerivedGamesBuilderView {
                inner: (GamesView { developer: Some(value@), ..old(self)@.inner }),
                ..old(self)@
            }),
    {
        self.inner.developer(value);
        self
    }

    /// Asks for the games of this publisher, given by its id.
    pub fn publisher(&mut self, value: &str) -> (builder: &mut Self)
        ensures
            *final(self) == *final(builder),
            builder@ == (GameDerivedGamesBuilderView {
                inner: (GamesView { publisher: Some(value@), ..old(self)@.inner }),
                ..old(self)@
            }),
    {
        self.inner.publisher(value);
        self
    }

    /// Asks for the games that this user moderates, given by their id.
    pub fn moderator(&mut self, value: &str) -> (builder: &mut Self)
        ensures
            *final(self) == *final(builder),
            builder@ == (GameDerivedGamesBuilderView {
                inner: (GamesView { moderator: Some(value@), ..old(self)@.inner }),
                ..old(self)@
            }),
    {
        self.inner.moderator(value);
        self
    }

    /// Turns bulk access on or off.
    pub fn bulk(&mut self, value: bool) -> (builder: &mut Self)
        ensures
            *final(self) == *final(builder),
            builder@ == (GameDerivedGamesBuilderView {
                inner: (GamesView { bulk: Some(value), ..old(self)@.inner }),
                ..old(self)@
            }),
    {
        self.inner.bulk(value);
        self
    }

    /// Sets what the games are sorted by.
    pub fn orderby(&mut self, value: GamesSorting) -> (builder: &mut Self)
        ensures
            *final(self) == *final(builder),
            builder@ == (GameDerivedGamesBuilderView {
                inner: (GamesView { orderby: Some(value), ..old(self)@.inner }),
                ..old(self)@
            }),
    {
        self.inner.orderby(value);
        self
    }

    /// Sets the direction in which the games are sorted.
    pub fn direction(&mut self, value: Direction) -> (builder: &mut Self)
        ensures
            *final(self) == *final(builder),
            builder@ == (GameDerivedGamesBuilderView {
                inner: (GamesView { direction: Some(value), ..old(self)@.inner }),
                ..old(self)@
            }),
    {
        self.inner.direction(value);
        self
    }

    /// Builds the request. The id is required: without it the build fails and
    /// names the field.
    pub fn build(&self) -> (request: Result<GameDerivedGames, GameDerivedGamesBuilderError>)
        ensures
            match request {
                Ok(r) => self@.id is Some && r@ == (GameDerivedGamesView {
                    id: self@.id->Some_0,
                    inner: self@.inner,
                }),
                Err(e) => self@.id is None && e
                    == GameDerivedGamesBuilderError::UninitializedField("id"),
            },
    {
        let inner = match self.inner.build() {
            Ok(inner) => inner,
            Err(e) => {
                return Err(GameDerivedGamesBuilderError::Inner(e));
            },
        };
        match &self.id {
            Some(id) => Ok(GameDerivedGames { id: id.clone(), inner }),
            None => Err(GameDerivedGamesBuilderError::UninitializedField("id")),
        }
    }
}

impl GameDerivedGames {
    /// A builder with no field set.
    pub fn builder() -> (builder: GameDerivedGamesBuilder)
        ensures
            builder@.id is None,
            builder@.inner == GamesView::unset(),
    {
        GameDerivedGamesBuilder::default()
    }
}

impl Default for GameDerivedGames {
    /// The request with an empty id and no filter set.
    fn default() -> (request: GameDerivedGames)
        ensures
            request@.id == Seq::<char>::empty(),
            request@.inner == GamesView::unset(),
    {
        GameDerivedGames { id: String::new(), inner: Games::default() }
    }
}

impl Endpoint for GameDerivedGames {
    fn method(&self) -> (method: Method)
        ensures
            method == Method::Get,
    {
        Method::Get
    }

    fn endpoint_path(&self) -> (path: String)
        ensures
            path@ == self@.path(),
    {
        let mut path = String::from_str("/games/");
        path.append(self.id.as_str());
        path.append("/derived-games");
        path
    }

    fn query_parameters(&self) -> (query: Result<String, BodyError>)
        ensures
            query matches Ok(text) && text@ == encoded_pairs(self@.inner.pairs()),
    {
        self.inner.query_parameters()
    }

    fn body(&self) -> (body: Result<Option<Body>, BodyError>)
        ensures
            body matches Ok(None),
    {
        Ok(None)
    }
}

impl Pageable for GameDerivedGames {}

/// Lists the records of a game: the top places of its leaderboards.
#[derive(Clone, Debug)]
pub struct GameRecords {
    id: String,
    top: Option<i64>,
    scope: Option<LeaderboardScope>,
    miscellaneous: Option<bool>,
    skip_empty: Option<bool>,
}

/// What a [`GameRecords`] request holds.
pub struct GameRecordsView {
    pub id: Seq<char>,
    pub top: Option<i64>,
    pub scope: Option<LeaderboardScope>,
    pub miscellaneous: Option<bool>,
    pub skip_empty: Option<bool>,
}

impl View for GameRecords {
    type V = GameRecordsView;

    closed spec fn view(&self) -> GameRecordsView {
        GameRecordsView {
            id: self.id@,
            top: self.top,
            scope: self.scope,
            miscellaneous: self.miscellaneous,
            skip_empty: self.skip_empty,
        }
    }
}

impl GameRecordsView {
    /// An empty id and no other field set.
    pub open spec fn unset() -> GameRecordsView {
        GameRecordsView {
            id: Seq::empty(),
            top: None,
            scope: None,
            miscellaneous: None,
            skip_empty: None,
        }
    }

    /// The path of the request.
    pub open spec fn path(self) -> Seq<char> {
        "/games/"@ + self.id + "/records"@
    }

    /// The id that a path of such a request holds.
    pub open spec fn id_of(path: Seq<char>) -> Seq<char> {
        path.subrange("/games/"@.len() as int, path.len() - "/records"@.len())
    }

    /// The parameters of the query string: one for each field that is set,
    /// in the order of the fields.
    pub open spec fn pairs(self) -> Seq<(Seq<char>, Seq<char>)> {
        optional_pair("id"@, Some(self.id))
            + optional_pair("top"@, number_text(self.top))
            + optional_pair("scope"@, word_of(self.scope))
            + optional_pair("miscellaneous"@, flag_text(self.miscellaneous))
            + optional_pair("skip-empty"@, flag_text(self.skip_empty))
    }

    /// The fields that a list of parameters sets: each is read from the
    /// first parameter of its name.
    pub open spec fn from_pairs(pairs: Seq<(Seq<char>, Seq<char>)>) -> GameRecordsView {
        GameRecordsView {
            id: match parameter(pairs, "id"@) {
                Some(id) => id,
                None => Seq::empty(),
            },
            top: number_read(parameter(pairs, "top"@)),
            scope: word_read(parameter(pairs, "scope"@)),
            miscellaneous: flag_read(parameter(pairs, "miscellaneous"@)),
            skip_empty: flag_read(parameter(pairs, "skip-empty"@)),
        }
    }

    /// The request that a URL under the base URL `base` stands for.
    pub open spec fn from_url(url: Seq<char>, base: Seq<char>) -> GameRecordsView {
        Self::from_pairs(decoded_pairs(url_query(url)))
    }

    /// The URL of the request under the base URL `base`.
    pub open spec fn url(self, base: Seq<char>) -> Seq<char> {
        request_url(base, self.path(), encoded_pairs(self.pairs()))
    }

    /// Every field is read back from the parameters that the request writes.
    pub proof fn lemma_fields_round_trip(self)
        ensures
            Self::from_pairs(self.pairs()) == self,
    {
        broadcast use {
            lemma_parameter_concat,
            lemma_parameter_optional,
            lemma_number_read,
            lemma_flag_read,
            lemma_word_read,
        };

        reveal_strlit("id");
        reveal_strlit("top");
        reveal_strlit("scope");
        reveal_strlit("miscellaneous");
        reveal_strlit("skip-empty");
        assert("top"@.len() == 3);
        assert("scope"@.len() == 5);
        assert("miscellaneous"@.len() == 13);
        assert("skip-empty"@.len() == 10);
    }

    /// The request is read back from its URL: the path and the query string
    /// are found again in the URL, and they give the fields that were set.
    /// The base URL and the id must hold no `?`, which would cut the URL short.
    pub proof fn lemma_url_round_trip(self, base: Seq<char>)
        requires
            !base.contains('?'),
            !self.id.contains('?'),
        ensures
            Self::from_url(self.url(base), base) == self,
    {
        let path = self.path();
        let query = encoded_pairs(self.pairs());
        reveal_strlit("/games/");
        reveal_strlit("/records");
        lemma_url_parts(base, path, query);
        lemma_pairs_round_trip(self.pairs());
        self.lemma_fields_round_trip();
    }
}

/// Builds a [`GameRecords`] request.
#[derive(Clone, Debug)]
pub struct GameRecordsBuilder {
    id: Option<String>,
    top: Option<i64>,
    scope: Option<LeaderboardScope>,
    miscellaneous: Option<bool>,
    skip_empty: Option<bool>,
}

/// What a [`GameRecordsBuilder`] holds: the fields that have been set.
pub struct GameRecordsBuilderView {
    pub id: Option<Seq<char>>,
    pub top: Option<i64>,
    pub scope: Option<LeaderboardScope>,
    pub miscellaneous: Option<bool>,
    pub skip_empty: Option<bool>,
}

impl GameRecordsBuilderView {
    /// No field set.
    pub open spec fn unset() -> GameRecordsBuilderView {
        GameRecordsBuilderView {
            id: None,
            top: None,
            scope: None,
            miscellaneous: None,
            skip_empty: None,
        }
    }
}

impl View for GameRecordsBuilder {
    type V = GameRecordsBuilderView;

    closed spec fn view(&self) -> GameRecordsBuilderView {
        GameRecordsBuilderView {
            id: text_view(self.id),
            top: self.top,
            scope: self.scope,
            miscellaneous: self.miscellaneous,
            skip_empty: self.skip_empty,
        }
    }
}

impl Default for GameRecordsBuilder {
    /// A builder with no field set.
    fn default() -> (builder: GameRecordsBuilder)
        ensures
            builder@ == GameRecordsBuilderView::unset(),
    {
        GameRecordsBuilder {
            id: None,
            top: None,
            scope: None,
            miscellaneous: None,
            skip_empty: None,
        }
    }
}

impl GameRecordsBuilder {
    /// Sets the id of the game.
    pub fn id(&mut self, value: &str) -> (builder: &mut Self)
        ensures
            *final(self) == *final(builder),
            builder@ == (GameRecordsBuilderView { id: Some(value@), ..old(self)@ }),
    {
        self.id = Some(String::from_str(value));
        self
    }

    /// Sets how many places of each leaderboard are asked for.
    pub fn top(&mut self, value: i64) -> (builder: &mut Self)
        ensures
            *final(self) == *final(builder),
            builder@ == (GameRecordsBuilderView { top: Some(value), ..old(self)@ }),
    {
        self.top = Some(value);
        self
    }

    /// Sets which leaderboards are asked for.
    pub fn scope(&mut self, value: LeaderboardScope) -> (builder: &mut Self)
        ensures
            *final(self) == *final(builder),
            builder@ == (GameRecordsBuilderView { scope: Some(value), ..old(self)@ }),
    {
        self.scope = Some(value);
        self
    }

    /// Includes or leaves out the miscellaneous categories.
    pub fn miscellaneous(&mut self, value: bool) -> (builder: &mut Self)
        ensures
            *final(self) == *final(builder),
            builder@ == (GameRecordsBuilderView { miscellaneous: Some(value), ..old(self)@ }),
    {
        self.miscellaneous = Some(value);
        self
    }

    /// Leaves out or includes the leaderboards without runs.
    pub fn skip_empty(&mut self, value: bool) -> (builder: &mut Self)
        ensures
            *final(self) == *final(builder),
            builder@ == (GameRecordsBuilderView { skip_empty: Some(value), ..old(self)@ }),
    {
        self.skip_empty = Some(value);
        self
    }

    /// Builds the request. The id is required: without it the build fails
    /// and names the field. Any other field that has not been set is left
    /// unset.
    pub fn build(&self) -> (request: Result<GameRecords, BuilderError>)
        ensures
            match request {
                Ok(r) => self@.id is Some && r@ == (GameRecordsView {
                    id: self@.id->Some_0,
                    top: self@.top,
                    scope: self@.scope,
                    miscellaneous: self@.miscellaneous,
                    skip_empty: self@.skip_empty,
                }),
                Err(e) => self@.id is None && e == BuilderError::UninitializedField("id"),
            },
    {
        match &self.id {
            Some(id) => Ok(
                GameRecords {
                    id: id.clone(),
                    top: self.top,
                    scope: self.scope,
                    miscellaneous: self.miscellaneous,
                    skip_empty: self.skip_empty,
                },
            ),
            None => Err(BuilderError::UninitializedField("id")),
        }
    }
}

impl GameRecords {
    /// A builder with no field set.
    pub fn builder() -> (builder: GameRecordsBuilder)
        ensures
            builder@ == GameRecordsBuilderView::unset(),
    {
        GameRecordsBuilder::default()
    }
}

impl Default for GameRecords {
    /// The request with an empty id and no other field set.
    fn default() -> (request: GameRecords)
        ensures
            request@ == GameRecordsView::unset(),
    {
        GameRecords {
            id: String::new(),
            top: None,
            scope: None,
            miscellaneous: None,
            skip_empty: None,
        }
    }
}

impl Endpoint for GameRecords {
    fn method(&self) -> (method: Method)
        ensures
            method == Method::Get,
    {
        Method::Get
    }

    fn endpoint_path(&self) -> (path: String)
        ensures
            path@ == self@.path(),
    {
        let mut path = String::from_str("/games/");
        path.append(self.id.as_str());
        path.append("/records");
        path
    }

    fn query_parameters(&self) -> (query: Result<String, BodyError>)
        ensures
            query matches Ok(text) && text@ == encoded_pairs(self@.pairs()),
    {
        let mut pairs: Vec<Pair> = Vec::new();
        push_word(&mut pairs, "id", Some(self.id.as_str()));
        push_number(&mut pairs, "top", self.top);
        push_keyword(&mut pairs, "scope", self.scope);
        push_flag(&mut pairs, "miscellaneous", self.miscellaneous);
        push_flag(&mut pairs, "skip-empty", self.skip_empty);
        encode_pairs(&pairs)
    }

    fn body(&self) -> (body: Result<Option<Body>, BodyError>)
        ensures
            body matches Ok(None),
    {
        Ok(None)
    }
}

impl Pageable for GameRecords {}

} // verus!
