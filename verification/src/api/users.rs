//! Requests about users.

use crate::api::builder::BuilderError;
use crate::api::common::Direction;
use crate::api::endpoint::{Body, Endpoint, Method, Pageable};
use crate::api::error::BodyError;
use crate::api::form::{
    decoded_pairs, encode_pairs, encoded_pairs, lemma_number_read, lemma_pairs_round_trip,
    lemma_parameter_concat, lemma_parameter_optional, lemma_word_read, number_read, number_text,
    optional_pair, parameter, push_keyword, push_number, push_text, word_of, word_read, Keyword,
    Pair,
};
use crate::api::query::{
    lemma_between, lemma_url_parts, lemma_url_path, request_url, url_path, url_query,
};
use crate::api::runs::{embed_text, embeds_read, lemma_embeds_read, RunEmbedSet, RunEmbeds};
use crate::text::{copy_text, text_view};
use vstd::prelude::*;
use vstd::string::StringExecFns;

verus! {

/// Sorting options for users.
#[derive(Clone, Copy, Debug, PartialEq, Eq, Structural)]
pub enum UsersSorting {
    /// Sorts alphanumerically by the international name (default).
    NameInternational,
    /// Sorts alphanumerically by the Japanese name.
    NameJapanese,
    /// Sorts by the signup date.
    Signup,
    /// Sorts by the user role.
    Role,
}

impl Keyword for UsersSorting {
    open spec fn word(self) -> Seq<char> {
        match self {
            UsersSorting::NameInternational => "name.int"@,
            UsersSorting::NameJapanese => "name.jap"@,
            UsersSorting::Signup => "signup"@,
            UsersSorting::Role => "role"@,
        }
    }

    open spec fn from_word(word: Seq<char>) -> Option<UsersSorting> {
        if word == "name.int"@ {
            Some(UsersSorting::NameInternational)
        } else if word == "name.jap"@ {
            Some(UsersSorting::NameJapanese)
        } else if word == "signup"@ {
            Some(UsersSorting::Signup)
        } else if word == "role"@ {
            Some(UsersSorting::Role)
        } else {
            None
        }
    }

    fn as_str(&self) -> (word: &'static str) {
        match self {
            UsersSorting::NameInternational => "name.int",
            UsersSorting::NameJapanese => "name.jap",
            UsersSorting::Signup => "signup",
            UsersSorting::Role => "role",
        }
    }

    proof fn lemma_word_round_trip(self) {
        reveal_strlit("name.int");
        reveal_strlit("name.jap");
        reveal_strlit("signup");
        reveal_strlit("role");
        assert("name.jap"@.len() == 8 && "name.jap"@[5] == 'j');
        assert("signup"@.len() == 6);
        assert("role"@.len() == 4);
    }
}

impl Default for UsersSorting {
    fn default() -> (option: UsersSorting)
        ensures
            option == UsersSorting::NameInternational,
    {
        UsersSorting::NameInternational
    }
}

/// Lists users, with optional filters and sorting.
#[derive(Clone, Debug)]
pub struct Users {
    lookup: Option<String>,
    name: Option<String>,
    twitch: Option<String>,
    hitbox: Option<String>,
    twitter: Option<String>,
    speedrunslive: Option<String>,
    orderby: Option<UsersSorting>,
    direction: Option<Direction>,
}

/// What a [`Users`] request holds.
pub struct UsersView {
    pub lookup: Option<Seq<char>>,
    pub name: Option<Seq<char>>,
    pub twitch: Option<Seq<char>>,
    pub hitbox: Option<Seq<char>>,
    pub twitter: Option<Seq<char>>,
    pub speedrunslive: Option<Seq<char>>,
    pub orderby: Option<UsersSorting>,
    pub direction: Option<Direction>,
}

impl View for Users {
    type V = UsersView;

    closed spec fn view(&self) -> UsersView {
        UsersView {
            lookup: text_view(self.lookup),
            name: text_view(self.name),
            twitch: text_view(self.twitch),
            hitbox: text_view(self.hitbox),
            twitter: text_view(self.twitter),
            speedrunslive: text_view(self.speedrunslive),
            orderby: self.orderby,
            direction: self.direction,
        }
    }
}

impl UsersView {
    /// No field set.
    pub open spec fn unset() -> UsersView {
        UsersView {
            lookup: None,
            name: None,
            twitch: None,
            hitbox: None,
            twitter: None,
            speedrunslive: None,
            orderby: None,
            direction: None,
        }
    }

    /// The path of the request.
    pub open spec fn path(self) -> Seq<char> {
        "/users"@
    }

    /// The parameters of the query string: one for each field that is set,
    /// in the order of the fields.
    pub open spec fn pairs(self) -> Seq<(Seq<char>, Seq<char>)> {
        optional_pair("lookup"@, self.lookup)
            + optional_pair("name"@, self.name)
            + optional_pair("twitch"@, self.twitch)
            + optional_pair("hitbox"@, self.hitbox)
            + optional_pair("twitter"@, self.twitter)
            + optional_pair("speedrunslive"@, self.speedrunslive)
            + optional_pair("orderby"@, word_of(self.orderby))
            + optional_pair("direction"@, word_of(self.direction))
    }

    /// The fields that a list of parameters sets: each is read from the
    /// first parameter of its name.
    pub open spec fn from_pairs(pairs: Seq<(Seq<char>, Seq<char>)>) -> UsersView {
        UsersView {
            lookup: parameter(pairs, "lookup"@),
            name: parameter(pairs, "name"@),
            twitch: parameter(pairs, "twitch"@),
            hitbox: parameter(pairs, "hitbox"@),
            twitter: parameter(pairs, "twitter"@),
            speedrunslive: parameter(pairs, "speedrunslive"@),
            orderby: word_read(parameter(pairs, "orderby"@)),
            direction: word_read(parameter(pairs, "direction"@)),
        }
    }

    /// The request that a URL under the base URL `base` stands for.
    pub open spec fn from_url(url: Seq<char>, base: Seq<char>) -> UsersView {
        Self::from_pairs(decoded_pairs(url_query(url)))
    }

    /// The URL of the request under the base URL `base`.
    pub open spec fn url(self, base: Seq<char>) -> Seq<char> {
        request_url(base, self.path(), encoded_pairs(self.pairs()))
    }

    /// Every field is read back from the parameters that the request writes.
    pub proof fn lemma_fields_round_trip(self)
        ensures
            Self::from_pairs(self.pairs()) == self,
    {
        broadcast use {lemma_parameter_concat, lemma_parameter_optional, lemma_word_read};

        reveal_strlit("lookup");
        reveal_strlit("name");
        reveal_strlit("twitch");
        reveal_strlit("hitbox");
        reveal_strlit("twitter");
        reveal_strlit("speedrunslive");
        reveal_strlit("orderby");
        reveal_strlit("direction");
        assert("name"@.len() == 4);
        assert("twitch"@.len() == 6 && "twitch"@[0] == 't');
        assert("hitbox"@.len() == 6 && "hitbox"@[0] == 'h');
        assert("twitter"@.len() == 7 && "twitter"@[0] == 't');
        assert("speedrunslive"@.len() == 13);
        assert("orderby"@.len() == 7 && "orderby"@[0] == 'o');
        assert("direction"@.len() == 9);
    }

    /// The request is read back from its URL: the path and the query string
    /// are found again in the URL, and they give the fields that were set.
    /// The base URL must hold no `?`, which would cut the URL short.
    pub proof fn lemma_url_round_trip(self, base: Seq<char>)
        requires
            !base.contains('?'),
        ensures
            Self::from_url(self.url(base), base) == self,
    {
        let path = self.path();
        let query = encoded_pairs(self.pairs());
        reveal_strlit("/users");
        lemma_url_parts(base, path, query);
        lemma_pairs_round_trip(self.pairs());
        self.lemma_fields_round_trip();
    }
}

/// Builds a [`Users`] request.
#[derive(Clone, Debug)]
pub struct UsersBuilder {
    lookup: Option<String>,
    name: Option<String>,
    twitch: Option<String>,
    hitbox: Option<String>,
    twitter: Option<String>,
    speedrunslive: Option<String>,
    orderby: Option<UsersSorting>,
    direction: Option<Direction>,
}

impl View for UsersBuilder {
    type V = UsersView;

    /// The fields that have been set.
    closed spec fn view(&self) -> UsersView {
        UsersView {
            lookup: text_view(self.lookup),
            name: text_view(self.name),
            twitch: text_view(self.twitch),
            hitbox: text_view(self.hitbox),
            twitter: text_view(self.twitter),
            speedrunslive: text_view(self.speedrunslive),
            orderby: self.orderby,
            direction: self.direction,
        }
    }
}

impl Default for UsersBuilder {
    /// A builder with no field set.
    fn default() -> (builder: UsersBuilder)
        ensures
            builder@ == UsersView::unset(),
    {
        UsersBuilder {
            lookup: None,
            name: None,
            twitch: None,
            hitbox: None,
            twitter: None,
            speedrunslive: None,
            orderby: None,
            direction: None,
        }
    }
}

impl UsersBuilder {
    /// Searches for this text among names and the names of linked accounts.
    pub fn lookup(&mut self, value: &str) -> (builder: &mut Self)
        ensures
            *final(self) == *final(builder),
            builder@ == (UsersView { lookup: Some(value@), ..old(self)@ }),
    {
        self.lookup = Some(String::from_str(value));
        self
    }

    /// Searches for users by name.
    pub fn name(&mut self, value: &str) -> (builder: &mut Self)
        ensures
            *final(self) == *final(builder),
            builder@ == (UsersView { name: Some(value@), ..old(self)@ }),
    {
        self.name = Some(String::from_str(value));
        self
    }

    /// Searches for users by the name of their Twitch account.
    pub fn twitch(&mut self, value: &str) -> (builder: &mut Self)
        ensures
            *final(self) == *final(builder),
            builder@ == (UsersView { twitch: Some(value@), ..old(self)@ }),
    {
        self.twitch = Some(String::from_str(value));
        self
    }

    /// Searches for users by the name of their Hitbox account.
    pub fn hitbox(&mut self, value: &str) -> (builder: &mut Self)
        ensures
            *final(self) == *final(builder),
            builder@ == (UsersView { hitbox: Some(value@), ..old(self)@ }),
    {
        self.hitbox = Some(String::from_str(value));
        self
    }

    /// Searches for users by the name of their Twitter account.
    pub fn twitter(&mut self, value: &str) -> (builder: &mut Self)
        ensures
            *final(self) == *final(builder),
            builder@ == (UsersView { twitter: Some(value@), ..old(self)@ }),
    {
        self.twitter = Some(String::from_str(value));
        self
    }

    /// Searches for users by the name of their SpeedRunsLive account.
    pub fn speedrunslive(&mut self, value: &str) -> (builder: &mut Self)
        ensures
            *final(self) == *final(builder),
            builder@ == (UsersView { speedrunslive: Some(value@), ..old(self)@ }),
    {
        self.speedrunslive = Some(String::from_str(value));
        self
    }

    /// Sets what the users are sorted by.
    pub fn orderby(&mut self, value: UsersSorting) -> (builder: &mut Self)
        ensures
            *final(self) == *final(builder),
            builder@ == (UsersView { orderby: Some(value), ..old(self)@ }),
    {
        self.orderby = Some(value);
        self
    }

    /// Sets the direction in which the users are sorted.
    pub fn direction(&mut self, value: Direction) -> (builder: &mut Self)
        ensures
            *final(self) == *final(builder),
            builder@ == (UsersView { direction: Some(value), ..old(self)@ }),
    {
        self.direction = Some(value);
        self
    }

    /// Builds the request. A field that has not been set is left unset.
    pub fn build(&self) -> (request: Result<Users, BuilderError>)
        ensures
            request matches Ok(r) && r@ == self@,
    {
        Ok(
            Users {
                lookup: copy_text(&self.lookup),
                name: copy_text(&self.name),
                twitch: copy_text(&self.twitch),
                hitbox: copy_text(&self.hitbox),
                twitter: copy_text(&self.twitter),
                speedrunslive: copy_text(&self.speedrunslive),
                orderby: self.orderby,
                direction: self.direction,
            },
        )
    }
}

impl Users {
    /// A builder with no field set.
    pub fn builder() -> (builder: UsersBuilder)
        ensures
            builder@ == UsersView::unset(),
    {
        UsersBuilder::default()
    }
}

impl Default for Users {
    /// The request with no field set.
    fn default() -> (request: Users)
        ensures
            request@ == UsersView::unset(),
    {
        Users {
            lookup: None,
            name: None,
            twitch: None,
            hitbox: None,
            twitter: None,
            speedrunslive: None,
            orderby: None,
            direction: None,
        }
    }
}

impl Endpoint for Users {
    fn method(&self) -> (method: Method)
        ensures
            method == Method::Get,
    {
        Method::Get
    }

    fn endpoint_path(&self) -> (path: String)
        ensures
            path@ == self@.path(),
    {
        String::from_str("/users")
    }

    fn query_parameters(&self) -> (query: Result<String, BodyError>)
        ensures
            query matches Ok(text) && text@ == encoded_pairs(self@.pairs()),
    {
        let mut pairs: Vec<Pair> = Vec::new();
        push_text(&mut pairs, "lookup", &self.lookup);
        push_text(&mut pairs, "name", &self.name);
        push_text(&mut pairs, "twitch", &self.twitch);
        push_text(&mut pairs, "hitbox", &self.hitbox);
        push_text(&mut pairs, "twitter", &self.twitter);
        push_text(&mut pairs, "speedrunslive", &self.speedrunslive);
        push_keyword(&mut pairs, "orderby", self.orderby);
        push_keyword(&mut pairs, "direction", self.direction);
        encode_pairs(&pairs)
    }

    fn body(&self) -> (body: Result<Option<Body>, BodyError>)
        ensures
            body matches Ok(None),
    {
        Ok(None)
    }
}

impl Pageable for Users {}

/// Asks for one user by their id.
#[derive(Clone, Debug)]
pub struct User {
    id: String,
}

/// What a [`User`] request holds.
pub struct UserView {
    pub id: Seq<char>,
}

impl View for User {
    type V = UserView;

    closed spec fn view(&self) -> UserView {
        UserView {
            id: self.id@,
        }
    }
}

impl UserView {
    /// An empty id.
    pub open spec fn unset() -> UserView {
        UserView { id: Seq::empty() }
    }

    /// The path of the request.
    pub open spec fn path(self) -> Seq<char> {
        "/users/"@ + self.id
    }

    /// The id that a path of such a request holds.
    pub open spec fn id_of(path: Seq<char>) -> Seq<char> {
        path.subrange("/users/"@.len() as int, path.len() as int)
    }

    /// The request that a URL under the base URL `base` stands for.
    pub open spec fn from_url(url: Seq<char>, base: Seq<char>) -> UserView {
        UserView { id: Self::id_of(url_path(url, base)) }
    }

    /// The URL of the request under the base URL `base`.
    pub open spec fn url(self, base: Seq<char>) -> Seq<char> {
        request_url(base, self.path(), Seq::empty())
    }

    /// The request is read back from its URL: the path and the query string
    /// are found again in the URL, and they give the fields that were set.
    /// The base URL and the id must hold no `?`, which would cut the URL short.
    pub proof fn lemma_url_round_trip(self, base: Seq<char>)
        requires
            !base.contains('?'),
            !self.id.contains('?'),
        ensures
            Self::from_url(self.url(base), base) == self,
    {
        let path = self.path();
        let query = Seq::<char>::empty();
        reveal_strlit("/users/");
        lemma_url_path(base, path, query);
        lemma_between("/users/"@, self.id, Seq::empty());
    }
}

/// Builds a [`User`] request.
#[derive(Clone, Debug)]
pub struct UserBuilder {
    id: Option<String>,
}

/// What a [`UserBuilder`] holds: the fields that have been set.
pub struct UserBuilderView {
    pub id: Option<Seq<char>>,
}

impl UserBuilderView {
    /// No field set.
    pub open spec fn unset() -> UserBuilderView {
        UserBuilderView { id: None }
    }
}

impl View for UserBuilder {
    type V = UserBuilderView;

    closed spec fn view(&self) -> UserBuilderView {
        UserBuilderView {
            id: text_view(self.id),
        }
    }
}

impl Default for UserBuilder {
    /// A builder with no field set.
    fn default() -> (builder: UserBuilder)
        ensures
            builder@ == UserBuilderView::unset(),
    {
        UserBuilder { id: None }
    }
}

impl UserBuilder {
    /// Sets the id of the user.
    pub fn id(&mut self, value: &str) -> (builder: &mut Self)
        ensures
            *final(self) == *final(builder),
            builder@ == (UserBuilderView { id: Some(value@), ..old(self)@ }),
    {
        self.id = Some(String::from_str(value));
        self
    }

    /// Builds the request. The id is required: without it the build fails
    /// and names the field.
    pub fn build(&self) -> (request: Result<User, BuilderError>)
        ensures
            match request {
                Ok(r) => self@.id == Some(r@.id),
                Err(e) => self@.id is None && e == BuilderError::UninitializedField("id"),
            },
    {
        match &self.id {
            Some(id) => Ok(User { id: id.clone() }),
            None => Err(BuilderError::UninitializedField("id")),
        }
    }
}

impl User {
    /// A builder with no field set.
    pub fn builder() -> (builder: UserBuilder)
        ensures
            builder@ == UserBuilderView::unset(),
    {
        UserBuilder::default()
    }
}

impl Default for User {
    /// The request with an empty id.
    fn default() -> (request: User)
        ensures
            request@ == UserView::unset(),
    {
        User { id: String::new() }
    }
}

impl Endpoint for User {
    fn method(&self) -> (method: Method)
        ensures
            method == Method::Get,
    {
        Method::Get
    }

    fn endpoint_path(&self) -> (path: String)
        ensures
            path@ == self@.path(),
    {
        let mut path = String::from_str("/users/");
        path.append(self.id.as_str());
        path
    }

    fn query_parameters(&self) -> (query: Result<String, BodyError>)
        ensures
            query matches Ok(text) && text@ == Seq::<char>::empty(),
    {
        Ok(String::new())
    }

    fn body(&self) -> (body: Result<Option<Body>, BodyError>)
        ensures
            body matches Ok(None),
    {
        Ok(None)
    }
}

/// Lists the personal bests of a user.
#[derive(Clone, Debug)]
pub struct UserPersonalBests {
    id: String,
    top: Option<i64>,
    series: Option<String>,
    game: Option<String>,
    embed: RunEmbedSet,
}

/// What a [`UserPersonalBests`] request holds.
pub struct UserPersonalBestsView {
    pub id: Seq<char>,
    pub top: Option<i64>,
    pub series: Option<Seq<char>>,
    pub game: Option<Seq<char>>,
    pub embed: Set<RunEmbeds>,
}

impl View for UserPersonalBests {
    type V = UserPersonalBestsView;

    closed spec fn view(&self) -> UserPersonalBestsView {
        UserPersonalBestsView {
            id: self.id@,
            top: self.top,
            series: text_view(self.series),
            game: text_view(self.game),
            embed: self.embed@,
        }
    }
}

impl UserPersonalBestsView {
    /// An empty id, no other field set and nothing embedded.
    pub open spec fn unset() -> UserPersonalBestsView {
        UserPersonalBestsView {
            id: Seq::empty(),
            top: None,
            series: None,
            game: None,
            embed: Set::empty(),
        }
    }

    /// The path of the request.
    pub open spec fn path(self) -> Seq<char> {
        "/users/"@ + self.id + "/personal-bests"@
    }

    /// The id that a path of such a request holds.
    pub open spec fn id_of(path: Seq<char>) -> Seq<char> {
        path.subrange("/users/"@.len() as int, path.len() - "/personal-bests"@.len())
    }

    /// The parameters of the query string: one for each field that is set,
    /// in the order of the fields, and one for what is embedded, unless that
    /// is nothing.
    pub open spec fn pairs(self) -> Seq<(Seq<char>, Seq<char>)> {
        optional_pair("top"@, number_text(self.top)) + optional_pair("series"@, self.series)
            + optional_pair("game"@, self.game) + optional_pair("embed"@, embed_text(self.embed))
    }

    /// The fields that a list of parameters sets: each is read from the
    /// first parameter of its name.
    pub open spec fn from_pairs(
        pairs: Seq<(Seq<char>, Seq<char>)>,
        id: Seq<char>,
    ) -> UserPersonalBestsView {
        UserPersonalBestsView {
            id,
            top: number_read(parameter(pairs, "top"@)),
            series: parameter(pairs, "series"@),
            game: parameter(pairs, "game"@),
            embed: embeds_read(parameter(pairs, "embed"@)),
        }
    }

    /// The request that a URL under the base URL `base` stands for.
    pub open spec fn from_url(url: Seq<char>, base: Seq<char>) -> UserPersonalBestsView {
        Self::from_pairs(decoded_pairs(url_query(url)), Self::id_of(url_path(url, base)))
    }

    /// The URL of the request under the base URL `base`.
    pub open spec fn url(self, base: Seq<char>) -> Seq<char> {
        request_url(base, self.path(), encoded_pairs(self.pairs()))
    }

    /// Every field that the request writes as a parameter is read back from
    /// its parameters.
    pub proof fn lemma_fields_round_trip(self)
        ensures
            Self::from_pairs(self.pairs(), self.id) == self,
    {
        broadcast use {lemma_parameter_concat, lemma_parameter_optional, lemma_number_read};

        reveal_strlit("top");
        reveal_strlit("series");
        reveal_strlit("game");
        reveal_strlit("embed");
        assert("series"@.len() == 6);
        assert("game"@.len() == 4);
        assert("embed"@.len() == 5);
        lemma_embeds_read(self.embed);
    }

    /// The request is read back from its URL: the path and the query string
    /// are found again in the URL, and they give the fields that were set.
    /// The base URL and the id must hold no `?`, which would cut the URL short.
    pub proof fn lemma_url_round_trip(self, base: Seq<char>)
        requires
            !base.contains('?'),
            !self.id.contains('?'),
        ensures
            Self::from_url(self.url(base), base) == self,
    {
        let path = self.path();
        let query = encoded_pairs(self.pairs());
        reveal_strlit("/users/");
        reveal_strlit("/personal-bests");
        lemma_url_parts(base, path, query);
        lemma_url_path(base, path, query);
        lemma_between("/users/"@, self.id, "/personal-bests"@);
        lemma_pairs_round_trip(self.pairs());
        self.lemma_fields_round_trip();
    }
}

/// Builds a [`UserPersonalBests`] request.
#[derive(Clone, Debug)]
pub struct UserPersonalBestsBuilder {
    id: Option<String>,
    top: Option<i64>,
    series: Option<String>,
    game: Option<String>,
    embed: RunEmbedSet,
}

/// What a [`UserPersonalBestsBuilder`] holds: the fields that have been set,
/// and what is to be embedded.
pub struct UserPersonalBestsBuilderView {
    pub id: Option<Seq<char>>,
    pub top: Option<i64>,
    pub series: Option<Seq<char>>,
    pub game: Option<Seq<char>>,
    pub embed: Set<RunEmbeds>,
}

impl UserPersonalBestsBuilderView {
    /// No field set and nothing embedded.
    pub open spec fn unset() -> UserPersonalBestsBuilderView {
        UserPersonalBestsBuilderView {
            id: None,
            top: None,
            series: None,
            game: None,
            embed: Set::empty(),
        }
    }
}

impl View for UserPersonalBestsBuilder {
    type V = UserPersonalBestsBuilderView;

    closed spec fn view(&self) -> UserPersonalBestsBuilderView {
        UserPersonalBestsBuilderView {
            id: text_view(self.id),
            top: self.top,
            series: text_view(self.series),
            game: text_view(self.game),
            embed: self.embed@,
        }
    }
}

impl Default for UserPersonalBestsBuilder {
    /// A builder with no field set and nothing embedded.
    fn default() -> (builder: UserPersonalBestsBuilder)
        ensures
            builder@ == UserPersonalBestsBuilderView::unset(),
    {
        UserPersonalBestsBuilder {
            id: None,
            top: None,
            series: None,
            game: None,
            embed: RunEmbedSet::new(),
        }
    }
}

impl UserPersonalBestsBuilder {
    /// Sets the id of the user.
    pub fn id(&mut self, value: &str) -> (builder: &mut Self)
        ensures
            *final(self) == *final(builder),
            builder@ == (UserPersonalBestsBuilderView { id: Some(value@), ..old(self)@ }),
    {
        self.id = Some(String::from_str(value));
        self
    }

    /// Asks only for the runs that hold one of the first `value` places.
    pub fn top(&mut self, value: i64) -> (builder: &mut Self)
        ensures
            *final(self) == *final(builder),
            builder@ == (UserPersonalBestsBuilderView { top: Some(value), ..old(self)@ }),
    {
        self.top = Some(value);
        self
    }

    /// Asks only for the runs in games of this series, given by its id.
    pub fn series(&mut self, value: &str) -> (builder: &mut Self)
        ensures
            *final(self) == *final(builder),
            builder@ == (UserPersonalBestsBuilderView { series: Some(value@), ..old(self)@ }),
    {
        self.series = Some(String::from_str(value));
        self
    }

    /// Asks only for the runs of this game, given by its id.
    pub fn game(&mut self, value: &str) -> (builder: &mut Self)
        ensures
            *final(self) == *final(builder),
            builder@ == (UserPersonalBestsBuilderView { game: Some(value@), ..old(self)@ }),
    {
        self.game = Some(String::from_str(value));
        self
    }

    /// Adds one thing to what is embedded in each run.
    pub fn embed(&mut self, embed: RunEmbeds) -> (builder: &mut Self)
        ensures
            *final(self) == *final(builder),
            builder@ == (UserPersonalBestsBuilderView {
                embed: old(self)@.embed.insert(embed),
                ..old(self)@
            }),
    {
        self.embed.insert(embed);
        self
    }

    /// Adds several things to what is embedded in each run.
    pub fn embeds(&mut self, embeds: &[RunEmbeds]) -> (builder: &mut Self)
        ensures
            *final(self) == *final(builder),
            builder@ == (UserPersonalBestsBuilderView {
                embed: old(self)@.embed.union(embeds@.to_set()),
                ..old(self)@
            }),
    {
        let mut i: usize = 0;
        proof {
            let none = embeds@.take(0);
            assert(self@.embed.union(none.to_set()) =~= self@.embed);
        }
        while i < embeds.len()
            invariant
                0 <= i <= embeds.len(),
                self@ == (UserPersonalBestsBuilderView {
                    embed: old(self)@.embed.union(embeds@.take(i as int).to_set()),
                    ..old(self)@
                }),
            decreases embeds.len() - i,
        {
            self.embed.insert(embeds[i]);
            proof {
                let before = embeds@.take(i as int);
                let after = embeds@.take(i as int + 1);
                assert forall|e: RunEmbeds|
                    after.to_set().contains(e) <==> before.to_set().contains(e) || e
                        == embeds@[i as int] by {
                    if e == embeds@[i as int] {
                        assert(after[i as int] == e);
                    }
                }
                assert(old(self)@.embed.union(before.to_set()).insert(embeds@[i as int])
                    =~= old(self)@.embed.union(after.to_set()));
            }
            i += 1;
        }
        proof {
            assert(embeds@.take(embeds@.len() as int) =~= embeds@);
        }
        self
    }

    /// Builds the request. The id is required: without it the build fails
    /// and names the field. Any other field that has not been set is left
    /// unset.
    pub fn build(&self) -> (request: Result<UserPersonalBests, BuilderError>)
        ensures
            match request {
                Ok(r) => self@.id is Some && r@ == (UserPersonalBestsView {
                    id: self@.id->Some_0,
                    top: self@.top,
                    series: self@.series,
                    game: self@.game,
                    embed: self@.embed,
                }),
                Err(e) => self@.id is None && e == BuilderError::UninitializedField("id"),
            },
    {
        match &self.id {
            Some(id) => Ok(
                UserPersonalBests {
                    id: id.clone(),
                    top: self.top,
                    series: copy_text(&self.series),
                    game: copy_text(&self.game),
                    embed: self.embed.clone(),
                },
            ),
            None => Err(BuilderError::UninitializedField("id")),
        }
    }
}

impl UserPersonalBests {
    /// A builder with no field set and nothing embedded.
    pub fn builder() -> (builder: UserPersonalBestsBuilder)
        ensures
            builder@ == UserPersonalBestsBuilderView::unset(),
    {
        UserPersonalBestsBuilder::default()
    }
}

impl Default for UserPersonalBests {
    /// The request with an empty id, no other field set and nothing embedded.
    fn default() -> (request: UserPersonalBests)
        ensures
            request@ == UserPersonalBestsView::unset(),
    {
        UserPersonalBests {
            id: String::new(),
            top: None,
            series: None,
            game: None,
            embed: RunEmbedSet::new(),
        }
    }
}

impl Endpoint for UserPersonalBests {
    fn method(&self) -> (method: Method)
        ensures
            method == Method::Get,
    {
        Method::Get
    }

    fn endpoint_path(&self) -> (path: String)
        ensures
            path@ == self@.path(),
    {
        let mut path = String::from_str("/users/");
        path.append(self.id.as_str());
        path.append("/personal-bests");
        path
    }

    fn query_parameters(&self) -> (query: Result<String, BodyError>)
        ensures
            query matches Ok(text) && text@ == encoded_pairs(self@.pairs()),
    {
        let mut pairs: Vec<Pair> = Vec::new();
        push_number(&mut pairs, "top", self.top);
        push_text(&mut pairs, "series", &self.series);
        push_text(&mut pairs, "game", &self.game);
        let embed = self.embed.to_text();
        push_text(&mut pairs, "embed", &embed);
        encode_pairs(&pairs)
    }

    fn body(&self) -> (body: Result<Option<Body>, BodyError>)
        ensures
            body matches Ok(None),
    {
        Ok(None)
    }
}

} // verus!
