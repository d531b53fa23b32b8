//! Requests about runs.

use crate::api::builder::BuilderError;
use crate::api::common::Direction;
use crate::api::endpoint::{write_json_body, writes_json_body, Body, Endpoint, Method, Pageable};
use crate::api::error::BodyError;
use crate::api::form::{
    decoded_pairs, encode_pairs, encoded_pairs, flag_read, flag_text, lemma_flag_read,
    lemma_pairs_round_trip, lemma_parameter_concat, lemma_parameter_optional, lemma_word_read,
    optional_pair, parameter, push_flag, push_keyword, push_text, word_of, word_read, Keyword, Pair,
};
use crate::api::query::{
    lemma_between, lemma_url_parts, lemma_url_path, request_url, url_path, url_query,
};
use crate::json::{
    json_written, member_views, nests_within, views, writable, written, Json, JsonView,
};
use crate::text::{
    copy_text, join_with_commas, joined, lemma_split_joined, split, text_view, word_views,
};
use std::collections::BTreeSet;
use vstd::prelude::*;
use vstd::string::StringExecFns;

verus! {

/// The verification status of a run.
#[derive(Clone, Copy, Debug, PartialEq, Eq, Structural)]
pub enum RunStatus {
    /// Not yet looked at.
    New,
    Verified,
    Rejected,
}

impl Keyword for RunStatus {
    open spec fn word(self) -> Seq<char> {
        match self {
            RunStatus::New => "new"@,
            RunStatus::Verified => "verified"@,
            RunStatus::Rejected => "rejected"@,
        }
    }

    open spec fn from_word(word: Seq<char>) -> Option<RunStatus> {
        if word == "new"@ {
            Some(RunStatus::New)
        } else if word == "verified"@ {
            Some(RunStatus::Verified)
        } else if word == "rejected"@ {
            Some(RunStatus::Rejected)
        } else {
            None
        }
    }

    fn as_str(&self) -> (word: &'static str) {
        match self {
            RunStatus::New => "new",
            RunStatus::Verified => "verified",
            RunStatus::Rejected => "rejected",
        }
    }

    proof fn lemma_word_round_trip(self) {
        reveal_strlit("new");
        reveal_strlit("verified");
        reveal_strlit("rejected");
        assert("verified"@.len() == 8 && "verified"@[0] == 'v');
        assert("rejected"@.len() == 8 && "rejected"@[0] == 'r');
    }
}

/// Sorting options for runs.
#[derive(Clone, Copy, Debug, PartialEq, Eq, Structural)]
pub enum RunsSorting {
    /// Sorts by the game the run was done in (default).
    Game,
    /// Sorts by the run category.
    Category,
    /// Sorts by the run level.
    Level,
    /// Sorts by the platform used for the run.
    Platform,
    /// Sorts by the console region used for the run.
    Region,
    /// Sorts by whether an emulator was used for the run.
    Emulated,
    /// Sorts by the date of the run.
    Date,
    /// Sorts by the date when the run was submitted to speedrun.com.
    Submitted,
    /// Sorts by verification status.
    Status,
    /// Sorts by the date the run was verified.
    VerifyDate,
}

impl Keyword for RunsSorting {
    open spec fn word(self) -> Seq<char> {
        match self {
            RunsSorting::Game => "game"@,
            RunsSorting::Category => "category"@,
            RunsSorting::Level => "level"@,
            RunsSorting::Platform => "platform"@,
            RunsSorting::Region => "region"@,
            RunsSorting::Emulated => "emulated"@,
            RunsSorting::Date => "date"@,
            RunsSorting::Submitted => "submitted"@,
            RunsSorting::Status => "status"@,
            RunsSorting::VerifyDate => "verify-date"@,
        }
    }

    open spec fn from_word(word: Seq<char>) -> Option<RunsSorting> {
        if word == "game"@ {
            Some(RunsSorting::Game)
        } else if word == "category"@ {
            Some(RunsSorting::Category)
        } else if word == "level"@ {
            Some(RunsSorting::Level)
        } else if word == "platform"@ {
            Some(RunsSorting::Platform)
        } else if word == "region"@ {
            Some(RunsSorting::Region)
        } else if word == "emulated"@ {
            Some(RunsSorting::Emulated)
        } else if word == "date"@ {
            Some(RunsSorting::Date)
        } else if word == "submitted"@ {
            Some(RunsSorting::Submitted)
        } else if word == "status"@ {
            Some(RunsSorting::Status)
        } else if word == "verify-date"@ {
            Some(RunsSorting::VerifyDate)
        } else {
            None
        }
    }

    fn as_str(&self) -> (word: &'static str) {
        match self {
            RunsSorting::Game => "game",
            RunsSorting::Category => "category",
            RunsSorting::Level => "level",
            RunsSorting::Platform => "platform",
            RunsSorting::Region => "region",
            RunsSorting::Emulated => "emulated",
            RunsSorting::Date => "date",
            RunsSorting::Submitted => "submitted",
            RunsSorting::Status => "status",
            RunsSorting::VerifyDate => "verify-date",
        }
    }

    proof fn lemma_word_round_trip(self) {
        reveal_strlit("game");
        reveal_strlit("category");
        reveal_strlit("level");
        reveal_strlit("platform");
        reveal_strlit("region");
        reveal_strlit("emulated");
        reveal_strlit("date");
        reveal_strlit("submitted");
        reveal_strlit("status");
        reveal_strlit("verify-date");
        assert("category"@.len() == 8 && "category"@[0] == 'c');
        assert("level"@.len() == 5);
        assert("platform"@.len() == 8 && "platform"@[0] == 'p');
        assert("region"@.len() == 6 && "region"@[0] == 'r');
        assert("emulated"@.len() == 8 && "emulated"@[0] == 'e');
        assert("date"@.len() == 4 && "date"@[0] == 'd');
        assert("submitted"@.len() == 9);
        assert("status"@.len() == 6 && "status"@[0] == 's');
        assert("verify-date"@.len() == 11);
    }
}

impl Default for RunsSorting {
    fn default() -> (option: RunsSorting)
        ensures
            option == RunsSorting::Game,
    {
        RunsSorting::Game
    }
}

/// What can be embedded in a run.
#[derive(Clone, Copy, Debug, PartialEq, Eq, Structural)]
pub enum RunEmbeds {
    Game,
    Category,
    Level,
    Players,
    Region,
    Platform,
}

impl Keyword for RunEmbeds {
    open spec fn word(self) -> Seq<char> {
        match self {
            RunEmbeds::Game => "game"@,
            RunEmbeds::Category => "category"@,
            RunEmbeds::Level => "level"@,
            RunEmbeds::Players => "players"@,
            RunEmbeds::Region => "region"@,
            RunEmbeds::Platform => "platform"@,
        }
    }

    open spec fn from_word(word: Seq<char>) -> Option<RunEmbeds> {
        if word == "game"@ {
            Some(RunEmbeds::Game)
        } else if word == "category"@ {
            Some(RunEmbeds::Category)
        } else if word == "level"@ {
            Some(RunEmbeds::Level)
        } else if word == "players"@ {
            Some(RunEmbeds::Players)
        } else if word == "region"@ {
            Some(RunEmbeds::Region)
        } else if word == "platform"@ {
            Some(RunEmbeds::Platform)
        } else {
            None
        }
    }

    fn as_str(&self) -> (word: &'static str) {
        match self {
            RunEmbeds::Game => "game",
            RunEmbeds::Category => "category",
            RunEmbeds::Level => "level",
            RunEmbeds::Players => "players",
            RunEmbeds::Region => "region",
            RunEmbeds::Platform => "platform",
        }
    }

    proof fn lemma_word_round_trip(self) {
        reveal_strlit("game");
        reveal_strlit("category");
        reveal_strlit("level");
        reveal_strlit("players");
        reveal_strlit("region");
        reveal_strlit("platform");
        assert("category"@.len() == 8 && "category"@[0] == 'c');
        assert("level"@.len() == 5);
        assert("players"@.len() == 7);
        assert("region"@.len() == 6);
        assert("platform"@.len() == 8 && "platform"@[0] == 'p');
    }
}

/// Lists runs, with optional filters and sorting.
#[derive(Clone, Debug)]
pub struct Runs {
    user: Option<String>,
    guest: Option<String>,
    examiner: Option<String>,
    game: Option<String>,
    level: Option<String>,
    category: Option<String>,
    platform: Option<String>,
    region: Option<String>,
    emulated: Option<bool>,
    status: Option<RunStatus>,
    orderby: Option<RunsSorting>,
    direction: Option<Direction>,
}

/// What a [`Runs`] request holds.
pub struct RunsView {
    pub user: Option<Seq<char>>,
    pub guest: Option<Seq<char>>,
    pub examiner: Option<Seq<char>>,
    pub game: Option<Seq<char>>,
    pub level: Option<Seq<char>>,
    pub category: Option<Seq<char>>,
    pub platform: Option<Seq<char>>,
    pub region: Option<Seq<char>>,
    pub emulated: Option<bool>,
    pub status: Option<RunStatus>,
    pub orderby: Option<RunsSorting>,
    pub direction: Option<Direction>,
}

impl View for Runs {
    type V = RunsView;

    closed spec fn view(&self) -> RunsView {
        RunsView {
            user: text_view(self.user),
            guest: text_view(self.guest),
            examiner: text_view(self.examiner),
            game: text_view(self.game),
            level: text_view(self.level),
            category: text_view(self.category),
            platform: text_view(self.platform),
            region: text_view(self.region),
            emulated: self.emulated,
            status: self.status,
            orderby: self.orderby,
            direction: self.direction,
        }
    }
}

impl RunsView {
    /// No field set.
    pub open spec fn unset() -> RunsView {
        RunsView {
            user: None,
            guest: None,
            examiner: None,
            game: None,
            level: None,
            category: None,
            platform: None,
            region: None,
            emulated: None,
            status: None,
            orderby: None,
            direction: None,
        }
    }

    /// The path of the request.
    pub open spec fn path(self) -> Seq<char> {
        "/runs"@
    }

    /// The parameters of the query string: one for each field that is set,
    /// in the order of the fields.
    pub open spec fn pairs(self) -> Seq<(Seq<char>, Seq<char>)> {
        optional_pair("user"@, self.user)
            + optional_pair("guest"@, self.guest)
            + optional_pair("examiner"@, self.examiner)
            + optional_pair("game"@, self.game)
            + optional_pair("level"@, self.level)
            + optional_pair("category"@, self.category)
            + optional_pair("platform"@, self.platform)
            + optional_pair("region"@, self.region)
            + optional_pair("emulated"@, flag_text(self.emulated))
            + optional_pair("status"@, word_of(self.status))
            + optional_pair("orderby"@, word_of(self.orderby))
            + optional_pair("direction"@, word_of(self.direction))
    }

    /// The fields that a list of parameters sets: each is read from the
    /// first parameter of its name.
    pub open spec fn from_pairs(pairs: Seq<(Seq<char>, Seq<char>)>) -> RunsView {
        RunsView {
            user: parameter(pairs, "user"@),
            guest: parameter(pairs, "guest"@),
            examiner: parameter(pairs, "examiner"@),
            game: parameter(pairs, "game"@),
            level: parameter(pairs, "level"@),
            category: parameter(pairs, "category"@),
            platform: parameter(pairs, "platform"@),
            region: parameter(pairs, "region"@),
            emulated: flag_read(parameter(pairs, "emulated"@)),
            status: word_read(parameter(pairs, "status"@)),
            orderby: word_read(parameter(pairs, "orderby"@)),
            direction: word_read(parameter(pairs, "direction"@)),
        }
    }

    /// The request that a URL under the base URL `base` stands for.
    pub open spec fn from_url(url: Seq<char>, base: Seq<char>) -> RunsView {
        Self::from_pairs(decoded_pairs(url_query(url)))
    }

    /// The URL of the request under the base URL `base`.
    pub open spec fn url(self, base: Seq<char>) -> Seq<char> {
        request_url(base, self.path(), encoded_pairs(self.pairs()))
    }

    /// Every field is read back from the parameters that the request writes.
    pub proof fn lemma_fields_round_trip(self)
        ensures
            Self::from_pairs(self.pairs()) == self,
    {
        broadcast use {
            lemma_parameter_concat,
            lemma_parameter_optional,
            lemma_flag_read,
            lemma_word_read,
        };

        reveal_strlit("user");
        reveal_strlit("guest");
        reveal_strlit("examiner");
        reveal_strlit("game");
        reveal_strlit("level");
        reveal_strlit("category");
        reveal_strlit("platform");
        reveal_strlit("region");
        reveal_strlit("emulated");
        reveal_strlit("status");
        reveal_strlit("orderby");
        reveal_strlit("direction");
        assert("guest"@.len() == 5 && "guest"@[0] == 'g');
        assert("examiner"@.len() == 8 && "examiner"@[0] == 'e' && "examiner"@[1] == 'x');
        assert("game"@.len() == 4 && "game"@[0] == 'g');
        assert("level"@.len() == 5 && "level"@[0] == 'l');
        assert("category"@.len() == 8 && "category"@[0] == 'c');
        assert("platform"@.len() == 8 && "platform"@[0] == 'p');
        assert("region"@.len() == 6 && "region"@[0] == 'r');
        assert("emulated"@.len() == 8 && "emulated"@[0] == 'e' && "emulated"@[1] == 'm');
        assert("status"@.len() == 6 && "status"@[0] == 's');
        assert("orderby"@.len() == 7);
        assert("direction"@.len() == 9);
    }

    /// The request is read back from its URL: the path and the query string
    /// are found again in the URL, and they give the fields that were set.
    /// The base URL must hold no `?`, which would cut the URL short.
    pub proof fn lemma_url_round_trip(self, base: Seq<char>)
        requires
            !base.contains('?'),
        ensures
            Self::from_url(self.url(base), base) == self,
    {
        let path = self.path();
        let query = encoded_pairs(self.pairs());
        reveal_strlit("/runs");
        lemma_url_parts(base, path, query);
        lemma_pairs_round_trip(self.pairs());
        self.lemma_fields_round_trip();
    }
}

/// Builds a [`Runs`] request.
#[derive(Clone, Debug)]
pub struct RunsBuilder {
    user: Option<String>,
    guest: Option<String>,
    examiner: Option<String>,
    game: Option<String>,
    level: Option<String>,
    category: Option<String>,
    platform: Option<String>,
    region: Option<String>,
    emulated: Option<bool>,
    status: Option<RunStatus>,
    orderby: Option<RunsSorting>,
    direction: Option<Direction>,
}

impl View for RunsBuilder {
    type V = RunsView;

    /// The fields that have been set.
    closed spec fn view(&self) -> RunsView {
        RunsView {
            user: text_view(self.user),
            guest: text_view(self.guest),
            examiner: text_view(self.examiner),
            game: text_view(self.game),
            level: text_view(self.level),
            category: text_view(self.category),
            platform: text_view(self.platform),
            region: text_view(self.region),
            emulated: self.emulated,
            status: self.status,
            orderby: self.orderby,
            direction: self.direction,
        }
    }
}

impl Default for RunsBuilder {
    /// A builder with no field set.
    fn default() -> (builder: RunsBuilder)
        ensures
            builder@ == RunsView::unset(),
    {
        RunsBuilder {
            user: None,
            guest: None,
            examiner: None,
            game: None,
            level: None,
            category: None,
            platform: None,
            region: None,
            emulated: None,
            status: None,
            orderby: None,
            direction: None,
        }
    }
}

impl RunsBuilder {
    /// Asks for the runs of this user, given by their id.
    pub fn user(&mut self, value: &str) -> (builder: &mut Self)
        ensures
            *final(self) == *final(builder),
            builder@ == (RunsView { user: Some(value@), ..old(self)@ }),
    {
        self.user = Some(String::from_str(value));
        self
    }

    /// Asks for the runs of this guest, given by name.
    pub fn guest(&mut self, value: &str) -> (builder: &mut Self)
        ensures
            *final(self) == *final(builder),
            builder@ == (RunsView { guest: Some(value@), ..old(self)@ }),
    {
        self.guest = Some(String::from_str(value));
        self
    }

    /// Asks for the runs examined by this user, given by their id.
    pub fn examiner(&mut self, value: &str) -> (builder: &mut Self)
        ensures
            *final(self) == *final(builder),
            builder@ == (RunsView { examiner: Some(value@), ..old(self)@ }),
    {
        self.examiner = Some(String::from_str(value));
        self
    }

    /// Asks for the runs of this game, given by its id.
    pub fn game(&mut self, value: &str) -> (builder: &mut Self)
        ensures
            *final(self) == *final(builder),
            builder@ == (RunsView { game: Some(value@), ..old(self)@ }),
    {
        self.game = Some(String::from_str(value));
        self
    }

    /// Asks for the runs of this level, given by its id.
    pub fn level(&mut self, value: &str) -> (builder: &mut Self)
        ensures
            *final(self) == *final(builder),
            builder@ == (RunsView { level: Some(value@), ..old(self)@ }),
    {
        self.level = Some(String::from_str(value));
        self
    }

    /// Asks for the runs of this category, given by its id.
    pub fn category(&mut self, value: &str) -> (builder: &mut Self)
        ensures
            *final(self) == *final(builder),
            builder@ == (RunsView { category: Some(value@), ..old(self)@ }),
    {
        self.category = Some(String::from_str(value));
        self
    }

    /// Asks for the runs on this platform, given by its id.
    pub fn platform(&mut self, value: &str) -> (builder: &mut Self)
        ensures
            *final(self) == *final(builder),
            builder@ == (RunsView { platform: Some(value@), ..old(self)@ }),
    {
        self.platform = Some(String::from_str(value));
        self
    }

    /// Asks for the runs of this region, given by its id.
    pub fn region(&mut self, value: &str) -> (builder: &mut Self)
        ensures
            *final(self) == *final(builder),
            builder@ == (RunsView { region: Some(value@), ..old(self)@ }),
    {
        self.region = Some(String::from_str(value));
        self
    }

    /// Asks for the runs done on an emulator, or for those that were not.
    pub fn emulated(&mut self, value: bool) -> (builder: &mut Self)
        ensures
            *final(self) == *final(builder),
            builder@ == (RunsView { emulated: Some(value), ..old(self)@ }),
    {
        self.emulated = Some(value);
        self
    }

    /// Asks for the runs with this status.
    pub fn status(&mut self, value: RunStatus) -> (builder: &mut Self)
        ensures
            *final(self) == *final(builder),
            builder@ == (RunsView { status: Some(value), ..old(self)@ }),
    {
        self.status = Some(value);
        self
    }

    /// Sets what the runs are sorted by.
    pub fn orderby(&mut self, value: RunsSorting) -> (builder: &mut Self)
        ensures
            *final(self) == *final(builder),
            builder@ == (RunsView { orderby: Some(value), ..old(self)@ }),
    {
        self.orderby = Some(value);
        self
    }

    /// Sets the direction in which the runs are sorted.
    pub fn direction(&mut self, value: Direction) -> (builder: &mut Self)
        ensures
            *final(self) == *final(builder),
            builder@ == (RunsView { direction: Some(value), ..old(self)@ }),
    {
        self.direction = Some(value);
        self
    }

    /// Builds the request. A field that has not been set is left unset.
    pub fn build(&self) -> (request: Result<Runs, BuilderError>)
        ensures
            request matches Ok(r) && r@ == self@,
    {
        Ok(
            Runs {
                user: copy_text(&self.user),
                guest: copy_text(&self.guest),
                examiner: copy_text(&self.examiner),
                game: copy_text(&self.game),
                level: copy_text(&self.level),
                category: copy_text(&self.category),
                platform: copy_text(&self.platform),
                region: copy_text(&self.region),
                emulated: self.emulated,
                status: self.status,
                orderby: self.orderby,
                direction: self.direction,
            },
        )
    }
}

impl Runs {
    /// A builder with no field set.
    pub fn builder() -> (builder: RunsBuilder)
        ensures
            builder@ == RunsView::unset(),
    {
        RunsBuilder::default()
    }
}

impl Default for Runs {
    /// The request with no field set.
    fn default() -> (request: Runs)
        ensures
            request@ == RunsView::unset(),
    {
        Runs {
            user: None,
            guest: None,
            examiner: None,
            game: None,
            level: None,
            category: None,
            platform: None,
            region: None,
            emulated: None,
            status: None,
            orderby: None,
            direction: None,
        }
    }
}

impl Endpoint for Runs {
    fn method(&self) -> (method: Method)
        ensures
            method == Method::Get,
    {
        Method::Get
    }

    fn endpoint_path(&self) -> (path: String)
        ensures
            path@ == self@.path(),
    {
        String::from_str("/runs")
    }

    fn query_parameters(&self) -> (query: Result<String, BodyError>)
        ensures
            query matches Ok(text) && text@ == encoded_pairs(self@.pairs()),
    {
        let mut pairs: Vec<Pair> = Vec::new();
        push_text(&mut pairs, "user", &self.user);
        push_text(&mut pairs, "guest", &self.guest);
        push_text(&mut pairs, "examiner", &self.examiner);
        push_text(&mut pairs, "game", &self.game);
        push_text(&mut pairs, "level", &self.level);
        push_text(&mut pairs, "category", &self.category);
        push_text(&mut pairs, "platform", &self.platform);
        push_text(&mut pairs, "region", &self.region);
        push_flag(&mut pairs, "emulated", self.emulated);
        push_keyword(&mut pairs, "status", self.status);
        push_keyword(&mut pairs, "orderby", self.orderby);
        push_keyword(&mut pairs, "direction", self.direction);
        encode_pairs(&pairs)
    }

    fn body(&self) -> (body: Result<Option<Body>, BodyError>)
        ensures
            body matches Ok(None),
    {
        Ok(None)
    }
}

impl Pageable for Runs {}

/// Asks for one run by its id.
#[derive(Clone, Debug)]
pub struct Run {
    id: String,
}

/// What a [`Run`] request holds.
pub struct RunView {
    pub id: Seq<char>,
}

impl View for Run {
    type V = RunView;

    closed spec fn view(&self) -> RunView {
        RunView {
            id: self.id@,
        }
    }
}

impl RunView {
    /// An empty id.
    pub open spec fn unset() -> RunView {
        RunView { id: Seq::empty() }
    }

    /// The path of the request.
    pub open spec fn path(self) -> Seq<char> {
        "/runs/"@ + self.id
    }

    /// The id that a path of such a request holds.
    pub open spec fn id_of(path: Seq<char>) -> Seq<char> {
        path.subrange("/runs/"@.len() as int, path.len() as int)
    }

    /// The request that a URL under the base URL `base` stands for.
    pub open spec fn from_url(url: Seq<char>, base: Seq<char>) -> RunView {
        RunView { id: Self::id_of(url_path(url, base)) }
    }

    /// The URL of the request under the base URL `base`.
    pub open spec fn url(self, base: Seq<char>) -> Seq<char> {
        request_url(base, self.path(), Seq::empty())
    }

    /// The request is read back from its URL: the path and the query string
    /// are found again in the URL, and they give the fields that were set.
    /// The base URL and the id must hold no `?`, which would cut the URL short.
    pub proof fn lemma_url_round_trip(self, base: Seq<char>)
        requires
            !base.contains('?'),
            !self.id.contains('?'),
        ensures
            Self::from_url(self.url(base), base) == self,
    {
        let path = self.path();
        let query = Seq::<char>::empty();
        reveal_strlit("/runs/");
        lemma_url_path(base, path, query);
        lemma_between("/runs/"@, self.id, Seq::empty());
    }
}

/// Builds a [`Run`] request.
#[derive(Clone, Debug)]
pub struct RunBuilder {
    id: Option<String>,
}

/// What a [`RunBuilder`] holds: the fields that have been set.
pub struct RunBuilderView {
    pub id: Option<Seq<char>>,
}

impl RunBuilderView {
    /// No field set.
    pub open spec fn unset() -> RunBuilderView {
        RunBuilderView { id: None }
    }
}

impl View for RunBuilder {
    type V = RunBuilderView;

    closed spec fn view(&self) -> RunBuilderView {
        RunBuilderView {
            id: text_view(self.id),
        }
    }
}

impl Default for RunBuilder {
    /// A builder with no field set.
    fn default() -> (builder: RunBuilder)
        ensures
            builder@ == RunBuilderView::unset(),
    {
        RunBuilder { id: None }
    }
}

impl RunBuilder {
    /// Sets the id of the run.
    pub fn id(&mut self, value: &str) -> (builder: &mut Self)
        ensures
            *final(self) == *final(builder),
            builder@ == (RunBuilderView { id: Some(value@), ..old(self)@ }),
    {
        self.id = Some(String::from_str(value));
        self
    }

    /// Builds the request. The id is required: without it the build fails
    /// and names the field.
    pub fn build(&self) -> (request: Result<Run, BuilderError>)
        ensures
            match request {
                Ok(r) => self@.id == Some(r@.id),
                Err(e) => self@.id is None && e == BuilderError::UninitializedField("id"),
            },
    {
        match &self.id {
            Some(id) => Ok(Run { id: id.clone() }),
            None => Err(BuilderError::UninitializedField("id")),
        }
    }
}

impl Run {
    /// A builder with no field set.
    pub fn builder() -> (builder: RunBuilder)
        ensures
            builder@ == RunBuilderView::unset(),
    {
        RunBuilder::default()
    }
}

impl Default for Run {
    /// The request with an empty id.
    fn default() -> (request: Run)
        ensures
            request@ == RunView::unset(),
    {
        Run { id: String::new() }
    }
}

impl Endpoint for Run {
    fn method(&self) -> (method: Method)
        ensures
            method == Method::Get,
    {
        Method::Get
    }

    fn endpoint_path(&self) -> (path: String)
        ensures
            path@ == self@.path(),
    {
        let mut path = String::from_str("/runs/");
        path.append(self.id.as_str());
        path
    }

    fn query_parameters(&self) -> (query: Result<String, BodyError>)
        ensures
            query matches Ok(text) && text@ == Seq::<char>::empty(),
    {
        Ok(String::new())
    }

    fn body(&self) -> (body: Result<Option<Body>, BodyError>)
        ensures
            body matches Ok(None),
    {
        Ok(None)
    }
}

impl RunEmbeds {
    /// The place of the option among the options, counted from 0: the order
    /// in which a set of them is written.
    pub open spec fn place(self) -> u8 {
        match self {
            RunEmbeds::Game => 0,
            RunEmbeds::Category => 1,
            RunEmbeds::Level => 2,
            RunEmbeds::Players => 3,
            RunEmbeds::Region => 4,
            RunEmbeds::Platform => 5,
        }
    }

    /// The place of the option among the options, counted from 0.
    pub fn ordinal(&self) -> (place: u8)
        ensures
            place == self.place(),
    {
        match self {
            RunEmbeds::Game => 0,
            RunEmbeds::Category => 1,
            RunEmbeds::Level => 2,
            RunEmbeds::Players => 3,
            RunEmbeds::Region => 4,
            RunEmbeds::Platform => 5,
        }
    }
}

/// A set of [`RunEmbeds`], kept as the ordered set of their places.
#[derive(Debug, PartialEq, Eq)]
pub struct RunEmbedSet {
    places: BTreeSet<u8>,
}

/// The word of `embed` where the set holds it, and nothing where it does
/// not.
pub open spec fn word_if(set: Set<RunEmbeds>, embed: RunEmbeds) -> Seq<Seq<char>> {
    if set.contains(embed) {
        seq![embed.word()]
    } else {
        Seq::empty()
    }
}

/// The words of the members of a set, in the order in which the options are
/// declared.
pub open spec fn embed_words(set: Set<RunEmbeds>) -> Seq<Seq<char>> {
    word_if(set, RunEmbeds::Game) + word_if(set, RunEmbeds::Category) + word_if(
        set,
        RunEmbeds::Level,
    ) + word_if(set, RunEmbeds::Players) + word_if(set, RunEmbeds::Region) + word_if(
        set,
        RunEmbeds::Platform,
    )
}

/// How a set is written as the value of a parameter: the words of its
/// members with commas between them. An empty set is not written.
pub open spec fn embed_text(set: Set<RunEmbeds>) -> Option<Seq<char>> {
    if embed_words(set).len() == 0 {
        None
    } else {
        Some(joined(embed_words(set), ','))
    }
}

impl RunEmbedSet {
    /// The empty set.
    pub fn new() -> (set: RunEmbedSet)
        ensures
            set@ == Set::<RunEmbeds>::empty(),
    {
        let set = RunEmbedSet { places: BTreeSet::new() };
        assert(set@ =~= Set::<RunEmbeds>::empty());
        set
    }

    /// Adds `embed` to the set.
    pub fn insert(&mut self, embed: RunEmbeds)
        ensures
            final(self)@ == old(self)@.insert(embed),
    {
        broadcast use {vstd::laws_cmp::group_laws_cmp, vstd::std_specs::btree::group_btree_axioms};

        self.places.insert(embed.ordinal());
        assert(self@ =~= old(self)@.insert(embed));
    }

    /// Whether the set holds `embed`.
    pub fn contains(&self, embed: RunEmbeds) -> (held: bool)
        ensures
            held == self@.contains(embed),
    {
        broadcast use {vstd::laws_cmp::group_laws_cmp, vstd::std_specs::btree::group_btree_axioms};

        let place = embed.ordinal();
        self.places.contains(&place)
    }

    /// The set as the value of a parameter.
    pub fn to_text(&self) -> (text: Option<String>)
        ensures
            text_view(text) == embed_text(self@),
    {
        let mut words: Vec<&'static str> = Vec::new();
        if self.contains(RunEmbeds::Game) {
            words.push(RunEmbeds::Game.as_str());
        }
        if self.contains(RunEmbeds::Category) {
            words.push(RunEmbeds::Category.as_str());
        }
        if self.contains(RunEmbeds::Level) {
            words.push(RunEmbeds::Level.as_str());
        }
        if self.contains(RunEmbeds::Players) {
            words.push(RunEmbeds::Players.as_str());
        }
        if self.contains(RunEmbeds::Region) {
            words.push(RunEmbeds::Region.as_str());
        }
        if self.contains(RunEmbeds::Platform) {
            words.push(RunEmbeds::Platform.as_str());
        }
        assert(word_views(words@) =~= embed_words(self@));
        if words.len() == 0 {
            None
        } else {
            Some(join_with_commas(&words))
        }
    }
}

impl View for RunEmbedSet {
    type V = Set<RunEmbeds>;

    closed spec fn view(&self) -> Set<RunEmbeds> {
        Set::new(|embed: RunEmbeds| self.places@.contains(embed.place()))
    }
}

impl Clone for RunEmbedSet {
    fn clone(&self) -> (copy: RunEmbedSet)
        ensures
            copy@ == self@,
    {
        RunEmbedSet { places: self.places.clone() }
    }
}

impl Default for RunEmbedSet {
    /// The empty set.
    fn default() -> (set: RunEmbedSet)
        ensures
            set@ == Set::<RunEmbeds>::empty(),
    {
        RunEmbedSet::new()
    }
}

/// The set that the value of a parameter stands for: the options whose words
/// stand between its commas; the empty set where there is no value.
pub open spec fn embeds_read(text: Option<Seq<char>>) -> Set<RunEmbeds> {
    match text {
        Some(t) => Set::new(|embed: RunEmbeds| split(t, ',').contains(embed.word())),
        None => Set::empty(),
    }
}

/// A word is among two lists of words, one after the other, where it is
/// among the first or among the second.
pub proof fn lemma_contains_concat(first: Seq<Seq<char>>, second: Seq<Seq<char>>, word: Seq<char>)
    ensures
        (first + second).contains(word) <==> first.contains(word) || second.contains(word),
{
    let all = first + second;
    if first.contains(word) {
        let k = choose|k: int| 0 <= k < first.len() && first[k] == word;
        assert(all[k] == word);
    }
    if second.contains(word) {
        let k = choose|k: int| 0 <= k < second.len() && second[k] == word;
        assert(all[first.len() + k] == word);
    }
}

/// No word of an option holds a comma.
pub proof fn lemma_words_without_comma(embed: RunEmbeds)
    ensures
        !embed.word().contains(','),
{
    reveal_strlit("game");
    reveal_strlit("category");
    reveal_strlit("level");
    reveal_strlit("players");
    reveal_strlit("region");
    reveal_strlit("platform");
}

/// A word is among the words of a set exactly where it is the word of a
/// member.
pub proof fn lemma_embed_words(set: Set<RunEmbeds>, word: Seq<char>)
    ensures
        embed_words(set).contains(word) <==> exists|embed: RunEmbeds|
            set.contains(embed) && #[trigger] embed.word() == word,
{
    let a = word_if(set, RunEmbeds::Game);
    let b = word_if(set, RunEmbeds::Category);
    let c = word_if(set, RunEmbeds::Level);
    let d = word_if(set, RunEmbeds::Players);
    let e = word_if(set, RunEmbeds::Region);
    let f = word_if(set, RunEmbeds::Platform);
    lemma_contains_concat(a, b, word);
    lemma_contains_concat(a + b, c, word);
    lemma_contains_concat(a + b + c, d, word);
    lemma_contains_concat(a + b + c + d, e, word);
    lemma_contains_concat(a + b + c + d + e, f, word);
    assert forall|embed: RunEmbeds| #[trigger]
        word_if(set, embed).contains(word) <==> set.contains(embed) && embed.word() == word by {
        if set.contains(embed) {
            assert(word_if(set, embed)[0] == embed.word());
        }
    }
    if embed_words(set).contains(word) {
        let embed = if a.contains(word) {
            RunEmbeds::Game
        } else if b.contains(word) {
            RunEmbeds::Category
        } else if c.contains(word) {
            RunEmbeds::Level
        } else if d.contains(word) {
            RunEmbeds::Players
        } else if e.contains(word) {
            RunEmbeds::Region
        } else {
            RunEmbeds::Platform
        };
        assert(word_if(set, embed).contains(word));
        assert(set.contains(embed) && embed.word() == word);
    }
    if exists|embed: RunEmbeds| set.contains(embed) && #[trigger] embed.word() == word {
        let embed = choose|embed: RunEmbeds| set.contains(embed) && #[trigger] embed.word() == word;
        assert(word_if(set, embed).contains(word));
        match embed {
            RunEmbeds::Game => {},
            RunEmbeds::Category => {},
            RunEmbeds::Level => {},
            RunEmbeds::Players => {},
            RunEmbeds::Region => {},
            RunEmbeds::Platform => {},
        }
    }
}

/// A set is read back from the text it is written as.
pub proof fn lemma_embeds_read(set: Set<RunEmbeds>)
    ensures
        embeds_read(embed_text(set)) == set,
{
    let words = embed_words(set);
    assert forall|embed: RunEmbeds| embeds_read(embed_text(set)).contains(embed)
        == set.contains(embed) by {
        lemma_embed_words(set, embed.word());
        if words.len() == 0 {
            assert(!words.contains(embed.word()));
        } else {
            assert forall|i: int| 0 <= i < words.len() implies !(#[trigger] words[i]).contains(
                ',',
            ) by {
                assert(words.contains(words[i]));
                lemma_embed_words(set, words[i]);
                let member = choose|member: RunEmbeds|
                    set.contains(member) && #[trigger] member.word() == words[i];
                lemma_words_without_comma(member);
            }
            lemma_split_joined(words, ',');
            if words.contains(embed.word()) {
                let member = choose|member: RunEmbeds|
                    set.contains(member) && #[trigger] member.word() == embed.word();
                member.lemma_word_round_trip();
                embed.lemma_word_round_trip();
            }
        }
    }
    assert(embeds_read(embed_text(set)) =~= set);
}

/// A player of a run: a registered user, or a guest known by name.
#[derive(Debug, PartialEq, Eq)]
pub enum Player {
    User { id: String },
    Guest { name: String },
}

pub enum PlayerView {
    User { id: Seq<char> },
    Guest { name: Seq<char> },
}

impl View for Player {
    type V = PlayerView;

    open spec fn view(&self) -> PlayerView {
        match self {
            Player::User { id } => PlayerView::User { id: id@ },
            Player::Guest { name } => PlayerView::Guest { name: name@ },
        }
    }
}

impl PlayerView {
    /// The player as a JSON value: an object that names the kind of player
    /// under `rel`, then the id or the name.
    pub open spec fn json(self) -> JsonView {
        match self {
            PlayerView::User { id } => JsonView::Object(
                seq![("rel"@, JsonView::Text("user"@)), ("id"@, JsonView::Text(id))],
            ),
            PlayerView::Guest { name } => JsonView::Object(
                seq![("rel"@, JsonView::Text("guest"@)), ("name"@, JsonView::Text(name))],
            ),
        }
    }
}

impl Clone for Player {
    fn clone(&self) -> (copy: Player)
        ensures
            copy@ == self@,
    {
        match self {
            Player::User { id } => Player::User { id: id.clone() },
            Player::Guest { name } => Player::Guest { name: name.clone() },
        }
    }
}

impl Player {
    /// The player as a JSON value.
    pub fn to_json(&self) -> (value: Json)
        ensures
            value@ == self@.json(),
    {
        let mut members: Vec<(String, Json)> = Vec::new();
        match self {
            Player::User { id } => {
                members.push((String::from_str("rel"), Json::text("user")));
                members.push((String::from_str("id"), Json::text(id.as_str())));
            },
            Player::Guest { name } => {
                members.push((String::from_str("rel"), Json::text("guest")));
                members.push((String::from_str("name"), Json::text(name.as_str())));
            },
        }
        assert(member_views(members@) =~= self@.json()->Object_0);
        Json::object(members)
    }
}

/// The views of a list of players.
pub open spec fn player_views(players: Seq<Player>) -> Seq<PlayerView> {
    Seq::new(players.len(), |i: int| players[i]@)
}

/// A list of players as JSON values.
pub open spec fn players_json(players: Seq<PlayerView>) -> Seq<JsonView> {
    Seq::new(players.len(), |i: int| players[i].json())
}

fn copy_players(players: &Vec<Player>) -> (copy: Vec<Player>)
    ensures
        player_views(copy@) == player_views(players@),
{
    let mut copy: Vec<Player> = Vec::new();
    let mut i: usize = 0;
    while i < players.len()
        invariant
            0 <= i <= players.len(),
            copy@.len() == i,
            forall|k: int| 0 <= k < i ==> copy@[k]@ == players@[k]@,
        decreases players.len() - i,
    {
        copy.push(players[i].clone());
        i += 1;
    }
    copy
}

/// The value of a variable of a run: one of the values that the game
/// defines, or one that the runner made up.
#[derive(Debug, PartialEq, Eq)]
pub enum VariableType {
    PreDefined { value: String },
    UserDefined { value: String },
}

pub enum VariableTypeView {
    PreDefined { value: Seq<char> },
    UserDefined { value: Seq<char> },
}

impl View for VariableType {
    type V = VariableTypeView;

    open spec fn view(&self) -> VariableTypeView {
        match self {
            VariableType::PreDefined { value } => VariableTypeView::PreDefined { value: value@ },
            VariableType::UserDefined { value } => VariableTypeView::UserDefined { value: value@ },
        }
    }
}

impl VariableTypeView {
    /// The value as a JSON value: an object with one member, named after the
    /// kind of value, that holds the value under `value`.
    pub open spec fn json(self) -> JsonView {
        match self {
            VariableTypeView::PreDefined { value } => JsonView::Object(
                seq![("pre-defined"@, JsonView::Object(seq![("value"@, JsonView::Text(value))]))],
            ),
            VariableTypeView::UserDefined { value } => JsonView::Object(
                seq![("user-defined"@, JsonView::Object(seq![("value"@, JsonView::Text(value))]))],
            ),
        }
    }
}

impl Clone for VariableType {
    fn clone(&self) -> (copy: VariableType)
        ensures
            copy@ == self@,
    {
        match self {
            VariableType::PreDefined { value } => VariableType::PreDefined { value: value.clone() },
            VariableType::UserDefined { value } => VariableType::UserDefined {
                value: value.clone(),
            },
        }
    }
}

impl VariableType {
    /// The value as a JSON value.
    pub fn to_json(&self) -> (json: Json)
        ensures
            json@ == self@.json(),
    {
        let (kind, value) = match self {
            VariableType::PreDefined { value } => ("pre-defined", value),
            VariableType::UserDefined { value } => ("user-defined", value),
        };
        let mut inner: Vec<(String, Json)> = Vec::new();
        inner.push((String::from_str("value"), Json::text(value.as_str())));
        assert(member_views(inner@) =~= seq![("value"@, JsonView::Text(value@))]);
        let mut members: Vec<(String, Json)> = Vec::new();
        members.push((String::from_str(kind), Json::object(inner)));
        assert(member_views(members@) =~= self@.json()->Object_0);
        Json::object(members)
    }
}

/// The status that a run is given.
#[derive(Debug, PartialEq, Eq)]
pub enum NewStatus {
    Verified,
    Rejected { reason: String },
}

pub enum NewStatusView {
    Verified,
    Rejected { reason: Seq<char> },
}

impl View for NewStatus {
    type V = NewStatusView;

    open spec fn view(&self) -> NewStatusView {
        match self {
            NewStatus::Verified => NewStatusView::Verified,
            NewStatus::Rejected { reason } => NewStatusView::Rejected { reason: reason@ },
        }
    }
}

impl NewStatusView {
    /// The status as a JSON value: an object that names the status under
    /// `status` and, for a rejection, gives the reason under `reason`.
    pub open spec fn json(self) -> JsonView {
        match self {
            NewStatusView::Verified => JsonView::Object(
                seq![("status"@, JsonView::Text("verified"@))],
            ),
            NewStatusView::Rejected { reason } => JsonView::Object(
                seq![("status"@, JsonView::Text("rejected"@)), ("reason"@, JsonView::Text(reason))],
            ),
        }
    }
}

impl Clone for NewStatus {
    fn clone(&self) -> (copy: NewStatus)
        ensures
            copy@ == self@,
    {
        match self {
            NewStatus::Verified => NewStatus::Verified,
            NewStatus::Rejected { reason } => NewStatus::Rejected { reason: reason.clone() },
        }
    }
}

impl NewStatus {
    /// The status as a JSON value.
    pub fn to_json(&self) -> (value: Json)
        ensures
            value@ == self@.json(),
    {
        let mut members: Vec<(String, Json)> = Vec::new();
        match self {
            NewStatus::Verified => {
                members.push((String::from_str("status"), Json::text("verified")));
            },
            NewStatus::Rejected { reason } => {
                members.push((String::from_str("status"), Json::text("rejected")));
                members.push((String::from_str("reason"), Json::text(reason.as_str())));
            },
        }
        assert(member_views(members@) =~= self@.json()->Object_0);
        Json::object(members)
    }
}

/// The view of an optional status.
pub open spec fn status_view(status: Option<NewStatus>) -> Option<NewStatusView> {
    match status {
        Some(s) => Some(s@),
        None => None,
    }
}

/// Gives a run a new status: verified, or rejected for a reason.
#[derive(Clone, Debug)]
pub struct UpdateRunStatus {
    id: String,
    status: NewStatus,
}

/// What an [`UpdateRunStatus`] request holds.
pub struct UpdateRunStatusView {
    pub id: Seq<char>,
    pub status: NewStatusView,
}

impl UpdateRunStatusView {
    /// The path of the request.
    pub open spec fn path(self) -> Seq<char> {
        "/runs/"@ + self.id + "/status"@
    }

    /// The id that a path of such a request holds.
    pub open spec fn id_of(path: Seq<char>) -> Seq<char> {
        path.subrange("/runs/"@.len() as int, path.len() - "/status"@.len())
    }

    /// The URL of the request under the base URL `base`.
    pub open spec fn url(self, base: Seq<char>) -> Seq<char> {
        request_url(base, self.path(), Seq::empty())
    }

    /// The id of the run is read back from the URL of the request. The base
    /// URL and the id must hold no `?`, which would cut the URL short.
    pub proof fn lemma_url_round_trip(self, base: Seq<char>)
        requires
            !base.contains('?'),
            !self.id.contains('?'),
        ensures
            Self::id_of(url_path(self.url(base), base)) == self.id,
    {
        let path = self.path();
        let query = Seq::<char>::empty();
        reveal_strlit("/runs/");
        reveal_strlit("/status");
        lemma_url_path(base, path, query);
    }

    /// The body of the request: an object that holds the status under
    /// `status`. The id is not part of it.
    pub open spec fn json(self) -> JsonView {
        JsonView::Object(seq![("status"@, self.status.json())])
    }

    /// The body is nested less deeply than the writer lets a value be, and
    /// holds no number: writing it fails only where `serde_json` reports an
    /// error.
    pub proof fn lemma_body_nesting(self)
        ensures
            written(self.json()) == json_written(self.json()),
    {
        reveal_with_fuel(nests_within, 4);
        reveal_with_fuel(writable, 4);
    }
}

impl View for UpdateRunStatus {
    type V = UpdateRunStatusView;

    closed spec fn view(&self) -> UpdateRunStatusView {
        UpdateRunStatusView { id: self.id@, status: self.status@ }
    }
}

/// Builds an [`UpdateRunStatus`] request.
#[derive(Clone, Debug)]
pub struct UpdateRunStatusBuilder {
    id: Option<String>,
    status: Option<NewStatus>,
}

/// What an [`UpdateRunStatusBuilder`] holds: the fields that have been set.
pub struct UpdateRunStatusBuilderView {
    pub id: Option<Seq<char>>,
    pub status: Option<NewStatusView>,
}

impl UpdateRunStatusBuilderView {
    /// No field set.
    pub open spec fn unset() -> UpdateRunStatusBuilderView {
        UpdateRunStatusBuilderView { id: None, status: None }
    }
}

impl View for UpdateRunStatusBuilder {
    type V = UpdateRunStatusBuilderView;

    closed spec fn view(&self) -> UpdateRunStatusBuilderView {
        UpdateRunStatusBuilderView { id: text_view(self.id), status: status_view(self.status) }
    }
}

impl Default for UpdateRunStatusBuilder {
    /// A builder with no field set.
    fn default() -> (builder: UpdateRunStatusBuilder)
        ensures
            builder@ == UpdateRunStatusBuilderView::unset(),
    {
        UpdateRunStatusBuilder { id: None, status: None }
    }
}

impl UpdateRunStatusBuilder {
    /// Sets the id of the run.
    pub fn id(&mut self, value: &str) -> (builder: &mut Self)
        ensures
            *final(self) == *final(builder),
            builder@ == (UpdateRunStatusBuilderView { id: Some(value@), ..old(self)@ }),
    {
        self.id = Some(String::from_str(value));
        self
    }

    /// Sets the status that the run is given.
    pub fn status(&mut self, value: NewStatus) -> (builder: &mut Self)
        ensures
            *final(self) == *final(builder),
            builder@ == (UpdateRunStatusBuilderView { status: Some(value@), ..old(self)@ }),
    {
        self.status = Some(value);
        self
    }

    /// Builds the request. The id and the status are required: without one of
    /// them the build fails and names the first that is missing.
    pub fn build(&self) -> (request: Result<UpdateRunStatus, BuilderError>)
        ensures
            match request {
                Ok(r) => self@.id == Some(r@.id) && self@.status == Some(r@.status),
                Err(e) => if self@.id is None {
                    e == BuilderError::UninitializedField("id")
                } else {
                    self@.status is None && e == BuilderError::UninitializedField("status")
                },
            },
    {
        let id = match &self.id {
            Some(id) => id.clone(),
            None => {
                return Err(BuilderError::UninitializedField("id"));
            },
        };
        let status = match &self.status {
            Some(status) => status.clone(),
            None => {
                return Err(BuilderError::UninitializedField("status"));
            },
        };
        Ok(UpdateRunStatus { id, status })
    }
}

impl UpdateRunStatus {
    /// A builder with no field set.
    pub fn builder() -> (builder: UpdateRunStatusBuilder)
        ensures
            builder@ == UpdateRunStatusBuilderView::unset(),
    {
        UpdateRunStatusBuilder::default()
    }
}

impl Endpoint for UpdateRunStatus {
    fn method(&self) -> (method: Method)
        ensures
            method == Method::Put,
    {
        Method::Put
    }

    fn endpoint_path(&self) -> (path: String)
        ensures
            path@ == self@.path(),
    {
        let mut path = String::from_str("/runs/");
        path.append(self.id.as_str());
        path.append("/status");
        path
    }

    fn query_parameters(&self) -> (query: Result<String, BodyError>)
        ensures
            query matches Ok(text) && text@ == Seq::<char>::empty(),
    {
        Ok(String::new())
    }

    fn body(&self) -> (body: Result<Option<Body>, BodyError>)
        ensures
            writes_json_body(self@.json(), body),
    {
        let mut members: Vec<(String, Json)> = Vec::new();
        members.push((String::from_str("status"), self.status.to_json()));
        assert(member_views(members@) =~= self@.json()->Object_0);
        write_json_body(&Json::object(members))
    }
}

/// Sets the players of a run.
#[derive(Clone, Debug)]
pub struct UpdateRunPlayers {
    id: String,
    players: Vec<Player>,
}

/// What an [`UpdateRunPlayers`] request holds.
pub struct UpdateRunPlayersView {
    pub id: Seq<char>,
    pub players: Seq<PlayerView>,
}

impl UpdateRunPlayersView {
    /// The path of the request.
    pub open spec fn path(self) -> Seq<char> {
        "/runs/"@ + self.id + "/players"@
    }

    /// The id that a path of such a request holds.
    pub open spec fn id_of(path: Seq<char>) -> Seq<char> {
        path.subrange("/runs/"@.len() as int, path.len() - "/players"@.len())
    }

    /// The URL of the request under the base URL `base`.
    pub open spec fn url(self, base: Seq<char>) -> Seq<char> {
        request_url(base, self.path(), Seq::empty())
    }

    /// The id of the run is read back from the URL of the request. The base
    /// URL and the id must hold no `?`, which would cut the URL short.
    pub proof fn lemma_url_round_trip(self, base: Seq<char>)
        requires
            !base.contains('?'),
            !self.id.contains('?'),
        ensures
            Self::id_of(url_path(self.url(base), base)) == self.id,
    {
        let path = self.path();
        let query = Seq::<char>::empty();
        reveal_strlit("/runs/");
        reveal_strlit("/players");
        lemma_url_path(base, path, query);
    }

    /// The body of the request: an object that holds the players, in order,
    /// under `players`. The id is not part of it.
    pub open spec fn json(self) -> JsonView {
        JsonView::Object(seq![("players"@, JsonView::Array(players_json(self.players)))])
    }

    /// The body is nested less deeply than the writer lets a value be, and
    /// holds no number: writing it fails only where `serde_json` reports an
    /// error.
    pub proof fn lemma_body_nesting(self)
        ensures
            written(self.json()) == json_written(self.json()),
    {
        reveal_with_fuel(nests_within, 4);
        reveal_with_fuel(writable, 4);
    }
}

impl View for UpdateRunPlayers {
    type V = UpdateRunPlayersView;

    closed spec fn view(&self) -> UpdateRunPlayersView {
        UpdateRunPlayersView { id: self.id@, players: player_views(self.players@) }
    }
}

/// Builds an [`UpdateRunPlayers`] request.
#[derive(Clone, Debug)]
pub struct UpdateRunPlayersBuilder {
    id: Option<String>,
    players: Option<Vec<Player>>,
}

/// What an [`UpdateRunPlayersBuilder`] holds: the fields that have been set.
pub struct UpdateRunPlayersBuilderView {
    pub id: Option<Seq<char>>,
    pub players: Option<Seq<PlayerView>>,
}

impl UpdateRunPlayersBuilderView {
    /// No field set.
    pub open spec fn unset() -> UpdateRunPlayersBuilderView {
        UpdateRunPlayersBuilderView { id: None, players: None }
    }
}

impl View for UpdateRunPlayersBuilder {
    type V = UpdateRunPlayersBuilderView;

    closed spec fn view(&self) -> UpdateRunPlayersBuilderView {
        UpdateRunPlayersBuilderView {
            id: text_view(self.id),
            players: match self.players {
                Some(players) => Some(player_views(players@)),
                None => None,
            },
        }
    }
}

impl Default for UpdateRunPlayersBuilder {
    /// A builder with no field set.
    fn default() -> (builder: UpdateRunPlayersBuilder)
        ensures
            builder@ == UpdateRunPlayersBuilderView::unset(),
    {
        UpdateRunPlayersBuilder { id: None, players: None }
    }
}

impl UpdateRunPlayersBuilder {
    /// Sets the id of the run.
    pub fn id(&mut self, value: &str) -> (builder: &mut Self)
        ensures
            *final(self) == *final(builder),
            builder@ == (UpdateRunPlayersBuilderView { id: Some(value@), ..old(self)@ }),
    {
        self.id = Some(String::from_str(value));
        self
    }

    /// Sets the players of the run.
    pub fn players(&mut self, value: Vec<Player>) -> (builder: &mut Self)
        ensures
            *final(self) == *final(builder),
            builder@ == (UpdateRunPlayersBuilderView {
                players: Some(player_views(value@)),
                ..old(self)@
            }),
    {
        self.players = Some(value);
        self
    }

    /// Builds the request. The id and the players are required: without one
    /// of them the build fails and names the first that is missing.
    pub fn build(&self) -> (request: Result<UpdateRunPlayers, BuilderError>)
        ensures
            match request {
                Ok(r) => self@.id == Some(r@.id) && self@.players == Some(r@.players),
                Err(e) => if self@.id is None {
                    e == BuilderError::UninitializedField("id")
                } else {
                    self@.players is None && e == BuilderError::UninitializedField("players")
                },
            },
    {
        let id = match &self.id {
            Some(id) => id.clone(),
            None => {
                return Err(BuilderError::UninitializedField("id"));
            },
        };
        let players = match &self.players {
            Some(players) => copy_players(players),
            None => {
                return Err(BuilderError::UninitializedField("players"));
            },
        };
        Ok(UpdateRunPlayers { id, players })
    }
}

impl UpdateRunPlayers {
    /// A builder with no field set.
    pub fn builder() -> (builder: UpdateRunPlayersBuilder)
        ensures
            builder@ == UpdateRunPlayersBuilderView::unset(),
    {
        UpdateRunPlayersBuilder::default()
    }
}

impl Endpoint for UpdateRunPlayers {
    fn method(&self) -> (method: Method)
        ensures
            method == Method::Put,
    {
        Method::Put
    }

    fn endpoint_path(&self) -> (path: String)
        ensures
            path@ == self@.path(),
    {
        let mut path = String::from_str("/runs/");
        path.append(self.id.as_str());
        path.append("/players");
        path
    }

    fn query_parameters(&self) -> (query: Result<String, BodyError>)
        ensures
            query matches Ok(text) && text@ == Seq::<char>::empty(),
    {
        Ok(String::new())
    }

    fn body(&self) -> (body: Result<Option<Body>, BodyError>)
        ensures
            writes_json_body(self@.json(), body),
    {
        let mut listed: Vec<Json> = Vec::new();
        let mut i: usize = 0;
        while i < self.players.len()
            invariant
                0 <= i <= self.players.len(),
                listed@.len() == i,
                forall|k: int| 0 <= k < i ==> listed@[k]@ == self.players@[k]@.json(),
            decreases self.players.len() - i,
        {
            listed.push(self.players[i].to_json());
            i += 1;
        }
        assert(views(listed@) =~= players_json(self@.players));
        let mut members: Vec<(String, Json)> = Vec::new();
        members.push((String::from_str("players"), Json::array(listed)));
        assert(member_views(members@) =~= self@.json()->Object_0);
        write_json_body(&Json::object(members))
    }
}

/// Deletes a run.
#[derive(Clone, Debug)]
pub struct DeleteRun {
    id: String,
}

/// What a [`DeleteRun`] request holds.
pub struct DeleteRunView {
    pub id: Seq<char>,
}

impl View for DeleteRun {
    type V = DeleteRunView;

    closed spec fn view(&self) -> DeleteRunView {
        DeleteRunView {
            id: self.id@,
        }
    }
}

impl DeleteRunView {
    /// An empty id.
    pub open spec fn unset() -> DeleteRunView {
        DeleteRunView { id: Seq::empty() }
    }

    /// The path of the request.
    pub open spec fn path(self) -> Seq<char> {
        "/runs/"@ + self.id
    }

    /// The id that a path of such a request holds.
    pub open spec fn id_of(path: Seq<char>) -> Seq<char> {
        path.subrange("/runs/"@.len() as int, path.len() as int)
    }

    /// The request that a URL under the base URL `base` stands for.
    pub open spec fn from_url(url: Seq<char>, base: Seq<char>) -> DeleteRunView {
        DeleteRunView { id: Self::id_of(url_path(url, base)) }
    }

    /// The URL of the request under the base URL `base`.
    pub open spec fn url(self, base: Seq<char>) -> Seq<char> {
        request_url(base, self.path(), Seq::empty())
    }

    /// The request is read back from its URL: the path and the query string
    /// are found again in the URL, and they give the fields that were set.
    /// The base URL and the id must hold no `?`, which would cut the URL short.
    pub proof fn lemma_url_round_trip(self, base: Seq<char>)
        requires
            !base.contains('?'),
            !self.id.contains('?'),
        ensures
            Self::from_url(self.url(base), base) == self,
    {
        let path = self.path();
        let query = Seq::<char>::empty();
        reveal_strlit("/runs/");
        lemma_url_path(base, path, query);
        lemma_between("/runs/"@, self.id, Seq::empty());
    }
}

/// Builds a [`DeleteRun`] request.
#[derive(Clone, Debug)]
pub struct DeleteRunBuilder {
    id: Option<String>,
}

/// What a [`DeleteRunBuilder`] holds: the fields that have been set.
pub struct DeleteRunBuilderView {
    pub id: Option<Seq<char>>,
}

impl DeleteRunBuilderView {
    /// No field set.
    pub open spec fn unset() -> DeleteRunBuilderView {
        DeleteRunBuilderView { id: None }
    }
}

impl View for DeleteRunBuilder {
    type V = DeleteRunBuilderView;

    closed spec fn view(&self) -> DeleteRunBuilderView {
        DeleteRunBuilderView {
            id: text_view(self.id),
        }
    }
}

impl Default for DeleteRunBuilder {
    /// A builder with no field set.
    fn default() -> (builder: DeleteRunBuilder)
        ensures
            builder@ == DeleteRunBuilderView::unset(),
    {
        DeleteRunBuilder { id: None }
    }
}

impl DeleteRunBuilder {
    /// Sets the id of the run.
    pub fn id(&mut self, value: &str) -> (builder: &mut Self)
        ensures
            *final(self) == *final(builder),
            builder@ == (DeleteRunBuilderView { id: Some(value@), ..old(self)@ }),
    {
        self.id = Some(String::from_str(value));
        self
    }

    /// Builds the request. The id is required: without it the build fails
    /// and names the field.
    pub fn build(&self) -> (request: Result<DeleteRun, BuilderError>)
        ensures
            match request {
                Ok(r) => self@.id == Some(r@.id),
                Err(e) => self@.id is None && e == BuilderError::UninitializedField("id"),
            },
    {
        match &self.id {
            Some(id) => Ok(DeleteRun { id: id.clone() }),
            None => Err(BuilderError::UninitializedField("id")),
        }
    }
}

impl DeleteRun {
    /// A builder with no field set.
    pub fn builder() -> (builder: DeleteRunBuilder)
        ensures
            builder@ == DeleteRunBuilderView::unset(),
    {
        DeleteRunBuilder::default()
    }
}

impl Endpoint for DeleteRun {
    fn method(&self) -> (method: Method)
        ensures
            method == Method::Delete,
    {
        Method::Delete
    }

    fn endpoint_path(&self) -> (path: String)
        ensures
            path@ == self@.path(),
    {
        let mut path = String::from_str("/runs/");
        path.append(self.id.as_str());
        path
    }

    fn query_parameters(&self) -> (query: Result<String, BodyError>)
        ensures
            query matches Ok(text) && text@ == Seq::<char>::empty(),
    {
        Ok(String::new())
    }

    fn body(&self) -> (body: Result<Option<Body>, BodyError>)
        ensures
            body matches Ok(None),
    {
        Ok(None)
    }
}

} // verus!
