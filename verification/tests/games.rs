use speedrun_api::api::builder::BuilderError;
use speedrun_api::api::common::{CategoriesSorting, Direction, VariablesSorting};
use speedrun_api::api::endpoint::{Endpoint, Method};
use speedrun_api::api::form::Keyword;
use speedrun_api::api::games::{
    Game, GameCategories, GameDerivedGames, GameDerivedGamesBuilderError, GameLevels,
    GameRecords, GameVariables, Games, GamesSorting, LeaderboardScope, LevelsSorting,
};
use speedrun_api::api::query::assemble;

const BASE: &str = "https://www.speedrun.com/api/v1";

/// The pairs of a query string, read by the `url` crate.
fn pairs_of(url: &str) -> Vec<(String, String)> {
    let parsed = url::Url::parse(url).unwrap();
    parsed.query_pairs().map(|(k, v)| (k.into_owned(), v.into_owned())).collect()
}

fn pair(key: &str, value: &str) -> (String, String) {
    (key.to_string(), value.to_string())
}

#[test]
fn games_without_filters_has_an_empty_query() {
    let request = Games::builder().build().unwrap();
    assert_eq!(request.method(), Method::Get);
    assert_eq!(request.endpoint_path(), "games");
    assert_eq!(request.query_parameters(), Ok(String::new()));
    assert_eq!(request.body(), Ok(None));
    assert_eq!(assemble(&request, BASE).unwrap().url, format!("{}/games", BASE));
}

#[test]
fn games_writes_every_field_in_order() {
    let request = Games::builder()
        .name("Super Mario")
        .abbreviation("sm64")
        .released(1996)
        .gametype("gt")
        .platform("pf")
        .region("rg")
        .genre("gn")
        .engine("en")
        .developer("dv")
        .publisher("pb")
        .moderator("md")
        .bulk(true)
        .orderby(GamesSorting::NameInternational)
        .direction(Direction::Desc)
        .build()
        .unwrap();
    assert_eq!(
        request.query_parameters().unwrap(),
        "name=Super+Mario&abbreviation=sm64&released=1996&gametype=gt&platform=pf&region=rg\
         &genre=gn&engine=en&developer=dv&publisher=pb&moderator=md&_bulk=true\
         &orderby=name.int&direction=desc"
    );
}

#[test]
fn games_url_is_read_back_by_a_url_parser() {
    let request = Games::builder()
        .name("Pokémon & friends = 100%?")
        .released(-3)
        .bulk(false)
        .orderby(GamesSorting::Similarity)
        .build()
        .unwrap();
    let url = assemble(&request, BASE).unwrap().url;
    assert_eq!(
        pairs_of(&url),
        vec![
            pair("name", "Pokémon & friends = 100%?"),
            pair("released", "-3"),
            pair("_bulk", "false"),
            pair("orderby", "similarity"),
        ]
    );
    assert_eq!(url::Url::parse(&url).unwrap().path(), "/api/v1/games");
}

#[test]
fn later_setter_calls_win() {
    let mut builder = Games::builder();
    builder.name("first").released(1);
    builder.name("second");
    let request = builder.build().unwrap();
    assert_eq!(request.query_parameters().unwrap(), "name=second&released=1");
    // a builder can build more than once
    let again = builder.build().unwrap();
    assert_eq!(again.query_parameters().unwrap(), "name=second&released=1");
}

#[test]
fn game_requires_its_id() {
    assert_eq!(Game::builder().build().err(), Some(BuilderError::UninitializedField("id")));
    let request = Game::builder().id("xldev513").build().unwrap();
    assert_eq!(request.method(), Method::Get);
    assert_eq!(request.endpoint_path(), "/games/xldev513");
    assert_eq!(request.query_parameters(), Ok(String::new()));
    assert_eq!(request.body(), Ok(None));
}

#[test]
fn builder_error_names_the_field() {
    let error = Game::builder().build().err().unwrap();
    assert_eq!(error.message(), "`id` must be initialized");
}

#[test]
fn game_categories_requires_its_id() {
    assert_eq!(
        GameCategories::builder().build().err(),
        Some(BuilderError::UninitializedField("id"))
    );
    assert_eq!(
        GameCategories::builder().miscellaneous(true).build().err(),
        Some(BuilderError::UninitializedField("id"))
    );
    let bare = GameCategories::builder().id("g1").build().unwrap();
    assert_eq!(bare.endpoint_path(), "/games/g1/categories");
    assert_eq!(bare.query_parameters().unwrap(), "");
    let request = GameCategories::builder()
        .id("abc")
        .miscellaneous(false)
        .orderby(CategoriesSorting::Miscellaneous)
        .direction(Direction::Asc)
        .build()
        .unwrap();
    assert_eq!(request.endpoint_path(), "/games/abc/categories");
    assert_eq!(
        request.query_parameters().unwrap(),
        "miscellaneous=false&orderby=miscellaneous&direction=asc"
    );
}

#[test]
fn game_levels_and_variables() {
    assert_eq!(
        GameLevels::builder().orderby(LevelsSorting::Pos).build().err(),
        Some(BuilderError::UninitializedField("id"))
    );
    assert_eq!(
        GameVariables::builder().build().err(),
        Some(BuilderError::UninitializedField("id"))
    );
    let bare = GameLevels::builder().id("g1").build().unwrap();
    assert_eq!(bare.endpoint_path(), "/games/g1/levels");
    assert_eq!(bare.query_parameters(), Ok(String::new()));
    let bare = GameVariables::builder().id("g1").build().unwrap();
    assert_eq!(bare.endpoint_path(), "/games/g1/variables");
    assert_eq!(bare.query_parameters(), Ok(String::new()));
    let levels =
        GameLevels::builder().id("g").orderby(LevelsSorting::Name).build().unwrap();
    assert_eq!(levels.endpoint_path(), "/games/g/levels");
    assert_eq!(levels.query_parameters().unwrap(), "orderby=name");
    let variables = GameVariables::builder()
        .id("g")
        .orderby(VariablesSorting::UserDefined)
        .direction(Direction::Desc)
        .build()
        .unwrap();
    assert_eq!(variables.endpoint_path(), "/games/g/variables");
    assert_eq!(variables.query_parameters().unwrap(), "orderby=user-defined&direction=desc");
}

#[test]
fn game_records_writes_its_id_as_a_parameter_too() {
    let request = GameRecords::builder()
        .id("g1")
        .top(3)
        .scope(LeaderboardScope::FullGame)
        .miscellaneous(true)
        .skip_empty(true)
        .build()
        .unwrap();
    assert_eq!(request.endpoint_path(), "/games/g1/records");
    assert_eq!(
        request.query_parameters().unwrap(),
        "id=g1&top=3&scope=full-game&miscellaneous=true&skip-empty=true"
    );
    assert_eq!(
        GameRecords::builder().top(3).build().err(),
        Some(BuilderError::UninitializedField("id"))
    );
    let bare = GameRecords::builder().id("g1").build().unwrap();
    assert_eq!(bare.endpoint_path(), "/games/g1/records");
    assert_eq!(bare.query_parameters().unwrap(), "id=g1");
}

#[test]
fn derived_games_requires_its_id() {
    let missing = GameDerivedGames::builder().name("x").build();
    assert_eq!(missing.err(), Some(GameDerivedGamesBuilderError::UninitializedField("id")));
    assert_eq!(
        GameDerivedGamesBuilderError::UninitializedField("id").message(),
        "id must be initialized"
    );
    assert_eq!(
        GameDerivedGamesBuilderError::Inner(BuilderError::UninitializedField("name")).message(),
        "`name` must be initialized"
    );
}

#[test]
fn derived_games_passes_every_filter_on() {
    let request = GameDerivedGames::builder()
        .id("base")
        .name("n")
        .abbreviation("a")
        .released(2001)
        .gametype("gt")
        .platform("pf")
        .region("rg")
        .genre("gn")
        .engine("en")
        .developer("dv")
        .publisher("pb")
        .moderator("md")
        .bulk(false)
        .orderby(GamesSorting::Released)
        .direction(Direction::Asc)
        .build()
        .unwrap();
    assert_eq!(request.method(), Method::Get);
    assert_eq!(request.endpoint_path(), "/games/base/derived-games");
    assert_eq!(
        request.query_parameters().unwrap(),
        "name=n&abbreviation=a&released=2001&gametype=gt&platform=pf&region=rg&genre=gn\
         &engine=en&developer=dv&publisher=pb&moderator=md&_bulk=false&orderby=released\
         &direction=asc"
    );
    assert_eq!(request.body(), Ok(None));
}

#[test]
fn sorting_words() {
    assert_eq!(GamesSorting::NameInternational.as_str(), "name.int");
    assert_eq!(GamesSorting::NameJapanese.as_str(), "name.jap");
    assert_eq!(GamesSorting::Abbreviation.as_str(), "abbreviation");
    assert_eq!(GamesSorting::Released.as_str(), "released");
    assert_eq!(GamesSorting::Created.as_str(), "created");
    assert_eq!(GamesSorting::Similarity.as_str(), "similarity");
    assert_eq!(LevelsSorting::Name.as_str(), "name");
    assert_eq!(LevelsSorting::Pos.as_str(), "pos");
    assert_eq!(LeaderboardScope::FullGame.as_str(), "full-game");
    assert_eq!(LeaderboardScope::Levels.as_str(), "levels");
    assert_eq!(LeaderboardScope::All.as_str(), "all");
    assert_eq!(CategoriesSorting::Name.as_str(), "name");
    assert_eq!(CategoriesSorting::Miscellaneous.as_str(), "miscellaneous");
    assert_eq!(CategoriesSorting::Pos.as_str(), "pos");
    assert_eq!(VariablesSorting::Name.as_str(), "name");
    assert_eq!(VariablesSorting::Mandatory.as_str(), "mandatory");
    assert_eq!(VariablesSorting::UserDefined.as_str(), "user-defined");
    assert_eq!(VariablesSorting::Pos.as_str(), "pos");
    assert_eq!(Direction::Asc.as_str(), "asc");
    assert_eq!(Direction::Desc.as_str(), "desc");
}

#[test]
fn defaults() {
    assert_eq!(LevelsSorting::default(), LevelsSorting::Pos);
    assert_eq!(Direction::default(), Direction::Asc);
    assert_eq!(Games::default().query_parameters().unwrap(), "");
    assert_eq!(Game::default().endpoint_path(), "/games/");
    assert_eq!(GameCategories::default().endpoint_path(), "/games//categories");
    assert_eq!(GameDerivedGames::default().endpoint_path(), "/games//derived-games");
}

#[test]
fn id_in_a_path_survives_the_url() {
    let request = GameCategories::builder().id("a b/ü").miscellaneous(true).build().unwrap();
    let url = assemble(&request, "http://h/api/").unwrap().url;
    assert_eq!(url, "http://h/api/games/a b/ü/categories?miscellaneous=true");
    let (resource, query) = url.split_once('?').unwrap();
    let id = resource
        .strip_prefix("http://h/api/games/")
        .and_then(|rest| rest.strip_suffix("/categories"))
        .unwrap();
    assert_eq!(id, "a b/ü");
    assert_eq!(query, "miscellaneous=true");
}
