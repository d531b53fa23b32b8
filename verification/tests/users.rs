use speedrun_api::api::builder::BuilderError;
use speedrun_api::api::common::Direction;
use speedrun_api::api::endpoint::{Endpoint, Method};
use speedrun_api::api::form::Keyword;
use speedrun_api::api::query::assemble;
use speedrun_api::api::runs::RunEmbeds;
use speedrun_api::api::users::{User, UserPersonalBests, Users, UsersSorting};

#[test]
fn users_writes_every_field_in_order() {
    let request = Users::builder()
        .lookup("lk")
        .name("nm")
        .twitch("tw")
        .hitbox("hb")
        .twitter("tt")
        .speedrunslive("srl")
        .orderby(UsersSorting::Signup)
        .direction(Direction::Asc)
        .build()
        .unwrap();
    assert_eq!(request.method(), Method::Get);
    assert_eq!(request.endpoint_path(), "/users");
    assert_eq!(
        request.query_parameters().unwrap(),
        "lookup=lk&name=nm&twitch=tw&hitbox=hb&twitter=tt&speedrunslive=srl&orderby=signup\
         &direction=asc"
    );
    assert_eq!(request.body(), Ok(None));
}

#[test]
fn user_requires_its_id() {
    let request = User::builder().id("u7").build().unwrap();
    assert_eq!(request.method(), Method::Get);
    assert_eq!(request.endpoint_path(), "/users/u7");
    assert_eq!(request.query_parameters().unwrap(), "");
    assert_eq!(User::builder().build().err(), Some(BuilderError::UninitializedField("id")));
    assert_eq!(User::default().endpoint_path(), "/users/");
}

#[test]
fn personal_bests_writes_embeds_as_one_parameter() {
    let request = UserPersonalBests::builder()
        .id("u7")
        .top(1)
        .series("s")
        .game("g")
        .embed(RunEmbeds::Players)
        .embed(RunEmbeds::Game)
        .build()
        .unwrap();
    assert_eq!(request.endpoint_path(), "/users/u7/personal-bests");
    assert_eq!(
        request.query_parameters().unwrap(),
        "top=1&series=s&game=g&embed=game%2Cplayers"
    );
    let url = assemble(&request, "http://h").unwrap().url;
    let parsed = url::Url::parse(&url).unwrap();
    let pairs: Vec<(String, String)> =
        parsed.query_pairs().map(|(k, v)| (k.into_owned(), v.into_owned())).collect();
    assert_eq!(pairs.last().unwrap(), &("embed".to_string(), "game,players".to_string()));
}

#[test]
fn personal_bests_without_embeds_has_no_embed_parameter() {
    let request = UserPersonalBests::builder().id("u7").top(5).build().unwrap();
    assert_eq!(request.query_parameters().unwrap(), "top=5");
    assert_eq!(
        UserPersonalBests::builder().top(5).embed(RunEmbeds::Game).build().err(),
        Some(BuilderError::UninitializedField("id"))
    );
    let bare = UserPersonalBests::builder().id("u1").build().unwrap();
    assert_eq!(bare.query_parameters(), Ok(String::new()));
    assert_eq!(bare.endpoint_path(), "/users/u1/personal-bests");
    assert_eq!(UserPersonalBests::default().query_parameters().unwrap(), "");
}

#[test]
fn embeds_adds_several_at_once() {
    let request = UserPersonalBests::builder()
        .id("u1")
        .embed(RunEmbeds::Region)
        .embeds(&[RunEmbeds::Level, RunEmbeds::Category, RunEmbeds::Level])
        .build()
        .unwrap();
    assert_eq!(request.query_parameters().unwrap(), "embed=category%2Clevel%2Cregion");
    let none = UserPersonalBests::builder().id("u1").embeds(&[]).build().unwrap();
    assert_eq!(none.query_parameters().unwrap(), "");
}

#[test]
fn users_sorting_words() {
    assert_eq!(UsersSorting::NameInternational.as_str(), "name.int");
    assert_eq!(UsersSorting::NameJapanese.as_str(), "name.jap");
    assert_eq!(UsersSorting::Signup.as_str(), "signup");
    assert_eq!(UsersSorting::Role.as_str(), "role");
    assert_eq!(UsersSorting::default(), UsersSorting::NameInternational);
}
