use speedrun_api::api::builder::BuilderError;
use speedrun_api::api::common::Direction;
use speedrun_api::api::endpoint::{Endpoint, Method};
use speedrun_api::api::form::Keyword;
use speedrun_api::api::query::assemble;
use speedrun_api::api::runs::{
    DeleteRun, NewStatus, Player, Run, RunEmbedSet, RunEmbeds, RunStatus, Runs, RunsSorting,
    UpdateRunPlayers, UpdateRunStatus, VariableType,
};
use speedrun_api::json::Json;

#[test]
fn runs_writes_every_field_in_order() {
    let request = Runs::builder()
        .user("u")
        .guest("g g")
        .examiner("e")
        .game("gm")
        .level("lv")
        .category("ct")
        .platform("pf")
        .region("rg")
        .emulated(true)
        .status(RunStatus::Verified)
        .orderby(RunsSorting::VerifyDate)
        .direction(Direction::Desc)
        .build()
        .unwrap();
    assert_eq!(request.method(), Method::Get);
    assert_eq!(request.endpoint_path(), "/runs");
    assert_eq!(
        request.query_parameters().unwrap(),
        "user=u&guest=g+g&examiner=e&game=gm&level=lv&category=ct&platform=pf&region=rg\
         &emulated=true&status=verified&orderby=verify-date&direction=desc"
    );
    assert_eq!(request.body(), Ok(None));
}

#[test]
fn run_requires_its_id() {
    assert_eq!(Run::builder().id("r1").build().unwrap().endpoint_path(), "/runs/r1");
    assert_eq!(Run::builder().id("r1").build().unwrap().method(), Method::Get);
    assert_eq!(Run::builder().build().err(), Some(BuilderError::UninitializedField("id")));
    assert_eq!(Run::builder().id("r1").build().unwrap().query_parameters().unwrap(), "");
    assert_eq!(Run::default().endpoint_path(), "/runs/");
}

#[test]
fn delete_run_requires_its_id() {
    assert_eq!(DeleteRun::builder().build().err(), Some(BuilderError::UninitializedField("id")));
    let request = DeleteRun::builder().id("r9").build().unwrap();
    assert_eq!(request.method(), Method::Delete);
    assert_eq!(request.endpoint_path(), "/runs/r9");
    assert_eq!(request.query_parameters().unwrap(), "");
    assert_eq!(request.body(), Ok(None));
}

#[test]
fn update_run_status_requires_id_then_status() {
    assert_eq!(
        UpdateRunStatus::builder().status(NewStatus::Verified).build().err(),
        Some(BuilderError::UninitializedField("id"))
    );
    assert_eq!(
        UpdateRunStatus::builder().build().err(),
        Some(BuilderError::UninitializedField("id"))
    );
    assert_eq!(
        UpdateRunStatus::builder().id("r").build().err(),
        Some(BuilderError::UninitializedField("status"))
    );
}

#[test]
fn update_run_status_body() {
    let verified =
        UpdateRunStatus::builder().id("r1").status(NewStatus::Verified).build().unwrap();
    assert_eq!(verified.method(), Method::Put);
    assert_eq!(verified.endpoint_path(), "/runs/r1/status");
    assert_eq!(verified.query_parameters().unwrap(), "");
    assert_eq!(
        verified.body().unwrap(),
        Some(("application/json", b"{\"status\":{\"status\":\"verified\"}}".to_vec()))
    );
    let rejected = UpdateRunStatus::builder()
        .id("r1")
        .status(NewStatus::Rejected { reason: "a \"cheated\" run".to_string() })
        .build()
        .unwrap();
    assert_eq!(
        rejected.body().unwrap(),
        Some((
            "application/json",
            b"{\"status\":{\"status\":\"rejected\",\"reason\":\"a \\\"cheated\\\" run\"}}".to_vec()
        ))
    );
}

#[test]
fn update_run_players_requires_id_then_players() {
    assert_eq!(
        UpdateRunPlayers::builder().players(vec![]).build().err(),
        Some(BuilderError::UninitializedField("id"))
    );
    assert_eq!(
        UpdateRunPlayers::builder().id("r").build().err(),
        Some(BuilderError::UninitializedField("players"))
    );
}

#[test]
fn update_run_players_body() {
    let request = UpdateRunPlayers::builder()
        .id("r2")
        .players(vec![
            Player::User { id: "u1".to_string() },
            Player::Guest { name: "Alex".to_string() },
        ])
        .build()
        .unwrap();
    assert_eq!(request.method(), Method::Put);
    assert_eq!(request.endpoint_path(), "/runs/r2/players");
    assert_eq!(
        request.body().unwrap(),
        Some((
            "application/json",
            b"{\"players\":[{\"rel\":\"user\",\"id\":\"u1\"},{\"rel\":\"guest\",\"name\":\"Alex\"}]}"
                .to_vec()
        ))
    );
    let nobody = UpdateRunPlayers::builder().id("r2").players(vec![]).build().unwrap();
    assert_eq!(
        nobody.body().unwrap(),
        Some(("application/json", b"{\"players\":[]}".to_vec()))
    );
}

#[test]
fn wire_request_carries_the_body() {
    let request =
        UpdateRunStatus::builder().id("r1").status(NewStatus::Verified).build().unwrap();
    let wire = assemble(&request, "http://h").unwrap();
    assert_eq!(wire.method, Method::Put);
    assert_eq!(wire.url, "http://h/runs/r1/status");
    assert_eq!(
        wire.body,
        Some(("application/json", b"{\"status\":{\"status\":\"verified\"}}".to_vec()))
    );
}

#[test]
fn values_as_json() {
    assert_eq!(
        Player::User { id: "u".to_string() }.to_json(),
        Json::Object(vec![
            ("rel".to_string(), Json::Text("user".to_string())),
            ("id".to_string(), Json::Text("u".to_string())),
        ])
    );
    assert_eq!(
        VariableType::PreDefined { value: "v".to_string() }.to_json().to_bytes().unwrap(),
        b"{\"pre-defined\":{\"value\":\"v\"}}".to_vec()
    );
    assert_eq!(
        VariableType::UserDefined { value: "v".to_string() }.to_json().to_bytes().unwrap(),
        b"{\"user-defined\":{\"value\":\"v\"}}".to_vec()
    );
    assert_eq!(
        NewStatus::Verified.to_json().to_bytes().unwrap(),
        b"{\"status\":\"verified\"}".to_vec()
    );
    let copy = Player::Guest { name: "n".to_string() }.clone();
    assert_eq!(copy, Player::Guest { name: "n".to_string() });
}

#[test]
fn run_words() {
    assert_eq!(RunStatus::New.as_str(), "new");
    assert_eq!(RunStatus::Verified.as_str(), "verified");
    assert_eq!(RunStatus::Rejected.as_str(), "rejected");
    let sorting = [
        (RunsSorting::Game, "game"),
        (RunsSorting::Category, "category"),
        (RunsSorting::Level, "level"),
        (RunsSorting::Platform, "platform"),
        (RunsSorting::Region, "region"),
        (RunsSorting::Emulated, "emulated"),
        (RunsSorting::Date, "date"),
        (RunsSorting::Submitted, "submitted"),
        (RunsSorting::Status, "status"),
        (RunsSorting::VerifyDate, "verify-date"),
    ];
    for (option, word) in sorting {
        assert_eq!(option.as_str(), word);
    }
    assert_eq!(RunsSorting::default(), RunsSorting::Game);
}

#[test]
fn embed_set_is_written_in_declaration_order() {
    let mut set = RunEmbedSet::new();
    assert_eq!(set.to_text(), None);
    set.insert(RunEmbeds::Platform);
    set.insert(RunEmbeds::Game);
    set.insert(RunEmbeds::Players);
    set.insert(RunEmbeds::Game);
    assert!(set.contains(RunEmbeds::Game));
    assert!(!set.contains(RunEmbeds::Level));
    assert_eq!(set.to_text(), Some("game,players,platform".to_string()));
    for embed in [RunEmbeds::Category, RunEmbeds::Level, RunEmbeds::Region] {
        set.insert(embed);
    }
    assert_eq!(set.to_text(), Some("game,category,level,players,region,platform".to_string()));
    assert_eq!(RunEmbedSet::default().to_text(), None);
}
