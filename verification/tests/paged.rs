use speedrun_api::api::endpoint::{Body, Endpoint, Method, Pageable};
use speedrun_api::api::error::{ApiError, BodyError, TransportError};
use speedrun_api::api::games::{Games, GamesSorting};
use speedrun_api::api::paged::{
    conclude_page, interpret_page, paginate, Page, Paged, Pager, Pull,
};
use speedrun_api::api::query::assemble;
use speedrun_api::api::runs::Runs;
use speedrun_api::api::transport::{Outcome, ReplayTransport, WireResponse};
use speedrun_api::json::Json;
use speedrun_api::types::{Genre, Pagination};

const BASE: &str = "https://www.speedrun.com/api/v1";

/// The body of a page that holds the numbers `first..first + size`.
fn page_body(first: u64, size: u64, max: u64) -> String {
    let items: Vec<String> = (first..first + size).map(|n| n.to_string()).collect();
    format!(
        "{{\"data\":[{}],\"pagination\":{{\"offset\":{},\"max\":{},\"size\":{},\"links\":[]}}}}",
        items.join(","),
        first,
        max,
        size
    )
}

fn ok(status: u16, body: &str) -> Outcome {
    Ok(WireResponse { status, body: body.as_bytes().to_vec() })
}

fn drain(pager: &mut Pager<Games, Json>, transport: &mut ReplayTransport) -> Vec<Json> {
    let mut items = Vec::new();
    while let Some(item) = pager.next_item(transport) {
        items.push(item.unwrap());
    }
    items
}

#[test]
fn pages_of_50_50_37_give_137_items_in_order_with_three_fetches() {
    let mut transport = ReplayTransport::new(
        BASE,
        vec![
            ok(200, &page_body(0, 50, 50)),
            ok(200, &page_body(50, 50, 50)),
            ok(200, &page_body(100, 37, 50)),
            ok(200, &page_body(137, 50, 50)),
        ],
    );
    let mut pager: Pager<Games, Json> = paginate(Games::builder().build().unwrap());
    let items = drain(&mut pager, &mut transport);
    assert_eq!(items.len(), 137);
    for (n, item) in items.iter().enumerate() {
        assert_eq!(item, &Json::integer(n as i64));
    }
    assert_eq!(transport.sent(), 3);
    assert!(pager.is_exhausted());
    // pulling again fetches nothing
    assert_eq!(pager.next_item(&mut transport), None);
    assert_eq!(transport.sent(), 3);
}

#[test]
fn pages_are_asked_for_at_increasing_offsets() {
    let mut transport = ReplayTransport::new(
        BASE,
        vec![
            ok(200, &page_body(0, 50, 50)),
            ok(200, &page_body(50, 50, 50)),
            ok(200, &page_body(100, 37, 50)),
        ],
    );
    let request = Games::builder().name("mario").build().unwrap();
    let mut pager: Pager<Games, Json> = paginate(request);
    let _ = drain(&mut pager, &mut transport);
    assert_eq!(transport.request(0).unwrap().url, format!("{}/games?name=mario&offset=0", BASE));
    assert_eq!(
        transport.request(1).unwrap().url,
        format!("{}/games?name=mario&offset=50&max=50", BASE)
    );
    assert_eq!(
        transport.request(2).unwrap().url,
        format!("{}/games?name=mario&offset=100&max=50", BASE)
    );
    assert_eq!(transport.request(0).unwrap().method, Method::Get);
    assert_eq!(pager.offset(), 137);
    assert_eq!(pager.page_size(), Some(50));
}

#[test]
fn empty_first_page_gives_nothing_with_one_fetch() {
    let mut transport =
        ReplayTransport::new(BASE, vec![ok(200, &page_body(0, 0, 20)), ok(200, &page_body(0, 5, 20))]);
    let mut pager: Pager<Games, Json> = paginate(Games::builder().build().unwrap());
    assert_eq!(pager.next_item(&mut transport), None);
    assert_eq!(transport.sent(), 1);
    assert!(pager.is_exhausted());
    assert_eq!(pager.next_item(&mut transport), None);
    assert_eq!(transport.sent(), 1);
}

#[test]
fn a_page_is_fetched_only_when_an_item_is_pulled() {
    let mut transport = ReplayTransport::new(
        BASE,
        vec![ok(200, &page_body(0, 2, 2)), ok(200, &page_body(2, 1, 2))],
    );
    let mut pager: Pager<Games, Json> = paginate(Games::builder().build().unwrap());
    assert_eq!(transport.sent(), 0);
    assert_eq!(pager.next_item(&mut transport), Some(Ok(Json::integer(0))));
    assert_eq!(transport.sent(), 1);
    assert_eq!(pager.pending(), 1);
    assert_eq!(pager.next_item(&mut transport), Some(Ok(Json::integer(1))));
    assert_eq!(transport.sent(), 1);
    assert_eq!(pager.next_item(&mut transport), Some(Ok(Json::integer(2))));
    assert_eq!(transport.sent(), 2);
    assert_eq!(pager.next_item(&mut transport), None);
    assert_eq!(transport.sent(), 2);
}

#[test]
fn caller_page_size_is_asked_for_from_the_first_page() {
    let mut transport = ReplayTransport::new(BASE, vec![ok(200, &page_body(0, 3, 5))]);
    let mut pager: Pager<Games, Json> =
        Pager::with_page_size(Games::builder().build().unwrap(), 5);
    let items = drain(&mut pager, &mut transport);
    assert_eq!(items.len(), 3);
    assert_eq!(transport.request(0).unwrap().url, format!("{}/games?offset=0&max=5", BASE));
    assert_eq!(transport.sent(), 1);
}

#[test]
fn failure_in_the_middle_ends_the_walk() {
    let failure = TransportError { message: "timed out".to_string() };
    let mut transport = ReplayTransport::new(
        BASE,
        vec![ok(200, &page_body(0, 2, 2)), Err(failure.clone()), ok(200, &page_body(2, 1, 2))],
    );
    let mut pager: Pager<Games, Json> = paginate(Games::builder().build().unwrap());
    assert_eq!(pager.next_item(&mut transport), Some(Ok(Json::integer(0))));
    assert_eq!(pager.next_item(&mut transport), Some(Ok(Json::integer(1))));
    assert_eq!(pager.next_item(&mut transport), Some(Err(ApiError::Client(failure))));
    assert!(pager.is_exhausted());
    assert_eq!(pager.next_item(&mut transport), None);
    assert_eq!(transport.sent(), 2);
}

#[test]
fn api_error_in_the_middle_is_handed_to_the_consumer() {
    let mut transport = ReplayTransport::new(
        BASE,
        vec![
            ok(200, &page_body(0, 1, 1)),
            ok(420, "{\"status\":420,\"message\":\"Slow down\"}"),
        ],
    );
    let mut pager: Pager<Runs, Json> = paginate(Runs::builder().build().unwrap());
    assert_eq!(pager.next_item(&mut transport), Some(Ok(Json::integer(0))));
    assert_eq!(
        pager.next_item(&mut transport),
        Some(Err(ApiError::Api { status: 420, message: "Slow down".to_string() }))
    );
    assert_eq!(pager.next_item(&mut transport), None);
}

#[test]
fn page_request_adds_the_cursor_to_the_parameters() {
    let request = Games::builder().orderby(GamesSorting::Created).build().unwrap();
    let page = Page { endpoint: &request, offset: 40, max: Some(20) };
    let wire = assemble(&page, BASE).unwrap();
    assert_eq!(wire.url, format!("{}/games?orderby=created&offset=40&max=20", BASE));
    let bare = Games::builder().build().unwrap();
    let page = Page { endpoint: &bare, offset: 0, max: None };
    assert_eq!(assemble(&page, BASE).unwrap().url, format!("{}/games?offset=0", BASE));
}

#[test]
fn interpret_page_reads_items_and_cursor() {
    let body = page_body(10, 3, 20).into_bytes();
    let parsed = Json::parse(&body);
    let page: Paged<Json> = interpret_page(200, body, parsed).unwrap();
    assert_eq!(page.items, vec![Json::integer(10), Json::integer(11), Json::integer(12)]);
    assert_eq!(page.pagination, Pagination { offset: 10, max: 20, size: 3 });
}

#[test]
fn page_whose_size_is_not_the_number_of_items_is_a_decode_error() {
    let body = "{\"data\":[1,2],\"pagination\":{\"offset\":0,\"max\":20,\"size\":3}}";
    assert_eq!(
        conclude_page::<Json>(ok(200, body)),
        Err(ApiError::Decode { payload: body.as_bytes().to_vec() })
    );
}

#[test]
fn page_without_cursor_or_list_is_a_decode_error() {
    for body in [
        "{\"data\":[1,2]}",
        "{\"data\":{},\"pagination\":{\"offset\":0,\"max\":20,\"size\":0}}",
        "{\"data\":[],\"pagination\":{\"offset\":-1,\"max\":20,\"size\":0}}",
        "{\"data\":[],\"pagination\":{\"offset\":0,\"size\":0}}",
        "{\"pagination\":{\"offset\":0,\"max\":20,\"size\":0}}",
        "nonsense",
    ] {
        assert_eq!(
            conclude_page::<Json>(ok(200, body)),
            Err(ApiError::Decode { payload: body.as_bytes().to_vec() })
        );
    }
}

#[test]
fn page_with_an_item_of_the_wrong_shape_is_a_decode_error() {
    let body = "{\"data\":[{\"id\":\"a\",\"name\":\"A\",\"links\":[]},7],\
                \"pagination\":{\"offset\":0,\"max\":20,\"size\":2}}";
    assert_eq!(
        conclude_page::<Genre>(ok(200, body)),
        Err(ApiError::Decode { payload: body.as_bytes().to_vec() })
    );
    let good = "{\"data\":[{\"id\":\"a\",\"name\":\"A\",\"links\":[]}],\
                \"pagination\":{\"offset\":0,\"max\":20,\"size\":1}}";
    let page = conclude_page::<Genre>(ok(200, good)).unwrap();
    assert_eq!(page.items.len(), 1);
    assert_eq!(page.items[0].name, "A");
}

#[test]
fn accept_take_and_give_up_drive_a_walk_by_hand() {
    let mut pager: Pager<Games, Json> = Pager::new(Games::builder().build().unwrap());
    assert_eq!(pager.offset(), 0);
    assert_eq!(pager.page_size(), None);
    assert_eq!(pager.take(), None);
    pager.accept(Paged {
        items: vec![Json::integer(1), Json::integer(2)],
        pagination: Pagination { offset: 0, max: 2, size: 2 },
    });
    assert_eq!(pager.offset(), 2);
    assert_eq!(pager.page_size(), Some(2));
    assert!(!pager.is_exhausted());
    assert_eq!(pager.page().offset, 2);
    assert_eq!(pager.page().max, Some(2));
    pager.accept(Paged {
        items: vec![Json::integer(3)],
        pagination: Pagination { offset: 2, max: 2, size: 1 },
    });
    assert!(pager.is_exhausted());
    // an exhausted walk takes no further page in
    pager.accept(Paged {
        items: vec![Json::integer(4)],
        pagination: Pagination { offset: 3, max: 1, size: 1 },
    });
    assert_eq!(pager.offset(), 3);
    assert_eq!(pager.pending(), 3);
    assert_eq!(pager.take(), Some(Json::integer(1)));
    assert_eq!(pager.take(), Some(Json::integer(2)));
    assert_eq!(pager.take(), Some(Json::integer(3)));
    assert_eq!(pager.take(), None);
    let mut other: Pager<Games, Json> = Pager::new(Games::builder().build().unwrap());
    other.give_up();
    assert!(other.is_exhausted());
}

#[test]
fn a_full_page_keeps_the_walk_going() {
    let mut pager: Pager<Games, Json> = Pager::new(Games::builder().build().unwrap());
    let mut first = Vec::new();
    for _ in 0..3 {
        first.push(Json::Null);
    }
    pager.accept(Paged { items: first, pagination: Pagination { offset: 0, max: 3, size: 3 } });
    assert!(!pager.is_exhausted());
    assert_eq!(pager.offset(), 3);
}

#[test]
fn begin_pull_and_end_pull_drive_a_walk_around_the_fetch() {
    let mut pager: Pager<Games, Json> = paginate(Games::builder().name("x").build().unwrap());
    let request = match pager.begin_pull(BASE) {
        Pull::Fetch(request) => request,
        other => panic!("{:?}", other),
    };
    assert_eq!(request.method, Method::Get);
    assert_eq!(request.url, format!("{}/games?name=x&offset=0", BASE));
    assert_eq!(pager.end_pull(ok(200, &page_body(0, 2, 2))), Some(Ok(Json::integer(0))));
    assert_eq!(pager.begin_pull(BASE), Pull::Item(Json::integer(1)));
    let request = match pager.begin_pull(BASE) {
        Pull::Fetch(request) => request,
        other => panic!("{:?}", other),
    };
    assert_eq!(request.url, format!("{}/games?name=x&offset=2&max=2", BASE));
    assert_eq!(pager.end_pull(ok(200, &page_body(2, 0, 2))), None);
    assert_eq!(pager.begin_pull(BASE), Pull::End);
    assert_eq!(pager.begin_pull(BASE), Pull::End);
}

#[test]
fn end_pull_with_a_failure_ends_the_walk() {
    let failure = TransportError { message: "reset".to_string() };
    let mut pager: Pager<Games, Json> = paginate(Games::builder().build().unwrap());
    assert!(matches!(pager.begin_pull(BASE), Pull::Fetch(_)));
    assert_eq!(pager.end_pull(Err(failure.clone())), Some(Err(ApiError::Client(failure))));
    assert!(pager.is_exhausted());
    assert_eq!(pager.begin_pull(BASE), Pull::End);
}

/// A paged request whose query string cannot be written.
struct Unwritable;

impl Endpoint for Unwritable {
    fn method(&self) -> Method {
        Method::Get
    }

    fn endpoint_path(&self) -> String {
        "/broken".to_string()
    }

    fn query_parameters(&self) -> Result<String, BodyError> {
        Err(BodyError::UrlEncoded("unsupported value".to_string()))
    }

    fn body(&self) -> Result<Option<Body>, BodyError> {
        Ok(None)
    }
}

impl Pageable for Unwritable {}

#[test]
fn a_page_request_that_cannot_be_assembled_ends_the_walk_with_nothing_sent() {
    let error = ApiError::Body(BodyError::UrlEncoded("unsupported value".to_string()));
    let mut pager: Pager<Unwritable, Json> = paginate(Unwritable);
    assert_eq!(pager.begin_pull(BASE), Pull::Failed(error.clone()));
    assert!(pager.is_exhausted());
    assert_eq!(pager.begin_pull(BASE), Pull::End);
    let mut transport = ReplayTransport::new(BASE, vec![ok(200, &page_body(0, 1, 1))]);
    let mut pager: Pager<Unwritable, Json> = paginate(Unwritable);
    assert_eq!(pager.next_item(&mut transport), Some(Err(error)));
    assert_eq!(pager.next_item(&mut transport), None);
    assert_eq!(transport.sent(), 0);
}
