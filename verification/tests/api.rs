use syncthing_events::syncthing::api::SyncthingApi;
use syncthing_events::syncthing::client::{events_of_document, Client, Fetched};
use syncthing_events::syncthing::configs::Configs;
use syncthing_events::syncthing::decode::JsonMap;
use syncthing_events::syncthing::errors::NetworkError;
use syncthing_events::syncthing::event_structs::{EventTypes, RawEvent, Starting, SyncthingEvent};
use syncthing_events::syncthing::json::{JsonNumber, JsonValue};

fn client() -> Client {
    Client { address: "http://127.0.0.1:8384".to_string(), auth_key: "key".to_string() }
}

fn api() -> SyncthingApi {
    SyncthingApi::with_client(client())
}

fn response(status: u16, body: &str) -> Fetched {
    Fetched::Response { status, body: body.to_string() }
}

const TWO: &str = r#"[{"id":6,"globalID":60,"type":"Starting","time":"2022-01-01T00:00:00Z","data":{"home":"/h"}},{"id":7,"globalID":61,"type":"Mystery","time":"2022-01-01T00:00:01Z","data":7}]"#;

fn two() -> Vec<SyncthingEvent> {
    vec![
        SyncthingEvent {
            id: 6,
            globalID: 60,
            type_: "Starting".to_string(),
            time: "2022-01-01T00:00:00Z".to_string(),
            data: EventTypes::Starting(Starting { home: "/h".to_string() }),
        },
        SyncthingEvent {
            id: 7,
            globalID: 61,
            type_: "Mystery".to_string(),
            time: "2022-01-01T00:00:01Z".to_string(),
            data: EventTypes::Unknown(JsonMap { entries: vec![] }),
        },
    ]
}

#[test]
fn new_takes_address_and_port_from_the_settings() {
    let configs = Configs {
        auth_key: "key".to_string(),
        port: 8384,
        address: "http://127.0.0.1".to_string(),
        request_interval: 60,
        script_delay: 1,
    };
    let api = SyncthingApi::new(&configs);
    assert_eq!(api.client.address, "http://127.0.0.1:8384");
    assert_eq!(api.client.auth_key, "key");
    assert_eq!(api.last_seen, None);
    assert_eq!(api.request_url(), "http://127.0.0.1:8384/rest/events");
}

#[test]
fn request_url_names_the_cursor() {
    let mut api = api();
    assert_eq!(api.request_url(), "http://127.0.0.1:8384/rest/events");
    api.last_seen = Some(1234);
    assert_eq!(api.request_url(), "http://127.0.0.1:8384/rest/events?since=1234");
}

#[test]
fn update_moves_the_cursor_to_the_last_event() {
    let mut api = api();
    assert_eq!(api.update(&response(200, TWO)), Ok(two()));
    assert_eq!(api.last_seen, Some(7));
}

#[test]
fn update_with_an_empty_batch_leaves_the_cursor() {
    let mut api = api();
    api.last_seen = Some(5);
    assert_eq!(api.update(&response(200, "[]")), Ok(vec![]));
    assert_eq!(api.last_seen, Some(5));
    let mut fresh = self::api();
    assert_eq!(fresh.update(&response(204, " [ ] ")), Ok(vec![]));
    assert_eq!(fresh.last_seen, None);
}

#[test]
fn update_takes_the_last_id_even_if_it_is_lower() {
    let mut api = api();
    api.last_seen = Some(9);
    assert_eq!(api.update(&response(200, TWO)).map(|events| events.len()), Ok(2));
    assert_eq!(api.last_seen, Some(7));
}

#[test]
fn status_outside_success_is_an_error() {
    for status in [0u16, 100, 199, 300, 301, 401, 404, 500, 65535] {
        let mut api = api();
        api.last_seen = Some(5);
        assert_eq!(api.update(&response(status, TWO)), Err(NetworkError::Status(status)));
        assert_eq!(api.last_seen, Some(5));
    }
    for status in [200u16, 201, 299] {
        assert_eq!(client().get_events_since(&Some(5), &response(status, "[]")), Ok(vec![]));
    }
}

#[test]
fn no_answer_is_an_error_with_its_cause() {
    let mut api = api();
    api.last_seen = Some(5);
    let failed = Fetched::Failed { cause: "connection refused".to_string() };
    assert_eq!(api.update(&failed), Err(NetworkError::Transport("connection refused".to_string())));
    assert_eq!(api.last_seen, Some(5));
}

#[test]
fn body_that_is_no_list_of_records_is_an_error() {
    for body in [
        "",
        "not json",
        "{}",
        "7",
        r#"[{"id":1}]"#,
        r#"[{"id":1,"globalID":1,"type":"A","time":"t"}]"#,
        r#"[{"id":18446744073709551616,"globalID":1,"type":"A","time":"t","data":{}}]"#,
        r#"[{"id":-1,"globalID":1,"type":"A","time":"t","data":{}}]"#,
        r#"[{"id":1.0,"globalID":1,"type":"A","time":"t","data":{}}]"#,
        r#"[{"id":1,"globalID":"1","type":"A","time":"t","data":{}}]"#,
        r#"[{"id":1,"globalID":1,"type":5,"time":"t","data":{}}]"#,
        r#"[{"id":1,"globalID":1,"type":"A","time":"t","data":{}}, 3]"#,
    ] {
        let mut api = api();
        api.last_seen = Some(5);
        assert_eq!(api.update(&response(200, body)), Err(NetworkError::Body), "{body}");
        assert_eq!(api.last_seen, Some(5));
    }
}

#[test]
fn a_record_may_be_an_array_of_its_fields() {
    let got = client().get_events_since(&None, &response(200, r#"[[1,2,"Starting","t",{"home":"/h"}]]"#));
    assert_eq!(
        got,
        Ok(vec![SyncthingEvent {
            id: 1,
            globalID: 2,
            type_: "Starting".to_string(),
            time: "t".to_string(),
            data: EventTypes::Starting(Starting { home: "/h".to_string() }),
        }])
    );
}

#[test]
fn events_of_document_reads_the_records() {
    let document = JsonValue::from_text(TWO).unwrap();
    assert_eq!(events_of_document(&document), Ok(two()));
    assert_eq!(events_of_document(&JsonValue::Null), Err(NetworkError::Body));
}

#[test]
fn from_raw_classifies_the_payload_and_keeps_the_rest() {
    let raw = RawEvent {
        id: 3,
        globalID: 4,
        type_: "Whatever".to_string(),
        time: "2022-01-01T00:00:00Z".to_string(),
        data: JsonValue::Object(vec![("home".to_string(), JsonValue::String("/h".to_string()))]),
    };
    assert_eq!(
        SyncthingEvent::from_raw(raw),
        SyncthingEvent {
            id: 3,
            globalID: 4,
            type_: "Whatever".to_string(),
            time: "2022-01-01T00:00:00Z".to_string(),
            data: EventTypes::Starting(Starting { home: "/h".to_string() }),
        }
    );
    let odd = RawEvent {
        id: 3,
        globalID: 4,
        type_: "Starting".to_string(),
        time: "t".to_string(),
        data: JsonValue::Number(JsonNumber::PosInt(1)),
    };
    assert_eq!(SyncthingEvent::from_raw(odd).data, EventTypes::Unknown(JsonMap { entries: vec![] }));
}

#[test]
fn ids_are_not_bounded_by_sixteen_bits() {
    let body = r#"[{"id":70000,"globalID":70000,"type":"Starting","time":"2024-01-01T00:00:00Z","data":{"home":"/h"}}]"#;
    let want = vec![SyncthingEvent {
        id: 70000,
        globalID: 70000,
        type_: "Starting".to_string(),
        time: "2024-01-01T00:00:00Z".to_string(),
        data: EventTypes::Starting(Starting { home: "/h".to_string() }),
    }];
    assert_eq!(client().get_events_since(&None, &response(200, body)), Ok(want.clone()));
    let mut api = api();
    api.last_seen = Some(65535);
    assert_eq!(api.request_url(), "http://127.0.0.1:8384/rest/events?since=65535");
    assert_eq!(api.update(&response(200, body)), Ok(want));
    assert_eq!(api.last_seen, Some(70000));
    assert_eq!(api.request_url(), "http://127.0.0.1:8384/rest/events?since=70000");
}

#[test]
fn the_largest_id_is_read_and_asked_after() {
    let body = r#"[{"id":18446744073709551615,"globalID":0,"type":"A","time":"t","data":null}]"#;
    let mut api = api();
    let events = api.update(&response(200, body)).unwrap();
    assert_eq!(events[0].id, u64::MAX);
    assert_eq!(events[0].globalID, 0);
    assert_eq!(api.last_seen, Some(u64::MAX));
    assert_eq!(
        api.request_url(),
        "http://127.0.0.1:8384/rest/events?since=18446744073709551615"
    );
}

#[test]
fn get_events_since_gives_the_error_of_a_bad_status() {
    let unauthorized = response(401, "Unauthorized");
    assert_eq!(
        client().get_events_since(&Some(5), &unauthorized),
        Err(NetworkError::Status(401))
    );
    assert_eq!(client().get_events_since(&None, &response(401, TWO)), Err(NetworkError::Status(401)));
    assert_eq!(client().get_events_since(&None, &response(500, "[]")), Err(NetworkError::Status(500)));
}

#[test]
fn get_events_since_gives_the_cause_where_no_answer_came() {
    let failed = Fetched::Failed { cause: "tls handshake".to_string() };
    assert_eq!(
        client().get_events_since(&None, &failed),
        Err(NetworkError::Transport("tls handshake".to_string()))
    );
}

#[test]
fn get_events_since_keeps_an_unknown_payload_whole() {
    let body = r#"[{"id":9,"globalID":9,"type":"NewThing","time":"t","data":{"Zeta":[1,{"a":null}],"alpha":"x","mixedCase":-2}}]"#;
    let events = client().get_events_since(&Some(8), &response(200, body)).unwrap();
    assert_eq!(events.len(), 1);
    assert_eq!(events[0].type_, "NewThing");
    assert_eq!(
        events[0].data,
        EventTypes::Unknown(JsonMap {
            entries: vec![
                (
                    "Zeta".to_string(),
                    JsonValue::Array(vec![
                        JsonValue::Number(JsonNumber::PosInt(1)),
                        JsonValue::Object(vec![("a".to_string(), JsonValue::Null)]),
                    ])
                ),
                ("alpha".to_string(), JsonValue::String("x".to_string())),
                ("mixedCase".to_string(), JsonValue::Number(JsonNumber::NegInt(-2))),
            ],
        })
    );
}

#[test]
fn get_events_since_gives_the_same_whatever_was_seen() {
    let answer = response(200, TWO);
    assert_eq!(client().get_events_since(&None, &answer), Ok(two()));
    assert_eq!(client().get_events_since(&Some(0), &answer), Ok(two()));
    assert_eq!(client().get_events_since(&Some(u64::MAX), &answer), Ok(two()));
}
