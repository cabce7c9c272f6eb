use serverless_patterns::config::{config_url, ConfigCache, MyConfig};
use serverless_patterns::events::{
    change_entries, decimal_string, object_location, publisher_entry, top_level_detections,
    MyMessage, PayLoad, StoredEvent, PUT_EVENTS_BATCH,
};
use serverless_patterns::items::{fetch_item, item_key, item_response, Item, ItemError};
use serverless_patterns::web::{
    alb_body, get_ip_address, greeting_body, hello_body, hello_name, MyPayload,
};
use serverless_patterns::websocket::{
    api_gateway_config, default_response, handle_default, route_request, stream_prompt,
    HandlerError, StoryRequest, WebsocketRequest, WsRoute,
};

fn ws(conn: Option<&str>, domain: Option<&str>, stage: Option<&str>, route: Option<&str>) -> WebsocketRequest {
    WebsocketRequest {
        connection_id: conn.map(String::from),
        domain_name: domain.map(String::from),
        stage: stage.map(String::from),
        route_key: route.map(String::from),
    }
}

fn respond(r: Result<WsRoute, HandlerError>) -> (u16, String) {
    match r {
        Ok(WsRoute::Respond(resp)) => (resp.status_code, resp.body),
        _ => panic!("expected an immediate answer"),
    }
}

#[test]
fn websocket_missing_fields_in_order() {
    let r = route_request(&ws(None, None, None, Some("$connect")));
    assert_eq!(r.err(), Some(HandlerError::MissingConnectionId));
    let r = route_request(&ws(Some("c"), None, Some("s"), Some("$connect")));
    assert_eq!(r.err(), Some(HandlerError::MissingDomainName));
    let r = route_request(&ws(Some("c"), Some("d"), None, Some("$connect")));
    assert_eq!(r.err(), Some(HandlerError::MissingStage));
    assert_eq!(HandlerError::MissingConnectionId.message(), "Missing connection_id");
    assert_eq!(HandlerError::MissingStage.message(), "Missing stage");
}

#[test]
fn websocket_routes() {
    let base = |route| route_request(&ws(Some("c1"), Some("abc.example.com"), Some("prod"), route));
    assert_eq!(respond(base(Some("$connect"))), (200, "Connected...: $connect".to_string()));
    assert_eq!(
        respond(base(Some("$disconnect"))),
        (200, "Disconnected...: $disconnect".to_string())
    );
    assert_eq!(respond(base(Some("$other"))), (400, "Unknown route".to_string()));
    assert_eq!(respond(base(None)), (400, "Unknown route".to_string()));
    match base(Some("$default")) {
        Ok(WsRoute::Stream { connection_id, endpoint }) => {
            assert_eq!(connection_id, "c1");
            assert_eq!(endpoint.to_string(), "https://abc.example.com/prod");
        }
        _ => panic!("expected a stream"),
    }
    let done = default_response();
    assert_eq!((done.status_code, done.body.as_str()), (200, "Message processed...: $default"));
}

#[test]
fn endpoint_uri_is_checked() {
    let ok = api_gateway_config("abc.execute-api.us-east-1.amazonaws.com", "dev").unwrap();
    assert_eq!(ok.host(), Some("abc.execute-api.us-east-1.amazonaws.com"));
    assert_eq!(ok.path(), "/dev");
    let bad = api_gateway_config("bad host", "dev");
    match bad {
        Err(HandlerError::InvalidEndpoint(e)) => {
            assert!(HandlerError::InvalidEndpoint(e).message().starts_with("Failed to parse endpoint URI: "))
        }
        _ => panic!("expected an invalid endpoint"),
    }
}

#[test]
fn story_prompts() {
    let req = StoryRequest { story_type: "dragons".to_string() };
    assert_eq!(
        handle_default(Some(Ok(req))).unwrap(),
        "Tell me a very short story about: dragons"
    );
    assert_eq!(handle_default(None).err(), Some(HandlerError::MissingRequestBody));
    assert_eq!(HandlerError::MissingRequestBody.message(), "Missing request body");
    let e = handle_default(Some(Err("eof".to_string()))).unwrap_err();
    assert_eq!(e.message(), "Failed to parse request body: eof");
    assert_eq!(stream_prompt(None).err(), Some(HandlerError::BodyNotFound));
    assert_eq!(HandlerError::BodyNotFound.message(), "Failed to parse request body");
    let req = StoryRequest { story_type: "ships".to_string() };
    assert_eq!(stream_prompt(Some(Ok(req))).unwrap(), "Tell me a very short story about: ships");
}

#[test]
fn payload_bodies() {
    let p = Some(MyPayload { prop1: "a".to_string(), prop2: "b\"c".to_string() });
    let expected = r#"{"message":"Hello World","payload":{"prop1":"a","prop2":"b\"c"}}"#;
    assert_eq!(hello_body(&p), expected);
    assert_eq!(alb_body(&p), expected);
    assert_eq!(hello_body(&None), r#"{"message":"Hello World","payload":null}"#);
    assert_eq!(alb_body(&None), r#"{"message":"Some error with the POST"}"#);
}

#[test]
fn greetings() {
    assert_eq!(hello_name(Some("Ada")), "hello Ada");
    assert_eq!(hello_name(None), "hello stranger");
    assert_eq!(get_ip_address(Some("1.2.3.4, 10.0.0.1")), Some("1.2.3.4".to_string()));
    assert_eq!(get_ip_address(Some("1.2.3.4")), Some("1.2.3.4".to_string()));
    assert_eq!(get_ip_address(Some(",x")), Some(String::new()));
    assert_eq!(get_ip_address(None), None);
    assert_eq!(greeting_body(Some("9.9.9.9,1.1.1.1"), None), "hello 9.9.9.9");
    assert_eq!(greeting_body(None, None), "hello stranger");
    assert_eq!(greeting_body(Some("9.9.9.9"), Some("bob")), "hello bob ip: 9.9.9.9");
    assert_eq!(greeting_body(None, Some("bob")), "hello bob ip: stranger");
}

#[test]
fn item_lookup() {
    let key = item_key("42");
    assert_eq!(key, vec![("pk".to_string(), "42".to_string()), ("sk".to_string(), "42".to_string())]);
    let item = Item::new("42".to_string(), "42".to_string());
    assert_eq!(item.pk(), "42");
    assert_eq!(item.to_json(), r#"{"pk":"42","sk":"42"}"#);
    assert_eq!(fetch_item(None).err(), Some(ItemError::NotFound));
    assert_eq!(
        fetch_item(Some(Err("missing field".to_string()))).err(),
        Some(ItemError::FromSerde("missing field".to_string()))
    );
    let found = fetch_item(Some(Ok(Item::new("a".to_string(), "b".to_string())))).unwrap();
    assert_eq!((found.pk(), found.sk()), ("a", "b"));
    assert_eq!(ItemError::NotFound.message(), "item not found");
    assert_eq!(
        ItemError::Unknown("x".to_string()).message(),
        "unknown DynamoDB item error: x"
    );
}

#[test]
fn item_responses() {
    let ok = item_response(Some(Ok(Item::new("1".to_string(), "2".to_string()))));
    assert_eq!((ok.status_code, ok.body.as_str()), (200, r#"{"pk":"1","sk":"2"}"#));
    assert!(!ok.is_base64_encoded);
    let missing = item_response(None);
    assert_eq!((missing.status_code, missing.body.as_str()), (404, ""));
    let failed = item_response(Some(Err(ItemError::NotFound)));
    assert_eq!((failed.status_code, failed.body.as_str()), (404, ""));
}

#[test]
fn change_entries_in_batches_of_ten() {
    let images: Vec<String> = (0..23).map(|i| format!("{{\"n\":{i}}}")).collect();
    let chunks = change_entries("bus", &images);
    assert_eq!(PUT_EVENTS_BATCH, 10);
    assert_eq!(chunks.iter().map(|c| c.len()).collect::<Vec<_>>(), vec![10, 10, 3]);
    let e = &chunks[2][1];
    assert_eq!(e.detail, "{\"n\":21}");
    assert_eq!(e.event_bus_name, "bus");
    assert_eq!(e.source, "demo.event");
    assert_eq!(e.detail_type, "INSERTED");
    assert!(change_entries("bus", &Vec::new()).is_empty());
    let ten: Vec<String> = (0..10).map(|i| i.to_string()).collect();
    assert_eq!(change_entries("bus", &ten).len(), 1);
}

#[test]
fn publisher_message() {
    let m = MyMessage::greeting();
    assert_eq!(m.to_json(), r#"{"message":"Hello from publisher","state":"new"}"#);
    let e = publisher_entry("my-bus");
    assert_eq!(e.event_bus_name, "my-bus");
    assert_eq!(e.detail_type, "Message");
    assert_eq!(e.detail, r#"{"message":"Hello from publisher","state":"new"}"#);
}

#[test]
fn object_location_requires_both() {
    assert_eq!(object_location(None, Some("k".to_string())).err(), Some(HandlerError::MissingBucketName));
    assert_eq!(object_location(Some("b".to_string()), None).err(), Some(HandlerError::MissingObjectKey));
    assert_eq!(HandlerError::MissingBucketName.message(), "Bucket name is missing");
    assert_eq!(HandlerError::MissingObjectKey.message(), "Object key is missing");
    assert_eq!(
        object_location(Some("b".to_string()), Some("k".to_string())).unwrap(),
        ("b".to_string(), "k".to_string())
    );
}

#[test]
fn detections_without_parent() {
    assert_eq!(top_level_detections(&vec![None, Some(0), None, Some(2)]), vec![0, 2]);
    assert!(top_level_detections(&vec![Some(1)]).is_empty());
}

#[test]
fn decimal_ids() {
    assert_eq!(decimal_string(0), "0");
    assert_eq!(decimal_string(1431648000), "1431648000");
    assert_eq!(decimal_string(-45), "-45");
    assert_eq!(decimal_string(i64::MIN), "-9223372036854775808");
    assert_eq!(decimal_string(i64::MAX), "9223372036854775807");
    let r = StoredEvent::new(1700000000, "{}".to_string());
    assert_eq!((r.id.as_str(), r.metadata.as_str()), ("1700000000", "{}"));
    let now = StoredEvent::stamped_now("{}".to_string());
    assert!(now.id.parse::<i64>().unwrap() > 1_600_000_000);
}

#[test]
fn config_cache() {
    let mut cache = ConfigCache::new();
    assert!(!cache.contains("prod"));
    cache.insert("prod".to_string(), MyConfig { id: 1, name: "a".to_string(), rank: 3 });
    assert!(cache.contains("prod"));
    assert_eq!(cache.get("prod").unwrap().rank, 3);
    cache.insert("prod".to_string(), MyConfig { id: 2, name: "b".to_string(), rank: 4 });
    assert_eq!(cache.get("prod").unwrap().id, 2);
    assert!(cache.get("dev").is_none());
    assert_eq!(
        config_url("2772", "app", "env", "prod"),
        "http://localhost:2772/applications/app/environments/env/configurations/prod"
    );
}

#[test]
fn payload_default_is_empty() {
    assert_eq!(PayLoad::default().is_hello_world_example, "");
}
