use serde_json::{Number, Value};
use workix_desktop::method::HttpMethod;
use workix_desktop::request::{build_url, BackendRequest, BASE_URL};

fn widget() -> Value {
    let mut fields = serde_json::Map::new();
    fields.insert(String::from("id"), Value::Number(Number::from(1)));
    fields.insert(String::from("name"), Value::String(String::from("widget")));
    Value::Object(fields)
}

#[test]
fn the_base_address_is_fixed() {
    assert_eq!(BASE_URL, "http://localhost:5000/api");
}

#[test]
fn the_endpoint_is_appended_behind_a_slash() {
    assert_eq!(build_url("orders"), "http://localhost:5000/api/orders");
    assert_eq!(build_url("orders/1"), "http://localhost:5000/api/orders/1");
}

#[test]
fn the_endpoint_is_taken_as_it_is() {
    assert_eq!(build_url(""), "http://localhost:5000/api/");
    assert_eq!(build_url("/orders"), "http://localhost:5000/api//orders");
    assert_eq!(build_url("orders/"), "http://localhost:5000/api/orders/");
    assert_eq!(build_url("a b?c=d&e#f"), "http://localhost:5000/api/a b?c=d&e#f");
    assert_eq!(build_url("../admin"), "http://localhost:5000/api/../admin");
    assert_eq!(build_url("caf\u{e9}"), "http://localhost:5000/api/caf\u{e9}");
}

#[test]
fn a_missing_body_becomes_the_empty_object() {
    let request = BackendRequest::new("widgets", HttpMethod::Get, None);
    assert_eq!(request.method, HttpMethod::Get);
    assert_eq!(request.url, "http://localhost:5000/api/widgets");
    assert_eq!(request.body, Value::Object(serde_json::Map::new()));
    assert_eq!(request.payload(), "{}");
}

#[test]
fn a_missing_body_is_replaced_for_every_method() {
    for method in [HttpMethod::Get, HttpMethod::Post, HttpMethod::Put, HttpMethod::Delete] {
        let request = BackendRequest::new("widgets", method, None);
        assert_eq!(request.method, method);
        assert_eq!(request.payload(), "{}");
    }
}

#[test]
fn missing_and_empty_bodies_make_the_same_request() {
    let without = BackendRequest::new("widgets", HttpMethod::Get, None);
    let empty = Value::Object(serde_json::Map::new());
    let with_empty = BackendRequest::new("widgets", HttpMethod::Get, Some(empty));
    assert_eq!(without.payload(), with_empty.payload());
    assert_eq!(without, with_empty);
}

#[test]
fn a_given_body_is_sent_unchanged() {
    let request = BackendRequest::new("widgets", HttpMethod::Post, Some(widget()));
    assert_eq!(request.body, widget());
    assert_eq!(request.payload(), "{\"id\":1,\"name\":\"widget\"}");
}

#[test]
fn a_body_need_not_be_an_object() {
    let null = BackendRequest::new("x", HttpMethod::Put, Some(Value::Null));
    assert_eq!(null.body, Value::Null);
    assert_eq!(null.payload(), "null");
    let list = BackendRequest::new(
        "x",
        HttpMethod::Put,
        Some(Value::Array(vec![Value::Bool(true), Value::String(String::from("a\"b"))])),
    );
    assert_eq!(list.payload(), "[true,\"a\\\"b\"]");
}
