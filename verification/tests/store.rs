use kafka_client::kafka::client::CorrelationStore;
use kafka_client::kafka::message::RequestHeader;
use kafka_client::kafka::message::RequestKind;
use kafka_client::kafka::message::ResponseHeader;
use kafka_client::kafka::message::ResponseKind;
use kafka_protocol::messages::ApiVersionsRequest;
use kafka_protocol::messages::ApiVersionsResponse;

fn request(correlation_id: i32) -> (RequestHeader, RequestKind) {
    (
        RequestHeader {
            request_api_key: 18,
            request_api_version: 3,
            correlation_id,
            client_id: Some(String::from("hi")),
        },
        RequestKind::ApiVersionsRequest(ApiVersionsRequest::default()),
    )
}

fn response(correlation_id: i32) -> (ResponseHeader, ResponseKind) {
    (
        ResponseHeader { correlation_id },
        ResponseKind::ApiVersionsResponse(ApiVersionsResponse::default()),
    )
}

#[test]
fn fresh_store_has_nothing_in_flight() {
    let store = CorrelationStore::default();
    assert_eq!(store.in_flight_len(), 0);
    assert!(!store.is_in_flight(0));
}

#[test]
fn assign_tag_counts_up_from_zero_and_stamps_the_header() {
    let mut store = CorrelationStore::default();
    let mut a = request(77);
    let mut b = request(77);
    assert_eq!(store.assign_tag(&mut a), 0);
    assert_eq!(store.assign_tag(&mut b), 1);
    assert_eq!(a.0.correlation_id, 0);
    assert_eq!(b.0.correlation_id, 1);
    assert_eq!(a.0.request_api_key, 18);
    assert_eq!(a.0.request_api_version, 3);
    assert_eq!(a.0.client_id, Some(String::from("hi")));
    assert!(matches!(a.1, RequestKind::ApiVersionsRequest(_)));
    assert!(store.is_in_flight(0));
    assert!(store.is_in_flight(1));
    assert!(!store.is_in_flight(2));
}

#[test]
fn ids_of_many_outstanding_calls_are_distinct() {
    let mut store = CorrelationStore::default();
    let mut seen: Vec<i32> = Vec::new();
    for _ in 0..500 {
        let mut r = request(0);
        let tag = store.assign_tag(&mut r);
        assert!(!seen.contains(&tag));
        seen.push(tag);
    }
    assert_eq!(store.in_flight_len(), 500);
}

#[test]
fn finish_tag_returns_the_id_and_retires_only_it() {
    let mut store = CorrelationStore::default();
    let mut a = request(0);
    let mut b = request(0);
    let first = store.assign_tag(&mut a);
    let second = store.assign_tag(&mut b);
    assert_eq!(store.finish_tag(&response(second)), second);
    assert!(store.is_in_flight(first));
    assert!(!store.is_in_flight(second));
    assert_eq!(store.in_flight_len(), 1);
    assert_eq!(store.finish_tag(&response(first)), first);
    assert_eq!(store.in_flight_len(), 0);
}

#[test]
fn finish_tag_of_an_unknown_id_changes_nothing() {
    let mut store = CorrelationStore::default();
    let mut a = request(0);
    store.assign_tag(&mut a);
    assert_eq!(store.finish_tag(&response(41)), 41);
    assert_eq!(store.in_flight_len(), 1);
    assert!(store.is_in_flight(0));
}

#[test]
fn ids_are_not_reused_after_a_response() {
    let mut store = CorrelationStore::default();
    let mut a = request(0);
    let first = store.assign_tag(&mut a);
    store.finish_tag(&response(first));
    let mut b = request(0);
    assert_eq!(store.assign_tag(&mut b), 1);
}

#[test]
fn release_retires_an_id_without_a_response() {
    let mut store = CorrelationStore::default();
    let mut a = request(0);
    let mut b = request(0);
    let first = store.assign_tag(&mut a);
    let second = store.assign_tag(&mut b);
    assert!(store.release(first));
    assert!(!store.release(first));
    assert!(!store.is_in_flight(first));
    assert!(store.is_in_flight(second));
}

#[test]
fn release_all_keeps_counting_where_it_was() {
    let mut store = CorrelationStore::default();
    for _ in 0..3 {
        let mut r = request(0);
        store.assign_tag(&mut r);
    }
    assert_eq!(store.release_all(), 3);
    assert_eq!(store.in_flight_len(), 0);
    let mut r = request(0);
    assert_eq!(store.assign_tag(&mut r), 3);
}
