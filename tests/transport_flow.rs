use resmon::{
    CatIndex, ClusterHealth, ElasticsearchRequestEvent, ElasticsearchResponseEvent,
    RequestEvent, RequestId, ResponseEnvelope, ResponseEvent, TransportController, TransportError,
    HISTORY_SIZE,
};

fn fetch_cluster(name: &str) -> RequestEvent {
    RequestEvent::Elasticsearch(ElasticsearchRequestEvent::FetchCluster {
        cluster_name: name.to_owned(),
    })
}

fn failure(id: RequestId, msg: &str) -> ResponseEnvelope {
    ResponseEnvelope { request_id: id, result: Err(msg.to_owned()) }
}

fn health(name: &str) -> ClusterHealth {
    ClusterHealth {
        active_primary_shards: 1,
        active_shards: 2,
        active_shards_percent_as_number: "100.0".into(),
        cluster_name: name.to_owned(),
        delayed_unassigned_shards: 0,
        initializing_shards: 0,
        number_of_data_nodes: 1,
        number_of_in_flight_fetch: 0,
        number_of_nodes: 1,
        number_of_pending_tasks: 0,
        relocating_shards: 0,
        status: "green".into(),
        task_max_waiting_in_queue_millis: 0,
        timed_out: false,
        unassigned_shards: 0,
    }
}

#[test]
fn request_ids_are_unique_and_increasing() {
    let mut t = TransportController::new();
    let a = t.send_request(fetch_cluster("a"), 10);
    let b = t.send_request(fetch_cluster("b"), 11);
    let c = t.send_request(fetch_cluster("c"), 12);
    assert_eq!(a.request_id, RequestId(0));
    assert_eq!(b.request_id, RequestId(1));
    assert_eq!(c.request_id, RequestId(2));
    assert_eq!(t.stats().in_flight_requests(), 3);
}

#[test]
fn send_requests_keeps_order() {
    let mut t = TransportController::new();
    let envs = t.send_requests(vec![fetch_cluster("a"), fetch_cluster("b")], 5);
    assert_eq!(envs.len(), 2);
    assert_eq!(envs[0].request_id, RequestId(0));
    assert_eq!(envs[1].request_id, RequestId(1));
    match &envs[1].event {
        RequestEvent::Elasticsearch(ElasticsearchRequestEvent::FetchCluster { cluster_name }) => {
            assert_eq!(cluster_name, "b")
        }
        _ => panic!("wrong request"),
    }
}

#[test]
fn response_matches_its_request_once() {
    let mut t = TransportController::new();
    let env = t.send_request(fetch_cluster("a"), 100);
    let ok = ResponseEnvelope {
        request_id: env.request_id,
        result: Ok(ResponseEvent::Elasticsearch(ElasticsearchResponseEvent::ClusterHealth {
            cluster_name: "a".into(),
            response: health("a"),
        })),
    };
    assert!(t.recv_response(ok, 130).is_ok());
    assert_eq!(t.stats().in_flight_requests(), 0);
    let again = failure(env.request_id, "late");
    assert_eq!(
        t.recv_response(again, 140).err(),
        Some(TransportError::UnknownRequest(env.request_id))
    );
    assert_eq!(t.stats().history().len(), 1);
    let latest = t.stats().latest_transport().unwrap();
    assert_eq!(latest.elapsed(), 30);
    assert!(latest.response.is_ok());
}

#[test]
fn unknown_response_changes_nothing() {
    let mut t = TransportController::new();
    t.send_request(fetch_cluster("a"), 1);
    assert!(t.recv_response(failure(RequestId(7), "x"), 2).is_err());
    assert_eq!(t.stats().in_flight_requests(), 1);
    assert!(t.stats().latest_transport().is_none());
}

#[test]
fn in_flight_count_moves_by_one() {
    let mut t = TransportController::new();
    let a = t.send_request(fetch_cluster("a"), 1);
    assert_eq!(t.stats().in_flight_requests(), 1);
    let b = t.send_request(fetch_cluster("b"), 2);
    assert_eq!(t.stats().in_flight_requests(), 2);
    t.recv_response(failure(b.request_id, "down"), 3).unwrap();
    assert_eq!(t.stats().in_flight_requests(), 1);
    t.recv_response(failure(a.request_id, "down"), 4).unwrap();
    assert_eq!(t.stats().in_flight_requests(), 0);
}

#[test]
fn failure_is_recorded_with_its_message() {
    let mut t = TransportController::new();
    let a = t.send_request(fetch_cluster("a"), 50);
    t.recv_response(failure(a.request_id, "elasticsearch api error | api request error"), 80)
        .unwrap();
    let latest = t.stats().latest_transport().unwrap();
    assert_eq!(
        latest.response.as_ref().err().map(|s| s.as_str()),
        Some("elasticsearch api error | api request error")
    );
    assert_eq!(latest.request_send, 50);
    assert_eq!(latest.response_received, 80);
}

#[test]
fn history_is_cut_back_after_twice_its_size() {
    let mut t = TransportController::new();
    for i in 0..(2 * HISTORY_SIZE as u64) {
        let e = t.send_request(fetch_cluster("a"), i);
        t.recv_response(failure(e.request_id, &format!("e{i}")), i + 1).unwrap();
    }
    assert_eq!(t.stats().history().len(), 2 * HISTORY_SIZE);
    let e = t.send_request(fetch_cluster("a"), 999);
    t.recv_response(failure(e.request_id, "newest"), 1000).unwrap();
    assert_eq!(t.stats().history().len(), HISTORY_SIZE);
    let first = &t.stats().history()[0];
    assert_eq!(first.response.as_ref().err().map(|s| s.as_str()), Some("newest"));
    let second = &t.stats().history()[1];
    assert_eq!(second.response.as_ref().err().map(|s| s.as_str()), Some("e199"));
}

#[test]
fn elapsed_never_negative() {
    let mut t = TransportController::new();
    let e = t.send_request(fetch_cluster("a"), 100);
    t.recv_response(failure(e.request_id, "x"), 90).unwrap();
    assert_eq!(t.stats().latest_transport().unwrap().elapsed(), 0);
}

#[test]
fn cat_index_rows_are_plain_text() {
    let r = CatIndex {
        docs_count: "3".into(),
        docs_deleted: "0".into(),
        health: "yellow".into(),
        index: "x".into(),
        pri: "1".into(),
        pri_store_size: "1".into(),
        rep: "0".into(),
        status: "open".into(),
        store_size: "1".into(),
        uuid: "id".into(),
    };
    assert_eq!(r.health, "yellow");
}
