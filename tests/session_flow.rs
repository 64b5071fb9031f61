use resmon::{
    handle, CatIndex, ClusterHealth, Command, ComponentKind, Config, ElasticsearchApiHandler,
    ElasticsearchClient, ElasticsearchClientError, ElasticsearchComponentKind,
    ElasticsearchConfig, ElasticsearchCredential, ElasticsearchRequestEvent,
    ElasticsearchResponseEvent, Key, KeyInput, Navigate, RequestEnvelope, RequestEvent,
    RequestId, ResourceKind, ResponseEnvelope, ResponseEvent, Session, TableFilter,
    TransportError, AppError,
};

fn cluster(name: &str) -> ElasticsearchConfig {
    ElasticsearchConfig {
        name: name.to_owned(),
        endpoint: format!("https://{name}.example"),
        credential: ElasticsearchCredential {
            username: "elastic".to_owned(),
            password: "pw".to_owned(),
            cloud_id: Some(format!("{name}:cloud")),
        },
    }
}

fn three_clusters() -> Session {
    Session::new(Config { elasticsearch: Some(vec![cluster("a"), cluster("b"), cluster("c")]) })
}

fn row(name: &str) -> CatIndex {
    CatIndex {
        docs_count: "1".into(),
        docs_deleted: "0".into(),
        health: "green".into(),
        index: name.to_owned(),
        pri: "1".into(),
        pri_store_size: "100".into(),
        rep: "1".into(),
        status: "open".into(),
        store_size: "200".into(),
        uuid: format!("uuid-{name}"),
    }
}

fn health(name: &str, status: &str) -> ClusterHealth {
    ClusterHealth {
        active_primary_shards: 5,
        active_shards: 10,
        active_shards_percent_as_number: "100.0".into(),
        cluster_name: name.to_owned(),
        delayed_unassigned_shards: 0,
        initializing_shards: 0,
        number_of_data_nodes: 3,
        number_of_in_flight_fetch: 0,
        number_of_nodes: 3,
        number_of_pending_tasks: 0,
        relocating_shards: 0,
        status: status.to_owned(),
        task_max_waiting_in_queue_millis: 0,
        timed_out: false,
        unassigned_shards: 0,
    }
}

fn key(c: char) -> KeyInput {
    KeyInput { code: Key::Char(c), ctrl: false }
}

fn es(k: ElasticsearchComponentKind) -> ComponentKind {
    ComponentKind::Elasticsearch(k)
}

fn only_request(envs: &[RequestEnvelope]) -> &ElasticsearchRequestEvent {
    assert_eq!(envs.len(), 1);
    match &envs[0].event {
        RequestEvent::Elasticsearch(e) => e,
    }
}

fn indices_of(id: RequestId, cluster: &str, names: &[&str]) -> ResponseEnvelope {
    ResponseEnvelope {
        request_id: id,
        result: Ok(ResponseEvent::Elasticsearch(ElasticsearchResponseEvent::Indices {
            cluster_name: cluster.to_owned(),
            response: names.iter().map(|n| row(n)).collect(),
        })),
    }
}

#[test]
fn start_fetches_health_of_first_cluster() {
    let mut s = three_clusters();
    let envs = s.start(0);
    match only_request(&envs) {
        ElasticsearchRequestEvent::FetchCluster { cluster_name } => assert_eq!(cluster_name, "a"),
        other => panic!("unexpected {other:?}"),
    }
    assert_eq!(s.transport().stats().in_flight_requests(), 1);
}

#[test]
fn entering_index_row_requests_its_detail_only() {
    let mut s = three_clusters();
    s.start(0);
    // cluster b
    s.on_command(Command::FocusComponent(es(ElasticsearchComponentKind::ClusterList)), 1).unwrap();
    let envs = s
        .on_command(
            Command::NavigateComponent(es(ElasticsearchComponentKind::ClusterList), Navigate::Down),
            2,
        )
        .unwrap();
    match only_request(&envs) {
        ElasticsearchRequestEvent::FetchCluster { cluster_name } => assert_eq!(cluster_name, "b"),
        other => panic!("unexpected {other:?}"),
    }
    // resource "Index"
    s.on_command(Command::FocusComponent(es(ElasticsearchComponentKind::ResourceList)), 3).unwrap();
    let envs = s
        .on_command(
            Command::NavigateComponent(es(ElasticsearchComponentKind::ResourceList), Navigate::Down),
            4,
        )
        .unwrap();
    let list_id = envs[0].request_id;
    match only_request(&envs) {
        ElasticsearchRequestEvent::FetchIndices { cluster_name } => assert_eq!(cluster_name, "b"),
        other => panic!("unexpected {other:?}"),
    }
    s.on_response(indices_of(list_id, "b", &["i0", "i1", "i2", "i3", "i4"]), 5).unwrap();
    // a second listing request is still pending when the detail is entered
    let pending = s
        .on_command(Command::Leave(es(ElasticsearchComponentKind::IndexDetail)), 6)
        .unwrap();
    let pending_id = pending[0].request_id;
    s.on_command(Command::FocusComponent(es(ElasticsearchComponentKind::IndexTable)), 7).unwrap();
    for t in 8..10 {
        let envs = s
            .on_command(
                Command::NavigateComponent(es(ElasticsearchComponentKind::IndexTable), Navigate::Down),
                t,
            )
            .unwrap();
        assert!(envs.is_empty());
    }
    assert_eq!(s.view().elasticsearch().index_cursor(), Some(2));
    let before = s.transport().stats().in_flight_requests();
    let envs = s.on_command(Command::Enter(es(ElasticsearchComponentKind::IndexDetail)), 10).unwrap();
    match only_request(&envs) {
        ElasticsearchRequestEvent::FetchIndex { cluster_name, index } => {
            assert_eq!(cluster_name, "b");
            assert_eq!(index, "i2");
        }
        other => panic!("unexpected {other:?}"),
    }
    assert_eq!(s.transport().stats().in_flight_requests(), before + 1);
    assert_eq!(
        s.view().state().entered_component,
        Some(es(ElasticsearchComponentKind::IndexDetail))
    );
    // the detail arrives, then the late listing
    let detail = ResponseEnvelope {
        request_id: envs[0].request_id,
        result: Ok(ResponseEvent::Elasticsearch(ElasticsearchResponseEvent::Index {
            cluster_name: "b".into(),
            index: "i2".into(),
            response: resmon::Index { aliases: None, mappings: None, settings: None },
        })),
    };
    s.on_response(detail, 11).unwrap();
    s.on_response(indices_of(pending_id, "b", &["z"]), 12).unwrap();
    assert!(s.view().elasticsearch().data().get_index("b", "i2").is_some());
    assert_eq!(s.view().elasticsearch().entered_index().map(|s| s.as_str()), Some("i2"));
    assert_eq!(s.transport().stats().in_flight_requests(), before - 1);
}

#[test]
fn failed_health_keeps_last_good_snapshot() {
    let mut s = three_clusters();
    let first = s.start(0);
    let ok = ResponseEnvelope {
        request_id: first[0].request_id,
        result: Ok(ResponseEvent::Elasticsearch(ElasticsearchResponseEvent::ClusterHealth {
            cluster_name: "a".into(),
            response: health("a", "green"),
        })),
    };
    s.on_response(ok, 5).unwrap();
    let again = s
        .on_command(
            Command::NavigateComponent(es(ElasticsearchComponentKind::ResourceList), Navigate::Up),
            6,
        )
        .unwrap();
    let again = s
        .on_command(
            Command::NavigateComponent(es(ElasticsearchComponentKind::ResourceList), Navigate::Down),
            7,
        )
        .unwrap()
        .into_iter()
        .chain(again)
        .collect::<Vec<_>>();
    let health_id = again
        .iter()
        .find(|e| matches!(&e.event, RequestEvent::Elasticsearch(ElasticsearchRequestEvent::FetchCluster { .. })))
        .unwrap()
        .request_id;
    let before = s.transport().stats().in_flight_requests();
    s.on_response(
        ResponseEnvelope { request_id: health_id, result: Err("elasticsearch api error".into()) },
        9,
    )
    .unwrap();
    assert_eq!(s.transport().stats().in_flight_requests(), before - 1);
    let latest = s.transport().stats().latest_transport().unwrap();
    assert_eq!(latest.response.as_ref().err().map(|m| m.as_str()), Some("elasticsearch api error"));
    let kept = s.view().elasticsearch().data().get_cluster_health("a").unwrap();
    assert_eq!(kept.status, "green");
}

#[test]
fn leave_clears_entered_state_without_pending_refresh() {
    let mut s = three_clusters();
    let envs = s.on_command(Command::Leave(es(ElasticsearchComponentKind::IndexDetail)), 0).unwrap();
    assert_eq!(envs.len(), 1);
    assert_eq!(s.view().state().entered_component, None);
    assert!(s.view().elasticsearch().entered_index().is_none());
}

#[test]
fn fetch_plan_is_the_same_when_asked_twice() {
    let s = three_clusters();
    let p1 = s.view().pre_render_loop().unwrap();
    let p2 = s.view().pre_render_loop().unwrap();
    assert_eq!(p1.len(), p2.len());
    assert_eq!(format!("{:?}", p1), format!("{:?}", p2));
    let q1 = s.view().elasticsearch().fetch_data();
    let q2 = s.view().elasticsearch().fetch_data();
    assert_eq!(format!("{:?}", q1), format!("{:?}", q2));
}

#[test]
fn quit_stops_the_loop() {
    let mut s = three_clusters();
    assert!(s.on_command(Command::QuitApp, 0).is_none());
}

#[test]
fn unknown_response_is_refused() {
    let mut s = three_clusters();
    let r = s.on_response(
        ResponseEnvelope { request_id: RequestId(42), result: Err("x".into()) },
        0,
    );
    assert_eq!(r, Err(TransportError::UnknownRequest(RequestId(42))));
}

#[test]
fn resource_tab_navigation_changes_selected_resource() {
    let mut s = three_clusters();
    s.on_command(Command::FocusComponent(ComponentKind::ResourceTab), 0).unwrap();
    let envs = s
        .on_command(Command::NavigateComponent(ComponentKind::ResourceTab, Navigate::Left), 1)
        .unwrap();
    assert!(envs.is_empty());
    assert_eq!(s.view().state().selected_resource, Some(ResourceKind::RabbitMQ));
    let envs = s
        .on_command(Command::NavigateComponent(ComponentKind::ResourceTab, Navigate::Right), 2)
        .unwrap();
    assert_eq!(s.view().state().selected_resource, Some(ResourceKind::Elasticsearch));
    assert_eq!(envs.len(), 1);
}

#[test]
fn keys_decode_to_commands() {
    let s = three_clusters();
    let st = s.view().state();
    assert_eq!(handle(key('q'), st), Some(Command::QuitApp));
    assert_eq!(handle(KeyInput { code: Key::Char('c'), ctrl: true }, st), Some(Command::QuitApp));
    assert_eq!(
        handle(key('c'), st),
        Some(Command::FocusComponent(es(ElasticsearchComponentKind::ClusterList)))
    );
    assert_eq!(
        handle(key('i'), st),
        Some(Command::FocusComponent(es(ElasticsearchComponentKind::IndexTable)))
    );
    assert_eq!(handle(key('r'), st), Some(Command::FocusComponent(ComponentKind::ResourceTab)));
    assert_eq!(handle(key('x'), st), None);
    assert_eq!(
        handle(KeyInput { code: Key::Esc, ctrl: false }, st),
        Some(Command::UnfocusComponent)
    );
}

#[test]
fn focused_table_takes_moves_and_enter() {
    let mut s = three_clusters();
    s.on_command(Command::FocusComponent(es(ElasticsearchComponentKind::IndexTable)), 0).unwrap();
    let st = s.view().state();
    assert_eq!(
        handle(key('j'), st),
        Some(Command::NavigateComponent(es(ElasticsearchComponentKind::IndexTable), Navigate::Down))
    );
    assert_eq!(
        handle(KeyInput { code: Key::Up, ctrl: false }, st),
        Some(Command::NavigateComponent(es(ElasticsearchComponentKind::IndexTable), Navigate::Up))
    );
    assert_eq!(
        handle(KeyInput { code: Key::Enter, ctrl: false }, st),
        Some(Command::Enter(es(ElasticsearchComponentKind::IndexDetail)))
    );
}

#[test]
fn escape_leaves_drill_down_first() {
    let mut s = three_clusters();
    let first = s.start(0);
    s.on_command(Command::FocusComponent(es(ElasticsearchComponentKind::ResourceList)), 1).unwrap();
    let envs = s
        .on_command(
            Command::NavigateComponent(es(ElasticsearchComponentKind::ResourceList), Navigate::Down),
            2,
        )
        .unwrap();
    s.on_response(indices_of(envs[0].request_id, "a", &["x", "y"]), 3).unwrap();
    let _ = first;
    s.on_command(Command::FocusComponent(es(ElasticsearchComponentKind::IndexTable)), 4).unwrap();
    s.on_command(Command::Enter(es(ElasticsearchComponentKind::IndexDetail)), 5).unwrap();
    let st = s.view().state();
    assert_eq!(
        handle(KeyInput { code: Key::Esc, ctrl: false }, st),
        Some(Command::Leave(es(ElasticsearchComponentKind::IndexDetail)))
    );
}

#[test]
fn listing_is_sorted_and_system_rows_hidden() {
    let mut s = three_clusters();
    s.on_command(Command::FocusComponent(es(ElasticsearchComponentKind::ResourceList)), 0).unwrap();
    let envs = s
        .on_command(
            Command::NavigateComponent(es(ElasticsearchComponentKind::ResourceList), Navigate::Down),
            1,
        )
        .unwrap();
    s.on_response(indices_of(envs[0].request_id, "a", &["zeta", ".kibana", "alpha"]), 2).unwrap();
    let data = s.view().elasticsearch().data();
    let all: Vec<&str> = data.get_visible_indices("a", None).unwrap().iter().map(|r| r.index.as_str()).collect();
    assert_eq!(all, vec![".kibana", "alpha", "zeta"]);
    let shown: Vec<&str> = data
        .get_visible_indices("a", Some(TableFilter::HideSystem))
        .unwrap()
        .iter()
        .map(|r| r.index.as_str())
        .collect();
    assert_eq!(shown, vec!["alpha", "zeta"]);
    assert!(data.get_visible_indices("b", None).is_none());
}

#[test]
fn client_needs_cloud_id() {
    let mut c = cluster("a");
    c.credential.cloud_id = None;
    assert_eq!(ElasticsearchClient::new(c).err(), Some(ElasticsearchClientError::BuildClient));
    let ok = ElasticsearchClient::new(cluster("b")).ok().unwrap();
    assert_eq!(ok.name(), "b");
    assert_eq!(ok.cloud_id(), "b:cloud");
    assert_eq!(ok.default_timeout_secs(), 20);
}

#[test]
fn handler_looks_clusters_up_by_name() {
    let h = ElasticsearchApiHandler::new(vec![cluster("a"), cluster("b")]).ok().unwrap();
    assert_eq!(h.lookup_cluster("b").ok().unwrap().name(), "b");
    assert!(h.lookup_cluster("zz").is_err());
    let req = ElasticsearchRequestEvent::FetchIndices { cluster_name: "a".into() };
    assert_eq!(h.route(&req).ok().unwrap().name(), "a");
    let mut bad = cluster("c");
    bad.credential.cloud_id = None;
    assert!(ElasticsearchApiHandler::new(vec![cluster("a"), bad]).is_err());
}

#[test]
fn app_error_messages() {
    assert_eq!(AppError::terminal_io().message(), "terminal io error");
    assert_eq!(AppError::configure_client().message(), "configure client error");
    assert_eq!(AppError::new("x".into()).message(), "x");
}

#[test]
fn enter_needs_the_index_view() {
    let mut s = three_clusters();
    s.start(0);
    let envs = s
        .on_command(
            Command::NavigateComponent(es(ElasticsearchComponentKind::ResourceList), Navigate::Down),
            1,
        )
        .unwrap();
    s.on_response(indices_of(envs[0].request_id, "a", &["x", "y"]), 2).unwrap();
    // back to the cluster view, with index rows cached
    s.on_command(
        Command::NavigateComponent(es(ElasticsearchComponentKind::ResourceList), Navigate::Up),
        3,
    )
    .unwrap();
    s.on_command(Command::FocusComponent(es(ElasticsearchComponentKind::IndexTable)), 4).unwrap();
    let envs = s.on_command(Command::Enter(es(ElasticsearchComponentKind::IndexDetail)), 5).unwrap();
    assert!(envs.is_empty());
    assert_eq!(s.view().state().entered_component, None);
    assert!(s.view().elasticsearch().entered_index().is_none());
}

#[test]
fn focus_moves_the_components_own_flags() {
    let mut s = three_clusters();
    s.on_command(Command::FocusComponent(ComponentKind::ResourceTab), 0).unwrap();
    assert!(s.view().resource_tab().is_focused());
    assert_eq!(s.view().elasticsearch().focused(), None);
    s.on_command(Command::FocusComponent(es(ElasticsearchComponentKind::AliasTable)), 1).unwrap();
    assert!(!s.view().resource_tab().is_focused());
    assert_eq!(s.view().elasticsearch().focused(), Some(ElasticsearchComponentKind::AliasTable));
    s.on_command(Command::UnfocusComponent, 2).unwrap();
    assert_eq!(s.view().elasticsearch().focused(), None);
    assert_eq!(s.view().state().focused_component, None);
}

#[test]
fn history_keeps_the_answer() {
    let mut s = three_clusters();
    let first = s.start(0);
    let ok = ResponseEnvelope {
        request_id: first[0].request_id,
        result: Ok(ResponseEvent::Elasticsearch(ElasticsearchResponseEvent::ClusterHealth {
            cluster_name: "a".into(),
            response: health("a", "yellow"),
        })),
    };
    s.on_response(ok, 7).unwrap();
    let latest = s.transport().stats().latest_transport().unwrap();
    match &latest.response {
        Ok(ResponseEvent::Elasticsearch(ElasticsearchResponseEvent::ClusterHealth { cluster_name, response })) => {
            assert_eq!(cluster_name, "a");
            assert_eq!(response.status, "yellow");
        }
        _ => panic!("wrong record"),
    }
    assert_eq!(latest.elapsed(), 7);
}
