use resmon::{
    humanize_str_bytes, CatIndex, Config, TableFilter, Cursor, ElasticsearchConfig, ElasticsearchCredential, Navigate, Navigated,
    ResourceKind, Styled,
};

fn cluster(name: &str, cloud: Option<&str>) -> ElasticsearchConfig {
    ElasticsearchConfig {
        name: name.to_owned(),
        endpoint: format!("https://{name}.example"),
        credential: ElasticsearchCredential {
            username: "elastic".to_owned(),
            password: "secret".to_owned(),
            cloud_id: cloud.map(|c| c.to_owned()),
        },
    }
}

#[test]
fn config_without_section_has_no_clusters() {
    let c = Config { elasticsearch: None };
    assert_eq!(c.elasticsearch_configs().len(), 0);
    let c = Config { elasticsearch: Some(vec![cluster("a", Some("id"))]) };
    assert_eq!(c.elasticsearch_configs().len(), 1);
}

#[test]
fn inc_wraps_at_the_end() {
    assert_eq!(Navigate::inc(4, 5), 0);
    assert_eq!(Navigate::inc(2, 5), 3);
    assert_eq!(Navigate::inc(7, 5), 3);
    assert_eq!(Navigate::inc(3, 0), 0);
    assert_eq!(Navigate::inc(usize::MAX, 10), 6);
}

#[test]
fn dec_wraps_at_the_start() {
    assert_eq!(Navigate::dec(0, 5), 4);
    assert_eq!(Navigate::dec(3, 5), 2);
    assert_eq!(Navigate::dec(0, 0), 0);
}

#[test]
fn optional_moves_start_at_the_ends() {
    assert_eq!(Navigate::inc_opt(None, 5), 0);
    assert_eq!(Navigate::dec_opt(None, 5), 4);
    assert_eq!(Navigate::dec_opt(None, 0), 0);
    assert_eq!(Navigate::inc_opt(Some(1), 5), 2);
    assert_eq!(Navigate::dec_opt(Some(1), 5), 0);
}

#[test]
fn cursor_down_from_last_row_selects_first() {
    let mut c = Cursor::new(Some(4));
    assert_eq!(c.apply(Navigate::Down, 5), Navigated::Happen);
    assert_eq!(c.selected(), Some(0));
}

#[test]
fn cursor_up_from_first_row_selects_last() {
    let mut c = Cursor::new(Some(0));
    assert_eq!(c.apply(Navigate::Up, 5), Navigated::Happen);
    assert_eq!(c.selected(), Some(4));
    let mut c = Cursor::new(None);
    c.apply(Navigate::Up, 3);
    assert_eq!(c.selected(), Some(2));
}

#[test]
fn cursor_on_empty_list_keeps_selection() {
    let mut c = Cursor::new(Some(3));
    assert_eq!(c.apply(Navigate::Down, 0), Navigated::DoesNotHappen);
    assert_eq!(c.selected(), Some(3));
    assert_eq!(c.apply(Navigate::Up, 0), Navigated::DoesNotHappen);
    assert_eq!(c.selected(), Some(3));
    let mut c = Cursor::new(None);
    c.apply(Navigate::Down, 0);
    assert_eq!(c.selected(), None);
}

#[test]
fn cursor_ignores_left_and_right() {
    let mut c = Cursor::new(Some(1));
    assert_eq!(c.apply(Navigate::Left, 5), Navigated::DoesNotHappen);
    assert_eq!(c.apply(Navigate::Right, 5), Navigated::DoesNotHappen);
    assert_eq!(c.selected(), Some(1));
}

#[test]
fn resource_variants_in_tab_order() {
    assert_eq!(
        ResourceKind::variants(),
        vec![ResourceKind::Elasticsearch, ResourceKind::Mongo, ResourceKind::RabbitMQ]
    );
    assert_eq!(ResourceKind::RabbitMQ.name(), "rabbitmq");
}

#[test]
fn box_border_is_two_rows() {
    assert_eq!(Styled::new().box_border_height(), 2);
}

#[test]
fn cat_index_fields_hold_text() {
    let row = CatIndex {
        docs_count: "1".into(),
        docs_deleted: "0".into(),
        health: "green".into(),
        index: "logs".into(),
        pri: "1".into(),
        pri_store_size: "10".into(),
        rep: "1".into(),
        status: "open".into(),
        store_size: "20".into(),
        uuid: "u".into(),
    };
    assert_eq!(row.index, "logs");
}

#[test]
fn byte_counts_are_written_in_binary_units() {
    assert_eq!(humanize_str_bytes("1024"), "1 KiB");
    assert_eq!(humanize_str_bytes("1536"), "1.50 KiB");
    assert_eq!(humanize_str_bytes("12"), "12 B");
    assert_eq!(humanize_str_bytes("+0"), "0 B");
}

#[test]
fn text_that_is_no_count_is_unknown() {
    assert_eq!(humanize_str_bytes("abc"), "unknown");
    assert_eq!(humanize_str_bytes(""), "unknown");
    assert_eq!(humanize_str_bytes("-1"), "unknown");
    assert_eq!(humanize_str_bytes("18446744073709551616"), "unknown");
}

#[test]
fn system_filter_hides_dot_names() {
    assert!(!TableFilter::HideSystem.apply(".security"));
    assert!(TableFilter::HideSystem.apply("logs"));
    assert!(TableFilter::HideSystem.apply(""));
}
