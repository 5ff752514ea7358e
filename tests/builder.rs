use evebox_store::builder::{count_placeholders, BuildError, EventQueryBuilder, SqlArg};
use evebox_store::filters::{AlertQueryOptions, QueryElement, QueryValue};
use evebox_store::queries::{group_by_alert_query, streaming_alert_query};

fn options() -> AlertQueryOptions {
    AlertQueryOptions { tags: vec![], sensor: None, timestamp_gte: None, query: vec![] }
}

fn text_arg(a: &SqlArg) -> Option<&str> {
    match a {
        SqlArg::Text(s) => Some(s.as_str()),
        SqlArg::Int(_) => None,
    }
}

fn int_arg(a: &SqlArg) -> Option<i64> {
    match a {
        SqlArg::Int(n) => Some(*n),
        SqlArg::Text(_) => None,
    }
}

#[test]
fn builds_select_with_where_and_order() {
    let mut b = EventQueryBuilder::new(false);
    b.select("rowid").unwrap();
    b.selectjs("alert.signature_id").unwrap();
    b.from("events").unwrap();
    b.wherejs("event_type", "=", SqlArg::Text("alert".to_string())).unwrap();
    b.push_where("archived = ?");
    b.push_arg(SqlArg::Int(1)).unwrap();
    b.order_by("timestamp", "DESC").unwrap();
    let (sql, args) = b.build().unwrap();
    assert_eq!(
        sql,
        "SELECT rowid, json_extract(events.source, '$.alert.signature_id') AS \"alert.signature_id\" FROM events WHERE json_extract(events.source, '$.event_type') = ? AND archived = ? ORDER BY timestamp DESC"
    );
    assert_eq!(args.len(), 2);
    assert_eq!(text_arg(&args[0]), Some("alert"));
    assert_eq!(int_arg(&args[1]), Some(1));
}

#[test]
fn indexed_mode_reads_the_indexed_column() {
    let mut b = EventQueryBuilder::new(true);
    b.selectjs("src_ip").unwrap();
    b.from("events").unwrap();
    b.wherejs("host", "=", SqlArg::Text("h".to_string())).unwrap();
    let (sql, _) = b.build().unwrap();
    assert_eq!(
        sql,
        "SELECT events.source->>'$.src_ip' AS \"src_ip\" FROM events WHERE events.source->>'$.host' = ?"
    );
}

#[test]
fn argument_without_placeholder_is_refused() {
    let mut b = EventQueryBuilder::new(false);
    b.push_where("archived = 1");
    assert_eq!(b.push_arg(SqlArg::Int(1)), Err(BuildError::UnboundArgument));
}

#[test]
fn placeholder_without_argument_is_refused() {
    let mut b = EventQueryBuilder::new(false);
    b.from("events").unwrap();
    b.push_where("timestamp >= ? AND timestamp <= ?");
    b.push_arg(SqlArg::Int(1)).unwrap();
    assert!(matches!(b.build(), Err(BuildError::MissingArgument)));
}

#[test]
fn fragment_with_two_placeholders_and_one_argument_is_refused() {
    let mut b = EventQueryBuilder::new(false);
    assert_eq!(
        b.push_where_arg("a = ? OR b = ?", SqlArg::Int(1)),
        Err(BuildError::MissingArgument)
    );
    assert_eq!(b.push_where_arg("a = 1", SqlArg::Int(1)), Err(BuildError::UnboundArgument));
}

#[test]
fn placeholder_outside_where_is_refused() {
    let mut b = EventQueryBuilder::new(false);
    assert_eq!(b.select("?"), Err(BuildError::MisplacedPlaceholder));
    assert_eq!(b.from("events ?"), Err(BuildError::MisplacedPlaceholder));
    assert_eq!(b.order_by("timestamp", "?"), Err(BuildError::MisplacedPlaceholder));
}

#[test]
fn path_with_quote_is_refused() {
    let mut b = EventQueryBuilder::new(false);
    assert_eq!(b.selectjs("a'b"), Err(BuildError::InvalidPath));
    assert_eq!(b.selectjs2(""), Err(BuildError::InvalidPath));
    assert_eq!(
        b.wherejs("x') OR 1=1 --", "=", SqlArg::Int(1)),
        Err(BuildError::InvalidPath)
    );
}

#[test]
fn counts_placeholders() {
    assert_eq!(count_placeholders("a = ? AND b = ?"), 2);
    assert_eq!(count_placeholders(""), 0);
}

#[test]
fn tag_filters_bind_flags() {
    let mut o = options();
    o.tags = vec![
        "evebox.archived".to_string(),
        "-evebox.archived".to_string(),
        "evebox.escalated".to_string(),
        "other".to_string(),
    ];
    let (sql, args) = streaming_alert_query(false, &o);
    assert!(sql.contains("archived = ? AND archived = ? AND escalated = ?"));
    assert_eq!(args.len(), 4);
    assert_eq!(text_arg(&args[0]), Some("alert"));
    assert_eq!(int_arg(&args[1]), Some(1));
    assert_eq!(int_arg(&args[2]), Some(0));
    assert_eq!(int_arg(&args[3]), Some(1));
}

#[test]
fn free_text_element_matches_the_document() {
    let mut o = options();
    o.query = vec![QueryElement {
        negated: false,
        value: QueryValue::String("8.8.8.8".to_string()),
    }];
    let (sql, args) = group_by_alert_query(&o);
    assert!(sql.contains("events.source LIKE ?"));
    assert_eq!(text_arg(&args[1]), Some("%8.8.8.8%"));
    assert_eq!(count_placeholders(&sql), args.len());
}

#[test]
fn negated_free_text_uses_not_like() {
    let mut o = options();
    o.query = vec![QueryElement { negated: true, value: QueryValue::String("x".to_string()) }];
    let (sql, args) = streaming_alert_query(true, &o);
    assert!(sql.contains("events.source NOT LIKE ?"));
    assert_eq!(text_arg(&args[1]), Some("%x%"));
}

#[test]
fn key_value_integer_and_text() {
    let mut o = options();
    o.query = vec![
        QueryElement {
            negated: false,
            value: QueryValue::KeyValue("alert.signature_id".to_string(), "-100".to_string()),
        },
        QueryElement {
            negated: false,
            value: QueryValue::KeyValue("src_ip".to_string(), "10.0".to_string()),
        },
        QueryElement {
            negated: false,
            value: QueryValue::KeyValue("bad'key".to_string(), "1".to_string()),
        },
    ];
    let (sql, args) = group_by_alert_query(&o);
    assert!(sql.contains("json_extract(events.source, '$.alert.signature_id') = ?"));
    assert!(sql.contains("json_extract(events.source, '$.src_ip') LIKE ?"));
    assert!(!sql.contains("bad"));
    assert_eq!(args.len(), 6);
    assert_eq!(int_arg(&args[4]), Some(-100));
    assert_eq!(int_arg(&args[1]), Some(-100));
    assert_eq!(text_arg(&args[2]), Some("%10.0%"));
}

#[test]
fn upper_time_bound_applies_and_lower_is_skipped() {
    let mut o = options();
    o.query = vec![
        QueryElement { negated: false, value: QueryValue::From(5) },
        QueryElement { negated: false, value: QueryValue::To(9) },
    ];
    let (sql, args) = streaming_alert_query(false, &o);
    assert!(sql.contains("timestamp <= ?"));
    assert_eq!(args.len(), 2);
    assert_eq!(int_arg(&args[1]), Some(9));
}

#[test]
fn sensor_and_minimum_timestamp() {
    let mut o = options();
    o.sensor = Some("sensorA".to_string());
    o.timestamp_gte = Some(1000);
    let (sql, args) = streaming_alert_query(false, &o);
    assert!(sql.contains(
        "WHERE json_extract(events.source, '$.event_type') = ? AND json_extract(events.source, '$.host') = ? AND timestamp >= ? ORDER BY timestamp DESC"
    ));
    assert_eq!(text_arg(&args[1]), Some("sensorA"));
    assert_eq!(int_arg(&args[2]), Some(1000));
}

#[test]
fn every_combination_balances_placeholders() {
    let mut o = options();
    o.tags = vec!["evebox.escalated".to_string()];
    o.sensor = Some("s".to_string());
    o.timestamp_gte = Some(1);
    o.query = vec![
        QueryElement { negated: true, value: QueryValue::String("a?b".to_string()) },
        QueryElement {
            negated: false,
            value: QueryValue::KeyValue("dest_ip".to_string(), "7".to_string()),
        },
        QueryElement { negated: false, value: QueryValue::To(3) },
    ];
    for fts in [false, true] {
        let (sql, args) = streaming_alert_query(fts, &o);
        assert_eq!(count_placeholders(&sql), args.len());
        assert_eq!(args.len(), 7);
    }
    let (sql, args) = group_by_alert_query(&o);
    assert_eq!(count_placeholders(&sql), args.len());
    assert_eq!(args.len(), 14);
}
