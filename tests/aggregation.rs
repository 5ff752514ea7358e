use evebox_store::aggregate::{aggregate_stream, alert_row_mapper, alerts_from_groups, GroupRow, StreamingAggregator, ALERT_TIME_BUDGET_NANOS};
use evebox_store::alerts::{dedup_key, enrich_tags, synthesize_source, AlertRow, ARCHIVED_TAG};
use evebox_store::repo::{
    AlertPlan, AlertStrategy, ElasticEventRepo, EventRepo, EventSink, SqliteConfig,
    SqliteEventRepo,
};
use evebox_store::filters::AlertQueryOptions;
use evebox_store::sensors::{group_hosts, SensorCache};
use evebox_store::builder::SqlArg;
use evebox_store::repo::DatastoreError;
use evebox_store::updates::{event_update, group_update, AlertGroupSpec, EventAction};

fn row(rowid: u64, ts: u64, sid: u64, src: &str, dst: &str, escalated: bool) -> AlertRow {
    AlertRow {
        rowid,
        timestamp: ts,
        escalated,
        archived: false,
        signature_id: sid,
        signature: "sig".to_string(),
        severity: 2,
        action: "allowed".to_string(),
        app_proto: "dns".to_string(),
        src_ip: src.to_string(),
        dest_ip: dst.to_string(),
        tags: None,
        host: Some("sensorA".to_string()),
        http_hostname: None,
        dns: serde_json::Value::Null,
        tls: serde_json::Value::Null,
        quic: serde_json::Value::Null,
    }
}

#[test]
fn dedup_key_concatenates() {
    assert_eq!(dedup_key(100, "10.0.0.1", "8.8.8.8"), "100:8:10.0.0.18.8.8.8");
    assert_eq!(dedup_key(0, "", ""), "0:0:");
    assert_ne!(dedup_key(1, "10.0.0.1", "8.8.8.8"), dedup_key(11, "0.0.0.1", "8.8.8.8"));
    assert_ne!(dedup_key(1, "1.1", "2"), dedup_key(1, "1.12", ""));
}

#[test]
fn different_triples_never_share_a_group() {
    let mut agg = StreamingAggregator::new(ALERT_TIME_BUDGET_NANOS);
    agg.push_row(row(2, 2, 1, "10.0.0.1", "8.8.8.8", false), 0);
    agg.push_row(row(1, 1, 11, "0.0.0.1", "8.8.8.8", false), 0);
    let r = agg.finish();
    assert_eq!(r.events.len(), 2);
    assert_eq!(r.events[0].metadata.count, 1);
    assert_eq!(r.events[1].metadata.count, 1);
}

#[test]
fn three_events_collapse_into_one_group() {
    // Newest first, as the statement orders them.
    let rows = vec![
        row(3, 300, 100, "10.0.0.1", "8.8.8.8", true),
        row(2, 200, 100, "10.0.0.1", "8.8.8.8", false),
        row(1, 100, 100, "10.0.0.1", "8.8.8.8", false),
    ];
    let mut agg = StreamingAggregator::new(ALERT_TIME_BUDGET_NANOS);
    for r in rows {
        assert!(agg.push_row(r, 0));
    }
    let result = agg.finish();
    assert!(!result.timed_out);
    assert_eq!(result.events.len(), 1);
    let g = &result.events[0];
    assert_eq!(g.id, "3");
    assert_eq!(g.metadata.count, 3);
    assert_eq!(g.metadata.escalated_count, 1);
    assert_eq!(g.metadata.min_timestamp, 100);
    assert_eq!(g.metadata.max_timestamp, 300);
}

#[test]
fn exact_strategy_maps_the_grouped_row() {
    let g = GroupRow {
        count: 3,
        min_timestamp: 100,
        escalated_count: 1,
        event: row(3, 300, 100, "10.0.0.1", "8.8.8.8", true),
    };
    let result = alerts_from_groups(vec![g]);
    assert!(!result.timed_out);
    assert_eq!(result.events.len(), 1);
    let a = &result.events[0];
    assert_eq!(a.id, "3");
    assert_eq!(a.metadata.count, 3);
    assert_eq!(a.metadata.escalated_count, 1);
    assert_eq!(a.metadata.min_timestamp, 100);
    assert_eq!(a.metadata.max_timestamp, 300);
    assert_eq!(a.source.signature_id, 100);
}

#[test]
fn events_differing_in_time_severity_and_tags_merge() {
    let mut a = row(2, 20, 7, "1.1.1.1", "2.2.2.2", false);
    a.severity = 1;
    a.tags = Some(vec!["x".to_string()]);
    let b = row(1, 10, 7, "1.1.1.1", "2.2.2.2", false);
    let c = row(9, 15, 8, "1.1.1.1", "2.2.2.2", false);
    let mut agg = StreamingAggregator::new(ALERT_TIME_BUDGET_NANOS);
    agg.push_row(a, 0);
    agg.push_row(c, 0);
    agg.push_row(b, 0);
    let result = agg.finish();
    assert_eq!(result.events.len(), 2);
    assert_eq!(result.events[0].metadata.count, 2);
    assert_eq!(result.events[0].source.severity, 1);
    assert_eq!(result.events[1].id, "9");
    assert_eq!(result.events[1].metadata.count, 1);
}

#[test]
fn streaming_stops_on_budget() {
    let rows = vec![
        row(5, 50, 1, "a", "b", false),
        row(4, 40, 2, "a", "b", false),
        row(3, 30, 1, "a", "b", false),
    ];
    let mut agg = StreamingAggregator::new(1);
    let mut it = rows.into_iter();
    // The timer starts with the first row; the second arrives late.
    assert!(agg.push_row(it.next().unwrap(), 0));
    assert!(!agg.push_row(it.next().unwrap(), 1_000));
    assert!(agg.timed_out());
    assert_eq!(agg.rows_seen(), 2);
    let result = agg.finish();
    assert!(result.timed_out);
    assert_eq!(result.events.len(), 2);
    assert_eq!(result.events[0].id, "5");
    assert_eq!(result.events[0].metadata.count, 1);
    assert_eq!(result.events[1].id, "4");
}

#[test]
fn truncated_count_is_below_full_count() {
    let make = || vec![row(3, 30, 1, "a", "b", true), row(2, 20, 1, "a", "b", true), row(1, 10, 1, "a", "b", false)];
    let mut full = StreamingAggregator::new(ALERT_TIME_BUDGET_NANOS);
    for r in make() {
        full.push_row(r, 0);
    }
    let mut cut = StreamingAggregator::new(0);
    let mut it = make().into_iter();
    cut.push_row(it.next().unwrap(), 0);
    cut.push_row(it.next().unwrap(), 1);
    let full = full.finish();
    let cut = cut.finish();
    assert!(cut.timed_out);
    assert!(cut.events[0].metadata.count <= full.events[0].metadata.count);
    assert_eq!(cut.events[0].metadata.count, 2);
    assert_eq!(full.events[0].metadata.count, 3);
    assert_eq!(full.events[0].metadata.escalated_count, 2);
}

#[test]
fn archived_event_gets_the_archived_tag() {
    let mut r = row(1, 1, 1, "a", "b", false);
    r.archived = true;
    let s = synthesize_source(r);
    assert_eq!(s.tags, vec![ARCHIVED_TAG.to_string()]);
    let plain = synthesize_source(row(1, 1, 1, "a", "b", false));
    assert!(plain.tags.is_empty());
}

#[test]
fn enrichment_leaves_stored_tags_alone() {
    let stored = Some(vec!["a".to_string()]);
    let t = enrich_tags(&stored, true);
    assert_eq!(t, vec!["a".to_string(), "evebox.archived".to_string()]);
    assert_eq!(stored, Some(vec!["a".to_string()]));
    assert_eq!(enrich_tags(&stored, false), vec!["a".to_string()]);
}

#[test]
fn mapper_keeps_representative_fields() {
    let mut e = row(42, 7, 9, "s", "d", false);
    e.archived = true;
    e.http_hostname = Some("example.com".to_string());
    let a = alert_row_mapper(GroupRow { count: 1, min_timestamp: 7, escalated_count: 0, event: e });
    assert_eq!(a.id, "42");
    assert_eq!(a.source.http_hostname, Some("example.com".to_string()));
    assert_eq!(a.source.tags, vec!["evebox.archived".to_string()]);
    assert_eq!(a.metadata.max_timestamp, 7);
}

#[test]
fn sensor_cache_never_shrinks() {
    let mut cache = SensorCache::new();
    cache.observe(&vec!["sensorA".to_string(), "sensorB".to_string()]);
    cache.observe(&vec!["sensorA".to_string()]);
    let mut snap = cache.snapshot();
    snap.sort();
    assert_eq!(snap, vec!["sensorA".to_string(), "sensorB".to_string()]);
    assert_eq!(cache.len(), 2);
}

#[test]
fn sensor_cache_skips_same_sized_update() {
    let mut cache = SensorCache::new();
    cache.observe(&vec!["a".to_string()]);
    assert!(!cache.needs_update(&vec!["b".to_string()]));
    cache.observe(&vec!["b".to_string()]);
    assert_eq!(cache.snapshot(), vec!["a".to_string()]);
}

#[test]
fn hosts_of_groups_are_distinct() {
    let mut agg = StreamingAggregator::new(ALERT_TIME_BUDGET_NANOS);
    agg.push_row(row(2, 2, 1, "a", "b", false), 0);
    agg.push_row(row(1, 1, 2, "a", "b", false), 0);
    let r = agg.finish();
    assert_eq!(group_hosts(&r.events), vec!["sensorA".to_string()]);
}

#[test]
fn streaming_tracks_every_row_host() {
    let mut agg = StreamingAggregator::new(ALERT_TIME_BUDGET_NANOS);
    agg.push_row(row(3, 3, 1, "a", "b", false), 0);
    let mut older = row(2, 2, 1, "a", "b", false);
    older.host = Some("sensorB".to_string());
    agg.push_row(older, 0);
    let mut none = row(1, 1, 1, "a", "b", false);
    none.host = None;
    agg.push_row(none, 0);
    agg.push_row(row(0, 0, 1, "a", "b", false), 0);
    assert_eq!(agg.sensors(), vec!["sensorA".to_string(), "sensorB".to_string()]);
    assert_eq!(agg.finish().events.len(), 1);
}

#[test]
fn importer_per_backend() {
    let sqlite = EventRepo::SQLite(SqliteEventRepo::new(SqliteConfig {
        fts: false,
        strategy: AlertStrategy::Exact,
        budget_nanos: ALERT_TIME_BUDGET_NANOS,
    }));
    assert!(matches!(sqlite.get_importer(), Some(EventSink::SQLite)));
    let elastic = EventRepo::Elastic(ElasticEventRepo { index: "logstash".to_string(), ecs: false });
    match elastic.get_importer() {
        Some(EventSink::Elastic(ix)) => assert_eq!(ix, "logstash"),
        _ => panic!("expected an elastic sink"),
    }
    let ecs = EventRepo::Elastic(ElasticEventRepo { index: "x".to_string(), ecs: true });
    assert!(ecs.get_importer().is_none());
}

#[test]
fn plan_follows_the_configured_strategy() {
    let o = AlertQueryOptions { tags: vec![], sensor: None, timestamp_gte: None, query: vec![] };
    let exact = EventRepo::SQLite(SqliteEventRepo::new(SqliteConfig {
        fts: false,
        strategy: AlertStrategy::Exact,
        budget_nanos: 5,
    }));
    assert!(matches!(exact.alert_plan(&o), Ok(AlertPlan::Exact { .. })));
    let streaming = EventRepo::SQLite(SqliteEventRepo::new(SqliteConfig {
        fts: true,
        strategy: AlertStrategy::Streaming,
        budget_nanos: 5,
    }));
    match streaming.alert_plan(&o) {
        Ok(AlertPlan::Streaming { budget_nanos, args, .. }) => {
            assert_eq!(budget_nanos, 5);
            assert_eq!(args.len(), 1);
        }
        _ => panic!("expected a streaming plan"),
    }
    let elastic = EventRepo::Elastic(ElasticEventRepo { index: "x".to_string(), ecs: false });
    match elastic.alert_plan(&o) {
        Err(e) => assert!(e.is_unimplemented()),
        Ok(_) => panic!("expected unimplemented"),
    }
}

#[test]
fn event_update_statements() {
    let st = event_update(EventAction::Archive, 12);
    assert_eq!(st.sql, "UPDATE events SET archived = 1 WHERE rowid = ?");
    assert!(matches!(st.args[..], [SqlArg::Int(12)]));
    assert_eq!(
        event_update(EventAction::Escalate, 1).sql,
        "UPDATE events SET escalated = 1 WHERE rowid = ?"
    );
    assert_eq!(
        event_update(EventAction::Deescalate, 1).sql,
        "UPDATE events SET escalated = 0 WHERE rowid = ?"
    );
}

#[test]
fn group_update_statement() {
    let g = AlertGroupSpec {
        signature_id: 5,
        src_ip: "a".to_string(),
        dest_ip: "b".to_string(),
        min_timestamp: 1,
        max_timestamp: 2,
    };
    let st = group_update(EventAction::Escalate, &g);
    assert_eq!(
        st.sql,
        "UPDATE events SET escalated = 1 WHERE json_extract(events.source, '$.event_type') = 'alert' AND json_extract(events.source, '$.alert.signature_id') = ? AND json_extract(events.source, '$.src_ip') = ? AND json_extract(events.source, '$.dest_ip') = ? AND timestamp >= ? AND timestamp <= ?"
    );
    assert_eq!(st.args.len(), 5);
}

#[test]
fn event_ids_must_be_integers() {
    let repo = EventRepo::SQLite(SqliteEventRepo::new(SqliteConfig {
        fts: false,
        strategy: AlertStrategy::Exact,
        budget_nanos: 1,
    }));
    assert!(matches!(repo.archive_event_by_id("abc"), Err(DatastoreError::EventNotFound)));
    assert!(repo.escalate_event_by_id("+7").is_ok());
    let elastic = EventRepo::Elastic(ElasticEventRepo { index: "x".to_string(), ecs: false });
    assert!(matches!(elastic.deescalate_event_by_id("1"), Err(DatastoreError::Unimplemented)));
}

#[test]
fn stream_stops_after_the_first_late_row() {
    let rows = vec![
        row(5, 50, 1, "a", "b", false),
        row(4, 40, 2, "a", "b", false),
        row(3, 30, 1, "a", "b", false),
    ];
    let (r, n) = aggregate_stream(rows, &vec![0, 10, 20], 5);
    assert!(r.timed_out);
    assert_eq!(n, 2);
    assert_eq!(r.events.len(), 2);
    assert_eq!(r.events[0].metadata.count, 1);
}

#[test]
fn stream_within_budget_reads_every_row() {
    let rows = vec![
        row(5, 50, 1, "a", "b", true),
        row(4, 40, 2, "a", "b", false),
        row(3, 30, 1, "a", "b", false),
    ];
    let (r, n) = aggregate_stream(rows, &vec![0, 1, 2], 5);
    assert!(!r.timed_out);
    assert_eq!(n, 3);
    assert_eq!(r.events.len(), 2);
    assert_eq!(r.events[0].metadata.count, 2);
    assert_eq!(r.events[0].metadata.escalated_count, 1);
    assert_eq!(r.events[0].metadata.min_timestamp, 30);
}
