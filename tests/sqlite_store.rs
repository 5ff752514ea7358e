use evebox_store::aggregate::{alerts_from_groups, GroupRow, StreamingAggregator, ALERT_TIME_BUDGET_NANOS};
use evebox_store::alerts::{AlertRow, AlertsResult};
use evebox_store::builder::SqlArg;
use evebox_store::filters::{AlertQueryOptions, QueryElement, QueryValue};
use evebox_store::queries::{group_by_alert_query, streaming_alert_query};
use evebox_store::repo::{AlertStrategy, EventRepo, SqliteConfig, SqliteEventRepo};
use evebox_store::updates::{AlertGroupSpec, Statement};
use evebox_store::listing::EventQueryParams;
use futures::TryStreamExt;
use serde_json::Value;
use sqlx::sqlite::{SqliteArguments, SqlitePool, SqlitePoolOptions, SqliteRow};
use sqlx::{Arguments, Row};

fn runtime() -> tokio::runtime::Runtime {
    tokio::runtime::Builder::new_current_thread().enable_all().build().unwrap()
}

fn event(ts: u64, sid: u64, src: &str, dst: &str) -> String {
    format!(
        "{{\"timestamp\":\"t{ts}\",\"event_type\":\"alert\",\"src_ip\":\"{src}\",\"dest_ip\":\"{dst}\",\"app_proto\":\"dns\",\"host\":\"sensorA\",\"alert\":{{\"signature_id\":{sid},\"signature\":\"sig\",\"severity\":2,\"action\":\"allowed\"}}}}"
    )
}

async fn store(rows: &[(u64, bool, bool, String)]) -> SqlitePool {
    let pool = SqlitePoolOptions::new()
        .max_connections(1)
        .connect("sqlite::memory:")
        .await
        .unwrap();
    sqlx::query(
        "CREATE TABLE events (rowid INTEGER PRIMARY KEY, timestamp INTEGER NOT NULL, archived INTEGER DEFAULT 0, escalated INTEGER DEFAULT 0, source TEXT, history TEXT)",
    )
    .execute(&pool)
    .await
    .unwrap();
    for (ts, escalated, archived, source) in rows {
        sqlx::query("INSERT INTO events (timestamp, escalated, archived, source, history) VALUES (?, ?, ?, ?, '[]')")
            .bind(*ts as i64)
            .bind(*escalated)
            .bind(*archived)
            .bind(source.clone())
            .execute(&pool)
            .await
            .unwrap();
    }
    pool
}

fn bind(args: Vec<SqlArg>) -> SqliteArguments<'static> {
    let mut bound = SqliteArguments::default();
    for arg in args {
        match arg {
            SqlArg::Int(n) => bound.add(n),
            SqlArg::Text(s) => bound.add(s),
        }
    }
    bound
}

fn text_of(v: &Value) -> String {
    v.as_str().unwrap_or_default().to_string()
}

fn document_row(rowid: i64, ts: i64, archived: bool, source: &str) -> AlertRow {
    let doc: Value = serde_json::from_str(source).unwrap();
    AlertRow {
        rowid: rowid as u64,
        timestamp: ts as u64,
        escalated: false,
        archived,
        signature_id: doc["alert"]["signature_id"].as_u64().unwrap(),
        signature: text_of(&doc["alert"]["signature"]),
        severity: doc["alert"]["severity"].as_u64().unwrap(),
        action: text_of(&doc["alert"]["action"]),
        app_proto: text_of(&doc["app_proto"]),
        src_ip: text_of(&doc["src_ip"]),
        dest_ip: text_of(&doc["dest_ip"]),
        tags: None,
        host: doc["host"].as_str().map(String::from),
        http_hostname: None,
        dns: Value::Null,
        tls: Value::Null,
        quic: Value::Null,
    }
}

async fn exact(pool: &SqlitePool, o: &AlertQueryOptions) -> AlertsResult {
    let (sql, args) = group_by_alert_query(o);
    let rows: Vec<SqliteRow> = sqlx::query_with(&sql, bind(args)).fetch_all(pool).await.unwrap();
    let mut groups = Vec::new();
    for row in &rows {
        let archived: i64 = row.get(4);
        let source: String = row.get(6);
        groups.push(GroupRow {
            count: row.get::<i64, _>(0) as u64,
            min_timestamp: row.get::<i64, _>(2) as u64,
            escalated_count: row.get::<i64, _>(3) as u64,
            event: document_row(row.get(1), row.get(5), archived > 0, &source),
        });
    }
    alerts_from_groups(groups)
}

async fn streaming(pool: &SqlitePool, fts: bool, o: &AlertQueryOptions) -> AlertsResult {
    let (sql, args) = streaming_alert_query(fts, o);
    let mut agg = StreamingAggregator::new(ALERT_TIME_BUDGET_NANOS);
    let mut rows = sqlx::query_with(&sql, bind(args)).fetch(pool);
    while let Some(row) = rows.try_next().await.unwrap() {
        let r = AlertRow {
            rowid: row.get::<i64, _>("rowid") as u64,
            timestamp: row.get::<i64, _>("timestamp") as u64,
            escalated: row.get("escalated"),
            archived: row.get("archived"),
            signature_id: row.get::<i64, _>("alert.signature_id") as u64,
            signature: row.get("alert.signature"),
            severity: row.get::<i64, _>("alert.severity") as u64,
            action: row.get("alert.action"),
            app_proto: row.get("app_proto"),
            src_ip: row.get("src_ip"),
            dest_ip: row.get("dest_ip"),
            tags: None,
            host: row.get("host"),
            http_hostname: row.get("http_hostname"),
            dns: Value::Null,
            tls: Value::Null,
            quic: Value::Null,
        };
        assert!(agg.push_row(r, 0));
    }
    agg.finish()
}

fn scenario() -> Vec<(u64, bool, bool, String)> {
    vec![
        (1000, false, false, event(1000, 100, "10.0.0.1", "8.8.8.8")),
        (2000, false, false, event(2000, 100, "10.0.0.1", "8.8.8.8")),
        (3000, true, false, event(3000, 100, "10.0.0.1", "8.8.8.8")),
    ]
}

fn no_filters() -> AlertQueryOptions {
    AlertQueryOptions { tags: vec![], sensor: None, timestamp_gte: None, query: vec![] }
}

#[test]
fn exact_strategy_groups_three_events() {
    runtime().block_on(async {
        let pool = store(&scenario()).await;
        let r = exact(&pool, &no_filters()).await;
        assert!(!r.timed_out);
        assert_eq!(r.events.len(), 1);
        let g = &r.events[0];
        assert_eq!(g.id, "3");
        assert_eq!(g.metadata.count, 3);
        assert_eq!(g.metadata.escalated_count, 1);
        assert_eq!(g.metadata.min_timestamp, 1000);
        assert_eq!(g.metadata.max_timestamp, 3000);
    });
}

#[test]
fn free_text_query_keeps_the_group() {
    runtime().block_on(async {
        let pool = store(&scenario()).await;
        let mut o = no_filters();
        o.query = vec![QueryElement {
            negated: false,
            value: QueryValue::String("8.8.8.8".to_string()),
        }];
        let r = exact(&pool, &o).await;
        assert_eq!(r.events.len(), 1);
        assert_eq!(r.events[0].metadata.count, 3);
    });
}

#[test]
fn archived_filter_without_archived_events_is_empty() {
    runtime().block_on(async {
        let pool = store(&scenario()).await;
        let mut o = no_filters();
        o.tags = vec!["evebox.archived".to_string()];
        assert_eq!(exact(&pool, &o).await.events.len(), 0);
        assert_eq!(streaming(&pool, false, &o).await.events.len(), 0);
    });
}

#[test]
fn strategies_agree_on_a_store() {
    runtime().block_on(async {
        let mut rows = scenario();
        rows.push((1500, true, true, event(1500, 7, "10.0.0.2", "1.1.1.1")));
        rows.push((2500, false, false, event(2500, 7, "10.0.0.2", "1.1.1.1")));
        rows.push((500, false, false, event(500, 100, "10.0.0.9", "8.8.8.8")));
        let pool = store(&rows).await;
        let e = exact(&pool, &no_filters()).await;
        for fts in [false, true] {
            let s = streaming(&pool, fts, &no_filters()).await;
            assert!(!s.timed_out);
            assert_eq!(s.events.len(), e.events.len());
            assert_eq!(s.events.len(), 3);
            for (a, b) in s.events.iter().zip(e.events.iter()) {
                assert_eq!(a.id, b.id);
                assert_eq!(a.metadata, b.metadata);
                assert_eq!(a.source.tags, b.source.tags);
            }
        }
        assert_eq!(e.events[1].source.tags, Vec::<String>::new());
    });
}

#[test]
fn sensor_and_time_filters_apply() {
    runtime().block_on(async {
        let pool = store(&scenario()).await;
        let mut o = no_filters();
        o.sensor = Some("sensorB".to_string());
        assert_eq!(exact(&pool, &o).await.events.len(), 0);
        let mut o = no_filters();
        o.timestamp_gte = Some(2000);
        let r = exact(&pool, &o).await;
        assert_eq!(r.events[0].metadata.count, 2);
        assert_eq!(r.events[0].metadata.min_timestamp, 2000);
        let mut o = no_filters();
        o.query = vec![QueryElement {
            negated: false,
            value: QueryValue::KeyValue("alert.signature_id".to_string(), "100".to_string()),
        }];
        assert_eq!(streaming(&pool, false, &o).await.events[0].metadata.count, 3);
    });
}

async fn run(pool: &SqlitePool, st: Statement) -> u64 {
    sqlx::query_with(&st.sql, bind(st.args)).execute(pool).await.unwrap().rows_affected()
}

fn sqlite_repo() -> EventRepo {
    EventRepo::SQLite(SqliteEventRepo::new(SqliteConfig {
        fts: false,
        strategy: AlertStrategy::Exact,
        budget_nanos: ALERT_TIME_BUDGET_NANOS,
    }))
}

#[test]
fn archiving_a_group_marks_every_member() {
    runtime().block_on(async {
        let mut rows = scenario();
        rows.push((2500, false, false, event(2500, 7, "10.0.0.2", "1.1.1.1")));
        let pool = store(&rows).await;
        let repo = sqlite_repo();
        let group = AlertGroupSpec {
            signature_id: 100,
            src_ip: "10.0.0.1".to_string(),
            dest_ip: "8.8.8.8".to_string(),
            min_timestamp: 1000,
            max_timestamp: 3000,
        };
        let st = repo.archive_by_alert_group(&group).ok().unwrap();
        assert_eq!(run(&pool, st).await, 3);
        let mut o = no_filters();
        o.tags = vec!["evebox.archived".to_string()];
        let r = exact(&pool, &o).await;
        assert_eq!(r.events.len(), 1);
        assert_eq!(r.events[0].source.tags, vec!["evebox.archived".to_string()]);
        let mut o = no_filters();
        o.tags = vec!["-evebox.archived".to_string()];
        let r = exact(&pool, &o).await;
        assert_eq!(r.events.len(), 1);
        assert_eq!(r.events[0].source.signature_id, 7);
    });
}

#[test]
fn escalating_one_event_counts_it() {
    runtime().block_on(async {
        let pool = store(&scenario()).await;
        let repo = sqlite_repo();
        assert_eq!(run(&pool, repo.escalate_event_by_id("1").ok().unwrap()).await, 1);
        let r = exact(&pool, &no_filters()).await;
        assert_eq!(r.events[0].metadata.escalated_count, 2);
        assert_eq!(run(&pool, repo.deescalate_event_by_id("3").ok().unwrap()).await, 1);
        let mut o = no_filters();
        o.tags = vec!["evebox.escalated".to_string()];
        let r = exact(&pool, &o).await;
        assert_eq!(r.events[0].metadata.count, 1);
        assert_eq!(r.events[0].id, "1");
        assert_eq!(run(&pool, repo.archive_event_by_id("99").ok().unwrap()).await, 0);
    });
}

#[test]
fn listing_and_ranking_run_on_a_store() {
    runtime().block_on(async {
        let mut rows = scenario();
        rows.push((2500, false, false, event(2500, 7, "10.0.0.2", "1.1.1.1")));
        let pool = store(&rows).await;
        let repo = sqlite_repo();
        let p = EventQueryParams {
            order: Some("asc".to_string()),
            min_timestamp: Some(1500),
            max_timestamp: None,
            event_type: Some("alert".to_string()),
            size: Some(2),
            query: vec![],
        };
        let st = repo.events(&p).ok().unwrap();
        let listed: Vec<SqliteRow> = sqlx::query_with(&st.sql, bind(st.args)).fetch_all(&pool).await.unwrap();
        assert_eq!(listed.len(), 2);
        assert_eq!(listed[0].get::<i64, _>("timestamp"), 2000);
        assert_eq!(listed[1].get::<i64, _>("timestamp"), 2500);

        let st = repo.agg("src_ip", 10, &None, &vec![]).ok().unwrap();
        let ranked: Vec<SqliteRow> = sqlx::query_with(&st.sql, bind(st.args)).fetch_all(&pool).await.unwrap();
        assert_eq!(ranked.len(), 2);
        assert_eq!(ranked[0].get::<String, _>(0), "10.0.0.1");
        assert_eq!(ranked[0].get::<i64, _>(1), 3);
        assert!(repo.agg("src ip", 10, &None, &vec![]).is_err());

        let st = repo.get_event_by_id("2").ok().unwrap().unwrap();
        let one: Vec<SqliteRow> = sqlx::query_with(&st.sql, bind(st.args)).fetch_all(&pool).await.unwrap();
        assert_eq!(one.len(), 1);
        assert_eq!(one[0].get::<i64, _>("timestamp"), 2000);
        assert!(repo.get_event_by_id("two").ok().unwrap().is_none());

        let st = repo.comment_event_by_id("2", "{\"comment\":\"seen\"}".to_string()).ok().unwrap();
        assert_eq!(run(&pool, st).await, 1);
        let history: String = sqlx::query("SELECT history FROM events WHERE rowid = 2")
            .fetch_one(&pool)
            .await
            .unwrap()
            .get(0);
        assert_eq!(history, "[{\"comment\":\"seen\"}]");
    });
}

#[test]
fn colliding_concatenations_stay_apart() {
    runtime().block_on(async {
        let rows = vec![
            (2000, false, false, event(2000, 1, "10.0.0.1", "8.8.8.8")),
            (1000, true, false, event(1000, 11, "0.0.0.1", "8.8.8.8")),
            (500, false, false, event(500, 1, "10.0.0.1", "8.8.8.8")),
        ];
        let pool = store(&rows).await;
        let e = exact(&pool, &no_filters()).await;
        let s = streaming(&pool, false, &no_filters()).await;
        assert_eq!(e.events.len(), 2);
        assert_eq!(s.events.len(), 2);
        for (a, b) in s.events.iter().zip(e.events.iter()) {
            assert_eq!(a.id, b.id);
            assert_eq!(a.metadata, b.metadata);
        }
        assert_eq!(e.events[0].metadata.count, 2);
        assert_eq!(e.events[0].metadata.min_timestamp, 500);
        assert_eq!(e.events[0].id, "1");
    });
}
