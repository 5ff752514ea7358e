//! The SQL statements of the two alert strategies.
use crate::builder::{
    arg_values, join, lemma_placeholders_concat, placeholders, spec_json_ref, valid_path, EventQueryBuilder, SqlArg,
};
use crate::filters::{
    alert_filters, apply_alert_filters, fragments, lemma_path_chars_valid, path_chars, values,
    AlertQueryOptions,
};
use vstd::prelude::*;

verus! {

/// The select-list entry of `selectjs(p)`.
pub open spec fn js_column(fts: bool, p: Seq<char>) -> Seq<char> {
    spec_json_ref(fts, p) + " AS \""@ + p + "\""@
}

/// The select-list entry of `selectjs2(p)`.
pub open spec fn js_document_column(p: Seq<char>) -> Seq<char> {
    "events.source->'$."@ + p + "' AS \""@ + p + "\""@
}

/// The columns that the streaming strategy reads from each row.
pub open spec fn streaming_columns(fts: bool) -> Seq<Seq<char>> {
    seq![
        "rowid"@,
        "timestamp"@,
        "escalated"@,
        "archived"@,
        "history"@,
        js_column(fts, "alert.signature_id"@),
        js_column(fts, "alert.signature"@),
        js_column(fts, "alert.severity"@),
        js_column(fts, "alert.action"@),
        js_document_column("dns"@),
        js_document_column("tls"@),
        js_document_column("quic"@),
        js_column(fts, "app_proto"@),
        js_column(fts, "dest_ip"@),
        js_column(fts, "src_ip"@),
        js_column(fts, "tags"@),
        hostname_column(),
        js_column(fts, "host"@),
    ]
}

/// The streaming strategy's statement: every alert row that passes the
/// filters, newest first.
pub open spec fn streaming_sql(fts: bool, o: AlertQueryOptions) -> Seq<char> {
    "SELECT "@ + join(streaming_columns(fts), ", "@) + " FROM "@ + "events"@ + " WHERE "@ + join(
        fragments(alert_filters(fts, o)),
        " AND "@,
    ) + " ORDER BY "@ + "timestamp"@ + " "@ + "DESC"@
}

proof fn lemma_streaming_paths()
    ensures
        valid_path("alert.signature_id"@),
        valid_path("alert.signature"@),
        valid_path("alert.severity"@),
        valid_path("alert.action"@),
        valid_path("dns"@),
        valid_path("tls"@),
        valid_path("quic"@),
        valid_path("app_proto"@),
        valid_path("dest_ip"@),
        valid_path("src_ip"@),
        valid_path("tags"@),
        valid_path("host"@),
{
    reveal_strlit("alert.signature_id");
    reveal_strlit("alert.signature");
    reveal_strlit("alert.severity");
    reveal_strlit("alert.action");
    reveal_strlit("dns");
    reveal_strlit("tls");
    reveal_strlit("quic");
    reveal_strlit("app_proto");
    reveal_strlit("dest_ip");
    reveal_strlit("src_ip");
    reveal_strlit("tags");
    reveal_strlit("host");
    reveal_with_fuel(path_chars, 19);
    lemma_path_chars_valid("alert.signature_id"@);
    lemma_path_chars_valid("alert.signature"@);
    lemma_path_chars_valid("alert.severity"@);
    lemma_path_chars_valid("alert.action"@);
    lemma_path_chars_valid("dns"@);
    lemma_path_chars_valid("tls"@);
    lemma_path_chars_valid("quic"@);
    lemma_path_chars_valid("app_proto"@);
    lemma_path_chars_valid("dest_ip"@);
    lemma_path_chars_valid("src_ip"@);
    lemma_path_chars_valid("tags"@);
    lemma_path_chars_valid("host"@);
}

proof fn lemma_streaming_literals()
    ensures
        placeholders("rowid"@) == 0,
        placeholders("timestamp"@) == 0,
        placeholders("escalated"@) == 0,
        placeholders("archived"@) == 0,
        placeholders("history"@) == 0,
        placeholders("events"@) == 0,
        placeholders("DESC"@) == 0,
{
    reveal_strlit("rowid");
    reveal_strlit("timestamp");
    reveal_strlit("escalated");
    reveal_strlit("archived");
    reveal_strlit("history");
    reveal_strlit("events");
    reveal_strlit("DESC");
    reveal_with_fuel(placeholders, 10);
}

/// The HTTP host name, nested under `http`.
pub open spec fn hostname_column() -> Seq<char> {
    "events.source->>'http'"@ + "->>'hostname'"@ + " AS http_hostname"@
}

proof fn lemma_hostname_column()
    ensures
        placeholders(hostname_column()) == 0,
{
    reveal_strlit("events.source->>'http'");
    reveal_strlit("->>'hostname'");
    reveal_strlit(" AS http_hostname");
    reveal_with_fuel(placeholders, 23);
    assert(placeholders("events.source->>'http'"@) == 0);
    assert(placeholders("->>'hostname'"@) == 0);
    assert(placeholders(" AS http_hostname"@) == 0);
    lemma_placeholders_concat("events.source->>'http'"@, "->>'hostname'"@);
    lemma_placeholders_concat("events.source->>'http'"@ + "->>'hostname'"@, " AS http_hostname"@);
}

/// The streaming strategy's statement and its arguments; JSON paths are
/// read from the indexed columns when `fts` is set.
pub fn streaming_alert_query(fts: bool, o: &AlertQueryOptions) -> (r: (String, Vec<SqlArg>))
    ensures
        r.0@ == streaming_sql(fts, *o),
        arg_values(r.1@) == values(alert_filters(fts, *o)),
        placeholders(r.0@) == r.1@.len(),
{
    proof {
        lemma_streaming_paths();
        lemma_streaming_literals();
        lemma_hostname_column();
    }
    let mut b = EventQueryBuilder::new(fts);
    assert(streaming_columns(fts).take(0) =~= Seq::<Seq<char>>::empty());
    let _ = b.select("rowid");
    assert(b.spec_selects() == streaming_columns(fts).take(1));
    let _ = b.select("timestamp");
    assert(b.spec_selects() == streaming_columns(fts).take(2));
    let _ = b.select("escalated");
    assert(b.spec_selects() == streaming_columns(fts).take(3));
    let _ = b.select("archived");
    assert(b.spec_selects() == streaming_columns(fts).take(4));
    let _ = b.select("history");
    assert(b.spec_selects() == streaming_columns(fts).take(5));
    let _ = b.selectjs("alert.signature_id");
    assert(b.spec_selects() == streaming_columns(fts).take(6));
    let _ = b.selectjs("alert.signature");
    assert(b.spec_selects() == streaming_columns(fts).take(7));
    let _ = b.selectjs("alert.severity");
    assert(b.spec_selects() == streaming_columns(fts).take(8));
    let _ = b.selectjs("alert.action");
    assert(b.spec_selects() == streaming_columns(fts).take(9));
    let _ = b.selectjs2("dns");
    assert(b.spec_selects() == streaming_columns(fts).take(10));
    let _ = b.selectjs2("tls");
    assert(b.spec_selects() == streaming_columns(fts).take(11));
    let _ = b.selectjs2("quic");
    assert(b.spec_selects() == streaming_columns(fts).take(12));
    let _ = b.selectjs("app_proto");
    assert(b.spec_selects() == streaming_columns(fts).take(13));
    let _ = b.selectjs("dest_ip");
    assert(b.spec_selects() == streaming_columns(fts).take(14));
    let _ = b.selectjs("src_ip");
    assert(b.spec_selects() == streaming_columns(fts).take(15));
    let _ = b.selectjs("tags");
    assert(b.spec_selects() == streaming_columns(fts).take(16));
    let mut hostname = String::from_str("events.source->>'http'");
    hostname.append("->>'hostname'");
    hostname.append(" AS http_hostname");
    assert(hostname@ == hostname_column());
    let _ = b.select(hostname.as_str());
    assert(b.spec_selects() =~= streaming_columns(fts).take(17));
    let _ = b.selectjs("host");
    assert(b.spec_selects() == streaming_columns(fts).take(18));
    let _ = b.from("events");
    let _ = b.order_by("timestamp", "DESC");
    assert(streaming_columns(fts).take(18) =~= streaming_columns(fts));
    assert(b.spec_wheres() =~= Seq::<Seq<char>>::empty());
    assert(b.spec_args() =~= Seq::empty());
    assert(b.spec_from() =~= seq!["events"@]);
    apply_alert_filters(&mut b, o);
    proof {
        assert(b.spec_wheres() =~= fragments(alert_filters(fts, *o)));
        assert(b.spec_args() =~= values(alert_filters(fts, *o)));
        assert(fragments(alert_filters(fts, *o)).len() > 0);
        assert(join(seq!["events"@], ", "@) == "events"@);
    }
    let r = b.build();
    match r {
        Ok(p) => p,
        Err(_) => {
            assert(false);
            (String::new(), Vec::new())
        },
    }
}

/// The grouped statement up to its first WHERE conjunction. For each group
/// of (signature id, source IP, destination IP) it takes the row holding the
/// greatest timestamp; with `max()` as the only min/max aggregate of that
/// subquery, SQLite reads the bare `rowid` from that very row.
pub open spec fn group_by_head() -> Seq<char> {
    "SELECT c.count, a.rowid "@ + "AS id, c.mints AS mints, "@ + "c.escalated_count, "@ + "a.archived, a.timestamp, "@ + "a.source FROM events a "@ + "INNER JOIN (SELECT "@ + "events.rowid AS rowid, "@ + "max(timestamp) AS maxts, "@ + "json_extract(events.source"@ + ", '$.alert.signature_id') "@ + "AS sid, "@ + "json_extract(events.source"@ + ", '$.src_ip') AS src, "@ + "json_extract(events.source"@ + ", '$.dest_ip') AS dst "@ + "FROM events WHERE "@
}

/// Between the two WHERE conjunctions: the per-group count, least
/// timestamp and escalated sum, over the same filtered rows.
pub open spec fn group_by_middle() -> Seq<char> {
    " GROUP BY sid, src, dst) "@ + "AS b ON a.rowid = b.rowid "@ + "INNER JOIN (SELECT "@ + "count(*) AS count, "@ + "min(timestamp) AS mints, "@ + "sum(escalated) AS "@ + "escalated_count, "@ + "json_extract(events.source"@ + ", '$.alert.signature_id') "@ + "AS sid, "@ + "json_extract(events.source"@ + ", '$.src_ip') AS src, "@ + "json_extract(events.source"@ + ", '$.dest_ip') AS dst "@ + "FROM events WHERE "@
}

/// After the second WHERE conjunction: the two groupings joined on the
/// triple, newest first.
pub open spec fn group_by_tail() -> Seq<char> {
    " GROUP BY sid, src, dst) "@ + "AS c ON b.sid IS c.sid "@ + "AND b.src IS c.src AND "@ + "b.dst IS c.dst ORDER BY "@ + "a.timestamp DESC"@
}

proof fn lemma_group_by_piece0()
    ensures
        placeholders("SELECT c.count, a.rowid "@) == 0,
{
    reveal_strlit("SELECT c.count, a.rowid ");
    reveal_with_fuel(placeholders, 25);
}

proof fn lemma_group_by_piece1()
    ensures
        placeholders("AS id, c.mints AS mints, "@) == 0,
{
    reveal_strlit("AS id, c.mints AS mints, ");
    reveal_with_fuel(placeholders, 26);
}

proof fn lemma_group_by_piece2()
    ensures
        placeholders("c.escalated_count, "@) == 0,
{
    reveal_strlit("c.escalated_count, ");
    reveal_with_fuel(placeholders, 20);
}

proof fn lemma_group_by_piece3()
    ensures
        placeholders("a.archived, a.timestamp, "@) == 0,
{
    reveal_strlit("a.archived, a.timestamp, ");
    reveal_with_fuel(placeholders, 26);
}

proof fn lemma_group_by_piece4()
    ensures
        placeholders("a.source FROM events a "@) == 0,
{
    reveal_strlit("a.source FROM events a ");
    reveal_with_fuel(placeholders, 24);
}

proof fn lemma_group_by_piece5()
    ensures
        placeholders("INNER JOIN (SELECT "@) == 0,
{
    reveal_strlit("INNER JOIN (SELECT ");
    reveal_with_fuel(placeholders, 20);
}

proof fn lemma_group_by_piece6()
    ensures
        placeholders("events.rowid AS rowid, "@) == 0,
{
    reveal_strlit("events.rowid AS rowid, ");
    reveal_with_fuel(placeholders, 24);
}

proof fn lemma_group_by_piece7()
    ensures
        placeholders("max(timestamp) AS maxts, "@) == 0,
{
    reveal_strlit("max(timestamp) AS maxts, ");
    reveal_with_fuel(placeholders, 26);
}

proof fn lemma_group_by_piece8()
    ensures
        placeholders("json_extract(events.source"@) == 0,
{
    reveal_strlit("json_extract(events.source");
    reveal_with_fuel(placeholders, 27);
}

proof fn lemma_group_by_piece9()
    ensures
        placeholders(", '$.alert.signature_id') "@) == 0,
{
    reveal_strlit(", '$.alert.signature_id') ");
    reveal_with_fuel(placeholders, 27);
}

proof fn lemma_group_by_piece10()
    ensures
        placeholders("AS sid, "@) == 0,
{
    reveal_strlit("AS sid, ");
    reveal_with_fuel(placeholders, 9);
}

proof fn lemma_group_by_piece11()
    ensures
        placeholders(", '$.src_ip') AS src, "@) == 0,
{
    reveal_strlit(", '$.src_ip') AS src, ");
    reveal_with_fuel(placeholders, 23);
}

proof fn lemma_group_by_piece12()
    ensures
        placeholders(", '$.dest_ip') AS dst "@) == 0,
{
    reveal_strlit(", '$.dest_ip') AS dst ");
    reveal_with_fuel(placeholders, 23);
}

proof fn lemma_group_by_piece13()
    ensures
        placeholders("FROM events WHERE "@) == 0,
{
    reveal_strlit("FROM events WHERE ");
    reveal_with_fuel(placeholders, 19);
}

proof fn lemma_group_by_piece14()
    ensures
        placeholders(" GROUP BY sid, src, dst) "@) == 0,
{
    reveal_strlit(" GROUP BY sid, src, dst) ");
    reveal_with_fuel(placeholders, 26);
}

proof fn lemma_group_by_piece15()
    ensures
        placeholders("AS b ON a.rowid = b.rowid "@) == 0,
{
    reveal_strlit("AS b ON a.rowid = b.rowid ");
    reveal_with_fuel(placeholders, 27);
}

proof fn lemma_group_by_piece16()
    ensures
        placeholders("count(*) AS count, "@) == 0,
{
    reveal_strlit("count(*) AS count, ");
    reveal_with_fuel(placeholders, 20);
}

proof fn lemma_group_by_piece17()
    ensures
        placeholders("min(timestamp) AS mints, "@) == 0,
{
    reveal_strlit("min(timestamp) AS mints, ");
    reveal_with_fuel(placeholders, 26);
}

proof fn lemma_group_by_piece18()
    ensures
        placeholders("sum(escalated) AS "@) == 0,
{
    reveal_strlit("sum(escalated) AS ");
    reveal_with_fuel(placeholders, 19);
}

proof fn lemma_group_by_piece19()
    ensures
        placeholders("escalated_count, "@) == 0,
{
    reveal_strlit("escalated_count, ");
    reveal_with_fuel(placeholders, 18);
}

proof fn lemma_group_by_piece20()
    ensures
        placeholders("AS c ON b.sid IS c.sid "@) == 0,
{
    reveal_strlit("AS c ON b.sid IS c.sid ");
    reveal_with_fuel(placeholders, 24);
}

proof fn lemma_group_by_piece21()
    ensures
        placeholders("AND b.src IS c.src AND "@) == 0,
{
    reveal_strlit("AND b.src IS c.src AND ");
    reveal_with_fuel(placeholders, 24);
}

proof fn lemma_group_by_piece22()
    ensures
        placeholders("b.dst IS c.dst ORDER BY "@) == 0,
{
    reveal_strlit("b.dst IS c.dst ORDER BY ");
    reveal_with_fuel(placeholders, 25);
}

proof fn lemma_group_by_piece23()
    ensures
        placeholders("a.timestamp DESC"@) == 0,
{
    reveal_strlit("a.timestamp DESC");
    reveal_with_fuel(placeholders, 17);
}

proof fn lemma_group_by_head()
    ensures
        placeholders(group_by_head()) == 0,
{
    lemma_group_by_piece0();
    lemma_group_by_piece1();
    lemma_group_by_piece2();
    lemma_group_by_piece3();
    lemma_group_by_piece4();
    lemma_group_by_piece5();
    lemma_group_by_piece6();
    lemma_group_by_piece7();
    lemma_group_by_piece8();
    lemma_group_by_piece9();
    lemma_group_by_piece10();
    lemma_group_by_piece11();
    lemma_group_by_piece12();
    lemma_group_by_piece13();
    lemma_placeholders_concat("SELECT c.count, a.rowid "@, "AS id, c.mints AS mints, "@);
    lemma_placeholders_concat("SELECT c.count, a.rowid "@ + "AS id, c.mints AS mints, "@, "c.escalated_count, "@);
    lemma_placeholders_concat("SELECT c.count, a.rowid "@ + "AS id, c.mints AS mints, "@ + "c.escalated_count, "@, "a.archived, a.timestamp, "@);
    lemma_placeholders_concat("SELECT c.count, a.rowid "@ + "AS id, c.mints AS mints, "@ + "c.escalated_count, "@ + "a.archived, a.timestamp, "@, "a.source FROM events a "@);
    lemma_placeholders_concat("SELECT c.count, a.rowid "@ + "AS id, c.mints AS mints, "@ + "c.escalated_count, "@ + "a.archived, a.timestamp, "@ + "a.source FROM events a "@, "INNER JOIN (SELECT "@);
    lemma_placeholders_concat("SELECT c.count, a.rowid "@ + "AS id, c.mints AS mints, "@ + "c.escalated_count, "@ + "a.archived, a.timestamp, "@ + "a.source FROM events a "@ + "INNER JOIN (SELECT "@, "events.rowid AS rowid, "@);
    lemma_placeholders_concat("SELECT c.count, a.rowid "@ + "AS id, c.mints AS mints, "@ + "c.escalated_count, "@ + "a.archived, a.timestamp, "@ + "a.source FROM events a "@ + "INNER JOIN (SELECT "@ + "events.rowid AS rowid, "@, "max(timestamp) AS maxts, "@);
    lemma_placeholders_concat("SELECT c.count, a.rowid "@ + "AS id, c.mints AS mints, "@ + "c.escalated_count, "@ + "a.archived, a.timestamp, "@ + "a.source FROM events a "@ + "INNER JOIN (SELECT "@ + "events.rowid AS rowid, "@ + "max(timestamp) AS maxts, "@, "json_extract(events.source"@);
    lemma_placeholders_concat("SELECT c.count, a.rowid "@ + "AS id, c.mints AS mints, "@ + "c.escalated_count, "@ + "a.archived, a.timestamp, "@ + "a.source FROM events a "@ + "INNER JOIN (SELECT "@ + "events.rowid AS rowid, "@ + "max(timestamp) AS maxts, "@ + "json_extract(events.source"@, ", '$.alert.signature_id') "@);
    lemma_placeholders_concat("SELECT c.count, a.rowid "@ + "AS id, c.mints AS mints, "@ + "c.escalated_count, "@ + "a.archived, a.timestamp, "@ + "a.source FROM events a "@ + "INNER JOIN (SELECT "@ + "events.rowid AS rowid, "@ + "max(timestamp) AS maxts, "@ + "json_extract(events.source"@ + ", '$.alert.signature_id') "@, "AS sid, "@);
    lemma_placeholders_concat("SELECT c.count, a.rowid "@ + "AS id, c.mints AS mints, "@ + "c.escalated_count, "@ + "a.archived, a.timestamp, "@ + "a.source FROM events a "@ + "INNER JOIN (SELECT "@ + "events.rowid AS rowid, "@ + "max(timestamp) AS maxts, "@ + "json_extract(events.source"@ + ", '$.alert.signature_id') "@ + "AS sid, "@, "json_extract(events.source"@);
    lemma_placeholders_concat("SELECT c.count, a.rowid "@ + "AS id, c.mints AS mints, "@ + "c.escalated_count, "@ + "a.archived, a.timestamp, "@ + "a.source FROM events a "@ + "INNER JOIN (SELECT "@ + "events.rowid AS rowid, "@ + "max(timestamp) AS maxts, "@ + "json_extract(events.source"@ + ", '$.alert.signature_id') "@ + "AS sid, "@ + "json_extract(events.source"@, ", '$.src_ip') AS src, "@);
    lemma_placeholders_concat("SELECT c.count, a.rowid "@ + "AS id, c.mints AS mints, "@ + "c.escalated_count, "@ + "a.archived, a.timestamp, "@ + "a.source FROM events a "@ + "INNER JOIN (SELECT "@ + "events.rowid AS rowid, "@ + "max(timestamp) AS maxts, "@ + "json_extract(events.source"@ + ", '$.alert.signature_id') "@ + "AS sid, "@ + "json_extract(events.source"@ + ", '$.src_ip') AS src, "@, "json_extract(events.source"@);
    lemma_placeholders_concat("SELECT c.count, a.rowid "@ + "AS id, c.mints AS mints, "@ + "c.escalated_count, "@ + "a.archived, a.timestamp, "@ + "a.source FROM events a "@ + "INNER JOIN (SELECT "@ + "events.rowid AS rowid, "@ + "max(timestamp) AS maxts, "@ + "json_extract(events.source"@ + ", '$.alert.signature_id') "@ + "AS sid, "@ + "json_extract(events.source"@ + ", '$.src_ip') AS src, "@ + "json_extract(events.source"@, ", '$.dest_ip') AS dst "@);
    lemma_placeholders_concat("SELECT c.count, a.rowid "@ + "AS id, c.mints AS mints, "@ + "c.escalated_count, "@ + "a.archived, a.timestamp, "@ + "a.source FROM events a "@ + "INNER JOIN (SELECT "@ + "events.rowid AS rowid, "@ + "max(timestamp) AS maxts, "@ + "json_extract(events.source"@ + ", '$.alert.signature_id') "@ + "AS sid, "@ + "json_extract(events.source"@ + ", '$.src_ip') AS src, "@ + "json_extract(events.source"@ + ", '$.dest_ip') AS dst "@, "FROM events WHERE "@);
}

proof fn lemma_group_by_middle()
    ensures
        placeholders(group_by_middle()) == 0,
{
    lemma_group_by_piece14();
    lemma_group_by_piece15();
    lemma_group_by_piece5();
    lemma_group_by_piece16();
    lemma_group_by_piece17();
    lemma_group_by_piece18();
    lemma_group_by_piece19();
    lemma_group_by_piece8();
    lemma_group_by_piece9();
    lemma_group_by_piece10();
    lemma_group_by_piece11();
    lemma_group_by_piece12();
    lemma_group_by_piece13();
    lemma_placeholders_concat(" GROUP BY sid, src, dst) "@, "AS b ON a.rowid = b.rowid "@);
    lemma_placeholders_concat(" GROUP BY sid, src, dst) "@ + "AS b ON a.rowid = b.rowid "@, "INNER JOIN (SELECT "@);
    lemma_placeholders_concat(" GROUP BY sid, src, dst) "@ + "AS b ON a.rowid = b.rowid "@ + "INNER JOIN (SELECT "@, "count(*) AS count, "@);
    lemma_placeholders_concat(" GROUP BY sid, src, dst) "@ + "AS b ON a.rowid = b.rowid "@ + "INNER JOIN (SELECT "@ + "count(*) AS count, "@, "min(timestamp) AS mints, "@);
    lemma_placeholders_concat(" GROUP BY sid, src, dst) "@ + "AS b ON a.rowid = b.rowid "@ + "INNER JOIN (SELECT "@ + "count(*) AS count, "@ + "min(timestamp) AS mints, "@, "sum(escalated) AS "@);
    lemma_placeholders_concat(" GROUP BY sid, src, dst) "@ + "AS b ON a.rowid = b.rowid "@ + "INNER JOIN (SELECT "@ + "count(*) AS count, "@ + "min(timestamp) AS mints, "@ + "sum(escalated) AS "@, "escalated_count, "@);
    lemma_placeholders_concat(" GROUP BY sid, src, dst) "@ + "AS b ON a.rowid = b.rowid "@ + "INNER JOIN (SELECT "@ + "count(*) AS count, "@ + "min(timestamp) AS mints, "@ + "sum(escalated) AS "@ + "escalated_count, "@, "json_extract(events.source"@);
    lemma_placeholders_concat(" GROUP BY sid, src, dst) "@ + "AS b ON a.rowid = b.rowid "@ + "INNER JOIN (SELECT "@ + "count(*) AS count, "@ + "min(timestamp) AS mints, "@ + "sum(escalated) AS "@ + "escalated_count, "@ + "json_extract(events.source"@, ", '$.alert.signature_id') "@);
    lemma_placeholders_concat(" GROUP BY sid, src, dst) "@ + "AS b ON a.rowid = b.rowid "@ + "INNER JOIN (SELECT "@ + "count(*) AS count, "@ + "min(timestamp) AS mints, "@ + "sum(escalated) AS "@ + "escalated_count, "@ + "json_extract(events.source"@ + ", '$.alert.signature_id') "@, "AS sid, "@);
    lemma_placeholders_concat(" GROUP BY sid, src, dst) "@ + "AS b ON a.rowid = b.rowid "@ + "INNER JOIN (SELECT "@ + "count(*) AS count, "@ + "min(timestamp) AS mints, "@ + "sum(escalated) AS "@ + "escalated_count, "@ + "json_extract(events.source"@ + ", '$.alert.signature_id') "@ + "AS sid, "@, "json_extract(events.source"@);
    lemma_placeholders_concat(" GROUP BY sid, src, dst) "@ + "AS b ON a.rowid = b.rowid "@ + "INNER JOIN (SELECT "@ + "count(*) AS count, "@ + "min(timestamp) AS mints, "@ + "sum(escalated) AS "@ + "escalated_count, "@ + "json_extract(events.source"@ + ", '$.alert.signature_id') "@ + "AS sid, "@ + "json_extract(events.source"@, ", '$.src_ip') AS src, "@);
    lemma_placeholders_concat(" GROUP BY sid, src, dst) "@ + "AS b ON a.rowid = b.rowid "@ + "INNER JOIN (SELECT "@ + "count(*) AS count, "@ + "min(timestamp) AS mints, "@ + "sum(escalated) AS "@ + "escalated_count, "@ + "json_extract(events.source"@ + ", '$.alert.signature_id') "@ + "AS sid, "@ + "json_extract(events.source"@ + ", '$.src_ip') AS src, "@, "json_extract(events.source"@);
    lemma_placeholders_concat(" GROUP BY sid, src, dst) "@ + "AS b ON a.rowid = b.rowid "@ + "INNER JOIN (SELECT "@ + "count(*) AS count, "@ + "min(timestamp) AS mints, "@ + "sum(escalated) AS "@ + "escalated_count, "@ + "json_extract(events.source"@ + ", '$.alert.signature_id') "@ + "AS sid, "@ + "json_extract(events.source"@ + ", '$.src_ip') AS src, "@ + "json_extract(events.source"@, ", '$.dest_ip') AS dst "@);
    lemma_placeholders_concat(" GROUP BY sid, src, dst) "@ + "AS b ON a.rowid = b.rowid "@ + "INNER JOIN (SELECT "@ + "count(*) AS count, "@ + "min(timestamp) AS mints, "@ + "sum(escalated) AS "@ + "escalated_count, "@ + "json_extract(events.source"@ + ", '$.alert.signature_id') "@ + "AS sid, "@ + "json_extract(events.source"@ + ", '$.src_ip') AS src, "@ + "json_extract(events.source"@ + ", '$.dest_ip') AS dst "@, "FROM events WHERE "@);
}

proof fn lemma_group_by_tail()
    ensures
        placeholders(group_by_tail()) == 0,
{
    lemma_group_by_piece14();
    lemma_group_by_piece20();
    lemma_group_by_piece21();
    lemma_group_by_piece22();
    lemma_group_by_piece23();
    lemma_placeholders_concat(" GROUP BY sid, src, dst) "@, "AS c ON b.sid IS c.sid "@);
    lemma_placeholders_concat(" GROUP BY sid, src, dst) "@ + "AS c ON b.sid IS c.sid "@, "AND b.src IS c.src AND "@);
    lemma_placeholders_concat(" GROUP BY sid, src, dst) "@ + "AS c ON b.sid IS c.sid "@ + "AND b.src IS c.src AND "@, "b.dst IS c.dst ORDER BY "@);
    lemma_placeholders_concat(" GROUP BY sid, src, dst) "@ + "AS c ON b.sid IS c.sid "@ + "AND b.src IS c.src AND "@ + "b.dst IS c.dst ORDER BY "@, "a.timestamp DESC"@);
}

fn append_group_by_head(sql: &mut String)
    ensures
        final(sql)@ == old(sql)@ + group_by_head(),
{
    let ghost start = sql@;
    sql.append("SELECT c.count, a.rowid ");
    sql.append("AS id, c.mints AS mints, ");
    sql.append("c.escalated_count, ");
    sql.append("a.archived, a.timestamp, ");
    sql.append("a.source FROM events a ");
    sql.append("INNER JOIN (SELECT ");
    sql.append("events.rowid AS rowid, ");
    sql.append("max(timestamp) AS maxts, ");
    sql.append("json_extract(events.source");
    sql.append(", '$.alert.signature_id') ");
    sql.append("AS sid, ");
    sql.append("json_extract(events.source");
    sql.append(", '$.src_ip') AS src, ");
    sql.append("json_extract(events.source");
    sql.append(", '$.dest_ip') AS dst ");
    sql.append("FROM events WHERE ");
    assert(sql@ =~= start + group_by_head());
}

fn append_group_by_middle(sql: &mut String)
    ensures
        final(sql)@ == old(sql)@ + group_by_middle(),
{
    let ghost start = sql@;
    sql.append(" GROUP BY sid, src, dst) ");
    sql.append("AS b ON a.rowid = b.rowid ");
    sql.append("INNER JOIN (SELECT ");
    sql.append("count(*) AS count, ");
    sql.append("min(timestamp) AS mints, ");
    sql.append("sum(escalated) AS ");
    sql.append("escalated_count, ");
    sql.append("json_extract(events.source");
    sql.append(", '$.alert.signature_id') ");
    sql.append("AS sid, ");
    sql.append("json_extract(events.source");
    sql.append(", '$.src_ip') AS src, ");
    sql.append("json_extract(events.source");
    sql.append(", '$.dest_ip') AS dst ");
    sql.append("FROM events WHERE ");
    assert(sql@ =~= start + group_by_middle());
}

fn append_group_by_tail(sql: &mut String)
    ensures
        final(sql)@ == old(sql)@ + group_by_tail(),
{
    let ghost start = sql@;
    sql.append(" GROUP BY sid, src, dst) ");
    sql.append("AS c ON b.sid IS c.sid ");
    sql.append("AND b.src IS c.src AND ");
    sql.append("b.dst IS c.dst ORDER BY ");
    sql.append("a.timestamp DESC");
    assert(sql@ =~= start + group_by_tail());
}

/// A copy of `args`.
pub fn copy_args(args: &Vec<SqlArg>) -> (r: Vec<SqlArg>)
    ensures
        arg_values(r@) == arg_values(args@),
{
    let mut r: Vec<SqlArg> = Vec::new();
    let mut i: usize = 0;
    while i < args.len()
        invariant
            i <= args.len(),
            arg_values(r@) == arg_values(args@.take(i as int)),
        decreases args.len() - i,
    {
        let a = match &args[i] {
            SqlArg::Int(n) => SqlArg::Int(*n),
            SqlArg::Text(s) => SqlArg::Text(s.clone()),
        };
        assert(a@ == args@[i as int]@);
        r.push(a);
        assert(arg_values(args@.take(i as int + 1)) =~= arg_values(args@.take(i as int)).push(
            args@[i as int]@,
        ));
        assert(arg_values(r@) =~= arg_values(args@.take(i as int)).push(args@[i as int]@));
        i = i + 1;
    }
    assert(args@.take(args@.len() as int) =~= args@);
    r
}

/// The exact strategy's grouped statement and its arguments. The filters
/// stand twice, once per grouping, so their arguments are bound twice, in
/// order. JSON paths are extracted from the stored document.
pub fn group_by_alert_query(o: &AlertQueryOptions) -> (r: (String, Vec<SqlArg>))
    ensures
        r.0@ == group_by_head() + join(fragments(alert_filters(false, *o)), " AND "@)
            + group_by_middle() + join(fragments(alert_filters(false, *o)), " AND "@)
            + group_by_tail(),
        arg_values(r.1@) == values(alert_filters(false, *o)) + values(alert_filters(false, *o)),
        placeholders(r.0@) == r.1@.len(),
{
    let mut b = EventQueryBuilder::new(false);
    apply_alert_filters(&mut b, o);
    proof {
        assert(b.spec_wheres() =~= fragments(alert_filters(false, *o)));
        assert(b.spec_args() =~= values(alert_filters(false, *o)));
    }
    let (filter, args) = b.build_filter();
    let mut all_args = copy_args(&args);
    let mut again = args;
    let ghost first = arg_values(all_args@);
    let ghost second = arg_values(again@);
    all_args.append(&mut again);
    assert(arg_values(all_args@) =~= first + second);
    let mut sql = String::new();
    append_group_by_head(&mut sql);
    let ghost head = sql@;
    assert(head =~= group_by_head());
    sql.append(filter.as_str());
    let ghost s1 = sql@;
    append_group_by_middle(&mut sql);
    let ghost s2 = sql@;
    sql.append(filter.as_str());
    let ghost s3 = sql@;
    append_group_by_tail(&mut sql);
    proof {
        assert(sql@ =~= s3 + group_by_tail());
        lemma_group_by_head();
        lemma_group_by_middle();
        lemma_group_by_tail();
        lemma_placeholders_concat(head, filter@);
        lemma_placeholders_concat(s1, group_by_middle());
        lemma_placeholders_concat(s2, filter@);
        lemma_placeholders_concat(s3, group_by_tail());
    }
    (sql, all_args)
}

} // verus!
