//! Statements that change events: archiving and escalation, of one event
//! or of every event of an alert group.
use crate::builder::{arg_values, lemma_placeholders_concat, placeholders, SqlArg, SqlValue};
use vstd::prelude::*;

verus! {

/// A change to the flags of events.
#[derive(Debug, PartialEq, Eq, Structural, Clone, Copy)]
pub enum EventAction {
    Archive,
    Escalate,
    Deescalate,
}

/// The events of one alert group: its dedup key's parts and the time range
/// the group covered, in nanoseconds since the epoch.
pub struct AlertGroupSpec {
    pub signature_id: i64,
    pub src_ip: String,
    pub dest_ip: String,
    pub min_timestamp: i64,
    pub max_timestamp: i64,
}

/// A statement and its positional arguments, one per placeholder.
pub struct Statement {
    pub sql: String,
    pub args: Vec<SqlArg>,
}

/// The assignment an action makes.
pub open spec fn action_assignment(a: EventAction) -> Seq<char> {
    match a {
        EventAction::Archive => "archived = 1"@,
        EventAction::Escalate => "escalated = 1"@,
        EventAction::Deescalate => "escalated = 0"@,
    }
}

/// The conditions selecting an alert group's events.
pub open spec fn group_condition() -> Seq<char> {
    "json_extract(events.source, "@ + "'$.event_type') = 'alert'"@ + " AND "@ + "json_extract(events.source, "@ + "'$.alert.signature_id') = ?"@ + " AND "@ + "json_extract(events.source, "@ + "'$.src_ip') = ?"@ + " AND "@ + "json_extract(events.source, "@ + "'$.dest_ip') = ?"@ + " AND "@ + "timestamp >= ?"@ + " AND "@ + "timestamp <= ?"@
}

/// `UPDATE events SET <assignment> WHERE rowid = ?`.
pub open spec fn event_update_sql(a: EventAction) -> Seq<char> {
    "UPDATE events SET "@ + action_assignment(a) + " WHERE rowid = ?"@
}

/// `UPDATE events SET <assignment> WHERE <group condition>`.
pub open spec fn group_update_sql(a: EventAction) -> Seq<char> {
    "UPDATE events SET "@ + action_assignment(a) + " WHERE "@ + group_condition()
}

proof fn lemma_assignment_free(a: EventAction)
    ensures
        placeholders(action_assignment(a)) == 0,
{
    reveal_strlit("archived = 1");
    reveal_strlit("escalated = 1");
    reveal_strlit("escalated = 0");
    reveal_with_fuel(placeholders, 14);
}

proof fn lemma_update_head()
    ensures
        placeholders("UPDATE events SET "@) == 0,
        placeholders(" WHERE rowid = ?"@) == 1,
        placeholders(" WHERE "@) == 0,
{
    reveal_strlit("UPDATE events SET ");
    reveal_strlit(" WHERE rowid = ?");
    reveal_strlit(" WHERE ");
    reveal_with_fuel(placeholders, 19);
}

proof fn lemma_group_piece0()
    ensures
        placeholders("json_extract(events.source, "@) == 0,
{
    reveal_strlit("json_extract(events.source, ");
    reveal_with_fuel(placeholders, 29);
}

proof fn lemma_group_piece1()
    ensures
        placeholders("'$.event_type') = 'alert'"@) == 0,
{
    reveal_strlit("'$.event_type') = 'alert'");
    reveal_with_fuel(placeholders, 26);
}

proof fn lemma_group_piece2()
    ensures
        placeholders(" AND "@) == 0,
{
    reveal_strlit(" AND ");
    reveal_with_fuel(placeholders, 6);
}

proof fn lemma_group_piece4()
    ensures
        placeholders("'$.alert.signature_id') = ?"@) == 1,
{
    reveal_strlit("'$.alert.signature_id') = ?");
    reveal_with_fuel(placeholders, 28);
}

proof fn lemma_group_piece7()
    ensures
        placeholders("'$.src_ip') = ?"@) == 1,
{
    reveal_strlit("'$.src_ip') = ?");
    reveal_with_fuel(placeholders, 16);
}

proof fn lemma_group_piece10()
    ensures
        placeholders("'$.dest_ip') = ?"@) == 1,
{
    reveal_strlit("'$.dest_ip') = ?");
    reveal_with_fuel(placeholders, 17);
}

proof fn lemma_group_piece12()
    ensures
        placeholders("timestamp >= ?"@) == 1,
{
    reveal_strlit("timestamp >= ?");
    reveal_with_fuel(placeholders, 15);
}

proof fn lemma_group_piece14()
    ensures
        placeholders("timestamp <= ?"@) == 1,
{
    reveal_strlit("timestamp <= ?");
    reveal_with_fuel(placeholders, 15);
}

proof fn lemma_group_condition()
    ensures
        placeholders(group_condition()) == 5,
{
    lemma_group_piece0();
    lemma_group_piece1();
    lemma_group_piece2();
    lemma_group_piece4();
    lemma_group_piece7();
    lemma_group_piece10();
    lemma_group_piece12();
    lemma_group_piece14();
    lemma_placeholders_concat("json_extract(events.source, "@, "'$.event_type') = 'alert'"@);
    lemma_placeholders_concat("json_extract(events.source, "@ + "'$.event_type') = 'alert'"@, " AND "@);
    lemma_placeholders_concat("json_extract(events.source, "@ + "'$.event_type') = 'alert'"@ + " AND "@, "json_extract(events.source, "@);
    lemma_placeholders_concat("json_extract(events.source, "@ + "'$.event_type') = 'alert'"@ + " AND "@ + "json_extract(events.source, "@, "'$.alert.signature_id') = ?"@);
    lemma_placeholders_concat("json_extract(events.source, "@ + "'$.event_type') = 'alert'"@ + " AND "@ + "json_extract(events.source, "@ + "'$.alert.signature_id') = ?"@, " AND "@);
    lemma_placeholders_concat("json_extract(events.source, "@ + "'$.event_type') = 'alert'"@ + " AND "@ + "json_extract(events.source, "@ + "'$.alert.signature_id') = ?"@ + " AND "@, "json_extract(events.source, "@);
    lemma_placeholders_concat("json_extract(events.source, "@ + "'$.event_type') = 'alert'"@ + " AND "@ + "json_extract(events.source, "@ + "'$.alert.signature_id') = ?"@ + " AND "@ + "json_extract(events.source, "@, "'$.src_ip') = ?"@);
    lemma_placeholders_concat("json_extract(events.source, "@ + "'$.event_type') = 'alert'"@ + " AND "@ + "json_extract(events.source, "@ + "'$.alert.signature_id') = ?"@ + " AND "@ + "json_extract(events.source, "@ + "'$.src_ip') = ?"@, " AND "@);
    lemma_placeholders_concat("json_extract(events.source, "@ + "'$.event_type') = 'alert'"@ + " AND "@ + "json_extract(events.source, "@ + "'$.alert.signature_id') = ?"@ + " AND "@ + "json_extract(events.source, "@ + "'$.src_ip') = ?"@ + " AND "@, "json_extract(events.source, "@);
    lemma_placeholders_concat("json_extract(events.source, "@ + "'$.event_type') = 'alert'"@ + " AND "@ + "json_extract(events.source, "@ + "'$.alert.signature_id') = ?"@ + " AND "@ + "json_extract(events.source, "@ + "'$.src_ip') = ?"@ + " AND "@ + "json_extract(events.source, "@, "'$.dest_ip') = ?"@);
    lemma_placeholders_concat("json_extract(events.source, "@ + "'$.event_type') = 'alert'"@ + " AND "@ + "json_extract(events.source, "@ + "'$.alert.signature_id') = ?"@ + " AND "@ + "json_extract(events.source, "@ + "'$.src_ip') = ?"@ + " AND "@ + "json_extract(events.source, "@ + "'$.dest_ip') = ?"@, " AND "@);
    lemma_placeholders_concat("json_extract(events.source, "@ + "'$.event_type') = 'alert'"@ + " AND "@ + "json_extract(events.source, "@ + "'$.alert.signature_id') = ?"@ + " AND "@ + "json_extract(events.source, "@ + "'$.src_ip') = ?"@ + " AND "@ + "json_extract(events.source, "@ + "'$.dest_ip') = ?"@ + " AND "@, "timestamp >= ?"@);
    lemma_placeholders_concat("json_extract(events.source, "@ + "'$.event_type') = 'alert'"@ + " AND "@ + "json_extract(events.source, "@ + "'$.alert.signature_id') = ?"@ + " AND "@ + "json_extract(events.source, "@ + "'$.src_ip') = ?"@ + " AND "@ + "json_extract(events.source, "@ + "'$.dest_ip') = ?"@ + " AND "@ + "timestamp >= ?"@, " AND "@);
    lemma_placeholders_concat("json_extract(events.source, "@ + "'$.event_type') = 'alert'"@ + " AND "@ + "json_extract(events.source, "@ + "'$.alert.signature_id') = ?"@ + " AND "@ + "json_extract(events.source, "@ + "'$.src_ip') = ?"@ + " AND "@ + "json_extract(events.source, "@ + "'$.dest_ip') = ?"@ + " AND "@ + "timestamp >= ?"@ + " AND "@, "timestamp <= ?"@);
}

/// The statement applying `a` to the event with `rowid`.
pub fn event_update(a: EventAction, rowid: i64) -> (r: Statement)
    ensures
        r.sql@ == event_update_sql(a),
        arg_values(r.args@) == seq![SqlValue::Int(rowid as int)],
        placeholders(r.sql@) == r.args@.len(),
{
    let mut sql = String::from_str("UPDATE events SET ");
    match a {
        EventAction::Archive => sql.append("archived = 1"),
        EventAction::Escalate => sql.append("escalated = 1"),
        EventAction::Deescalate => sql.append("escalated = 0"),
    }
    let ghost head = sql@;
    sql.append(" WHERE rowid = ?");
    proof {
        lemma_update_head();
        lemma_assignment_free(a);
        lemma_placeholders_concat("UPDATE events SET "@, action_assignment(a));
        lemma_placeholders_concat(head, " WHERE rowid = ?"@);
    }
    let args = vec![SqlArg::Int(rowid)];
    assert(arg_values(args@) =~= seq![SqlValue::Int(rowid as int)]);
    Statement { sql, args }
}

/// The statement applying `a` to every alert of group `g`.
pub fn group_update(a: EventAction, g: &AlertGroupSpec) -> (r: Statement)
    ensures
        r.sql@ == group_update_sql(a),
        arg_values(r.args@) == seq![
            SqlValue::Int(g.signature_id as int),
            SqlValue::Text(g.src_ip@),
            SqlValue::Text(g.dest_ip@),
            SqlValue::Int(g.min_timestamp as int),
            SqlValue::Int(g.max_timestamp as int),
        ],
        placeholders(r.sql@) == r.args@.len(),
{
    let mut sql = String::from_str("UPDATE events SET ");
    match a {
        EventAction::Archive => sql.append("archived = 1"),
        EventAction::Escalate => sql.append("escalated = 1"),
        EventAction::Deescalate => sql.append("escalated = 0"),
    }
    sql.append(" WHERE ");
    let ghost head = sql@;
    sql.append("json_extract(events.source, ");
    sql.append("'$.event_type') = 'alert'");
    sql.append(" AND ");
    sql.append("json_extract(events.source, ");
    sql.append("'$.alert.signature_id') = ?");
    sql.append(" AND ");
    sql.append("json_extract(events.source, ");
    sql.append("'$.src_ip') = ?");
    sql.append(" AND ");
    sql.append("json_extract(events.source, ");
    sql.append("'$.dest_ip') = ?");
    sql.append(" AND ");
    sql.append("timestamp >= ?");
    sql.append(" AND ");
    sql.append("timestamp <= ?");
    proof {
        lemma_update_head();
        lemma_assignment_free(a);
        lemma_group_condition();
        lemma_placeholders_concat("UPDATE events SET "@, action_assignment(a));
        lemma_placeholders_concat("UPDATE events SET "@ + action_assignment(a), " WHERE "@);
        assert(sql@ =~= head + group_condition());
        lemma_placeholders_concat(head, group_condition());
    }
    let args = vec![
        SqlArg::Int(g.signature_id),
        SqlArg::Text(g.src_ip.clone()),
        SqlArg::Text(g.dest_ip.clone()),
        SqlArg::Int(g.min_timestamp),
        SqlArg::Int(g.max_timestamp),
    ];
    assert(arg_values(args@) =~= seq![
        SqlValue::Int(g.signature_id as int),
        SqlValue::Text(g.src_ip@),
        SqlValue::Text(g.dest_ip@),
        SqlValue::Int(g.min_timestamp as int),
        SqlValue::Int(g.max_timestamp as int),
    ]);
    Statement { sql, args }
}

/// `UPDATE events SET history = json_insert(history, '$[#]', json(?)) WHERE rowid = ?`.
pub open spec fn comment_sql() -> Seq<char> {
    "UPDATE events SET history = "@ + "json_insert(history, '$[#]', "@ + "json(?)) WHERE rowid = ?"@
}

proof fn lemma_comment_sql()
    ensures
        placeholders(comment_sql()) == 2,
{
    reveal_strlit("UPDATE events SET history = ");
    reveal_strlit("json_insert(history, '$[#]', ");
    reveal_strlit("json(?)) WHERE rowid = ?");
    reveal_with_fuel(placeholders, 31);
    assert(placeholders("UPDATE events SET history = "@) == 0);
    assert(placeholders("json_insert(history, '$[#]', "@) == 0);
    assert(placeholders("json(?)) WHERE rowid = ?"@) == 2);
    lemma_placeholders_concat("UPDATE events SET history = "@, "json_insert(history, '$[#]', "@);
    lemma_placeholders_concat(
        "UPDATE events SET history = "@ + "json_insert(history, '$[#]', "@,
        "json(?)) WHERE rowid = ?"@,
    );
}

/// The statement appending the history entry `entry` (a JSON document
/// naming the comment and its author) to the event with `rowid`.
pub fn comment_update(rowid: i64, entry: String) -> (r: Statement)
    ensures
        r.sql@ == comment_sql(),
        arg_values(r.args@) == seq![SqlValue::Text(entry@), SqlValue::Int(rowid as int)],
        placeholders(r.sql@) == r.args@.len(),
{
    let mut sql = String::from_str("UPDATE events SET history = ");
    sql.append("json_insert(history, '$[#]', ");
    sql.append("json(?)) WHERE rowid = ?");
    proof {
        lemma_comment_sql();
    }
    let ghost e = entry@;
    let args = vec![SqlArg::Text(entry), SqlArg::Int(rowid)];
    assert(arg_values(args@) =~= seq![SqlValue::Text(e), SqlValue::Int(rowid as int)]);
    Statement { sql, args }
}

} // verus!
