//! Statements that list events and rank the values of a field.
use crate::alerts::decimal;
use crate::builder::{
    arg_values, check_path, join, lemma_json_ref_free, placeholders, spec_json_ref, valid_path,
    BuildError, EventQueryBuilder, SqlArg, SqlValue,
};
use crate::filters::{
    apply_elements, element_filters, extended_by, fragments, lemma_extend, lemma_extend_none,
    lemma_path_chars_valid, path_chars, push_json, push_one, values, QueryElement,
};
use vstd::prelude::*;

verus! {

/// Filters and shape of an event listing; an absent field is no constraint.
pub struct EventQueryParams {
    /// `asc` for oldest first; anything else lists newest first.
    pub order: Option<String>,
    /// Least timestamp, in nanoseconds since the epoch.
    pub min_timestamp: Option<i64>,
    /// Greatest timestamp, in nanoseconds since the epoch.
    pub max_timestamp: Option<i64>,
    pub event_type: Option<String>,
    /// Most events to return.
    pub size: Option<u64>,
    /// The parsed query string.
    pub query: Vec<QueryElement>,
}

/// `ASC` when `order` is `asc`, else `DESC`.
pub open spec fn direction(order: Option<String>) -> Seq<char> {
    match order {
        Some(o) => if o@ == "asc"@ {
            "ASC"@
        } else {
            "DESC"@
        },
        None => "DESC"@,
    }
}

pub open spec fn type_filter(fts: bool, t: Option<String>) -> Seq<(Seq<char>, SqlValue)> {
    match t {
        Some(t) => seq![(spec_json_ref(fts, "event_type"@) + " "@ + "="@ + " ?"@, SqlValue::Text(t@))],
        None => Seq::empty(),
    }
}

pub open spec fn bound_filter(fragment: Seq<char>, t: Option<i64>) -> Seq<(Seq<char>, SqlValue)> {
    match t {
        Some(t) => seq![(fragment, SqlValue::Int(t as int))],
        None => Seq::empty(),
    }
}

/// The predicates of an event listing, in order.
pub open spec fn event_filters(fts: bool, p: EventQueryParams) -> Seq<(Seq<char>, SqlValue)> {
    type_filter(fts, p.event_type) + bound_filter("timestamp >= ?"@, p.min_timestamp)
        + bound_filter("timestamp <= ?"@, p.max_timestamp) + element_filters(fts, p.query@)
}

pub open spec fn with_where(base: Seq<char>, f: Seq<Seq<char>>) -> Seq<char> {
    if f.len() == 0 {
        base
    } else {
        base + " WHERE "@ + join(f, " AND "@)
    }
}

pub open spec fn with_limit(s: Seq<char>, size: Option<u64>) -> Seq<char> {
    match size {
        Some(n) => s + " LIMIT "@ + decimal(n as nat),
        None => s,
    }
}

/// The listing statement: each event's rowid, timestamp, flags, document and
/// history, filtered, ordered by timestamp, at most `size` of them.
pub open spec fn events_sql(fts: bool, p: EventQueryParams) -> Seq<char> {
    with_limit(
        with_where(
            "SELECT "@ + join(
                seq!["rowid"@, "timestamp"@, "archived"@, "escalated"@, "source"@, "history"@],
                ", "@,
            ) + " FROM "@ + "events"@,
            fragments(event_filters(fts, p)),
        ) + " ORDER BY "@ + "timestamp"@ + " "@ + direction(p.order),
        p.size,
    )
}

proof fn lemma_listing_literals()
    ensures
        placeholders("rowid"@) == 0,
        placeholders("archived"@) == 0,
        placeholders("escalated"@) == 0,
        placeholders("source"@) == 0,
        placeholders("history"@) == 0,
        placeholders("events"@) == 0,
        placeholders("timestamp"@) == 0,
        placeholders("ASC"@) == 0,
        placeholders("DESC"@) == 0,
        placeholders("="@) == 0,
        placeholders("timestamp >= ?"@) == 1,
        placeholders("timestamp <= ?"@) == 1,
        placeholders("count(*) AS count"@) == 0,
        placeholders("value"@) == 0,
        placeholders("count"@) == 0,
        placeholders(" AS value"@) == 0,
        valid_path("event_type"@),
{
    reveal_strlit("rowid");
    reveal_strlit("archived");
    reveal_strlit("escalated");
    reveal_strlit("source");
    reveal_strlit("history");
    reveal_strlit("events");
    reveal_strlit("timestamp");
    reveal_strlit("ASC");
    reveal_strlit("DESC");
    reveal_strlit("=");
    reveal_strlit("timestamp >= ?");
    reveal_strlit("timestamp <= ?");
    reveal_strlit("count(*) AS count");
    reveal_strlit("value");
    reveal_strlit("count");
    reveal_strlit(" AS value");
    reveal_strlit("event_type");
    reveal_with_fuel(placeholders, 18);
    reveal_with_fuel(path_chars, 11);
    lemma_path_chars_valid("event_type"@);
}

/// The event listing statement and its arguments.
pub fn events_query(fts: bool, p: &EventQueryParams) -> (r: (String, Vec<SqlArg>))
    ensures
        r.0@ == events_sql(fts, *p),
        arg_values(r.1@) == values(event_filters(fts, *p)),
        placeholders(r.0@) == r.1@.len(),
{
    proof {
        lemma_listing_literals();
    }
    let mut b = EventQueryBuilder::new(fts);
    let _ = b.select("rowid");
    let _ = b.select("timestamp");
    let _ = b.select("archived");
    let _ = b.select("escalated");
    let _ = b.select("source");
    let _ = b.select("history");
    let _ = b.from("events");
    assert(b.spec_selects() =~= seq!["rowid"@, "timestamp"@, "archived"@, "escalated"@, "source"@, "history"@]);
    assert(b.spec_from() =~= seq!["events"@]);
    assert(b.spec_wheres() =~= Seq::<Seq<char>>::empty());
    assert(b.spec_args() =~= Seq::<SqlValue>::empty());
    let ghost start = b;
    let ghost mut done: Seq<(Seq<char>, SqlValue)> = Seq::empty();
    proof {
        lemma_extend_none(b);
    }
    let ghost before = b;
    match &p.event_type {
        Some(t) => push_json(&mut b, "event_type", "=", SqlArg::Text(t.clone())),
        None => {
            proof {
                lemma_extend_none(b);
            }
        },
    }
    proof {
        let x = type_filter(fts, p.event_type);
        lemma_extend(start, before, b, done, x);
        done = done + x;
    }
    let ghost before = b;
    match p.min_timestamp {
        Some(t) => push_one(&mut b, "timestamp >= ?", SqlArg::Int(t)),
        None => {
            proof {
                lemma_extend_none(b);
            }
        },
    }
    proof {
        let x = bound_filter("timestamp >= ?"@, p.min_timestamp);
        lemma_extend(start, before, b, done, x);
        done = done + x;
    }
    let ghost before = b;
    match p.max_timestamp {
        Some(t) => push_one(&mut b, "timestamp <= ?", SqlArg::Int(t)),
        None => {
            proof {
                lemma_extend_none(b);
            }
        },
    }
    proof {
        let x = bound_filter("timestamp <= ?"@, p.max_timestamp);
        lemma_extend(start, before, b, done, x);
        done = done + x;
    }
    let ghost before = b;
    apply_elements(&mut b, &p.query);
    proof {
        lemma_extend(start, before, b, done, element_filters(fts, p.query@));
        done = done + element_filters(fts, p.query@);
        assert(done =~= event_filters(fts, *p));
        assert(b.spec_wheres() =~= fragments(event_filters(fts, *p)));
        assert(b.spec_args() =~= values(event_filters(fts, *p)));
    }
    let asc = match &p.order {
        Some(o) => *o == String::from_str("asc"),
        None => false,
    };
    if asc {
        let _ = b.order_by("timestamp", "ASC");
    } else {
        let _ = b.order_by("timestamp", "DESC");
    }
    match p.size {
        Some(n) => b.limit(n),
        None => {},
    }
    assert(join(seq!["events"@], ", "@) == "events"@);
    let r = b.build();
    match r {
        Ok(q) => q,
        Err(_) => {
            assert(false);
            (String::new(), Vec::new())
        },
    }
}

/// The field ranking statement: the distinct values at JSON path `field`
/// among the events that `query` selects, with how many events hold each,
/// most frequent first unless `order` is `asc`, at most `size` of them.
pub open spec fn agg_sql(
    fts: bool,
    field: Seq<char>,
    size: u64,
    order: Option<String>,
    query: Seq<QueryElement>,
) -> Seq<char> {
    with_limit(
        with_where(
            "SELECT "@ + join(
                seq![spec_json_ref(fts, field) + " AS value"@, "count(*) AS count"@],
                ", "@,
            ) + " FROM "@ + "events"@,
            fragments(element_filters(fts, query)),
        ) + " GROUP BY "@ + "value"@ + " ORDER BY "@ + "count"@ + " "@ + direction(order),
        Some(size),
    )
}

/// The field ranking statement and its arguments; a field that is no valid
/// JSON path is refused.
pub fn agg_query(
    fts: bool,
    field: &str,
    size: u64,
    order: &Option<String>,
    query: &Vec<QueryElement>,
) -> (r: Result<(String, Vec<SqlArg>), BuildError>)
    ensures
        r is Err <==> !valid_path(field@),
        r is Err ==> r == Err::<(String, Vec<SqlArg>), BuildError>(BuildError::InvalidPath),
        r matches Ok((sql, args)) ==> sql@ == agg_sql(fts, field@, size, *order, query@)
            && arg_values(args@) == values(element_filters(fts, query@)) && placeholders(sql@)
            == args@.len(),
{
    if !check_path(field) {
        return Err(BuildError::InvalidPath);
    }
    proof {
        lemma_listing_literals();
        lemma_json_ref_free(fts, field@);
    }
    let mut b = EventQueryBuilder::new(fts);
    let mut col = b.json_ref(field);
    col.append(" AS value");
    proof {
        crate::builder::lemma_placeholders_concat(spec_json_ref(fts, field@), " AS value"@);
    }
    let _ = b.select(col.as_str());
    let _ = b.select("count(*) AS count");
    let _ = b.from("events");
    assert(b.spec_selects() =~= seq![spec_json_ref(fts, field@) + " AS value"@, "count(*) AS count"@]);
    assert(b.spec_from() =~= seq!["events"@]);
    assert(b.spec_wheres() =~= Seq::<Seq<char>>::empty());
    assert(b.spec_args() =~= Seq::<SqlValue>::empty());
    apply_elements(&mut b, query);
    proof {
        assert(b.spec_wheres() =~= fragments(element_filters(fts, query@)));
        assert(b.spec_args() =~= values(element_filters(fts, query@)));
    }
    let _ = b.group_by("value");
    let asc = match order {
        Some(o) => *o == String::from_str("asc"),
        None => false,
    };
    if asc {
        let _ = b.order_by("count", "ASC");
    } else {
        let _ = b.order_by("count", "DESC");
    }
    b.limit(size);
    assert(join(seq!["events"@], ", "@) == "events"@);
    let r = b.build();
    match r {
        Ok(q) => Ok(q),
        Err(_) => {
            assert(false);
            Err(BuildError::MissingArgument)
        },
    }
}

/// The statement fetching one event by rowid.
pub open spec fn event_by_id_sql() -> Seq<char> {
    with_where(
        "SELECT "@ + join(
            seq!["rowid"@, "timestamp"@, "archived"@, "escalated"@, "source"@, "history"@],
            ", "@,
        ) + " FROM "@ + "events"@,
        seq!["rowid = ?"@],
    )
}

/// The statement fetching the event with `rowid`.
pub fn event_by_id_query(rowid: i64) -> (r: (String, Vec<SqlArg>))
    ensures
        r.0@ == event_by_id_sql(),
        arg_values(r.1@) == seq![SqlValue::Int(rowid as int)],
        placeholders(r.0@) == r.1@.len(),
{
    proof {
        lemma_listing_literals();
        reveal_strlit("rowid = ?");
        reveal_with_fuel(placeholders, 10);
        assert(placeholders("rowid = ?"@) == 1);
    }
    let mut b = EventQueryBuilder::new(false);
    let _ = b.select("rowid");
    let _ = b.select("timestamp");
    let _ = b.select("archived");
    let _ = b.select("escalated");
    let _ = b.select("source");
    let _ = b.select("history");
    let _ = b.from("events");
    assert(b.spec_selects() =~= seq!["rowid"@, "timestamp"@, "archived"@, "escalated"@, "source"@, "history"@]);
    assert(b.spec_from() =~= seq!["events"@]);
    assert(b.spec_wheres() =~= Seq::<Seq<char>>::empty());
    assert(b.spec_args() =~= Seq::<SqlValue>::empty());
    push_one(&mut b, "rowid = ?", SqlArg::Int(rowid));
    proof {
        assert(fragments(seq![("rowid = ?"@, SqlValue::Int(rowid as int))]) =~= seq!["rowid = ?"@]);
        assert(values(seq![("rowid = ?"@, SqlValue::Int(rowid as int))]) =~= seq![SqlValue::Int(rowid as int)]);
        assert(b.spec_wheres() =~= seq!["rowid = ?"@]);
        assert(b.spec_args() =~= seq![SqlValue::Int(rowid as int)]);
    }
    assert(join(seq!["events"@], ", "@) == "events"@);
    let r = b.build();
    match r {
        Ok(q) => q,
        Err(_) => {
            assert(false);
            (String::new(), Vec::new())
        },
    }
}

} // verus!
