//! Alert query options, the typed elements of a parsed query string, and
//! how each becomes a WHERE predicate shared by both strategies.
use crate::builder::{
    check_path, is_path_char, placeholders, spec_json_ref, valid_path, EventQueryBuilder, SqlArg,
    SqlValue,
};
use vstd::prelude::*;

verus! {

/// What one element of a parsed query string asks for.
pub enum QueryValue {
    /// The document holds the text.
    String(String),
    /// The field at a JSON path equals the value, or holds it as text.
    KeyValue(String, String),
    /// Events at or after a time, in nanoseconds since the epoch.
    From(i64),
    /// Events at or before a time, in nanoseconds since the epoch.
    To(i64),
}

pub struct QueryElement {
    pub negated: bool,
    pub value: QueryValue,
}

/// Filters of an alert query; an absent field is no constraint.
pub struct AlertQueryOptions {
    /// Control tags: `evebox.archived`, `-evebox.archived`,
    /// `evebox.escalated`; others are ignored.
    pub tags: Vec<String>,
    /// Exact host of the sensor.
    pub sensor: Option<String>,
    /// Least timestamp, in nanoseconds since the epoch.
    pub timestamp_gte: Option<i64>,
    /// The parsed query string; empty where there is none or it did not
    /// parse.
    pub query: Vec<QueryElement>,
}

pub open spec fn is_digit(c: char) -> bool {
    '0' <= c && c <= '9'
}

/// Value of a run of decimal digits.
pub open spec fn digits_value(s: Seq<char>) -> int
    decreases s.len(),
{
    if s.len() == 0 {
        0
    } else {
        digits_value(s.drop_last()) * 10 + ((s.last() as u32) as int - 48)
    }
}

/// An optional `+` or `-` followed by at least one decimal digit, whose
/// value fits in an `i64`.
pub open spec fn decimal_i64(s: Seq<char>) -> Option<i64> {
    let signed = s.len() > 0 && (s[0] == '-' || s[0] == '+');
    let d = if signed {
        s.skip(1)
    } else {
        s
    };
    let v = if signed && s[0] == '-' {
        -digits_value(d)
    } else {
        digits_value(d)
    };
    if d.len() > 0 && (forall|i: int| 0 <= i < d.len() ==> #[trigger] is_digit(d[i])) && i64::MIN
        <= v <= i64::MAX {
        Some(v as i64)
    } else {
        None
    }
}

/// Relies on `str::parse::<i64>`: an optional sign and decimal digits
/// whose value is in range parse; anything else is an error.
#[verifier::external_body]
pub(crate) fn parse_i64(s: &str) -> (r: Option<i64>)
    ensures
        r == decimal_i64(s@),
{
    s.parse::<i64>().ok()
}

pub const TAG_ARCHIVED: &'static str = "evebox.archived";

pub const TAG_NOT_ARCHIVED: &'static str = "-evebox.archived";

pub const TAG_ESCALATED: &'static str = "evebox.escalated";

/// `%text%`: the LIKE pattern matching any text that holds `text`.
pub open spec fn like_pattern(text: Seq<char>) -> Seq<char> {
    "%"@ + text + "%"@
}

/// The predicate a control tag adds, if any.
pub open spec fn tag_filter(tag: Seq<char>) -> Option<(Seq<char>, SqlValue)> {
    if tag == TAG_ARCHIVED@ {
        Some(("archived = ?"@, SqlValue::Int(1)))
    } else if tag == TAG_NOT_ARCHIVED@ {
        Some(("archived = ?"@, SqlValue::Int(0)))
    } else if tag == TAG_ESCALATED@ {
        Some(("escalated = ?"@, SqlValue::Int(1)))
    } else {
        None
    }
}

/// The predicate `path op ?` in mode `fts`.
pub open spec fn json_predicate(fts: bool, path: Seq<char>, op: Seq<char>) -> Seq<char> {
    spec_json_ref(fts, path) + " "@ + op + " ?"@
}

/// The predicate a query element adds, if any. Lower time bounds are not
/// supported here, and key/value elements whose key is no valid JSON path
/// are skipped.
pub open spec fn element_filter(fts: bool, el: QueryElement) -> Option<(Seq<char>, SqlValue)> {
    match el.value {
        QueryValue::String(s) => if el.negated {
            Some(("events.source NOT LIKE ?"@, SqlValue::Text(like_pattern(s@))))
        } else {
            Some(("events.source LIKE ?"@, SqlValue::Text(like_pattern(s@))))
        },
        QueryValue::KeyValue(k, v) => if !valid_path(k@) {
            None
        } else {
            match decimal_i64(v@) {
                Some(n) => Some((json_predicate(fts, k@, "="@), SqlValue::Int(n as int))),
                None => Some(
                    (json_predicate(fts, k@, "LIKE"@), SqlValue::Text(like_pattern(v@))),
                ),
            }
        },
        QueryValue::From(_) => None,
        QueryValue::To(t) => Some(("timestamp <= ?"@, SqlValue::Int(t as int))),
    }
}

pub open spec fn opt_seq<T>(o: Option<T>) -> Seq<T> {
    match o {
        Some(x) => seq![x],
        None => Seq::empty(),
    }
}

pub open spec fn tag_filters(tags: Seq<String>) -> Seq<(Seq<char>, SqlValue)>
    decreases tags.len(),
{
    if tags.len() == 0 {
        Seq::empty()
    } else {
        tag_filters(tags.drop_last()) + opt_seq(tag_filter(tags.last()@))
    }
}

pub open spec fn element_filters(fts: bool, els: Seq<QueryElement>) -> Seq<(Seq<char>, SqlValue)>
    decreases els.len(),
{
    if els.len() == 0 {
        Seq::empty()
    } else {
        element_filters(fts, els.drop_last()) + opt_seq(element_filter(fts, els.last()))
    }
}

/// The sensor predicate, if a sensor is given.
pub open spec fn sensor_filter(fts: bool, sensor: Option<String>) -> Seq<(Seq<char>, SqlValue)> {
    match sensor {
        Some(s) => seq![(json_predicate(fts, "host"@, "="@), SqlValue::Text(s@))],
        None => Seq::empty(),
    }
}

/// The least-timestamp predicate, if a bound is given.
pub open spec fn gte_filter(t: Option<i64>) -> Seq<(Seq<char>, SqlValue)> {
    match t {
        Some(t) => seq![("timestamp >= ?"@, SqlValue::Int(t as int))],
        None => Seq::empty(),
    }
}

/// Every predicate of an alert query, in order: alerts only, the control
/// tags, the sensor, the least timestamp, then the query elements.
pub open spec fn alert_filters(fts: bool, o: AlertQueryOptions) -> Seq<(Seq<char>, SqlValue)> {
    seq![(json_predicate(fts, "event_type"@, "="@), SqlValue::Text("alert"@))] + tag_filters(
        o.tags@,
    ) + sensor_filter(fts, o.sensor) + gte_filter(o.timestamp_gte) + element_filters(fts, o.query@)
}

pub open spec fn fragments(f: Seq<(Seq<char>, SqlValue)>) -> Seq<Seq<char>> {
    f.map_values(|p: (Seq<char>, SqlValue)| p.0)
}

pub open spec fn values(f: Seq<(Seq<char>, SqlValue)>) -> Seq<SqlValue> {
    f.map_values(|p: (Seq<char>, SqlValue)| p.1)
}

/// `after` is `before` with the predicates `f` appended.
pub open spec fn extended_by(
    before: EventQueryBuilder,
    after: EventQueryBuilder,
    f: Seq<(Seq<char>, SqlValue)>,
) -> bool {
    &&& after.wf()
    &&& after.spec_pending() == 0
    &&& after.same_but_filters(&before)
    &&& after.spec_wheres() == before.spec_wheres() + fragments(f)
    &&& after.spec_args() == before.spec_args() + values(f)
}

/// Recursive form of a JSON path, convenient on literals.
pub open spec fn path_chars(p: Seq<char>) -> bool
    decreases p.len(),
{
    p.len() == 0 || (path_chars(p.drop_last()) && is_path_char(p.last()))
}

pub proof fn lemma_path_chars_valid(p: Seq<char>)
    requires
        p.len() > 0,
        path_chars(p),
    ensures
        valid_path(p),
    decreases p.len(),
{
    assert forall|i: int| 0 <= i < p.len() implies #[trigger] is_path_char(p[i]) by {
        lemma_path_chars_index(p, i);
    }
}

proof fn lemma_path_chars_index(p: Seq<char>, i: int)
    requires
        0 <= i < p.len(),
        path_chars(p),
    ensures
        is_path_char(p[i]),
    decreases p.len(),
{
    if i < p.len() - 1 {
        lemma_path_chars_index(p.drop_last(), i);
        assert(p.drop_last()[i] == p[i]);
    }
}

pub proof fn lemma_extend(
    a: EventQueryBuilder,
    b: EventQueryBuilder,
    c: EventQueryBuilder,
    f: Seq<(Seq<char>, SqlValue)>,
    g: Seq<(Seq<char>, SqlValue)>,
)
    requires
        extended_by(a, b, f),
        extended_by(b, c, g),
    ensures
        extended_by(a, c, f + g),
{
    assert(fragments(f + g) =~= fragments(f) + fragments(g));
    assert(values(f + g) =~= values(f) + values(g));
    assert(c.spec_wheres() =~= a.spec_wheres() + fragments(f + g));
    assert(c.spec_args() =~= a.spec_args() + values(f + g));
}

pub proof fn lemma_extend_none(a: EventQueryBuilder)
    requires
        a.wf(),
        a.spec_pending() == 0,
    ensures
        extended_by(a, a, Seq::empty()),
{
    assert(fragments(Seq::empty()) =~= Seq::empty());
    assert(values(Seq::empty()) =~= Seq::empty());
    assert(a.spec_wheres() + Seq::<Seq<char>>::empty() =~= a.spec_wheres());
    assert(a.spec_args() + Seq::<SqlValue>::empty() =~= a.spec_args());
}

pub proof fn lemma_extend_one(a: EventQueryBuilder, b: EventQueryBuilder, x: (Seq<char>, SqlValue))
    requires
        a.wf(),
        a.spec_pending() == 0,
        b.wf(),
        b.spec_pending() == 0,
        b.same_but_filters(&a),
        b.spec_wheres() == a.spec_wheres().push(x.0),
        b.spec_args() == a.spec_args().push(x.1),
    ensures
        extended_by(a, b, seq![x]),
{
    assert(fragments(seq![x]) =~= seq![x.0]);
    assert(values(seq![x]) =~= seq![x.1]);
    assert(a.spec_wheres().push(x.0) =~= a.spec_wheres() + seq![x.0]);
    assert(a.spec_args().push(x.1) =~= a.spec_args() + seq![x.1]);
}

/// The LIKE pattern `%text%`.
pub fn like(text: &str) -> (r: String)
    ensures
        r@ == like_pattern(text@),
{
    let mut r = String::from_str("%");
    r.append(text);
    r.append("%");
    r
}

/// Adds `fragment` (one placeholder) bound to `arg`.
pub fn push_one(b: &mut EventQueryBuilder, fragment: &str, arg: SqlArg)
    requires
        old(b).wf(),
        old(b).spec_pending() == 0,
        placeholders(fragment@) == 1,
    ensures
        extended_by(*old(b), *final(b), seq![(fragment@, arg@)]),
{
    let ghost a = arg@;
    let r = b.push_where_arg(fragment, arg);
    assert(r is Ok);
    proof {
        lemma_extend_one(*old(b), *b, (fragment@, a));
    }
}

/// Adds `path op ?` bound to `arg`, `path` known to be valid.
pub fn push_json(b: &mut EventQueryBuilder, path: &str, op: &str, arg: SqlArg)
    requires
        old(b).wf(),
        old(b).spec_pending() == 0,
        valid_path(path@),
        placeholders(op@) == 0,
    ensures
        extended_by(*old(b), *final(b), seq![(json_predicate(old(b).spec_fts(), path@, op@), arg@)]),
{
    let ghost a = arg@;
    let r = b.wherejs(path, op, arg);
    assert(r is Ok);
    proof {
        lemma_extend_one(*old(b), *b, (json_predicate(old(b).spec_fts(), path@, op@), a));
    }
}

/// Adds the predicate of one control tag, if it has one.
pub fn apply_tag(b: &mut EventQueryBuilder, tag: &String)
    requires
        old(b).wf(),
        old(b).spec_pending() == 0,
    ensures
        extended_by(*old(b), *final(b), opt_seq(tag_filter(tag@))),
{
    proof {
        reveal_strlit("archived = ?");
        reveal_strlit("escalated = ?");
        reveal_with_fuel(placeholders, 14);
    }
    if *tag == String::from_str(TAG_ARCHIVED) {
        push_one(b, "archived = ?", SqlArg::Int(1));
    } else if *tag == String::from_str(TAG_NOT_ARCHIVED) {
        push_one(b, "archived = ?", SqlArg::Int(0));
    } else if *tag == String::from_str(TAG_ESCALATED) {
        push_one(b, "escalated = ?", SqlArg::Int(1));
    } else {
        proof {
            lemma_extend_none(*b);
        }
    }
}

/// Adds the predicate of one query element, if it has one.
pub fn apply_element(b: &mut EventQueryBuilder, el: &QueryElement)
    requires
        old(b).wf(),
        old(b).spec_pending() == 0,
    ensures
        extended_by(*old(b), *final(b), opt_seq(element_filter(old(b).spec_fts(), *el))),
{
    proof {
        reveal_strlit("events.source NOT LIKE ?");
        reveal_strlit("events.source LIKE ?");
        reveal_strlit("timestamp <= ?");
        reveal_strlit("=");
        reveal_strlit("LIKE");
        reveal_with_fuel(placeholders, 25);
        assert(placeholders("events.source NOT LIKE ?"@) == 1);
        assert(placeholders("events.source LIKE ?"@) == 1);
        assert(placeholders("timestamp <= ?"@) == 1);
        assert(placeholders("="@) == 0);
        assert(placeholders("LIKE"@) == 0);
    }
    match &el.value {
        QueryValue::String(s) => {
            if el.negated {
                push_one(b, "events.source NOT LIKE ?", SqlArg::Text(like(s.as_str())));
            } else {
                push_one(b, "events.source LIKE ?", SqlArg::Text(like(s.as_str())));
            }
        },
        QueryValue::KeyValue(k, v) => {
            if !check_path(k.as_str()) {
                proof {
                    lemma_extend_none(*b);
                }
            } else {
                match parse_i64(v.as_str()) {
                    Some(n) => {
                        push_json(b, k.as_str(), "=", SqlArg::Int(n));
                    },
                    None => {
                        push_json(b, k.as_str(), "LIKE", SqlArg::Text(like(v.as_str())));
                    },
                }
            }
        },
        QueryValue::From(_) => {
            proof {
                lemma_extend_none(*b);
            }
        },
        QueryValue::To(t) => {
            push_one(b, "timestamp <= ?", SqlArg::Int(*t));
        },
    }
}

/// Adds every predicate of an alert query, in order; none can fail.
pub fn apply_alert_filters(b: &mut EventQueryBuilder, o: &AlertQueryOptions)
    requires
        old(b).wf(),
        old(b).spec_pending() == 0,
    ensures
        extended_by(*old(b), *final(b), alert_filters(old(b).spec_fts(), *o)),
{
    let ghost start = *b;
    let ghost fts = b.spec_fts();
    proof {
        reveal_strlit("event_type");
        reveal_strlit("host");
        reveal_strlit("=");
        reveal_strlit("alert");
        reveal_strlit("timestamp >= ?");
        reveal_with_fuel(path_chars, 11);
        reveal_with_fuel(placeholders, 15);
        lemma_path_chars_valid("event_type"@);
        lemma_path_chars_valid("host"@);
        assert(placeholders("="@) == 0);
        assert(placeholders("timestamp >= ?"@) == 1);
    }
    push_json(b, "event_type", "=", SqlArg::Text(String::from_str("alert")));
    let ghost mut done: Seq<(Seq<char>, SqlValue)> = seq![
        (json_predicate(fts, "event_type"@, "="@), SqlValue::Text("alert"@)),
    ];
    let mut i: usize = 0;
    while i < o.tags.len()
        invariant
            i <= o.tags.len(),
            b.spec_fts() == fts,
            extended_by(start, *b, done + tag_filters(o.tags@.take(i as int))),
        decreases o.tags.len() - i,
    {
        let ghost before = *b;
        apply_tag(b, &o.tags[i]);
        proof {
            let t = o.tags@.take(i as int + 1);
            assert(t.drop_last() =~= o.tags@.take(i as int));
            assert(t.last() == o.tags@[i as int]);
            lemma_extend(start, before, *b, done + tag_filters(o.tags@.take(i as int)), opt_seq(tag_filter(o.tags@[i as int]@)));
            assert(done + tag_filters(t) =~= done + tag_filters(o.tags@.take(i as int)) + opt_seq(tag_filter(o.tags@[i as int]@)));
        }
        i = i + 1;
    }
    proof {
        assert(o.tags@.take(o.tags@.len() as int) =~= o.tags@);
        done = done + tag_filters(o.tags@);
    }
    let ghost before = *b;
    match &o.sensor {
        Some(s) => {
            push_json(b, "host", "=", SqlArg::Text(s.clone()));
        },
        None => {
            proof {
                lemma_extend_none(*b);
            }
        },
    }
    proof {
        let x = sensor_filter(fts, o.sensor);
        assert(extended_by(before, *b, x));
        lemma_extend(start, before, *b, done, x);
        done = done + x;
    }
    let ghost before = *b;
    match o.timestamp_gte {
        Some(t) => {
            push_one(b, "timestamp >= ?", SqlArg::Int(t));
        },
        None => {
            proof {
                lemma_extend_none(*b);
            }
        },
    }
    proof {
        let x = gte_filter(o.timestamp_gte);
        assert(extended_by(before, *b, x));
        lemma_extend(start, before, *b, done, x);
        done = done + x;
    }
    let mut j: usize = 0;
    while j < o.query.len()
        invariant
            j <= o.query.len(),
            b.spec_fts() == fts,
            extended_by(start, *b, done + element_filters(fts, o.query@.take(j as int))),
        decreases o.query.len() - j,
    {
        let ghost before = *b;
        apply_element(b, &o.query[j]);
        proof {
            let t = o.query@.take(j as int + 1);
            assert(t.drop_last() =~= o.query@.take(j as int));
            assert(t.last() == o.query@[j as int]);
            lemma_extend(start, before, *b, done + element_filters(fts, o.query@.take(j as int)), opt_seq(element_filter(fts, o.query@[j as int])));
            assert(done + element_filters(fts, t) =~= done + element_filters(fts, o.query@.take(j as int)) + opt_seq(element_filter(fts, o.query@[j as int])));
        }
        j = j + 1;
    }
    proof {
        assert(o.query@.take(o.query@.len() as int) =~= o.query@);
        assert(done + element_filters(fts, o.query@) =~= alert_filters(fts, *o));
    }
}

/// Adds the predicates of `els`, in order.
pub fn apply_elements(b: &mut EventQueryBuilder, els: &Vec<QueryElement>)
    requires
        old(b).wf(),
        old(b).spec_pending() == 0,
    ensures
        extended_by(*old(b), *final(b), element_filters(old(b).spec_fts(), els@)),
{
    let ghost start = *b;
    let ghost fts = b.spec_fts();
    proof {
        lemma_extend_none(*b);
        assert(els@.take(0) =~= Seq::<QueryElement>::empty());
    }
    let mut j: usize = 0;
    while j < els.len()
        invariant
            j <= els.len(),
            b.spec_fts() == fts,
            extended_by(start, *b, element_filters(fts, els@.take(j as int))),
        decreases els.len() - j,
    {
        let ghost before = *b;
        apply_element(b, &els[j]);
        proof {
            let t = els@.take(j as int + 1);
            assert(t.drop_last() =~= els@.take(j as int));
            assert(t.last() == els@[j as int]);
            lemma_extend(start, before, *b, element_filters(fts, els@.take(j as int)), opt_seq(element_filter(fts, els@[j as int])));
        }
        j = j + 1;
    }
    assert(els@.take(els@.len() as int) =~= els@);
}

} // verus!
