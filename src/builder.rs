//! Parameterised SQL statement builder for the events table.
//!
//! Fragments are accumulated into an explicit builder value and consumed once
//! by `build`, which only emits a statement whose `?` placeholders are exactly
//! as many as its bound arguments.
use crate::alerts::{decimal, u64_to_string};
use vstd::prelude::*;

verus! {

/// A value bound to one positional placeholder.
pub enum SqlArg {
    Int(i64),
    Text(String),
}

/// The mathematical value of a bound argument.
pub enum SqlValue {
    Int(int),
    Text(Seq<char>),
}

impl SqlArg {
    pub open spec fn view(&self) -> SqlValue {
        match self {
            SqlArg::Int(n) => SqlValue::Int(*n as int),
            SqlArg::Text(s) => SqlValue::Text(s@),
        }
    }
}

pub open spec fn arg_values(args: Seq<SqlArg>) -> Seq<SqlValue> {
    args.map_values(|a: SqlArg| a@)
}

/// Why a statement could not be assembled.
#[derive(Debug, PartialEq, Eq, Structural, Clone, Copy)]
pub enum BuildError {
    /// An argument was pushed with no open placeholder to receive it.
    UnboundArgument,
    /// A placeholder was left without an argument.
    MissingArgument,
    /// A placeholder appeared outside the WHERE clause.
    MisplacedPlaceholder,
    /// A JSON path held a character outside `[A-Za-z0-9_.-]`.
    InvalidPath,
}

/// Number of `?` characters in `s`.
pub open spec fn placeholders(s: Seq<char>) -> nat
    decreases s.len(),
{
    if s.len() == 0 {
        0
    } else {
        placeholders(s.drop_last()) + if s.last() == '?' { 1nat } else { 0nat }
    }
}

pub proof fn lemma_placeholders_concat(a: Seq<char>, b: Seq<char>)
    ensures
        placeholders(a + b) == placeholders(a) + placeholders(b),
    decreases b.len(),
{
    if b.len() == 0 {
        assert(a + b =~= a);
    } else {
        lemma_placeholders_concat(a, b.drop_last());
        assert((a + b).drop_last() =~= a + b.drop_last());
    }
}

/// `parts` separated by `sep`.
pub open spec fn join(parts: Seq<Seq<char>>, sep: Seq<char>) -> Seq<char>
    decreases parts.len(),
{
    if parts.len() == 0 {
        Seq::empty()
    } else if parts.len() == 1 {
        parts[0]
    } else {
        join(parts.drop_last(), sep) + sep + parts.last()
    }
}

/// Total placeholders over all `parts`.
pub open spec fn placeholders_all(parts: Seq<Seq<char>>) -> nat
    decreases parts.len(),
{
    if parts.len() == 0 {
        0
    } else {
        placeholders_all(parts.drop_last()) + placeholders(parts.last())
    }
}

pub open spec fn strings(v: Seq<String>) -> Seq<Seq<char>> {
    v.map_values(|s: String| s@)
}

pub open spec fn placeholder_free(s: Seq<char>) -> bool {
    placeholders(s) == 0
}

/// A JSON path usable inside a quoted SQL literal: non-empty, made of
/// ASCII letters, digits, `_`, `.` and `-`.
pub open spec fn is_path_char(c: char) -> bool {
    ('a' <= c && c <= 'z') || ('A' <= c && c <= 'Z') || ('0' <= c && c <= '9') || c == '_'
        || c == '.' || c == '-'
}

pub open spec fn valid_path(p: Seq<char>) -> bool {
    p.len() > 0 && forall|i: int| 0 <= i < p.len() ==> #[trigger] is_path_char(p[i])
}

pub proof fn lemma_join_placeholders(parts: Seq<Seq<char>>, sep: Seq<char>)
    requires
        placeholders(sep) == 0,
    ensures
        placeholders(join(parts, sep)) == placeholders_all(parts),
    decreases parts.len(),
{
    if parts.len() == 1 {
        assert(parts.drop_last().len() == 0);
        assert(placeholders_all(parts.drop_last()) == 0);
        assert(parts.last() == parts[0]);
    } else if parts.len() > 1 {
        lemma_join_placeholders(parts.drop_last(), sep);
        lemma_placeholders_concat(join(parts.drop_last(), sep), sep);
        lemma_placeholders_concat(join(parts.drop_last(), sep) + sep, parts.last());
    }
}

pub proof fn lemma_placeholders_push(parts: Seq<Seq<char>>, x: Seq<char>)
    ensures
        placeholders_all(parts.push(x)) == placeholders_all(parts) + placeholders(x),
{
    assert(parts.push(x).drop_last() =~= parts);
}

proof fn lemma_path_free(p: Seq<char>)
    requires
        forall|i: int| 0 <= i < p.len() ==> #[trigger] is_path_char(p[i]),
    ensures
        placeholders(p) == 0,
    decreases p.len(),
{
    if p.len() > 0 {
        let q = p.drop_last();
        assert forall|i: int| 0 <= i < q.len() implies #[trigger] is_path_char(q[i]) by {
            assert(q[i] == p[i]);
        }
        lemma_path_free(q);
        assert(is_path_char(p[p.len() - 1]));
    }
}

proof fn lemma_decimal_free(n: nat)
    ensures
        placeholders(decimal(n)) == 0,
    decreases n,
{
    let d = decimal(n);
    assert(d.last() != '?');
    if n >= 10 {
        lemma_decimal_free(n / 10);
        assert(d.drop_last() =~= decimal(n / 10));
    } else {
        assert(d.drop_last() =~= Seq::<char>::empty());
        assert(placeholders(d.drop_last()) == 0);
    }
}

/// Counts the `?` characters of `s`.
pub fn count_placeholders(s: &str) -> (r: usize)
    ensures
        r == placeholders(s@),
{
    let n = s.unicode_len();
    let mut i: usize = 0;
    let mut r: usize = 0;
    while i < n
        invariant
            n == s@.len(),
            i <= n,
            r == placeholders(s@.take(i as int)),
            r <= i,
        decreases n - i,
    {
        assert(s@.take(i as int + 1).drop_last() =~= s@.take(i as int));
        if s.get_char(i) == '?' {
            r = r + 1;
        }
        i = i + 1;
    }
    assert(s@.take(n as int) =~= s@);
    r
}

/// Whether `p` is a valid JSON path.
pub fn check_path(p: &str) -> (r: bool)
    ensures
        r == valid_path(p@),
{
    let n = p.unicode_len();
    if n == 0 {
        return false;
    }
    let mut i: usize = 0;
    while i < n
        invariant
            n == p@.len(),
            i <= n,
            forall|j: int| 0 <= j < i ==> #[trigger] is_path_char(p@[j]),
        decreases n - i,
    {
        let c = p.get_char(i);
        if !(('a' <= c && c <= 'z') || ('A' <= c && c <= 'Z') || ('0' <= c && c <= '9') || c
            == '_' || c == '.' || c == '-') {
            assert(!is_path_char(p@[i as int]));
            return false;
        }
        i = i + 1;
    }
    true
}

/// Joins `parts` with `sep`.
pub fn join_strings(parts: &Vec<String>, sep: &str) -> (r: String)
    ensures
        r@ == join(strings(parts@), sep@),
{
    let mut r = String::new();
    let mut i: usize = 0;
    while i < parts.len()
        invariant
            i <= parts.len(),
            r@ == join(strings(parts@.take(i as int)), sep@),
        decreases parts.len() - i,
    {
        proof {
            let t = strings(parts@.take(i as int + 1));
            assert(t.drop_last() =~= strings(parts@.take(i as int)));
            assert(t.last() == parts@[i as int]@);
        }
        if i > 0 {
            r.append(sep);
        }
        r.append(parts[i].as_str());
        proof {
            if i == 0 {
                assert(r@ =~= join(strings(parts@.take(1)), sep@));
            }
        }
        i = i + 1;
    }
    assert(parts@.take(parts@.len() as int) =~= parts@);
    r
}

/// Accumulates the parts of one SELECT statement over the events table.
pub struct EventQueryBuilder {
    fts: bool,
    selects: Vec<String>,
    from: Vec<String>,
    wheres: Vec<String>,
    args: Vec<SqlArg>,
    order: Option<(String, String)>,
    group: Option<String>,
    limit: Option<u64>,
    pending: usize,
}

/// How a JSON path is read: from the indexed columns when `fts` is set,
/// else extracted from the stored document.
pub open spec fn spec_json_ref(fts: bool, path: Seq<char>) -> Seq<char> {
    if fts {
        "events.source->>'$."@ + path + "'"@
    } else {
        "json_extract(events.source, '$."@ + path + "')"@
    }
}

pub proof fn lemma_json_ref_free(fts: bool, path: Seq<char>)
    requires
        valid_path(path),
    ensures
        placeholders(spec_json_ref(fts, path)) == 0,
{
    lemma_path_free(path);
    reveal_strlit("events.source->>'$.");
    reveal_strlit("'");
    reveal_strlit("json_extract(events.source, '$.");
    reveal_strlit("')");
    reveal_with_fuel(placeholders, 32);
    assert(placeholders("events.source->>'$."@) == 0);
    assert(placeholders("'"@) == 0);
    assert(placeholders("json_extract(events.source, '$."@) == 0);
    assert(placeholders("')"@) == 0);
    lemma_placeholders_concat("events.source->>'$."@, path);
    lemma_placeholders_concat("events.source->>'$."@ + path, "'"@);
    lemma_placeholders_concat("json_extract(events.source, '$."@, path);
    lemma_placeholders_concat("json_extract(events.source, '$."@ + path, "')"@);
}

impl EventQueryBuilder {
    /// Whether JSON paths read the indexed columns.
    pub closed spec fn spec_fts(&self) -> bool {
        self.fts
    }

    pub closed spec fn spec_selects(&self) -> Seq<Seq<char>> {
        strings(self.selects@)
    }

    pub closed spec fn spec_from(&self) -> Seq<Seq<char>> {
        strings(self.from@)
    }

    pub closed spec fn spec_wheres(&self) -> Seq<Seq<char>> {
        strings(self.wheres@)
    }

    pub closed spec fn spec_args(&self) -> Seq<SqlValue> {
        arg_values(self.args@)
    }

    pub closed spec fn spec_order(&self) -> Option<(Seq<char>, Seq<char>)> {
        match self.order {
            Some((c, d)) => Some((c@, d@)),
            None => None,
        }
    }

    pub closed spec fn spec_group(&self) -> Option<Seq<char>> {
        match self.group {
            Some(g) => Some(g@),
            None => None,
        }
    }

    pub closed spec fn spec_limit(&self) -> Option<u64> {
        self.limit
    }

    /// Placeholders of the WHERE fragments that no argument fills yet.
    pub closed spec fn spec_pending(&self) -> nat {
        self.pending as nat
    }

    /// Placeholders stand only in the WHERE fragments, and each one is
    /// either filled by an argument, in order, or still pending.
    pub open spec fn wf(&self) -> bool {
        &&& placeholders_all(self.spec_wheres()) == self.spec_args().len() + self.spec_pending()
        &&& placeholders_all(self.spec_selects()) == 0
        &&& placeholders_all(self.spec_from()) == 0
        &&& match self.spec_order() {
            Some((c, d)) => placeholders(c) == 0 && placeholders(d) == 0,
            None => true,
        }
        &&& match self.spec_group() {
            Some(g) => placeholders(g) == 0,
            None => true,
        }
    }

    /// The SQL text that `build` emits.
    pub open spec fn spec_sql(&self) -> Seq<char> {
        let base = "SELECT "@ + join(self.spec_selects(), ", "@) + " FROM "@ + join(
            self.spec_from(),
            ", "@,
        );
        let filtered = if self.spec_wheres().len() == 0 {
            base
        } else {
            base + " WHERE "@ + join(self.spec_wheres(), " AND "@)
        };
        let grouped = match self.spec_group() {
            Some(g) => filtered + " GROUP BY "@ + g,
            None => filtered,
        };
        let ordered = match self.spec_order() {
            Some((c, d)) => grouped + " ORDER BY "@ + c + " "@ + d,
            None => grouped,
        };
        match self.spec_limit() {
            Some(n) => ordered + " LIMIT "@ + decimal(n as nat),
            None => ordered,
        }
    }

    /// `self` and `other` differ at most in their select list.
    pub open spec fn same_but_selects(&self, other: &Self) -> bool {
        &&& self.spec_fts() == other.spec_fts()
        &&& self.spec_from() == other.spec_from()
        &&& self.spec_wheres() == other.spec_wheres()
        &&& self.spec_args() == other.spec_args()
        &&& self.spec_order() == other.spec_order()
        &&& self.spec_group() == other.spec_group()
        &&& self.spec_limit() == other.spec_limit()
        &&& self.spec_pending() == other.spec_pending()
    }

    /// `self` and `other` differ at most in their WHERE fragments, arguments
    /// and pending placeholders.
    pub open spec fn same_but_filters(&self, other: &Self) -> bool {
        &&& self.spec_fts() == other.spec_fts()
        &&& self.spec_selects() == other.spec_selects()
        &&& self.spec_from() == other.spec_from()
        &&& self.spec_order() == other.spec_order()
        &&& self.spec_group() == other.spec_group()
        &&& self.spec_limit() == other.spec_limit()
    }

    pub fn new(fts: bool) -> (r: Self)
        ensures
            r.wf(),
            r.spec_fts() == fts,
            r.spec_selects().len() == 0,
            r.spec_from().len() == 0,
            r.spec_wheres().len() == 0,
            r.spec_args().len() == 0,
            r.spec_order() is None,
            r.spec_group() is None,
            r.spec_limit() is None,
            r.spec_pending() == 0,
    {
        let r = EventQueryBuilder {
            fts,
            selects: Vec::new(),
            from: Vec::new(),
            wheres: Vec::new(),
            args: Vec::new(),
            order: None,
            group: None,
            limit: None,
            pending: 0,
        };
        assert(r.spec_wheres() =~= Seq::empty());
        assert(r.spec_selects() =~= Seq::empty());
        assert(r.spec_from() =~= Seq::empty());
        assert(r.spec_args() =~= Seq::empty());
        r
    }

    pub fn fts(&self) -> (r: bool)
        ensures
            r == self.spec_fts(),
    {
        self.fts
    }

    fn push_select(&mut self, col: String)
        requires
            old(self).wf(),
            placeholders(col@) == 0,
        ensures
            final(self).wf(),
            final(self).spec_selects() == old(self).spec_selects().push(col@),
            final(self).same_but_selects(old(self)),
    {
        let ghost c = col@;
        self.selects.push(col);
        proof {
            assert(strings(self.selects@) =~= strings(old(self).selects@).push(c));
            lemma_placeholders_push(strings(old(self).selects@), c);
        }
    }

    /// Adds a raw column reference to the select list; one holding a
    /// placeholder is refused.
    pub fn select(&mut self, column: &str) -> (r: Result<(), BuildError>)
        requires
            old(self).wf(),
        ensures
            final(self).wf(),
            r is Err <==> placeholders(column@) != 0,
            r is Err ==> r == Err::<(), BuildError>(BuildError::MisplacedPlaceholder) && *final(
                self) == *old(self),
            r is Ok ==> final(self).spec_selects() == old(self).spec_selects().push(column@),
            final(self).same_but_selects(old(self)),
    {
        if count_placeholders(column) != 0 {
            return Err(BuildError::MisplacedPlaceholder);
        }
        self.push_select(String::from_str(column));
        Ok(())
    }

    /// The reference to JSON path `path` in this builder's mode.
    pub fn json_ref(&self, path: &str) -> (r: String)
        ensures
            r@ == spec_json_ref(self.spec_fts(), path@),
    {
        let mut r = if self.fts {
            String::from_str("events.source->>'$.")
        } else {
            String::from_str("json_extract(events.source, '$.")
        };
        r.append(path);
        if self.fts {
            r.append("'");
        } else {
            r.append("')");
        }
        r
    }

    /// Projects the scalar at JSON path `path`, named after the path.
    pub fn selectjs(&mut self, path: &str) -> (r: Result<(), BuildError>)
        requires
            old(self).wf(),
        ensures
            final(self).wf(),
            r is Err <==> !valid_path(path@),
            r is Err ==> r == Err::<(), BuildError>(BuildError::InvalidPath) && *final(self)
                == *old(self),
            r is Ok ==> final(self).spec_selects() == old(self).spec_selects().push(
                spec_json_ref(old(self).spec_fts(), path@) + " AS \""@ + path@ + "\""@,
            ),
            final(self).same_but_selects(old(self)),
    {
        if !check_path(path) {
            return Err(BuildError::InvalidPath);
        }
        let mut col = self.json_ref(path);
        col.append(" AS \"");
        col.append(path);
        col.append("\"");
        proof {
            lemma_json_ref_free(self.fts, path@);
            lemma_path_free(path@);
            reveal_strlit(" AS \"");
            reveal_strlit("\"");
            reveal_with_fuel(placeholders, 6);
            assert(placeholders(" AS \""@) == 0);
            assert(placeholders("\""@) == 0);
            let j = spec_json_ref(self.fts, path@);
            lemma_placeholders_concat(j, " AS \""@);
            lemma_placeholders_concat(j + " AS \""@, path@);
            lemma_placeholders_concat(j + " AS \""@ + path@, "\""@);
        }
        self.push_select(col);
        Ok(())
    }

    /// Projects the JSON document at path `path` (not its scalar text),
    /// named after the path.
    pub fn selectjs2(&mut self, path: &str) -> (r: Result<(), BuildError>)
        requires
            old(self).wf(),
        ensures
            final(self).wf(),
            r is Err <==> !valid_path(path@),
            r is Err ==> r == Err::<(), BuildError>(BuildError::InvalidPath) && *final(self)
                == *old(self),
            r is Ok ==> final(self).spec_selects() == old(self).spec_selects().push(
                "events.source->'$."@ + path@ + "' AS \""@ + path@ + "\""@,
            ),
            final(self).same_but_selects(old(self)),
    {
        if !check_path(path) {
            return Err(BuildError::InvalidPath);
        }
        let mut col = String::from_str("events.source->'$.");
        col.append(path);
        col.append("' AS \"");
        col.append(path);
        col.append("\"");
        proof {
            lemma_path_free(path@);
            reveal_strlit("events.source->'$.");
            reveal_strlit("' AS \"");
            reveal_strlit("\"");
            reveal_with_fuel(placeholders, 20);
            assert(placeholders("events.source->'$."@) == 0);
            assert(placeholders("' AS \""@) == 0);
            assert(placeholders("\""@) == 0);
            let a = "events.source->'$."@;
            lemma_placeholders_concat(a, path@);
            lemma_placeholders_concat(a + path@, "' AS \""@);
            lemma_placeholders_concat(a + path@ + "' AS \""@, path@);
            lemma_placeholders_concat(a + path@ + "' AS \""@ + path@, "\""@);
        }
        self.push_select(col);
        Ok(())
    }

    /// Adds a table to the from list; one holding a placeholder is refused.
    pub fn from(&mut self, table: &str) -> (r: Result<(), BuildError>)
        requires
            old(self).wf(),
        ensures
            final(self).wf(),
            r is Err <==> placeholders(table@) != 0,
            r is Err ==> r == Err::<(), BuildError>(BuildError::MisplacedPlaceholder) && *final(
                self) == *old(self),
            r is Ok ==> final(self).spec_from() == old(self).spec_from().push(table@),
            final(self).spec_fts() == old(self).spec_fts(),
            final(self).spec_selects() == old(self).spec_selects(),
            final(self).spec_wheres() == old(self).spec_wheres(),
            final(self).spec_args() == old(self).spec_args(),
            final(self).spec_order() == old(self).spec_order(),
            final(self).spec_group() == old(self).spec_group(),
            final(self).spec_limit() == old(self).spec_limit(),
            final(self).spec_pending() == old(self).spec_pending(),
    {
        if count_placeholders(table) != 0 {
            return Err(BuildError::MisplacedPlaceholder);
        }
        self.from.push(String::from_str(table));
        proof {
            assert(strings(self.from@) =~= strings(old(self).from@).push(table@));
            lemma_placeholders_push(strings(old(self).from@), table@);
        }
        Ok(())
    }

    /// Sets the ordering column and direction; a placeholder in either is
    /// refused.
    pub fn order_by(&mut self, column: &str, direction: &str) -> (r: Result<(), BuildError>)
        requires
            old(self).wf(),
        ensures
            final(self).wf(),
            r is Err <==> placeholders(column@) != 0 || placeholders(direction@) != 0,
            r is Err ==> r == Err::<(), BuildError>(BuildError::MisplacedPlaceholder) && *final(
                self) == *old(self),
            r is Ok ==> final(self).spec_order() == Some((column@, direction@)),
            final(self).spec_fts() == old(self).spec_fts(),
            final(self).spec_selects() == old(self).spec_selects(),
            final(self).spec_from() == old(self).spec_from(),
            final(self).spec_wheres() == old(self).spec_wheres(),
            final(self).spec_args() == old(self).spec_args(),
            final(self).spec_group() == old(self).spec_group(),
            final(self).spec_limit() == old(self).spec_limit(),
            final(self).spec_pending() == old(self).spec_pending(),
    {
        if count_placeholders(column) != 0 || count_placeholders(direction) != 0 {
            return Err(BuildError::MisplacedPlaceholder);
        }
        self.order = Some((String::from_str(column), String::from_str(direction)));
        Ok(())
    }

    /// Groups the rows by `column`; one holding a placeholder is refused.
    pub fn group_by(&mut self, column: &str) -> (r: Result<(), BuildError>)
        requires
            old(self).wf(),
        ensures
            final(self).wf(),
            r is Err <==> placeholders(column@) != 0,
            r is Err ==> r == Err::<(), BuildError>(BuildError::MisplacedPlaceholder) && *final(
                self) == *old(self),
            r is Ok ==> final(self).spec_group() == Some(column@),
            final(self).spec_fts() == old(self).spec_fts(),
            final(self).spec_selects() == old(self).spec_selects(),
            final(self).spec_from() == old(self).spec_from(),
            final(self).spec_wheres() == old(self).spec_wheres(),
            final(self).spec_args() == old(self).spec_args(),
            final(self).spec_order() == old(self).spec_order(),
            final(self).spec_limit() == old(self).spec_limit(),
            final(self).spec_pending() == old(self).spec_pending(),
    {
        if count_placeholders(column) != 0 {
            return Err(BuildError::MisplacedPlaceholder);
        }
        self.group = Some(String::from_str(column));
        Ok(())
    }

    /// Returns at most `n` rows.
    pub fn limit(&mut self, n: u64)
        requires
            old(self).wf(),
        ensures
            final(self).wf(),
            final(self).spec_limit() == Some(n),
            final(self).spec_fts() == old(self).spec_fts(),
            final(self).spec_selects() == old(self).spec_selects(),
            final(self).spec_from() == old(self).spec_from(),
            final(self).spec_wheres() == old(self).spec_wheres(),
            final(self).spec_args() == old(self).spec_args(),
            final(self).spec_order() == old(self).spec_order(),
            final(self).spec_group() == old(self).spec_group(),
            final(self).spec_pending() == old(self).spec_pending(),
    {
        self.limit = Some(n);
    }

    /// Adds a WHERE fragment; each `?` in it opens a placeholder that
    /// the following `push_arg` calls fill in order. The previous fragment
    /// must be fully bound first.
    pub fn push_where(&mut self, fragment: &str)
        requires
            old(self).wf(),
            old(self).spec_pending() == 0,
        ensures
            final(self).wf(),
            final(self).spec_wheres() == old(self).spec_wheres().push(fragment@),
            final(self).spec_pending() == placeholders(fragment@),
            final(self).spec_args() == old(self).spec_args(),
            final(self).same_but_filters(old(self)),
    {
        let n = count_placeholders(fragment);
        self.wheres.push(String::from_str(fragment));
        self.pending = n;
        proof {
            assert(strings(self.wheres@) =~= strings(old(self).wheres@).push(fragment@));
            lemma_placeholders_push(strings(old(self).wheres@), fragment@);
        }
    }

    /// Binds `arg` to the first open placeholder; fails when none is open.
    pub fn push_arg(&mut self, arg: SqlArg) -> (r: Result<(), BuildError>)
        requires
            old(self).wf(),
        ensures
            final(self).wf(),
            r is Err <==> old(self).spec_pending() == 0,
            r is Err ==> r == Err::<(), BuildError>(BuildError::UnboundArgument) && final(
                self).spec_args() == old(self).spec_args() && final(self).spec_pending() == old(
                self).spec_pending(),
            r is Ok ==> final(self).spec_args() == old(self).spec_args().push(arg@)
                && final(self).spec_pending() == old(self).spec_pending() - 1,
            final(self).spec_wheres() == old(self).spec_wheres(),
            final(self).same_but_filters(old(self)),
    {
        if self.pending == 0 {
            return Err(BuildError::UnboundArgument);
        }
        let ghost a = arg@;
        self.args.push(arg);
        self.pending = self.pending - 1;
        assert(arg_values(self.args@) =~= arg_values(old(self).args@).push(a));
        Ok(())
    }

    /// Adds `<path> <op> ?` with `arg` bound to the placeholder, the path
    /// read in this builder's mode. A path outside `[A-Za-z0-9_.-]` is
    /// refused, and so is an operator holding a placeholder.
    pub fn wherejs(&mut self, path: &str, op: &str, arg: SqlArg) -> (r: Result<(), BuildError>)
        requires
            old(self).wf(),
            old(self).spec_pending() == 0,
        ensures
            final(self).wf(),
            final(self).spec_pending() == 0,
            r is Ok <==> valid_path(path@) && placeholders(op@) == 0,
            !valid_path(path@) ==> r == Err::<(), BuildError>(BuildError::InvalidPath),
            valid_path(path@) && placeholders(op@) != 0 ==> r == Err::<(), BuildError>(
                BuildError::MisplacedPlaceholder,
            ),
            r is Err ==> *final(self) == *old(self),
            r is Ok ==> final(self).spec_wheres() == old(self).spec_wheres().push(
                spec_json_ref(old(self).spec_fts(), path@) + " "@ + op@ + " ?"@,
            ) && final(self).spec_args() == old(self).spec_args().push(arg@),
            final(self).same_but_filters(old(self)),
    {
        if !check_path(path) {
            return Err(BuildError::InvalidPath);
        }
        if count_placeholders(op) != 0 {
            return Err(BuildError::MisplacedPlaceholder);
        }
        let mut frag = self.json_ref(path);
        frag.append(" ");
        frag.append(op);
        frag.append(" ?");
        proof {
            lemma_json_ref_free(self.fts, path@);
            reveal_strlit(" ");
            reveal_strlit(" ?");
            reveal_with_fuel(placeholders, 3);
            assert(placeholders(" "@) == 0);
            assert(placeholders(" ?"@) == 1);
            let j = spec_json_ref(self.fts, path@);
            lemma_placeholders_concat(j, " "@);
            lemma_placeholders_concat(j + " "@, op@);
            lemma_placeholders_concat(j + " "@ + op@, " ?"@);
        }
        self.push_where(frag.as_str());
        let r = self.push_arg(arg);
        assert(r is Ok);
        Ok(())
    }

    /// Adds `fragment`, which must hold exactly one placeholder, with `arg`
    /// bound to it.
    pub fn push_where_arg(&mut self, fragment: &str, arg: SqlArg) -> (r: Result<(), BuildError>)
        requires
            old(self).wf(),
            old(self).spec_pending() == 0,
        ensures
            final(self).wf(),
            final(self).spec_pending() == 0,
            r is Ok <==> placeholders(fragment@) == 1,
            placeholders(fragment@) == 0 ==> r == Err::<(), BuildError>(
                BuildError::UnboundArgument,
            ),
            placeholders(fragment@) > 1 ==> r == Err::<(), BuildError>(
                BuildError::MissingArgument,
            ),
            r is Err ==> *final(self) == *old(self),
            r is Ok ==> final(self).spec_wheres() == old(self).spec_wheres().push(fragment@)
                && final(self).spec_args() == old(self).spec_args().push(arg@),
            final(self).same_but_filters(old(self)),
    {
        let n = count_placeholders(fragment);
        if n == 0 {
            return Err(BuildError::UnboundArgument);
        }
        if n > 1 {
            return Err(BuildError::MissingArgument);
        }
        self.push_where(fragment);
        let r = self.push_arg(arg);
        assert(r is Ok);
        Ok(())
    }

    /// Consumes the builder into the SQL text and its positional arguments,
    /// as many as the text has placeholders; fails while a placeholder is
    /// still open.
    pub fn build(self) -> (r: Result<(String, Vec<SqlArg>), BuildError>)
        requires
            self.wf(),
        ensures
            r is Ok <==> self.spec_pending() == 0,
            r is Err ==> r == Err::<(String, Vec<SqlArg>), BuildError>(BuildError::MissingArgument),
            r matches Ok((sql, args)) ==> sql@ == self.spec_sql() && arg_values(args@)
                == self.spec_args() && placeholders(sql@) == args@.len(),
    {
        if self.pending != 0 {
            return Err(BuildError::MissingArgument);
        }
        let mut sql = String::from_str("SELECT ");
        let sel = join_strings(&self.selects, ", ");
        sql.append(sel.as_str());
        sql.append(" FROM ");
        let fr = join_strings(&self.from, ", ");
        sql.append(fr.as_str());
        if self.wheres.len() > 0 {
            sql.append(" WHERE ");
            let wh = join_strings(&self.wheres, " AND ");
            sql.append(wh.as_str());
        } else {
            assert(self.spec_wheres().len() == 0);
        }
        match &self.group {
            Some(g) => {
                sql.append(" GROUP BY ");
                sql.append(g.as_str());
            },
            None => {},
        }
        match &self.order {
            Some((c, d)) => {
                sql.append(" ORDER BY ");
                sql.append(c.as_str());
                sql.append(" ");
                sql.append(d.as_str());
            },
            None => {},
        }
        match self.limit {
            Some(n) => {
                sql.append(" LIMIT ");
                let digits = u64_to_string(n);
                sql.append(digits.as_str());
            },
            None => {},
        }
        proof {
            lemma_placeholders_match_arguments(self);
        }
        Ok((sql, self.args))
    }

    /// Consumes the builder into its WHERE conjunction alone and the
    /// arguments, as many as the conjunction has placeholders.
    pub fn build_filter(self) -> (r: (String, Vec<SqlArg>))
        requires
            self.wf(),
            self.spec_pending() == 0,
        ensures
            r.0@ == join(self.spec_wheres(), " AND "@),
            arg_values(r.1@) == self.spec_args(),
            placeholders(r.0@) == r.1@.len(),
    {
        proof {
            reveal_strlit(" AND ");
            reveal_with_fuel(placeholders, 6);
            assert(placeholders(" AND "@) == 0);
            lemma_join_placeholders(self.spec_wheres(), " AND "@);
        }
        let f = join_strings(&self.wheres, " AND ");
        (f, self.args)
    }
}

/// Whatever selects, tables, predicates and arguments a builder was given,
/// once every placeholder is bound the statement it describes holds exactly
/// as many placeholders as arguments.
pub proof fn lemma_placeholders_match_arguments(b: EventQueryBuilder)
    requires
        b.wf(),
        b.spec_pending() == 0,
    ensures
        placeholders(b.spec_sql()) == b.spec_args().len(),
{
    reveal_strlit("SELECT ");
    reveal_strlit(", ");
    reveal_strlit(" FROM ");
    reveal_strlit(" WHERE ");
    reveal_strlit(" AND ");
    reveal_strlit(" ORDER BY ");
    reveal_strlit(" ");
    reveal_strlit(" GROUP BY ");
    reveal_strlit(" LIMIT ");
    reveal_with_fuel(placeholders, 11);
    assert(placeholders(" GROUP BY "@) == 0);
    assert(placeholders(" LIMIT "@) == 0);
    assert(placeholders("SELECT "@) == 0);
    assert(placeholders(", "@) == 0);
    assert(placeholders(" FROM "@) == 0);
    assert(placeholders(" WHERE "@) == 0);
    assert(placeholders(" AND "@) == 0);
    assert(placeholders(" ORDER BY "@) == 0);
    assert(placeholders(" "@) == 0);
    let sel = join(b.spec_selects(), ", "@);
    let fr = join(b.spec_from(), ", "@);
    let wh = join(b.spec_wheres(), " AND "@);
    lemma_join_placeholders(b.spec_selects(), ", "@);
    lemma_join_placeholders(b.spec_from(), ", "@);
    lemma_join_placeholders(b.spec_wheres(), " AND "@);
    lemma_placeholders_concat("SELECT "@, sel);
    lemma_placeholders_concat("SELECT "@ + sel, " FROM "@);
    lemma_placeholders_concat("SELECT "@ + sel + " FROM "@, fr);
    let base = "SELECT "@ + sel + " FROM "@ + fr;
    lemma_placeholders_concat(base, " WHERE "@);
    lemma_placeholders_concat(base + " WHERE "@, wh);
    let filtered = if b.spec_wheres().len() == 0 {
        base
    } else {
        base + " WHERE "@ + wh
    };
    if b.spec_wheres().len() == 0 {
        assert(placeholders_all(b.spec_wheres()) == 0);
    }
    let grouped = match b.spec_group() {
        Some(g) => filtered + " GROUP BY "@ + g,
        None => filtered,
    };
    match b.spec_group() {
        Some(g) => {
            lemma_placeholders_concat(filtered, " GROUP BY "@);
            lemma_placeholders_concat(filtered + " GROUP BY "@, g);
        },
        None => {},
    }
    let ordered = match b.spec_order() {
        Some((c, d)) => grouped + " ORDER BY "@ + c + " "@ + d,
        None => grouped,
    };
    match b.spec_order() {
        Some((c, d)) => {
            lemma_placeholders_concat(grouped, " ORDER BY "@);
            lemma_placeholders_concat(grouped + " ORDER BY "@, c);
            lemma_placeholders_concat(grouped + " ORDER BY "@ + c, " "@);
            lemma_placeholders_concat(grouped + " ORDER BY "@ + c + " "@, d);
        },
        None => {},
    }
    match b.spec_limit() {
        Some(n) => {
            lemma_decimal_free(n as nat);
            lemma_placeholders_concat(ordered, " LIMIT "@);
            lemma_placeholders_concat(ordered + " LIMIT "@, decimal(n as nat));
        },
        None => {},
    }
}

} // verus!
