//! The two alert aggregation strategies: streaming rows into groups under a
//! time budget, and mapping the rows of the grouped SQL statement.
use crate::alerts::{
    alert_key, decimal, dedup_key, row_key, synthesize_source, synthesized_from,
    u64_to_string, AggAlert, AggAlertMetadata, AlertRow, AlertsResult,
};
use crate::sensors::{add_host, copy_names, distinct_names};
use crate::alerts::{lemma_dedup_key_injective, spec_dedup_key, string_views};
use crate::group_index::{group_index_entries, group_index_get, group_index_insert, group_index_new};
use indexmap::IndexMap;
use vstd::prelude::*;

verus! {

/// The streaming strategy's time budget: three seconds.
pub const ALERT_TIME_BUDGET_NANOS: u64 = 3_000_000_000;

/// Rows of `rows` that `p` selects.
pub open spec fn count_where(rows: Seq<AlertRow>, p: spec_fn(AlertRow) -> bool) -> nat
    decreases rows.len(),
{
    if rows.len() == 0 {
        0
    } else {
        count_where(rows.drop_last(), p) + if p(rows.last()) { 1nat } else { 0nat }
    }
}

/// Escalated rows of `rows` that `p` selects.
pub open spec fn escalated_where(rows: Seq<AlertRow>, p: spec_fn(AlertRow) -> bool) -> nat
    decreases rows.len(),
{
    if rows.len() == 0 {
        0
    } else {
        escalated_where(rows.drop_last(), p) + if p(rows.last()) && rows.last().escalated {
            1nat
        } else {
            0nat
        }
    }
}

/// Least timestamp of the rows that `p` selects (0 where it selects none).
pub open spec fn min_ts_where(rows: Seq<AlertRow>, p: spec_fn(AlertRow) -> bool) -> u64
    decreases rows.len(),
{
    if rows.len() == 0 {
        0
    } else {
        let prev = rows.drop_last();
        let t = rows.last().timestamp;
        if !p(rows.last()) {
            min_ts_where(prev, p)
        } else if count_where(prev, p) == 0 || t < min_ts_where(prev, p) {
            t
        } else {
            min_ts_where(prev, p)
        }
    }
}

/// Greatest timestamp of the rows that `p` selects (0 where it selects none).
pub open spec fn max_ts_where(rows: Seq<AlertRow>, p: spec_fn(AlertRow) -> bool) -> u64
    decreases rows.len(),
{
    if rows.len() == 0 {
        0
    } else {
        let prev = rows.drop_last();
        let t = rows.last().timestamp;
        if !p(rows.last()) {
            max_ts_where(prev, p)
        } else if count_where(prev, p) == 0 || t > max_ts_where(prev, p) {
            t
        } else {
            max_ts_where(prev, p)
        }
    }
}

/// Index of the first row that `p` selects, or -1.
pub open spec fn first_where(rows: Seq<AlertRow>, p: spec_fn(AlertRow) -> bool) -> int
    decreases rows.len(),
{
    if rows.len() == 0 {
        -1
    } else if first_where(rows.drop_last(), p) >= 0 {
        first_where(rows.drop_last(), p)
    } else if p(rows.last()) {
        rows.len() - 1
    } else {
        -1
    }
}

/// Rows whose dedup key is `k`.
pub open spec fn with_key(k: Seq<char>) -> spec_fn(AlertRow) -> bool {
    |r: AlertRow| row_key(r) == k
}

/// `m` holds the count, escalated count and timestamp range of the rows
/// that `p` selects.
pub open spec fn metadata_of(m: AggAlertMetadata, rows: Seq<AlertRow>, p: spec_fn(AlertRow) -> bool) -> bool {
    &&& m.count == count_where(rows, p)
    &&& m.escalated_count == escalated_where(rows, p)
    &&& m.min_timestamp == min_ts_where(rows, p)
    &&& m.max_timestamp == max_ts_where(rows, p)
}

/// `events` are the groups of `rows` by dedup key: one per key, in order of
/// each key's first row, each represented by that first row and carrying the
/// statistics of all the rows with its key.
pub open spec fn groups_of(rows: Seq<AlertRow>, events: Seq<AggAlert>) -> bool {
    &&& forall|i: int|
        #![trigger events[i]]
        0 <= i < events.len() ==> {
            let k = alert_key(events[i]);
            let f = first_where(rows, with_key(k));
            &&& 0 <= f < rows.len()
            &&& synthesized_from(events[i].source, rows[f])
            &&& events[i].id@ == decimal(rows[f].rowid as nat)
            &&& metadata_of(events[i].metadata, rows, with_key(k))
        }
    &&& forall|i: int, j: int|
        0 <= i < j < events.len() ==> first_where(rows, with_key(alert_key(#[trigger] events[i])))
            < first_where(rows, with_key(alert_key(#[trigger] events[j])))
    &&& forall|r: int|
        #![trigger rows[r]]
        0 <= r < rows.len() ==> exists|i: int|
            0 <= i < events.len() && alert_key(#[trigger] events[i]) == row_key(rows[r])
}

pub proof fn lemma_count_bound(rows: Seq<AlertRow>, p: spec_fn(AlertRow) -> bool)
    ensures
        escalated_where(rows, p) <= count_where(rows, p) <= rows.len(),
    decreases rows.len(),
{
    if rows.len() > 0 {
        lemma_count_bound(rows.drop_last(), p);
    }
}

proof fn lemma_first_where_found(rows: Seq<AlertRow>, p: spec_fn(AlertRow) -> bool)
    ensures
        count_where(rows, p) > 0 <==> 0 <= first_where(rows, p) < rows.len(),
        first_where(rows, p) >= 0 ==> p(rows[first_where(rows, p)]),
        first_where(rows, p) < rows.len(),
    decreases rows.len(),
{
    if rows.len() > 0 {
        lemma_first_where_found(rows.drop_last(), p);
    }
}

/// Some row of `rows` names host `x`.
pub open spec fn host_seen(rows: Seq<AlertRow>, x: Seq<char>) -> bool
    decreases rows.len(),
{
    rows.len() > 0 && (host_seen(rows.drop_last(), x) || (rows.last().host matches Some(h) && h@
        == x))
}

/// Streams alert rows, newest first, into groups keyed by dedup key.
pub struct StreamingAggregator {
    index: IndexMap<String, usize>,
    groups: Vec<AggAlert>,
    hosts: Vec<String>,
    rows: Ghost<Seq<AlertRow>>,
    rows_seen: u64,
    timed_out: bool,
    budget_nanos: u64,
}

impl StreamingAggregator {
    /// The rows consumed so far, in order.
    pub closed spec fn spec_rows(&self) -> Seq<AlertRow> {
        self.rows@
    }

    /// The groups formed so far.
    pub closed spec fn spec_groups(&self) -> Seq<AggAlert> {
        self.groups@
    }

    /// The distinct sensor hosts of the rows consumed.
    pub closed spec fn spec_hosts(&self) -> Seq<Seq<char>> {
        string_views(self.hosts@)
    }

    pub closed spec fn spec_timed_out(&self) -> bool {
        self.timed_out
    }

    pub closed spec fn spec_budget(&self) -> u64 {
        self.budget_nanos
    }

    pub closed spec fn wf(&self) -> bool {
        let m = group_index_entries(self.index);
        &&& self.rows_seen as nat == self.rows@.len()
        &&& distinct_names(string_views(self.hosts@))
        &&& forall|x: Seq<char>|
            #![trigger string_views(self.hosts@).contains(x)]
            string_views(self.hosts@).contains(x) <==> host_seen(self.rows@, x)
        &&& groups_of(self.rows@, self.groups@)
        &&& forall|k: Seq<char>|
            #![trigger m.contains_key(k)]
            m.contains_key(k) <==> count_where(self.rows@, with_key(k)) > 0
        &&& forall|k: Seq<char>|
            #![trigger m.contains_key(k)]
            m.contains_key(k) ==> m[k] < self.groups@.len() && alert_key(self.groups@[m[k] as int])
                == k
        &&& forall|i: int|
            #![trigger self.groups@[i]]
            0 <= i < self.groups@.len() ==> m.contains_key(alert_key(self.groups@[i]))
                && m[alert_key(self.groups@[i])] == i
    }

    /// An aggregator with no rows, stopping once more than `budget_nanos`
    /// have passed since its first row.
    pub fn new(budget_nanos: u64) -> (r: Self)
        ensures
            r.wf(),
            r.spec_rows().len() == 0,
            r.spec_groups().len() == 0,
            !r.spec_timed_out(),
            r.spec_budget() == budget_nanos,
    {
        let r = StreamingAggregator {
            index: group_index_new(),
            groups: Vec::new(),
            hosts: Vec::new(),
            rows: Ghost(Seq::empty()),
            rows_seen: 0,
            timed_out: false,
            budget_nanos,
        };
        assert(string_views(r.hosts@) =~= Seq::empty());
        r
    }

    /// The distinct sensor hosts of the rows consumed, in order of first
    /// appearance.
    pub fn sensors(&self) -> (r: Vec<String>)
        requires
            self.wf(),
        ensures
            distinct_names(string_views(r@)),
            forall|x: Seq<char>| string_views(r@).contains(x) <==> host_seen(self.spec_rows(), x),
    {
        copy_names(&self.hosts)
    }

    /// Number of rows consumed.
    pub fn rows_seen(&self) -> (r: u64)
        requires
            self.wf(),
        ensures
            r == self.spec_rows().len(),
    {
        self.rows_seen
    }

    pub fn timed_out(&self) -> (r: bool)
        ensures
            r == self.spec_timed_out(),
    {
        self.timed_out
    }

    /// Folds `row` into its group, then decides whether to read on:
    /// `elapsed_nanos` is the time since the first row was consumed (zero for
    /// the first row). Past the budget the aggregator times out and the
    /// answer is `false`.
    pub fn push_row(&mut self, row: AlertRow, elapsed_nanos: u64) -> (go_on: bool)
        requires
            old(self).wf(),
            !old(self).spec_timed_out(),
            old(self).spec_rows().len() < u64::MAX,
        ensures
            final(self).wf(),
            final(self).spec_rows() == old(self).spec_rows().push(row),
            final(self).spec_timed_out() == (elapsed_nanos > old(self).spec_budget()),
            final(self).spec_budget() == old(self).spec_budget(),
            go_on == !final(self).spec_timed_out(),
    {
        let ghost old_rows = self.rows@;
        let ghost new_rows = old_rows.push(row);
        let ghost k = row_key(row);
        let ghost old_groups = self.groups@;
        let key = dedup_key(row.signature_id, row.src_ip.as_str(), row.dest_ip.as_str());
        add_host(&mut self.hosts, &row.host);
        proof {
            assert forall|x: Seq<char>|
                #![trigger string_views(self.hosts@).contains(x)]
                string_views(self.hosts@).contains(x) <==> host_seen(new_rows, x) by {
                assert(new_rows.drop_last() =~= old_rows);
            }
        }
        assert(new_rows.drop_last() =~= old_rows);
        assert(new_rows.last() == row);
        match group_index_get(&self.index, &key) {
            Some(i) => {
                let m = self.groups[i].metadata;
                proof {
                    lemma_count_bound(old_rows, with_key(k));
                }
                let ts = row.timestamp;
                let nm = AggAlertMetadata {
                    count: m.count + 1,
                    escalated_count: if row.escalated {
                        m.escalated_count + 1
                    } else {
                        m.escalated_count
                    },
                    min_timestamp: if ts < m.min_timestamp {
                        ts
                    } else {
                        m.min_timestamp
                    },
                    max_timestamp: if ts > m.max_timestamp {
                        ts
                    } else {
                        m.max_timestamp
                    },
                };
                self.groups[i].metadata = nm;
                proof {
                    self.rows = Ghost(new_rows);
                    self.lemma_step_existing(old_rows, old_groups, row, i as int);
                }
            },
            None => {
                let i = self.groups.len();
                let id = u64_to_string(row.rowid);
                let ts = row.timestamp;
                let esc = row.escalated;
                let source = synthesize_source(row);
                let alert = AggAlert {
                    id,
                    source,
                    metadata: AggAlertMetadata {
                        count: 1,
                        escalated_count: if esc {
                            1
                        } else {
                            0
                        },
                        min_timestamp: ts,
                        max_timestamp: ts,
                    },
                };
                self.groups.push(alert);
                group_index_insert(&mut self.index, key, i);
                proof {
                    self.rows = Ghost(new_rows);
                    self.lemma_step_new(old_rows, old_groups, row);
                }
            },
        }
        self.rows_seen = self.rows_seen + 1;
        if elapsed_nanos > self.budget_nanos {
            self.timed_out = true;
        }
        !self.timed_out
    }

    proof fn lemma_step_existing(
        &self,
        old_rows: Seq<AlertRow>,
        old_groups: Seq<AggAlert>,
        row: AlertRow,
        i: int,
    )
        requires
            self.rows@ == old_rows.push(row),
            0 <= i < old_groups.len(),
            alert_key(old_groups[i]) == row_key(row),
            groups_of(old_rows, old_groups),
            self.groups@.len() == old_groups.len(),
            forall|j: int| 0 <= j < old_groups.len() && j != i ==> self.groups@[j] == old_groups[j],
            self.groups@[i].id == old_groups[i].id,
            self.groups@[i].source == old_groups[i].source,
            metadata_of(self.groups@[i].metadata, self.rows@, with_key(row_key(row))),
        ensures
            groups_of(self.rows@, self.groups@),
    {
        let rows = self.rows@;
        let groups = self.groups@;
        assert(rows.drop_last() =~= old_rows);
        assert forall|j: int| #![trigger groups[j]] 0 <= j < groups.len() implies {
            let k = alert_key(groups[j]);
            let f = first_where(rows, with_key(k));
            &&& 0 <= f < rows.len()
            &&& synthesized_from(groups[j].source, rows[f])
            &&& groups[j].id@ == decimal(rows[f].rowid as nat)
            &&& metadata_of(groups[j].metadata, rows, with_key(k))
        } by {
            let k = alert_key(groups[j]);
            assert(old_groups[j].source == groups[j].source);
            assert(alert_key(old_groups[j]) == k);
            let f = first_where(old_rows, with_key(k));
            assert(first_where(rows, with_key(k)) == f);
            assert(rows[f] == old_rows[f]);
        }
        assert forall|a: int, b: int|
            0 <= a < b < groups.len() implies first_where(
            rows,
            with_key(alert_key(#[trigger] groups[a])),
        ) < first_where(rows, with_key(alert_key(#[trigger] groups[b]))) by {
            assert(alert_key(groups[a]) == alert_key(old_groups[a]));
            assert(alert_key(groups[b]) == alert_key(old_groups[b]));
            let fa = first_where(old_rows, with_key(alert_key(old_groups[a])));
            assert(0 <= fa);
        }
        assert forall|r: int| #![trigger rows[r]] 0 <= r < rows.len() implies exists|g: int|
            0 <= g < groups.len() && alert_key(#[trigger] groups[g]) == row_key(rows[r]) by {
            if r < old_rows.len() {
                assert(rows[r] == old_rows[r]);
                let g = choose|g: int|
                    0 <= g < old_groups.len() && alert_key(#[trigger] old_groups[g]) == row_key(
                        old_rows[r],
                    );
                assert(alert_key(groups[g]) == alert_key(old_groups[g]));
            } else {
                assert(alert_key(groups[i]) == row_key(rows[r]));
            }
        }
    }

    proof fn lemma_step_new(&self, old_rows: Seq<AlertRow>, old_groups: Seq<AggAlert>, row: AlertRow)
        requires
            self.rows@ == old_rows.push(row),
            groups_of(old_rows, old_groups),
            count_where(old_rows, with_key(row_key(row))) == 0,
            self.groups@.len() == old_groups.len() + 1,
            forall|j: int| 0 <= j < old_groups.len() ==> self.groups@[j] == old_groups[j],
            synthesized_from(self.groups@.last().source, row),
            self.groups@.last().id@ == decimal(row.rowid as nat),
            self.groups@.last().metadata.count == 1,
            self.groups@.last().metadata.escalated_count == (if row.escalated {
                1int
            } else {
                0int
            }),
            self.groups@.last().metadata.min_timestamp == row.timestamp,
            self.groups@.last().metadata.max_timestamp == row.timestamp,
        ensures
            groups_of(self.rows@, self.groups@),
    {
        let rows = self.rows@;
        let groups = self.groups@;
        let n = old_groups.len() as int;
        let kr = row_key(row);
        assert(rows.drop_last() =~= old_rows);
        assert(alert_key(groups[n]) == kr);
        lemma_first_where_found(old_rows, with_key(kr));
        assert(first_where(rows, with_key(kr)) == old_rows.len());
        assert forall|j: int| #![trigger groups[j]] 0 <= j < groups.len() implies {
            let k = alert_key(groups[j]);
            let f = first_where(rows, with_key(k));
            &&& 0 <= f < rows.len()
            &&& synthesized_from(groups[j].source, rows[f])
            &&& groups[j].id@ == decimal(rows[f].rowid as nat)
            &&& metadata_of(groups[j].metadata, rows, with_key(k))
        } by {
            if j < n {
                let k = alert_key(groups[j]);
                assert(groups[j] == old_groups[j]);
                let f = first_where(old_rows, with_key(k));
                assert(0 <= f < old_rows.len());
                lemma_first_where_found(old_rows, with_key(k));
                if k == kr {
                    assert(false);
                }
                assert(first_where(rows, with_key(k)) == f);
                assert(rows[f] == old_rows[f]);
                assert(!with_key(k)(row));
                assert(count_where(rows, with_key(k)) == count_where(old_rows, with_key(k)));
                assert(escalated_where(rows, with_key(k)) == escalated_where(old_rows, with_key(k)));
                assert(min_ts_where(rows, with_key(k)) == min_ts_where(old_rows, with_key(k)));
                assert(max_ts_where(rows, with_key(k)) == max_ts_where(old_rows, with_key(k)));
            } else {
                assert(rows[old_rows.len() as int] == row);
                assert(with_key(kr)(row));
                lemma_count_bound(old_rows, with_key(kr));
                assert(count_where(rows, with_key(kr)) == 1);
                assert(escalated_where(rows, with_key(kr)) == if row.escalated { 1nat } else { 0nat });
                assert(min_ts_where(rows, with_key(kr)) == row.timestamp);
                assert(max_ts_where(rows, with_key(kr)) == row.timestamp);
            }
        }
        assert forall|a: int, b: int|
            0 <= a < b < groups.len() implies first_where(
            rows,
            with_key(alert_key(#[trigger] groups[a])),
        ) < first_where(rows, with_key(alert_key(#[trigger] groups[b]))) by {
            assert(groups[a] == old_groups[a]);
            let ka = alert_key(groups[a]);
            lemma_first_where_found(old_rows, with_key(ka));
            if ka == kr {
                assert(false);
            }
            if b < n {
                assert(groups[b] == old_groups[b]);
                let kb = alert_key(groups[b]);
                lemma_first_where_found(old_rows, with_key(kb));
                if kb == kr {
                    assert(false);
                }
            }
        }
        assert forall|r: int| #![trigger rows[r]] 0 <= r < rows.len() implies exists|g: int|
            0 <= g < groups.len() && alert_key(#[trigger] groups[g]) == row_key(rows[r]) by {
            if r < old_rows.len() {
                assert(rows[r] == old_rows[r]);
                let g = choose|g: int|
                    0 <= g < old_groups.len() && alert_key(#[trigger] old_groups[g]) == row_key(
                        old_rows[r],
                    );
                assert(groups[g] == old_groups[g]);
            } else {
                assert(alert_key(groups[n]) == row_key(rows[r]));
            }
        }
    }

    /// The groups formed, in order of first appearance.
    pub fn finish(self) -> (r: AlertsResult)
        requires
            self.wf(),
        ensures
            groups_of(self.spec_rows(), r.events@),
            r.timed_out == self.spec_timed_out(),
            r.took == 0,
    {
        AlertsResult { events: self.groups, timed_out: self.timed_out, took: 0 }
    }
}

/// Rows of the group with signature id `sid`, source IP `src` and
/// destination IP `dst`: the grouping of the exact strategy's statement.
pub open spec fn with_triple(sid: u64, src: Seq<char>, dst: Seq<char>) -> spec_fn(AlertRow) -> bool {
    |r: AlertRow| r.signature_id == sid && r.src_ip@ == src && r.dest_ip@ == dst
}

/// On every row, "has the dedup key of (sid, src, dst)" and "has the triple
/// (sid, src, dst)" agree, so both select the same rows.
proof fn lemma_key_selects_triple(rows: Seq<AlertRow>, sid: u64, src: Seq<char>, dst: Seq<char>)
    ensures
        forall|x: int|
            0 <= x < rows.len() ==> with_key(spec_dedup_key(sid, src, dst))(#[trigger] rows[x])
                == with_triple(sid, src, dst)(rows[x]),
{
    assert forall|x: int| 0 <= x < rows.len() implies with_key(spec_dedup_key(sid, src, dst))(
        #[trigger] rows[x],
    ) == with_triple(sid, src, dst)(rows[x]) by {
        lemma_dedup_key_injective(
            rows[x].signature_id,
            rows[x].src_ip@,
            rows[x].dest_ip@,
            sid,
            src,
            dst,
        );
    }
}

proof fn lemma_stats_agree(
    rows: Seq<AlertRow>,
    p: spec_fn(AlertRow) -> bool,
    q: spec_fn(AlertRow) -> bool,
)
    requires
        forall|i: int| 0 <= i < rows.len() ==> p(#[trigger] rows[i]) == q(rows[i]),
    ensures
        count_where(rows, p) == count_where(rows, q),
        escalated_where(rows, p) == escalated_where(rows, q),
        min_ts_where(rows, p) == min_ts_where(rows, q),
        max_ts_where(rows, p) == max_ts_where(rows, q),
    decreases rows.len(),
{
    if rows.len() > 0 {
        let prev = rows.drop_last();
        assert forall|i: int| 0 <= i < prev.len() implies p(#[trigger] prev[i]) == q(prev[i]) by {
            assert(prev[i] == rows[i]);
        }
        lemma_stats_agree(prev, p, q);
        assert(p(rows.last()) == q(rows[rows.len() - 1]));
    }
}

/// Run over every row, the streaming strategy yields the groups of the
/// exact strategy: one per (signature id, source IP, destination IP) seen,
/// with that group's count, escalated count and timestamp range.
pub proof fn lemma_streaming_matches_grouping(rows: Seq<AlertRow>, events: Seq<AggAlert>)
    requires
        groups_of(rows, events),
    ensures
        forall|i: int|
            #![trigger events[i]]
            0 <= i < events.len() ==> metadata_of(
                events[i].metadata,
                rows,
                with_triple(
                    events[i].source.signature_id,
                    events[i].source.src_ip@,
                    events[i].source.dest_ip@,
                ),
            ),
        forall|r: int|
            #![trigger rows[r]]
            0 <= r < rows.len() ==> exists|i: int|
                0 <= i < events.len() && #[trigger] events[i].source.signature_id
                    == rows[r].signature_id && events[i].source.src_ip@ == rows[r].src_ip@
                    && events[i].source.dest_ip@ == rows[r].dest_ip@,
        forall|i: int, j: int|
            0 <= i < j < events.len() ==> !(#[trigger] events[i].source.signature_id
                == #[trigger] events[j].source.signature_id && events[i].source.src_ip@
                == events[j].source.src_ip@ && events[i].source.dest_ip@
                == events[j].source.dest_ip@),
{
    assert forall|i: int| #![trigger events[i]] 0 <= i < events.len() implies metadata_of(
        events[i].metadata,
        rows,
        with_triple(
            events[i].source.signature_id,
            events[i].source.src_ip@,
            events[i].source.dest_ip@,
        ),
    ) by {
        let g = events[i];
        let k = alert_key(g);
        let p = with_key(k);
        let q = with_triple(g.source.signature_id, g.source.src_ip@, g.source.dest_ip@);
        lemma_key_selects_triple(rows, g.source.signature_id, g.source.src_ip@, g.source.dest_ip@);
        lemma_stats_agree(rows, p, q);
    }
    assert forall|r: int| #![trigger rows[r]] 0 <= r < rows.len() implies exists|i: int|
        0 <= i < events.len() && #[trigger] events[i].source.signature_id == rows[r].signature_id
            && events[i].source.src_ip@ == rows[r].src_ip@ && events[i].source.dest_ip@
            == rows[r].dest_ip@ by {
        let i = choose|i: int|
            0 <= i < events.len() && alert_key(#[trigger] events[i]) == row_key(rows[r]);
        lemma_dedup_key_injective(
            events[i].source.signature_id,
            events[i].source.src_ip@,
            events[i].source.dest_ip@,
            rows[r].signature_id,
            rows[r].src_ip@,
            rows[r].dest_ip@,
        );
    }
    assert forall|i: int, j: int| 0 <= i < j < events.len() implies !(
    #[trigger] events[i].source.signature_id == #[trigger] events[j].source.signature_id
        && events[i].source.src_ip@ == events[j].source.src_ip@ && events[i].source.dest_ip@
        == events[j].source.dest_ip@) by {
        if events[i].source.signature_id == events[j].source.signature_id
            && events[i].source.src_ip@ == events[j].source.src_ip@ && events[i].source.dest_ip@
            == events[j].source.dest_ip@ {
            assert(alert_key(events[i]) == alert_key(events[j]));
        }
    }
}

/// Rows are in order of non-increasing timestamp.
pub open spec fn newest_first(rows: Seq<AlertRow>) -> bool {
    forall|a: int, b: int| 0 <= a < b < rows.len() ==> #[trigger] rows[a].timestamp >= #[trigger] rows[b].timestamp
}

proof fn lemma_first_is_newest(rows: Seq<AlertRow>, p: spec_fn(AlertRow) -> bool)
    requires
        newest_first(rows),
        count_where(rows, p) > 0,
    ensures
        0 <= first_where(rows, p) < rows.len(),
        rows[first_where(rows, p)].timestamp == max_ts_where(rows, p),
    decreases rows.len(),
{
    lemma_first_where_found(rows, p);
    let prev = rows.drop_last();
    lemma_first_where_found(prev, p);
    if count_where(prev, p) > 0 {
        assert forall|a: int, b: int| 0 <= a < b < prev.len() implies #[trigger] prev[a].timestamp
            >= #[trigger] prev[b].timestamp by {
            assert(prev[a] == rows[a] && prev[b] == rows[b]);
        }
        lemma_first_is_newest(prev, p);
        let f = first_where(prev, p);
        assert(prev[f] == rows[f]);
        assert(rows[f].timestamp >= rows[rows.len() - 1].timestamp);
    }
}

/// With rows newest first, each group's representative is its newest
/// event, as in the exact strategy, which represents a group by the row
/// holding its greatest timestamp.
pub proof fn lemma_representative_is_newest(rows: Seq<AlertRow>, events: Seq<AggAlert>)
    requires
        groups_of(rows, events),
        newest_first(rows),
    ensures
        forall|i: int|
            #![trigger events[i]]
            0 <= i < events.len() ==> events[i].source.timestamp == events[i].metadata.max_timestamp,
{
    assert forall|i: int| #![trigger events[i]] 0 <= i < events.len() implies events[i].source.timestamp
        == events[i].metadata.max_timestamp by {
        let p = with_key(alert_key(events[i]));
        lemma_first_where_found(rows, p);
        lemma_first_is_newest(rows, p);
    }
}

proof fn lemma_prefix_stats(rows: Seq<AlertRow>, n: int, p: spec_fn(AlertRow) -> bool)
    requires
        0 <= n <= rows.len(),
    ensures
        count_where(rows.take(n), p) <= count_where(rows, p),
        escalated_where(rows.take(n), p) <= escalated_where(rows, p),
    decreases rows.len(),
{
    if n < rows.len() {
        assert(rows.drop_last().take(n) =~= rows.take(n));
        lemma_prefix_stats(rows.drop_last(), n, p);
    } else {
        assert(rows.take(n) =~= rows);
    }
}

proof fn lemma_prefix_range(rows: Seq<AlertRow>, n: int, p: spec_fn(AlertRow) -> bool)
    requires
        0 <= n <= rows.len(),
        count_where(rows.take(n), p) > 0,
    ensures
        min_ts_where(rows.take(n), p) >= min_ts_where(rows, p),
        max_ts_where(rows.take(n), p) <= max_ts_where(rows, p),
    decreases rows.len(),
{
    if n < rows.len() {
        let prev = rows.drop_last();
        assert(prev.take(n) =~= rows.take(n));
        lemma_prefix_range(prev, n, p);
        lemma_prefix_stats(prev, n, p);
        assert(rows.drop_last() == prev);
    } else {
        assert(rows.take(n) =~= rows);
    }
}

/// Cut short after the first `n` rows, the streaming strategy never counts
/// more events or escalated events in a group than the whole row set holds
/// for that group's (signature id, source IP, destination IP), and its
/// timestamp range lies within the whole group's.
pub proof fn lemma_truncated_counts_bounded(rows: Seq<AlertRow>, n: int, events: Seq<AggAlert>)
    requires
        0 <= n <= rows.len(),
        groups_of(rows.take(n), events),
    ensures
        forall|i: int|
            #![trigger events[i]]
            0 <= i < events.len() ==> {
                let q = with_triple(
                    events[i].source.signature_id,
                    events[i].source.src_ip@,
                    events[i].source.dest_ip@,
                );
                &&& events[i].metadata.count <= count_where(rows, q)
                &&& events[i].metadata.escalated_count <= escalated_where(rows, q)
                &&& events[i].metadata.min_timestamp >= min_ts_where(rows, q)
                &&& events[i].metadata.max_timestamp <= max_ts_where(rows, q)
            },
{
    assert forall|i: int| #![trigger events[i]] 0 <= i < events.len() implies {
        let q = with_triple(
            events[i].source.signature_id,
            events[i].source.src_ip@,
            events[i].source.dest_ip@,
        );
        &&& events[i].metadata.count <= count_where(rows, q)
        &&& events[i].metadata.escalated_count <= escalated_where(rows, q)
        &&& events[i].metadata.min_timestamp >= min_ts_where(rows, q)
        &&& events[i].metadata.max_timestamp <= max_ts_where(rows, q)
    } by {
        let g = events[i];
        let p = with_key(alert_key(g));
        let q = with_triple(g.source.signature_id, g.source.src_ip@, g.source.dest_ip@);
        let pre = rows.take(n);
        lemma_key_selects_triple(rows, g.source.signature_id, g.source.src_ip@, g.source.dest_ip@);
        lemma_key_selects_triple(pre, g.source.signature_id, g.source.src_ip@, g.source.dest_ip@);
        lemma_stats_agree(rows, p, q);
        lemma_stats_agree(pre, p, q);
        lemma_first_where_found(pre, p);
        lemma_prefix_stats(rows, n, q);
        lemma_prefix_range(rows, n, q);
    }
}

/// Streams `rows`, newest first, with `elapsed[i]` the time since the first
/// row when row `i` has been read, stopping after the first row read past
/// the budget; also returns how many rows it consumed. It stops early only
/// on a timeout, and without a timeout every row is aggregated.
#[verifier::rlimit(40)]
pub fn aggregate_stream(rows: Vec<AlertRow>, elapsed: &Vec<u64>, budget_nanos: u64) -> (r: (
    AlertsResult,
    usize,
))
    requires
        rows@.len() == elapsed@.len(),
        rows@.len() < u64::MAX,
    ensures
        r.1 <= rows@.len(),
        groups_of(rows@.take(r.1 as int), r.0.events@),
        forall|j: int| 0 <= j < r.1 - 1 ==> #[trigger] elapsed@[j] <= budget_nanos,
        r.0.timed_out <==> r.1 >= 1 && elapsed@[r.1 - 1] > budget_nanos,
        r.1 < rows@.len() ==> r.0.timed_out,
        !r.0.timed_out ==> r.1 == rows@.len() && groups_of(rows@, r.0.events@),
        r.0.took == 0,
{
    let ghost all = rows@;
    let mut rest = rows;
    let mut agg = StreamingAggregator::new(budget_nanos);
    assert(agg.spec_rows() =~= all.take(0));
    let mut i: usize = 0;
    while i < elapsed.len()
        invariant
            all == rows@,
            all.len() == elapsed@.len(),
            all.len() < u64::MAX,
            i <= elapsed@.len(),
            rest@ == all.skip(i as int),
            agg.wf(),
            !agg.spec_timed_out(),
            agg.spec_budget() == budget_nanos,
            agg.spec_rows() == all.take(i as int),
            forall|j: int| 0 <= j < i ==> #[trigger] elapsed@[j] <= budget_nanos,
        decreases elapsed@.len() - i,
    {
        let row = rest.remove(0);
        assert(row == all[i as int]);
        let go_on = agg.push_row(row, elapsed[i]);
        assert(all.take(i as int + 1) =~= all.take(i as int).push(all[i as int]));
        assert(rest@ =~= all.skip(i as int + 1));
        if !go_on {
            let done = agg.finish();
            let n = i + 1;
            assert(n <= all.len());
            assert(groups_of(all.take(n as int), done.events@));
            return (done, n);
        }
        i = i + 1;
    }
    assert(all.take(all.len() as int) =~= all);
    (agg.finish(), i)
}

/// One row of the exact strategy's grouped statement: the group's
/// statistics and its representative event, the row holding the group's
/// greatest timestamp.
pub struct GroupRow {
    pub count: u64,
    pub min_timestamp: u64,
    pub escalated_count: u64,
    pub event: AlertRow,
}

pub open spec fn mapped_group(g: GroupRow, a: AggAlert) -> bool {
    &&& a.id@ == decimal(g.event.rowid as nat)
    &&& synthesized_from(a.source, g.event)
    &&& a.metadata == AggAlertMetadata {
        count: g.count,
        escalated_count: g.escalated_count,
        min_timestamp: g.min_timestamp,
        max_timestamp: g.event.timestamp,
    }
}

/// The alert group of one row of the grouped statement.
pub fn alert_row_mapper(row: GroupRow) -> (r: AggAlert)
    ensures
        mapped_group(row, r),
{
    let id = u64_to_string(row.event.rowid);
    let max_timestamp = row.event.timestamp;
    let source = synthesize_source(row.event);
    AggAlert {
        id,
        source,
        metadata: AggAlertMetadata {
            count: row.count,
            escalated_count: row.escalated_count,
            min_timestamp: row.min_timestamp,
            max_timestamp,
        },
    }
}

/// The exact strategy's result: one group per row of the grouped
/// statement, in the statement's order. It never times out.
pub fn alerts_from_groups(rows: Vec<GroupRow>) -> (r: AlertsResult)
    ensures
        r.events@.len() == rows@.len(),
        forall|i: int| 0 <= i < rows@.len() ==> mapped_group(rows@[i], #[trigger] r.events@[i]),
        !r.timed_out,
        r.took == 0,
{
    let ghost orig = rows@;
    let mut rest = rows;
    let mut events: Vec<AggAlert> = Vec::new();
    while rest.len() > 0
        invariant
            events@.len() + rest@.len() == orig.len(),
            rest@ == orig.skip(events@.len() as int),
            forall|i: int| 0 <= i < events@.len() ==> mapped_group(orig[i], #[trigger] events@[i]),
        decreases rest@.len(),
    {
        let ghost n = events@.len() as int;
        let row = rest.remove(0);
        assert(row == orig[n]);
        events.push(alert_row_mapper(row));
        assert(rest@ =~= orig.skip(n + 1));
    }
    AlertsResult { events, timed_out: false, took: 0 }
}

} // verus!
