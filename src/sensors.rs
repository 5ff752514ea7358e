//! The set of sensor host names seen in query results.
use crate::alerts::{string_views, AggAlert};
use vstd::prelude::*;

verus! {

/// No name occurs twice.
pub open spec fn distinct_names(s: Seq<Seq<char>>) -> bool {
    forall|i: int, j: int| 0 <= i < j < s.len() ==> s[i] != s[j]
}

/// Host names observed in query results. It only grows; callers share it
/// behind a reader-writer lock.
pub struct SensorCache {
    names: Vec<String>,
}

/// Whether `names` holds `name`.
pub fn holds_name(names: &Vec<String>, name: &String) -> (r: bool)
    ensures
        r == string_views(names@).contains(name@),
{
    let mut i: usize = 0;
    while i < names.len()
        invariant
            i <= names.len(),
            forall|j: int| 0 <= j < i ==> names@[j]@ != name@,
        decreases names.len() - i,
    {
        if names[i] == *name {
            assert(string_views(names@)[i as int] == name@);
            return true;
        }
        i = i + 1;
    }
    proof {
        if string_views(names@).contains(name@) {
            let j = choose|j: int| 0 <= j < names@.len() && string_views(names@)[j] == name@;
            assert(names@[j]@ == name@);
        }
    }
    false
}

impl SensorCache {
    /// The names held, in order of first observation.
    pub closed spec fn spec_names(&self) -> Seq<Seq<char>> {
        string_views(self.names@)
    }

    pub open spec fn view(&self) -> Set<Seq<char>> {
        self.spec_names().to_set()
    }

    pub open spec fn wf(&self) -> bool {
        distinct_names(self.spec_names())
    }

    pub fn new() -> (r: Self)
        ensures
            r.wf(),
            r.spec_names().len() == 0,
    {
        let r = SensorCache { names: Vec::new() };
        assert(r.spec_names() =~= Seq::empty());
        r
    }

    /// Number of names held.
    pub fn len(&self) -> (r: usize)
        ensures
            r == self.spec_names().len(),
    {
        self.names.len()
    }

    /// Whether an update with `candidates` would enter the write path: only
    /// when their number differs from the number of names held.
    pub fn needs_update(&self, candidates: &Vec<String>) -> (r: bool)
        ensures
            r == (candidates@.len() != self.spec_names().len()),
    {
        candidates.len() != self.names.len()
    }

    /// Adds the distinct `candidates` that are not yet held, in order, when
    /// their number differs from the number of names held; otherwise leaves
    /// the cache as it is.
    pub fn observe(&mut self, candidates: &Vec<String>)
        requires
            old(self).wf(),
        ensures
            final(self).wf(),
            candidates@.len() == old(self).spec_names().len() ==> final(self).spec_names() == old(
                self).spec_names(),
            candidates@.len() != old(self).spec_names().len() ==> final(self)@ == old(self)@.union(
                string_views(candidates@).to_set(),
            ),
            old(self)@.subset_of(final(self)@),
    {
        if !self.needs_update(candidates) {
            return;
        }
        let mut i: usize = 0;
        while i < candidates.len()
            invariant
                i <= candidates.len(),
                self.wf(),
                forall|x: Seq<char>|
                    #![trigger self.spec_names().contains(x)]
                    self.spec_names().contains(x) <==> (old(self).spec_names().contains(x)
                        || string_views(candidates@.take(i as int)).contains(x)),
            decreases candidates.len() - i,
        {
            let c = &candidates[i];
            let ghost before = self.spec_names();
            let held = holds_name(&self.names, c);
            if !held {
                self.names.push(c.clone());
                proof {
                    assert(self.spec_names() =~= before.push(c@));
                    assert forall|a: int, b: int|
                        0 <= a < b < self.spec_names().len() implies self.spec_names()[a]
                        != self.spec_names()[b] by {
                        if b == before.len() {
                            assert(before[a] == self.spec_names()[a]);
                        }
                    }
                }
            }
            proof {
                let t = string_views(candidates@.take(i as int + 1));
                let u = string_views(candidates@.take(i as int));
                assert(t =~= u.push(c@));
                assert forall|x: Seq<char>|
                    #![trigger self.spec_names().contains(x)]
                    self.spec_names().contains(x) <==> (old(self).spec_names().contains(x)
                        || t.contains(x)) by {
                    if x == c@ {
                        assert(t[i as int] == x);
                        if held {
                            assert(self.spec_names() == before);
                        } else {
                            assert(self.spec_names()[before.len() as int] == x);
                        }
                    }
                    if self.spec_names().contains(x) && x != c@ {
                        let k = choose|k: int|
                            0 <= k < self.spec_names().len() && self.spec_names()[k] == x;
                        if !held {
                            assert(k < before.len());
                        }
                        assert(before[k] == x);
                        assert(before.contains(x));
                    }
                    if before.contains(x) {
                        let k = choose|k: int| 0 <= k < before.len() && before[k] == x;
                        assert(self.spec_names()[k] == x);
                    }
                    if u.contains(x) {
                        let k = choose|k: int| 0 <= k < u.len() && u[k] == x;
                        assert(t[k] == x);
                    }
                    if t.contains(x) && x != c@ {
                        let k = choose|k: int| 0 <= k < t.len() && t[k] == x;
                        assert(u[k] == x);
                    }
                }
            }
            i = i + 1;
        }
        proof {
            assert(candidates@.take(candidates@.len() as int) =~= candidates@);
            assert(self@ =~= old(self)@.union(string_views(candidates@).to_set()));
        }
    }

    /// A copy of the names held.
    pub fn snapshot(&self) -> (r: Vec<String>)
        ensures
            string_views(r@) == self.spec_names(),
    {
        copy_names(&self.names)
    }
}

/// A copy of `names`.
pub fn copy_names(names: &Vec<String>) -> (r: Vec<String>)
    ensures
        string_views(r@) == string_views(names@),
{
    let mut r: Vec<String> = Vec::new();
    let mut i: usize = 0;
    while i < names.len()
        invariant
            i <= names.len(),
            string_views(r@) == string_views(names@.take(i as int)),
        decreases names.len() - i,
    {
        r.push(names[i].clone());
        assert(string_views(names@.take(i as int + 1)) =~= string_views(names@.take(i as int)).push(
            names@[i as int]@,
        ));
        i = i + 1;
    }
    assert(names@.take(names@.len() as int) =~= names@);
    r
}

/// `names` with `host` added when it is given and not yet held.
pub fn add_host(names: &mut Vec<String>, host: &Option<String>)
    requires
        distinct_names(string_views(old(names)@)),
    ensures
        distinct_names(string_views(final(names)@)),
        forall|x: Seq<char>|
            #![trigger string_views(final(names)@).contains(x)]
            string_views(final(names)@).contains(x) <==> (string_views(old(names)@).contains(x)
                || (host matches Some(h) && h@ == x)),
{
    let ghost before = string_views(names@);
    match host {
        Some(h) => {
            let held = holds_name(names, h);
            if !held {
                names.push(h.clone());
                proof {
                    assert(string_views(names@) =~= before.push(h@));
                    assert forall|a: int, b: int|
                        0 <= a < b < string_views(names@).len() implies string_views(names@)[a]
                        != string_views(names@)[b] by {
                        if b == before.len() {
                            assert(before[a] == string_views(names@)[a]);
                        }
                    }
                }
            }
            proof {
                assert forall|x: Seq<char>|
                    #![trigger string_views(names@).contains(x)]
                    string_views(names@).contains(x) <==> (before.contains(x) || h@ == x) by {
                    let now = string_views(names@);
                    if x == h@ && !held {
                        assert(now[before.len() as int] == x);
                    }
                    if now.contains(x) && x != h@ {
                        let k = choose|k: int| 0 <= k < now.len() && now[k] == x;
                        if !held {
                            assert(k < before.len());
                        }
                        assert(before[k] == x);
                    }
                    if before.contains(x) {
                        let k = choose|k: int| 0 <= k < before.len() && before[k] == x;
                        assert(now[k] == x);
                    }
                }
            }
        },
        None => {},
    }
}

/// The group's document names host `x`.
pub open spec fn host_is(a: AggAlert, x: Seq<char>) -> bool {
    match a.source.host {
        Some(h) => h@ == x,
        None => false,
    }
}

/// The distinct host names of the groups' documents, in order.
pub fn group_hosts(events: &Vec<AggAlert>) -> (r: Vec<String>)
    ensures
        distinct_names(string_views(r@)),
        forall|x: Seq<char>|
            string_views(r@).contains(x) <==> exists|i: int|
                0 <= i < events@.len() && host_is(#[trigger] events@[i], x),
{
    let mut r: Vec<String> = Vec::new();
    let mut i: usize = 0;
    while i < events.len()
        invariant
            i <= events.len(),
            distinct_names(string_views(r@)),
            forall|x: Seq<char>|
                string_views(r@).contains(x) <==> exists|j: int|
                    0 <= j < i && host_is(#[trigger] events@[j], x),
        decreases events.len() - i,
    {
        let ghost before = string_views(r@);
        match &events[i].source.host {
            Some(h) => {
                if !holds_name(&r, h) {
                    r.push(h.clone());
                    proof {
                        assert(string_views(r@) =~= before.push(h@));
                        assert forall|a: int, b: int|
                            0 <= a < b < string_views(r@).len() implies string_views(r@)[a]
                            != string_views(r@)[b] by {
                            if b == before.len() {
                                assert(before[a] == string_views(r@)[a]);
                            }
                        }
                    }
                }
                proof {
                    assert forall|x: Seq<char>| string_views(r@).contains(x) <==> exists|j: int|
                        0 <= j < i + 1 && host_is(#[trigger] events@[j], x) by {
                        if x == h@ {
                            assert(host_is(events@[i as int], x));
                            if !before.contains(x) {
                                assert(string_views(r@)[before.len() as int] == x);
                            }
                        }
                        if string_views(r@).contains(x) && x != h@ {
                            let k = choose|k: int| 0 <= k < string_views(r@).len() && string_views(r@)[k] == x;
                            if k < before.len() {
                                assert(before[k] == x);
                            }
                        }
                        if before.contains(x) {
                            let k = choose|k: int| 0 <= k < before.len() && before[k] == x;
                            assert(string_views(r@)[k] == x);
                        }
                    }
                }
            },
            None => {
                proof {
                    assert forall|x: Seq<char>| string_views(r@).contains(x) <==> exists|j: int|
                        0 <= j < i + 1 && host_is(#[trigger] events@[j], x) by {
                        if exists|j: int|
                            0 <= j < i + 1 && host_is(#[trigger] events@[j], x) {
                            let j = choose|j: int|
                                0 <= j < i + 1 && host_is(#[trigger] events@[j], x);
                            assert(j < i);
                        }
                    }
                }
            },
        }
        i = i + 1;
    }
    r
}

} // verus!
