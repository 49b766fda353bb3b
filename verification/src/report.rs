//! What the reports decide: the order and colour of the status codes and
//! when the scheduler's delay is worth a warning; and the kinds of verdict
//! a comparison with a baseline gives (the comparison itself is
//! floating-point, in the application).

use vstd::prelude::*;
use std::collections::HashMap;
use crate::time::Duration;

verus! {

broadcast use vstd::std_specs::hash::group_hash_axioms;

/// The class of a status code, by which the report colours it.
#[derive(Debug, Clone, Copy, PartialEq, Eq, Structural)]
pub enum StatusClass {
    /// 2xx: green.
    Success,
    /// 3xx: yellow.
    Redirect,
    /// 4xx: red.
    ClientError,
    /// Anything else: uncoloured.
    Other,
}

/// The class of `status`.
pub fn status_class(status: u16) -> (c: StatusClass)
    ensures
        c == if 200 <= status < 300 {
            StatusClass::Success
        } else if 300 <= status < 400 {
            StatusClass::Redirect
        } else if 400 <= status < 500 {
            StatusClass::ClientError
        } else {
            StatusClass::Other
        },
{
    if status >= 200 && status < 300 {
        StatusClass::Success
    } else if status >= 300 && status < 400 {
        StatusClass::Redirect
    } else if status >= 400 && status < 500 {
        StatusClass::ClientError
    } else {
        StatusClass::Other
    }
}

/// Whether the scheduler's 99th percentile delay deserves a warning that
/// the workers may be saturated: more than 5 whole milliseconds.
pub fn scheduler_saturated(delay_p99: Duration) -> (b: bool)
    ensures
        b == (delay_p99.nanos() / 1_000_000 > 5),
{
    delay_p99.as_millis() > 5
}

/// Whether the codes of `v` strictly increase.
pub open spec fn ascending(v: Seq<(u16, u64)>) -> bool {
    forall|a: int, b: int| 0 <= a < b < v.len() ==> #[trigger] v[a].0 < #[trigger] v[b].0
}

/// Puts `(k, c)` into the ascending list `v`, at its place by code.
fn insert_status(v: &mut Vec<(u16, u64)>, k: u16, c: u64)
    requires
        ascending(old(v)@),
        forall|a: int| 0 <= a < old(v)@.len() ==> (#[trigger] old(v)@[a]).0 != k,
    ensures
        ascending(final(v)@),
        final(v)@.len() == old(v)@.len() + 1,
        forall|x: (u16, u64)| #[trigger] final(v)@.contains(x) <==> (old(v)@.contains(x) || x == (k, c)),
{
    let mut pos: usize = 0;
    while pos < v.len() && v[pos].0 < k
        invariant
            pos <= v@.len(),
            forall|a: int| 0 <= a < pos ==> (#[trigger] v@[a]).0 < k,
        decreases v@.len() - pos,
    {
        pos = pos + 1;
    }
    let ghost before = v@;
    v.insert(pos, (k, c));
    proof {
        assert forall|a: int, b: int| 0 <= a < b < v@.len() implies #[trigger] v@[a].0
            < #[trigger] v@[b].0 by {
            if b < pos {
                assert(before[a].0 < before[b].0);
            } else if a > pos {
                assert(before[a - 1].0 < before[b - 1].0);
            } else if a == pos {
                assert(before[pos as int].0 != k);
                if b - 1 > pos {
                    assert(before[pos as int].0 < before[b - 1].0);
                }
            } else if b > pos {
                assert(before[pos as int].0 != k);
                if b - 1 > a {
                    assert(before[a].0 < before[b - 1].0);
                }
            }
        }
        assert forall|x: (u16, u64)| #[trigger] v@.contains(x) <==> (before.contains(x) || x == (
            k,
            c,
        )) by {
            if v@.contains(x) {
                let b = choose|b: int| 0 <= b < v@.len() && v@[b] == x;
                if b < pos {
                    assert(before[b] == x);
                } else if b > pos {
                    assert(before[b - 1] == x);
                }
            }
            if before.contains(x) {
                let a = choose|a: int| 0 <= a < before.len() && before[a] == x;
                if a < pos {
                    assert(v@[a] == x);
                } else {
                    assert(v@[a + 1] == x);
                }
            }
            if x == (k, c) {
                assert(v@[pos as int] == x);
            }
        }
    }
}

/// The status counts of `m` as the report lists them: every status once,
/// with its count, from the lowest code up.
pub fn sorted_status_counts(m: &HashMap<u16, u64>) -> (v: Vec<(u16, u64)>)
    ensures
        ascending(v@),
        v@.len() == m@.dom().len(),
        forall|a: int|
            0 <= a < v@.len() ==> #[trigger] m@.contains_key(v@[a].0) && m@[v@[a].0] == v@[a].1,
        forall|k: u16| #[trigger] m@.contains_key(k) ==> v@.contains((k, m@[k])),
{
    let ghost fm = m@;
    let ghost entries = vstd::std_specs::iter::IteratorSpec::remaining(
        &vstd::std_specs::hash::spec_hash_map_iter(m),
    );
    let mut v: Vec<(u16, u64)> = Vec::new();
    for e in it: m.iter()
        invariant
            fm == m@,
            it.seq() == entries,
            it.seq().len() == fm.dom().len(),
            it.seq().no_duplicates(),
            forall|i: int|
                0 <= i < it.seq().len() ==> fm.contains_key(*it.seq()[i].0) && fm[*it.seq()[i].0]
                    == *it.seq()[i].1,
            forall|k: u16| #[trigger] fm.contains_key(k) ==> it.seq().contains((&k, &fm[k])),
            v@.len() == it.index(),
            ascending(v@),
            forall|j: int|
                0 <= j < it.index() ==> v@.contains(
                    (*(#[trigger] it.seq()[j]).0, *it.seq()[j].1),
                ),
            forall|x: (u16, u64)|
                #[trigger] v@.contains(x) ==> exists|j: int|
                    0 <= j < it.index() && x == (*(#[trigger] it.seq()[j]).0, *it.seq()[j].1),
    {
        let (k, c) = e;
        let ghost idx = it.index();
        proof {
            assert(*it.seq()[idx].0 == *k && *it.seq()[idx].1 == *c);
            assert forall|a: int| 0 <= a < v@.len() implies (#[trigger] v@[a]).0 != *k by {
                assert(v@.contains(v@[a]));
                let j = choose|j: int|
                    0 <= j < idx && v@[a] == (*(#[trigger] it.seq()[j]).0, *it.seq()[j].1);
                if v@[a].0 == *k {
                    assert(it.seq()[j] == it.seq()[idx]);
                }
            }
        }
        insert_status(&mut v, *k, *c);
        proof {
            assert forall|x: (u16, u64)| #[trigger] v@.contains(x) implies exists|j: int|
                0 <= j < idx + 1 && x == (*(#[trigger] it.seq()[j]).0, *it.seq()[j].1) by {
                if x == (*k, *c) {
                    assert(x == (*it.seq()[idx].0, *it.seq()[idx].1));
                }
            }
        }
    }
    proof {
        assert forall|a: int| 0 <= a < v@.len() implies #[trigger] fm.contains_key(v@[a].0)
            && fm[v@[a].0] == v@[a].1 by {
            assert(v@.contains(v@[a]));
            let j = choose|j: int|
                0 <= j < entries.len() && v@[a] == (*(#[trigger] entries[j]).0, *entries[j].1);
        }
        assert forall|k: u16| #[trigger] fm.contains_key(k) implies v@.contains((k, fm[k])) by {
            assert(entries.contains((&k, &fm[k])));
            let j = choose|j: int| 0 <= j < entries.len() && entries[j] == (&k, &fm[k]);
            assert(v@.contains((*entries[j].0, *entries[j].1)));
        }
    }
    v
}

/// The verdict on one metric compared with the baseline.
#[derive(Debug, Clone, Copy, PartialEq, Eq, Structural)]
pub enum VerdictStatus {
    /// Within the bounds of noise and the allowed regression.
    Stable,
    /// Worse by more than the allowed regression.
    Regressed,
    /// Better by more than five percent.
    Improved,
}

} // verus!
