use vstd::prelude::*;
use crate::counters::Counters;
use crate::rate::{Snapshot, Throughput, throughput_after, idle};

verus! {

/// The baseline against which the `i`-th of the observations `obs` is
/// measured, when the tracker held `start` before the first of them.
pub open spec fn prior(start: Option<Snapshot>, obs: Seq<Snapshot>, i: int) -> Option<Snapshot> {
    if i == 0 {
        start
    } else {
        Some(obs[i - 1])
    }
}

/// What a tracker holding `start` reports when it observes `obs` in order.
pub open spec fn reports(start: Option<Snapshot>, obs: Seq<Snapshot>) -> Seq<Throughput> {
    Seq::new(obs.len(), |i: int| throughput_after(prior(start, obs, i), obs[i]))
}

/// Bytes reported as downloaded over a run of reports.
pub open spec fn downloaded(ts: Seq<Throughput>) -> int
    decreases ts.len(),
{
    if ts.len() == 0 {
        0
    } else {
        downloaded(ts.drop_last()) + ts.last().download.bytes
    }
}

/// Bytes reported as uploaded over a run of reports.
pub open spec fn uploaded(ts: Seq<Throughput>) -> int
    decreases ts.len(),
{
    if ts.len() == 0 {
        0
    } else {
        uploaded(ts.drop_last()) + ts.last().upload.bytes
    }
}

/// No counter goes down from `base` through the observations `obs`.
pub open spec fn never_falls(base: Snapshot, obs: Seq<Snapshot>) -> bool {
    forall|i: int|
        0 <= i < obs.len() ==> {
            let p = if i == 0 {
                base
            } else {
                obs[i - 1]
            };
            p.totals.received <= #[trigger] obs[i].totals.received && p.totals.transmitted
                <= obs[i].totals.transmitted
        }
}

/// Observations made one after another, in the order in which callers took
/// the tracker, never count a byte twice: while the counters do not go down,
/// the bytes reported over all of them add up to at most what the counters
/// grew by from the tracker's baseline to the last observation.
pub proof fn lemma_no_double_counting(base: Snapshot, obs: Seq<Snapshot>)
    requires
        obs.len() > 0,
        never_falls(base, obs),
    ensures
        downloaded(reports(Some(base), obs)) <= obs.last().totals.received - base.totals.received,
        uploaded(reports(Some(base), obs)) <= obs.last().totals.transmitted
            - base.totals.transmitted,
    decreases obs.len(),
{
    let n = obs.len();
    let rs = reports(Some(base), obs);
    let p = if n == 1 {
        base
    } else {
        obs[n - 2]
    };
    assert(p.totals.received <= obs[n - 1].totals.received);
    assert(rs.last() == throughput_after(Some(p), obs[n - 1]));
    assert(rs.last().download.bytes <= obs[n - 1].totals.received - p.totals.received);
    assert(rs.last().upload.bytes <= obs[n - 1].totals.transmitted - p.totals.transmitted);
    if n == 1 {
        assert(downloaded(rs.drop_last()) == 0);
        assert(uploaded(rs.drop_last()) == 0);
    } else {
        let pre = obs.drop_last();
        assert forall|i: int| 0 <= i < pre.len() implies {
            let p = if i == 0 {
                base
            } else {
                pre[i - 1]
            };
            p.totals.received <= #[trigger] pre[i].totals.received && p.totals.transmitted
                <= pre[i].totals.transmitted
        } by {
            assert(pre[i] == obs[i]);
        }
        lemma_no_double_counting(base, pre);
        assert(rs.drop_last() =~= reports(Some(base), pre));
        assert(pre.last() == p);
    }
}

/// The first observation of an empty tracker reports nothing in either
/// direction; the observations after it are measured from it.
pub proof fn lemma_first_observation(obs: Seq<Snapshot>)
    requires
        obs.len() > 0,
    ensures
        reports(None, obs)[0] == idle(),
        reports(None, obs).drop_first() =~= reports(Some(obs[0]), obs.drop_first()),
{
}

/// On an idle network, where the counters stay where the tracker last saw
/// them, every observation reports zero bytes and a rate of zero.
pub proof fn lemma_idle_reports_zero(start: Option<Snapshot>, obs: Seq<Snapshot>, c: Counters)
    requires
        forall|i: int| 0 <= i < obs.len() ==> #[trigger] obs[i].totals == c,
        start matches Some(s) ==> s.totals == c,
    ensures
        forall|i: int|
            0 <= i < obs.len() ==> {
                let t = #[trigger] reports(start, obs)[i];
                &&& t.download.bytes == 0
                &&& t.upload.bytes == 0
                &&& t.download.per_second() == 0
                &&& t.upload.per_second() == 0
            },
{
    assert forall|i: int| 0 <= i < obs.len() implies {
        let t = #[trigger] reports(start, obs)[i];
        &&& t.download.bytes == 0
        &&& t.upload.bytes == 0
        &&& t.download.per_second() == 0
        &&& t.upload.per_second() == 0
    } by {
        if i > 0 {
            assert(obs[i - 1].totals == c);
        }
        let t = reports(start, obs)[i];
        if t.download.nanos != 0 {
            assert(0int / (t.download.nanos as int) == 0);
        }
    }
}

} // verus!
