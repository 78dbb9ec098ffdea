use vstd::prelude::*;

verus! {

/// Cumulative byte counters of one network interface, or a sum of several.
#[derive(Clone, Copy, Debug, PartialEq, Eq, Structural)]
pub struct Counters {
    pub received: u64,
    pub transmitted: u64,
}

/// Sum of the received counters over a list of interfaces.
pub open spec fn received_sum(s: Seq<Counters>) -> int
    decreases s.len(),
{
    if s.len() == 0 {
        0
    } else {
        received_sum(s.drop_last()) + s.last().received
    }
}

/// Sum of the transmitted counters over a list of interfaces.
pub open spec fn transmitted_sum(s: Seq<Counters>) -> int
    decreases s.len(),
{
    if s.len() == 0 {
        0
    } else {
        transmitted_sum(s.drop_last()) + s.last().transmitted
    }
}

/// Both sums grow with the prefix that is summed.
proof fn lemma_sums_grow(s: Seq<Counters>, i: int)
    requires
        0 <= i <= s.len(),
    ensures
        received_sum(s.take(i)) <= received_sum(s),
        transmitted_sum(s.take(i)) <= transmitted_sum(s),
    decreases s.len() - i,
{
    if i < s.len() {
        lemma_sums_grow(s, i + 1);
        assert(s.take(i + 1).drop_last() =~= s.take(i));
    } else {
        assert(s.take(i) =~= s);
    }
}

/// Adds up the counters of all interfaces into one pair of totals.
///
/// Returns `None` exactly when one of the two totals does not fit in `u64`.
pub fn aggregate(interfaces: &Vec<Counters>) -> (r: Option<Counters>)
    ensures
        r is Some <==> (received_sum(interfaces@) <= u64::MAX && transmitted_sum(interfaces@)
            <= u64::MAX),
        r matches Some(t) ==> t.received == received_sum(interfaces@) && t.transmitted
            == transmitted_sum(interfaces@),
{
    let mut received: u64 = 0;
    let mut transmitted: u64 = 0;
    let mut i: usize = 0;
    while i < interfaces.len()
        invariant
            i <= interfaces@.len(),
            received == received_sum(interfaces@.take(i as int)),
            transmitted == transmitted_sum(interfaces@.take(i as int)),
        decreases interfaces@.len() - i,
    {
        let c = interfaces[i];
        proof {
            assert(interfaces@.take(i + 1).drop_last() =~= interfaces@.take(i as int));
            lemma_sums_grow(interfaces@, i + 1);
        }
        match received.checked_add(c.received) {
            Some(v) => {
                received = v;
            },
            None => {
                return None;
            },
        }
        match transmitted.checked_add(c.transmitted) {
            Some(v) => {
                transmitted = v;
            },
            None => {
                return None;
            },
        }
        i = i + 1;
    }
    proof {
        assert(interfaces@.take(i as int) =~= interfaces@);
    }
    Some(Counters { received, transmitted })
}

} // verus!
