use vstd::prelude::*;

verus! {

/// A percentage held exactly: `100 * part / whole`, with `whole` never zero.
#[derive(Clone, Copy, Debug, PartialEq, Eq, Structural)]
pub struct Percent {
    pub part: u64,
    pub whole: u64,
}

impl Percent {
    /// The divisor is never zero.
    pub open spec fn wf(self) -> bool {
        self.whole >= 1
    }
}

/// A count used as a divisor, raised to one when it is zero.
pub fn nonzero_divisor(n: u64) -> (r: u64)
    ensures
        r >= 1,
        n >= 1 ==> r == n,
        n == 0 ==> r == 1,
{
    if n == 0 {
        1
    } else {
        n
    }
}

/// Memory utilisation: `used` out of `total` bytes, and zero percent when
/// the total is reported as zero.
pub fn memory_percent(used: u64, total: u64) -> (r: Percent)
    ensures
        r.wf(),
        total > 0 ==> r == (Percent { part: used, whole: total }),
        total == 0 ==> r == (Percent { part: 0, whole: 1 }),
{
    let whole = nonzero_divisor(total);
    let part = if total == 0 {
        0
    } else {
        used
    };
    Percent { part, whole }
}

} // verus!
