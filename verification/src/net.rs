//! Two-point sampling arithmetic for cumulative network counters:
//! totals across interfaces, and the rate derived from two readings,
//! clamped at zero when a counter resets.

use vstd::prelude::*;

verus! {

/// Clamps a mathematical sum into the `u64` range.
pub open spec fn clamp_u64(n: nat) -> nat {
    if n <= u64::MAX {
        n
    } else {
        u64::MAX as nat
    }
}

/// The exact sum of the received-byte counters of a list of
/// per-interface (received, transmitted) pairs.
pub open spec fn sum_rx(pairs: Seq<(u64, u64)>) -> nat
    decreases pairs.len(),
{
    if pairs.len() == 0 {
        0
    } else {
        sum_rx(pairs.drop_last()) + pairs.last().0 as nat
    }
}

/// The exact sum of the transmitted-byte counters.
pub open spec fn sum_tx(pairs: Seq<(u64, u64)>) -> nat
    decreases pairs.len(),
{
    if pairs.len() == 0 {
        0
    } else {
        sum_tx(pairs.drop_last()) + pairs.last().1 as nat
    }
}

/// Addition clamped at the top of the `u64` range.
pub fn sat_add(a: u64, b: u64) -> (r: u64)
    ensures
        r as nat == clamp_u64(a as nat + b as nat),
{
    if b <= u64::MAX - a {
        a + b
    } else {
        u64::MAX
    }
}

/// Totals the cumulative received and transmitted byte counters across
/// all interfaces, clamping each sum at the top of the `u64` range.
pub fn net_totals(pairs: &Vec<(u64, u64)>) -> (r: (u64, u64))
    ensures
        r.0 as nat == clamp_u64(sum_rx(pairs@)),
        r.1 as nat == clamp_u64(sum_tx(pairs@)),
{
    let mut rx: u64 = 0;
    let mut tx: u64 = 0;
    let mut i: usize = 0;
    while i < pairs.len()
        invariant
            i <= pairs.len(),
            rx as nat == clamp_u64(sum_rx(pairs@.take(i as int))),
            tx as nat == clamp_u64(sum_tx(pairs@.take(i as int))),
        decreases pairs.len() - i,
    {
        proof {
            assert(pairs@.take(i + 1).drop_last() =~= pairs@.take(i as int));
            assert(pairs@.take(i + 1).last() == pairs@[i as int]);
        }
        rx = sat_add(rx, pairs[i].0);
        tx = sat_add(tx, pairs[i].1);
        i = i + 1;
    }
    proof {
        assert(pairs@.take(pairs@.len() as int) =~= pairs@);
    }
    (rx, tx)
}

/// The byte rate derived from two cumulative counter readings one
/// second apart: the exact difference while the counter grows, and zero
/// when it decreased (a reset or wrap), never a negative or wrapped
/// value.
pub open spec fn rate_of(first: nat, second: nat) -> nat {
    if first <= second {
        (second - first) as nat
    } else {
        0
    }
}

/// Subtracts the first counter reading from the second, saturating at
/// zero.
pub fn rate(first: u64, second: u64) -> (r: u64)
    ensures
        r as nat == rate_of(first as nat, second as nat),
{
    if first <= second {
        second - first
    } else {
        0
    }
}

} // verus!
