//! Rendering of byte quantities for display: gibibytes when the value
//! reaches one GiB, mebibytes below that, always with two fraction
//! digits, rounded to nearest with ties to even.

use vstd::prelude::*;
use crate::digits::{centi_of, centi_string};

verus! {

pub const BYTES_PER_MIB: u64 = 1048576;

pub const BYTES_PER_GIB: u64 = 1073741824;

/// The number of hundredths of a unit in `bytes`, rounded to the nearest
/// whole hundredth, ties going to the even value.
pub open spec fn round_centi(bytes: nat, unit: nat) -> nat
    recommends
        unit > 0,
{
    let q = bytes * 100 / unit;
    let r = (bytes * 100) % unit;
    if 2 * r > unit || (2 * r == unit && q % 2 == 1) {
        q + 1
    } else {
        q
    }
}

/// Scales `bytes` to hundredths of `unit`, rounding half to even.
pub fn scale_centi(bytes: u64, unit: u64) -> (r: u64)
    requires
        1024 <= unit,
    ensures
        r as nat == round_centi(bytes as nat, unit as nat),
{
    let prod: u128 = (bytes as u128) * 100;
    let u: u128 = unit as u128;
    let q: u128 = prod / u;
    let rem: u128 = prod % u;
    proof {
        assert(q * u + rem == prod) by {
            vstd::arithmetic::div_mod::lemma_fundamental_div_mod(prod as int, u as int);
        }
        assert(q * 1024 <= q * u) by (nonlinear_arith)
            requires
                1024 <= u,
                0 <= q,
        ;
        assert(q < 0x2000000000000000);
    }
    if 2 * rem > u || (2 * rem == u && q % 2 == 1) {
        (q + 1) as u64
    } else {
        q as u64
    }
}

/// What `format_mem` returns: hundredths of a GiB with a " GiB" suffix
/// when the value is at least one GiB, hundredths of a MiB with a
/// " MiB" suffix below that.
pub open spec fn spec_format_mem(bytes: u64) -> Seq<char> {
    if bytes >= BYTES_PER_GIB {
        centi_of(round_centi(bytes as nat, BYTES_PER_GIB as nat)) + " GiB"@
    } else {
        centi_of(round_centi(bytes as nat, BYTES_PER_MIB as nat)) + " MiB"@
    }
}

/// Formats a byte count for display: in GiB when at least one GiB,
/// otherwise in MiB, with two fraction digits.
pub fn format_mem(bytes: u64) -> (r: String)
    ensures
        r@ == spec_format_mem(bytes),
{
    if bytes >= BYTES_PER_GIB {
        let c = scale_centi(bytes, BYTES_PER_GIB);
        let mut s = centi_string(c);
        s.append(" GiB");
        s
    } else {
        let c = scale_centi(bytes, BYTES_PER_MIB);
        let mut s = centi_string(c);
        s.append(" MiB");
        s
    }
}

/// Formats a byte count for display; the same rendering as `format_mem`.
pub fn fmt(bytes: u64) -> (r: String)
    ensures
        r@ == spec_format_mem(bytes),
{
    format_mem(bytes)
}

} // verus!
