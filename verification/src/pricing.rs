//! The price of fiat in satoshis, in whole numbers.

use vstd::prelude::*;

verus! {

/// Satoshis in one bitcoin.
pub const SATS_PER_BTC: u64 = 100_000_000;

/// The exact worth of `fiat_amount` in satoshis at a price of `price_cents`
/// hundredths of the fiat unit per bitcoin, with a premium of `premium` per
/// cent on top, rounded down.
pub open spec fn worth(fiat_amount: int, price_cents: int, premium: int) -> int {
    (fiat_amount * 100 * SATS_PER_BTC * (100 + premium)) / (price_cents * 100)
}

/// The satoshis that `fiat_amount` is worth, where that is defined and fits:
/// the amount must not be negative, the price not zero, the premium not
/// below a full discount, and the worth within `i64`.
pub open spec fn priced_sats(fiat_amount: i64, price_cents: u64, premium: i64) -> Option<i64> {
    if fiat_amount < 0 || price_cents == 0 || premium < -100 {
        None
    } else if worth(fiat_amount as int, price_cents as int, premium as int) > i64::MAX {
        None
    } else {
        Some(worth(fiat_amount as int, price_cents as int, premium as int) as i64)
    }
}

proof fn lemma_worth(fiat: int, cents: int, premium: int, top: int)
    requires
        fiat >= 0,
        cents > 0,
        premium >= -100,
        top == fiat * SATS_PER_BTC * (100 + premium),
    ensures
        top >= 0,
        worth(fiat, cents, premium) == top / cents,
{
    assert(fiat * SATS_PER_BTC >= 0) by (nonlinear_arith)
        requires
            fiat >= 0,
    ;
    assert(top >= 0) by (nonlinear_arith)
        requires
            fiat * SATS_PER_BTC >= 0,
            100 + premium >= 0,
            top == fiat * SATS_PER_BTC * (100 + premium),
    ;
    assert(fiat * 100 * SATS_PER_BTC * (100 + premium) == top * 100) by (nonlinear_arith)
        requires
            top == fiat * SATS_PER_BTC * (100 + premium),
    ;
    assert((top * 100) / (cents * 100) == top / cents) by {
        vstd::arithmetic::div_mod::lemma_div_multiples_vanish_quotient(100, top, cents);
        assert(top * 100 == 100 * top) by (nonlinear_arith);
        assert(cents * 100 == 100 * cents) by (nonlinear_arith);
    }
}

proof fn lemma_too_much(top: int, cents: int)
    requires
        top >= 0x1_0000_0000_0000_0000_0000_0000_0000_0000,
        0 < cents <= u64::MAX,
    ensures
        top / cents > i64::MAX,
{
    assert(top / cents > i64::MAX) by (nonlinear_arith)
        requires
            top >= 0x1_0000_0000_0000_0000_0000_0000_0000_0000,
            0 < cents <= 0xffff_ffff_ffff_ffff,
    ;
}

/// Prices `fiat_amount` in satoshis. See `priced_sats`.
pub fn sats_for_fiat(fiat_amount: i64, price_cents: u64, premium: i64) -> (r: Option<i64>)
    ensures
        r == priced_sats(fiat_amount, price_cents, premium),
{
    if fiat_amount < 0 || price_cents == 0 || premium < -100 {
        return None;
    }
    assert(fiat_amount as int * SATS_PER_BTC <= 0x7fff_ffff_ffff_ffff * 100_000_000)
        by (nonlinear_arith)
        requires
            0 <= fiat_amount <= 0x7fff_ffff_ffff_ffff,
    ;
    let base: u128 = (fiat_amount as u128) * (SATS_PER_BTC as u128);
    let factor: u128 = (100 + premium as i128) as u128;
    let ghost top = fiat_amount as int * SATS_PER_BTC * (100 + premium as int);
    proof {
        lemma_worth(fiat_amount as int, price_cents as int, premium as int, top);
        assert(base as int * factor as int == top);
    }
    match base.checked_mul(factor) {
        None => {
            proof {
                lemma_too_much(top, price_cents as int);
            }
            None
        },
        Some(product) => {
            let sats: u128 = product / (price_cents as u128);
            if sats > 0x7fff_ffff_ffff_ffff {
                None
            } else {
                Some(sats as i64)
            }
        },
    }
}

} // verus!
