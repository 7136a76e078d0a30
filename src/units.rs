use vstd::prelude::*;

verus! {

/// Ten to the power `n`.
pub open spec fn pow10(n: nat) -> nat
    decreases n,
{
    if n == 0 {
        1
    } else {
        10 * pow10((n - 1) as nat)
    }
}

/// `amount` whole units expressed in base units of an asset with `decimals`
/// decimal places, when that fits in `u64`.
pub open spec fn scaled(amount: u64, decimals: u8) -> Option<u64> {
    if amount * pow10(decimals as nat) <= u64::MAX {
        Some((amount * pow10(decimals as nat)) as u64)
    } else {
        None
    }
}

proof fn lemma_pow10_monotone(a: nat, b: nat)
    requires
        a <= b,
    ensures
        1 <= pow10(a) <= pow10(b),
    decreases b,
{
    if b > 0 {
        if a < b {
            lemma_pow10_monotone(a, (b - 1) as nat);
        } else {
            lemma_pow10_monotone((a - 1) as nat, (b - 1) as nat);
        }
    }
}

/// Converts whole units into base units, or `None` where the result
/// would not fit in `u64`.
pub fn scale_amount(amount: u64, decimals: u8) -> (r: Option<u64>)
    ensures
        r == scaled(amount, decimals),
{
    let mut acc: u64 = amount;
    let mut i: u8 = 0;
    assert(pow10(0) == 1);
    assert(amount * 1 == amount);
    while i < decimals
        invariant
            i <= decimals,
            acc == amount * pow10(i as nat),
        decreases decimals - i,
    {
        match acc.checked_mul(10) {
            Some(v) => {
                proof {
                    let p = pow10(i as nat);
                    assert(pow10((i + 1) as nat) == 10 * p);
                    assert(amount * (10 * p) == (amount * p) * 10) by (nonlinear_arith);
                }
                acc = v;
                i = i + 1;
            },
            None => {
                proof {
                    lemma_pow10_monotone((i + 1) as nat, decimals as nat);
                    let p = pow10((i + 1) as nat);
                    let q = pow10(decimals as nat);
                    assert(p == 10 * pow10(i as nat));
                    assert(amount * (10 * pow10(i as nat)) == (amount * pow10(i as nat)) * 10) by (nonlinear_arith);
                    assert(amount * p == acc * 10);
                    assert(amount * p <= amount * q) by (nonlinear_arith)
                        requires
                            p <= q,
                            amount >= 0,
                    ;
                }
                return None;
            },
        }
    }
    Some(acc)
}

} // verus!
