use vstd::prelude::*;

verus! {

/// Ten to the power `d`.
pub open spec fn pow10(d: nat) -> nat
    decreases d,
{
    if d == 0 {
        1
    } else {
        10 * pow10((d - 1) as nat)
    }
}

/// The number of base units in `ui_amount` whole tokens of a mint with
/// `decimals` decimal places.
pub open spec fn base_units(ui_amount: u64, decimals: u8) -> nat {
    ui_amount as nat * pow10(decimals as nat)
}

proof fn lemma_pow10_positive(d: nat)
    ensures
        pow10(d) >= 1,
    decreases d,
{
    if d > 0 {
        lemma_pow10_positive((d - 1) as nat);
    }
}

proof fn lemma_pow10_monotone(a: nat, b: nat)
    requires
        a <= b,
    ensures
        pow10(a) <= pow10(b),
    decreases b - a,
{
    if a < b {
        lemma_pow10_monotone(a, (b - 1) as nat);
        lemma_pow10_positive((b - 1) as nat);
    }
}

/// Scales a whole-token amount to base units, `ui_amount * 10^decimals`,
/// or returns `None` when that product does not fit in a `u64`.
pub fn scale_amount(ui_amount: u64, decimals: u8) -> (r: Option<u64>)
    ensures
        r is Some <==> base_units(ui_amount, decimals) <= u64::MAX,
        r matches Some(v) ==> v as nat == base_units(ui_amount, decimals),
{
    let mut acc: u64 = ui_amount;
    let mut i: u8 = 0;
    assert(pow10(0) == 1);
    while i < decimals
        invariant
            i <= decimals,
            acc as nat == ui_amount as nat * pow10(i as nat),
        decreases decimals - i,
    {
        match acc.checked_mul(10) {
            Some(next) => {
                assert(ui_amount as nat * pow10((i + 1) as nat) == (ui_amount as nat * pow10(
                    i as nat,
                )) * 10) by (nonlinear_arith)
                    requires
                        pow10((i + 1) as nat) == 10 * pow10(i as nat),
                ;
                acc = next;
                i = i + 1;
            },
            None => {
                proof {
                    lemma_pow10_monotone((i + 1) as nat, decimals as nat);
                    let p = pow10((i + 1) as nat);
                    let q = pow10(decimals as nat);
                    assert(ui_amount as nat * p == acc as nat * 10) by (nonlinear_arith)
                        requires
                            p == 10 * pow10(i as nat),
                            acc as nat == ui_amount as nat * pow10(i as nat),
                    ;
                    assert(ui_amount as nat * p <= ui_amount as nat * q) by (nonlinear_arith)
                        requires
                            p <= q,
                    ;
                }
                return None;
            },
        }
    }
    Some(acc)
}

} // verus!
