//! Future value of a cash-flow stream.
//!
//! `fv_internal` follows the strict cash-flow convention: every amount keeps
//! its algebraic sign and the result is the literal future balance. `fv`
//! wraps it for spreadsheet compatibility, where amounts paid out are entered
//! as negative and the result is the value ultimately received: the one
//! difference is a single negation.

use crate::decimal::add_of;
use crate::decimal::div_of;
use crate::decimal::mul_of;
use crate::decimal::neg_v;
use crate::decimal::one_v;
use crate::decimal::pow_of;
use crate::decimal::sub_of;
use crate::decimal::zero_v;
use crate::decimal::Dec;
use crate::decimal::DecV;
use vstd::prelude::*;

verus! {

/// The present value an absent argument stands for: the additive identity.
pub open spec fn resolved_pv(pv: Option<DecV>) -> DecV {
    match pv {
        Some(p) => p,
        None => zero_v(),
    }
}

/// The payment timing an absent argument stands for: end of period.
pub open spec fn resolved_due(due: Option<bool>) -> bool {
    match due {
        Some(d) => d,
        None => false,
    }
}

/// The views of an optional present-value argument.
pub open spec fn opt_pv_view(pv: Option<Dec>) -> Option<DecV> {
    match pv {
        Some(p) => Some(p@),
        None => None,
    }
}

/// The zero-rate future value: the payment times the number of periods, plus
/// the present value — pure linear accumulation, with no compounding to
/// apply.
pub open spec fn fv_zero_rate_of(nper: DecV, pmt: DecV, pv: DecV) -> Option<DecV> {
    match mul_of(pmt, nper) {
        Some(acc) => add_of(acc, pv),
        None => None,
    }
}

/// The compound-interest future value for a non-zero rate: with growth
/// factor `g = (1 + rate) ^ nper` and annuity factor `f = (g - 1) / rate`,
/// the result is `pmt * f + pv * g`, with one extra factor of `1 + rate` on
/// the payment part when payments fall at the beginning of each period.
/// `None` wherever one of the decimal operations fails.
pub open spec fn fv_compound_of(rate: DecV, nper: DecV, pmt: DecV, pv: DecV, due: bool) -> Option<
    DecV,
> {
    match add_of(one_v(), rate) {
        Some(base) => match pow_of(base, nper) {
            Some(g) => match sub_of(g, one_v()) {
                Some(gm1) => match div_of(gm1, rate) {
                    Some(f) => match mul_of(pv, g) {
                        Some(pv_grown) => match mul_of(pmt, f) {
                            Some(pf) => if due {
                                match mul_of(pf, base) {
                                    Some(pfb) => add_of(pfb, pv_grown),
                                    None => None,
                                }
                            } else {
                                add_of(pf, pv_grown)
                            },
                            None => None,
                        },
                        None => None,
                    },
                    None => None,
                },
                None => None,
            },
            None => None,
        },
        None => None,
    }
}

/// The strict cash-flow future value on resolved arguments: linear when the
/// rate is zero (the timing flag plays no part there, since growing by a
/// zero rate changes nothing), compound otherwise.
pub open spec fn fv_internal_of(rate: DecV, nper: DecV, pmt: DecV, pv: DecV, due: bool) -> Option<
    DecV,
> {
    if rate.num == 0 {
        fv_zero_rate_of(nper, pmt, pv)
    } else {
        fv_compound_of(rate, nper, pmt, pv, due)
    }
}

/// The strict cash-flow future value, with an absent present value standing
/// for zero and an absent timing flag for end-of-period payments.
pub open spec fn fv_internal_full_of(
    rate: DecV,
    nper: DecV,
    pmt: DecV,
    pv: Option<DecV>,
    due: Option<bool>,
) -> Option<DecV> {
    fv_internal_of(rate, nper, pmt, resolved_pv(pv), resolved_due(due))
}

/// The spreadsheet-convention future value: the exact negation of the strict
/// cash-flow result.
pub open spec fn fv_of(rate: DecV, nper: DecV, pmt: DecV, pv: Option<DecV>, due: Option<
    bool,
>) -> Option<DecV> {
    match fv_internal_full_of(rate, nper, pmt, pv, due) {
        Some(v) => Some(neg_v(v)),
        None => None,
    }
}

/// Future value of a cash-flow stream under the strict cash-flow convention,
/// like `fv_internal` but answering `None` wherever the decimal arithmetic
/// fails instead of demanding in advance that it succeed.
pub fn try_fv_internal(
    rate: Dec,
    nper: Dec,
    pmt: Dec,
    pv: Option<Dec>,
    due: Option<bool>,
) -> (r: Option<Dec>)
    requires
        rate.wf(),
        nper.wf(),
        pmt.wf(),
        pv matches Some(p) ==> p.wf(),
    ensures
        r matches Some(d) ==> d.wf() && fv_internal_full_of(
            rate@,
            nper@,
            pmt@,
            opt_pv_view(pv),
            due,
        ) == Some(d@),
        r is None ==> fv_internal_full_of(rate@, nper@, pmt@, opt_pv_view(pv), due) is None,
{
    let pv_r: Dec = match pv {
        Some(p) => p,
        None => Dec::zero(),
    };
    let due_r: bool = match due {
        Some(d) => d,
        None => false,
    };
    if rate.is_zero() {
        let acc = match pmt.checked_mul(&nper) {
            Some(v) => v,
            None => return None,
        };
        acc.checked_add(&pv_r)
    } else {
        let one = Dec::one();
        let base = match one.checked_add(&rate) {
            Some(v) => v,
            None => return None,
        };
        let g = match base.checked_powd(&nper) {
            Some(v) => v,
            None => return None,
        };
        let gm1 = match g.checked_sub(&one) {
            Some(v) => v,
            None => return None,
        };
        let f = match gm1.checked_div(&rate) {
            Some(v) => v,
            None => return None,
        };
        let pv_grown = match pv_r.checked_mul(&g) {
            Some(v) => v,
            None => return None,
        };
        let pf = match pmt.checked_mul(&f) {
            Some(v) => v,
            None => return None,
        };
        if due_r {
            let pfb = match pf.checked_mul(&base) {
                Some(v) => v,
                None => return None,
            };
            pfb.checked_add(&pv_grown)
        } else {
            pf.checked_add(&pv_grown)
        }
    }
}

/// Future value of a cash-flow stream under the strict cash-flow convention:
/// every amount keeps its algebraic sign and the result is the literal
/// future balance. An absent present value stands for zero; an absent timing
/// flag for end-of-period payments. The caller owes that the decimal
/// computation goes through; `try_fv_internal` makes the same computation
/// without that demand.
pub fn fv_internal(rate: Dec, nper: Dec, pmt: Dec, pv: Option<Dec>, due: Option<bool>) -> (r: Dec)
    requires
        rate.wf(),
        nper.wf(),
        pmt.wf(),
        pv matches Some(p) ==> p.wf(),
        fv_internal_full_of(rate@, nper@, pmt@, opt_pv_view(pv), due) is Some,
    ensures
        r.wf(),
        Some(r@) == fv_internal_full_of(rate@, nper@, pmt@, opt_pv_view(pv), due),
{
    let r = try_fv_internal(rate, nper, pmt, pv, due);
    r.unwrap()
}

/// Future value under the spreadsheet sign convention, like `fv` but
/// answering `None` wherever the decimal arithmetic fails instead of
/// demanding in advance that it succeed.
pub fn try_fv(rate: Dec, nper: Dec, pmt: Dec, pv: Option<Dec>, due: Option<bool>) -> (r: Option<
    Dec,
>)
    requires
        rate.wf(),
        nper.wf(),
        pmt.wf(),
        pv matches Some(p) ==> p.wf(),
    ensures
        r matches Some(d) ==> d.wf() && fv_of(rate@, nper@, pmt@, opt_pv_view(pv), due) == Some(
            d@,
        ),
        r is None ==> fv_of(rate@, nper@, pmt@, opt_pv_view(pv), due) is None,
{
    match try_fv_internal(rate, nper, pmt, pv, due) {
        Some(v) => Some(v.neg()),
        None => None,
    }
}

/// Future value of a cash-flow stream under the spreadsheet sign convention:
/// amounts paid out are entered as negative, and the result is the value
/// ultimately received — the exact negation of the strict cash-flow result.
/// The caller owes that the decimal computation goes through; `try_fv` makes
/// the same computation without that demand.
pub fn fv(rate: Dec, nper: Dec, pmt: Dec, pv: Option<Dec>, due: Option<bool>) -> (r: Dec)
    requires
        rate.wf(),
        nper.wf(),
        pmt.wf(),
        pv matches Some(p) ==> p.wf(),
        fv_internal_full_of(rate@, nper@, pmt@, opt_pv_view(pv), due) is Some,
    ensures
        r.wf(),
        Some(r@) == fv_of(rate@, nper@, pmt@, opt_pv_view(pv), due),
{
    let inner = fv_internal(rate, nper, pmt, pv, due);
    inner.neg()
}

/// Zero-rate linearity: with a zero rate the future value is the payment
/// times the number of periods, plus the present value, exactly as the
/// decimal primitive computes them — and the timing flag plays no part.
pub proof fn lemma_zero_rate_linearity(rate: DecV, nper: DecV, pmt: DecV, pv: DecV, due: bool)
    requires
        rate.num == 0,
    ensures
        fv_internal_of(rate, nper, pmt, pv, due) == (match mul_of(pmt, nper) {
            Some(acc) => add_of(acc, pv),
            None => None::<DecV>,
        }),
{
}

/// Sign-convention inverse: on every input, the spreadsheet-convention
/// future value is the exact negation of the strict cash-flow future value,
/// and the two fail together.
pub proof fn lemma_sign_convention_inverse(
    rate: DecV,
    nper: DecV,
    pmt: DecV,
    pv: Option<DecV>,
    due: Option<bool>,
)
    ensures
        fv_of(rate, nper, pmt, pv, due) == (match fv_internal_full_of(rate, nper, pmt, pv, due) {
            Some(v) => Some(neg_v(v)),
            None => None::<DecV>,
        }),
        fv_internal_full_of(rate, nper, pmt, pv, due) == (match fv_of(rate, nper, pmt, pv, due) {
            Some(v) => Some(neg_v(v)),
            None => None::<DecV>,
        }),
{
}

/// Zero-present-value default: leaving the present value out is the same as
/// passing the zero constant for it.
pub proof fn lemma_zero_pv_default(rate: DecV, nper: DecV, pmt: DecV, due: Option<bool>)
    ensures
        fv_internal_full_of(rate, nper, pmt, None, due) == fv_internal_full_of(
            rate,
            nper,
            pmt,
            Some(zero_v()),
            due,
        ),
{
}

} // verus!
