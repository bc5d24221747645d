use vstd::prelude::*;

use vstd::arithmetic::div_mod::lemma_div_is_ordered;
use vstd::arithmetic::div_mod::lemma_div_multiples_vanish;
use vstd::arithmetic::div_mod::lemma_div_pos_is_pos;
use vstd::arithmetic::mul::lemma_mul_inequality;

use crate::constants::DECIMAL;
use crate::errors::BondError;
use crate::table::StrMap;

verus! {

// ---------------------------------------------------------------------------
// The pricing, decay and vesting formulas, as mathematical functions.
// All executable arithmetic below is proved to compute exactly these, with
// truncating integer division throughout.
// ---------------------------------------------------------------------------

/// Portion of `total_debt` that has decayed after `elapsed` time units of a
/// `vesting_term`-long window: `total_debt * elapsed / vesting_term`, clamped
/// to `total_debt`. Meaningful for `vesting_term > 0`.
pub open spec fn decay_spec(total_debt: int, elapsed: int, vesting_term: int) -> int {
    let d = total_debt * elapsed / vesting_term;
    if d > total_debt {
        total_debt
    } else {
        d
    }
}

/// Debt still outstanding after decay.
pub open spec fn current_debt_spec(total_debt: int, elapsed: int, vesting_term: int) -> int {
    total_debt - decay_spec(total_debt, elapsed, vesting_term)
}

/// Debt ratio of a bond: outstanding debt scaled by `DECIMAL`, divided by the
/// payout asset's total supply. Meaningful for `supply > 0`.
pub open spec fn debt_ratio_spec(debt: int, supply: int) -> int {
    debt * (DECIMAL as int) / supply
}

/// Bond price for a given debt ratio: zero ratio prices at zero, any positive
/// ratio prices along the control-variable curve; the result is floored at
/// `minimum_price`.
pub open spec fn price_spec(control_variable: int, minimum_price: int, ratio: int) -> int {
    let raw = if ratio > 0 {
        (control_variable * ratio + DECIMAL) * 100 / (DECIMAL as int)
    } else {
        0
    };
    if raw < minimum_price {
        minimum_price
    } else {
        raw
    }
}

/// Vested fraction in basis points (10000 = 100.00%), uncapped: a holder that
/// waited past its vesting period reads above 10000.
pub open spec fn percent_spec(elapsed: int, vesting_period: int) -> int {
    if vesting_period > 0 {
        elapsed * 10000 / vesting_period
    } else {
        0
    }
}

/// Payout claimable now: everything once fully vested, else the vested
/// fraction of what remains.
pub open spec fn pending_spec(payout_remaining: int, percent: int) -> int {
    if percent >= 10000 {
        payout_remaining
    } else {
        payout_remaining * percent / 10000
    }
}

/// A truncated fraction of at most 100.00% never exceeds the whole:
/// `v * p / 10000 <= v` for any basis-point fraction `p <= 10000`.
pub proof fn lemma_fraction_le(v: int, p: int)
    requires
        0 <= v,
        0 <= p <= 10000,
    ensures
        v * p / 10000 <= v,
        0 <= v * p / 10000,
{
    lemma_mul_inequality(p, 10000, v);
    assert(p * v <= 10000 * v);
    assert(v * p == p * v) by (nonlinear_arith);
    lemma_div_is_ordered(v * p, 10000 * v, 10000);
    lemma_div_multiples_vanish(v, 10000);
    assert((10000 * v) / 10000 == v);
    assert(0 <= v * p) by (nonlinear_arith)
        requires
            0 <= v && 0 <= p,
    ;
    lemma_div_pos_is_pos(v * p, 10000);
}

/// The vested percentage reaches or passes 10000 basis points exactly when
/// the elapsed time reaches or passes the vesting period (for a positive
/// vesting period; a zero vesting period always reads zero percent).
pub proof fn lemma_percent_vested_threshold(elapsed: int, vesting_period: int)
    requires
        0 <= elapsed,
        0 < vesting_period,
    ensures
        percent_spec(elapsed, vesting_period) >= 10000 <==> elapsed >= vesting_period,
{
    if elapsed >= vesting_period {
        lemma_mul_inequality(vesting_period, elapsed, 10000);
        assert(vesting_period * 10000 <= elapsed * 10000);
        lemma_div_is_ordered(vesting_period * 10000, elapsed * 10000, vesting_period);
        lemma_div_multiples_vanish(10000, vesting_period);
        assert((vesting_period * 10000) / vesting_period == 10000);
    }
    if elapsed < vesting_period {
        assert(elapsed * 10000 <= (vesting_period - 1) * 10000) by {
            lemma_mul_inequality(elapsed, vesting_period - 1, 10000);
        }
        assert(((vesting_period - 1) * 10000) / vesting_period < 10000) by {
            assert((vesting_period - 1) * 10000 < vesting_period * 10000) by (nonlinear_arith)
                requires
                    0 < vesting_period,
            ;
            assert(vesting_period * 10000 == 10000 * vesting_period) by (nonlinear_arith);
            if ((vesting_period - 1) * 10000) / vesting_period >= 10000 {
                lemma_mul_inequality(10000, ((vesting_period - 1) * 10000) / vesting_period,
                    vesting_period);
                vstd::arithmetic::div_mod::lemma_fundamental_div_mod((vesting_period - 1) * 10000,
                    vesting_period);
                vstd::arithmetic::div_mod::lemma_mod_bound((vesting_period - 1) * 10000,
                    vesting_period);
                assert(false);
            }
        }
        lemma_div_is_ordered(elapsed * 10000, (vesting_period - 1) * 10000, vesting_period);
    }
}

/// For a fixed positive supply, the bond price is monotonically
/// non-decreasing in the outstanding debt, and never below the floor.
pub proof fn lemma_price_monotonic(
    control_variable: int,
    minimum_price: int,
    supply: int,
    debt1: int,
    debt2: int,
)
    requires
        0 <= control_variable,
        0 <= minimum_price,
        0 < supply,
        0 <= debt1 <= debt2,
    ensures
        price_spec(control_variable, minimum_price, debt_ratio_spec(debt1, supply)) <= price_spec(
            control_variable,
            minimum_price,
            debt_ratio_spec(debt2, supply),
        ),
        price_spec(control_variable, minimum_price, debt_ratio_spec(debt1, supply))
            >= minimum_price,
{
    let r1 = debt_ratio_spec(debt1, supply);
    let r2 = debt_ratio_spec(debt2, supply);
    lemma_mul_inequality(debt1, debt2, DECIMAL as int);
    lemma_div_is_ordered(debt1 * (DECIMAL as int), debt2 * (DECIMAL as int), supply);
    assert(r1 <= r2);
    assert(0 <= debt1 * (DECIMAL as int)) by (nonlinear_arith)
        requires
            0 <= debt1,
    ;
    lemma_div_pos_is_pos(debt1 * (DECIMAL as int), supply);
    assert(0 <= r1);
    if r1 > 0 {
        lemma_mul_inequality(r1, r2, control_variable);
        assert(r1 * control_variable <= r2 * control_variable);
        assert(control_variable * r1 == r1 * control_variable) by (nonlinear_arith);
        assert(control_variable * r2 == r2 * control_variable) by (nonlinear_arith);
        lemma_mul_inequality(
            control_variable * r1 + DECIMAL,
            control_variable * r2 + DECIMAL,
            100,
        );
        lemma_div_is_ordered(
            (control_variable * r1 + DECIMAL) * 100,
            (control_variable * r2 + DECIMAL) * 100,
            DECIMAL as int,
        );
    }
}

// ---------------------------------------------------------------------------
// Per-depositor vesting ledger entry.
// ---------------------------------------------------------------------------

/// One depositor's position in one bond: principal and payout still owed,
/// and the vesting window of the most recent deposit.
#[derive(Clone, Copy, Debug, PartialEq, Eq, Structural)]
pub struct Bond {
    pub value_remaining: u128,
    pub payout_remaining: u128,
    pub vesting_period: u64,
    pub last_time: u64,
    pub price_paid: u128,
}

impl Bond {
    /// Overwrites every field of the entry at once.
    pub fn set_bond(
        &mut self,
        _value_remaining: u128,
        _payout_remaining: u128,
        _vesting_period: u64,
        _last_time: u64,
        _price_paid: u128,
    )
        ensures
            *final(self) == (Bond {
                value_remaining: _value_remaining,
                payout_remaining: _payout_remaining,
                vesting_period: _vesting_period,
                last_time: _last_time,
                price_paid: _price_paid,
            }),
    {
        self.value_remaining = _value_remaining;
        self.payout_remaining = _payout_remaining;
        self.last_time = _last_time;
        self.price_paid = _price_paid;
        self.vesting_period = _vesting_period;
    }
}

// ---------------------------------------------------------------------------
// Per-bond curve configuration.
// ---------------------------------------------------------------------------

/// Curve parameters of one bond.
#[derive(Clone, Copy, Debug, PartialEq, Eq, Structural)]
pub struct Terms {
    pub control_variable: u128,
    pub vesting_term: u64,
    pub minimum_price: u128,
    pub max_payout: u128,
    pub fee: u128,
}

impl Terms {
    /// Validated wholesale update of the terms. Rejects a vesting term under
    /// 432000, a payout cap under 1000, and a fee under 10000, in that
    /// order, leaving the terms untouched on any rejection.
    pub fn set_terms(
        &mut self,
        _control_variable: u128,
        _vesting_term: u64,
        _minimum_price: u128,
        _max_payout: u128,
        _fee: u128,
    ) -> (r: Result<(), BondError>)
        ensures
            r == (if _vesting_term < 432000 {
                Err::<(), BondError>(BondError::VestingTooShort)
            } else if _max_payout < 1000 {
                Err::<(), BondError>(BondError::MaxPayoutTooSmall)
            } else if _fee < 10000 {
                Err::<(), BondError>(BondError::FeeRejected)
            } else {
                Ok::<(), BondError>(())
            }),
            r is Ok ==> *final(self) == (Terms {
                control_variable: _control_variable,
                vesting_term: _vesting_term,
                minimum_price: _minimum_price,
                max_payout: _max_payout,
                fee: _fee,
            }),
            r is Err ==> *final(self) == *old(self),
    {
        if _vesting_term < 432000 {
            return Err(BondError::VestingTooShort);
        }
        if _max_payout < 1000 {
            return Err(BondError::MaxPayoutTooSmall);
        }
        if _fee < 10000 {
            return Err(BondError::FeeRejected);
        }
        self.control_variable = _control_variable;
        self.vesting_term = _vesting_term;
        self.minimum_price = _minimum_price;
        self.max_payout = _max_payout;
        self.fee = _fee;
        Ok(())
    }
}

// ---------------------------------------------------------------------------
// Pending adjustment of the control variable.
// ---------------------------------------------------------------------------

/// A pending step-wise adjustment of the control variable.
#[derive(Clone, Copy, Debug, PartialEq, Eq, Structural)]
pub struct Adjust {
    pub add: bool,
    pub rate: u128,
    pub target: u128,
}

impl Adjust {
    /// Overwrites the adjustment descriptor.
    pub fn set_adjust(&mut self, _add: bool, _rate: u128, _target: u128)
        ensures
            *final(self) == (Adjust { add: _add, rate: _rate, target: _target }),
    {
        self.add = _add;
        self.rate = _rate;
        self.target = _target;
    }
}

// ---------------------------------------------------------------------------
// The state of one bond instrument.
// ---------------------------------------------------------------------------

/// One bond instrument: the payout asset it sells, the balance still for
/// sale, the outstanding decaying debt, and the per-depositor holder ledger.
pub struct BondData {
    pub token_pure: String,
    pub treasury: String,
    pub bond_balance: u128,
    pub bond_holder: StrMap<Bond>,
    pub terms: Terms,
    pub adjust: Adjust,
    pub total_debt: u128,
    pub last_decay: u64,
    pub bond_sold: u128,
    pub total_deposit: u128,
}

impl BondData {
    /// Decayed portion of the debt as of `now`.
    pub open spec fn decay_at(&self, now: u64) -> int {
        decay_spec(self.total_debt as int, now - self.last_decay, self.terms.vesting_term as int)
    }

    /// Outstanding debt as of `now`.
    pub open spec fn debt_at(&self, now: u64) -> int {
        current_debt_spec(
            self.total_debt as int,
            now - self.last_decay,
            self.terms.vesting_term as int,
        )
    }

    /// Bond price as of `now` for a given payout-asset supply.
    pub open spec fn price_at(&self, supply: u128, now: u64) -> int {
        price_spec(
            self.terms.control_variable as int,
            self.terms.minimum_price as int,
            debt_ratio_spec(self.debt_at(now), supply as int),
        )
    }

    /// Machine limits under which the decay arithmetic stays within `u128`,
    /// plus the two host-guaranteed preconditions of a live pricing
    /// computation: a positive vesting term and a timestamp that has not run
    /// backwards.
    pub open spec fn decay_fits(&self, now: u64) -> bool {
        &&& self.terms.vesting_term > 0
        &&& now >= self.last_decay
        &&& self.total_debt * (now - self.last_decay) <= u128::MAX
    }

    /// Machine limits under which the whole pricing pipeline stays within
    /// `u128`.
    pub open spec fn price_fits(&self, supply: u128, now: u64) -> bool {
        &&& self.decay_fits(now)
        &&& supply > 0 ==> {
            let ratio = debt_ratio_spec(self.debt_at(now), supply as int);
            &&& self.debt_at(now) * DECIMAL <= u128::MAX
            &&& ratio > 0 ==> (self.terms.control_variable * ratio + DECIMAL) * 100 <= u128::MAX
        }
    }

    /// Validated update of the pending adjustment: the rate must be at least
    /// `vesting_term * 30 / 1000`, else the descriptor is left untouched.
    pub fn set_adjust(&mut self, _add: bool, _rate: u128, _target: u128) -> (r: Result<
        (),
        BondError,
    >)
        requires
            old(self).terms.vesting_term * 30 <= u64::MAX,
        ensures
            r == (if _rate < old(self).terms.vesting_term * 30 / 1000 {
                Err::<(), BondError>(BondError::RateTooSmall)
            } else {
                Ok::<(), BondError>(())
            }),
            r is Ok ==> *final(self) == (BondData {
                adjust: (Adjust { add: _add, rate: _rate, target: _target }),
                ..*old(self)
            }),
            r is Err ==> *final(self) == *old(self),
    {
        let min_rate: u64 = self.terms.vesting_term * 30 / 1000;
        if _rate < min_rate as u128 {
            return Err(BondError::RateTooSmall);
        }
        self.adjust.set_adjust(_add, _rate, _target);
        Ok(())
    }

    /// Decayed debt as of `now`: `total_debt * elapsed / vesting_term`,
    /// clamped to `total_debt`; in particular it never exceeds `total_debt`
    /// and reaches exactly `total_debt` once `elapsed >= vesting_term`.
    pub fn debt_decay(&self, now: u64) -> (r: u128)
        requires
            self.decay_fits(now),
        ensures
            r == self.decay_at(now),
            r <= self.total_debt,
            now - self.last_decay >= self.terms.vesting_term ==> r == self.total_debt,
            now == self.last_decay ==> r == 0,
    {
        let elapsed: u128 = (now - self.last_decay) as u128;
        let mut decay: u128 = self.total_debt * elapsed / (self.terms.vesting_term as u128);
        proof {
            let td = self.total_debt as int;
            let e = elapsed as int;
            let vt = self.terms.vesting_term as int;
            if e >= vt {
                lemma_mul_inequality(vt, e, td);
                assert(vt * td <= e * td);
                assert(td * e == e * td) by (nonlinear_arith);
                assert(td * vt == vt * td) by (nonlinear_arith);
                lemma_div_is_ordered(vt * td, e * td, vt);
                lemma_div_multiples_vanish(td, vt);
                assert((vt * td) / vt == td);
                assert(td * e / vt >= td);
            }
            if e == 0 {
                assert(td * 0 == 0) by (nonlinear_arith);
            }
        }
        if decay > self.total_debt {
            decay = self.total_debt;
        }
        decay
    }

    /// Debt still outstanding as of `now`: `total_debt` less the decay; it
    /// never exceeds `total_debt` and equals it while no time has elapsed.
    pub fn current_debt(&self, now: u64) -> (r: u128)
        requires
            self.decay_fits(now),
        ensures
            r == self.debt_at(now),
            r <= self.total_debt,
            now == self.last_decay ==> r == self.total_debt,
    {
        proof {
            let td = self.total_debt as int;
            let e = now - self.last_decay;
            let vt = self.terms.vesting_term as int;
            assert(0 <= td * e) by (nonlinear_arith)
                requires
                    0 <= td && 0 <= e,
            ;
            lemma_div_pos_is_pos(td * e, vt);
        }
        self.total_debt - self.debt_decay(now)
    }

    /// Bond price as of `now`: the debt-ratio curve price, floored at
    /// `minimum_price`; a zero supply is rejected explicitly.
    pub fn get_bond_price(&self, token_pure_supply: u128, now: u64) -> (r: Result<u128, BondError>)
        requires
            self.price_fits(token_pure_supply, now),
        ensures
            token_pure_supply == 0 ==> r == Err::<u128, BondError>(BondError::DivisionByZero),
            token_pure_supply > 0 ==> r == Ok::<u128, BondError>(
                self.price_at(token_pure_supply, now) as u128,
            ),
            token_pure_supply > 0 ==> self.price_at(token_pure_supply, now)
                >= self.terms.minimum_price,
    {
        if token_pure_supply == 0 {
            return Err(BondError::DivisionByZero);
        }
        let debt = self.current_debt(now);
        let debt_ratio = debt * DECIMAL / token_pure_supply;
        let mut price: u128 = 0;
        if debt_ratio > 0 {
            proof {
                let cv = self.terms.control_variable as int;
                let ratio = debt_ratio as int;
                assert(cv * ratio <= (cv * ratio + DECIMAL) * 100) by (nonlinear_arith)
                    requires
                        0 <= cv * ratio,
                ;
                assert(0 <= cv * ratio) by (nonlinear_arith)
                    requires
                        0 <= cv && 0 <= ratio,
                ;
            }
            price = (self.terms.control_variable * debt_ratio + DECIMAL) * 100 / DECIMAL;
        }
        if price < self.terms.minimum_price {
            price = self.terms.minimum_price;
        }
        Ok(price)
    }
}

} // verus!
