pub mod constants;
pub mod errors;
pub mod state;
pub mod table;

use vstd::prelude::*;

use crate::constants::DECIMAL;
use crate::constants::MAX;
use crate::errors::BondError;
use crate::state::Adjust;
use crate::state::Bond;
use crate::state::BondData;
use crate::state::Terms;
use crate::state::pending_spec;
use crate::state::percent_spec;
use crate::state::lemma_fraction_le;
use crate::table::StrMap;

verus! {

// ---------------------------------------------------------------------------
// What the two asynchronous workflows do to the books, as predicates relating
// the bond before a completion handler ran to the bond after it.
// ---------------------------------------------------------------------------

/// The state a freshly registered bond starts in: nothing sold, nothing owed,
/// permissive default terms cap and fee, a neutral adjustment, and an empty
/// holder ledger.
pub open spec fn fresh_bond(
    b: BondData,
    token_pure: Seq<char>,
    treasury: Seq<char>,
    bond_balance: u128,
    control_variable: u128,
    vesting_term: u64,
    minimum_price: u128,
    now: u64,
) -> bool {
    &&& b.token_pure@ == token_pure
    &&& b.treasury@ == treasury
    &&& b.bond_balance == bond_balance
    &&& b.bond_holder@ == Map::<Seq<char>, Bond>::empty()
    &&& b.terms == (Terms {
        control_variable,
        vesting_term,
        minimum_price,
        max_payout: MAX,
        fee: 0,
    })
    &&& b.adjust == (Adjust { add: true, rate: 0, target: MAX })
    &&& b.total_debt == 0
    &&& b.last_decay == now
    &&& b.bond_sold == 0
    &&& b.total_deposit == 0
}

/// The holder entry after a deposit lands: a first deposit opens a fresh
/// entry; a repeat deposit adds the new principal and payout onto what
/// remains and restarts the whole position's vesting clock at the newest
/// deposit's terms.
pub open spec fn merged_holder(
    prev: Option<Bond>,
    amount: u128,
    payout: u128,
    vesting_term: u64,
    now: u64,
    price: u128,
) -> Bond {
    match prev {
        Option::None => Bond {
            value_remaining: amount,
            payout_remaining: payout,
            vesting_period: vesting_term,
            last_time: now,
            price_paid: price,
        },
        Option::Some(h) => Bond {
            value_remaining: (h.value_remaining + amount) as u128,
            payout_remaining: (h.payout_remaining + payout) as u128,
            vesting_period: vesting_term,
            last_time: now,
            price_paid: price,
        },
    }
}

/// Payout bought by `amount` at `price`: `amount * DECIMAL / price`.
pub open spec fn payout_spec(amount: u128, price: int) -> int {
    amount * (DECIMAL as int) / price
}

/// Machine limits under which applying a deposit stays within `u128`.
pub open spec fn deposit_fits(
    ob: BondData,
    sender: Seq<char>,
    amount: u128,
    supply: u128,
    now: u64,
) -> bool {
    &&& ob.price_fits(supply, now)
    &&& amount * DECIMAL <= u128::MAX
    &&& ob.total_debt + amount <= u128::MAX
    &&& ob.total_deposit + amount <= u128::MAX
    &&& ({
        let price = ob.price_at(supply, now);
        price > 0 ==> ({
            let payout = payout_spec(amount, price);
            &&& ob.bond_sold + payout <= u128::MAX
            &&& (ob.bond_holder@.dom().contains(sender) ==> ({
                let h = ob.bond_holder@[sender];
                &&& h.value_remaining + amount <= u128::MAX
                &&& h.payout_remaining + payout <= u128::MAX
            }))
        })
    })
}

/// How a bond's books read after a deposit of `amount` by `sender` was
/// applied at `price` for `payout`: debt, deposit total and sales total grow
/// by the documented deltas, the balance for sale shrinks by the payout, the
/// decay clock restarts, and the sender's holder entry is created or merged.
pub open spec fn deposit_applied(
    ob: BondData,
    nb: BondData,
    sender: Seq<char>,
    amount: u128,
    price: u128,
    payout: u128,
    now: u64,
) -> bool {
    &&& nb.token_pure == ob.token_pure
    &&& nb.treasury == ob.treasury
    &&& nb.terms == ob.terms
    &&& nb.adjust == ob.adjust
    &&& nb.total_debt == ob.total_debt + amount
    &&& nb.bond_balance == ob.bond_balance - payout
    &&& nb.total_deposit == ob.total_deposit + amount
    &&& nb.bond_sold == ob.bond_sold + payout
    &&& nb.last_decay == now
    &&& nb.bond_holder@ == ob.bond_holder@.insert(
        sender,
        merged_holder(
            if ob.bond_holder@.dom().contains(sender) {
                Option::Some(ob.bond_holder@[sender])
            } else {
                Option::None
            },
            amount,
            payout,
            ob.terms.vesting_term,
            now,
            price,
        ),
    )
}

/// Principal released by a redemption at `current_time`: the vested fraction
/// of the remaining principal, or all of it once fully vested.
pub open spec fn redeem_value_spec(h: Bond, current_time: u64) -> int {
    let percent = percent_spec(current_time - h.last_time, h.vesting_period as int);
    if percent < 10000 {
        h.value_remaining * percent / 10000
    } else {
        h.value_remaining as int
    }
}

/// How a bond's books read after a successful mint of `mint_amount` for
/// `sender` was applied: the holder's principal and payout owed shrink, its
/// vesting window is re-snapshotted from the bond's current term, the
/// holder's clock is set to the captured request time, the bond's debt drops
/// by the released principal, and the decay clock restarts at completion
/// time.
pub open spec fn redeem_applied(
    ob: BondData,
    nb: BondData,
    sender: Seq<char>,
    current_time: u64,
    mint_amount: u128,
    now: u64,
) -> bool {
    let h = ob.bond_holder@[sender];
    let value = redeem_value_spec(h, current_time);
    &&& nb.token_pure == ob.token_pure
    &&& nb.treasury == ob.treasury
    &&& nb.terms == ob.terms
    &&& nb.adjust == ob.adjust
    &&& nb.bond_balance == ob.bond_balance
    &&& nb.total_deposit == ob.total_deposit
    &&& nb.bond_sold == ob.bond_sold
    &&& nb.total_debt == ob.total_debt - value
    &&& nb.last_decay == now
    &&& nb.bond_holder@ == ob.bond_holder@.insert(
        sender,
        Bond {
            value_remaining: (h.value_remaining - value) as u128,
            payout_remaining: (h.payout_remaining - mint_amount) as u128,
            vesting_period: ob.terms.vesting_term,
            last_time: current_time,
            price_paid: h.price_paid,
        },
    )
}

// ---------------------------------------------------------------------------
// The registry: the one top-level aggregate, owning every bond.
// ---------------------------------------------------------------------------

/// The bond registry: the owner allowed to register bonds, and one
/// `BondData` per payment asset. The two asynchronous workflows are split
/// into a read-only request half, which tells the host what external call to
/// issue, and a completion half, which applies every mutation once the host
/// hands back the external result.
pub struct PhoenixBond {
    owner_id: String,
    bond_data: StrMap<BondData>,
}

impl PhoenixBond {
    /// The identity allowed to register and administer bonds.
    pub closed spec fn owner(&self) -> Seq<char> {
        self.owner_id@
    }

    /// The registered bonds, keyed by payment-asset identity.
    pub closed spec fn bonds(&self) -> Map<Seq<char>, BondData> {
        self.bond_data@
    }

    /// Whether `sender` holds an entry in the bond of `token`.
    pub open spec fn has_holder(&self, token: Seq<char>, sender: Seq<char>) -> bool {
        &&& self.bonds().dom().contains(token)
        &&& self.bonds()[token].bond_holder@.dom().contains(sender)
    }

    /// The holder entry of `sender` in the bond of `token`.
    pub open spec fn holder_at(&self, token: Seq<char>, sender: Seq<char>) -> Bond {
        self.bonds()[token].bond_holder@[sender]
    }

    /// The vested percentage `sender` reads at `t` in the bond of `token`.
    pub open spec fn percent_at(&self, token: Seq<char>, sender: Seq<char>, t: u64) -> int {
        percent_spec(
            t - self.holder_at(token, sender).last_time,
            self.holder_at(token, sender).vesting_period as int,
        )
    }

    /// An empty registry owned by `owner_id`.
    pub fn new(owner_id: String) -> (s: Self)
        ensures
            s.owner() == owner_id@,
            s.bonds() == Map::<Seq<char>, BondData>::empty(),
    {
        PhoenixBond { owner_id, bond_data: StrMap::new() }
    }

    /// Owner-only registration of a new bond for `_token_payment`, with a
    /// fresh, empty book. A non-owner caller is rejected and nothing
    /// changes.
    pub fn add_new_bond(
        &mut self,
        caller: &String,
        _token_payment: String,
        _token_pure: String,
        _treasury: String,
        _bond_balance: u128,
        _control_variable: u128,
        _vesting_term: u64,
        _minimum_price: u128,
        now: u64,
    ) -> (r: Result<(), BondError>)
        ensures
            caller@ != old(self).owner() ==> r == Err::<(), BondError>(BondError::NotOwner)
                && *final(self) == *old(self),
            caller@ == old(self).owner() ==> ({
                &&& r == Ok::<(), BondError>(())
                &&& final(self).owner() == old(self).owner()
                &&& final(self).bonds() == old(self).bonds().insert(
                    _token_payment@,
                    final(self).bonds()[_token_payment@],
                )
                &&& fresh_bond(
                    final(self).bonds()[_token_payment@],
                    _token_pure@,
                    _treasury@,
                    _bond_balance,
                    _control_variable,
                    _vesting_term,
                    _minimum_price,
                    now,
                )
            }),
    {
        if !(*caller == self.owner_id) {
            return Err(BondError::NotOwner);
        }
        let bond_data = BondData {
            token_pure: _token_pure,
            treasury: _treasury,
            bond_balance: _bond_balance,
            bond_holder: StrMap::new(),
            terms: Terms {
                control_variable: _control_variable,
                vesting_term: _vesting_term,
                minimum_price: _minimum_price,
                max_payout: MAX,
                fee: 0,
            },
            adjust: Adjust { add: true, rate: 0, target: MAX },
            total_debt: 0,
            last_decay: now,
            bond_sold: 0,
            total_deposit: 0,
        };
        self.bond_data.insert(_token_payment, bond_data);
        Ok(())
    }

    /// Request half of the deposit workflow: a deposit notification of
    /// `amount` by `sender` for a registered `token_payment` asks the host
    /// to query the total supply of the returned payout asset and to hand
    /// the answer to `get_supply_callback`; an unregistered asset is
    /// rejected, and no state changes either way.
    pub fn deposit(&self, token_payment: &String, sender: &String, amount: u128) -> (r: Result<
        String,
        BondError,
    >)
        ensures
            !self.bonds().dom().contains(token_payment@) ==> r == Err::<String, BondError>(
                BondError::UnknownBond,
            ),
            self.bonds().dom().contains(token_payment@) ==> (r matches Ok(t) && t@
                == self.bonds()[token_payment@].token_pure@),
    {
        let bond = match self.bond_data.get(token_payment) {
            Option::None => {
                return Err(BondError::UnknownBond);
            },
            Option::Some(b) => b,
        };
        Ok(bond.token_pure.clone())
    }

    /// Completion half of the deposit workflow. With a successful supply
    /// answer it prices the bond, rejects a payout beyond the balance for
    /// sale, and otherwise applies every book entry of the deposit at once;
    /// with a failed answer, or on any rejection, nothing changes.
    pub fn get_supply_callback(
        &mut self,
        token_payment: &String,
        sender: &String,
        amount: u128,
        supply_result: Option<u128>,
        now: u64,
    ) -> (r: Result<u128, BondError>)
        requires
            (old(self).bonds().dom().contains(token_payment@) && supply_result is Some
                && supply_result.unwrap() > 0) ==> deposit_fits(
                old(self).bonds()[token_payment@],
                sender@,
                amount,
                supply_result.unwrap(),
                now,
            ),
        ensures
            !old(self).bonds().dom().contains(token_payment@) ==> r == Err::<u128, BondError>(
                BondError::UnknownBond,
            ) && *final(self) == *old(self),
            old(self).bonds().dom().contains(token_payment@) && supply_result is None ==> r
                == Err::<u128, BondError>(BondError::SupplyQueryFailed) && *final(self) == *old(
                self,
            ),
            (old(self).bonds().dom().contains(token_payment@) && supply_result is Some) ==> ({
                let supply = supply_result.unwrap();
                let ob = old(self).bonds()[token_payment@];
                let price = ob.price_at(supply, now);
                &&& (supply == 0 || (supply > 0 && price == 0)) ==> r == Err::<u128, BondError>(
                    BondError::DivisionByZero,
                ) && *final(self) == *old(self)
                &&& (supply > 0 && price > 0) ==> ({
                    let payout = payout_spec(amount, price);
                    &&& payout > ob.bond_balance ==> r == Err::<u128, BondError>(
                        BondError::BondTooLarge,
                    ) && *final(self) == *old(self)
                    &&& payout <= ob.bond_balance ==> ({
                        &&& r == Ok::<u128, BondError>(payout as u128)
                        &&& final(self).owner() == old(self).owner()
                        &&& final(self).bonds() == old(self).bonds().insert(
                            token_payment@,
                            final(self).bonds()[token_payment@],
                        )
                        &&& deposit_applied(
                            ob,
                            final(self).bonds()[token_payment@],
                            sender@,
                            amount,
                            price as u128,
                            payout as u128,
                            now,
                        )
                    })
                })
            }),
    {
        let supply_ok: u128;
        {
            let bond = match self.bond_data.get(token_payment) {
                Option::None => {
                    return Err(BondError::UnknownBond);
                },
                Option::Some(b) => b,
            };
            let supply = match supply_result {
                Option::None => {
                    return Err(BondError::SupplyQueryFailed);
                },
                Option::Some(s) => s,
            };
            if supply == 0 {
                return Err(BondError::DivisionByZero);
            }
            let bond_price = match bond.get_bond_price(supply, now) {
                Result::Err(_) => vstd::pervasive::unreached(),
                Result::Ok(p) => p,
            };
            if bond_price == 0 {
                return Err(BondError::DivisionByZero);
            }
            let payout = amount * DECIMAL / bond_price;
            if payout > bond.bond_balance {
                return Err(BondError::BondTooLarge);
            }
            supply_ok = supply;
        }
        // Accepted: apply every mutation of the deposit.
        let mut bond = match self.bond_data.remove(token_payment) {
            Option::Some(b) => b,
            Option::None => vstd::pervasive::unreached(),
        };
        let bond_price = match bond.get_bond_price(supply_ok, now) {
            Result::Ok(p) => p,
            Result::Err(_) => vstd::pervasive::unreached(),
        };
        let payout = amount * DECIMAL / bond_price;
        bond.total_debt = bond.total_debt + amount;
        let ghost holders0 = bond.bond_holder@;
        let holder: Bond = match bond.bond_holder.remove(sender) {
            Option::None => Bond {
                value_remaining: amount,
                payout_remaining: payout,
                vesting_period: bond.terms.vesting_term,
                last_time: now,
                price_paid: bond_price,
            },
            Option::Some(prev) => Bond {
                value_remaining: prev.value_remaining + amount,
                payout_remaining: prev.payout_remaining + payout,
                vesting_period: bond.terms.vesting_term,
                last_time: now,
                price_paid: bond_price,
            },
        };
        let ghost gholder = holder;
        bond.bond_balance = bond.bond_balance - payout;
        bond.bond_holder.insert(sender.clone(), holder);
        proof {
            assert(bond.bond_holder@ =~= holders0.insert(sender@, gholder));
        }
        bond.total_deposit = bond.total_deposit + amount;
        bond.last_decay = now;
        bond.bond_sold = bond.bond_sold + payout;
        self.bond_data.insert(token_payment.clone(), bond);
        proof {
            let tok = token_payment@;
            assert(self.bonds() =~= old(self).bonds().insert(tok, self.bonds()[tok]));
        }
        Ok(payout)
    }

    /// Vested percentage, in basis points and uncapped, that `sender` reads
    /// at `current_time` in the bond of `token_payment`.
    pub fn percent_vested(
        &self,
        sender: &String,
        current_time: u64,
        token_payment: &String,
    ) -> (r: Result<u128, BondError>)
        requires
            self.has_holder(token_payment@, sender@) ==> current_time >= self.holder_at(
                token_payment@,
                sender@,
            ).last_time,
        ensures
            !self.bonds().dom().contains(token_payment@) ==> r == Err::<u128, BondError>(
                BondError::UnknownBond,
            ),
            self.bonds().dom().contains(token_payment@) && !self.has_holder(
                token_payment@,
                sender@,
            ) ==> r == Err::<u128, BondError>(BondError::NoBondHolder),
            self.has_holder(token_payment@, sender@) ==> r == Ok::<u128, BondError>(
                self.percent_at(token_payment@, sender@, current_time) as u128,
            ),
    {
        let bond = match self.bond_data.get(token_payment) {
            Option::None => {
                return Err(BondError::UnknownBond);
            },
            Option::Some(b) => b,
        };
        let holder = match bond.bond_holder.get(sender) {
            Option::None => {
                return Err(BondError::NoBondHolder);
            },
            Option::Some(h) => *h,
        };
        let time_since_last: u64 = current_time - holder.last_time;
        let mut percent: u128 = 0;
        if holder.vesting_period > 0 {
            percent = (time_since_last as u128) * 10000 / (holder.vesting_period as u128);
        }
        Ok(percent)
    }

    /// Payout `sender` could claim at `current_time` from the bond of
    /// `token_payment`: everything still owed once fully vested, else the
    /// vested fraction of it.
    pub fn pending_payout(
        &self,
        sender: &String,
        current_time: u64,
        token_payment: &String,
    ) -> (r: Result<u128, BondError>)
        requires
            self.has_holder(token_payment@, sender@) ==> current_time >= self.holder_at(
                token_payment@,
                sender@,
            ).last_time,
            (self.has_holder(token_payment@, sender@) && self.percent_at(
                token_payment@,
                sender@,
                current_time,
            ) < 10000) ==> self.holder_at(token_payment@, sender@).payout_remaining
                * self.percent_at(token_payment@, sender@, current_time) <= u128::MAX,
        ensures
            !self.bonds().dom().contains(token_payment@) ==> r == Err::<u128, BondError>(
                BondError::UnknownBond,
            ),
            self.bonds().dom().contains(token_payment@) && !self.has_holder(
                token_payment@,
                sender@,
            ) ==> r == Err::<u128, BondError>(BondError::NoBondHolder),
            self.has_holder(token_payment@, sender@) ==> r == Ok::<u128, BondError>(
                pending_spec(
                    self.holder_at(token_payment@, sender@).payout_remaining as int,
                    self.percent_at(token_payment@, sender@, current_time),
                ) as u128,
            ),
    {
        let bond = match self.bond_data.get(token_payment) {
            Option::None => {
                return Err(BondError::UnknownBond);
            },
            Option::Some(b) => b,
        };
        let holder = match bond.bond_holder.get(sender) {
            Option::None => {
                return Err(BondError::NoBondHolder);
            },
            Option::Some(h) => *h,
        };
        let percent = match self.percent_vested(sender, current_time, token_payment) {
            Result::Ok(p) => p,
            Result::Err(_) => vstd::pervasive::unreached(),
        };
        if percent >= 10000 {
            Ok(holder.payout_remaining)
        } else {
            Ok(holder.payout_remaining * percent / 10000)
        }
    }

    /// Request half of the redeem workflow: computes the payout claimable at
    /// `current_time` and asks the host to mint it to `sender` on the
    /// returned payout asset and then to call `redeem_callback` with the
    /// same captured `current_time`; no state changes.
    pub fn redeem(&self, sender: &String, token_payment: &String, current_time: u64) -> (r: Result<
        (String, u128),
        BondError,
    >)
        requires
            self.has_holder(token_payment@, sender@) ==> current_time >= self.holder_at(
                token_payment@,
                sender@,
            ).last_time,
            (self.has_holder(token_payment@, sender@) && self.percent_at(
                token_payment@,
                sender@,
                current_time,
            ) < 10000) ==> self.holder_at(token_payment@, sender@).payout_remaining
                * self.percent_at(token_payment@, sender@, current_time) <= u128::MAX,
        ensures
            !self.bonds().dom().contains(token_payment@) ==> r == Err::<(String, u128), BondError>(
                BondError::UnknownBond,
            ),
            self.bonds().dom().contains(token_payment@) && !self.has_holder(
                token_payment@,
                sender@,
            ) ==> r == Err::<(String, u128), BondError>(BondError::NoBondHolder),
            self.has_holder(token_payment@, sender@) ==> (r matches Ok(a) && a.0@
                == self.bonds()[token_payment@].token_pure@ && a.1 == pending_spec(
                self.holder_at(token_payment@, sender@).payout_remaining as int,
                self.percent_at(token_payment@, sender@, current_time),
            ) as u128),
    {
        let bond = match self.bond_data.get(token_payment) {
            Option::None => {
                return Err(BondError::UnknownBond);
            },
            Option::Some(b) => b,
        };
        let token_pure = bond.token_pure.clone();
        let pending = match self.pending_payout(sender, current_time, token_payment) {
            Result::Ok(p) => p,
            Result::Err(e) => {
                return Err(e);
            },
        };
        Ok((token_pure, pending))
    }

    /// Completion half of the redeem workflow. With a successful mint it
    /// replays the captured `current_time` into the vesting computation,
    /// releases the vested principal, debits the minted payout from what is
    /// owed, and restarts the bond's decay clock; with a failed mint, or on
    /// any rejection, nothing changes.
    pub fn redeem_callback(
        &mut self,
        sender: &String,
        current_time: u64,
        token_payment: &String,
        mint_amount: u128,
        success: bool,
        now: u64,
    ) -> (r: Result<(), BondError>)
        requires
            (success && old(self).has_holder(token_payment@, sender@)) ==> ({
                let ob = old(self).bonds()[token_payment@];
                let h = ob.bond_holder@[sender@];
                &&& current_time >= h.last_time
                &&& (old(self).percent_at(token_payment@, sender@, current_time) < 10000 ==> h.value_remaining
                    * old(self).percent_at(token_payment@, sender@, current_time) <= u128::MAX)
                &&& redeem_value_spec(h, current_time) <= ob.total_debt
            }),
        ensures
            !success ==> r == Err::<(), BondError>(BondError::MintFailed) && *final(self) == *old(
                self,
            ),
            success && !old(self).bonds().dom().contains(token_payment@) ==> r == Err::<
                (),
                BondError,
            >(BondError::UnknownBond) && *final(self) == *old(self),
            success && old(self).bonds().dom().contains(token_payment@) && !old(self).has_holder(
                token_payment@,
                sender@,
            ) ==> r == Err::<(), BondError>(BondError::NoBondHolder) && *final(self) == *old(self),
            (success && old(self).has_holder(token_payment@, sender@)) ==> ({
                let ob = old(self).bonds()[token_payment@];
                let h = ob.bond_holder@[sender@];
                &&& mint_amount > h.payout_remaining ==> r == Err::<(), BondError>(
                    BondError::MintExceedsPayout,
                ) && *final(self) == *old(self)
                &&& mint_amount <= h.payout_remaining ==> ({
                    &&& r == Ok::<(), BondError>(())
                    &&& final(self).owner() == old(self).owner()
                    &&& final(self).bonds() == old(self).bonds().insert(
                        token_payment@,
                        final(self).bonds()[token_payment@],
                    )
                    &&& redeem_applied(
                        ob,
                        final(self).bonds()[token_payment@],
                        sender@,
                        current_time,
                        mint_amount,
                        now,
                    )
                })
            }),
    {
        if !success {
            return Err(BondError::MintFailed);
        }
        let percent = match self.percent_vested(sender, current_time, token_payment) {
            Result::Ok(p) => p,
            Result::Err(e) => {
                return Err(e);
            },
        };
        {
            let bond = match self.bond_data.get(token_payment) {
                Option::None => vstd::pervasive::unreached(),
                Option::Some(b) => b,
            };
            let holder = match bond.bond_holder.get(sender) {
                Option::None => vstd::pervasive::unreached(),
                Option::Some(h) => *h,
            };
            if mint_amount > holder.payout_remaining {
                return Err(BondError::MintExceedsPayout);
            }
        }
        let mut bond = match self.bond_data.remove(token_payment) {
            Option::Some(b) => b,
            Option::None => vstd::pervasive::unreached(),
        };
        let ghost holders0 = bond.bond_holder@;
        let mut holder = match bond.bond_holder.remove(sender) {
            Option::Some(h) => h,
            Option::None => vstd::pervasive::unreached(),
        };
        let mut value = holder.value_remaining;
        if percent < 10000 {
            value = value * percent / 10000;
            proof {
                lemma_fraction_le(holder.value_remaining as int, percent as int);
            }
        }
        holder.set_bond(
            holder.value_remaining - value,
            holder.payout_remaining - mint_amount,
            bond.terms.vesting_term,
            current_time,
            holder.price_paid,
        );
        let ghost gholder = holder;
        bond.bond_holder.insert(sender.clone(), holder);
        proof {
            assert(bond.bond_holder@ =~= holders0.insert(sender@, gholder));
        }
        bond.last_decay = now;
        bond.total_debt = bond.total_debt - value;
        self.bond_data.insert(token_payment.clone(), bond);
        proof {
            let tok = token_payment@;
            assert(self.bonds() =~= old(self).bonds().insert(tok, self.bonds()[tok]));
        }
        Ok(())
    }

    /// Owner-side override of a bond's vesting term; everything else of the
    /// bond is left as it stands. (Authenticating the caller as the contract
    /// itself is the host's concern.)
    pub fn set_vesting_period(&mut self, token_payment: &String, time_vesting: u64) -> (r: Result<
        (),
        BondError,
    >)
        ensures
            !old(self).bonds().dom().contains(token_payment@) ==> r == Err::<(), BondError>(
                BondError::UnknownBond,
            ) && *final(self) == *old(self),
            old(self).bonds().dom().contains(token_payment@) ==> ({
                &&& r == Ok::<(), BondError>(())
                &&& final(self).owner() == old(self).owner()
                &&& final(self).bonds() == old(self).bonds().insert(
                    token_payment@,
                    final(self).bonds()[token_payment@],
                )
                &&& final(self).bonds()[token_payment@] == (BondData {
                    terms: (Terms {
                        vesting_term: time_vesting,
                        ..old(self).bonds()[token_payment@].terms
                    }),
                    ..old(self).bonds()[token_payment@]
                })
            }),
    {
        let mut bond = match self.bond_data.remove(token_payment) {
            Option::None => {
                return Err(BondError::UnknownBond);
            },
            Option::Some(b) => b,
        };
        bond.terms.vesting_term = time_vesting;
        self.bond_data.insert(token_payment.clone(), bond);
        proof {
            let tok = token_payment@;
            assert(self.bonds() =~= old(self).bonds().insert(tok, self.bonds()[tok]));
        }
        Ok(())
    }

    /// Current price of the bond of `token_payment` for an externally
    /// supplied payout-asset supply figure.
    pub fn get_bond_price(&self, token_payment: &String, token_pure_supply: u128, now: u64) -> (r:
        Result<u128, BondError>)
        requires
            self.bonds().dom().contains(token_payment@) ==> self.bonds()[token_payment@].price_fits(
                token_pure_supply,
                now,
            ),
        ensures
            !self.bonds().dom().contains(token_payment@) ==> r == Err::<u128, BondError>(
                BondError::UnknownBond,
            ),
            self.bonds().dom().contains(token_payment@) && token_pure_supply == 0 ==> r == Err::<
                u128,
                BondError,
            >(BondError::DivisionByZero),
            self.bonds().dom().contains(token_payment@) && token_pure_supply > 0 ==> r == Ok::<
                u128,
                BondError,
            >(self.bonds()[token_payment@].price_at(token_pure_supply, now) as u128)
                && self.bonds()[token_payment@].price_at(token_pure_supply, now)
                >= self.bonds()[token_payment@].terms.minimum_price,
    {
        let bond = match self.bond_data.get(token_payment) {
            Option::None => {
                return Err(BondError::UnknownBond);
            },
            Option::Some(b) => b,
        };
        bond.get_bond_price(token_pure_supply, now)
    }

    /// The holder entry of `sender` in the bond of `token_payment`.
    pub fn get_bond_holder(&self, token_payment: &String, sender: &String) -> (r: Result<
        Bond,
        BondError,
    >)
        ensures
            !self.bonds().dom().contains(token_payment@) ==> r == Err::<Bond, BondError>(
                BondError::UnknownBond,
            ),
            self.bonds().dom().contains(token_payment@) && !self.has_holder(
                token_payment@,
                sender@,
            ) ==> r == Err::<Bond, BondError>(BondError::NoBondHolder),
            self.has_holder(token_payment@, sender@) ==> r == Ok::<Bond, BondError>(
                self.holder_at(token_payment@, sender@),
            ),
    {
        let bond = match self.bond_data.get(token_payment) {
            Option::None => {
                return Err(BondError::UnknownBond);
            },
            Option::Some(b) => b,
        };
        match bond.bond_holder.get(sender) {
            Option::None => Err(BondError::NoBondHolder),
            Option::Some(h) => Ok(*h),
        }
    }

    /// Cumulative principal ever deposited into the bond of
    /// `token_payment`.
    pub fn get_total_deposit(&self, token_payment: &String) -> (r: Result<u128, BondError>)
        ensures
            !self.bonds().dom().contains(token_payment@) ==> r == Err::<u128, BondError>(
                BondError::UnknownBond,
            ),
            self.bonds().dom().contains(token_payment@) ==> r == Ok::<u128, BondError>(
                self.bonds()[token_payment@].total_deposit,
            ),
    {
        match self.bond_data.get(token_payment) {
            Option::None => Err(BondError::UnknownBond),
            Option::Some(b) => Ok(b.total_deposit),
        }
    }

    /// Payout-asset balance the bond of `token_payment` still has for sale.
    pub fn get_bond_balance(&self, token_payment: &String) -> (r: Result<u128, BondError>)
        ensures
            !self.bonds().dom().contains(token_payment@) ==> r == Err::<u128, BondError>(
                BondError::UnknownBond,
            ),
            self.bonds().dom().contains(token_payment@) ==> r == Ok::<u128, BondError>(
                self.bonds()[token_payment@].bond_balance,
            ),
    {
        match self.bond_data.get(token_payment) {
            Option::None => Err(BondError::UnknownBond),
            Option::Some(b) => Ok(b.bond_balance),
        }
    }
}

} // verus!
