//! A user's staking summary and open orders, and the user group of
//! measurements.
use vstd::prelude::*;
use crate::decimal::{float_literal, Decimal};
use crate::error::{AdapterError, Field};
use crate::portfolio::{current_values, daily_current, strict_decimal, PortfolioEntry};

verus! {

/// Staked funds of a user, as decimal strings.
pub struct UserStakingSummary {
    pub delegated: String,
    pub undelegated: String,
    pub total_pending_withdrawal: String,
    pub n_pending_withdrawals: i64,
}

/// One open order of a user.
pub struct OpenOrders {
    pub coin: String,
    pub limit_px: String,
    pub oid: i64,
    pub side: String,
    pub sz: String,
    pub timestamp: i64,
}

/// The user group of measurements. The open orders' notional value is the
/// sum of `price * size` over `priced_orders`.
pub struct UserRecord {
    pub account_value: Decimal,
    pub pnl: Decimal,
    pub staking_delegated: Decimal,
    pub staking_undelegated: Decimal,
    pub staking_pending_withdrawal: Decimal,
    pub num_open_orders: usize,
    pub priced_orders: Vec<(Decimal, Decimal)>,
}

/// `(price, size)` of the orders whose price and size both parse, in order.
pub open spec fn priced(orders: Seq<OpenOrders>) -> Seq<(Seq<char>, Seq<char>)>
    decreases orders.len(),
{
    if orders.len() == 0 {
        seq![]
    } else {
        let o = orders.last();
        let rest = priced(orders.drop_last());
        if float_literal(o.limit_px@) && float_literal(o.sz@) {
            rest.push((o.limit_px@, o.sz@))
        } else {
            rest
        }
    }
}

pub open spec fn pairs_view(v: Seq<(Decimal, Decimal)>) -> Seq<(Seq<char>, Seq<char>)> {
    v.map_values(|p: (Decimal, Decimal)| (p.0@, p.1@))
}

impl UserRecord {
    pub open spec fn is_zero(&self) -> bool {
        &&& self.account_value@ == seq!['0']
        &&& self.pnl@ == seq!['0']
        &&& self.staking_delegated@ == seq!['0']
        &&& self.staking_undelegated@ == seq!['0']
        &&& self.staking_pending_withdrawal@ == seq!['0']
        &&& self.num_open_orders == 0
        &&& self.priced_orders@.len() == 0
    }

    /// The group of a user who is unconfigured or could not be read.
    pub fn zeroed() -> (r: UserRecord)
        ensures
            r.is_zero(),
    {
        UserRecord {
            account_value: Decimal::zero(),
            pnl: Decimal::zero(),
            staking_delegated: Decimal::zero(),
            staking_undelegated: Decimal::zero(),
            staking_pending_withdrawal: Decimal::zero(),
            num_open_orders: 0,
            priced_orders: Vec::new(),
        }
    }
}

/// The first decimal string of the staking summary that does not parse.
pub open spec fn staking_fault(s: UserStakingSummary) -> Option<Field> {
    if !float_literal(s.delegated@) {
        Some(Field::StakingDelegated)
    } else if !float_literal(s.undelegated@) {
        Some(Field::StakingUndelegated)
    } else if !float_literal(s.total_pending_withdrawal@) {
        Some(Field::StakingPendingWithdrawal)
    } else {
        None
    }
}

/// The orders whose price and size both parse; the others are left out.
pub fn priced_orders(orders: &Vec<OpenOrders>) -> (r: Vec<(Decimal, Decimal)>)
    ensures
        pairs_view(r@) == priced(orders@),
{
    let mut out: Vec<(Decimal, Decimal)> = Vec::new();
    let mut i: usize = 0;
    while i < orders.len()
        invariant
            i <= orders@.len(),
            pairs_view(out@) == priced(orders@.take(i as int)),
        decreases orders.len() - i,
    {
        proof {
            assert(orders@.take(i + 1).drop_last() =~= orders@.take(i as int));
            assert(orders@.take(i + 1).last() == orders@[i as int]);
        }
        let o = &orders[i];
        match (Decimal::parse(o.limit_px.as_str()), Decimal::parse(o.sz.as_str())) {
            (Some(px), Some(sz)) => {
                let ghost before = out@;
                out.push((px, sz));
                assert(pairs_view(out@) =~= pairs_view(before).push((o.limit_px@, o.sz@)));
            },
            _ => {},
        }
        i = i + 1;
    }
    assert(orders@.take(i as int) =~= orders@);
    out
}

/// The user group from the user's portfolio, staking summary and open
/// orders. Portfolio faults come first, then the staking strings in order.
pub fn user_record(
    portfolio: &Vec<PortfolioEntry>,
    staking: &UserStakingSummary,
    orders: &Vec<OpenOrders>,
) -> (r: Result<UserRecord, AdapterError>)
    ensures
        match daily_current(portfolio@) {
            Err(e) => r matches Err(x) && x == e,
            Ok((av, pnl)) => if !float_literal(av) {
                r matches Err(x) && x == AdapterError::NumericParse(Field::AccountValue)
            } else if !float_literal(pnl) {
                r matches Err(x) && x == AdapterError::NumericParse(Field::Pnl)
            } else {
                match staking_fault(*staking) {
                    Some(f) => r matches Err(x) && x == AdapterError::NumericParse(f),
                    None => r matches Ok(u) && {
                        &&& u.account_value@ == av
                        &&& u.pnl@ == pnl
                        &&& u.staking_delegated@ == staking.delegated@
                        &&& u.staking_undelegated@ == staking.undelegated@
                        &&& u.staking_pending_withdrawal@ == staking.total_pending_withdrawal@
                        &&& u.num_open_orders == orders@.len()
                        &&& pairs_view(u.priced_orders@) == priced(orders@)
                    },
                }
            },
        },
{
    let (account_value, pnl) = current_values(portfolio)?;
    let delegated = strict_decimal(staking.delegated.as_str(), Field::StakingDelegated)?;
    let undelegated = strict_decimal(staking.undelegated.as_str(), Field::StakingUndelegated)?;
    let pending = strict_decimal(
        staking.total_pending_withdrawal.as_str(),
        Field::StakingPendingWithdrawal,
    )?;
    Ok(
        UserRecord {
            account_value,
            pnl,
            staking_delegated: delegated,
            staking_undelegated: undelegated,
            staking_pending_withdrawal: pending,
            num_open_orders: orders.len(),
            priced_orders: priced_orders(orders),
        },
    )
}

} // verus!
