//! Vault details as the info endpoint reports them, and the vault group of
//! measurements taken from them.
use vstd::prelude::*;
use crate::decimal::{float_literal, Decimal};
use crate::error::{AdapterError, Field};
use crate::json::{Number, NumberView};
use crate::portfolio::{current_values, daily_current, PortfolioEntry};

verus! {

pub struct Follower {
    pub user: String,
    pub vault_equity: String,
    pub pnl: String,
    pub all_time_pnl: String,
    pub days_following: i64,
    pub vault_entry_time: u64,
    pub lockup_until: u64,
}

pub struct RelationshipData {
    pub child_addresses: Vec<String>,
}

pub struct Relationship {
    pub kind: String,
    pub data: RelationshipData,
}

/// A vault's details; the numeric fields are kept as the numbers received.
pub struct VaultDetails {
    pub name: String,
    pub vault_address: String,
    pub leader: String,
    pub description: String,
    pub portfolio: Vec<PortfolioEntry>,
    pub apr: Number,
    pub follower_state: Option<String>,
    pub leader_fraction: Number,
    pub leader_commission: Number,
    pub followers: Vec<Follower>,
    pub max_distributable: Number,
    pub max_withdrawable: Number,
    pub is_closed: bool,
    pub relationship: Relationship,
    pub allow_deposits: bool,
    pub always_close_on_withdraw: bool,
}

/// The vault group of measurements.
pub struct VaultRecord {
    pub value: Decimal,
    pub pnl: Decimal,
    pub apr: Number,
    pub leader_fraction: Number,
    pub leader_commission: Number,
    pub num_followers: usize,
    pub max_distributable: Number,
    pub max_withdrawable: Number,
    pub is_closed: bool,
    pub allow_deposits: bool,
}

impl VaultRecord {
    pub open spec fn is_zero(&self) -> bool {
        &&& self.value@ == seq!['0']
        &&& self.pnl@ == seq!['0']
        &&& self.apr@ == NumberView::PosInt(0)
        &&& self.leader_fraction@ == NumberView::PosInt(0)
        &&& self.leader_commission@ == NumberView::PosInt(0)
        &&& self.num_followers == 0
        &&& self.max_distributable@ == NumberView::PosInt(0)
        &&& self.max_withdrawable@ == NumberView::PosInt(0)
        &&& !self.is_closed
        &&& !self.allow_deposits
    }

    /// The group of a vault that is unconfigured or could not be read.
    pub fn zeroed() -> (r: VaultRecord)
        ensures
            r.is_zero(),
    {
        VaultRecord {
            value: Decimal::zero(),
            pnl: Decimal::zero(),
            apr: Number::zero(),
            leader_fraction: Number::zero(),
            leader_commission: Number::zero(),
            num_followers: 0,
            max_distributable: Number::zero(),
            max_withdrawable: Number::zero(),
            is_closed: false,
            allow_deposits: false,
        }
    }

    /// The record holds `d`'s figures, with `av` and `pnl` as its current
    /// account value and pnl.
    pub open spec fn reads(&self, d: VaultDetails, av: Seq<char>, pnl: Seq<char>) -> bool {
        &&& self.value@ == av
        &&& self.pnl@ == pnl
        &&& self.apr@ == d.apr@
        &&& self.leader_fraction@ == d.leader_fraction@
        &&& self.leader_commission@ == d.leader_commission@
        &&& self.num_followers == d.followers@.len()
        &&& self.max_distributable@ == d.max_distributable@
        &&& self.max_withdrawable@ == d.max_withdrawable@
        &&& self.is_closed == d.is_closed
        &&& self.allow_deposits == d.allow_deposits
    }
}

/// The vault group of `details`: current value and pnl by the max-timestamp
/// rule on the daily entry, the other figures as reported.
pub fn vault_record(details: &VaultDetails) -> (r: Result<VaultRecord, AdapterError>)
    ensures
        match daily_current(details.portfolio@) {
            Err(e) => r matches Err(x) && x == e,
            Ok((av, pnl)) => if !float_literal(av) {
                r matches Err(x) && x == AdapterError::NumericParse(Field::AccountValue)
            } else if !float_literal(pnl) {
                r matches Err(x) && x == AdapterError::NumericParse(Field::Pnl)
            } else {
                r matches Ok(v) && v.reads(*details, av, pnl)
            },
        },
{
    let (value, pnl) = current_values(&details.portfolio)?;
    Ok(
        VaultRecord {
            value,
            pnl,
            apr: details.apr.clone(),
            leader_fraction: details.leader_fraction.clone(),
            leader_commission: details.leader_commission.clone(),
            num_followers: details.followers.len(),
            max_distributable: details.max_distributable.clone(),
            max_withdrawable: details.max_withdrawable.clone(),
            is_closed: details.is_closed,
            allow_deposits: details.allow_deposits,
        },
    )
}

} // verus!
