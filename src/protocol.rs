//! Protocol-wide figures: chain height and fee, the reference fund's account
//! value, and the number of listed spot and perp tokens.
use vstd::prelude::*;
use crate::decimal::{float_literal, Decimal};
use crate::error::{AdapterError, Field};
use crate::portfolio::{current_account_value, daily_account_value, PortfolioEntry};

verus! {

pub struct SpotToken {
    pub name: String,
    pub sz_decimals: u8,
    pub wei_decimals: u8,
    pub index: u32,
    pub token_id: String,
    pub is_canonical: bool,
    pub evm_contract: Option<String>,
    pub full_name: Option<String>,
}

pub struct SpotUniversePair {
    pub name: String,
    pub tokens: Vec<u32>,
    pub index: u32,
    pub is_canonical: bool,
}

/// The spot markets' metadata.
pub struct SpotMetaData {
    pub tokens: Vec<SpotToken>,
    pub universe: Vec<SpotUniversePair>,
}

pub struct PerpUniverseItem {
    pub name: String,
    pub sz_decimals: u8,
    pub max_leverage: u32,
    pub only_isolated: Option<bool>,
    pub is_delisted: Option<bool>,
}

pub struct MarginTier {
    pub lower_bound: String,
    pub max_leverage: u32,
}

pub struct MarginTable {
    pub description: String,
    pub margin_tiers: Vec<MarginTier>,
}

pub struct MarginTableEntry(pub u32, pub MarginTable);

/// The perpetual markets' metadata.
pub struct PerpMetaData {
    pub universe: Vec<PerpUniverseItem>,
    pub margin_tables: Vec<MarginTableEntry>,
}

/// The protocol group of measurements.
pub struct ProtocolRecord {
    pub block_number: u64,
    pub base_fee: u64,
    pub reference_fund_value: Decimal,
    pub num_spot_tokens: usize,
    pub num_perp_tokens: usize,
}

impl ProtocolRecord {
    pub open spec fn is_zero(&self) -> bool {
        &&& self.block_number == 0
        &&& self.base_fee == 0
        &&& self.reference_fund_value@ == seq!['0']
        &&& self.num_spot_tokens == 0
        &&& self.num_perp_tokens == 0
    }

    /// The group when the chain key is unconfigured or a source failed.
    pub fn zeroed() -> (r: ProtocolRecord)
        ensures
            r.is_zero(),
    {
        ProtocolRecord {
            block_number: 0,
            base_fee: 0,
            reference_fund_value: Decimal::zero(),
            num_spot_tokens: 0,
            num_perp_tokens: 0,
        }
    }
}

/// A perp market counts unless it is explicitly marked delisted.
pub open spec fn is_listed(p: PerpUniverseItem) -> bool {
    p.is_delisted != Some(true)
}

/// Number of listed markets in `u`.
pub open spec fn listed_count(u: Seq<PerpUniverseItem>) -> nat
    decreases u.len(),
{
    if u.len() == 0 {
        0
    } else {
        listed_count(u.drop_last()) + if is_listed(u.last()) {
            1nat
        } else {
            0nat
        }
    }
}

proof fn lemma_listed_count_bound(u: Seq<PerpUniverseItem>)
    ensures
        listed_count(u) <= u.len(),
    decreases u.len(),
{
    if u.len() > 0 {
        lemma_listed_count_bound(u.drop_last());
    }
}

/// Counts the perp markets that are not marked delisted; a missing mark
/// counts as listed.
pub fn count_listed(universe: &Vec<PerpUniverseItem>) -> (r: usize)
    ensures
        r == listed_count(universe@),
{
    let mut n: usize = 0;
    let mut i: usize = 0;
    while i < universe.len()
        invariant
            i <= universe@.len(),
            n == listed_count(universe@.take(i as int)),
        decreases universe.len() - i,
    {
        proof {
            assert(universe@.take(i + 1).drop_last() =~= universe@.take(i as int));
            assert(universe@.take(i + 1).last() == universe@[i as int]);
            lemma_listed_count_bound(universe@.take(i as int));
        }
        let listed = match universe[i].is_delisted {
            Some(true) => false,
            _ => true,
        };
        if listed {
            n = n + 1;
        }
        i = i + 1;
    }
    assert(universe@.take(i as int) =~= universe@);
    n
}

/// The protocol group from the node's two answers, the reference fund's
/// portfolio and the spot and perp metadata.
pub fn protocol_record(
    block_number: u64,
    base_fee: u64,
    fund_portfolio: &Vec<PortfolioEntry>,
    spot: &SpotMetaData,
    perp: &PerpMetaData,
) -> (r: Result<ProtocolRecord, AdapterError>)
    ensures
        match daily_account_value(fund_portfolio@) {
            Err(e) => r matches Err(x) && x == e,
            Ok(av) => if !float_literal(av) {
                r matches Err(x) && x == AdapterError::NumericParse(Field::AccountValue)
            } else {
                r matches Ok(p) && {
                    &&& p.block_number == block_number
                    &&& p.base_fee == base_fee
                    &&& p.reference_fund_value@ == av
                    &&& p.num_spot_tokens == spot.tokens@.len()
                    &&& p.num_perp_tokens == listed_count(perp.universe@)
                }
            },
        },
{
    let value = current_account_value(fund_portfolio)?;
    Ok(
        ProtocolRecord {
            block_number,
            base_fee,
            reference_fund_value: value,
            num_spot_tokens: spot.tokens.len(),
            num_perp_tokens: count_listed(&perp.universe),
        },
    )
}

} // verus!
