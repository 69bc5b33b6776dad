//! The fixed set of instruments and the value that each takes from a
//! snapshot.
use vstd::prelude::*;
use crate::decimal::Decimal;
use crate::json::{Number, NumberView};
use crate::snapshot::MetricSnapshot;
use crate::user::pairs_view;

verus! {

/// Number of instruments.
pub const INSTRUMENT_COUNT: usize = 28;

/// The instruments' names, in the order of [`readings`].
pub open spec fn instrument_names_spec() -> Seq<Seq<char>> {
    seq![
        "hyperliquid_price"@,
        "hyperliquid_marketcap"@,
        "hyperliquid_fdv"@,
        "hyperliquid_tvl"@,
        "hyperliquid_circulating_supply"@,
        "hyperliquid_total_supply"@,
        "hyperliquid_block_number"@,
        "hyperliquid_base_fee"@,
        "hyperliquid_af_account_value"@,
        "hyperliquid_num_spot_tokens"@,
        "hyperliquid_num_perp_tokens"@,
        "vault_value"@,
        "vault_pnl"@,
        "vault_apr"@,
        "vault_leader_fraction"@,
        "vault_leader_comission"@,
        "vault_num_followers"@,
        "vault_max_distributable"@,
        "vault_max_withdrawable"@,
        "vault_is_closed"@,
        "vault_allow_deposits"@,
        "user_account_value"@,
        "user_pnl"@,
        "user_staking_delegated"@,
        "user_staking_undelegated"@,
        "user_staking_pending_withdrawal"@,
        "user_num_open_orders"@,
        "user_value_open_orders"@,
    ]
}

/// The value an instrument is set to.
pub enum Reading {
    /// The number itself.
    Value(Number),
    /// The sum of `price * size` over the pairs.
    ProductSum(Vec<(Decimal, Decimal)>),
}

pub enum ReadingView {
    Value(NumberView),
    ProductSum(Seq<(Seq<char>, Seq<char>)>),
}

impl View for Reading {
    type V = ReadingView;

    open spec fn view(&self) -> ReadingView {
        match self {
            Reading::Value(n) => ReadingView::Value(n@),
            Reading::ProductSum(v) => ReadingView::ProductSum(pairs_view(v@)),
        }
    }
}

/// A flag as a number: `1` when set, `0` when not.
pub open spec fn flag_number(b: bool) -> NumberView {
    NumberView::PosInt(if b { 1 } else { 0 })
}

/// A signed integer as JSON classes it.
pub open spec fn int_number(i: i64) -> NumberView {
    if i < 0 {
        NumberView::NegInt(i)
    } else {
        NumberView::PosInt(i as u64)
    }
}

fn flag_reading(b: bool) -> (r: Number)
    ensures
        r@ == flag_number(b),
{
    if b {
        Number::PosInt(1)
    } else {
        Number::PosInt(0)
    }
}

fn int_reading(i: i64) -> (r: Number)
    ensures
        r@ == int_number(i),
{
    if i < 0 {
        Number::NegInt(i)
    } else {
        Number::PosInt(i as u64)
    }
}

/// The value that instrument `i` takes from `s`.
pub open spec fn reading_of(s: MetricSnapshot, i: int) -> ReadingView {
    if i == 0 {
        ReadingView::Value(s.market.price@)
    } else if i == 1 {
        ReadingView::Value(int_number(s.market.marketcap))
    } else if i == 2 {
        ReadingView::Value(int_number(s.market.fully_diluted_valuation))
    } else if i == 3 {
        ReadingView::Value(int_number(s.market.total_value_locked))
    } else if i == 4 {
        ReadingView::Value(s.market.circulating_supply@)
    } else if i == 5 {
        ReadingView::Value(s.market.total_supply@)
    } else if i == 6 {
        ReadingView::Value(NumberView::PosInt(s.protocol.block_number))
    } else if i == 7 {
        ReadingView::Value(NumberView::PosInt(s.protocol.base_fee))
    } else if i == 8 {
        ReadingView::Value(NumberView::Float(s.protocol.reference_fund_value@))
    } else if i == 9 {
        ReadingView::Value(NumberView::PosInt(s.protocol.num_spot_tokens as u64))
    } else if i == 10 {
        ReadingView::Value(NumberView::PosInt(s.protocol.num_perp_tokens as u64))
    } else if i == 11 {
        ReadingView::Value(NumberView::Float(s.vault.value@))
    } else if i == 12 {
        ReadingView::Value(NumberView::Float(s.vault.pnl@))
    } else if i == 13 {
        ReadingView::Value(s.vault.apr@)
    } else if i == 14 {
        ReadingView::Value(s.vault.leader_fraction@)
    } else if i == 15 {
        ReadingView::Value(s.vault.leader_commission@)
    } else if i == 16 {
        ReadingView::Value(NumberView::PosInt(s.vault.num_followers as u64))
    } else if i == 17 {
        ReadingView::Value(s.vault.max_distributable@)
    } else if i == 18 {
        ReadingView::Value(s.vault.max_withdrawable@)
    } else if i == 19 {
        ReadingView::Value(flag_number(s.vault.is_closed))
    } else if i == 20 {
        ReadingView::Value(flag_number(s.vault.allow_deposits))
    } else if i == 21 {
        ReadingView::Value(NumberView::Float(s.user.account_value@))
    } else if i == 22 {
        ReadingView::Value(NumberView::Float(s.user.pnl@))
    } else if i == 23 {
        ReadingView::Value(NumberView::Float(s.user.staking_delegated@))
    } else if i == 24 {
        ReadingView::Value(NumberView::Float(s.user.staking_undelegated@))
    } else if i == 25 {
        ReadingView::Value(NumberView::Float(s.user.staking_pending_withdrawal@))
    } else if i == 26 {
        ReadingView::Value(NumberView::PosInt(s.user.num_open_orders as u64))
    } else {
        ReadingView::ProductSum(pairs_view(s.user.priced_orders@))
    }
}

fn push_name(v: &mut Vec<String>, name: &str)
    ensures
        final(v)@ == old(v)@.push(final(v)@.last()),
        final(v)@.last()@ == name@,
{
    v.push(String::from_str(name));
}

/// The names of all instruments.
pub fn instrument_names() -> (r: Vec<String>)
    ensures
        r@.len() == INSTRUMENT_COUNT,
        forall|i: int| 0 <= i < r@.len() ==> #[trigger] r@[i]@ == instrument_names_spec()[i],
{
    let mut v: Vec<String> = Vec::new();
    push_name(&mut v, "hyperliquid_price");
    push_name(&mut v, "hyperliquid_marketcap");
    push_name(&mut v, "hyperliquid_fdv");
    push_name(&mut v, "hyperliquid_tvl");
    push_name(&mut v, "hyperliquid_circulating_supply");
    push_name(&mut v, "hyperliquid_total_supply");
    push_name(&mut v, "hyperliquid_block_number");
    push_name(&mut v, "hyperliquid_base_fee");
    push_name(&mut v, "hyperliquid_af_account_value");
    push_name(&mut v, "hyperliquid_num_spot_tokens");
    push_name(&mut v, "hyperliquid_num_perp_tokens");
    push_name(&mut v, "vault_value");
    push_name(&mut v, "vault_pnl");
    push_name(&mut v, "vault_apr");
    push_name(&mut v, "vault_leader_fraction");
    push_name(&mut v, "vault_leader_comission");
    push_name(&mut v, "vault_num_followers");
    push_name(&mut v, "vault_max_distributable");
    push_name(&mut v, "vault_max_withdrawable");
    push_name(&mut v, "vault_is_closed");
    push_name(&mut v, "vault_allow_deposits");
    push_name(&mut v, "user_account_value");
    push_name(&mut v, "user_pnl");
    push_name(&mut v, "user_staking_delegated");
    push_name(&mut v, "user_staking_undelegated");
    push_name(&mut v, "user_staking_pending_withdrawal");
    push_name(&mut v, "user_num_open_orders");
    push_name(&mut v, "user_value_open_orders");
    assert forall|i: int| 0 <= i < v@.len() implies #[trigger] v@[i]@ == instrument_names_spec()[i] by {
    }
    v
}

fn push_reading(v: &mut Vec<Reading>, rd: Reading)
    ensures
        final(v)@ == old(v)@.push(rd),
{
    v.push(rd);
}

/// What each instrument is set to from `s`, in the order of
/// [`instrument_names`]. Every field goes to its own instrument, and a flag
/// becomes `0` or `1`.
pub fn readings(s: MetricSnapshot) -> (r: Vec<Reading>)
    ensures
        r@.len() == INSTRUMENT_COUNT,
        forall|i: int| 0 <= i < r@.len() ==> #[trigger] r@[i]@ == reading_of(s, i),
{
    let ghost g = s;
    let mut v: Vec<Reading> = Vec::new();
    push_reading(&mut v, Reading::Value(s.market.price));
    push_reading(&mut v, Reading::Value(int_reading(s.market.marketcap)));
    push_reading(&mut v, Reading::Value(int_reading(s.market.fully_diluted_valuation)));
    push_reading(&mut v, Reading::Value(int_reading(s.market.total_value_locked)));
    push_reading(&mut v, Reading::Value(s.market.circulating_supply));
    push_reading(&mut v, Reading::Value(s.market.total_supply));
    push_reading(&mut v, Reading::Value(Number::PosInt(s.protocol.block_number)));
    push_reading(&mut v, Reading::Value(Number::PosInt(s.protocol.base_fee)));
    push_reading(&mut v, Reading::Value(Number::Float(s.protocol.reference_fund_value)));
    push_reading(&mut v, Reading::Value(Number::PosInt(s.protocol.num_spot_tokens as u64)));
    push_reading(&mut v, Reading::Value(Number::PosInt(s.protocol.num_perp_tokens as u64)));
    push_reading(&mut v, Reading::Value(Number::Float(s.vault.value)));
    push_reading(&mut v, Reading::Value(Number::Float(s.vault.pnl)));
    push_reading(&mut v, Reading::Value(s.vault.apr));
    push_reading(&mut v, Reading::Value(s.vault.leader_fraction));
    push_reading(&mut v, Reading::Value(s.vault.leader_commission));
    push_reading(&mut v, Reading::Value(Number::PosInt(s.vault.num_followers as u64)));
    push_reading(&mut v, Reading::Value(s.vault.max_distributable));
    push_reading(&mut v, Reading::Value(s.vault.max_withdrawable));
    push_reading(&mut v, Reading::Value(flag_reading(s.vault.is_closed)));
    push_reading(&mut v, Reading::Value(flag_reading(s.vault.allow_deposits)));
    push_reading(&mut v, Reading::Value(Number::Float(s.user.account_value)));
    push_reading(&mut v, Reading::Value(Number::Float(s.user.pnl)));
    push_reading(&mut v, Reading::Value(Number::Float(s.user.staking_delegated)));
    push_reading(&mut v, Reading::Value(Number::Float(s.user.staking_undelegated)));
    push_reading(&mut v, Reading::Value(Number::Float(s.user.staking_pending_withdrawal)));
    push_reading(&mut v, Reading::Value(Number::PosInt(s.user.num_open_orders as u64)));
    push_reading(&mut v, Reading::ProductSum(s.user.priced_orders));
    assert forall|i: int| 0 <= i < v@.len() implies #[trigger] v@[i]@ == reading_of(g, i) by {
    }
    v
}

/// Both vault flags, like every flag, are set as exactly `0` or `1`, each on
/// its own instrument.
pub proof fn lemma_flags_are_zero_or_one(s: MetricSnapshot)
    ensures
        reading_of(s, 19) == ReadingView::Value(NumberView::PosInt(if s.vault.is_closed { 1 } else { 0 })),
        reading_of(s, 20) == ReadingView::Value(NumberView::PosInt(if s.vault.allow_deposits { 1 } else { 0 })),
        instrument_names_spec()[19] == "vault_is_closed"@,
        instrument_names_spec()[20] == "vault_allow_deposits"@,
{
}

} // verus!
