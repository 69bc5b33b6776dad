//! Why an adapter could not produce its record.
use vstd::prelude::*;

verus! {

/// The response field that an error is about.
#[derive(Debug, Clone, Copy, PartialEq, Eq, Structural)]
pub enum Field {
    Price,
    Marketcap,
    FullyDilutedValuation,
    TotalValueLocked,
    CirculatingSupply,
    TotalSupply,
    AccountValue,
    Pnl,
    StakingDelegated,
    StakingUndelegated,
    StakingPendingWithdrawal,
}

/// Failure of one source adapter. Each is caught by the aggregator and
/// replaced by its group's defaults.
#[derive(Debug)]
pub enum AdapterError {
    /// The request could not be sent or its answer not received.
    Transport(String),
    /// The answer was not the JSON that the request expects.
    Decode(String),
    /// A required field is absent or of the wrong kind.
    MissingOrWrongType(Field),
    /// A JSON-RPC answer has no string `result`.
    MissingField,
    /// The portfolio has no entry for the period `day`.
    NoDailyPeriod,
    /// The named history of the daily entry is empty.
    EmptyHistory(Field),
    /// The named decimal string is not a number.
    NumericParse(Field),
    /// A JSON-RPC `result` is not a hex quantity.
    InvalidHex,
}

} // verus!
