//! Token-market figures read from a market-data provider's coin document.
use vstd::prelude::*;
use crate::error::{AdapterError, Field};
use crate::json::{field, field_of, int_at, int_of, number_at, number_of, JsonValue, Number, NumberView};

verus! {

/// Price, capitalisations and supplies of the token, as the provider gave them.
pub struct MarketFigures {
    pub price: Number,
    pub marketcap: i64,
    pub fully_diluted_valuation: i64,
    pub total_value_locked: i64,
    pub circulating_supply: Number,
    pub total_supply: Number,
}

impl MarketFigures {
    /// The figures of a group whose source is unconfigured or failed.
    pub fn zeroed() -> (r: MarketFigures)
        ensures
            r.is_zero(),
    {
        MarketFigures {
            price: Number::zero(),
            marketcap: 0,
            fully_diluted_valuation: 0,
            total_value_locked: 0,
            circulating_supply: Number::zero(),
            total_supply: Number::zero(),
        }
    }

    pub open spec fn is_zero(&self) -> bool {
        &&& self.price@ == NumberView::PosInt(0)
        &&& self.marketcap == 0
        &&& self.fully_diluted_valuation == 0
        &&& self.total_value_locked == 0
        &&& self.circulating_supply@ == NumberView::PosInt(0)
        &&& self.total_supply@ == NumberView::PosInt(0)
    }
}

/// `doc["market_data"][key]`.
pub open spec fn market_entry(doc: JsonValue, key: Seq<char>) -> Option<JsonValue> {
    field_of(field_of(Some(doc), "market_data"@), key)
}

/// `doc["market_data"][key]["usd"]`.
pub open spec fn usd_entry(doc: JsonValue, key: Seq<char>) -> Option<JsonValue> {
    field_of(market_entry(doc, key), "usd"@)
}

/// The first of the six figures, in the order listed, that is missing or of
/// the wrong kind.
pub open spec fn market_fault(doc: JsonValue) -> Option<Field> {
    if number_of(usd_entry(doc, "current_price"@)) is None {
        Some(Field::Price)
    } else if int_of(usd_entry(doc, "market_cap"@)) is None {
        Some(Field::Marketcap)
    } else if int_of(usd_entry(doc, "fully_diluted_valuation"@)) is None {
        Some(Field::FullyDilutedValuation)
    } else if int_of(usd_entry(doc, "total_value_locked"@)) is None {
        Some(Field::TotalValueLocked)
    } else if number_of(market_entry(doc, "circulating_supply"@)) is None {
        Some(Field::CirculatingSupply)
    } else if number_of(market_entry(doc, "total_supply"@)) is None {
        Some(Field::TotalSupply)
    } else {
        None
    }
}

/// Reads the six figures off the provider's document. Either all six are
/// there, each unchanged, or the first one that is not is named.
pub fn market_figures(doc: &JsonValue) -> (r: Result<MarketFigures, AdapterError>)
    ensures
        r is Ok <==> market_fault(*doc) is None,
        match r {
            Ok(m) => {
                &&& number_of(usd_entry(*doc, "current_price"@)) == Some(m.price@)
                &&& int_of(usd_entry(*doc, "market_cap"@)) == Some(m.marketcap)
                &&& int_of(usd_entry(*doc, "fully_diluted_valuation"@)) == Some(
                    m.fully_diluted_valuation,
                )
                &&& int_of(usd_entry(*doc, "total_value_locked"@)) == Some(m.total_value_locked)
                &&& number_of(market_entry(*doc, "circulating_supply"@)) == Some(
                    m.circulating_supply@,
                )
                &&& number_of(market_entry(*doc, "total_supply"@)) == Some(m.total_supply@)
            },
            Err(e) => e matches AdapterError::MissingOrWrongType(f) && market_fault(*doc) == Some(f),
        },
{
    let md = field(Some(doc), "market_data");
    let price = match number_at(field(field(md, "current_price"), "usd")) {
        Some(n) => n,
        None => return Err(AdapterError::MissingOrWrongType(Field::Price)),
    };
    let marketcap = match int_at(field(field(md, "market_cap"), "usd")) {
        Some(n) => n,
        None => return Err(AdapterError::MissingOrWrongType(Field::Marketcap)),
    };
    let fdv = match int_at(field(field(md, "fully_diluted_valuation"), "usd")) {
        Some(n) => n,
        None => return Err(AdapterError::MissingOrWrongType(Field::FullyDilutedValuation)),
    };
    let tvl = match int_at(field(field(md, "total_value_locked"), "usd")) {
        Some(n) => n,
        None => return Err(AdapterError::MissingOrWrongType(Field::TotalValueLocked)),
    };
    let circulating = match number_at(field(md, "circulating_supply")) {
        Some(n) => n,
        None => return Err(AdapterError::MissingOrWrongType(Field::CirculatingSupply)),
    };
    let total = match number_at(field(md, "total_supply")) {
        Some(n) => n,
        None => return Err(AdapterError::MissingOrWrongType(Field::TotalSupply)),
    };
    Ok(
        MarketFigures {
            price,
            marketcap,
            fully_diluted_valuation: fdv,
            total_value_locked: tvl,
            circulating_supply: circulating,
            total_supply: total,
        },
    )
}

} // verus!
