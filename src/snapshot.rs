//! The aggregator: one snapshot of every measurement, each group either
//! what its adapter produced or, when unconfigured or failed, all zero.
use vstd::prelude::*;
use crate::error::AdapterError;
use crate::market::MarketFigures;
use crate::protocol::ProtocolRecord;
use crate::user::UserRecord;
use crate::vault::VaultRecord;

verus! {

/// Which sources are configured; an absent value turns its group off.
pub struct Config {
    pub user_address: Option<String>,
    pub vault_address: Option<String>,
    pub coingecko_key: Option<String>,
    pub alchemy_key: Option<String>,
}

/// Every measurement of one scrape, by group.
pub struct MetricSnapshot {
    pub market: MarketFigures,
    pub protocol: ProtocolRecord,
    pub vault: VaultRecord,
    pub user: UserRecord,
}

/// The record that a group takes from its adapter's outcome: only a success
/// of a configured source counts.
pub open spec fn taken<T>(configured: bool, outcome: Option<Result<T, AdapterError>>) -> Option<T> {
    if configured {
        match outcome {
            Some(Ok(r)) => Some(r),
            _ => None,
        }
    } else {
        None
    }
}

impl MetricSnapshot {
    /// Each group is its adapter's record where the source is configured and
    /// the adapter succeeded, and all zero otherwise.
    pub open spec fn assembled_from(
        &self,
        config: Config,
        market: Option<Result<MarketFigures, AdapterError>>,
        protocol: Option<Result<ProtocolRecord, AdapterError>>,
        vault: Option<Result<VaultRecord, AdapterError>>,
        user: Option<Result<UserRecord, AdapterError>>,
    ) -> bool {
        &&& match taken(config.coingecko_key is Some, market) {
            Some(m) => self.market == m,
            None => self.market.is_zero(),
        }
        &&& match taken(config.alchemy_key is Some, protocol) {
            Some(p) => self.protocol == p,
            None => self.protocol.is_zero(),
        }
        &&& match taken(config.vault_address is Some, vault) {
            Some(v) => self.vault == v,
            None => self.vault.is_zero(),
        }
        &&& match taken(config.user_address is Some, user) {
            Some(u) => self.user == u,
            None => self.user.is_zero(),
        }
    }

    /// Folds the four adapters' outcomes into one snapshot. An outcome is
    /// `None` where the adapter did not run. A group is its adapter's record
    /// when its source is configured and the adapter succeeded, and all zero
    /// otherwise; no failure goes further than this.
    pub fn collect(
        config: &Config,
        market: Option<Result<MarketFigures, AdapterError>>,
        protocol: Option<Result<ProtocolRecord, AdapterError>>,
        vault: Option<Result<VaultRecord, AdapterError>>,
        user: Option<Result<UserRecord, AdapterError>>,
    ) -> (r: MetricSnapshot)
        ensures
            r.assembled_from(*config, market, protocol, vault, user),
    {
        let market = match (&config.coingecko_key, market) {
            (Some(_), Some(Ok(m))) => m,
            _ => MarketFigures::zeroed(),
        };
        let protocol = match (&config.alchemy_key, protocol) {
            (Some(_), Some(Ok(p))) => p,
            _ => ProtocolRecord::zeroed(),
        };
        let vault = match (&config.vault_address, vault) {
            (Some(_), Some(Ok(v))) => v,
            _ => VaultRecord::zeroed(),
        };
        let user = match (&config.user_address, user) {
            (Some(_), Some(Ok(u))) => u,
            _ => UserRecord::zeroed(),
        };
        MetricSnapshot { market, protocol, vault, user }
    }
}

/// A group whose source is not configured is all zero, whatever its adapter
/// returned or whether it ran; and a group whose adapter failed is all zero
/// too, while the snapshot as a whole is still produced.
pub proof fn lemma_unconfigured_groups_are_zero(config: Config, s: MetricSnapshot, market: Option<
    Result<MarketFigures, AdapterError>,
>, protocol: Option<Result<ProtocolRecord, AdapterError>>, vault: Option<
    Result<VaultRecord, AdapterError>,
>, user: Option<Result<UserRecord, AdapterError>>)
    requires
        s.assembled_from(config, market, protocol, vault, user),
    ensures
        config.coingecko_key is None ==> s.market.is_zero(),
        config.alchemy_key is None ==> s.protocol.is_zero(),
        config.vault_address is None ==> s.vault.is_zero(),
        config.user_address is None ==> s.user.is_zero(),
        market matches Some(Err(_)) ==> s.market.is_zero(),
        protocol matches Some(Err(_)) ==> s.protocol.is_zero(),
        vault matches Some(Err(_)) ==> s.vault.is_zero(),
        user matches Some(Err(_)) ==> s.user.is_zero(),
{
}

} // verus!
