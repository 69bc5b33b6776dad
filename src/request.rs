//! Requests to the info endpoint, each a JSON object whose `type` names the
//! request, followed by the request's own fields.
use vstd::prelude::*;

verus! {

/// What is asked of the info endpoint.
pub enum InfoRequest {
    VaultDetails { vault_address: String },
    Portfolio { user: String },
    DelegatorSummary { user: String },
    OpenOrders { user: String },
    SpotMeta,
    Meta,
}

/// The text that `serde_json` writes for a JSON string holding `s`.
pub uninterp spec fn json_quoted(s: Seq<char>) -> Seq<char>;

/// Relies on `serde_json::to_string` for a `str`: the quoted and escaped
/// JSON string. Writing into its own buffer cannot fail, so no error comes.
#[verifier::external_body]
fn quote(s: &str) -> (r: String)
    ensures
        r@ == json_quoted(s@),
{
    serde_json::to_string(s).unwrap_or_default()
}

/// The address of the fund whose account value the protocol group reports.
pub open spec fn reference_fund() -> Seq<char> {
    "0xfefefefefefefefefefefefefefefefefefefefe"@
}

/// The request body that `r` is sent as.
pub open spec fn request_body(r: InfoRequest) -> Seq<char> {
    match r {
        InfoRequest::VaultDetails { vault_address } => "{\"type\":\"vaultDetails\",\"vaultAddress\":"@
            + json_quoted(vault_address@) + "}"@,
        InfoRequest::Portfolio { user } => "{\"type\":\"portfolio\",\"user\":"@ + json_quoted(user@)
            + "}"@,
        InfoRequest::DelegatorSummary { user } => "{\"type\":\"delegatorSummary\",\"user\":"@
            + json_quoted(user@) + "}"@,
        InfoRequest::OpenOrders { user } => "{\"type\":\"openOrders\",\"user\":"@ + json_quoted(
            user@,
        ) + "}"@,
        InfoRequest::SpotMeta => "{\"type\":\"spotMeta\"}"@,
        InfoRequest::Meta => "{\"type\":\"meta\"}"@,
    }
}

fn tagged(head: &str, value: &str) -> (r: String)
    ensures
        r@ == head@ + json_quoted(value@) + "}"@,
{
    let q = quote(value);
    let out = String::from_str(head);
    let out = out.concat(q.as_str());
    out.concat("}")
}

impl InfoRequest {
    /// The portfolio request for the reference fund.
    pub fn reference_fund_portfolio() -> (r: InfoRequest)
        ensures
            r matches InfoRequest::Portfolio { user } && user@ == reference_fund(),
    {
        InfoRequest::Portfolio { user: String::from_str("0xfefefefefefefefefefefefefefefefefefefefe") }
    }

    /// The JSON body that this request is sent as.
    pub fn body(&self) -> (r: String)
        ensures
            r@ == request_body(*self),
    {
        match self {
            InfoRequest::VaultDetails { vault_address } => tagged(
                "{\"type\":\"vaultDetails\",\"vaultAddress\":",
                vault_address.as_str(),
            ),
            InfoRequest::Portfolio { user } => tagged(
                "{\"type\":\"portfolio\",\"user\":",
                user.as_str(),
            ),
            InfoRequest::DelegatorSummary { user } => tagged(
                "{\"type\":\"delegatorSummary\",\"user\":",
                user.as_str(),
            ),
            InfoRequest::OpenOrders { user } => tagged(
                "{\"type\":\"openOrders\",\"user\":",
                user.as_str(),
            ),
            InfoRequest::SpotMeta => String::from_str("{\"type\":\"spotMeta\"}"),
            InfoRequest::Meta => String::from_str("{\"type\":\"meta\"}"),
        }
    }
}

} // verus!
