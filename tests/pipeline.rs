use hypurr_exporter::decimal::{is_float_literal, Decimal};
use hypurr_exporter::error::{AdapterError, Field};
use hypurr_exporter::hex::decode_hex_quantity;
use hypurr_exporter::json::{JsonValue, Number};
use hypurr_exporter::market::{market_figures, MarketFigures};
use hypurr_exporter::portfolio::{current_values, daily, latest, PortfolioData, PortfolioEntry};
use hypurr_exporter::protocol::{
    count_listed, protocol_record, PerpMetaData, PerpUniverseItem, SpotMetaData, SpotToken,
};
use hypurr_exporter::registry::{instrument_names, readings, Reading, INSTRUMENT_COUNT};
use hypurr_exporter::request::InfoRequest;
use hypurr_exporter::rpc::{rpc_request_body, rpc_result, RpcMethod};
use hypurr_exporter::snapshot::{Config, MetricSnapshot};
use hypurr_exporter::user::{user_record, OpenOrders, UserRecord, UserStakingSummary};
use hypurr_exporter::vault::{
    vault_record, Relationship, RelationshipData, VaultDetails, VaultRecord,
};

fn history(pairs: &[(u64, &str)]) -> Vec<(u64, String)> {
    pairs.iter().map(|(t, v)| (*t, v.to_string())).collect()
}

fn entry(period: &str, values: &[(u64, &str)], pnls: &[(u64, &str)]) -> PortfolioEntry {
    PortfolioEntry {
        period: period.to_string(),
        data: PortfolioData {
            account_value_history: history(values),
            pnl_history: history(pnls),
            vlm: "0.0".to_string(),
        },
    }
}

fn float(s: &str) -> Number {
    Number::Float(Decimal::parse(s).unwrap())
}

fn text_of(n: &Number) -> String {
    match n {
        Number::PosInt(u) => format!("u{}", u),
        Number::NegInt(i) => format!("i{}", i),
        Number::Float(d) => format!("f{}", d.as_str()),
    }
}

fn obj(members: Vec<(&str, JsonValue)>) -> JsonValue {
    JsonValue::Object(members.into_iter().map(|(k, v)| (k.to_string(), v)).collect())
}

fn market_doc(price: JsonValue) -> JsonValue {
    obj(vec![(
        "market_data",
        obj(vec![
            ("current_price", obj(vec![("usd", price)])),
            ("market_cap", obj(vec![("usd", JsonValue::Number(Number::PosInt(1000)))])),
            ("fully_diluted_valuation", obj(vec![("usd", JsonValue::Number(Number::PosInt(1200)))])),
            ("total_value_locked", obj(vec![("usd", JsonValue::Number(Number::PosInt(300)))])),
            ("circulating_supply", JsonValue::Number(Number::PosInt(900000))),
            ("total_supply", JsonValue::Number(Number::PosInt(1000000))),
        ]),
    )])
}

fn order(px: &str, sz: &str) -> OpenOrders {
    OpenOrders {
        coin: "HYPE".to_string(),
        limit_px: px.to_string(),
        oid: 1,
        side: "B".to_string(),
        sz: sz.to_string(),
        timestamp: 0,
    }
}

fn staking(d: &str, u: &str, p: &str) -> UserStakingSummary {
    UserStakingSummary {
        delegated: d.to_string(),
        undelegated: u.to_string(),
        total_pending_withdrawal: p.to_string(),
        n_pending_withdrawals: 0,
    }
}

fn vault_details(portfolio: Vec<PortfolioEntry>, closed: bool, deposits: bool) -> VaultDetails {
    VaultDetails {
        name: "v".to_string(),
        vault_address: "0x1".to_string(),
        leader: "0x2".to_string(),
        description: String::new(),
        portfolio,
        apr: float("0.25"),
        follower_state: None,
        leader_fraction: float("0.1"),
        leader_commission: Number::PosInt(0),
        followers: Vec::new(),
        max_distributable: float("12.5"),
        max_withdrawable: float("3.5"),
        is_closed: closed,
        relationship: Relationship {
            kind: "normal".to_string(),
            data: RelationshipData { child_addresses: Vec::new() },
        },
        allow_deposits: deposits,
        always_close_on_withdraw: false,
    }
}

fn full_config() -> Config {
    Config {
        user_address: Some("0xu".to_string()),
        vault_address: Some("0xv".to_string()),
        coingecko_key: Some("k".to_string()),
        alchemy_key: Some("a".to_string()),
    }
}

fn empty_config() -> Config {
    Config { user_address: None, vault_address: None, coingecko_key: None, alchemy_key: None }
}

fn reading_text(r: &Reading) -> String {
    match r {
        Reading::Value(n) => text_of(n),
        Reading::ProductSum(v) => {
            let parts: Vec<String> =
                v.iter().map(|(p, s)| format!("{}*{}", p.as_str(), s.as_str())).collect();
            format!("sum[{}]", parts.join(","))
        }
    }
}

#[test]
fn float_literals_follow_the_std_grammar() {
    for ok in ["10.5", "-3", "+.5", "5.", "1e5", "2.5E-3", "inf", "-Infinity", "NaN", "0"] {
        assert!(is_float_literal(ok), "{ok}");
    }
    for bad in ["", "bad", ".", "1e", "1.2.3", "+", "e5", "1 ", "0x10", "--1", "infin"] {
        assert!(!is_float_literal(bad), "{bad}");
    }
    assert_eq!(Decimal::parse("11.0").unwrap().as_str(), "11.0");
    assert_eq!(Decimal::zero().as_str(), "0");
}

#[test]
fn hex_quantities_decode() {
    assert_eq!(decode_hex_quantity("0x1a"), Some(26));
    assert_eq!(decode_hex_quantity("0xFF"), Some(255));
    assert_eq!(decode_hex_quantity("0x0"), Some(0));
    assert_eq!(decode_hex_quantity("0x0x10"), Some(16));
    assert_eq!(decode_hex_quantity("10"), Some(16));
    assert_eq!(decode_hex_quantity("0x+1"), Some(1));
    assert_eq!(decode_hex_quantity("0xffffffffffffffff"), Some(u64::MAX));
    assert_eq!(decode_hex_quantity("0x10000000000000000"), None);
    assert_eq!(decode_hex_quantity("0x"), None);
    assert_eq!(decode_hex_quantity("0xzz"), None);
    assert_eq!(decode_hex_quantity("-0x1"), None);
}

#[test]
fn hex_round_trip_on_samples() {
    for n in [0u64, 1, 15, 16, 255, 4096, 0xdead_beef, u64::MAX - 1, u64::MAX] {
        assert_eq!(decode_hex_quantity(&format!("0x{:x}", n)), Some(n));
    }
}

#[test]
fn latest_value_has_the_greatest_timestamp() {
    let h = history(&[(100, "10.5"), (200, "11.0")]);
    assert_eq!(latest(&h), Some(1));
    let h = history(&[(200, "11.0"), (100, "10.5")]);
    assert_eq!(latest(&h), Some(0));
    assert_eq!(latest(&Vec::new()), None);
}

#[test]
fn latest_value_tie_is_the_same_every_time() {
    let h = history(&[(200, "11.0"), (200, "9.0")]);
    let first = latest(&h);
    for _ in 0..5 {
        assert_eq!(latest(&h), first);
    }
    assert_eq!(first, Some(1));
    assert_eq!(h[first.unwrap()].1, "9.0");
}

#[test]
fn daily_entry_is_found_by_period() {
    let entries = vec![entry("week", &[], &[]), entry("day", &[], &[]), entry("day", &[], &[])];
    assert_eq!(daily(&entries), Some(1));
    assert_eq!(daily(&vec![entry("week", &[], &[])]), None);
}

#[test]
fn current_values_errors() {
    let r = current_values(&vec![entry("week", &[(1, "1")], &[(1, "1")])]);
    assert!(matches!(r, Err(AdapterError::NoDailyPeriod)));
    let r = current_values(&vec![entry("day", &[], &[(1, "1")])]);
    assert!(matches!(r, Err(AdapterError::EmptyHistory(Field::AccountValue))));
    let r = current_values(&vec![entry("day", &[(1, "1")], &[])]);
    assert!(matches!(r, Err(AdapterError::EmptyHistory(Field::Pnl))));
    let r = current_values(&vec![entry("day", &[(1, "x")], &[(1, "1")])]);
    assert!(matches!(r, Err(AdapterError::NumericParse(Field::AccountValue))));
    let r = current_values(&vec![entry("day", &[(1, "1")], &[(1, "y")])]);
    assert!(matches!(r, Err(AdapterError::NumericParse(Field::Pnl))));
    let (v, p) =
        current_values(&vec![entry("day", &[(100, "10.5"), (200, "11.0")], &[(5, "-2"), (1, "3")])])
            .unwrap();
    assert_eq!(v.as_str(), "11.0");
    assert_eq!(p.as_str(), "-2");
}

#[test]
fn open_order_value_skips_unparsable_orders() {
    let orders = vec![order("10", "2"), order("bad", "1")];
    let portfolio = vec![entry("day", &[(1, "5")], &[(1, "1")])];
    let u = user_record(&portfolio, &staking("1", "2", "3"), &orders).unwrap();
    assert_eq!(u.num_open_orders, 2);
    assert_eq!(u.priced_orders.len(), 1);
    assert_eq!(u.priced_orders[0].0.as_str(), "10");
    assert_eq!(u.priced_orders[0].1.as_str(), "2");
    let value: f64 = u
        .priced_orders
        .iter()
        .map(|(p, s)| p.as_str().parse::<f64>().unwrap() * s.as_str().parse::<f64>().unwrap())
        .sum();
    assert_eq!(value, 20.0);
}

#[test]
fn user_record_reads_staking_strictly() {
    let portfolio = vec![entry("day", &[(1, "5")], &[(1, "1")])];
    let r = user_record(&portfolio, &staking("1", "x", "3"), &Vec::new());
    assert!(matches!(r, Err(AdapterError::NumericParse(Field::StakingUndelegated))));
    let u = user_record(&portfolio, &staking("1.5", "2", "0"), &Vec::new()).unwrap();
    assert_eq!(u.account_value.as_str(), "5");
    assert_eq!(u.pnl.as_str(), "1");
    assert_eq!(u.staking_delegated.as_str(), "1.5");
    assert_eq!(u.staking_pending_withdrawal.as_str(), "0");
    assert_eq!(u.num_open_orders, 0);
}

#[test]
fn delisted_perps_are_not_counted() {
    let item = |d: Option<bool>| PerpUniverseItem {
        name: "X".to_string(),
        sz_decimals: 1,
        max_leverage: 3,
        only_isolated: None,
        is_delisted: d,
    };
    assert_eq!(count_listed(&vec![item(Some(true)), item(Some(false)), item(None)]), 2);
    assert_eq!(count_listed(&Vec::new()), 0);
}

#[test]
fn protocol_record_combines_sources() {
    let token = SpotToken {
        name: "T".to_string(),
        sz_decimals: 0,
        wei_decimals: 0,
        index: 0,
        token_id: "0x".to_string(),
        is_canonical: true,
        evm_contract: None,
        full_name: None,
    };
    let spot = SpotMetaData { tokens: vec![token], universe: Vec::new() };
    let perp = PerpMetaData {
        universe: vec![PerpUniverseItem {
            name: "BTC".to_string(),
            sz_decimals: 5,
            max_leverage: 40,
            only_isolated: None,
            is_delisted: Some(true),
        }],
        margin_tables: Vec::new(),
    };
    let fund = vec![entry("day", &[(1, "7.5"), (3, "8.5")], &[])];
    let p = protocol_record(12, 7, &fund, &spot, &perp).unwrap();
    assert_eq!(p.block_number, 12);
    assert_eq!(p.base_fee, 7);
    assert_eq!(p.reference_fund_value.as_str(), "8.5");
    assert_eq!(p.num_spot_tokens, 1);
    assert_eq!(p.num_perp_tokens, 0);
    let r = protocol_record(1, 1, &Vec::new(), &spot, &perp);
    assert!(matches!(r, Err(AdapterError::NoDailyPeriod)));
}

#[test]
fn vault_record_reads_details() {
    let d = vault_details(vec![entry("day", &[(1, "100"), (2, "120")], &[(2, "4"), (1, "5")])], true, false);
    let v = vault_record(&d).unwrap();
    assert_eq!(v.value.as_str(), "120");
    assert_eq!(v.pnl.as_str(), "4");
    assert_eq!(text_of(&v.apr), "f0.25");
    assert_eq!(text_of(&v.max_distributable), "f12.5");
    assert!(v.is_closed);
    assert!(!v.allow_deposits);
    assert_eq!(v.num_followers, 0);
    let d = vault_details(vec![entry("week", &[(1, "1")], &[(1, "1")])], false, true);
    assert!(matches!(vault_record(&d), Err(AdapterError::NoDailyPeriod)));
}

#[test]
fn market_figures_pass_through_end_to_end() {
    let doc = market_doc(JsonValue::Number(float("27.5")));
    let m = market_figures(&doc).unwrap();
    let s = MetricSnapshot::collect(&full_config(), Some(Ok(m)), None, None, None);
    let r = readings(s);
    let got: Vec<String> = r.iter().take(6).map(reading_text).collect();
    assert_eq!(got, vec!["f27.5", "u1000", "u1200", "u300", "u900000", "u1000000"]);
}

#[test]
fn market_figures_name_the_missing_field() {
    let doc = market_doc(JsonValue::Str("27.5".to_string()));
    assert!(matches!(market_figures(&doc), Err(AdapterError::MissingOrWrongType(Field::Price))));
    let doc = obj(vec![("market_data", obj(vec![]))]);
    assert!(matches!(market_figures(&doc), Err(AdapterError::MissingOrWrongType(Field::Price))));
    let doc = market_doc(JsonValue::Number(Number::NegInt(-3)));
    let m = market_figures(&doc).unwrap();
    assert_eq!(text_of(&m.price), "i-3");
    assert_eq!(m.marketcap, 1000);
}

#[test]
fn unconfigured_groups_are_zero() {
    let doc = market_doc(JsonValue::Number(float("27.5")));
    let m = market_figures(&doc).unwrap();
    let s = MetricSnapshot::collect(&empty_config(), Some(Ok(m)), None, None, None);
    let r = readings(s);
    assert_eq!(r.len(), INSTRUMENT_COUNT);
    for rd in &r[..27] {
        let t = reading_text(rd);
        assert!(t == "u0" || t == "f0", "{t}");
    }
    assert_eq!(reading_text(&r[27]), "sum[]");
}

#[test]
fn failed_groups_are_zero() {
    let s = MetricSnapshot::collect(
        &full_config(),
        Some(Err(AdapterError::MissingOrWrongType(Field::Price))),
        Some(Err(AdapterError::InvalidHex)),
        Some(Err(AdapterError::NoDailyPeriod)),
        Some(Err(AdapterError::Transport("timeout".to_string()))),
    );
    let r = readings(s);
    for rd in &r {
        let t = reading_text(rd);
        assert!(t == "u0" || t == "f0" || t == "sum[]", "{t}");
    }
}

#[test]
fn groups_are_kept_whole() {
    let d = vault_details(vec![entry("day", &[(1, "100")], &[(1, "4")])], false, true);
    let v = vault_record(&d).unwrap();
    let s = MetricSnapshot::collect(&full_config(), None, None, Some(Ok(v)), Some(Ok(UserRecord::zeroed())));
    let r = readings(s);
    assert_eq!(reading_text(&r[11]), "f100");
    assert_eq!(reading_text(&r[13]), "f0.25");
    let _ = MarketFigures::zeroed();
    let _ = VaultRecord::zeroed();
}

#[test]
fn flags_read_zero_or_one_on_their_own_instruments() {
    let names = instrument_names();
    assert_eq!(names.len(), INSTRUMENT_COUNT);
    assert_eq!(names[19], "vault_is_closed");
    assert_eq!(names[20], "vault_allow_deposits");
    assert_eq!(names[0], "hyperliquid_price");
    assert_eq!(names[27], "user_value_open_orders");
    for (closed, deposits) in [(true, false), (false, true), (true, true), (false, false)] {
        let d = vault_details(vec![entry("day", &[(1, "1")], &[(1, "1")])], closed, deposits);
        let v = vault_record(&d).unwrap();
        let s = MetricSnapshot::collect(&full_config(), None, None, Some(Ok(v)), None);
        let r = readings(s);
        assert_eq!(reading_text(&r[19]), if closed { "u1" } else { "u0" });
        assert_eq!(reading_text(&r[20]), if deposits { "u1" } else { "u0" });
    }
}

#[test]
fn info_request_bodies() {
    let r = InfoRequest::Portfolio { user: "0xab".to_string() };
    assert_eq!(r.body(), r#"{"type":"portfolio","user":"0xab"}"#);
    let r = InfoRequest::VaultDetails { vault_address: "0xdf".to_string() };
    assert_eq!(r.body(), r#"{"type":"vaultDetails","vaultAddress":"0xdf"}"#);
    let r = InfoRequest::DelegatorSummary { user: "a\"b".to_string() };
    assert_eq!(r.body(), r#"{"type":"delegatorSummary","user":"a\"b"}"#);
    let r = InfoRequest::OpenOrders { user: "u".to_string() };
    assert_eq!(r.body(), r#"{"type":"openOrders","user":"u"}"#);
    assert_eq!(InfoRequest::SpotMeta.body(), r#"{"type":"spotMeta"}"#);
    assert_eq!(InfoRequest::Meta.body(), r#"{"type":"meta"}"#);
    assert_eq!(
        InfoRequest::reference_fund_portfolio().body(),
        r#"{"type":"portfolio","user":"0xfefefefefefefefefefefefefefefefefefefefe"}"#
    );
}

#[test]
fn rpc_envelopes_and_results() {
    assert_eq!(
        rpc_request_body(RpcMethod::BlockNumber),
        r#"{"jsonrpc":"2.0","method":"eth_blockNumber","params":[],"id":1}"#
    );
    assert_eq!(
        rpc_request_body(RpcMethod::GasPrice),
        r#"{"jsonrpc":"2.0","method":"eth_gasPrice","params":[],"id":1}"#
    );
    let doc = obj(vec![("jsonrpc", JsonValue::Str("2.0".to_string())), ("result", JsonValue::Str("0x2a".to_string()))]);
    assert!(matches!(rpc_result(&doc), Ok(42)));
    let doc = obj(vec![("result", JsonValue::Number(Number::PosInt(42)))]);
    assert!(matches!(rpc_result(&doc), Err(AdapterError::MissingField)));
    let doc = obj(vec![("error", JsonValue::Null)]);
    assert!(matches!(rpc_result(&doc), Err(AdapterError::MissingField)));
    let doc = obj(vec![("result", JsonValue::Str("0xnope".to_string()))]);
    assert!(matches!(rpc_result(&doc), Err(AdapterError::InvalidHex)));
}

#[test]
fn float_literal_agrees_with_std_parse() {
    let samples = [
        "0", "1", "-1", "+1", "1.", ".1", "-.1", "+.1e3", "1e10", "1E+10", "1e-10", "1.5e", "e",
        "E5", ".", "-", "+", "", " 1", "1 ", "1.2.3", "1e1e1", "--1", "+-1", "inf", "INF", "-inf",
        "Infinity", "+infinity", "infinit", "nan", "NaN", "-NAN", "nana", "0x1", "1_0", "١",
        "12345678901234567890123", "1e400", "00.00", "0.e0", "..1", "1..",
    ];
    for s in samples {
        assert_eq!(is_float_literal(s), s.parse::<f64>().is_ok(), "{s:?}");
    }
}
