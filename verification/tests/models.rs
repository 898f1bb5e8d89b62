use okx::models::{
    ApiKeyPermission, GreeksType, InstType, Level, OrderType, RestApi, TradeMode, TradeSide,
};
use okx::numeric::{parse_scaled_dec, parse_u32};
use okx::strutil::format_u64;
use okx::OkxError;

const UNIT: i128 = 1_000_000_000_000;

#[test]
fn envelope_success_and_failure() {
    // `to_result_one` on {code:0, data:[x]} yields x.
    let ok: RestApi<u32> = RestApi { code: 0, msg: String::new(), data: vec![7] };
    assert_eq!(ok.to_result_one(), Ok(7));

    // A non-zero code surfaces the remote error.
    let bad: RestApi<u32> = RestApi { code: 50000, msg: "bad".to_string(), data: vec![] };
    assert_eq!(
        bad.to_result_one(),
        Err(OkxError::RemoteError { code: 50000, message: "bad".to_string() })
    );

    // `to_result_one_opt` on {code:0, data:[]} yields None.
    let empty: RestApi<u32> = RestApi { code: 0, msg: String::new(), data: vec![] };
    assert_eq!(empty.to_result_one_opt(), Ok(None));

    let rows: RestApi<u32> = RestApi { code: 0, msg: String::new(), data: vec![1, 2] };
    assert_eq!(rows.to_result(), Ok(vec![1, 2]));
}

#[test]
fn envelope_is_success() {
    let ok: RestApi<u32> = RestApi { code: 0, msg: String::new(), data: vec![] };
    assert!(ok.is_success());
    let bad: RestApi<u32> = RestApi { code: 1, msg: String::new(), data: vec![] };
    assert!(!bad.is_success());
}

#[test]
fn permissions_parse_from_the_comma_list() {
    let mut cfg = config_with_perm("read_only,trade");
    assert_eq!(cfg.permission(), vec![ApiKeyPermission::ReadOnly, ApiKeyPermission::Trade]);
    cfg.perm = "withdraw".to_string();
    assert_eq!(cfg.permission(), vec![ApiKeyPermission::Withdraw]);
    cfg.perm = "".to_string();
    assert_eq!(cfg.permission(), vec![]);
    cfg.perm = "trade,unknown,read_only".to_string();
    assert_eq!(cfg.permission(), vec![ApiKeyPermission::Trade, ApiKeyPermission::ReadOnly]);
}

#[test]
fn main_account_compares_uids() {
    let mut cfg = config_with_perm("trade");
    assert!(cfg.is_main_account());
    cfg.main_uid = "other".to_string();
    assert!(!cfg.is_main_account());
}

fn config_with_perm(perm: &str) -> okx::models::AccountConfig {
    okx::models::AccountConfig {
        uid: "u1".to_string(),
        main_uid: "u1".to_string(),
        acct_lv: 1,
        pos_mode: String::new(),
        auto_loan: false,
        greeks_type: GreeksType::Pa,
        level: Level::Lv1,
        level_tmp: Level::Unset,
        ct_iso_mode: String::new(),
        mgn_iso_mode: String::new(),
        spot_offset_type: String::new(),
        role_type: String::new(),
        trader_insts: vec![],
        op_auth: String::new(),
        kyc_lv: String::new(),
        label: String::new(),
        ip: String::new(),
        perm: perm.to_string(),
    }
}

#[test]
fn spot_limit_order_shape() {
    let o = okx::models::OrderRequestInfo::new_spot_limit_order(
        "BTC-USDT",
        TradeSide::Buy,
        "1".to_string(),
        "30000".to_string(),
        Some("cid1".to_string()),
        None,
    );
    assert_eq!(o.inst_id, "BTC-USDT");
    assert_eq!(o.td_mode, TradeMode::Cash);
    assert_eq!(o.order_type, OrderType::Limit);
    assert_eq!(o.side, TradeSide::Buy);
    assert_eq!(o.sz, "1");
    assert_eq!(o.px, Some("30000".to_string()));
    assert_eq!(o.cl_ord_id, Some("cid1".to_string()));
    assert!(o.tag.is_none() && o.ccy.is_none() && o.pos_side.is_none());
}

#[test]
fn wire_names() {
    assert_eq!(InstType::Spot.wire_name(), "SPOT");
    assert_eq!(InstType::Option.wire_name(), "OPTION");
    assert_eq!(OrderType::PostOnly.wire_name(), "post_only");
    assert_eq!(TradeSide::Sell.wire_name(), "sell");
    assert_eq!(TradeMode::Isolated.wire_name(), "isolated");
}

#[test]
fn decimal_strings_parse_scaled() {
    assert_eq!(parse_scaled_dec("10.0"), Ok(10 * UNIT));
    assert_eq!(parse_scaled_dec("9.5"), Ok(9 * UNIT + UNIT / 2));
    assert_eq!(parse_scaled_dec("0"), Ok(0));
    assert_eq!(parse_scaled_dec("0.000000000001"), Ok(1));
    assert_eq!(parse_scaled_dec("123."), Ok(123 * UNIT));
    assert_eq!(parse_scaled_dec(""), Err(OkxError::DecimalError));
    assert_eq!(parse_scaled_dec("1.2.3"), Err(OkxError::DecimalError));
    assert_eq!(parse_scaled_dec("abc"), Err(OkxError::DecimalError));
    assert_eq!(parse_scaled_dec(".5"), Err(OkxError::DecimalError));
    // A fractional part beyond twelve digits carries no meaning here.
    assert_eq!(parse_scaled_dec("0.0000000000001"), Err(OkxError::DecimalError));
}

#[test]
fn counts_parse_as_u32() {
    assert_eq!(parse_u32("3"), Ok(3));
    assert_eq!(parse_u32("0"), Ok(0));
    assert_eq!(parse_u32("4294967295"), Ok(u32::MAX));
    assert_eq!(parse_u32("4294967296"), Err(OkxError::ParseIntError));
    assert_eq!(parse_u32(""), Err(OkxError::ParseIntError));
    assert_eq!(parse_u32("1x"), Err(OkxError::ParseIntError));
}

#[test]
fn integers_format_in_decimal() {
    assert_eq!(format_u64(0), "0");
    assert_eq!(format_u64(7), "7");
    assert_eq!(format_u64(1700000000), "1700000000");
    assert_eq!(format_u64(u64::MAX), "18446744073709551615");
}
