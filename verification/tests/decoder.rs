use cielo_rs_sdk::json::{JsonNumber, JsonValue};
use cielo_rs_sdk::models::feed::{Item, Swap, TokenMarketCap};
use cielo_rs_sdk::decode::decode_item;
use cielo_rs_sdk::encode::encode_item;
use cielo_rs_sdk::error::DecodeError;
use cielo_rs_sdk::response::{decode_items, decode_response};

fn s(v: &str) -> JsonValue {
    JsonValue::Str(v.to_string())
}

fn f(v: f64) -> JsonValue {
    JsonValue::Num(JsonNumber::Float(v.to_bits()))
}

fn u(v: u64) -> JsonValue {
    JsonValue::Num(JsonNumber::PosInt(v))
}

fn fnum(v: f64) -> JsonNumber {
    JsonNumber::Float(v.to_bits())
}

fn obj(members: Vec<(&str, JsonValue)>) -> JsonValue {
    JsonValue::Obj(members.into_iter().map(|(k, v)| (k.to_string(), v)).collect())
}

fn swap_members(with_market_cap: bool) -> Vec<(&'static str, JsonValue)> {
    let mut members = vec![
        ("wallet", s("0xwallet")),
        ("wallet_label", s("whale")),
        ("tx_hash", s("0xhash")),
        ("tx_type", s("swap")),
        ("chain", s("ethereum")),
        ("index", u(3)),
        ("timestamp", u(1700000000)),
        ("block", u(18000000)),
        ("dex", s("uniswap")),
        ("from", s("0xfrom")),
        ("to", s("0xto")),
        ("token0_address", s("0xtoken0")),
        ("token0_amount", f(1.5)),
        ("token0_amount_usd", f(3000.0)),
        ("token0_name", s("Wrapped Ether")),
        ("token0_price_usd", f(2000.0)),
        ("token0_symbol", s("WETH")),
        ("token0_icon_link", s("http://icons/weth")),
        ("token1_address", s("0xtoken1")),
        ("token1_amount", f(3000.0)),
        ("token1_amount_usd", f(3000.0)),
        ("token1_name", s("USD Coin")),
        ("token1_price_usd", f(1.0)),
        ("token1_symbol", s("USDC")),
        ("token1_icon_link", s("http://icons/usdc")),
        ("first_interaction", JsonValue::Bool(false)),
    ];
    if with_market_cap {
        members.push((
            "token_market_cap",
            obj(vec![
                ("token_address", s("0xtoken0")),
                ("market_cap", f(1000000.0)),
                ("liquidity", f(50000.0)),
            ]),
        ));
    }
    members
}

fn as_json(members: Vec<(&'static str, JsonValue)>) -> JsonValue {
    JsonValue::Obj(members.into_iter().map(|(k, v)| (k.to_string(), v)).collect())
}

#[test]
fn well_formed_swap_decodes_with_all_fields() {
    let decoded = decode_item(&as_json(swap_members(false))).expect("swap should decode");
    match decoded {
        Item::Swap(swap) => {
            assert_eq!(swap.wallet, "0xwallet");
            assert_eq!(swap.wallet_label, "whale");
            assert_eq!(swap.tx_hash, "0xhash");
            assert_eq!(swap.chain, "ethereum");
            assert_eq!(swap.index, 3);
            assert_eq!(swap.timestamp, 1700000000);
            assert_eq!(swap.block, 18000000);
            assert_eq!(swap.dex, "uniswap");
            assert_eq!(swap.token0_amount, fnum(1.5));
            assert_eq!(swap.token1_symbol, "USDC");
            assert_eq!(swap.first_interaction, false);
            assert_eq!(swap.token_market_cap, None);
        },
        other => panic!("decoded as the wrong shape: {:?}", other),
    }
}

#[test]
fn swap_market_cap_is_present_only_when_provided() {
    let decoded = decode_item(&as_json(swap_members(true))).expect("swap should decode");
    match decoded {
        Item::Swap(swap) => {
            let mc = swap.token_market_cap.expect("market cap should be present");
            assert_eq!(mc.token_address, "0xtoken0");
            assert_eq!(mc.market_cap, fnum(1000000.0));
            assert_eq!(mc.liquidity, fnum(50000.0));
        },
        other => panic!("decoded as the wrong shape: {:?}", other),
    }
}

#[test]
fn missing_mandatory_member_fails_the_shape() {
    let mut members = swap_members(false);
    members.retain(|(k, _)| *k != "dex");
    // Without `dex` the object is no swap; it matches no shape at all.
    assert!(decode_item(&as_json(members)).is_none());
}

#[test]
fn unsigned_members_reject_fractional_and_negative_numbers() {
    let mut members = swap_members(false);
    for m in members.iter_mut() {
        if m.0 == "timestamp" {
            m.1 = f(1.5);
        }
    }
    assert!(decode_item(&as_json(members)).is_none());

    let mut members = swap_members(false);
    for m in members.iter_mut() {
        if m.0 == "index" {
            m.1 = JsonValue::Num(JsonNumber::NegInt(-1));
        }
    }
    assert!(decode_item(&as_json(members)).is_none());
}

#[test]
fn unknown_members_are_ignored() {
    let mut members = swap_members(false);
    members.push(("something_else", s("ignored")));
    assert!(matches!(decode_item(&as_json(members)), Some(Item::Swap(_))));
}

#[test]
fn flashloan_is_tried_before_its_subset_shape_reward() {
    let flashloan = vec![
        ("wallet", s("0xwallet")),
        ("wallet_label", s("fl")),
        ("tx_hash", s("0xhash")),
        ("tx_type", s("flashloan")),
        ("chain", s("ethereum")),
        ("index", u(0)),
        ("timestamp", u(1700000000)),
        ("block", u(18000000)),
        ("address", s("0xasset")),
        ("amount", f(10.0)),
        ("amount_usd", f(20000.0)),
        ("dex", s("aave")),
        ("from", s("0xfrom")),
        ("health_factor", f(1.1)),
        ("name", s("Asset")),
        ("platform", s("AaveV3")),
        ("price_usd", f(2000.0)),
        ("symbol", s("AST")),
        ("token_icon_link", s("http://icons/ast")),
    ];
    assert!(matches!(decode_item(&as_json(flashloan)), Some(Item::Flashloan(_))));

    let reward = vec![
        ("wallet", s("0xwallet")),
        ("wallet_label", s("rw")),
        ("tx_hash", s("0xhash")),
        ("tx_type", s("reward")),
        ("chain", s("ethereum")),
        ("index", u(0)),
        ("timestamp", u(1700000000)),
        ("block", u(18000000)),
        ("address", s("0xasset")),
        ("amount", f(10.0)),
        ("amount_usd", f(20000.0)),
        ("from", s("0xfrom")),
        ("name", s("Asset")),
        ("price_usd", f(2000.0)),
        ("symbol", s("AST")),
    ];
    assert!(matches!(decode_item(&as_json(reward)), Some(Item::Reward(_))));
}

#[test]
fn encoded_swap_decodes_back_to_itself() {
    let swap = Swap {
        wallet: "0xwallet".to_string(),
        wallet_label: "whale".to_string(),
        tx_hash: "0xhash".to_string(),
        tx_type: "swap".to_string(),
        chain: "ethereum".to_string(),
        index: 3,
        timestamp: 1700000000,
        block: 18000000,
        dex: "uniswap".to_string(),
        from: "0xfrom".to_string(),
        to: "0xto".to_string(),
        token0_address: "0xtoken0".to_string(),
        token0_amount: fnum(1.5),
        token0_amount_usd: fnum(3000.0),
        token0_name: "Wrapped Ether".to_string(),
        token0_price_usd: fnum(2000.0),
        token0_symbol: "WETH".to_string(),
        token0_icon_link: "http://icons/weth".to_string(),
        token1_address: "0xtoken1".to_string(),
        token1_amount: fnum(3000.0),
        token1_amount_usd: fnum(3000.0),
        token1_name: "USD Coin".to_string(),
        token1_price_usd: fnum(1.0),
        token1_symbol: "USDC".to_string(),
        token1_icon_link: "http://icons/usdc".to_string(),
        first_interaction: false,
        token_market_cap: Some(TokenMarketCap {
            token_address: "0xtoken0".to_string(),
            market_cap: fnum(1000000.0),
            liquidity: fnum(50000.0),
        }),
    };
    let item = Item::Swap(swap);
    let encoded = encode_item(&item);
    let decoded = decode_item(&encoded).expect("encoded swap should decode");
    assert_eq!(decoded, item);
}

#[test]
fn encoded_nft_sweep_decodes_as_nft_trade() {
    // The sweep shape names the same members as the trade shape, so its
    // encoding is claimed by the trade shape, which is tried first.
    let sweep = vec![
        ("wallet", s("0xwallet")),
        ("wallet_label", s("sweeper")),
        ("tx_hash", s("0xhash")),
        ("tx_type", s("nft_sweep")),
        ("chain", s("ethereum")),
        ("index", u(1)),
        ("timestamp", u(1700000000)),
        ("block", u(18000000)),
        ("from", s("0xfrom")),
        ("to", s("0xto")),
        ("thumbnail", s("http://t")),
        ("image", s("http://i")),
        ("action", s("buy")),
        ("contract", s("0xcontract")),
        ("marketplace", s("opensea")),
        ("nft_address", s("0xnft")),
        ("nft_name", s("Ape")),
        ("nft_symbol", s("APE")),
        ("nft_token_id", s("42")),
        ("price", f(1.0)),
        ("price_usd", f(2000.0)),
        ("profit", f(0.0)),
        ("currency_symbol", s("ETH")),
        ("buyer", s("0xbuyer")),
        ("seller", s("0xseller")),
        ("token", s("ERC721")),
        ("first_interaction", JsonValue::Bool(true)),
        ("bid_accepted", JsonValue::Bool(false)),
    ];
    assert!(matches!(decode_item(&as_json(sweep)), Some(Item::NftTrade(_))));
}

#[test]
fn unknown_item_fails_the_whole_array() {
    let bogus = obj(vec![("who", s("knows"))]);
    let well_formed = as_json(swap_members(false));
    match decode_items(&vec![well_formed, bogus]) {
        Err(index) => assert_eq!(index, 1),
        Ok(_) => panic!("a bogus item must fail the whole array"),
    }
}

#[test]
fn unknown_item_fails_the_whole_response() {
    let body = obj(vec![
        ("status", s("ok")),
        (
            "data",
            obj(vec![
                ("items", JsonValue::Arr(vec![obj(vec![("who", s("knows"))])])),
                (
                    "paging",
                    obj(vec![
                        ("total_rows_in_page", u(1)),
                        ("has_next_page", JsonValue::Bool(false)),
                    ]),
                ),
            ]),
        ),
    ]);
    assert_eq!(decode_response(&body), Err(DecodeError::Item { index: 0 }));
}

#[test]
fn malformed_envelope_is_an_envelope_error() {
    let body = obj(vec![("status", s("ok"))]);
    assert_eq!(decode_response(&body), Err(DecodeError::Envelope));
    assert_eq!(decode_response(&s("not an object")), Err(DecodeError::Envelope));
}
