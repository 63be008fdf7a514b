use cielo_rs_sdk::api::feed::{Filters, TxType, query_pairs};

fn pair_of(key: &str, value: &str) -> (String, String) {
    (key.to_string(), value.to_string())
}

#[test]
fn unset_filters_build_empty_query() {
    let pairs = query_pairs(&Filters::default());
    assert!(pairs.is_empty());
}

#[test]
fn each_set_field_builds_exactly_one_pair() {
    let mut filters = Filters::default();
    filters.wallet = Some("0xabc".to_string());
    let pairs = query_pairs(&filters);
    assert_eq!(pairs, vec![pair_of("wallet", "0xabc")]);

    let mut filters = Filters::default();
    filters.limit = Some(10);
    assert_eq!(query_pairs(&filters), vec![pair_of("limit", "10")]);

    let mut filters = Filters::default();
    filters.list_id = Some(77);
    assert_eq!(query_pairs(&filters), vec![pair_of("list", "77")]);

    let mut filters = Filters::default();
    filters.chains = Some(vec!["ethereum".to_string(), "solana".to_string()]);
    assert_eq!(query_pairs(&filters), vec![pair_of("chains", "ethereum,solana")]);

    let mut filters = Filters::default();
    filters.tx_types = Some(vec![TxType::Swap, TxType::NftTrade, TxType::OptionEvent]);
    assert_eq!(query_pairs(&filters), vec![pair_of("txTypes", "swap,nft_trade,option")]);

    let mut filters = Filters::default();
    filters.tokens = Some(vec!["USDC".to_string()]);
    assert_eq!(query_pairs(&filters), vec![pair_of("tokens", "USDC")]);

    let mut filters = Filters::default();
    filters.min_usd = Some(100);
    assert_eq!(query_pairs(&filters), vec![pair_of("minUSD", "100")]);

    let mut filters = Filters::default();
    filters.new_trades = Some(true);
    assert_eq!(query_pairs(&filters), vec![pair_of("newTrades", "true")]);

    let mut filters = Filters::default();
    filters.new_trades = Some(false);
    assert_eq!(query_pairs(&filters), vec![pair_of("newTrades", "false")]);

    let mut filters = Filters::default();
    filters.start_from = Some("cursor-1".to_string());
    assert_eq!(query_pairs(&filters), vec![pair_of("startFrom", "cursor-1")]);

    let mut filters = Filters::default();
    filters.from_timestamp = Some(1700000000);
    assert_eq!(query_pairs(&filters), vec![pair_of("fromTimestamp", "1700000000")]);

    let mut filters = Filters::default();
    filters.to_timestamp = Some(1700000001);
    assert_eq!(query_pairs(&filters), vec![pair_of("toTimestamp", "1700000001")]);
}

#[test]
fn market_cap_flag_builds_no_pair() {
    let mut filters = Filters::default();
    filters.include_market_cap = Some(true);
    assert!(query_pairs(&filters).is_empty());
}

#[test]
fn set_fields_appear_in_fixed_order() {
    let mut filters = Filters::default();
    filters.wallet = Some("w".to_string());
    filters.limit = Some(10);
    filters.chains = Some(vec!["solana".to_string()]);
    filters.tx_types = Some(vec![TxType::Swap]);
    filters.min_usd = Some(100);
    filters.new_trades = Some(true);
    filters.include_market_cap = Some(true);
    let pairs = query_pairs(&filters);
    assert_eq!(
        pairs,
        vec![
            pair_of("wallet", "w"),
            pair_of("limit", "10"),
            pair_of("chains", "solana"),
            pair_of("txTypes", "swap"),
            pair_of("minUSD", "100"),
            pair_of("newTrades", "true"),
        ]
    );
}

#[test]
fn tx_type_wire_names_are_snake_case() {
    assert_eq!(TxType::Swap.name(), "swap");
    assert_eq!(TxType::ContractCreation.name(), "contract_creation");
    assert_eq!(TxType::NftSweep.name(), "nft_sweep");
    assert_eq!(TxType::SudoPool.name(), "sudo_pool");
    assert_eq!(TxType::OptionEvent.name(), "option");
    assert_eq!(TxType::Lp.name(), "lp");
}
