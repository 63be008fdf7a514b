//! Encoding of feed items back into the JSON model.
//!
//! Encoding writes each record's members in declaration order, mandatory
//! members always and optional members only when they hold a value, which is
//! exactly the set of members the decoder reads back.

use vstd::prelude::*;
use crate::json::{JsonNumber, JsonValue, JsonVal, view_pairs, opt_member, lemma_view_pairs_index};
use crate::fields::{spec_encode_token_market_cap, encode_token_market_cap};
use crate::models::feed::{
    Swap, SwapV, Lp, LpV, Transfer, TransferV, Lending, LendingV, NftMint, NftMintV, NftTrade,
    NftTradeV, NftTransfer, NftTransferV, NftLending, NftLendingV, Bridge, BridgeV,
    ContractInteraction, ContractInteractionV, Wrap, WrapV, SudoPool, SudoPoolV, Reward,
    RewardV, Staking, StakingV, Perp, PerpV, Flashloan, FlashloanV, ContractCreation,
    ContractCreationV, NftLiquidation, NftLiquidationV, OptionType, OptionTypeV, NftSweep,
    NftSweepV, Item, ItemV, TokenMarketCap, TokenMarketCapV,
};

verus! {

/// The members of an encoded `swap` record.
pub open spec fn spec_encode_swap(s: SwapV) -> Seq<(Seq<char>, JsonVal)> {
    seq![
        ("wallet"@, JsonVal::Str(s.wallet)),
        ("wallet_label"@, JsonVal::Str(s.wallet_label)),
        ("tx_hash"@, JsonVal::Str(s.tx_hash)),
        ("tx_type"@, JsonVal::Str(s.tx_type)),
        ("chain"@, JsonVal::Str(s.chain)),
        ("index"@, JsonVal::Num(JsonNumber::PosInt(s.index as u64))),
        ("timestamp"@, JsonVal::Num(JsonNumber::PosInt(s.timestamp))),
        ("block"@, JsonVal::Num(JsonNumber::PosInt(s.block))),
        ("dex"@, JsonVal::Str(s.dex)),
        ("from"@, JsonVal::Str(s.from)),
        ("to"@, JsonVal::Str(s.to)),
        ("token0_address"@, JsonVal::Str(s.token0_address)),
        ("token0_amount"@, JsonVal::Num(s.token0_amount)),
        ("token0_amount_usd"@, JsonVal::Num(s.token0_amount_usd)),
        ("token0_name"@, JsonVal::Str(s.token0_name)),
        ("token0_price_usd"@, JsonVal::Num(s.token0_price_usd)),
        ("token0_symbol"@, JsonVal::Str(s.token0_symbol)),
        ("token0_icon_link"@, JsonVal::Str(s.token0_icon_link)),
        ("token1_address"@, JsonVal::Str(s.token1_address)),
        ("token1_amount"@, JsonVal::Num(s.token1_amount)),
        ("token1_amount_usd"@, JsonVal::Num(s.token1_amount_usd)),
        ("token1_name"@, JsonVal::Str(s.token1_name)),
        ("token1_price_usd"@, JsonVal::Num(s.token1_price_usd)),
        ("token1_symbol"@, JsonVal::Str(s.token1_symbol)),
        ("token1_icon_link"@, JsonVal::Str(s.token1_icon_link)),
        ("first_interaction"@, JsonVal::Bool(s.first_interaction)),
    ]
        + (opt_member("token_market_cap"@, match s.token_market_cap { Option::Some(x) => Option::Some(JsonVal::Obj(spec_encode_token_market_cap(x))), Option::None => Option::None }))
}

/// Encodes a `swap` record as a JSON object.
pub fn encode_swap(s: &Swap) -> (r: JsonValue)
    ensures
        r@ == JsonVal::Obj(spec_encode_swap(s@)),
{
    let mut ms: Vec<(String, JsonValue)> = Vec::new();
    ms.push(("wallet".to_owned(), JsonValue::Str(s.wallet.clone())));
    ms.push(("wallet_label".to_owned(), JsonValue::Str(s.wallet_label.clone())));
    ms.push(("tx_hash".to_owned(), JsonValue::Str(s.tx_hash.clone())));
    ms.push(("tx_type".to_owned(), JsonValue::Str(s.tx_type.clone())));
    ms.push(("chain".to_owned(), JsonValue::Str(s.chain.clone())));
    ms.push(("index".to_owned(), JsonValue::Num(JsonNumber::PosInt(s.index as u64))));
    ms.push(("timestamp".to_owned(), JsonValue::Num(JsonNumber::PosInt(s.timestamp))));
    ms.push(("block".to_owned(), JsonValue::Num(JsonNumber::PosInt(s.block))));
    ms.push(("dex".to_owned(), JsonValue::Str(s.dex.clone())));
    ms.push(("from".to_owned(), JsonValue::Str(s.from.clone())));
    ms.push(("to".to_owned(), JsonValue::Str(s.to.clone())));
    ms.push(("token0_address".to_owned(), JsonValue::Str(s.token0_address.clone())));
    ms.push(("token0_amount".to_owned(), JsonValue::Num(s.token0_amount)));
    ms.push(("token0_amount_usd".to_owned(), JsonValue::Num(s.token0_amount_usd)));
    ms.push(("token0_name".to_owned(), JsonValue::Str(s.token0_name.clone())));
    ms.push(("token0_price_usd".to_owned(), JsonValue::Num(s.token0_price_usd)));
    ms.push(("token0_symbol".to_owned(), JsonValue::Str(s.token0_symbol.clone())));
    ms.push(("token0_icon_link".to_owned(), JsonValue::Str(s.token0_icon_link.clone())));
    ms.push(("token1_address".to_owned(), JsonValue::Str(s.token1_address.clone())));
    ms.push(("token1_amount".to_owned(), JsonValue::Num(s.token1_amount)));
    ms.push(("token1_amount_usd".to_owned(), JsonValue::Num(s.token1_amount_usd)));
    ms.push(("token1_name".to_owned(), JsonValue::Str(s.token1_name.clone())));
    ms.push(("token1_price_usd".to_owned(), JsonValue::Num(s.token1_price_usd)));
    ms.push(("token1_symbol".to_owned(), JsonValue::Str(s.token1_symbol.clone())));
    ms.push(("token1_icon_link".to_owned(), JsonValue::Str(s.token1_icon_link.clone())));
    ms.push(("first_interaction".to_owned(), JsonValue::Bool(s.first_interaction)));
    let ghost mut done: Seq<(Seq<char>, JsonVal)> = seq![
        ("wallet"@, JsonVal::Str(s@.wallet)),
        ("wallet_label"@, JsonVal::Str(s@.wallet_label)),
        ("tx_hash"@, JsonVal::Str(s@.tx_hash)),
        ("tx_type"@, JsonVal::Str(s@.tx_type)),
        ("chain"@, JsonVal::Str(s@.chain)),
        ("index"@, JsonVal::Num(JsonNumber::PosInt(s@.index as u64))),
        ("timestamp"@, JsonVal::Num(JsonNumber::PosInt(s@.timestamp))),
        ("block"@, JsonVal::Num(JsonNumber::PosInt(s@.block))),
        ("dex"@, JsonVal::Str(s@.dex)),
        ("from"@, JsonVal::Str(s@.from)),
        ("to"@, JsonVal::Str(s@.to)),
        ("token0_address"@, JsonVal::Str(s@.token0_address)),
        ("token0_amount"@, JsonVal::Num(s@.token0_amount)),
        ("token0_amount_usd"@, JsonVal::Num(s@.token0_amount_usd)),
        ("token0_name"@, JsonVal::Str(s@.token0_name)),
        ("token0_price_usd"@, JsonVal::Num(s@.token0_price_usd)),
        ("token0_symbol"@, JsonVal::Str(s@.token0_symbol)),
        ("token0_icon_link"@, JsonVal::Str(s@.token0_icon_link)),
        ("token1_address"@, JsonVal::Str(s@.token1_address)),
        ("token1_amount"@, JsonVal::Num(s@.token1_amount)),
        ("token1_amount_usd"@, JsonVal::Num(s@.token1_amount_usd)),
        ("token1_name"@, JsonVal::Str(s@.token1_name)),
        ("token1_price_usd"@, JsonVal::Num(s@.token1_price_usd)),
        ("token1_symbol"@, JsonVal::Str(s@.token1_symbol)),
        ("token1_icon_link"@, JsonVal::Str(s@.token1_icon_link)),
        ("first_interaction"@, JsonVal::Bool(s@.first_interaction)),
    ];
    proof {
        lemma_view_pairs_index(ms, 0);
        assert(view_pairs(ms, 0) =~= done);
    }
    if let Option::Some(x) = &s.token_market_cap {
        ms.push(("token_market_cap".to_owned(), encode_token_market_cap(x)));
    }
    proof {
        done = done + (opt_member("token_market_cap"@, match s@.token_market_cap { Option::Some(x) => Option::Some(JsonVal::Obj(spec_encode_token_market_cap(x))), Option::None => Option::None }));
        lemma_view_pairs_index(ms, 0);
        assert(view_pairs(ms, 0) =~= done);
    }
    proof {
        assert(done =~= spec_encode_swap(s@));
    }
    JsonValue::Obj(ms)
}

/// The members of an encoded `lp` record.
pub open spec fn spec_encode_lp(s: LpV) -> Seq<(Seq<char>, JsonVal)> {
    seq![
        ("wallet"@, JsonVal::Str(s.wallet)),
        ("wallet_label"@, JsonVal::Str(s.wallet_label)),
        ("tx_hash"@, JsonVal::Str(s.tx_hash)),
        ("tx_type"@, JsonVal::Str(s.tx_type)),
        ("chain"@, JsonVal::Str(s.chain)),
        ("index"@, JsonVal::Num(JsonNumber::PosInt(s.index as u64))),
        ("timestamp"@, JsonVal::Num(JsonNumber::PosInt(s.timestamp))),
        ("block"@, JsonVal::Num(JsonNumber::PosInt(s.block))),
        ("dex"@, JsonVal::Str(s.dex)),
        ("from"@, JsonVal::Str(s.from)),
        ("type"@, JsonVal::Str(s.type_field)),
        ("token0_address"@, JsonVal::Str(s.token0_address)),
        ("token0_amount"@, JsonVal::Num(s.token0_amount)),
        ("token0_amount_usd"@, JsonVal::Num(s.token0_amount_usd)),
        ("token0_name"@, JsonVal::Str(s.token0_name)),
        ("token0_price_usd"@, JsonVal::Num(s.token0_price_usd)),
        ("token0_symbol"@, JsonVal::Str(s.token0_symbol)),
        ("token0_icon_link"@, JsonVal::Str(s.token0_icon_link)),
        ("token1_address"@, JsonVal::Str(s.token1_address)),
        ("token1_amount"@, JsonVal::Num(s.token1_amount)),
        ("token1_amount_usd"@, JsonVal::Num(s.token1_amount_usd)),
        ("token1_name"@, JsonVal::Str(s.token1_name)),
        ("token1_price_usd"@, JsonVal::Num(s.token1_price_usd)),
        ("token1_symbol"@, JsonVal::Str(s.token1_symbol)),
        ("token1_icon_link"@, JsonVal::Str(s.token1_icon_link)),
        ("lower_bound"@, JsonVal::Num(s.lower_bound)),
        ("upper_bound"@, JsonVal::Num(s.upper_bound)),
    ]
}

/// Encodes a `lp` record as a JSON object.
pub fn encode_lp(s: &Lp) -> (r: JsonValue)
    ensures
        r@ == JsonVal::Obj(spec_encode_lp(s@)),
{
    let mut ms: Vec<(String, JsonValue)> = Vec::new();
    ms.push(("wallet".to_owned(), JsonValue::Str(s.wallet.clone())));
    ms.push(("wallet_label".to_owned(), JsonValue::Str(s.wallet_label.clone())));
    ms.push(("tx_hash".to_owned(), JsonValue::Str(s.tx_hash.clone())));
    ms.push(("tx_type".to_owned(), JsonValue::Str(s.tx_type.clone())));
    ms.push(("chain".to_owned(), JsonValue::Str(s.chain.clone())));
    ms.push(("index".to_owned(), JsonValue::Num(JsonNumber::PosInt(s.index as u64))));
    ms.push(("timestamp".to_owned(), JsonValue::Num(JsonNumber::PosInt(s.timestamp))));
    ms.push(("block".to_owned(), JsonValue::Num(JsonNumber::PosInt(s.block))));
    ms.push(("dex".to_owned(), JsonValue::Str(s.dex.clone())));
    ms.push(("from".to_owned(), JsonValue::Str(s.from.clone())));
    ms.push(("type".to_owned(), JsonValue::Str(s.type_field.clone())));
    ms.push(("token0_address".to_owned(), JsonValue::Str(s.token0_address.clone())));
    ms.push(("token0_amount".to_owned(), JsonValue::Num(s.token0_amount)));
    ms.push(("token0_amount_usd".to_owned(), JsonValue::Num(s.token0_amount_usd)));
    ms.push(("token0_name".to_owned(), JsonValue::Str(s.token0_name.clone())));
    ms.push(("token0_price_usd".to_owned(), JsonValue::Num(s.token0_price_usd)));
    ms.push(("token0_symbol".to_owned(), JsonValue::Str(s.token0_symbol.clone())));
    ms.push(("token0_icon_link".to_owned(), JsonValue::Str(s.token0_icon_link.clone())));
    ms.push(("token1_address".to_owned(), JsonValue::Str(s.token1_address.clone())));
    ms.push(("token1_amount".to_owned(), JsonValue::Num(s.token1_amount)));
    ms.push(("token1_amount_usd".to_owned(), JsonValue::Num(s.token1_amount_usd)));
    ms.push(("token1_name".to_owned(), JsonValue::Str(s.token1_name.clone())));
    ms.push(("token1_price_usd".to_owned(), JsonValue::Num(s.token1_price_usd)));
    ms.push(("token1_symbol".to_owned(), JsonValue::Str(s.token1_symbol.clone())));
    ms.push(("token1_icon_link".to_owned(), JsonValue::Str(s.token1_icon_link.clone())));
    ms.push(("lower_bound".to_owned(), JsonValue::Num(s.lower_bound)));
    ms.push(("upper_bound".to_owned(), JsonValue::Num(s.upper_bound)));
    proof {
        lemma_view_pairs_index(ms, 0);
        assert(view_pairs(ms, 0) =~= spec_encode_lp(s@));
    }
    JsonValue::Obj(ms)
}

/// The members of an encoded `transfer` record.
pub open spec fn spec_encode_transfer(s: TransferV) -> Seq<(Seq<char>, JsonVal)> {
    seq![
        ("wallet"@, JsonVal::Str(s.wallet)),
        ("wallet_label"@, JsonVal::Str(s.wallet_label)),
        ("tx_hash"@, JsonVal::Str(s.tx_hash)),
        ("tx_type"@, JsonVal::Str(s.tx_type)),
        ("chain"@, JsonVal::Str(s.chain)),
        ("index"@, JsonVal::Num(JsonNumber::PosInt(s.index as u64))),
        ("timestamp"@, JsonVal::Num(JsonNumber::PosInt(s.timestamp))),
        ("block"@, JsonVal::Num(JsonNumber::PosInt(s.block))),
        ("from"@, JsonVal::Str(s.from)),
        ("to"@, JsonVal::Str(s.to)),
        ("from_label"@, JsonVal::Str(s.from_label)),
        ("to_label"@, JsonVal::Str(s.to_label)),
        ("amount_usd"@, JsonVal::Num(s.amount_usd)),
        ("contract_address"@, JsonVal::Str(s.contract_address)),
        ("name"@, JsonVal::Str(s.name)),
        ("symbol"@, JsonVal::Str(s.symbol)),
        ("token_price_usd"@, JsonVal::Num(s.token_price_usd)),
        ("type"@, JsonVal::Str(s.type_field)),
        ("token_icon_link"@, JsonVal::Str(s.token_icon_link)),
    ]
        + (opt_member("token_market_cap"@, match s.token_market_cap { Option::Some(x) => Option::Some(JsonVal::Obj(spec_encode_token_market_cap(x))), Option::None => Option::None }))
}

/// Encodes a `transfer` record as a JSON object.
pub fn encode_transfer(s: &Transfer) -> (r: JsonValue)
    ensures
        r@ == JsonVal::Obj(spec_encode_transfer(s@)),
{
    let mut ms: Vec<(String, JsonValue)> = Vec::new();
    ms.push(("wallet".to_owned(), JsonValue::Str(s.wallet.clone())));
    ms.push(("wallet_label".to_owned(), JsonValue::Str(s.wallet_label.clone())));
    ms.push(("tx_hash".to_owned(), JsonValue::Str(s.tx_hash.clone())));
    ms.push(("tx_type".to_owned(), JsonValue::Str(s.tx_type.clone())));
    ms.push(("chain".to_owned(), JsonValue::Str(s.chain.clone())));
    ms.push(("index".to_owned(), JsonValue::Num(JsonNumber::PosInt(s.index as u64))));
    ms.push(("timestamp".to_owned(), JsonValue::Num(JsonNumber::PosInt(s.timestamp))));
    ms.push(("block".to_owned(), JsonValue::Num(JsonNumber::PosInt(s.block))));
    ms.push(("from".to_owned(), JsonValue::Str(s.from.clone())));
    ms.push(("to".to_owned(), JsonValue::Str(s.to.clone())));
    ms.push(("from_label".to_owned(), JsonValue::Str(s.from_label.clone())));
    ms.push(("to_label".to_owned(), JsonValue::Str(s.to_label.clone())));
    ms.push(("amount_usd".to_owned(), JsonValue::Num(s.amount_usd)));
    ms.push(("contract_address".to_owned(), JsonValue::Str(s.contract_address.clone())));
    ms.push(("name".to_owned(), JsonValue::Str(s.name.clone())));
    ms.push(("symbol".to_owned(), JsonValue::Str(s.symbol.clone())));
    ms.push(("token_price_usd".to_owned(), JsonValue::Num(s.token_price_usd)));
    ms.push(("type".to_owned(), JsonValue::Str(s.type_field.clone())));
    ms.push(("token_icon_link".to_owned(), JsonValue::Str(s.token_icon_link.clone())));
    let ghost mut done: Seq<(Seq<char>, JsonVal)> = seq![
        ("wallet"@, JsonVal::Str(s@.wallet)),
        ("wallet_label"@, JsonVal::Str(s@.wallet_label)),
        ("tx_hash"@, JsonVal::Str(s@.tx_hash)),
        ("tx_type"@, JsonVal::Str(s@.tx_type)),
        ("chain"@, JsonVal::Str(s@.chain)),
        ("index"@, JsonVal::Num(JsonNumber::PosInt(s@.index as u64))),
        ("timestamp"@, JsonVal::Num(JsonNumber::PosInt(s@.timestamp))),
        ("block"@, JsonVal::Num(JsonNumber::PosInt(s@.block))),
        ("from"@, JsonVal::Str(s@.from)),
        ("to"@, JsonVal::Str(s@.to)),
        ("from_label"@, JsonVal::Str(s@.from_label)),
        ("to_label"@, JsonVal::Str(s@.to_label)),
        ("amount_usd"@, JsonVal::Num(s@.amount_usd)),
        ("contract_address"@, JsonVal::Str(s@.contract_address)),
        ("name"@, JsonVal::Str(s@.name)),
        ("symbol"@, JsonVal::Str(s@.symbol)),
        ("token_price_usd"@, JsonVal::Num(s@.token_price_usd)),
        ("type"@, JsonVal::Str(s@.type_field)),
        ("token_icon_link"@, JsonVal::Str(s@.token_icon_link)),
    ];
    proof {
        lemma_view_pairs_index(ms, 0);
        assert(view_pairs(ms, 0) =~= done);
    }
    if let Option::Some(x) = &s.token_market_cap {
        ms.push(("token_market_cap".to_owned(), encode_token_market_cap(x)));
    }
    proof {
        done = done + (opt_member("token_market_cap"@, match s@.token_market_cap { Option::Some(x) => Option::Some(JsonVal::Obj(spec_encode_token_market_cap(x))), Option::None => Option::None }));
        lemma_view_pairs_index(ms, 0);
        assert(view_pairs(ms, 0) =~= done);
    }
    proof {
        assert(done =~= spec_encode_transfer(s@));
    }
    JsonValue::Obj(ms)
}

/// The members of an encoded `lending` record.
pub open spec fn spec_encode_lending(s: LendingV) -> Seq<(Seq<char>, JsonVal)> {
    seq![
        ("wallet"@, JsonVal::Str(s.wallet)),
        ("wallet_label"@, JsonVal::Str(s.wallet_label)),
        ("tx_hash"@, JsonVal::Str(s.tx_hash)),
        ("tx_type"@, JsonVal::Str(s.tx_type)),
        ("chain"@, JsonVal::Str(s.chain)),
        ("index"@, JsonVal::Num(JsonNumber::PosInt(s.index as u64))),
        ("timestamp"@, JsonVal::Num(JsonNumber::PosInt(s.timestamp))),
        ("block"@, JsonVal::Num(JsonNumber::PosInt(s.block))),
        ("from"@, JsonVal::Str(s.from)),
        ("from_label"@, JsonVal::Str(s.from_label)),
        ("action"@, JsonVal::Str(s.action)),
        ("address"@, JsonVal::Str(s.address)),
        ("amount"@, JsonVal::Num(s.amount)),
        ("amount_usd"@, JsonVal::Num(s.amount_usd)),
        ("dex"@, JsonVal::Str(s.dex)),
        ("health_factor"@, JsonVal::Num(s.health_factor)),
        ("name"@, JsonVal::Str(s.name)),
        ("platform"@, JsonVal::Str(s.platform)),
        ("price_usd"@, JsonVal::Num(s.price_usd)),
        ("symbol"@, JsonVal::Str(s.symbol)),
        ("token_icon_link"@, JsonVal::Str(s.token_icon_link)),
    ]
}

/// Encodes a `lending` record as a JSON object.
pub fn encode_lending(s: &Lending) -> (r: JsonValue)
    ensures
        r@ == JsonVal::Obj(spec_encode_lending(s@)),
{
    let mut ms: Vec<(String, JsonValue)> = Vec::new();
    ms.push(("wallet".to_owned(), JsonValue::Str(s.wallet.clone())));
    ms.push(("wallet_label".to_owned(), JsonValue::Str(s.wallet_label.clone())));
    ms.push(("tx_hash".to_owned(), JsonValue::Str(s.tx_hash.clone())));
    ms.push(("tx_type".to_owned(), JsonValue::Str(s.tx_type.clone())));
    ms.push(("chain".to_owned(), JsonValue::Str(s.chain.clone())));
    ms.push(("index".to_owned(), JsonValue::Num(JsonNumber::PosInt(s.index as u64))));
    ms.push(("timestamp".to_owned(), JsonValue::Num(JsonNumber::PosInt(s.timestamp))));
    ms.push(("block".to_owned(), JsonValue::Num(JsonNumber::PosInt(s.block))));
    ms.push(("from".to_owned(), JsonValue::Str(s.from.clone())));
    ms.push(("from_label".to_owned(), JsonValue::Str(s.from_label.clone())));
    ms.push(("action".to_owned(), JsonValue::Str(s.action.clone())));
    ms.push(("address".to_owned(), JsonValue::Str(s.address.clone())));
    ms.push(("amount".to_owned(), JsonValue::Num(s.amount)));
    ms.push(("amount_usd".to_owned(), JsonValue::Num(s.amount_usd)));
    ms.push(("dex".to_owned(), JsonValue::Str(s.dex.clone())));
    ms.push(("health_factor".to_owned(), JsonValue::Num(s.health_factor)));
    ms.push(("name".to_owned(), JsonValue::Str(s.name.clone())));
    ms.push(("platform".to_owned(), JsonValue::Str(s.platform.clone())));
    ms.push(("price_usd".to_owned(), JsonValue::Num(s.price_usd)));
    ms.push(("symbol".to_owned(), JsonValue::Str(s.symbol.clone())));
    ms.push(("token_icon_link".to_owned(), JsonValue::Str(s.token_icon_link.clone())));
    proof {
        lemma_view_pairs_index(ms, 0);
        assert(view_pairs(ms, 0) =~= spec_encode_lending(s@));
    }
    JsonValue::Obj(ms)
}

/// The members of an encoded `nft_mint` record.
pub open spec fn spec_encode_nft_mint(s: NftMintV) -> Seq<(Seq<char>, JsonVal)> {
    seq![
        ("wallet"@, JsonVal::Str(s.wallet)),
        ("wallet_label"@, JsonVal::Str(s.wallet_label)),
        ("tx_hash"@, JsonVal::Str(s.tx_hash)),
        ("tx_type"@, JsonVal::Str(s.tx_type)),
        ("chain"@, JsonVal::Str(s.chain)),
        ("index"@, JsonVal::Num(JsonNumber::PosInt(s.index as u64))),
        ("timestamp"@, JsonVal::Num(JsonNumber::PosInt(s.timestamp))),
        ("block"@, JsonVal::Num(JsonNumber::PosInt(s.block))),
        ("from"@, JsonVal::Str(s.from)),
        ("to"@, JsonVal::Str(s.to)),
        ("from_label"@, JsonVal::Str(s.from_label)),
        ("to_label"@, JsonVal::Str(s.to_label)),
        ("thumbnail"@, JsonVal::Str(s.thumbnail)),
        ("image"@, JsonVal::Str(s.image)),
        ("amount"@, JsonVal::Num(s.amount)),
        ("contract_address"@, JsonVal::Str(s.contract_address)),
        ("contract_type"@, JsonVal::Str(s.contract_type)),
        ("fee"@, JsonVal::Num(s.fee)),
        ("nft_name"@, JsonVal::Str(s.nft_name)),
        ("nft_symbol"@, JsonVal::Str(s.nft_symbol)),
        ("nft_token_id"@, JsonVal::Str(s.nft_token_id)),
        ("currency_symbol"@, JsonVal::Str(s.currency_symbol)),
        ("type"@, JsonVal::Str(s.type_field)),
        ("value"@, JsonVal::Num(s.value)),
        ("value_usd"@, JsonVal::Num(s.value_usd)),
    ]
}

/// Encodes a `nft_mint` record as a JSON object.
pub fn encode_nft_mint(s: &NftMint) -> (r: JsonValue)
    ensures
        r@ == JsonVal::Obj(spec_encode_nft_mint(s@)),
{
    let mut ms: Vec<(String, JsonValue)> = Vec::new();
    ms.push(("wallet".to_owned(), JsonValue::Str(s.wallet.clone())));
    ms.push(("wallet_label".to_owned(), JsonValue::Str(s.wallet_label.clone())));
    ms.push(("tx_hash".to_owned(), JsonValue::Str(s.tx_hash.clone())));
    ms.push(("tx_type".to_owned(), JsonValue::Str(s.tx_type.clone())));
    ms.push(("chain".to_owned(), JsonValue::Str(s.chain.clone())));
    ms.push(("index".to_owned(), JsonValue::Num(JsonNumber::PosInt(s.index as u64))));
    ms.push(("timestamp".to_owned(), JsonValue::Num(JsonNumber::PosInt(s.timestamp))));
    ms.push(("block".to_owned(), JsonValue::Num(JsonNumber::PosInt(s.block))));
    ms.push(("from".to_owned(), JsonValue::Str(s.from.clone())));
    ms.push(("to".to_owned(), JsonValue::Str(s.to.clone())));
    ms.push(("from_label".to_owned(), JsonValue::Str(s.from_label.clone())));
    ms.push(("to_label".to_owned(), JsonValue::Str(s.to_label.clone())));
    ms.push(("thumbnail".to_owned(), JsonValue::Str(s.thumbnail.clone())));
    ms.push(("image".to_owned(), JsonValue::Str(s.image.clone())));
    ms.push(("amount".to_owned(), JsonValue::Num(s.amount)));
    ms.push(("contract_address".to_owned(), JsonValue::Str(s.contract_address.clone())));
    ms.push(("contract_type".to_owned(), JsonValue::Str(s.contract_type.clone())));
    ms.push(("fee".to_owned(), JsonValue::Num(s.fee)));
    ms.push(("nft_name".to_owned(), JsonValue::Str(s.nft_name.clone())));
    ms.push(("nft_symbol".to_owned(), JsonValue::Str(s.nft_symbol.clone())));
    ms.push(("nft_token_id".to_owned(), JsonValue::Str(s.nft_token_id.clone())));
    ms.push(("currency_symbol".to_owned(), JsonValue::Str(s.currency_symbol.clone())));
    ms.push(("type".to_owned(), JsonValue::Str(s.type_field.clone())));
    ms.push(("value".to_owned(), JsonValue::Num(s.value)));
    ms.push(("value_usd".to_owned(), JsonValue::Num(s.value_usd)));
    proof {
        lemma_view_pairs_index(ms, 0);
        assert(view_pairs(ms, 0) =~= spec_encode_nft_mint(s@));
    }
    JsonValue::Obj(ms)
}

/// The members of an encoded `nft_trade` record.
pub open spec fn spec_encode_nft_trade(s: NftTradeV) -> Seq<(Seq<char>, JsonVal)> {
    seq![
        ("wallet"@, JsonVal::Str(s.wallet)),
        ("wallet_label"@, JsonVal::Str(s.wallet_label)),
        ("tx_hash"@, JsonVal::Str(s.tx_hash)),
        ("tx_type"@, JsonVal::Str(s.tx_type)),
        ("chain"@, JsonVal::Str(s.chain)),
        ("index"@, JsonVal::Num(JsonNumber::PosInt(s.index as u64))),
        ("timestamp"@, JsonVal::Num(JsonNumber::PosInt(s.timestamp))),
        ("block"@, JsonVal::Num(JsonNumber::PosInt(s.block))),
        ("from"@, JsonVal::Str(s.from)),
        ("to"@, JsonVal::Str(s.to)),
        ("thumbnail"@, JsonVal::Str(s.thumbnail)),
        ("image"@, JsonVal::Str(s.image)),
        ("action"@, JsonVal::Str(s.action)),
        ("contract"@, JsonVal::Str(s.contract)),
        ("marketplace"@, JsonVal::Str(s.marketplace)),
        ("nft_address"@, JsonVal::Str(s.nft_address)),
        ("nft_name"@, JsonVal::Str(s.nft_name)),
        ("nft_symbol"@, JsonVal::Str(s.nft_symbol)),
        ("nft_token_id"@, JsonVal::Str(s.nft_token_id)),
        ("price"@, JsonVal::Num(s.price)),
        ("price_usd"@, JsonVal::Num(s.price_usd)),
        ("profit"@, JsonVal::Num(s.profit)),
        ("currency_symbol"@, JsonVal::Str(s.currency_symbol)),
        ("buyer"@, JsonVal::Str(s.buyer)),
        ("seller"@, JsonVal::Str(s.seller)),
        ("token"@, JsonVal::Str(s.token)),
        ("first_interaction"@, JsonVal::Bool(s.first_interaction)),
        ("bid_accepted"@, JsonVal::Bool(s.bid_accepted)),
    ]
}

/// Encodes a `nft_trade` record as a JSON object.
pub fn encode_nft_trade(s: &NftTrade) -> (r: JsonValue)
    ensures
        r@ == JsonVal::Obj(spec_encode_nft_trade(s@)),
{
    let mut ms: Vec<(String, JsonValue)> = Vec::new();
    ms.push(("wallet".to_owned(), JsonValue::Str(s.wallet.clone())));
    ms.push(("wallet_label".to_owned(), JsonValue::Str(s.wallet_label.clone())));
    ms.push(("tx_hash".to_owned(), JsonValue::Str(s.tx_hash.clone())));
    ms.push(("tx_type".to_owned(), JsonValue::Str(s.tx_type.clone())));
    ms.push(("chain".to_owned(), JsonValue::Str(s.chain.clone())));
    ms.push(("index".to_owned(), JsonValue::Num(JsonNumber::PosInt(s.index as u64))));
    ms.push(("timestamp".to_owned(), JsonValue::Num(JsonNumber::PosInt(s.timestamp))));
    ms.push(("block".to_owned(), JsonValue::Num(JsonNumber::PosInt(s.block))));
    ms.push(("from".to_owned(), JsonValue::Str(s.from.clone())));
    ms.push(("to".to_owned(), JsonValue::Str(s.to.clone())));
    ms.push(("thumbnail".to_owned(), JsonValue::Str(s.thumbnail.clone())));
    ms.push(("image".to_owned(), JsonValue::Str(s.image.clone())));
    ms.push(("action".to_owned(), JsonValue::Str(s.action.clone())));
    ms.push(("contract".to_owned(), JsonValue::Str(s.contract.clone())));
    ms.push(("marketplace".to_owned(), JsonValue::Str(s.marketplace.clone())));
    ms.push(("nft_address".to_owned(), JsonValue::Str(s.nft_address.clone())));
    ms.push(("nft_name".to_owned(), JsonValue::Str(s.nft_name.clone())));
    ms.push(("nft_symbol".to_owned(), JsonValue::Str(s.nft_symbol.clone())));
    ms.push(("nft_token_id".to_owned(), JsonValue::Str(s.nft_token_id.clone())));
    ms.push(("price".to_owned(), JsonValue::Num(s.price)));
    ms.push(("price_usd".to_owned(), JsonValue::Num(s.price_usd)));
    ms.push(("profit".to_owned(), JsonValue::Num(s.profit)));
    ms.push(("currency_symbol".to_owned(), JsonValue::Str(s.currency_symbol.clone())));
    ms.push(("buyer".to_owned(), JsonValue::Str(s.buyer.clone())));
    ms.push(("seller".to_owned(), JsonValue::Str(s.seller.clone())));
    ms.push(("token".to_owned(), JsonValue::Str(s.token.clone())));
    ms.push(("first_interaction".to_owned(), JsonValue::Bool(s.first_interaction)));
    ms.push(("bid_accepted".to_owned(), JsonValue::Bool(s.bid_accepted)));
    proof {
        lemma_view_pairs_index(ms, 0);
        assert(view_pairs(ms, 0) =~= spec_encode_nft_trade(s@));
    }
    JsonValue::Obj(ms)
}

/// The members of an encoded `nft_transfer` record.
pub open spec fn spec_encode_nft_transfer(s: NftTransferV) -> Seq<(Seq<char>, JsonVal)> {
    seq![
        ("wallet"@, JsonVal::Str(s.wallet)),
        ("wallet_label"@, JsonVal::Str(s.wallet_label)),
        ("tx_hash"@, JsonVal::Str(s.tx_hash)),
        ("tx_type"@, JsonVal::Str(s.tx_type)),
        ("chain"@, JsonVal::Str(s.chain)),
        ("index"@, JsonVal::Num(JsonNumber::PosInt(s.index as u64))),
        ("timestamp"@, JsonVal::Num(JsonNumber::PosInt(s.timestamp))),
        ("block"@, JsonVal::Num(JsonNumber::PosInt(s.block))),
        ("from"@, JsonVal::Str(s.from)),
        ("to"@, JsonVal::Str(s.to)),
        ("from_label"@, JsonVal::Str(s.from_label)),
        ("to_label"@, JsonVal::Str(s.to_label)),
        ("thumbnail"@, JsonVal::Str(s.thumbnail)),
        ("image"@, JsonVal::Str(s.image)),
        ("contract_address"@, JsonVal::Str(s.contract_address)),
        ("contract_type"@, JsonVal::Str(s.contract_type)),
        ("fee"@, JsonVal::Num(s.fee)),
        ("nft_name"@, JsonVal::Str(s.nft_name)),
        ("nft_symbol"@, JsonVal::Str(s.nft_symbol)),
        ("nft_token_id"@, JsonVal::Str(s.nft_token_id)),
        ("type"@, JsonVal::Str(s.type_field)),
        ("value"@, JsonVal::Num(s.value)),
    ]
}

/// Encodes a `nft_transfer` record as a JSON object.
pub fn encode_nft_transfer(s: &NftTransfer) -> (r: JsonValue)
    ensures
        r@ == JsonVal::Obj(spec_encode_nft_transfer(s@)),
{
    let mut ms: Vec<(String, JsonValue)> = Vec::new();
    ms.push(("wallet".to_owned(), JsonValue::Str(s.wallet.clone())));
    ms.push(("wallet_label".to_owned(), JsonValue::Str(s.wallet_label.clone())));
    ms.push(("tx_hash".to_owned(), JsonValue::Str(s.tx_hash.clone())));
    ms.push(("tx_type".to_owned(), JsonValue::Str(s.tx_type.clone())));
    ms.push(("chain".to_owned(), JsonValue::Str(s.chain.clone())));
    ms.push(("index".to_owned(), JsonValue::Num(JsonNumber::PosInt(s.index as u64))));
    ms.push(("timestamp".to_owned(), JsonValue::Num(JsonNumber::PosInt(s.timestamp))));
    ms.push(("block".to_owned(), JsonValue::Num(JsonNumber::PosInt(s.block))));
    ms.push(("from".to_owned(), JsonValue::Str(s.from.clone())));
    ms.push(("to".to_owned(), JsonValue::Str(s.to.clone())));
    ms.push(("from_label".to_owned(), JsonValue::Str(s.from_label.clone())));
    ms.push(("to_label".to_owned(), JsonValue::Str(s.to_label.clone())));
    ms.push(("thumbnail".to_owned(), JsonValue::Str(s.thumbnail.clone())));
    ms.push(("image".to_owned(), JsonValue::Str(s.image.clone())));
    ms.push(("contract_address".to_owned(), JsonValue::Str(s.contract_address.clone())));
    ms.push(("contract_type".to_owned(), JsonValue::Str(s.contract_type.clone())));
    ms.push(("fee".to_owned(), JsonValue::Num(s.fee)));
    ms.push(("nft_name".to_owned(), JsonValue::Str(s.nft_name.clone())));
    ms.push(("nft_symbol".to_owned(), JsonValue::Str(s.nft_symbol.clone())));
    ms.push(("nft_token_id".to_owned(), JsonValue::Str(s.nft_token_id.clone())));
    ms.push(("type".to_owned(), JsonValue::Str(s.type_field.clone())));
    ms.push(("value".to_owned(), JsonValue::Num(s.value)));
    proof {
        lemma_view_pairs_index(ms, 0);
        assert(view_pairs(ms, 0) =~= spec_encode_nft_transfer(s@));
    }
    JsonValue::Obj(ms)
}

/// The members of an encoded `nft_lending` record.
pub open spec fn spec_encode_nft_lending(s: NftLendingV) -> Seq<(Seq<char>, JsonVal)> {
    seq![
        ("wallet"@, JsonVal::Str(s.wallet)),
        ("wallet_label"@, JsonVal::Str(s.wallet_label)),
        ("tx_hash"@, JsonVal::Str(s.tx_hash)),
        ("tx_type"@, JsonVal::Str(s.tx_type)),
        ("chain"@, JsonVal::Str(s.chain)),
        ("index"@, JsonVal::Num(JsonNumber::PosInt(s.index as u64))),
        ("timestamp"@, JsonVal::Num(JsonNumber::PosInt(s.timestamp))),
        ("block"@, JsonVal::Num(JsonNumber::PosInt(s.block))),
        ("from"@, JsonVal::Str(s.from)),
        ("to"@, JsonVal::Str(s.to)),
        ("from_label"@, JsonVal::Str(s.from_label)),
        ("to_label"@, JsonVal::Str(s.to_label)),
        ("thumbnail"@, JsonVal::Str(s.thumbnail)),
        ("image"@, JsonVal::Str(s.image)),
        ("action"@, JsonVal::Str(s.action)),
        ("currency_address"@, JsonVal::Str(s.currency_address)),
        ("currency_symbol"@, JsonVal::Str(s.currency_symbol)),
        ("interest"@, JsonVal::Num(s.interest)),
        ("nft_address"@, JsonVal::Str(s.nft_address)),
        ("nft_name"@, JsonVal::Str(s.nft_name)),
        ("nft_symbol"@, JsonVal::Str(s.nft_symbol)),
        ("platform"@, JsonVal::Str(s.platform)),
        ("nft_token_id"@, JsonVal::Str(s.nft_token_id)),
        ("price"@, JsonVal::Num(s.price)),
        ("price_usd"@, JsonVal::Num(s.price_usd)),
        ("terms"@, JsonVal::Num(s.terms)),
        ("refinance"@, JsonVal::Bool(s.refinance)),
    ]
}

/// Encodes a `nft_lending` record as a JSON object.
pub fn encode_nft_lending(s: &NftLending) -> (r: JsonValue)
    ensures
        r@ == JsonVal::Obj(spec_encode_nft_lending(s@)),
{
    let mut ms: Vec<(String, JsonValue)> = Vec::new();
    ms.push(("wallet".to_owned(), JsonValue::Str(s.wallet.clone())));
    ms.push(("wallet_label".to_owned(), JsonValue::Str(s.wallet_label.clone())));
    ms.push(("tx_hash".to_owned(), JsonValue::Str(s.tx_hash.clone())));
    ms.push(("tx_type".to_owned(), JsonValue::Str(s.tx_type.clone())));
    ms.push(("chain".to_owned(), JsonValue::Str(s.chain.clone())));
    ms.push(("index".to_owned(), JsonValue::Num(JsonNumber::PosInt(s.index as u64))));
    ms.push(("timestamp".to_owned(), JsonValue::Num(JsonNumber::PosInt(s.timestamp))));
    ms.push(("block".to_owned(), JsonValue::Num(JsonNumber::PosInt(s.block))));
    ms.push(("from".to_owned(), JsonValue::Str(s.from.clone())));
    ms.push(("to".to_owned(), JsonValue::Str(s.to.clone())));
    ms.push(("from_label".to_owned(), JsonValue::Str(s.from_label.clone())));
    ms.push(("to_label".to_owned(), JsonValue::Str(s.to_label.clone())));
    ms.push(("thumbnail".to_owned(), JsonValue::Str(s.thumbnail.clone())));
    ms.push(("image".to_owned(), JsonValue::Str(s.image.clone())));
    ms.push(("action".to_owned(), JsonValue::Str(s.action.clone())));
    ms.push(("currency_address".to_owned(), JsonValue::Str(s.currency_address.clone())));
    ms.push(("currency_symbol".to_owned(), JsonValue::Str(s.currency_symbol.clone())));
    ms.push(("interest".to_owned(), JsonValue::Num(s.interest)));
    ms.push(("nft_address".to_owned(), JsonValue::Str(s.nft_address.clone())));
    ms.push(("nft_name".to_owned(), JsonValue::Str(s.nft_name.clone())));
    ms.push(("nft_symbol".to_owned(), JsonValue::Str(s.nft_symbol.clone())));
    ms.push(("platform".to_owned(), JsonValue::Str(s.platform.clone())));
    ms.push(("nft_token_id".to_owned(), JsonValue::Str(s.nft_token_id.clone())));
    ms.push(("price".to_owned(), JsonValue::Num(s.price)));
    ms.push(("price_usd".to_owned(), JsonValue::Num(s.price_usd)));
    ms.push(("terms".to_owned(), JsonValue::Num(s.terms)));
    ms.push(("refinance".to_owned(), JsonValue::Bool(s.refinance)));
    proof {
        lemma_view_pairs_index(ms, 0);
        assert(view_pairs(ms, 0) =~= spec_encode_nft_lending(s@));
    }
    JsonValue::Obj(ms)
}

/// The members of an encoded `bridge` record.
pub open spec fn spec_encode_bridge(s: BridgeV) -> Seq<(Seq<char>, JsonVal)> {
    seq![
        ("wallet"@, JsonVal::Str(s.wallet)),
        ("wallet_label"@, JsonVal::Str(s.wallet_label)),
        ("tx_hash"@, JsonVal::Str(s.tx_hash)),
        ("tx_type"@, JsonVal::Str(s.tx_type)),
        ("chain"@, JsonVal::Str(s.chain)),
        ("index"@, JsonVal::Num(JsonNumber::PosInt(s.index as u64))),
        ("timestamp"@, JsonVal::Num(JsonNumber::PosInt(s.timestamp))),
        ("block"@, JsonVal::Num(JsonNumber::PosInt(s.block))),
        ("from"@, JsonVal::Str(s.from)),
        ("to"@, JsonVal::Str(s.to)),
        ("from_label"@, JsonVal::Str(s.from_label)),
        ("to_label"@, JsonVal::Str(s.to_label)),
        ("token_address"@, JsonVal::Str(s.token_address)),
        ("token_name"@, JsonVal::Str(s.token_name)),
        ("token_symbol"@, JsonVal::Str(s.token_symbol)),
        ("token_icon_link"@, JsonVal::Str(s.token_icon_link)),
        ("amount"@, JsonVal::Num(s.amount)),
        ("amount_usd"@, JsonVal::Num(s.amount_usd)),
        ("from_chain"@, JsonVal::Str(s.from_chain)),
        ("to_chain"@, JsonVal::Str(s.to_chain)),
        ("platform"@, JsonVal::Str(s.platform)),
        ("price"@, JsonVal::Num(s.price)),
        ("type"@, JsonVal::Str(s.type_field)),
    ]
}

/// Encodes a `bridge` record as a JSON object.
pub fn encode_bridge(s: &Bridge) -> (r: JsonValue)
    ensures
        r@ == JsonVal::Obj(spec_encode_bridge(s@)),
{
    let mut ms: Vec<(String, JsonValue)> = Vec::new();
    ms.push(("wallet".to_owned(), JsonValue::Str(s.wallet.clone())));
    ms.push(("wallet_label".to_owned(), JsonValue::Str(s.wallet_label.clone())));
    ms.push(("tx_hash".to_owned(), JsonValue::Str(s.tx_hash.clone())));
    ms.push(("tx_type".to_owned(), JsonValue::Str(s.tx_type.clone())));
    ms.push(("chain".to_owned(), JsonValue::Str(s.chain.clone())));
    ms.push(("index".to_owned(), JsonValue::Num(JsonNumber::PosInt(s.index as u64))));
    ms.push(("timestamp".to_owned(), JsonValue::Num(JsonNumber::PosInt(s.timestamp))));
    ms.push(("block".to_owned(), JsonValue::Num(JsonNumber::PosInt(s.block))));
    ms.push(("from".to_owned(), JsonValue::Str(s.from.clone())));
    ms.push(("to".to_owned(), JsonValue::Str(s.to.clone())));
    ms.push(("from_label".to_owned(), JsonValue::Str(s.from_label.clone())));
    ms.push(("to_label".to_owned(), JsonValue::Str(s.to_label.clone())));
    ms.push(("token_address".to_owned(), JsonValue::Str(s.token_address.clone())));
    ms.push(("token_name".to_owned(), JsonValue::Str(s.token_name.clone())));
    ms.push(("token_symbol".to_owned(), JsonValue::Str(s.token_symbol.clone())));
    ms.push(("token_icon_link".to_owned(), JsonValue::Str(s.token_icon_link.clone())));
    ms.push(("amount".to_owned(), JsonValue::Num(s.amount)));
    ms.push(("amount_usd".to_owned(), JsonValue::Num(s.amount_usd)));
    ms.push(("from_chain".to_owned(), JsonValue::Str(s.from_chain.clone())));
    ms.push(("to_chain".to_owned(), JsonValue::Str(s.to_chain.clone())));
    ms.push(("platform".to_owned(), JsonValue::Str(s.platform.clone())));
    ms.push(("price".to_owned(), JsonValue::Num(s.price)));
    ms.push(("type".to_owned(), JsonValue::Str(s.type_field.clone())));
    proof {
        lemma_view_pairs_index(ms, 0);
        assert(view_pairs(ms, 0) =~= spec_encode_bridge(s@));
    }
    JsonValue::Obj(ms)
}

/// The members of an encoded `contract_interaction` record.
pub open spec fn spec_encode_contract_interaction(s: ContractInteractionV) -> Seq<(Seq<char>, JsonVal)> {
    seq![
        ("wallet"@, JsonVal::Str(s.wallet)),
        ("wallet_label"@, JsonVal::Str(s.wallet_label)),
        ("tx_hash"@, JsonVal::Str(s.tx_hash)),
        ("tx_type"@, JsonVal::Str(s.tx_type)),
        ("chain"@, JsonVal::Str(s.chain)),
        ("index"@, JsonVal::Num(JsonNumber::PosInt(s.index as u64))),
        ("timestamp"@, JsonVal::Num(JsonNumber::PosInt(s.timestamp))),
        ("block"@, JsonVal::Num(JsonNumber::PosInt(s.block))),
        ("from"@, JsonVal::Str(s.from)),
        ("to"@, JsonVal::Str(s.to)),
        ("contract_address"@, JsonVal::Str(s.contract_address)),
        ("contract_label"@, JsonVal::Str(s.contract_label)),
    ]
}

/// Encodes a `contract_interaction` record as a JSON object.
pub fn encode_contract_interaction(s: &ContractInteraction) -> (r: JsonValue)
    ensures
        r@ == JsonVal::Obj(spec_encode_contract_interaction(s@)),
{
    let mut ms: Vec<(String, JsonValue)> = Vec::new();
    ms.push(("wallet".to_owned(), JsonValue::Str(s.wallet.clone())));
    ms.push(("wallet_label".to_owned(), JsonValue::Str(s.wallet_label.clone())));
    ms.push(("tx_hash".to_owned(), JsonValue::Str(s.tx_hash.clone())));
    ms.push(("tx_type".to_owned(), JsonValue::Str(s.tx_type.clone())));
    ms.push(("chain".to_owned(), JsonValue::Str(s.chain.clone())));
    ms.push(("index".to_owned(), JsonValue::Num(JsonNumber::PosInt(s.index as u64))));
    ms.push(("timestamp".to_owned(), JsonValue::Num(JsonNumber::PosInt(s.timestamp))));
    ms.push(("block".to_owned(), JsonValue::Num(JsonNumber::PosInt(s.block))));
    ms.push(("from".to_owned(), JsonValue::Str(s.from.clone())));
    ms.push(("to".to_owned(), JsonValue::Str(s.to.clone())));
    ms.push(("contract_address".to_owned(), JsonValue::Str(s.contract_address.clone())));
    ms.push(("contract_label".to_owned(), JsonValue::Str(s.contract_label.clone())));
    proof {
        lemma_view_pairs_index(ms, 0);
        assert(view_pairs(ms, 0) =~= spec_encode_contract_interaction(s@));
    }
    JsonValue::Obj(ms)
}

/// The members of an encoded `wrap` record.
pub open spec fn spec_encode_wrap(s: WrapV) -> Seq<(Seq<char>, JsonVal)> {
    seq![
        ("wallet"@, JsonVal::Str(s.wallet)),
        ("wallet_label"@, JsonVal::Str(s.wallet_label)),
        ("tx_hash"@, JsonVal::Str(s.tx_hash)),
        ("tx_type"@, JsonVal::Str(s.tx_type)),
        ("chain"@, JsonVal::Str(s.chain)),
        ("index"@, JsonVal::Num(JsonNumber::PosInt(s.index as u64))),
        ("timestamp"@, JsonVal::Num(JsonNumber::PosInt(s.timestamp))),
        ("block"@, JsonVal::Num(JsonNumber::PosInt(s.block))),
        ("dex"@, JsonVal::Str(s.dex)),
        ("from"@, JsonVal::Str(s.from)),
        ("to"@, JsonVal::Str(s.to)),
        ("action"@, JsonVal::Str(s.action)),
        ("amount"@, JsonVal::Num(s.amount)),
        ("amount_usd"@, JsonVal::Num(s.amount_usd)),
        ("contract_address"@, JsonVal::Str(s.contract_address)),
        ("name"@, JsonVal::Str(s.name)),
        ("symbol"@, JsonVal::Str(s.symbol)),
        ("token_price_usd"@, JsonVal::Num(s.token_price_usd)),
        ("token_type"@, JsonVal::Str(s.token_type)),
        ("token_icon_link"@, JsonVal::Str(s.token_icon_link)),
    ]
}

/// Encodes a `wrap` record as a JSON object.
pub fn encode_wrap(s: &Wrap) -> (r: JsonValue)
    ensures
        r@ == JsonVal::Obj(spec_encode_wrap(s@)),
{
    let mut ms: Vec<(String, JsonValue)> = Vec::new();
    ms.push(("wallet".to_owned(), JsonValue::Str(s.wallet.clone())));
    ms.push(("wallet_label".to_owned(), JsonValue::Str(s.wallet_label.clone())));
    ms.push(("tx_hash".to_owned(), JsonValue::Str(s.tx_hash.clone())));
    ms.push(("tx_type".to_owned(), JsonValue::Str(s.tx_type.clone())));
    ms.push(("chain".to_owned(), JsonValue::Str(s.chain.clone())));
    ms.push(("index".to_owned(), JsonValue::Num(JsonNumber::PosInt(s.index as u64))));
    ms.push(("timestamp".to_owned(), JsonValue::Num(JsonNumber::PosInt(s.timestamp))));
    ms.push(("block".to_owned(), JsonValue::Num(JsonNumber::PosInt(s.block))));
    ms.push(("dex".to_owned(), JsonValue::Str(s.dex.clone())));
    ms.push(("from".to_owned(), JsonValue::Str(s.from.clone())));
    ms.push(("to".to_owned(), JsonValue::Str(s.to.clone())));
    ms.push(("action".to_owned(), JsonValue::Str(s.action.clone())));
    ms.push(("amount".to_owned(), JsonValue::Num(s.amount)));
    ms.push(("amount_usd".to_owned(), JsonValue::Num(s.amount_usd)));
    ms.push(("contract_address".to_owned(), JsonValue::Str(s.contract_address.clone())));
    ms.push(("name".to_owned(), JsonValue::Str(s.name.clone())));
    ms.push(("symbol".to_owned(), JsonValue::Str(s.symbol.clone())));
    ms.push(("token_price_usd".to_owned(), JsonValue::Num(s.token_price_usd)));
    ms.push(("token_type".to_owned(), JsonValue::Str(s.token_type.clone())));
    ms.push(("token_icon_link".to_owned(), JsonValue::Str(s.token_icon_link.clone())));
    proof {
        lemma_view_pairs_index(ms, 0);
        assert(view_pairs(ms, 0) =~= spec_encode_wrap(s@));
    }
    JsonValue::Obj(ms)
}

/// The members of an encoded `sudo_pool` record.
pub open spec fn spec_encode_sudo_pool(s: SudoPoolV) -> Seq<(Seq<char>, JsonVal)> {
    seq![
        ("wallet"@, JsonVal::Str(s.wallet)),
        ("wallet_label"@, JsonVal::Str(s.wallet_label)),
        ("tx_hash"@, JsonVal::Str(s.tx_hash)),
        ("tx_type"@, JsonVal::Str(s.tx_type)),
        ("chain"@, JsonVal::Str(s.chain)),
        ("index"@, JsonVal::Num(JsonNumber::PosInt(s.index as u64))),
        ("timestamp"@, JsonVal::Num(JsonNumber::PosInt(s.timestamp))),
        ("from"@, JsonVal::Str(s.from)),
        ("nft_address"@, JsonVal::Str(s.nft_address)),
        ("nft_amount"@, JsonVal::Num(JsonNumber::PosInt(s.nft_amount as u64))),
        ("nft_price"@, JsonVal::Num(s.nft_price)),
        ("nft_symbol"@, JsonVal::Str(s.nft_symbol)),
        ("to"@, JsonVal::Str(s.to)),
        ("token0_address"@, JsonVal::Str(s.token0_address)),
        ("token0_amount"@, JsonVal::Num(s.token0_amount)),
        ("token0_amount_usd"@, JsonVal::Num(s.token0_amount_usd)),
        ("token0_name"@, JsonVal::Str(s.token0_name)),
        ("token0_price_usd"@, JsonVal::Num(s.token0_price_usd)),
        ("token0_symbol"@, JsonVal::Str(s.token0_symbol)),
        ("token0_icon_link"@, JsonVal::Str(s.token0_icon_link)),
    ]
        + ((opt_member("block"@, match s.block { Option::Some(x) => Option::Some(JsonVal::Num(JsonNumber::PosInt(x))), Option::None => Option::None })) + (opt_member("dex"@, match s.dex { Option::Some(x) => Option::Some(JsonVal::Str(x)), Option::None => Option::None })))
}

/// Encodes a `sudo_pool` record as a JSON object.
pub fn encode_sudo_pool(s: &SudoPool) -> (r: JsonValue)
    ensures
        r@ == JsonVal::Obj(spec_encode_sudo_pool(s@)),
{
    let mut ms: Vec<(String, JsonValue)> = Vec::new();
    ms.push(("wallet".to_owned(), JsonValue::Str(s.wallet.clone())));
    ms.push(("wallet_label".to_owned(), JsonValue::Str(s.wallet_label.clone())));
    ms.push(("tx_hash".to_owned(), JsonValue::Str(s.tx_hash.clone())));
    ms.push(("tx_type".to_owned(), JsonValue::Str(s.tx_type.clone())));
    ms.push(("chain".to_owned(), JsonValue::Str(s.chain.clone())));
    ms.push(("index".to_owned(), JsonValue::Num(JsonNumber::PosInt(s.index as u64))));
    ms.push(("timestamp".to_owned(), JsonValue::Num(JsonNumber::PosInt(s.timestamp))));
    ms.push(("from".to_owned(), JsonValue::Str(s.from.clone())));
    ms.push(("nft_address".to_owned(), JsonValue::Str(s.nft_address.clone())));
    ms.push(("nft_amount".to_owned(), JsonValue::Num(JsonNumber::PosInt(s.nft_amount as u64))));
    ms.push(("nft_price".to_owned(), JsonValue::Num(s.nft_price)));
    ms.push(("nft_symbol".to_owned(), JsonValue::Str(s.nft_symbol.clone())));
    ms.push(("to".to_owned(), JsonValue::Str(s.to.clone())));
    ms.push(("token0_address".to_owned(), JsonValue::Str(s.token0_address.clone())));
    ms.push(("token0_amount".to_owned(), JsonValue::Num(s.token0_amount)));
    ms.push(("token0_amount_usd".to_owned(), JsonValue::Num(s.token0_amount_usd)));
    ms.push(("token0_name".to_owned(), JsonValue::Str(s.token0_name.clone())));
    ms.push(("token0_price_usd".to_owned(), JsonValue::Num(s.token0_price_usd)));
    ms.push(("token0_symbol".to_owned(), JsonValue::Str(s.token0_symbol.clone())));
    ms.push(("token0_icon_link".to_owned(), JsonValue::Str(s.token0_icon_link.clone())));
    let ghost mut done: Seq<(Seq<char>, JsonVal)> = seq![
        ("wallet"@, JsonVal::Str(s@.wallet)),
        ("wallet_label"@, JsonVal::Str(s@.wallet_label)),
        ("tx_hash"@, JsonVal::Str(s@.tx_hash)),
        ("tx_type"@, JsonVal::Str(s@.tx_type)),
        ("chain"@, JsonVal::Str(s@.chain)),
        ("index"@, JsonVal::Num(JsonNumber::PosInt(s@.index as u64))),
        ("timestamp"@, JsonVal::Num(JsonNumber::PosInt(s@.timestamp))),
        ("from"@, JsonVal::Str(s@.from)),
        ("nft_address"@, JsonVal::Str(s@.nft_address)),
        ("nft_amount"@, JsonVal::Num(JsonNumber::PosInt(s@.nft_amount as u64))),
        ("nft_price"@, JsonVal::Num(s@.nft_price)),
        ("nft_symbol"@, JsonVal::Str(s@.nft_symbol)),
        ("to"@, JsonVal::Str(s@.to)),
        ("token0_address"@, JsonVal::Str(s@.token0_address)),
        ("token0_amount"@, JsonVal::Num(s@.token0_amount)),
        ("token0_amount_usd"@, JsonVal::Num(s@.token0_amount_usd)),
        ("token0_name"@, JsonVal::Str(s@.token0_name)),
        ("token0_price_usd"@, JsonVal::Num(s@.token0_price_usd)),
        ("token0_symbol"@, JsonVal::Str(s@.token0_symbol)),
        ("token0_icon_link"@, JsonVal::Str(s@.token0_icon_link)),
    ];
    proof {
        lemma_view_pairs_index(ms, 0);
        assert(view_pairs(ms, 0) =~= done);
    }
    if let Option::Some(x) = &s.block {
        ms.push(("block".to_owned(), JsonValue::Num(JsonNumber::PosInt(*x))));
    }
    proof {
        done = done + (opt_member("block"@, match s@.block { Option::Some(x) => Option::Some(JsonVal::Num(JsonNumber::PosInt(x))), Option::None => Option::None }));
        lemma_view_pairs_index(ms, 0);
        assert(view_pairs(ms, 0) =~= done);
    }
    if let Option::Some(x) = &s.dex {
        ms.push(("dex".to_owned(), JsonValue::Str(x.clone())));
    }
    proof {
        done = done + (opt_member("dex"@, match s@.dex { Option::Some(x) => Option::Some(JsonVal::Str(x)), Option::None => Option::None }));
        lemma_view_pairs_index(ms, 0);
        assert(view_pairs(ms, 0) =~= done);
    }
    proof {
        assert(done =~= spec_encode_sudo_pool(s@));
    }
    JsonValue::Obj(ms)
}

/// The members of an encoded `reward` record.
pub open spec fn spec_encode_reward(s: RewardV) -> Seq<(Seq<char>, JsonVal)> {
    seq![
        ("wallet"@, JsonVal::Str(s.wallet)),
        ("wallet_label"@, JsonVal::Str(s.wallet_label)),
        ("tx_hash"@, JsonVal::Str(s.tx_hash)),
        ("tx_type"@, JsonVal::Str(s.tx_type)),
        ("chain"@, JsonVal::Str(s.chain)),
        ("index"@, JsonVal::Num(JsonNumber::PosInt(s.index as u64))),
        ("timestamp"@, JsonVal::Num(JsonNumber::PosInt(s.timestamp))),
        ("block"@, JsonVal::Num(JsonNumber::PosInt(s.block))),
        ("address"@, JsonVal::Str(s.address)),
        ("amount"@, JsonVal::Num(s.amount)),
        ("amount_usd"@, JsonVal::Num(s.amount_usd)),
        ("from"@, JsonVal::Str(s.from)),
        ("name"@, JsonVal::Str(s.name)),
        ("price_usd"@, JsonVal::Num(s.price_usd)),
        ("symbol"@, JsonVal::Str(s.symbol)),
    ]
}

/// Encodes a `reward` record as a JSON object.
pub fn encode_reward(s: &Reward) -> (r: JsonValue)
    ensures
        r@ == JsonVal::Obj(spec_encode_reward(s@)),
{
    let mut ms: Vec<(String, JsonValue)> = Vec::new();
    ms.push(("wallet".to_owned(), JsonValue::Str(s.wallet.clone())));
    ms.push(("wallet_label".to_owned(), JsonValue::Str(s.wallet_label.clone())));
    ms.push(("tx_hash".to_owned(), JsonValue::Str(s.tx_hash.clone())));
    ms.push(("tx_type".to_owned(), JsonValue::Str(s.tx_type.clone())));
    ms.push(("chain".to_owned(), JsonValue::Str(s.chain.clone())));
    ms.push(("index".to_owned(), JsonValue::Num(JsonNumber::PosInt(s.index as u64))));
    ms.push(("timestamp".to_owned(), JsonValue::Num(JsonNumber::PosInt(s.timestamp))));
    ms.push(("block".to_owned(), JsonValue::Num(JsonNumber::PosInt(s.block))));
    ms.push(("address".to_owned(), JsonValue::Str(s.address.clone())));
    ms.push(("amount".to_owned(), JsonValue::Num(s.amount)));
    ms.push(("amount_usd".to_owned(), JsonValue::Num(s.amount_usd)));
    ms.push(("from".to_owned(), JsonValue::Str(s.from.clone())));
    ms.push(("name".to_owned(), JsonValue::Str(s.name.clone())));
    ms.push(("price_usd".to_owned(), JsonValue::Num(s.price_usd)));
    ms.push(("symbol".to_owned(), JsonValue::Str(s.symbol.clone())));
    proof {
        lemma_view_pairs_index(ms, 0);
        assert(view_pairs(ms, 0) =~= spec_encode_reward(s@));
    }
    JsonValue::Obj(ms)
}

/// The members of an encoded `staking` record.
pub open spec fn spec_encode_staking(s: StakingV) -> Seq<(Seq<char>, JsonVal)> {
    seq![
        ("wallet"@, JsonVal::Str(s.wallet)),
        ("wallet_label"@, JsonVal::Str(s.wallet_label)),
        ("tx_hash"@, JsonVal::Str(s.tx_hash)),
        ("tx_type"@, JsonVal::Str(s.tx_type)),
        ("chain"@, JsonVal::Str(s.chain)),
        ("index"@, JsonVal::Num(JsonNumber::PosInt(s.index as u64))),
        ("timestamp"@, JsonVal::Num(JsonNumber::PosInt(s.timestamp))),
        ("block"@, JsonVal::Num(JsonNumber::PosInt(s.block))),
        ("from"@, JsonVal::Str(s.from)),
        ("to"@, JsonVal::Str(s.to)),
        ("from_label"@, JsonVal::Str(s.from_label)),
        ("to_label"@, JsonVal::Str(s.to_label)),
        ("amount"@, JsonVal::Num(s.amount)),
        ("amount_usd"@, JsonVal::Num(s.amount_usd)),
        ("token_price_usd"@, JsonVal::Num(s.token_price_usd)),
        ("contract_address"@, JsonVal::Str(s.contract_address)),
        ("symbol"@, JsonVal::Str(s.symbol)),
        ("name"@, JsonVal::Str(s.name)),
        ("action"@, JsonVal::Str(s.action)),
    ]
}

/// Encodes a `staking` record as a JSON object.
pub fn encode_staking(s: &Staking) -> (r: JsonValue)
    ensures
        r@ == JsonVal::Obj(spec_encode_staking(s@)),
{
    let mut ms: Vec<(String, JsonValue)> = Vec::new();
    ms.push(("wallet".to_owned(), JsonValue::Str(s.wallet.clone())));
    ms.push(("wallet_label".to_owned(), JsonValue::Str(s.wallet_label.clone())));
    ms.push(("tx_hash".to_owned(), JsonValue::Str(s.tx_hash.clone())));
    ms.push(("tx_type".to_owned(), JsonValue::Str(s.tx_type.clone())));
    ms.push(("chain".to_owned(), JsonValue::Str(s.chain.clone())));
    ms.push(("index".to_owned(), JsonValue::Num(JsonNumber::PosInt(s.index as u64))));
    ms.push(("timestamp".to_owned(), JsonValue::Num(JsonNumber::PosInt(s.timestamp))));
    ms.push(("block".to_owned(), JsonValue::Num(JsonNumber::PosInt(s.block))));
    ms.push(("from".to_owned(), JsonValue::Str(s.from.clone())));
    ms.push(("to".to_owned(), JsonValue::Str(s.to.clone())));
    ms.push(("from_label".to_owned(), JsonValue::Str(s.from_label.clone())));
    ms.push(("to_label".to_owned(), JsonValue::Str(s.to_label.clone())));
    ms.push(("amount".to_owned(), JsonValue::Num(s.amount)));
    ms.push(("amount_usd".to_owned(), JsonValue::Num(s.amount_usd)));
    ms.push(("token_price_usd".to_owned(), JsonValue::Num(s.token_price_usd)));
    ms.push(("contract_address".to_owned(), JsonValue::Str(s.contract_address.clone())));
    ms.push(("symbol".to_owned(), JsonValue::Str(s.symbol.clone())));
    ms.push(("name".to_owned(), JsonValue::Str(s.name.clone())));
    ms.push(("action".to_owned(), JsonValue::Str(s.action.clone())));
    proof {
        lemma_view_pairs_index(ms, 0);
        assert(view_pairs(ms, 0) =~= spec_encode_staking(s@));
    }
    JsonValue::Obj(ms)
}

/// The members of an encoded `perp` record.
pub open spec fn spec_encode_perp(s: PerpV) -> Seq<(Seq<char>, JsonVal)> {
    seq![
        ("wallet"@, JsonVal::Str(s.wallet)),
        ("wallet_label"@, JsonVal::Str(s.wallet_label)),
        ("tx_hash"@, JsonVal::Str(s.tx_hash)),
        ("tx_type"@, JsonVal::Str(s.tx_type)),
        ("chain"@, JsonVal::Str(s.chain)),
        ("index"@, JsonVal::Num(JsonNumber::PosInt(s.index as u64))),
        ("timestamp"@, JsonVal::Num(JsonNumber::PosInt(s.timestamp))),
        ("block"@, JsonVal::Num(JsonNumber::PosInt(s.block))),
        ("action"@, JsonVal::Str(s.action)),
        ("amount_usd"@, JsonVal::Num(s.amount_usd)),
        ("average_price"@, JsonVal::Num(s.average_price)),
        ("base_token_address"@, JsonVal::Str(s.base_token_address)),
        ("base_token_amount"@, JsonVal::Num(s.base_token_amount)),
        ("base_token_symbol"@, JsonVal::Str(s.base_token_symbol)),
        ("dex"@, JsonVal::Str(s.dex)),
        ("from"@, JsonVal::Str(s.from)),
        ("liquidation"@, JsonVal::Bool(s.liquidation)),
        ("liquidation_price"@, JsonVal::Num(s.liquidation_price)),
        ("to"@, JsonVal::Str(s.to)),
        ("trade_direction"@, JsonVal::Str(s.trade_direction)),
        ("perp_details"@, JsonVal::Str(s.perp_details)),
        ("token0_address"@, JsonVal::Str(s.token0_address)),
        ("token0_amount"@, JsonVal::Num(s.token0_amount)),
        ("token0_amount_usd"@, JsonVal::Num(s.token0_amount_usd)),
        ("token0_name"@, JsonVal::Str(s.token0_name)),
        ("token0_price_usd"@, JsonVal::Num(s.token0_price_usd)),
        ("token0_symbol"@, JsonVal::Str(s.token0_symbol)),
        ("token0_icon_link"@, JsonVal::Str(s.token0_icon_link)),
        ("token1_address"@, JsonVal::Str(s.token1_address)),
        ("token1_amount"@, JsonVal::Num(s.token1_amount)),
        ("token1_amount_usd"@, JsonVal::Num(s.token1_amount_usd)),
        ("token1_name"@, JsonVal::Str(s.token1_name)),
        ("token1_price_usd"@, JsonVal::Num(s.token1_price_usd)),
        ("token1_symbol"@, JsonVal::Str(s.token1_symbol)),
        ("token1_icon_link"@, JsonVal::Str(s.token1_icon_link)),
        ("realized_pnl"@, JsonVal::Num(s.realized_pnl)),
        ("is_nft_perp"@, JsonVal::Bool(s.is_nft_perp)),
    ]
        + ((opt_member("position_size"@, match s.position_size { Option::Some(x) => Option::Some(JsonVal::Num(x)), Option::None => Option::None })) + ((opt_member("position_size_usd"@, match s.position_size_usd { Option::Some(x) => Option::Some(JsonVal::Num(x)), Option::None => Option::None })) + ((opt_member("leverage"@, match s.leverage { Option::Some(x) => Option::Some(JsonVal::Num(x)), Option::None => Option::None })) + (opt_member("unrealized_pnl"@, match s.unrealized_pnl { Option::Some(x) => Option::Some(JsonVal::Num(x)), Option::None => Option::None })))))
}

/// Encodes a `perp` record as a JSON object.
pub fn encode_perp(s: &Perp) -> (r: JsonValue)
    ensures
        r@ == JsonVal::Obj(spec_encode_perp(s@)),
{
    let mut ms: Vec<(String, JsonValue)> = Vec::new();
    ms.push(("wallet".to_owned(), JsonValue::Str(s.wallet.clone())));
    ms.push(("wallet_label".to_owned(), JsonValue::Str(s.wallet_label.clone())));
    ms.push(("tx_hash".to_owned(), JsonValue::Str(s.tx_hash.clone())));
    ms.push(("tx_type".to_owned(), JsonValue::Str(s.tx_type.clone())));
    ms.push(("chain".to_owned(), JsonValue::Str(s.chain.clone())));
    ms.push(("index".to_owned(), JsonValue::Num(JsonNumber::PosInt(s.index as u64))));
    ms.push(("timestamp".to_owned(), JsonValue::Num(JsonNumber::PosInt(s.timestamp))));
    ms.push(("block".to_owned(), JsonValue::Num(JsonNumber::PosInt(s.block))));
    ms.push(("action".to_owned(), JsonValue::Str(s.action.clone())));
    ms.push(("amount_usd".to_owned(), JsonValue::Num(s.amount_usd)));
    ms.push(("average_price".to_owned(), JsonValue::Num(s.average_price)));
    ms.push(("base_token_address".to_owned(), JsonValue::Str(s.base_token_address.clone())));
    ms.push(("base_token_amount".to_owned(), JsonValue::Num(s.base_token_amount)));
    ms.push(("base_token_symbol".to_owned(), JsonValue::Str(s.base_token_symbol.clone())));
    ms.push(("dex".to_owned(), JsonValue::Str(s.dex.clone())));
    ms.push(("from".to_owned(), JsonValue::Str(s.from.clone())));
    ms.push(("liquidation".to_owned(), JsonValue::Bool(s.liquidation)));
    ms.push(("liquidation_price".to_owned(), JsonValue::Num(s.liquidation_price)));
    ms.push(("to".to_owned(), JsonValue::Str(s.to.clone())));
    ms.push(("trade_direction".to_owned(), JsonValue::Str(s.trade_direction.clone())));
    ms.push(("perp_details".to_owned(), JsonValue::Str(s.perp_details.clone())));
    ms.push(("token0_address".to_owned(), JsonValue::Str(s.token0_address.clone())));
    ms.push(("token0_amount".to_owned(), JsonValue::Num(s.token0_amount)));
    ms.push(("token0_amount_usd".to_owned(), JsonValue::Num(s.token0_amount_usd)));
    ms.push(("token0_name".to_owned(), JsonValue::Str(s.token0_name.clone())));
    ms.push(("token0_price_usd".to_owned(), JsonValue::Num(s.token0_price_usd)));
    ms.push(("token0_symbol".to_owned(), JsonValue::Str(s.token0_symbol.clone())));
    ms.push(("token0_icon_link".to_owned(), JsonValue::Str(s.token0_icon_link.clone())));
    ms.push(("token1_address".to_owned(), JsonValue::Str(s.token1_address.clone())));
    ms.push(("token1_amount".to_owned(), JsonValue::Num(s.token1_amount)));
    ms.push(("token1_amount_usd".to_owned(), JsonValue::Num(s.token1_amount_usd)));
    ms.push(("token1_name".to_owned(), JsonValue::Str(s.token1_name.clone())));
    ms.push(("token1_price_usd".to_owned(), JsonValue::Num(s.token1_price_usd)));
    ms.push(("token1_symbol".to_owned(), JsonValue::Str(s.token1_symbol.clone())));
    ms.push(("token1_icon_link".to_owned(), JsonValue::Str(s.token1_icon_link.clone())));
    ms.push(("realized_pnl".to_owned(), JsonValue::Num(s.realized_pnl)));
    ms.push(("is_nft_perp".to_owned(), JsonValue::Bool(s.is_nft_perp)));
    let ghost mut done: Seq<(Seq<char>, JsonVal)> = seq![
        ("wallet"@, JsonVal::Str(s@.wallet)),
        ("wallet_label"@, JsonVal::Str(s@.wallet_label)),
        ("tx_hash"@, JsonVal::Str(s@.tx_hash)),
        ("tx_type"@, JsonVal::Str(s@.tx_type)),
        ("chain"@, JsonVal::Str(s@.chain)),
        ("index"@, JsonVal::Num(JsonNumber::PosInt(s@.index as u64))),
        ("timestamp"@, JsonVal::Num(JsonNumber::PosInt(s@.timestamp))),
        ("block"@, JsonVal::Num(JsonNumber::PosInt(s@.block))),
        ("action"@, JsonVal::Str(s@.action)),
        ("amount_usd"@, JsonVal::Num(s@.amount_usd)),
        ("average_price"@, JsonVal::Num(s@.average_price)),
        ("base_token_address"@, JsonVal::Str(s@.base_token_address)),
        ("base_token_amount"@, JsonVal::Num(s@.base_token_amount)),
        ("base_token_symbol"@, JsonVal::Str(s@.base_token_symbol)),
        ("dex"@, JsonVal::Str(s@.dex)),
        ("from"@, JsonVal::Str(s@.from)),
        ("liquidation"@, JsonVal::Bool(s@.liquidation)),
        ("liquidation_price"@, JsonVal::Num(s@.liquidation_price)),
        ("to"@, JsonVal::Str(s@.to)),
        ("trade_direction"@, JsonVal::Str(s@.trade_direction)),
        ("perp_details"@, JsonVal::Str(s@.perp_details)),
        ("token0_address"@, JsonVal::Str(s@.token0_address)),
        ("token0_amount"@, JsonVal::Num(s@.token0_amount)),
        ("token0_amount_usd"@, JsonVal::Num(s@.token0_amount_usd)),
        ("token0_name"@, JsonVal::Str(s@.token0_name)),
        ("token0_price_usd"@, JsonVal::Num(s@.token0_price_usd)),
        ("token0_symbol"@, JsonVal::Str(s@.token0_symbol)),
        ("token0_icon_link"@, JsonVal::Str(s@.token0_icon_link)),
        ("token1_address"@, JsonVal::Str(s@.token1_address)),
        ("token1_amount"@, JsonVal::Num(s@.token1_amount)),
        ("token1_amount_usd"@, JsonVal::Num(s@.token1_amount_usd)),
        ("token1_name"@, JsonVal::Str(s@.token1_name)),
        ("token1_price_usd"@, JsonVal::Num(s@.token1_price_usd)),
        ("token1_symbol"@, JsonVal::Str(s@.token1_symbol)),
        ("token1_icon_link"@, JsonVal::Str(s@.token1_icon_link)),
        ("realized_pnl"@, JsonVal::Num(s@.realized_pnl)),
        ("is_nft_perp"@, JsonVal::Bool(s@.is_nft_perp)),
    ];
    proof {
        lemma_view_pairs_index(ms, 0);
        assert(view_pairs(ms, 0) =~= done);
    }
    if let Option::Some(x) = &s.position_size {
        ms.push(("position_size".to_owned(), JsonValue::Num(*x)));
    }
    proof {
        done = done + (opt_member("position_size"@, match s@.position_size { Option::Some(x) => Option::Some(JsonVal::Num(x)), Option::None => Option::None }));
        lemma_view_pairs_index(ms, 0);
        assert(view_pairs(ms, 0) =~= done);
    }
    if let Option::Some(x) = &s.position_size_usd {
        ms.push(("position_size_usd".to_owned(), JsonValue::Num(*x)));
    }
    proof {
        done = done + (opt_member("position_size_usd"@, match s@.position_size_usd { Option::Some(x) => Option::Some(JsonVal::Num(x)), Option::None => Option::None }));
        lemma_view_pairs_index(ms, 0);
        assert(view_pairs(ms, 0) =~= done);
    }
    if let Option::Some(x) = &s.leverage {
        ms.push(("leverage".to_owned(), JsonValue::Num(*x)));
    }
    proof {
        done = done + (opt_member("leverage"@, match s@.leverage { Option::Some(x) => Option::Some(JsonVal::Num(x)), Option::None => Option::None }));
        lemma_view_pairs_index(ms, 0);
        assert(view_pairs(ms, 0) =~= done);
    }
    if let Option::Some(x) = &s.unrealized_pnl {
        ms.push(("unrealized_pnl".to_owned(), JsonValue::Num(*x)));
    }
    proof {
        done = done + (opt_member("unrealized_pnl"@, match s@.unrealized_pnl { Option::Some(x) => Option::Some(JsonVal::Num(x)), Option::None => Option::None }));
        lemma_view_pairs_index(ms, 0);
        assert(view_pairs(ms, 0) =~= done);
    }
    proof {
        assert(done =~= spec_encode_perp(s@));
    }
    JsonValue::Obj(ms)
}

/// The members of an encoded `flashloan` record.
pub open spec fn spec_encode_flashloan(s: FlashloanV) -> Seq<(Seq<char>, JsonVal)> {
    seq![
        ("wallet"@, JsonVal::Str(s.wallet)),
        ("wallet_label"@, JsonVal::Str(s.wallet_label)),
        ("tx_hash"@, JsonVal::Str(s.tx_hash)),
        ("tx_type"@, JsonVal::Str(s.tx_type)),
        ("chain"@, JsonVal::Str(s.chain)),
        ("index"@, JsonVal::Num(JsonNumber::PosInt(s.index as u64))),
        ("timestamp"@, JsonVal::Num(JsonNumber::PosInt(s.timestamp))),
        ("block"@, JsonVal::Num(JsonNumber::PosInt(s.block))),
        ("address"@, JsonVal::Str(s.address)),
        ("amount"@, JsonVal::Num(s.amount)),
        ("amount_usd"@, JsonVal::Num(s.amount_usd)),
        ("dex"@, JsonVal::Str(s.dex)),
        ("from"@, JsonVal::Str(s.from)),
        ("health_factor"@, JsonVal::Num(s.health_factor)),
        ("name"@, JsonVal::Str(s.name)),
        ("platform"@, JsonVal::Str(s.platform)),
        ("price_usd"@, JsonVal::Num(s.price_usd)),
        ("symbol"@, JsonVal::Str(s.symbol)),
        ("token_icon_link"@, JsonVal::Str(s.token_icon_link)),
    ]
}

/// Encodes a `flashloan` record as a JSON object.
pub fn encode_flashloan(s: &Flashloan) -> (r: JsonValue)
    ensures
        r@ == JsonVal::Obj(spec_encode_flashloan(s@)),
{
    let mut ms: Vec<(String, JsonValue)> = Vec::new();
    ms.push(("wallet".to_owned(), JsonValue::Str(s.wallet.clone())));
    ms.push(("wallet_label".to_owned(), JsonValue::Str(s.wallet_label.clone())));
    ms.push(("tx_hash".to_owned(), JsonValue::Str(s.tx_hash.clone())));
    ms.push(("tx_type".to_owned(), JsonValue::Str(s.tx_type.clone())));
    ms.push(("chain".to_owned(), JsonValue::Str(s.chain.clone())));
    ms.push(("index".to_owned(), JsonValue::Num(JsonNumber::PosInt(s.index as u64))));
    ms.push(("timestamp".to_owned(), JsonValue::Num(JsonNumber::PosInt(s.timestamp))));
    ms.push(("block".to_owned(), JsonValue::Num(JsonNumber::PosInt(s.block))));
    ms.push(("address".to_owned(), JsonValue::Str(s.address.clone())));
    ms.push(("amount".to_owned(), JsonValue::Num(s.amount)));
    ms.push(("amount_usd".to_owned(), JsonValue::Num(s.amount_usd)));
    ms.push(("dex".to_owned(), JsonValue::Str(s.dex.clone())));
    ms.push(("from".to_owned(), JsonValue::Str(s.from.clone())));
    ms.push(("health_factor".to_owned(), JsonValue::Num(s.health_factor)));
    ms.push(("name".to_owned(), JsonValue::Str(s.name.clone())));
    ms.push(("platform".to_owned(), JsonValue::Str(s.platform.clone())));
    ms.push(("price_usd".to_owned(), JsonValue::Num(s.price_usd)));
    ms.push(("symbol".to_owned(), JsonValue::Str(s.symbol.clone())));
    ms.push(("token_icon_link".to_owned(), JsonValue::Str(s.token_icon_link.clone())));
    proof {
        lemma_view_pairs_index(ms, 0);
        assert(view_pairs(ms, 0) =~= spec_encode_flashloan(s@));
    }
    JsonValue::Obj(ms)
}

/// The members of an encoded `contract_creation` record.
pub open spec fn spec_encode_contract_creation(s: ContractCreationV) -> Seq<(Seq<char>, JsonVal)> {
    seq![
        ("wallet"@, JsonVal::Str(s.wallet)),
        ("wallet_label"@, JsonVal::Str(s.wallet_label)),
        ("tx_hash"@, JsonVal::Str(s.tx_hash)),
        ("tx_type"@, JsonVal::Str(s.tx_type)),
        ("chain"@, JsonVal::Str(s.chain)),
        ("index"@, JsonVal::Num(JsonNumber::PosInt(s.index as u64))),
        ("timestamp"@, JsonVal::Num(JsonNumber::PosInt(s.timestamp))),
        ("block"@, JsonVal::Num(JsonNumber::PosInt(s.block))),
        ("amount_usd"@, JsonVal::Num(s.amount_usd)),
        ("contract_address"@, JsonVal::Str(s.contract_address)),
        ("from"@, JsonVal::Str(s.from)),
        ("from_label"@, JsonVal::Str(s.from_label)),
    ]
}

/// Encodes a `contract_creation` record as a JSON object.
pub fn encode_contract_creation(s: &ContractCreation) -> (r: JsonValue)
    ensures
        r@ == JsonVal::Obj(spec_encode_contract_creation(s@)),
{
    let mut ms: Vec<(String, JsonValue)> = Vec::new();
    ms.push(("wallet".to_owned(), JsonValue::Str(s.wallet.clone())));
    ms.push(("wallet_label".to_owned(), JsonValue::Str(s.wallet_label.clone())));
    ms.push(("tx_hash".to_owned(), JsonValue::Str(s.tx_hash.clone())));
    ms.push(("tx_type".to_owned(), JsonValue::Str(s.tx_type.clone())));
    ms.push(("chain".to_owned(), JsonValue::Str(s.chain.clone())));
    ms.push(("index".to_owned(), JsonValue::Num(JsonNumber::PosInt(s.index as u64))));
    ms.push(("timestamp".to_owned(), JsonValue::Num(JsonNumber::PosInt(s.timestamp))));
    ms.push(("block".to_owned(), JsonValue::Num(JsonNumber::PosInt(s.block))));
    ms.push(("amount_usd".to_owned(), JsonValue::Num(s.amount_usd)));
    ms.push(("contract_address".to_owned(), JsonValue::Str(s.contract_address.clone())));
    ms.push(("from".to_owned(), JsonValue::Str(s.from.clone())));
    ms.push(("from_label".to_owned(), JsonValue::Str(s.from_label.clone())));
    proof {
        lemma_view_pairs_index(ms, 0);
        assert(view_pairs(ms, 0) =~= spec_encode_contract_creation(s@));
    }
    JsonValue::Obj(ms)
}

/// The members of an encoded `nft_liquidation` record.
pub open spec fn spec_encode_nft_liquidation(s: NftLiquidationV) -> Seq<(Seq<char>, JsonVal)> {
    seq![
        ("wallet"@, JsonVal::Str(s.wallet)),
        ("wallet_label"@, JsonVal::Str(s.wallet_label)),
        ("tx_hash"@, JsonVal::Str(s.tx_hash)),
        ("tx_type"@, JsonVal::Str(s.tx_type)),
        ("chain"@, JsonVal::Str(s.chain)),
        ("index"@, JsonVal::Num(JsonNumber::PosInt(s.index as u64))),
        ("timestamp"@, JsonVal::Num(JsonNumber::PosInt(s.timestamp))),
        ("block"@, JsonVal::Num(JsonNumber::PosInt(s.block))),
        ("contract_address"@, JsonVal::Str(s.contract_address)),
        ("currency_address"@, JsonVal::Str(s.currency_address)),
        ("currency_symbol"@, JsonVal::Str(s.currency_symbol)),
        ("dex"@, JsonVal::Str(s.dex)),
        ("from"@, JsonVal::Str(s.from)),
        ("nft_address"@, JsonVal::Str(s.nft_address)),
        ("nft_name"@, JsonVal::Str(s.nft_name)),
        ("nft_symbol"@, JsonVal::Str(s.nft_symbol)),
        ("platform"@, JsonVal::Str(s.platform)),
        ("price"@, JsonVal::Num(s.price)),
        ("price_usd"@, JsonVal::Num(s.price_usd)),
        ("to"@, JsonVal::Str(s.to)),
        ("token_id"@, JsonVal::Str(s.token_id)),
    ]
}

/// Encodes a `nft_liquidation` record as a JSON object.
pub fn encode_nft_liquidation(s: &NftLiquidation) -> (r: JsonValue)
    ensures
        r@ == JsonVal::Obj(spec_encode_nft_liquidation(s@)),
{
    let mut ms: Vec<(String, JsonValue)> = Vec::new();
    ms.push(("wallet".to_owned(), JsonValue::Str(s.wallet.clone())));
    ms.push(("wallet_label".to_owned(), JsonValue::Str(s.wallet_label.clone())));
    ms.push(("tx_hash".to_owned(), JsonValue::Str(s.tx_hash.clone())));
    ms.push(("tx_type".to_owned(), JsonValue::Str(s.tx_type.clone())));
    ms.push(("chain".to_owned(), JsonValue::Str(s.chain.clone())));
    ms.push(("index".to_owned(), JsonValue::Num(JsonNumber::PosInt(s.index as u64))));
    ms.push(("timestamp".to_owned(), JsonValue::Num(JsonNumber::PosInt(s.timestamp))));
    ms.push(("block".to_owned(), JsonValue::Num(JsonNumber::PosInt(s.block))));
    ms.push(("contract_address".to_owned(), JsonValue::Str(s.contract_address.clone())));
    ms.push(("currency_address".to_owned(), JsonValue::Str(s.currency_address.clone())));
    ms.push(("currency_symbol".to_owned(), JsonValue::Str(s.currency_symbol.clone())));
    ms.push(("dex".to_owned(), JsonValue::Str(s.dex.clone())));
    ms.push(("from".to_owned(), JsonValue::Str(s.from.clone())));
    ms.push(("nft_address".to_owned(), JsonValue::Str(s.nft_address.clone())));
    ms.push(("nft_name".to_owned(), JsonValue::Str(s.nft_name.clone())));
    ms.push(("nft_symbol".to_owned(), JsonValue::Str(s.nft_symbol.clone())));
    ms.push(("platform".to_owned(), JsonValue::Str(s.platform.clone())));
    ms.push(("price".to_owned(), JsonValue::Num(s.price)));
    ms.push(("price_usd".to_owned(), JsonValue::Num(s.price_usd)));
    ms.push(("to".to_owned(), JsonValue::Str(s.to.clone())));
    ms.push(("token_id".to_owned(), JsonValue::Str(s.token_id.clone())));
    proof {
        lemma_view_pairs_index(ms, 0);
        assert(view_pairs(ms, 0) =~= spec_encode_nft_liquidation(s@));
    }
    JsonValue::Obj(ms)
}

/// The members of an encoded `option_type` record.
pub open spec fn spec_encode_option_type(s: OptionTypeV) -> Seq<(Seq<char>, JsonVal)> {
    seq![
        ("wallet"@, JsonVal::Str(s.wallet)),
        ("wallet_label"@, JsonVal::Str(s.wallet_label)),
        ("tx_hash"@, JsonVal::Str(s.tx_hash)),
        ("tx_type"@, JsonVal::Str(s.tx_type)),
        ("chain"@, JsonVal::Str(s.chain)),
        ("index"@, JsonVal::Num(JsonNumber::PosInt(s.index as u64))),
        ("timestamp"@, JsonVal::Num(JsonNumber::PosInt(s.timestamp))),
        ("block"@, JsonVal::Num(JsonNumber::PosInt(s.block))),
        ("action"@, JsonVal::Str(s.action)),
        ("amount"@, JsonVal::Num(s.amount)),
        ("asset"@, JsonVal::Str(s.asset)),
        ("dex"@, JsonVal::Str(s.dex)),
        ("direction"@, JsonVal::Str(s.direction)),
        ("expiry"@, JsonVal::Str(s.expiry)),
        ("from"@, JsonVal::Str(s.from)),
        ("option_price_usd"@, JsonVal::Num(s.option_price_usd)),
        ("position_status"@, JsonVal::Str(s.position_status)),
        ("spot_price_usd"@, JsonVal::Num(s.spot_price_usd)),
        ("status"@, JsonVal::Str(s.status)),
        ("strike_price_usd"@, JsonVal::Num(s.strike_price_usd)),
        ("to"@, JsonVal::Str(s.to)),
        ("type"@, JsonVal::Str(s.type_field)),
    ]
}

/// Encodes a `option_type` record as a JSON object.
pub fn encode_option_type(s: &OptionType) -> (r: JsonValue)
    ensures
        r@ == JsonVal::Obj(spec_encode_option_type(s@)),
{
    let mut ms: Vec<(String, JsonValue)> = Vec::new();
    ms.push(("wallet".to_owned(), JsonValue::Str(s.wallet.clone())));
    ms.push(("wallet_label".to_owned(), JsonValue::Str(s.wallet_label.clone())));
    ms.push(("tx_hash".to_owned(), JsonValue::Str(s.tx_hash.clone())));
    ms.push(("tx_type".to_owned(), JsonValue::Str(s.tx_type.clone())));
    ms.push(("chain".to_owned(), JsonValue::Str(s.chain.clone())));
    ms.push(("index".to_owned(), JsonValue::Num(JsonNumber::PosInt(s.index as u64))));
    ms.push(("timestamp".to_owned(), JsonValue::Num(JsonNumber::PosInt(s.timestamp))));
    ms.push(("block".to_owned(), JsonValue::Num(JsonNumber::PosInt(s.block))));
    ms.push(("action".to_owned(), JsonValue::Str(s.action.clone())));
    ms.push(("amount".to_owned(), JsonValue::Num(s.amount)));
    ms.push(("asset".to_owned(), JsonValue::Str(s.asset.clone())));
    ms.push(("dex".to_owned(), JsonValue::Str(s.dex.clone())));
    ms.push(("direction".to_owned(), JsonValue::Str(s.direction.clone())));
    ms.push(("expiry".to_owned(), JsonValue::Str(s.expiry.clone())));
    ms.push(("from".to_owned(), JsonValue::Str(s.from.clone())));
    ms.push(("option_price_usd".to_owned(), JsonValue::Num(s.option_price_usd)));
    ms.push(("position_status".to_owned(), JsonValue::Str(s.position_status.clone())));
    ms.push(("spot_price_usd".to_owned(), JsonValue::Num(s.spot_price_usd)));
    ms.push(("status".to_owned(), JsonValue::Str(s.status.clone())));
    ms.push(("strike_price_usd".to_owned(), JsonValue::Num(s.strike_price_usd)));
    ms.push(("to".to_owned(), JsonValue::Str(s.to.clone())));
    ms.push(("type".to_owned(), JsonValue::Str(s.type_field.clone())));
    proof {
        lemma_view_pairs_index(ms, 0);
        assert(view_pairs(ms, 0) =~= spec_encode_option_type(s@));
    }
    JsonValue::Obj(ms)
}

/// The members of an encoded `nft_sweep` record.
pub open spec fn spec_encode_nft_sweep(s: NftSweepV) -> Seq<(Seq<char>, JsonVal)> {
    seq![
        ("wallet"@, JsonVal::Str(s.wallet)),
        ("wallet_label"@, JsonVal::Str(s.wallet_label)),
        ("tx_hash"@, JsonVal::Str(s.tx_hash)),
        ("tx_type"@, JsonVal::Str(s.tx_type)),
        ("chain"@, JsonVal::Str(s.chain)),
        ("index"@, JsonVal::Num(JsonNumber::PosInt(s.index as u64))),
        ("timestamp"@, JsonVal::Num(JsonNumber::PosInt(s.timestamp))),
        ("block"@, JsonVal::Num(JsonNumber::PosInt(s.block))),
        ("from"@, JsonVal::Str(s.from)),
        ("to"@, JsonVal::Str(s.to)),
        ("thumbnail"@, JsonVal::Str(s.thumbnail)),
        ("image"@, JsonVal::Str(s.image)),
        ("action"@, JsonVal::Str(s.action)),
        ("contract"@, JsonVal::Str(s.contract)),
        ("marketplace"@, JsonVal::Str(s.marketplace)),
        ("nft_address"@, JsonVal::Str(s.nft_address)),
        ("nft_name"@, JsonVal::Str(s.nft_name)),
        ("nft_symbol"@, JsonVal::Str(s.nft_symbol)),
        ("nft_token_id"@, JsonVal::Str(s.nft_token_id)),
        ("price"@, JsonVal::Num(s.price)),
        ("price_usd"@, JsonVal::Num(s.price_usd)),
        ("profit"@, JsonVal::Num(s.profit)),
        ("currency_symbol"@, JsonVal::Str(s.currency_symbol)),
        ("buyer"@, JsonVal::Str(s.buyer)),
        ("seller"@, JsonVal::Str(s.seller)),
        ("token"@, JsonVal::Str(s.token)),
        ("first_interaction"@, JsonVal::Bool(s.first_interaction)),
        ("bid_accepted"@, JsonVal::Bool(s.bid_accepted)),
    ]
}

/// Encodes a `nft_sweep` record as a JSON object.
pub fn encode_nft_sweep(s: &NftSweep) -> (r: JsonValue)
    ensures
        r@ == JsonVal::Obj(spec_encode_nft_sweep(s@)),
{
    let mut ms: Vec<(String, JsonValue)> = Vec::new();
    ms.push(("wallet".to_owned(), JsonValue::Str(s.wallet.clone())));
    ms.push(("wallet_label".to_owned(), JsonValue::Str(s.wallet_label.clone())));
    ms.push(("tx_hash".to_owned(), JsonValue::Str(s.tx_hash.clone())));
    ms.push(("tx_type".to_owned(), JsonValue::Str(s.tx_type.clone())));
    ms.push(("chain".to_owned(), JsonValue::Str(s.chain.clone())));
    ms.push(("index".to_owned(), JsonValue::Num(JsonNumber::PosInt(s.index as u64))));
    ms.push(("timestamp".to_owned(), JsonValue::Num(JsonNumber::PosInt(s.timestamp))));
    ms.push(("block".to_owned(), JsonValue::Num(JsonNumber::PosInt(s.block))));
    ms.push(("from".to_owned(), JsonValue::Str(s.from.clone())));
    ms.push(("to".to_owned(), JsonValue::Str(s.to.clone())));
    ms.push(("thumbnail".to_owned(), JsonValue::Str(s.thumbnail.clone())));
    ms.push(("image".to_owned(), JsonValue::Str(s.image.clone())));
    ms.push(("action".to_owned(), JsonValue::Str(s.action.clone())));
    ms.push(("contract".to_owned(), JsonValue::Str(s.contract.clone())));
    ms.push(("marketplace".to_owned(), JsonValue::Str(s.marketplace.clone())));
    ms.push(("nft_address".to_owned(), JsonValue::Str(s.nft_address.clone())));
    ms.push(("nft_name".to_owned(), JsonValue::Str(s.nft_name.clone())));
    ms.push(("nft_symbol".to_owned(), JsonValue::Str(s.nft_symbol.clone())));
    ms.push(("nft_token_id".to_owned(), JsonValue::Str(s.nft_token_id.clone())));
    ms.push(("price".to_owned(), JsonValue::Num(s.price)));
    ms.push(("price_usd".to_owned(), JsonValue::Num(s.price_usd)));
    ms.push(("profit".to_owned(), JsonValue::Num(s.profit)));
    ms.push(("currency_symbol".to_owned(), JsonValue::Str(s.currency_symbol.clone())));
    ms.push(("buyer".to_owned(), JsonValue::Str(s.buyer.clone())));
    ms.push(("seller".to_owned(), JsonValue::Str(s.seller.clone())));
    ms.push(("token".to_owned(), JsonValue::Str(s.token.clone())));
    ms.push(("first_interaction".to_owned(), JsonValue::Bool(s.first_interaction)));
    ms.push(("bid_accepted".to_owned(), JsonValue::Bool(s.bid_accepted)));
    proof {
        lemma_view_pairs_index(ms, 0);
        assert(view_pairs(ms, 0) =~= spec_encode_nft_sweep(s@));
    }
    JsonValue::Obj(ms)
}

/// The encoding of one feed item.
pub open spec fn spec_encode_item(item: ItemV) -> JsonVal {
    match item {
        ItemV::Swap(s) => JsonVal::Obj(spec_encode_swap(s)),
        ItemV::Lp(s) => JsonVal::Obj(spec_encode_lp(s)),
        ItemV::Transfer(s) => JsonVal::Obj(spec_encode_transfer(s)),
        ItemV::Lending(s) => JsonVal::Obj(spec_encode_lending(s)),
        ItemV::NftMint(s) => JsonVal::Obj(spec_encode_nft_mint(s)),
        ItemV::NftTrade(s) => JsonVal::Obj(spec_encode_nft_trade(s)),
        ItemV::NftTransfer(s) => JsonVal::Obj(spec_encode_nft_transfer(s)),
        ItemV::NftLending(s) => JsonVal::Obj(spec_encode_nft_lending(s)),
        ItemV::Bridge(s) => JsonVal::Obj(spec_encode_bridge(s)),
        ItemV::ContractInteraction(s) => JsonVal::Obj(spec_encode_contract_interaction(s)),
        ItemV::Wrap(s) => JsonVal::Obj(spec_encode_wrap(s)),
        ItemV::SudoPool(s) => JsonVal::Obj(spec_encode_sudo_pool(s)),
        ItemV::Reward(s) => JsonVal::Obj(spec_encode_reward(s)),
        ItemV::Staking(s) => JsonVal::Obj(spec_encode_staking(s)),
        ItemV::Perp(s) => JsonVal::Obj(spec_encode_perp(s)),
        ItemV::Flashloan(s) => JsonVal::Obj(spec_encode_flashloan(s)),
        ItemV::ContractCreation(s) => JsonVal::Obj(spec_encode_contract_creation(s)),
        ItemV::NftLiquidation(s) => JsonVal::Obj(spec_encode_nft_liquidation(s)),
        ItemV::OptionEvent(s) => JsonVal::Obj(spec_encode_option_type(s)),
        ItemV::NftSweep(s) => JsonVal::Obj(spec_encode_nft_sweep(s)),
    }
}

/// Encodes one feed item as a JSON object.
pub fn encode_item(item: &Item) -> (r: JsonValue)
    ensures
        r@ == spec_encode_item(item@),
{
    match item {
        Item::Swap(s) => encode_swap(s),
        Item::Lp(s) => encode_lp(s),
        Item::Transfer(s) => encode_transfer(s),
        Item::Lending(s) => encode_lending(s),
        Item::NftMint(s) => encode_nft_mint(s),
        Item::NftTrade(s) => encode_nft_trade(s),
        Item::NftTransfer(s) => encode_nft_transfer(s),
        Item::NftLending(s) => encode_nft_lending(s),
        Item::Bridge(s) => encode_bridge(s),
        Item::ContractInteraction(s) => encode_contract_interaction(s),
        Item::Wrap(s) => encode_wrap(s),
        Item::SudoPool(s) => encode_sudo_pool(s),
        Item::Reward(s) => encode_reward(s),
        Item::Staking(s) => encode_staking(s),
        Item::Perp(s) => encode_perp(s),
        Item::Flashloan(s) => encode_flashloan(s),
        Item::ContractCreation(s) => encode_contract_creation(s),
        Item::NftLiquidation(s) => encode_nft_liquidation(s),
        Item::OptionEvent(s) => encode_option_type(s),
        Item::NftSweep(s) => encode_nft_sweep(s),
    }
}

} // verus!
