//! Round-trip laws of the item codec.
//!
//! Encoding a record and decoding the result yields the record back, for
//! every shape but `nft_sweep`: its member set equals `nft_trade`'s, so its
//! encoding decodes as the equal-membered trade record instead, which the
//! last per-shape lemma states exactly.

use vstd::prelude::*;
use crate::json::{
    JsonNumber, JsonVal, spec_lookup, opt_member, lemma_lookup_first, lemma_lookup_absent,
    lemma_lookup_absent_concat, lemma_lookup_concat_left, lemma_lookup_concat_right,
    lemma_opt_member_lookup,
};
use crate::fields::{
    spec_opt_str_field, spec_opt_u64_field, spec_opt_num_field, spec_mc_field,
    spec_encode_token_market_cap, lemma_token_market_cap_round_trip,
};
use crate::models::feed::{
    Swap, SwapV, Lp, LpV, Transfer, TransferV, Lending, LendingV, NftMint, NftMintV, NftTrade,
    NftTradeV, NftTransfer, NftTransferV, NftLending, NftLendingV, Bridge, BridgeV,
    ContractInteraction, ContractInteractionV, Wrap, WrapV, SudoPool, SudoPoolV, Reward,
    RewardV, Staking, StakingV, Perp, PerpV, Flashloan, FlashloanV, ContractCreation,
    ContractCreationV, NftLiquidation, NftLiquidationV, OptionType, OptionTypeV, NftSweep,
    NftSweepV, Item, ItemV, TokenMarketCap, TokenMarketCapV,
};

use crate::decode::{
    spec_decode_swap, spec_decode_lp, spec_decode_transfer, spec_decode_lending,
    spec_decode_nft_mint, spec_decode_nft_trade, spec_decode_nft_transfer,
    spec_decode_nft_lending, spec_decode_bridge, spec_decode_contract_interaction,
    spec_decode_wrap, spec_decode_sudo_pool, spec_decode_flashloan, spec_decode_reward,
    spec_decode_staking, spec_decode_perp, spec_decode_contract_creation,
    spec_decode_nft_liquidation, spec_decode_option_type, spec_decode_nft_sweep,
    spec_decode_item,
};

use crate::encode::{
    spec_encode_swap, spec_encode_lp, spec_encode_transfer, spec_encode_lending,
    spec_encode_nft_mint, spec_encode_nft_trade, spec_encode_nft_transfer,
    spec_encode_nft_lending, spec_encode_bridge, spec_encode_contract_interaction,
    spec_encode_wrap, spec_encode_sudo_pool, spec_encode_flashloan, spec_encode_reward,
    spec_encode_staking, spec_encode_perp, spec_encode_contract_creation,
    spec_encode_nft_liquidation, spec_encode_option_type, spec_encode_nft_sweep,
    spec_encode_item,
};

verus! {

/// The `token_market_cap` member of an encoded `swap` record holds the field.
#[verifier::spinoff_prover]
proof fn lemma_swap_token_market_cap_member(s: SwapV)
    ensures
        spec_mc_field(spec_encode_swap(s), "token_market_cap"@) == Some(s.token_market_cap),
{
    reveal_strlit("block");
    reveal_strlit("chain");
    reveal_strlit("dex");
    reveal_strlit("first_interaction");
    reveal_strlit("from");
    reveal_strlit("index");
    reveal_strlit("timestamp");
    reveal_strlit("to");
    reveal_strlit("token0_address");
    reveal_strlit("token0_amount");
    reveal_strlit("token0_amount_usd");
    reveal_strlit("token0_icon_link");
    reveal_strlit("token0_name");
    reveal_strlit("token0_price_usd");
    reveal_strlit("token0_symbol");
    reveal_strlit("token1_address");
    reveal_strlit("token1_amount");
    reveal_strlit("token1_amount_usd");
    reveal_strlit("token1_icon_link");
    reveal_strlit("token1_name");
    reveal_strlit("token1_price_usd");
    reveal_strlit("token1_symbol");
    reveal_strlit("token_market_cap");
    reveal_strlit("tx_hash");
    reveal_strlit("tx_type");
    reveal_strlit("wallet");
    reveal_strlit("wallet_label");
    assert("block"@.len() == 5);
    assert("chain"@.len() == 5);
    assert("dex"@.len() == 3);
    assert("first_interaction"@.len() == 17);
    assert("from"@.len() == 4);
    assert("index"@.len() == 5);
    assert("timestamp"@.len() == 9);
    assert("to"@.len() == 2);
    assert("token0_address"@.len() == 14);
    assert("token0_amount"@.len() == 13);
    assert("token0_amount_usd"@.len() == 17);
    assert("token0_icon_link"@.len() == 16);
    assert("token0_name"@.len() == 11);
    assert("token0_price_usd"@.len() == 16);
    assert("token0_symbol"@.len() == 13);
    assert("token1_address"@.len() == 14);
    assert("token1_amount"@.len() == 13);
    assert("token1_amount_usd"@.len() == 17);
    assert("token1_icon_link"@.len() == 16);
    assert("token1_name"@.len() == 11);
    assert("token1_price_usd"@.len() == 16);
    assert("token1_symbol"@.len() == 13);
    assert("token_market_cap"@.len() == 16);
    assert("tx_hash"@.len() == 7);
    assert("tx_type"@.len() == 7);
    assert("wallet"@.len() == 6);
    assert("wallet_label"@.len() == 12);
    assert("token0_icon_link"@[5] == '0');
    assert("token0_price_usd"@[5] == '0');
    assert("token1_icon_link"@[5] == '1');
    assert("token1_price_usd"@[5] == '1');
    assert("token_market_cap"@[5] == '_');
    let ms = spec_encode_swap(s);
    let mand: Seq<(Seq<char>, JsonVal)> = seq![
        ("wallet"@, JsonVal::Str(s.wallet)),
        ("wallet_label"@, JsonVal::Str(s.wallet_label)),
        ("tx_hash"@, JsonVal::Str(s.tx_hash)),
        ("tx_type"@, JsonVal::Str(s.tx_type)),
        ("chain"@, JsonVal::Str(s.chain)),
        ("index"@, JsonVal::Num(JsonNumber::PosInt(s.index as u64))),
        ("timestamp"@, JsonVal::Num(JsonNumber::PosInt(s.timestamp))),
        ("block"@, JsonVal::Num(JsonNumber::PosInt(s.block))),
        ("dex"@, JsonVal::Str(s.dex)),
        ("from"@, JsonVal::Str(s.from)),
        ("to"@, JsonVal::Str(s.to)),
        ("token0_address"@, JsonVal::Str(s.token0_address)),
        ("token0_amount"@, JsonVal::Num(s.token0_amount)),
        ("token0_amount_usd"@, JsonVal::Num(s.token0_amount_usd)),
        ("token0_name"@, JsonVal::Str(s.token0_name)),
        ("token0_price_usd"@, JsonVal::Num(s.token0_price_usd)),
        ("token0_symbol"@, JsonVal::Str(s.token0_symbol)),
        ("token0_icon_link"@, JsonVal::Str(s.token0_icon_link)),
        ("token1_address"@, JsonVal::Str(s.token1_address)),
        ("token1_amount"@, JsonVal::Num(s.token1_amount)),
        ("token1_amount_usd"@, JsonVal::Num(s.token1_amount_usd)),
        ("token1_name"@, JsonVal::Str(s.token1_name)),
        ("token1_price_usd"@, JsonVal::Num(s.token1_price_usd)),
        ("token1_symbol"@, JsonVal::Str(s.token1_symbol)),
        ("token1_icon_link"@, JsonVal::Str(s.token1_icon_link)),
        ("first_interaction"@, JsonVal::Bool(s.first_interaction)),
    ];
    let ov_token_market_cap: Option<JsonVal> = match s.token_market_cap { Option::Some(x) => Option::Some(JsonVal::Obj(spec_encode_token_market_cap(x))), Option::None => Option::None };
    let seg_token_market_cap = opt_member("token_market_cap"@, ov_token_market_cap);
    let tail_1 = seg_token_market_cap;
    assert(mand.len() == 26);
    assert(mand[0].0 == "wallet"@);
    assert(mand[1].0 == "wallet_label"@);
    assert(mand[2].0 == "tx_hash"@);
    assert(mand[3].0 == "tx_type"@);
    assert(mand[4].0 == "chain"@);
    assert(mand[5].0 == "index"@);
    assert(mand[6].0 == "timestamp"@);
    assert(mand[7].0 == "block"@);
    assert(mand[8].0 == "dex"@);
    assert(mand[9].0 == "from"@);
    assert(mand[10].0 == "to"@);
    assert(mand[11].0 == "token0_address"@);
    assert(mand[12].0 == "token0_amount"@);
    assert(mand[13].0 == "token0_amount_usd"@);
    assert(mand[14].0 == "token0_name"@);
    assert(mand[15].0 == "token0_price_usd"@);
    assert(mand[16].0 == "token0_symbol"@);
    assert(mand[17].0 == "token0_icon_link"@);
    assert(mand[18].0 == "token1_address"@);
    assert(mand[19].0 == "token1_amount"@);
    assert(mand[20].0 == "token1_amount_usd"@);
    assert(mand[21].0 == "token1_name"@);
    assert(mand[22].0 == "token1_price_usd"@);
    assert(mand[23].0 == "token1_symbol"@);
    assert(mand[24].0 == "token1_icon_link"@);
    assert(mand[25].0 == "first_interaction"@);
    assert forall|j: int| 0 <= j < mand.len() implies mand[j].0 != "token_market_cap"@ by {
        if j == 0 {
        } else if j == 1 {
        } else if j == 2 {
        } else if j == 3 {
        } else if j == 4 {
        } else if j == 5 {
        } else if j == 6 {
        } else if j == 7 {
        } else if j == 8 {
        } else if j == 9 {
        } else if j == 10 {
        } else if j == 11 {
        } else if j == 12 {
        } else if j == 13 {
        } else if j == 14 {
        } else if j == 15 {
        } else if j == 16 {
        } else if j == 17 {
        } else if j == 18 {
        } else if j == 19 {
        } else if j == 20 {
        } else if j == 21 {
        } else if j == 22 {
        } else if j == 23 {
        } else if j == 24 {
        } else if j == 25 {
        } else {
        }
    }
    lemma_lookup_absent(mand, "token_market_cap"@);
    lemma_lookup_concat_right(mand, tail_1, "token_market_cap"@);
    lemma_opt_member_lookup("token_market_cap"@, ov_token_market_cap, "token_market_cap"@);
    match s.token_market_cap {
        Option::Some(x) => {
            lemma_token_market_cap_round_trip(x);
            assert(ms == mand + tail_1);
            assert(spec_mc_field(spec_encode_swap(s), "token_market_cap"@) == Some(s.token_market_cap));
        },
        Option::None => {
            assert(ms == mand + tail_1);
            assert(spec_mc_field(spec_encode_swap(s), "token_market_cap"@) == Some(s.token_market_cap));
        },
    }
}

/// Decoding an encoded `swap` record yields it back.
#[verifier::rlimit(50)]
#[verifier::spinoff_prover]
pub proof fn lemma_swap_round_trip(s: SwapV)
    ensures
        spec_decode_item(spec_encode_item(ItemV::Swap(s))) == Some(ItemV::Swap(s)),
{
    reveal_strlit("block");
    reveal_strlit("chain");
    reveal_strlit("dex");
    reveal_strlit("first_interaction");
    reveal_strlit("from");
    reveal_strlit("index");
    reveal_strlit("timestamp");
    reveal_strlit("to");
    reveal_strlit("token0_address");
    reveal_strlit("token0_amount");
    reveal_strlit("token0_amount_usd");
    reveal_strlit("token0_icon_link");
    reveal_strlit("token0_name");
    reveal_strlit("token0_price_usd");
    reveal_strlit("token0_symbol");
    reveal_strlit("token1_address");
    reveal_strlit("token1_amount");
    reveal_strlit("token1_amount_usd");
    reveal_strlit("token1_icon_link");
    reveal_strlit("token1_name");
    reveal_strlit("token1_price_usd");
    reveal_strlit("token1_symbol");
    reveal_strlit("token_market_cap");
    reveal_strlit("tx_hash");
    reveal_strlit("tx_type");
    reveal_strlit("wallet");
    reveal_strlit("wallet_label");
    assert("block"@.len() == 5);
    assert("chain"@.len() == 5);
    assert("dex"@.len() == 3);
    assert("first_interaction"@.len() == 17);
    assert("from"@.len() == 4);
    assert("index"@.len() == 5);
    assert("timestamp"@.len() == 9);
    assert("to"@.len() == 2);
    assert("token0_address"@.len() == 14);
    assert("token0_amount"@.len() == 13);
    assert("token0_amount_usd"@.len() == 17);
    assert("token0_icon_link"@.len() == 16);
    assert("token0_name"@.len() == 11);
    assert("token0_price_usd"@.len() == 16);
    assert("token0_symbol"@.len() == 13);
    assert("token1_address"@.len() == 14);
    assert("token1_amount"@.len() == 13);
    assert("token1_amount_usd"@.len() == 17);
    assert("token1_icon_link"@.len() == 16);
    assert("token1_name"@.len() == 11);
    assert("token1_price_usd"@.len() == 16);
    assert("token1_symbol"@.len() == 13);
    assert("token_market_cap"@.len() == 16);
    assert("tx_hash"@.len() == 7);
    assert("tx_type"@.len() == 7);
    assert("wallet"@.len() == 6);
    assert("wallet_label"@.len() == 12);
    assert("block"@[0] == 'b');
    assert("chain"@[0] == 'c');
    assert("first_interaction"@[0] == 'f');
    assert("index"@[0] == 'i');
    assert("token0_address"@[5] == '0');
    assert("token0_amount"@[5] == '0');
    assert("token0_amount"@[7] == 'a');
    assert("token0_amount_usd"@[0] == 't');
    assert("token0_amount_usd"@[5] == '0');
    assert("token0_icon_link"@[5] == '0');
    assert("token0_icon_link"@[7] == 'i');
    assert("token0_name"@[5] == '0');
    assert("token0_price_usd"@[5] == '0');
    assert("token0_price_usd"@[7] == 'p');
    assert("token0_symbol"@[5] == '0');
    assert("token0_symbol"@[7] == 's');
    assert("token1_address"@[5] == '1');
    assert("token1_amount"@[5] == '1');
    assert("token1_amount"@[7] == 'a');
    assert("token1_amount_usd"@[0] == 't');
    assert("token1_amount_usd"@[5] == '1');
    assert("token1_icon_link"@[5] == '1');
    assert("token1_icon_link"@[7] == 'i');
    assert("token1_name"@[5] == '1');
    assert("token1_price_usd"@[5] == '1');
    assert("token1_price_usd"@[7] == 'p');
    assert("token1_symbol"@[5] == '1');
    assert("token1_symbol"@[7] == 's');
    assert("token_market_cap"@[5] == '_');
    assert("tx_hash"@[3] == 'h');
    assert("tx_type"@[3] == 't');
    let ms = spec_encode_swap(s);
    let mand: Seq<(Seq<char>, JsonVal)> = seq![
        ("wallet"@, JsonVal::Str(s.wallet)),
        ("wallet_label"@, JsonVal::Str(s.wallet_label)),
        ("tx_hash"@, JsonVal::Str(s.tx_hash)),
        ("tx_type"@, JsonVal::Str(s.tx_type)),
        ("chain"@, JsonVal::Str(s.chain)),
        ("index"@, JsonVal::Num(JsonNumber::PosInt(s.index as u64))),
        ("timestamp"@, JsonVal::Num(JsonNumber::PosInt(s.timestamp))),
        ("block"@, JsonVal::Num(JsonNumber::PosInt(s.block))),
        ("dex"@, JsonVal::Str(s.dex)),
        ("from"@, JsonVal::Str(s.from)),
        ("to"@, JsonVal::Str(s.to)),
        ("token0_address"@, JsonVal::Str(s.token0_address)),
        ("token0_amount"@, JsonVal::Num(s.token0_amount)),
        ("token0_amount_usd"@, JsonVal::Num(s.token0_amount_usd)),
        ("token0_name"@, JsonVal::Str(s.token0_name)),
        ("token0_price_usd"@, JsonVal::Num(s.token0_price_usd)),
        ("token0_symbol"@, JsonVal::Str(s.token0_symbol)),
        ("token0_icon_link"@, JsonVal::Str(s.token0_icon_link)),
        ("token1_address"@, JsonVal::Str(s.token1_address)),
        ("token1_amount"@, JsonVal::Num(s.token1_amount)),
        ("token1_amount_usd"@, JsonVal::Num(s.token1_amount_usd)),
        ("token1_name"@, JsonVal::Str(s.token1_name)),
        ("token1_price_usd"@, JsonVal::Num(s.token1_price_usd)),
        ("token1_symbol"@, JsonVal::Str(s.token1_symbol)),
        ("token1_icon_link"@, JsonVal::Str(s.token1_icon_link)),
        ("first_interaction"@, JsonVal::Bool(s.first_interaction)),
    ];
    let ov_token_market_cap: Option<JsonVal> = match s.token_market_cap { Option::Some(x) => Option::Some(JsonVal::Obj(spec_encode_token_market_cap(x))), Option::None => Option::None };
    let seg_token_market_cap = opt_member("token_market_cap"@, ov_token_market_cap);
    let tail_1 = seg_token_market_cap;
    assert(mand.len() == 26);
    assert(mand[0].0 == "wallet"@);
    assert(mand[1].0 == "wallet_label"@);
    assert(mand[2].0 == "tx_hash"@);
    assert(mand[3].0 == "tx_type"@);
    assert(mand[4].0 == "chain"@);
    assert(mand[5].0 == "index"@);
    assert(mand[6].0 == "timestamp"@);
    assert(mand[7].0 == "block"@);
    assert(mand[8].0 == "dex"@);
    assert(mand[9].0 == "from"@);
    assert(mand[10].0 == "to"@);
    assert(mand[11].0 == "token0_address"@);
    assert(mand[12].0 == "token0_amount"@);
    assert(mand[13].0 == "token0_amount_usd"@);
    assert(mand[14].0 == "token0_name"@);
    assert(mand[15].0 == "token0_price_usd"@);
    assert(mand[16].0 == "token0_symbol"@);
    assert(mand[17].0 == "token0_icon_link"@);
    assert(mand[18].0 == "token1_address"@);
    assert(mand[19].0 == "token1_amount"@);
    assert(mand[20].0 == "token1_amount_usd"@);
    assert(mand[21].0 == "token1_name"@);
    assert(mand[22].0 == "token1_price_usd"@);
    assert(mand[23].0 == "token1_symbol"@);
    assert(mand[24].0 == "token1_icon_link"@);
    assert(mand[25].0 == "first_interaction"@);
    lemma_lookup_first(mand, 0);
    lemma_lookup_first(mand, 1);
    lemma_lookup_first(mand, 2);
    lemma_lookup_first(mand, 3);
    lemma_lookup_first(mand, 4);
    lemma_lookup_first(mand, 5);
    lemma_lookup_first(mand, 6);
    lemma_lookup_first(mand, 7);
    lemma_lookup_first(mand, 8);
    lemma_lookup_first(mand, 9);
    lemma_lookup_first(mand, 10);
    lemma_lookup_first(mand, 11);
    lemma_lookup_first(mand, 12);
    lemma_lookup_first(mand, 13);
    lemma_lookup_first(mand, 14);
    lemma_lookup_first(mand, 15);
    lemma_lookup_first(mand, 16);
    lemma_lookup_first(mand, 17);
    lemma_lookup_first(mand, 18);
    lemma_lookup_first(mand, 19);
    lemma_lookup_first(mand, 20);
    lemma_lookup_first(mand, 21);
    lemma_lookup_first(mand, 22);
    lemma_lookup_first(mand, 23);
    lemma_lookup_first(mand, 24);
    lemma_lookup_first(mand, 25);
    lemma_lookup_concat_left(mand, tail_1, "wallet"@);
    lemma_lookup_concat_left(mand, tail_1, "wallet_label"@);
    lemma_lookup_concat_left(mand, tail_1, "tx_hash"@);
    lemma_lookup_concat_left(mand, tail_1, "tx_type"@);
    lemma_lookup_concat_left(mand, tail_1, "chain"@);
    lemma_lookup_concat_left(mand, tail_1, "index"@);
    lemma_lookup_concat_left(mand, tail_1, "timestamp"@);
    lemma_lookup_concat_left(mand, tail_1, "block"@);
    lemma_lookup_concat_left(mand, tail_1, "dex"@);
    lemma_lookup_concat_left(mand, tail_1, "from"@);
    lemma_lookup_concat_left(mand, tail_1, "to"@);
    lemma_lookup_concat_left(mand, tail_1, "token0_address"@);
    lemma_lookup_concat_left(mand, tail_1, "token0_amount"@);
    lemma_lookup_concat_left(mand, tail_1, "token0_amount_usd"@);
    lemma_lookup_concat_left(mand, tail_1, "token0_name"@);
    lemma_lookup_concat_left(mand, tail_1, "token0_price_usd"@);
    lemma_lookup_concat_left(mand, tail_1, "token0_symbol"@);
    lemma_lookup_concat_left(mand, tail_1, "token0_icon_link"@);
    lemma_lookup_concat_left(mand, tail_1, "token1_address"@);
    lemma_lookup_concat_left(mand, tail_1, "token1_amount"@);
    lemma_lookup_concat_left(mand, tail_1, "token1_amount_usd"@);
    lemma_lookup_concat_left(mand, tail_1, "token1_name"@);
    lemma_lookup_concat_left(mand, tail_1, "token1_price_usd"@);
    lemma_lookup_concat_left(mand, tail_1, "token1_symbol"@);
    lemma_lookup_concat_left(mand, tail_1, "token1_icon_link"@);
    lemma_lookup_concat_left(mand, tail_1, "first_interaction"@);
    lemma_swap_token_market_cap_member(s);
    assert(ms == mand + tail_1);
    assert(spec_decode_swap(ms) == Some(SwapV {
        wallet: s.wallet,
        wallet_label: s.wallet_label,
        tx_hash: s.tx_hash,
        tx_type: s.tx_type,
        chain: s.chain,
        index: s.index,
        timestamp: s.timestamp,
        block: s.block,
        dex: s.dex,
        from: s.from,
        to: s.to,
        token0_address: s.token0_address,
        token0_amount: s.token0_amount,
        token0_amount_usd: s.token0_amount_usd,
        token0_name: s.token0_name,
        token0_price_usd: s.token0_price_usd,
        token0_symbol: s.token0_symbol,
        token0_icon_link: s.token0_icon_link,
        token1_address: s.token1_address,
        token1_amount: s.token1_amount,
        token1_amount_usd: s.token1_amount_usd,
        token1_name: s.token1_name,
        token1_price_usd: s.token1_price_usd,
        token1_symbol: s.token1_symbol,
        token1_icon_link: s.token1_icon_link,
        first_interaction: s.first_interaction,
        token_market_cap: s.token_market_cap,
    }));
}

/// An encoded `lp` record lacks `to`, which the `swap` shape needs.
#[verifier::spinoff_prover]
proof fn lemma_lp_not_swap(s: LpV)
    ensures
        spec_decode_swap(spec_encode_lp(s)) is None,
{
    reveal_strlit("block");
    reveal_strlit("chain");
    reveal_strlit("dex");
    reveal_strlit("from");
    reveal_strlit("index");
    reveal_strlit("lower_bound");
    reveal_strlit("timestamp");
    reveal_strlit("to");
    reveal_strlit("token0_address");
    reveal_strlit("token0_amount");
    reveal_strlit("token0_amount_usd");
    reveal_strlit("token0_icon_link");
    reveal_strlit("token0_name");
    reveal_strlit("token0_price_usd");
    reveal_strlit("token0_symbol");
    reveal_strlit("token1_address");
    reveal_strlit("token1_amount");
    reveal_strlit("token1_amount_usd");
    reveal_strlit("token1_icon_link");
    reveal_strlit("token1_name");
    reveal_strlit("token1_price_usd");
    reveal_strlit("token1_symbol");
    reveal_strlit("tx_hash");
    reveal_strlit("tx_type");
    reveal_strlit("type");
    reveal_strlit("upper_bound");
    reveal_strlit("wallet");
    reveal_strlit("wallet_label");
    assert("block"@.len() == 5);
    assert("chain"@.len() == 5);
    assert("dex"@.len() == 3);
    assert("from"@.len() == 4);
    assert("index"@.len() == 5);
    assert("lower_bound"@.len() == 11);
    assert("timestamp"@.len() == 9);
    assert("to"@.len() == 2);
    assert("token0_address"@.len() == 14);
    assert("token0_amount"@.len() == 13);
    assert("token0_amount_usd"@.len() == 17);
    assert("token0_icon_link"@.len() == 16);
    assert("token0_name"@.len() == 11);
    assert("token0_price_usd"@.len() == 16);
    assert("token0_symbol"@.len() == 13);
    assert("token1_address"@.len() == 14);
    assert("token1_amount"@.len() == 13);
    assert("token1_amount_usd"@.len() == 17);
    assert("token1_icon_link"@.len() == 16);
    assert("token1_name"@.len() == 11);
    assert("token1_price_usd"@.len() == 16);
    assert("token1_symbol"@.len() == 13);
    assert("tx_hash"@.len() == 7);
    assert("tx_type"@.len() == 7);
    assert("type"@.len() == 4);
    assert("upper_bound"@.len() == 11);
    assert("wallet"@.len() == 6);
    assert("wallet_label"@.len() == 12);
    let ms = spec_encode_lp(s);
    let mand = ms;
    assert(mand.len() == 27);
    assert(mand[0].0 == "wallet"@);
    assert(mand[1].0 == "wallet_label"@);
    assert(mand[2].0 == "tx_hash"@);
    assert(mand[3].0 == "tx_type"@);
    assert(mand[4].0 == "chain"@);
    assert(mand[5].0 == "index"@);
    assert(mand[6].0 == "timestamp"@);
    assert(mand[7].0 == "block"@);
    assert(mand[8].0 == "dex"@);
    assert(mand[9].0 == "from"@);
    assert(mand[10].0 == "type"@);
    assert(mand[11].0 == "token0_address"@);
    assert(mand[12].0 == "token0_amount"@);
    assert(mand[13].0 == "token0_amount_usd"@);
    assert(mand[14].0 == "token0_name"@);
    assert(mand[15].0 == "token0_price_usd"@);
    assert(mand[16].0 == "token0_symbol"@);
    assert(mand[17].0 == "token0_icon_link"@);
    assert(mand[18].0 == "token1_address"@);
    assert(mand[19].0 == "token1_amount"@);
    assert(mand[20].0 == "token1_amount_usd"@);
    assert(mand[21].0 == "token1_name"@);
    assert(mand[22].0 == "token1_price_usd"@);
    assert(mand[23].0 == "token1_symbol"@);
    assert(mand[24].0 == "token1_icon_link"@);
    assert(mand[25].0 == "lower_bound"@);
    assert(mand[26].0 == "upper_bound"@);
    assert forall|j: int| 0 <= j < mand.len() implies mand[j].0 != "to"@ by {
        if j == 0 {
        } else if j == 1 {
        } else if j == 2 {
        } else if j == 3 {
        } else if j == 4 {
        } else if j == 5 {
        } else if j == 6 {
        } else if j == 7 {
        } else if j == 8 {
        } else if j == 9 {
        } else if j == 10 {
        } else if j == 11 {
        } else if j == 12 {
        } else if j == 13 {
        } else if j == 14 {
        } else if j == 15 {
        } else if j == 16 {
        } else if j == 17 {
        } else if j == 18 {
        } else if j == 19 {
        } else if j == 20 {
        } else if j == 21 {
        } else if j == 22 {
        } else if j == 23 {
        } else if j == 24 {
        } else if j == 25 {
        } else if j == 26 {
        } else {
        }
    }
    lemma_lookup_absent(mand, "to"@);
    assert(spec_decode_swap(ms) is None);
}

/// Decoding an encoded `lp` record yields it back.
#[verifier::rlimit(50)]
#[verifier::spinoff_prover]
pub proof fn lemma_lp_round_trip(s: LpV)
    ensures
        spec_decode_item(spec_encode_item(ItemV::Lp(s))) == Some(ItemV::Lp(s)),
{
    reveal_strlit("block");
    reveal_strlit("chain");
    reveal_strlit("dex");
    reveal_strlit("from");
    reveal_strlit("index");
    reveal_strlit("lower_bound");
    reveal_strlit("timestamp");
    reveal_strlit("token0_address");
    reveal_strlit("token0_amount");
    reveal_strlit("token0_amount_usd");
    reveal_strlit("token0_icon_link");
    reveal_strlit("token0_name");
    reveal_strlit("token0_price_usd");
    reveal_strlit("token0_symbol");
    reveal_strlit("token1_address");
    reveal_strlit("token1_amount");
    reveal_strlit("token1_amount_usd");
    reveal_strlit("token1_icon_link");
    reveal_strlit("token1_name");
    reveal_strlit("token1_price_usd");
    reveal_strlit("token1_symbol");
    reveal_strlit("tx_hash");
    reveal_strlit("tx_type");
    reveal_strlit("type");
    reveal_strlit("upper_bound");
    reveal_strlit("wallet");
    reveal_strlit("wallet_label");
    assert("block"@.len() == 5);
    assert("chain"@.len() == 5);
    assert("dex"@.len() == 3);
    assert("from"@.len() == 4);
    assert("index"@.len() == 5);
    assert("lower_bound"@.len() == 11);
    assert("timestamp"@.len() == 9);
    assert("token0_address"@.len() == 14);
    assert("token0_amount"@.len() == 13);
    assert("token0_amount_usd"@.len() == 17);
    assert("token0_icon_link"@.len() == 16);
    assert("token0_name"@.len() == 11);
    assert("token0_price_usd"@.len() == 16);
    assert("token0_symbol"@.len() == 13);
    assert("token1_address"@.len() == 14);
    assert("token1_amount"@.len() == 13);
    assert("token1_amount_usd"@.len() == 17);
    assert("token1_icon_link"@.len() == 16);
    assert("token1_name"@.len() == 11);
    assert("token1_price_usd"@.len() == 16);
    assert("token1_symbol"@.len() == 13);
    assert("tx_hash"@.len() == 7);
    assert("tx_type"@.len() == 7);
    assert("type"@.len() == 4);
    assert("upper_bound"@.len() == 11);
    assert("wallet"@.len() == 6);
    assert("wallet_label"@.len() == 12);
    assert("block"@[0] == 'b');
    assert("chain"@[0] == 'c');
    assert("from"@[0] == 'f');
    assert("index"@[0] == 'i');
    assert("lower_bound"@[0] == 'l');
    assert("token0_address"@[5] == '0');
    assert("token0_amount"@[5] == '0');
    assert("token0_amount"@[7] == 'a');
    assert("token0_amount_usd"@[5] == '0');
    assert("token0_icon_link"@[5] == '0');
    assert("token0_icon_link"@[7] == 'i');
    assert("token0_name"@[0] == 't');
    assert("token0_name"@[5] == '0');
    assert("token0_price_usd"@[5] == '0');
    assert("token0_price_usd"@[7] == 'p');
    assert("token0_symbol"@[5] == '0');
    assert("token0_symbol"@[7] == 's');
    assert("token1_address"@[5] == '1');
    assert("token1_amount"@[5] == '1');
    assert("token1_amount"@[7] == 'a');
    assert("token1_amount_usd"@[5] == '1');
    assert("token1_icon_link"@[5] == '1');
    assert("token1_icon_link"@[7] == 'i');
    assert("token1_name"@[0] == 't');
    assert("token1_name"@[5] == '1');
    assert("token1_price_usd"@[5] == '1');
    assert("token1_price_usd"@[7] == 'p');
    assert("token1_symbol"@[5] == '1');
    assert("token1_symbol"@[7] == 's');
    assert("tx_hash"@[3] == 'h');
    assert("tx_type"@[3] == 't');
    assert("type"@[0] == 't');
    assert("upper_bound"@[0] == 'u');
    let ms = spec_encode_lp(s);
    let mand = ms;
    assert(mand.len() == 27);
    assert(mand[0].0 == "wallet"@);
    assert(mand[1].0 == "wallet_label"@);
    assert(mand[2].0 == "tx_hash"@);
    assert(mand[3].0 == "tx_type"@);
    assert(mand[4].0 == "chain"@);
    assert(mand[5].0 == "index"@);
    assert(mand[6].0 == "timestamp"@);
    assert(mand[7].0 == "block"@);
    assert(mand[8].0 == "dex"@);
    assert(mand[9].0 == "from"@);
    assert(mand[10].0 == "type"@);
    assert(mand[11].0 == "token0_address"@);
    assert(mand[12].0 == "token0_amount"@);
    assert(mand[13].0 == "token0_amount_usd"@);
    assert(mand[14].0 == "token0_name"@);
    assert(mand[15].0 == "token0_price_usd"@);
    assert(mand[16].0 == "token0_symbol"@);
    assert(mand[17].0 == "token0_icon_link"@);
    assert(mand[18].0 == "token1_address"@);
    assert(mand[19].0 == "token1_amount"@);
    assert(mand[20].0 == "token1_amount_usd"@);
    assert(mand[21].0 == "token1_name"@);
    assert(mand[22].0 == "token1_price_usd"@);
    assert(mand[23].0 == "token1_symbol"@);
    assert(mand[24].0 == "token1_icon_link"@);
    assert(mand[25].0 == "lower_bound"@);
    assert(mand[26].0 == "upper_bound"@);
    lemma_lookup_first(mand, 0);
    lemma_lookup_first(mand, 1);
    lemma_lookup_first(mand, 2);
    lemma_lookup_first(mand, 3);
    lemma_lookup_first(mand, 4);
    lemma_lookup_first(mand, 5);
    lemma_lookup_first(mand, 6);
    lemma_lookup_first(mand, 7);
    lemma_lookup_first(mand, 8);
    lemma_lookup_first(mand, 9);
    lemma_lookup_first(mand, 10);
    lemma_lookup_first(mand, 11);
    lemma_lookup_first(mand, 12);
    lemma_lookup_first(mand, 13);
    lemma_lookup_first(mand, 14);
    lemma_lookup_first(mand, 15);
    lemma_lookup_first(mand, 16);
    lemma_lookup_first(mand, 17);
    lemma_lookup_first(mand, 18);
    lemma_lookup_first(mand, 19);
    lemma_lookup_first(mand, 20);
    lemma_lookup_first(mand, 21);
    lemma_lookup_first(mand, 22);
    lemma_lookup_first(mand, 23);
    lemma_lookup_first(mand, 24);
    lemma_lookup_first(mand, 25);
    lemma_lookup_first(mand, 26);
    lemma_lp_not_swap(s);
    assert(spec_decode_lp(ms) == Some(LpV {
        wallet: s.wallet,
        wallet_label: s.wallet_label,
        tx_hash: s.tx_hash,
        tx_type: s.tx_type,
        chain: s.chain,
        index: s.index,
        timestamp: s.timestamp,
        block: s.block,
        dex: s.dex,
        from: s.from,
        type_field: s.type_field,
        token0_address: s.token0_address,
        token0_amount: s.token0_amount,
        token0_amount_usd: s.token0_amount_usd,
        token0_name: s.token0_name,
        token0_price_usd: s.token0_price_usd,
        token0_symbol: s.token0_symbol,
        token0_icon_link: s.token0_icon_link,
        token1_address: s.token1_address,
        token1_amount: s.token1_amount,
        token1_amount_usd: s.token1_amount_usd,
        token1_name: s.token1_name,
        token1_price_usd: s.token1_price_usd,
        token1_symbol: s.token1_symbol,
        token1_icon_link: s.token1_icon_link,
        lower_bound: s.lower_bound,
        upper_bound: s.upper_bound,
    }));
}

/// The `token_market_cap` member of an encoded `transfer` record holds the field.
#[verifier::spinoff_prover]
proof fn lemma_transfer_token_market_cap_member(s: TransferV)
    ensures
        spec_mc_field(spec_encode_transfer(s), "token_market_cap"@) == Some(s.token_market_cap),
{
    reveal_strlit("amount_usd");
    reveal_strlit("block");
    reveal_strlit("chain");
    reveal_strlit("contract_address");
    reveal_strlit("from");
    reveal_strlit("from_label");
    reveal_strlit("index");
    reveal_strlit("name");
    reveal_strlit("symbol");
    reveal_strlit("timestamp");
    reveal_strlit("to");
    reveal_strlit("to_label");
    reveal_strlit("token_icon_link");
    reveal_strlit("token_market_cap");
    reveal_strlit("token_price_usd");
    reveal_strlit("tx_hash");
    reveal_strlit("tx_type");
    reveal_strlit("type");
    reveal_strlit("wallet");
    reveal_strlit("wallet_label");
    assert("amount_usd"@.len() == 10);
    assert("block"@.len() == 5);
    assert("chain"@.len() == 5);
    assert("contract_address"@.len() == 16);
    assert("from"@.len() == 4);
    assert("from_label"@.len() == 10);
    assert("index"@.len() == 5);
    assert("name"@.len() == 4);
    assert("symbol"@.len() == 6);
    assert("timestamp"@.len() == 9);
    assert("to"@.len() == 2);
    assert("to_label"@.len() == 8);
    assert("token_icon_link"@.len() == 15);
    assert("token_market_cap"@.len() == 16);
    assert("token_price_usd"@.len() == 15);
    assert("tx_hash"@.len() == 7);
    assert("tx_type"@.len() == 7);
    assert("type"@.len() == 4);
    assert("wallet"@.len() == 6);
    assert("wallet_label"@.len() == 12);
    assert("contract_address"@[0] == 'c');
    assert("token_market_cap"@[0] == 't');
    let ms = spec_encode_transfer(s);
    let mand: Seq<(Seq<char>, JsonVal)> = seq![
        ("wallet"@, JsonVal::Str(s.wallet)),
        ("wallet_label"@, JsonVal::Str(s.wallet_label)),
        ("tx_hash"@, JsonVal::Str(s.tx_hash)),
        ("tx_type"@, JsonVal::Str(s.tx_type)),
        ("chain"@, JsonVal::Str(s.chain)),
        ("index"@, JsonVal::Num(JsonNumber::PosInt(s.index as u64))),
        ("timestamp"@, JsonVal::Num(JsonNumber::PosInt(s.timestamp))),
        ("block"@, JsonVal::Num(JsonNumber::PosInt(s.block))),
        ("from"@, JsonVal::Str(s.from)),
        ("to"@, JsonVal::Str(s.to)),
        ("from_label"@, JsonVal::Str(s.from_label)),
        ("to_label"@, JsonVal::Str(s.to_label)),
        ("amount_usd"@, JsonVal::Num(s.amount_usd)),
        ("contract_address"@, JsonVal::Str(s.contract_address)),
        ("name"@, JsonVal::Str(s.name)),
        ("symbol"@, JsonVal::Str(s.symbol)),
        ("token_price_usd"@, JsonVal::Num(s.token_price_usd)),
        ("type"@, JsonVal::Str(s.type_field)),
        ("token_icon_link"@, JsonVal::Str(s.token_icon_link)),
    ];
    let ov_token_market_cap: Option<JsonVal> = match s.token_market_cap { Option::Some(x) => Option::Some(JsonVal::Obj(spec_encode_token_market_cap(x))), Option::None => Option::None };
    let seg_token_market_cap = opt_member("token_market_cap"@, ov_token_market_cap);
    let tail_1 = seg_token_market_cap;
    assert(mand.len() == 19);
    assert(mand[0].0 == "wallet"@);
    assert(mand[1].0 == "wallet_label"@);
    assert(mand[2].0 == "tx_hash"@);
    assert(mand[3].0 == "tx_type"@);
    assert(mand[4].0 == "chain"@);
    assert(mand[5].0 == "index"@);
    assert(mand[6].0 == "timestamp"@);
    assert(mand[7].0 == "block"@);
    assert(mand[8].0 == "from"@);
    assert(mand[9].0 == "to"@);
    assert(mand[10].0 == "from_label"@);
    assert(mand[11].0 == "to_label"@);
    assert(mand[12].0 == "amount_usd"@);
    assert(mand[13].0 == "contract_address"@);
    assert(mand[14].0 == "name"@);
    assert(mand[15].0 == "symbol"@);
    assert(mand[16].0 == "token_price_usd"@);
    assert(mand[17].0 == "type"@);
    assert(mand[18].0 == "token_icon_link"@);
    assert forall|j: int| 0 <= j < mand.len() implies mand[j].0 != "token_market_cap"@ by {
        if j == 0 {
        } else if j == 1 {
        } else if j == 2 {
        } else if j == 3 {
        } else if j == 4 {
        } else if j == 5 {
        } else if j == 6 {
        } else if j == 7 {
        } else if j == 8 {
        } else if j == 9 {
        } else if j == 10 {
        } else if j == 11 {
        } else if j == 12 {
        } else if j == 13 {
        } else if j == 14 {
        } else if j == 15 {
        } else if j == 16 {
        } else if j == 17 {
        } else if j == 18 {
        } else {
        }
    }
    lemma_lookup_absent(mand, "token_market_cap"@);
    lemma_lookup_concat_right(mand, tail_1, "token_market_cap"@);
    lemma_opt_member_lookup("token_market_cap"@, ov_token_market_cap, "token_market_cap"@);
    match s.token_market_cap {
        Option::Some(x) => {
            lemma_token_market_cap_round_trip(x);
            assert(ms == mand + tail_1);
            assert(spec_mc_field(spec_encode_transfer(s), "token_market_cap"@) == Some(s.token_market_cap));
        },
        Option::None => {
            assert(ms == mand + tail_1);
            assert(spec_mc_field(spec_encode_transfer(s), "token_market_cap"@) == Some(s.token_market_cap));
        },
    }
}

/// An encoded `transfer` record lacks `dex`, which the `swap` shape needs.
#[verifier::spinoff_prover]
proof fn lemma_transfer_not_swap(s: TransferV)
    ensures
        spec_decode_swap(spec_encode_transfer(s)) is None,
{
    reveal_strlit("amount_usd");
    reveal_strlit("block");
    reveal_strlit("chain");
    reveal_strlit("contract_address");
    reveal_strlit("dex");
    reveal_strlit("from");
    reveal_strlit("from_label");
    reveal_strlit("index");
    reveal_strlit("name");
    reveal_strlit("symbol");
    reveal_strlit("timestamp");
    reveal_strlit("to");
    reveal_strlit("to_label");
    reveal_strlit("token_icon_link");
    reveal_strlit("token_market_cap");
    reveal_strlit("token_price_usd");
    reveal_strlit("tx_hash");
    reveal_strlit("tx_type");
    reveal_strlit("type");
    reveal_strlit("wallet");
    reveal_strlit("wallet_label");
    assert("amount_usd"@.len() == 10);
    assert("block"@.len() == 5);
    assert("chain"@.len() == 5);
    assert("contract_address"@.len() == 16);
    assert("dex"@.len() == 3);
    assert("from"@.len() == 4);
    assert("from_label"@.len() == 10);
    assert("index"@.len() == 5);
    assert("name"@.len() == 4);
    assert("symbol"@.len() == 6);
    assert("timestamp"@.len() == 9);
    assert("to"@.len() == 2);
    assert("to_label"@.len() == 8);
    assert("token_icon_link"@.len() == 15);
    assert("token_market_cap"@.len() == 16);
    assert("token_price_usd"@.len() == 15);
    assert("tx_hash"@.len() == 7);
    assert("tx_type"@.len() == 7);
    assert("type"@.len() == 4);
    assert("wallet"@.len() == 6);
    assert("wallet_label"@.len() == 12);
    let ms = spec_encode_transfer(s);
    let mand: Seq<(Seq<char>, JsonVal)> = seq![
        ("wallet"@, JsonVal::Str(s.wallet)),
        ("wallet_label"@, JsonVal::Str(s.wallet_label)),
        ("tx_hash"@, JsonVal::Str(s.tx_hash)),
        ("tx_type"@, JsonVal::Str(s.tx_type)),
        ("chain"@, JsonVal::Str(s.chain)),
        ("index"@, JsonVal::Num(JsonNumber::PosInt(s.index as u64))),
        ("timestamp"@, JsonVal::Num(JsonNumber::PosInt(s.timestamp))),
        ("block"@, JsonVal::Num(JsonNumber::PosInt(s.block))),
        ("from"@, JsonVal::Str(s.from)),
        ("to"@, JsonVal::Str(s.to)),
        ("from_label"@, JsonVal::Str(s.from_label)),
        ("to_label"@, JsonVal::Str(s.to_label)),
        ("amount_usd"@, JsonVal::Num(s.amount_usd)),
        ("contract_address"@, JsonVal::Str(s.contract_address)),
        ("name"@, JsonVal::Str(s.name)),
        ("symbol"@, JsonVal::Str(s.symbol)),
        ("token_price_usd"@, JsonVal::Num(s.token_price_usd)),
        ("type"@, JsonVal::Str(s.type_field)),
        ("token_icon_link"@, JsonVal::Str(s.token_icon_link)),
    ];
    let ov_token_market_cap: Option<JsonVal> = match s.token_market_cap { Option::Some(x) => Option::Some(JsonVal::Obj(spec_encode_token_market_cap(x))), Option::None => Option::None };
    let seg_token_market_cap = opt_member("token_market_cap"@, ov_token_market_cap);
    let tail_1 = seg_token_market_cap;
    assert(mand.len() == 19);
    assert(mand[0].0 == "wallet"@);
    assert(mand[1].0 == "wallet_label"@);
    assert(mand[2].0 == "tx_hash"@);
    assert(mand[3].0 == "tx_type"@);
    assert(mand[4].0 == "chain"@);
    assert(mand[5].0 == "index"@);
    assert(mand[6].0 == "timestamp"@);
    assert(mand[7].0 == "block"@);
    assert(mand[8].0 == "from"@);
    assert(mand[9].0 == "to"@);
    assert(mand[10].0 == "from_label"@);
    assert(mand[11].0 == "to_label"@);
    assert(mand[12].0 == "amount_usd"@);
    assert(mand[13].0 == "contract_address"@);
    assert(mand[14].0 == "name"@);
    assert(mand[15].0 == "symbol"@);
    assert(mand[16].0 == "token_price_usd"@);
    assert(mand[17].0 == "type"@);
    assert(mand[18].0 == "token_icon_link"@);
    assert forall|j: int| 0 <= j < mand.len() implies mand[j].0 != "dex"@ by {
        if j == 0 {
        } else if j == 1 {
        } else if j == 2 {
        } else if j == 3 {
        } else if j == 4 {
        } else if j == 5 {
        } else if j == 6 {
        } else if j == 7 {
        } else if j == 8 {
        } else if j == 9 {
        } else if j == 10 {
        } else if j == 11 {
        } else if j == 12 {
        } else if j == 13 {
        } else if j == 14 {
        } else if j == 15 {
        } else if j == 16 {
        } else if j == 17 {
        } else if j == 18 {
        } else {
        }
    }
    lemma_lookup_absent(mand, "dex"@);
    lemma_opt_member_lookup("token_market_cap"@, ov_token_market_cap, "dex"@);
    lemma_lookup_absent_concat(mand, tail_1, "dex"@);
    assert(ms == mand + tail_1);
    assert(spec_decode_swap(ms) is None);
}

/// An encoded `transfer` record lacks `dex`, which the `lp` shape needs.
#[verifier::spinoff_prover]
proof fn lemma_transfer_not_lp(s: TransferV)
    ensures
        spec_decode_lp(spec_encode_transfer(s)) is None,
{
    reveal_strlit("amount_usd");
    reveal_strlit("block");
    reveal_strlit("chain");
    reveal_strlit("contract_address");
    reveal_strlit("dex");
    reveal_strlit("from");
    reveal_strlit("from_label");
    reveal_strlit("index");
    reveal_strlit("name");
    reveal_strlit("symbol");
    reveal_strlit("timestamp");
    reveal_strlit("to");
    reveal_strlit("to_label");
    reveal_strlit("token_icon_link");
    reveal_strlit("token_market_cap");
    reveal_strlit("token_price_usd");
    reveal_strlit("tx_hash");
    reveal_strlit("tx_type");
    reveal_strlit("type");
    reveal_strlit("wallet");
    reveal_strlit("wallet_label");
    assert("amount_usd"@.len() == 10);
    assert("block"@.len() == 5);
    assert("chain"@.len() == 5);
    assert("contract_address"@.len() == 16);
    assert("dex"@.len() == 3);
    assert("from"@.len() == 4);
    assert("from_label"@.len() == 10);
    assert("index"@.len() == 5);
    assert("name"@.len() == 4);
    assert("symbol"@.len() == 6);
    assert("timestamp"@.len() == 9);
    assert("to"@.len() == 2);
    assert("to_label"@.len() == 8);
    assert("token_icon_link"@.len() == 15);
    assert("token_market_cap"@.len() == 16);
    assert("token_price_usd"@.len() == 15);
    assert("tx_hash"@.len() == 7);
    assert("tx_type"@.len() == 7);
    assert("type"@.len() == 4);
    assert("wallet"@.len() == 6);
    assert("wallet_label"@.len() == 12);
    let ms = spec_encode_transfer(s);
    let mand: Seq<(Seq<char>, JsonVal)> = seq![
        ("wallet"@, JsonVal::Str(s.wallet)),
        ("wallet_label"@, JsonVal::Str(s.wallet_label)),
        ("tx_hash"@, JsonVal::Str(s.tx_hash)),
        ("tx_type"@, JsonVal::Str(s.tx_type)),
        ("chain"@, JsonVal::Str(s.chain)),
        ("index"@, JsonVal::Num(JsonNumber::PosInt(s.index as u64))),
        ("timestamp"@, JsonVal::Num(JsonNumber::PosInt(s.timestamp))),
        ("block"@, JsonVal::Num(JsonNumber::PosInt(s.block))),
        ("from"@, JsonVal::Str(s.from)),
        ("to"@, JsonVal::Str(s.to)),
        ("from_label"@, JsonVal::Str(s.from_label)),
        ("to_label"@, JsonVal::Str(s.to_label)),
        ("amount_usd"@, JsonVal::Num(s.amount_usd)),
        ("contract_address"@, JsonVal::Str(s.contract_address)),
        ("name"@, JsonVal::Str(s.name)),
        ("symbol"@, JsonVal::Str(s.symbol)),
        ("token_price_usd"@, JsonVal::Num(s.token_price_usd)),
        ("type"@, JsonVal::Str(s.type_field)),
        ("token_icon_link"@, JsonVal::Str(s.token_icon_link)),
    ];
    let ov_token_market_cap: Option<JsonVal> = match s.token_market_cap { Option::Some(x) => Option::Some(JsonVal::Obj(spec_encode_token_market_cap(x))), Option::None => Option::None };
    let seg_token_market_cap = opt_member("token_market_cap"@, ov_token_market_cap);
    let tail_1 = seg_token_market_cap;
    assert(mand.len() == 19);
    assert(mand[0].0 == "wallet"@);
    assert(mand[1].0 == "wallet_label"@);
    assert(mand[2].0 == "tx_hash"@);
    assert(mand[3].0 == "tx_type"@);
    assert(mand[4].0 == "chain"@);
    assert(mand[5].0 == "index"@);
    assert(mand[6].0 == "timestamp"@);
    assert(mand[7].0 == "block"@);
    assert(mand[8].0 == "from"@);
    assert(mand[9].0 == "to"@);
    assert(mand[10].0 == "from_label"@);
    assert(mand[11].0 == "to_label"@);
    assert(mand[12].0 == "amount_usd"@);
    assert(mand[13].0 == "contract_address"@);
    assert(mand[14].0 == "name"@);
    assert(mand[15].0 == "symbol"@);
    assert(mand[16].0 == "token_price_usd"@);
    assert(mand[17].0 == "type"@);
    assert(mand[18].0 == "token_icon_link"@);
    assert forall|j: int| 0 <= j < mand.len() implies mand[j].0 != "dex"@ by {
        if j == 0 {
        } else if j == 1 {
        } else if j == 2 {
        } else if j == 3 {
        } else if j == 4 {
        } else if j == 5 {
        } else if j == 6 {
        } else if j == 7 {
        } else if j == 8 {
        } else if j == 9 {
        } else if j == 10 {
        } else if j == 11 {
        } else if j == 12 {
        } else if j == 13 {
        } else if j == 14 {
        } else if j == 15 {
        } else if j == 16 {
        } else if j == 17 {
        } else if j == 18 {
        } else {
        }
    }
    lemma_lookup_absent(mand, "dex"@);
    lemma_opt_member_lookup("token_market_cap"@, ov_token_market_cap, "dex"@);
    lemma_lookup_absent_concat(mand, tail_1, "dex"@);
    assert(ms == mand + tail_1);
    assert(spec_decode_lp(ms) is None);
}

/// Decoding an encoded `transfer` record yields it back.
#[verifier::rlimit(50)]
#[verifier::spinoff_prover]
pub proof fn lemma_transfer_round_trip(s: TransferV)
    ensures
        spec_decode_item(spec_encode_item(ItemV::Transfer(s))) == Some(ItemV::Transfer(s)),
{
    reveal_strlit("amount_usd");
    reveal_strlit("block");
    reveal_strlit("chain");
    reveal_strlit("contract_address");
    reveal_strlit("from");
    reveal_strlit("from_label");
    reveal_strlit("index");
    reveal_strlit("name");
    reveal_strlit("symbol");
    reveal_strlit("timestamp");
    reveal_strlit("to");
    reveal_strlit("to_label");
    reveal_strlit("token_icon_link");
    reveal_strlit("token_market_cap");
    reveal_strlit("token_price_usd");
    reveal_strlit("tx_hash");
    reveal_strlit("tx_type");
    reveal_strlit("type");
    reveal_strlit("wallet");
    reveal_strlit("wallet_label");
    assert("amount_usd"@.len() == 10);
    assert("block"@.len() == 5);
    assert("chain"@.len() == 5);
    assert("contract_address"@.len() == 16);
    assert("from"@.len() == 4);
    assert("from_label"@.len() == 10);
    assert("index"@.len() == 5);
    assert("name"@.len() == 4);
    assert("symbol"@.len() == 6);
    assert("timestamp"@.len() == 9);
    assert("to"@.len() == 2);
    assert("to_label"@.len() == 8);
    assert("token_icon_link"@.len() == 15);
    assert("token_market_cap"@.len() == 16);
    assert("token_price_usd"@.len() == 15);
    assert("tx_hash"@.len() == 7);
    assert("tx_type"@.len() == 7);
    assert("type"@.len() == 4);
    assert("wallet"@.len() == 6);
    assert("wallet_label"@.len() == 12);
    assert("amount_usd"@[0] == 'a');
    assert("block"@[0] == 'b');
    assert("chain"@[0] == 'c');
    assert("contract_address"@[0] == 'c');
    assert("from"@[0] == 'f');
    assert("from_label"@[0] == 'f');
    assert("index"@[0] == 'i');
    assert("name"@[0] == 'n');
    assert("symbol"@[0] == 's');
    assert("token_icon_link"@[6] == 'i');
    assert("token_market_cap"@[0] == 't');
    assert("token_price_usd"@[6] == 'p');
    assert("tx_hash"@[3] == 'h');
    assert("tx_type"@[3] == 't');
    assert("type"@[0] == 't');
    assert("wallet"@[0] == 'w');
    let ms = spec_encode_transfer(s);
    let mand: Seq<(Seq<char>, JsonVal)> = seq![
        ("wallet"@, JsonVal::Str(s.wallet)),
        ("wallet_label"@, JsonVal::Str(s.wallet_label)),
        ("tx_hash"@, JsonVal::Str(s.tx_hash)),
        ("tx_type"@, JsonVal::Str(s.tx_type)),
        ("chain"@, JsonVal::Str(s.chain)),
        ("index"@, JsonVal::Num(JsonNumber::PosInt(s.index as u64))),
        ("timestamp"@, JsonVal::Num(JsonNumber::PosInt(s.timestamp))),
        ("block"@, JsonVal::Num(JsonNumber::PosInt(s.block))),
        ("from"@, JsonVal::Str(s.from)),
        ("to"@, JsonVal::Str(s.to)),
        ("from_label"@, JsonVal::Str(s.from_label)),
        ("to_label"@, JsonVal::Str(s.to_label)),
        ("amount_usd"@, JsonVal::Num(s.amount_usd)),
        ("contract_address"@, JsonVal::Str(s.contract_address)),
        ("name"@, JsonVal::Str(s.name)),
        ("symbol"@, JsonVal::Str(s.symbol)),
        ("token_price_usd"@, JsonVal::Num(s.token_price_usd)),
        ("type"@, JsonVal::Str(s.type_field)),
        ("token_icon_link"@, JsonVal::Str(s.token_icon_link)),
    ];
    let ov_token_market_cap: Option<JsonVal> = match s.token_market_cap { Option::Some(x) => Option::Some(JsonVal::Obj(spec_encode_token_market_cap(x))), Option::None => Option::None };
    let seg_token_market_cap = opt_member("token_market_cap"@, ov_token_market_cap);
    let tail_1 = seg_token_market_cap;
    assert(mand.len() == 19);
    assert(mand[0].0 == "wallet"@);
    assert(mand[1].0 == "wallet_label"@);
    assert(mand[2].0 == "tx_hash"@);
    assert(mand[3].0 == "tx_type"@);
    assert(mand[4].0 == "chain"@);
    assert(mand[5].0 == "index"@);
    assert(mand[6].0 == "timestamp"@);
    assert(mand[7].0 == "block"@);
    assert(mand[8].0 == "from"@);
    assert(mand[9].0 == "to"@);
    assert(mand[10].0 == "from_label"@);
    assert(mand[11].0 == "to_label"@);
    assert(mand[12].0 == "amount_usd"@);
    assert(mand[13].0 == "contract_address"@);
    assert(mand[14].0 == "name"@);
    assert(mand[15].0 == "symbol"@);
    assert(mand[16].0 == "token_price_usd"@);
    assert(mand[17].0 == "type"@);
    assert(mand[18].0 == "token_icon_link"@);
    lemma_lookup_first(mand, 0);
    lemma_lookup_first(mand, 1);
    lemma_lookup_first(mand, 2);
    lemma_lookup_first(mand, 3);
    lemma_lookup_first(mand, 4);
    lemma_lookup_first(mand, 5);
    lemma_lookup_first(mand, 6);
    lemma_lookup_first(mand, 7);
    lemma_lookup_first(mand, 8);
    lemma_lookup_first(mand, 9);
    lemma_lookup_first(mand, 10);
    lemma_lookup_first(mand, 11);
    lemma_lookup_first(mand, 12);
    lemma_lookup_first(mand, 13);
    lemma_lookup_first(mand, 14);
    lemma_lookup_first(mand, 15);
    lemma_lookup_first(mand, 16);
    lemma_lookup_first(mand, 17);
    lemma_lookup_first(mand, 18);
    lemma_lookup_concat_left(mand, tail_1, "wallet"@);
    lemma_lookup_concat_left(mand, tail_1, "wallet_label"@);
    lemma_lookup_concat_left(mand, tail_1, "tx_hash"@);
    lemma_lookup_concat_left(mand, tail_1, "tx_type"@);
    lemma_lookup_concat_left(mand, tail_1, "chain"@);
    lemma_lookup_concat_left(mand, tail_1, "index"@);
    lemma_lookup_concat_left(mand, tail_1, "timestamp"@);
    lemma_lookup_concat_left(mand, tail_1, "block"@);
    lemma_lookup_concat_left(mand, tail_1, "from"@);
    lemma_lookup_concat_left(mand, tail_1, "to"@);
    lemma_lookup_concat_left(mand, tail_1, "from_label"@);
    lemma_lookup_concat_left(mand, tail_1, "to_label"@);
    lemma_lookup_concat_left(mand, tail_1, "amount_usd"@);
    lemma_lookup_concat_left(mand, tail_1, "contract_address"@);
    lemma_lookup_concat_left(mand, tail_1, "name"@);
    lemma_lookup_concat_left(mand, tail_1, "symbol"@);
    lemma_lookup_concat_left(mand, tail_1, "token_price_usd"@);
    lemma_lookup_concat_left(mand, tail_1, "type"@);
    lemma_lookup_concat_left(mand, tail_1, "token_icon_link"@);
    lemma_transfer_token_market_cap_member(s);
    lemma_transfer_not_swap(s);
    lemma_transfer_not_lp(s);
    assert(ms == mand + tail_1);
    assert(spec_decode_transfer(ms) == Some(TransferV {
        wallet: s.wallet,
        wallet_label: s.wallet_label,
        tx_hash: s.tx_hash,
        tx_type: s.tx_type,
        chain: s.chain,
        index: s.index,
        timestamp: s.timestamp,
        block: s.block,
        from: s.from,
        to: s.to,
        from_label: s.from_label,
        to_label: s.to_label,
        amount_usd: s.amount_usd,
        contract_address: s.contract_address,
        name: s.name,
        symbol: s.symbol,
        token_price_usd: s.token_price_usd,
        type_field: s.type_field,
        token_icon_link: s.token_icon_link,
        token_market_cap: s.token_market_cap,
    }));
}

/// An encoded `lending` record lacks `to`, which the `swap` shape needs.
#[verifier::spinoff_prover]
proof fn lemma_lending_not_swap(s: LendingV)
    ensures
        spec_decode_swap(spec_encode_lending(s)) is None,
{
    reveal_strlit("action");
    reveal_strlit("address");
    reveal_strlit("amount");
    reveal_strlit("amount_usd");
    reveal_strlit("block");
    reveal_strlit("chain");
    reveal_strlit("dex");
    reveal_strlit("from");
    reveal_strlit("from_label");
    reveal_strlit("health_factor");
    reveal_strlit("index");
    reveal_strlit("name");
    reveal_strlit("platform");
    reveal_strlit("price_usd");
    reveal_strlit("symbol");
    reveal_strlit("timestamp");
    reveal_strlit("to");
    reveal_strlit("token_icon_link");
    reveal_strlit("tx_hash");
    reveal_strlit("tx_type");
    reveal_strlit("wallet");
    reveal_strlit("wallet_label");
    assert("action"@.len() == 6);
    assert("address"@.len() == 7);
    assert("amount"@.len() == 6);
    assert("amount_usd"@.len() == 10);
    assert("block"@.len() == 5);
    assert("chain"@.len() == 5);
    assert("dex"@.len() == 3);
    assert("from"@.len() == 4);
    assert("from_label"@.len() == 10);
    assert("health_factor"@.len() == 13);
    assert("index"@.len() == 5);
    assert("name"@.len() == 4);
    assert("platform"@.len() == 8);
    assert("price_usd"@.len() == 9);
    assert("symbol"@.len() == 6);
    assert("timestamp"@.len() == 9);
    assert("to"@.len() == 2);
    assert("token_icon_link"@.len() == 15);
    assert("tx_hash"@.len() == 7);
    assert("tx_type"@.len() == 7);
    assert("wallet"@.len() == 6);
    assert("wallet_label"@.len() == 12);
    let ms = spec_encode_lending(s);
    let mand = ms;
    assert(mand.len() == 21);
    assert(mand[0].0 == "wallet"@);
    assert(mand[1].0 == "wallet_label"@);
    assert(mand[2].0 == "tx_hash"@);
    assert(mand[3].0 == "tx_type"@);
    assert(mand[4].0 == "chain"@);
    assert(mand[5].0 == "index"@);
    assert(mand[6].0 == "timestamp"@);
    assert(mand[7].0 == "block"@);
    assert(mand[8].0 == "from"@);
    assert(mand[9].0 == "from_label"@);
    assert(mand[10].0 == "action"@);
    assert(mand[11].0 == "address"@);
    assert(mand[12].0 == "amount"@);
    assert(mand[13].0 == "amount_usd"@);
    assert(mand[14].0 == "dex"@);
    assert(mand[15].0 == "health_factor"@);
    assert(mand[16].0 == "name"@);
    assert(mand[17].0 == "platform"@);
    assert(mand[18].0 == "price_usd"@);
    assert(mand[19].0 == "symbol"@);
    assert(mand[20].0 == "token_icon_link"@);
    assert forall|j: int| 0 <= j < mand.len() implies mand[j].0 != "to"@ by {
        if j == 0 {
        } else if j == 1 {
        } else if j == 2 {
        } else if j == 3 {
        } else if j == 4 {
        } else if j == 5 {
        } else if j == 6 {
        } else if j == 7 {
        } else if j == 8 {
        } else if j == 9 {
        } else if j == 10 {
        } else if j == 11 {
        } else if j == 12 {
        } else if j == 13 {
        } else if j == 14 {
        } else if j == 15 {
        } else if j == 16 {
        } else if j == 17 {
        } else if j == 18 {
        } else if j == 19 {
        } else if j == 20 {
        } else {
        }
    }
    lemma_lookup_absent(mand, "to"@);
    assert(spec_decode_swap(ms) is None);
}

/// An encoded `lending` record lacks `token0_address`, which the `lp` shape needs.
#[verifier::spinoff_prover]
proof fn lemma_lending_not_lp(s: LendingV)
    ensures
        spec_decode_lp(spec_encode_lending(s)) is None,
{
    reveal_strlit("action");
    reveal_strlit("address");
    reveal_strlit("amount");
    reveal_strlit("amount_usd");
    reveal_strlit("block");
    reveal_strlit("chain");
    reveal_strlit("dex");
    reveal_strlit("from");
    reveal_strlit("from_label");
    reveal_strlit("health_factor");
    reveal_strlit("index");
    reveal_strlit("name");
    reveal_strlit("platform");
    reveal_strlit("price_usd");
    reveal_strlit("symbol");
    reveal_strlit("timestamp");
    reveal_strlit("token0_address");
    reveal_strlit("token_icon_link");
    reveal_strlit("tx_hash");
    reveal_strlit("tx_type");
    reveal_strlit("wallet");
    reveal_strlit("wallet_label");
    assert("action"@.len() == 6);
    assert("address"@.len() == 7);
    assert("amount"@.len() == 6);
    assert("amount_usd"@.len() == 10);
    assert("block"@.len() == 5);
    assert("chain"@.len() == 5);
    assert("dex"@.len() == 3);
    assert("from"@.len() == 4);
    assert("from_label"@.len() == 10);
    assert("health_factor"@.len() == 13);
    assert("index"@.len() == 5);
    assert("name"@.len() == 4);
    assert("platform"@.len() == 8);
    assert("price_usd"@.len() == 9);
    assert("symbol"@.len() == 6);
    assert("timestamp"@.len() == 9);
    assert("token0_address"@.len() == 14);
    assert("token_icon_link"@.len() == 15);
    assert("tx_hash"@.len() == 7);
    assert("tx_type"@.len() == 7);
    assert("wallet"@.len() == 6);
    assert("wallet_label"@.len() == 12);
    let ms = spec_encode_lending(s);
    let mand = ms;
    assert(mand.len() == 21);
    assert(mand[0].0 == "wallet"@);
    assert(mand[1].0 == "wallet_label"@);
    assert(mand[2].0 == "tx_hash"@);
    assert(mand[3].0 == "tx_type"@);
    assert(mand[4].0 == "chain"@);
    assert(mand[5].0 == "index"@);
    assert(mand[6].0 == "timestamp"@);
    assert(mand[7].0 == "block"@);
    assert(mand[8].0 == "from"@);
    assert(mand[9].0 == "from_label"@);
    assert(mand[10].0 == "action"@);
    assert(mand[11].0 == "address"@);
    assert(mand[12].0 == "amount"@);
    assert(mand[13].0 == "amount_usd"@);
    assert(mand[14].0 == "dex"@);
    assert(mand[15].0 == "health_factor"@);
    assert(mand[16].0 == "name"@);
    assert(mand[17].0 == "platform"@);
    assert(mand[18].0 == "price_usd"@);
    assert(mand[19].0 == "symbol"@);
    assert(mand[20].0 == "token_icon_link"@);
    assert forall|j: int| 0 <= j < mand.len() implies mand[j].0 != "token0_address"@ by {
        if j == 0 {
        } else if j == 1 {
        } else if j == 2 {
        } else if j == 3 {
        } else if j == 4 {
        } else if j == 5 {
        } else if j == 6 {
        } else if j == 7 {
        } else if j == 8 {
        } else if j == 9 {
        } else if j == 10 {
        } else if j == 11 {
        } else if j == 12 {
        } else if j == 13 {
        } else if j == 14 {
        } else if j == 15 {
        } else if j == 16 {
        } else if j == 17 {
        } else if j == 18 {
        } else if j == 19 {
        } else if j == 20 {
        } else {
        }
    }
    lemma_lookup_absent(mand, "token0_address"@);
    assert(spec_decode_lp(ms) is None);
}

/// An encoded `lending` record lacks `to`, which the `transfer` shape needs.
#[verifier::spinoff_prover]
proof fn lemma_lending_not_transfer(s: LendingV)
    ensures
        spec_decode_transfer(spec_encode_lending(s)) is None,
{
    reveal_strlit("action");
    reveal_strlit("address");
    reveal_strlit("amount");
    reveal_strlit("amount_usd");
    reveal_strlit("block");
    reveal_strlit("chain");
    reveal_strlit("dex");
    reveal_strlit("from");
    reveal_strlit("from_label");
    reveal_strlit("health_factor");
    reveal_strlit("index");
    reveal_strlit("name");
    reveal_strlit("platform");
    reveal_strlit("price_usd");
    reveal_strlit("symbol");
    reveal_strlit("timestamp");
    reveal_strlit("to");
    reveal_strlit("token_icon_link");
    reveal_strlit("tx_hash");
    reveal_strlit("tx_type");
    reveal_strlit("wallet");
    reveal_strlit("wallet_label");
    assert("action"@.len() == 6);
    assert("address"@.len() == 7);
    assert("amount"@.len() == 6);
    assert("amount_usd"@.len() == 10);
    assert("block"@.len() == 5);
    assert("chain"@.len() == 5);
    assert("dex"@.len() == 3);
    assert("from"@.len() == 4);
    assert("from_label"@.len() == 10);
    assert("health_factor"@.len() == 13);
    assert("index"@.len() == 5);
    assert("name"@.len() == 4);
    assert("platform"@.len() == 8);
    assert("price_usd"@.len() == 9);
    assert("symbol"@.len() == 6);
    assert("timestamp"@.len() == 9);
    assert("to"@.len() == 2);
    assert("token_icon_link"@.len() == 15);
    assert("tx_hash"@.len() == 7);
    assert("tx_type"@.len() == 7);
    assert("wallet"@.len() == 6);
    assert("wallet_label"@.len() == 12);
    let ms = spec_encode_lending(s);
    let mand = ms;
    assert(mand.len() == 21);
    assert(mand[0].0 == "wallet"@);
    assert(mand[1].0 == "wallet_label"@);
    assert(mand[2].0 == "tx_hash"@);
    assert(mand[3].0 == "tx_type"@);
    assert(mand[4].0 == "chain"@);
    assert(mand[5].0 == "index"@);
    assert(mand[6].0 == "timestamp"@);
    assert(mand[7].0 == "block"@);
    assert(mand[8].0 == "from"@);
    assert(mand[9].0 == "from_label"@);
    assert(mand[10].0 == "action"@);
    assert(mand[11].0 == "address"@);
    assert(mand[12].0 == "amount"@);
    assert(mand[13].0 == "amount_usd"@);
    assert(mand[14].0 == "dex"@);
    assert(mand[15].0 == "health_factor"@);
    assert(mand[16].0 == "name"@);
    assert(mand[17].0 == "platform"@);
    assert(mand[18].0 == "price_usd"@);
    assert(mand[19].0 == "symbol"@);
    assert(mand[20].0 == "token_icon_link"@);
    assert forall|j: int| 0 <= j < mand.len() implies mand[j].0 != "to"@ by {
        if j == 0 {
        } else if j == 1 {
        } else if j == 2 {
        } else if j == 3 {
        } else if j == 4 {
        } else if j == 5 {
        } else if j == 6 {
        } else if j == 7 {
        } else if j == 8 {
        } else if j == 9 {
        } else if j == 10 {
        } else if j == 11 {
        } else if j == 12 {
        } else if j == 13 {
        } else if j == 14 {
        } else if j == 15 {
        } else if j == 16 {
        } else if j == 17 {
        } else if j == 18 {
        } else if j == 19 {
        } else if j == 20 {
        } else {
        }
    }
    lemma_lookup_absent(mand, "to"@);
    assert(spec_decode_transfer(ms) is None);
}

/// Decoding an encoded `lending` record yields it back.
#[verifier::rlimit(50)]
#[verifier::spinoff_prover]
pub proof fn lemma_lending_round_trip(s: LendingV)
    ensures
        spec_decode_item(spec_encode_item(ItemV::Lending(s))) == Some(ItemV::Lending(s)),
{
    reveal_strlit("action");
    reveal_strlit("address");
    reveal_strlit("amount");
    reveal_strlit("amount_usd");
    reveal_strlit("block");
    reveal_strlit("chain");
    reveal_strlit("dex");
    reveal_strlit("from");
    reveal_strlit("from_label");
    reveal_strlit("health_factor");
    reveal_strlit("index");
    reveal_strlit("name");
    reveal_strlit("platform");
    reveal_strlit("price_usd");
    reveal_strlit("symbol");
    reveal_strlit("timestamp");
    reveal_strlit("token_icon_link");
    reveal_strlit("tx_hash");
    reveal_strlit("tx_type");
    reveal_strlit("wallet");
    reveal_strlit("wallet_label");
    assert("action"@.len() == 6);
    assert("address"@.len() == 7);
    assert("amount"@.len() == 6);
    assert("amount_usd"@.len() == 10);
    assert("block"@.len() == 5);
    assert("chain"@.len() == 5);
    assert("dex"@.len() == 3);
    assert("from"@.len() == 4);
    assert("from_label"@.len() == 10);
    assert("health_factor"@.len() == 13);
    assert("index"@.len() == 5);
    assert("name"@.len() == 4);
    assert("platform"@.len() == 8);
    assert("price_usd"@.len() == 9);
    assert("symbol"@.len() == 6);
    assert("timestamp"@.len() == 9);
    assert("token_icon_link"@.len() == 15);
    assert("tx_hash"@.len() == 7);
    assert("tx_type"@.len() == 7);
    assert("wallet"@.len() == 6);
    assert("wallet_label"@.len() == 12);
    assert("action"@[0] == 'a');
    assert("action"@[1] == 'c');
    assert("address"@[0] == 'a');
    assert("amount"@[0] == 'a');
    assert("amount"@[1] == 'm');
    assert("amount_usd"@[0] == 'a');
    assert("block"@[0] == 'b');
    assert("chain"@[0] == 'c');
    assert("from"@[0] == 'f');
    assert("from_label"@[0] == 'f');
    assert("index"@[0] == 'i');
    assert("name"@[0] == 'n');
    assert("price_usd"@[0] == 'p');
    assert("symbol"@[0] == 's');
    assert("timestamp"@[0] == 't');
    assert("tx_hash"@[0] == 't');
    assert("tx_hash"@[3] == 'h');
    assert("tx_type"@[0] == 't');
    assert("tx_type"@[3] == 't');
    assert("wallet"@[0] == 'w');
    let ms = spec_encode_lending(s);
    let mand = ms;
    assert(mand.len() == 21);
    assert(mand[0].0 == "wallet"@);
    assert(mand[1].0 == "wallet_label"@);
    assert(mand[2].0 == "tx_hash"@);
    assert(mand[3].0 == "tx_type"@);
    assert(mand[4].0 == "chain"@);
    assert(mand[5].0 == "index"@);
    assert(mand[6].0 == "timestamp"@);
    assert(mand[7].0 == "block"@);
    assert(mand[8].0 == "from"@);
    assert(mand[9].0 == "from_label"@);
    assert(mand[10].0 == "action"@);
    assert(mand[11].0 == "address"@);
    assert(mand[12].0 == "amount"@);
    assert(mand[13].0 == "amount_usd"@);
    assert(mand[14].0 == "dex"@);
    assert(mand[15].0 == "health_factor"@);
    assert(mand[16].0 == "name"@);
    assert(mand[17].0 == "platform"@);
    assert(mand[18].0 == "price_usd"@);
    assert(mand[19].0 == "symbol"@);
    assert(mand[20].0 == "token_icon_link"@);
    lemma_lookup_first(mand, 0);
    lemma_lookup_first(mand, 1);
    lemma_lookup_first(mand, 2);
    lemma_lookup_first(mand, 3);
    lemma_lookup_first(mand, 4);
    lemma_lookup_first(mand, 5);
    lemma_lookup_first(mand, 6);
    lemma_lookup_first(mand, 7);
    lemma_lookup_first(mand, 8);
    lemma_lookup_first(mand, 9);
    lemma_lookup_first(mand, 10);
    lemma_lookup_first(mand, 11);
    lemma_lookup_first(mand, 12);
    lemma_lookup_first(mand, 13);
    lemma_lookup_first(mand, 14);
    lemma_lookup_first(mand, 15);
    lemma_lookup_first(mand, 16);
    lemma_lookup_first(mand, 17);
    lemma_lookup_first(mand, 18);
    lemma_lookup_first(mand, 19);
    lemma_lookup_first(mand, 20);
    lemma_lending_not_swap(s);
    lemma_lending_not_lp(s);
    lemma_lending_not_transfer(s);
    assert(spec_decode_lending(ms) == Some(LendingV {
        wallet: s.wallet,
        wallet_label: s.wallet_label,
        tx_hash: s.tx_hash,
        tx_type: s.tx_type,
        chain: s.chain,
        index: s.index,
        timestamp: s.timestamp,
        block: s.block,
        from: s.from,
        from_label: s.from_label,
        action: s.action,
        address: s.address,
        amount: s.amount,
        amount_usd: s.amount_usd,
        dex: s.dex,
        health_factor: s.health_factor,
        name: s.name,
        platform: s.platform,
        price_usd: s.price_usd,
        symbol: s.symbol,
        token_icon_link: s.token_icon_link,
    }));
}

/// An encoded `nft_mint` record lacks `token0_address`, which the `swap` shape needs.
#[verifier::spinoff_prover]
proof fn lemma_nft_mint_not_swap(s: NftMintV)
    ensures
        spec_decode_swap(spec_encode_nft_mint(s)) is None,
{
    reveal_strlit("amount");
    reveal_strlit("block");
    reveal_strlit("chain");
    reveal_strlit("contract_address");
    reveal_strlit("contract_type");
    reveal_strlit("currency_symbol");
    reveal_strlit("fee");
    reveal_strlit("from");
    reveal_strlit("from_label");
    reveal_strlit("image");
    reveal_strlit("index");
    reveal_strlit("nft_name");
    reveal_strlit("nft_symbol");
    reveal_strlit("nft_token_id");
    reveal_strlit("thumbnail");
    reveal_strlit("timestamp");
    reveal_strlit("to");
    reveal_strlit("to_label");
    reveal_strlit("token0_address");
    reveal_strlit("tx_hash");
    reveal_strlit("tx_type");
    reveal_strlit("type");
    reveal_strlit("value");
    reveal_strlit("value_usd");
    reveal_strlit("wallet");
    reveal_strlit("wallet_label");
    assert("amount"@.len() == 6);
    assert("block"@.len() == 5);
    assert("chain"@.len() == 5);
    assert("contract_address"@.len() == 16);
    assert("contract_type"@.len() == 13);
    assert("currency_symbol"@.len() == 15);
    assert("fee"@.len() == 3);
    assert("from"@.len() == 4);
    assert("from_label"@.len() == 10);
    assert("image"@.len() == 5);
    assert("index"@.len() == 5);
    assert("nft_name"@.len() == 8);
    assert("nft_symbol"@.len() == 10);
    assert("nft_token_id"@.len() == 12);
    assert("thumbnail"@.len() == 9);
    assert("timestamp"@.len() == 9);
    assert("to"@.len() == 2);
    assert("to_label"@.len() == 8);
    assert("token0_address"@.len() == 14);
    assert("tx_hash"@.len() == 7);
    assert("tx_type"@.len() == 7);
    assert("type"@.len() == 4);
    assert("value"@.len() == 5);
    assert("value_usd"@.len() == 9);
    assert("wallet"@.len() == 6);
    assert("wallet_label"@.len() == 12);
    let ms = spec_encode_nft_mint(s);
    let mand = ms;
    assert(mand.len() == 25);
    assert(mand[0].0 == "wallet"@);
    assert(mand[1].0 == "wallet_label"@);
    assert(mand[2].0 == "tx_hash"@);
    assert(mand[3].0 == "tx_type"@);
    assert(mand[4].0 == "chain"@);
    assert(mand[5].0 == "index"@);
    assert(mand[6].0 == "timestamp"@);
    assert(mand[7].0 == "block"@);
    assert(mand[8].0 == "from"@);
    assert(mand[9].0 == "to"@);
    assert(mand[10].0 == "from_label"@);
    assert(mand[11].0 == "to_label"@);
    assert(mand[12].0 == "thumbnail"@);
    assert(mand[13].0 == "image"@);
    assert(mand[14].0 == "amount"@);
    assert(mand[15].0 == "contract_address"@);
    assert(mand[16].0 == "contract_type"@);
    assert(mand[17].0 == "fee"@);
    assert(mand[18].0 == "nft_name"@);
    assert(mand[19].0 == "nft_symbol"@);
    assert(mand[20].0 == "nft_token_id"@);
    assert(mand[21].0 == "currency_symbol"@);
    assert(mand[22].0 == "type"@);
    assert(mand[23].0 == "value"@);
    assert(mand[24].0 == "value_usd"@);
    assert forall|j: int| 0 <= j < mand.len() implies mand[j].0 != "token0_address"@ by {
        if j == 0 {
        } else if j == 1 {
        } else if j == 2 {
        } else if j == 3 {
        } else if j == 4 {
        } else if j == 5 {
        } else if j == 6 {
        } else if j == 7 {
        } else if j == 8 {
        } else if j == 9 {
        } else if j == 10 {
        } else if j == 11 {
        } else if j == 12 {
        } else if j == 13 {
        } else if j == 14 {
        } else if j == 15 {
        } else if j == 16 {
        } else if j == 17 {
        } else if j == 18 {
        } else if j == 19 {
        } else if j == 20 {
        } else if j == 21 {
        } else if j == 22 {
        } else if j == 23 {
        } else if j == 24 {
        } else {
        }
    }
    lemma_lookup_absent(mand, "token0_address"@);
    assert(spec_decode_swap(ms) is None);
}

/// An encoded `nft_mint` record lacks `token0_address`, which the `lp` shape needs.
#[verifier::spinoff_prover]
proof fn lemma_nft_mint_not_lp(s: NftMintV)
    ensures
        spec_decode_lp(spec_encode_nft_mint(s)) is None,
{
    reveal_strlit("amount");
    reveal_strlit("block");
    reveal_strlit("chain");
    reveal_strlit("contract_address");
    reveal_strlit("contract_type");
    reveal_strlit("currency_symbol");
    reveal_strlit("fee");
    reveal_strlit("from");
    reveal_strlit("from_label");
    reveal_strlit("image");
    reveal_strlit("index");
    reveal_strlit("nft_name");
    reveal_strlit("nft_symbol");
    reveal_strlit("nft_token_id");
    reveal_strlit("thumbnail");
    reveal_strlit("timestamp");
    reveal_strlit("to");
    reveal_strlit("to_label");
    reveal_strlit("token0_address");
    reveal_strlit("tx_hash");
    reveal_strlit("tx_type");
    reveal_strlit("type");
    reveal_strlit("value");
    reveal_strlit("value_usd");
    reveal_strlit("wallet");
    reveal_strlit("wallet_label");
    assert("amount"@.len() == 6);
    assert("block"@.len() == 5);
    assert("chain"@.len() == 5);
    assert("contract_address"@.len() == 16);
    assert("contract_type"@.len() == 13);
    assert("currency_symbol"@.len() == 15);
    assert("fee"@.len() == 3);
    assert("from"@.len() == 4);
    assert("from_label"@.len() == 10);
    assert("image"@.len() == 5);
    assert("index"@.len() == 5);
    assert("nft_name"@.len() == 8);
    assert("nft_symbol"@.len() == 10);
    assert("nft_token_id"@.len() == 12);
    assert("thumbnail"@.len() == 9);
    assert("timestamp"@.len() == 9);
    assert("to"@.len() == 2);
    assert("to_label"@.len() == 8);
    assert("token0_address"@.len() == 14);
    assert("tx_hash"@.len() == 7);
    assert("tx_type"@.len() == 7);
    assert("type"@.len() == 4);
    assert("value"@.len() == 5);
    assert("value_usd"@.len() == 9);
    assert("wallet"@.len() == 6);
    assert("wallet_label"@.len() == 12);
    let ms = spec_encode_nft_mint(s);
    let mand = ms;
    assert(mand.len() == 25);
    assert(mand[0].0 == "wallet"@);
    assert(mand[1].0 == "wallet_label"@);
    assert(mand[2].0 == "tx_hash"@);
    assert(mand[3].0 == "tx_type"@);
    assert(mand[4].0 == "chain"@);
    assert(mand[5].0 == "index"@);
    assert(mand[6].0 == "timestamp"@);
    assert(mand[7].0 == "block"@);
    assert(mand[8].0 == "from"@);
    assert(mand[9].0 == "to"@);
    assert(mand[10].0 == "from_label"@);
    assert(mand[11].0 == "to_label"@);
    assert(mand[12].0 == "thumbnail"@);
    assert(mand[13].0 == "image"@);
    assert(mand[14].0 == "amount"@);
    assert(mand[15].0 == "contract_address"@);
    assert(mand[16].0 == "contract_type"@);
    assert(mand[17].0 == "fee"@);
    assert(mand[18].0 == "nft_name"@);
    assert(mand[19].0 == "nft_symbol"@);
    assert(mand[20].0 == "nft_token_id"@);
    assert(mand[21].0 == "currency_symbol"@);
    assert(mand[22].0 == "type"@);
    assert(mand[23].0 == "value"@);
    assert(mand[24].0 == "value_usd"@);
    assert forall|j: int| 0 <= j < mand.len() implies mand[j].0 != "token0_address"@ by {
        if j == 0 {
        } else if j == 1 {
        } else if j == 2 {
        } else if j == 3 {
        } else if j == 4 {
        } else if j == 5 {
        } else if j == 6 {
        } else if j == 7 {
        } else if j == 8 {
        } else if j == 9 {
        } else if j == 10 {
        } else if j == 11 {
        } else if j == 12 {
        } else if j == 13 {
        } else if j == 14 {
        } else if j == 15 {
        } else if j == 16 {
        } else if j == 17 {
        } else if j == 18 {
        } else if j == 19 {
        } else if j == 20 {
        } else if j == 21 {
        } else if j == 22 {
        } else if j == 23 {
        } else if j == 24 {
        } else {
        }
    }
    lemma_lookup_absent(mand, "token0_address"@);
    assert(spec_decode_lp(ms) is None);
}

/// An encoded `nft_mint` record lacks `amount_usd`, which the `transfer` shape needs.
#[verifier::spinoff_prover]
proof fn lemma_nft_mint_not_transfer(s: NftMintV)
    ensures
        spec_decode_transfer(spec_encode_nft_mint(s)) is None,
{
    reveal_strlit("amount");
    reveal_strlit("amount_usd");
    reveal_strlit("block");
    reveal_strlit("chain");
    reveal_strlit("contract_address");
    reveal_strlit("contract_type");
    reveal_strlit("currency_symbol");
    reveal_strlit("fee");
    reveal_strlit("from");
    reveal_strlit("from_label");
    reveal_strlit("image");
    reveal_strlit("index");
    reveal_strlit("nft_name");
    reveal_strlit("nft_symbol");
    reveal_strlit("nft_token_id");
    reveal_strlit("thumbnail");
    reveal_strlit("timestamp");
    reveal_strlit("to");
    reveal_strlit("to_label");
    reveal_strlit("tx_hash");
    reveal_strlit("tx_type");
    reveal_strlit("type");
    reveal_strlit("value");
    reveal_strlit("value_usd");
    reveal_strlit("wallet");
    reveal_strlit("wallet_label");
    assert("amount"@.len() == 6);
    assert("amount_usd"@.len() == 10);
    assert("block"@.len() == 5);
    assert("chain"@.len() == 5);
    assert("contract_address"@.len() == 16);
    assert("contract_type"@.len() == 13);
    assert("currency_symbol"@.len() == 15);
    assert("fee"@.len() == 3);
    assert("from"@.len() == 4);
    assert("from_label"@.len() == 10);
    assert("image"@.len() == 5);
    assert("index"@.len() == 5);
    assert("nft_name"@.len() == 8);
    assert("nft_symbol"@.len() == 10);
    assert("nft_token_id"@.len() == 12);
    assert("thumbnail"@.len() == 9);
    assert("timestamp"@.len() == 9);
    assert("to"@.len() == 2);
    assert("to_label"@.len() == 8);
    assert("tx_hash"@.len() == 7);
    assert("tx_type"@.len() == 7);
    assert("type"@.len() == 4);
    assert("value"@.len() == 5);
    assert("value_usd"@.len() == 9);
    assert("wallet"@.len() == 6);
    assert("wallet_label"@.len() == 12);
    assert("amount_usd"@[0] == 'a');
    assert("from_label"@[0] == 'f');
    assert("nft_symbol"@[0] == 'n');
    let ms = spec_encode_nft_mint(s);
    let mand = ms;
    assert(mand.len() == 25);
    assert(mand[0].0 == "wallet"@);
    assert(mand[1].0 == "wallet_label"@);
    assert(mand[2].0 == "tx_hash"@);
    assert(mand[3].0 == "tx_type"@);
    assert(mand[4].0 == "chain"@);
    assert(mand[5].0 == "index"@);
    assert(mand[6].0 == "timestamp"@);
    assert(mand[7].0 == "block"@);
    assert(mand[8].0 == "from"@);
    assert(mand[9].0 == "to"@);
    assert(mand[10].0 == "from_label"@);
    assert(mand[11].0 == "to_label"@);
    assert(mand[12].0 == "thumbnail"@);
    assert(mand[13].0 == "image"@);
    assert(mand[14].0 == "amount"@);
    assert(mand[15].0 == "contract_address"@);
    assert(mand[16].0 == "contract_type"@);
    assert(mand[17].0 == "fee"@);
    assert(mand[18].0 == "nft_name"@);
    assert(mand[19].0 == "nft_symbol"@);
    assert(mand[20].0 == "nft_token_id"@);
    assert(mand[21].0 == "currency_symbol"@);
    assert(mand[22].0 == "type"@);
    assert(mand[23].0 == "value"@);
    assert(mand[24].0 == "value_usd"@);
    assert forall|j: int| 0 <= j < mand.len() implies mand[j].0 != "amount_usd"@ by {
        if j == 0 {
        } else if j == 1 {
        } else if j == 2 {
        } else if j == 3 {
        } else if j == 4 {
        } else if j == 5 {
        } else if j == 6 {
        } else if j == 7 {
        } else if j == 8 {
        } else if j == 9 {
        } else if j == 10 {
        } else if j == 11 {
        } else if j == 12 {
        } else if j == 13 {
        } else if j == 14 {
        } else if j == 15 {
        } else if j == 16 {
        } else if j == 17 {
        } else if j == 18 {
        } else if j == 19 {
        } else if j == 20 {
        } else if j == 21 {
        } else if j == 22 {
        } else if j == 23 {
        } else if j == 24 {
        } else {
        }
    }
    lemma_lookup_absent(mand, "amount_usd"@);
    assert(spec_decode_transfer(ms) is None);
}

/// An encoded `nft_mint` record lacks `action`, which the `lending` shape needs.
#[verifier::spinoff_prover]
proof fn lemma_nft_mint_not_lending(s: NftMintV)
    ensures
        spec_decode_lending(spec_encode_nft_mint(s)) is None,
{
    reveal_strlit("action");
    reveal_strlit("amount");
    reveal_strlit("block");
    reveal_strlit("chain");
    reveal_strlit("contract_address");
    reveal_strlit("contract_type");
    reveal_strlit("currency_symbol");
    reveal_strlit("fee");
    reveal_strlit("from");
    reveal_strlit("from_label");
    reveal_strlit("image");
    reveal_strlit("index");
    reveal_strlit("nft_name");
    reveal_strlit("nft_symbol");
    reveal_strlit("nft_token_id");
    reveal_strlit("thumbnail");
    reveal_strlit("timestamp");
    reveal_strlit("to");
    reveal_strlit("to_label");
    reveal_strlit("tx_hash");
    reveal_strlit("tx_type");
    reveal_strlit("type");
    reveal_strlit("value");
    reveal_strlit("value_usd");
    reveal_strlit("wallet");
    reveal_strlit("wallet_label");
    assert("action"@.len() == 6);
    assert("amount"@.len() == 6);
    assert("block"@.len() == 5);
    assert("chain"@.len() == 5);
    assert("contract_address"@.len() == 16);
    assert("contract_type"@.len() == 13);
    assert("currency_symbol"@.len() == 15);
    assert("fee"@.len() == 3);
    assert("from"@.len() == 4);
    assert("from_label"@.len() == 10);
    assert("image"@.len() == 5);
    assert("index"@.len() == 5);
    assert("nft_name"@.len() == 8);
    assert("nft_symbol"@.len() == 10);
    assert("nft_token_id"@.len() == 12);
    assert("thumbnail"@.len() == 9);
    assert("timestamp"@.len() == 9);
    assert("to"@.len() == 2);
    assert("to_label"@.len() == 8);
    assert("tx_hash"@.len() == 7);
    assert("tx_type"@.len() == 7);
    assert("type"@.len() == 4);
    assert("value"@.len() == 5);
    assert("value_usd"@.len() == 9);
    assert("wallet"@.len() == 6);
    assert("wallet_label"@.len() == 12);
    assert("action"@[0] == 'a');
    assert("action"@[1] == 'c');
    assert("amount"@[1] == 'm');
    assert("wallet"@[0] == 'w');
    let ms = spec_encode_nft_mint(s);
    let mand = ms;
    assert(mand.len() == 25);
    assert(mand[0].0 == "wallet"@);
    assert(mand[1].0 == "wallet_label"@);
    assert(mand[2].0 == "tx_hash"@);
    assert(mand[3].0 == "tx_type"@);
    assert(mand[4].0 == "chain"@);
    assert(mand[5].0 == "index"@);
    assert(mand[6].0 == "timestamp"@);
    assert(mand[7].0 == "block"@);
    assert(mand[8].0 == "from"@);
    assert(mand[9].0 == "to"@);
    assert(mand[10].0 == "from_label"@);
    assert(mand[11].0 == "to_label"@);
    assert(mand[12].0 == "thumbnail"@);
    assert(mand[13].0 == "image"@);
    assert(mand[14].0 == "amount"@);
    assert(mand[15].0 == "contract_address"@);
    assert(mand[16].0 == "contract_type"@);
    assert(mand[17].0 == "fee"@);
    assert(mand[18].0 == "nft_name"@);
    assert(mand[19].0 == "nft_symbol"@);
    assert(mand[20].0 == "nft_token_id"@);
    assert(mand[21].0 == "currency_symbol"@);
    assert(mand[22].0 == "type"@);
    assert(mand[23].0 == "value"@);
    assert(mand[24].0 == "value_usd"@);
    assert forall|j: int| 0 <= j < mand.len() implies mand[j].0 != "action"@ by {
        if j == 0 {
        } else if j == 1 {
        } else if j == 2 {
        } else if j == 3 {
        } else if j == 4 {
        } else if j == 5 {
        } else if j == 6 {
        } else if j == 7 {
        } else if j == 8 {
        } else if j == 9 {
        } else if j == 10 {
        } else if j == 11 {
        } else if j == 12 {
        } else if j == 13 {
        } else if j == 14 {
        } else if j == 15 {
        } else if j == 16 {
        } else if j == 17 {
        } else if j == 18 {
        } else if j == 19 {
        } else if j == 20 {
        } else if j == 21 {
        } else if j == 22 {
        } else if j == 23 {
        } else if j == 24 {
        } else {
        }
    }
    lemma_lookup_absent(mand, "action"@);
    assert(spec_decode_lending(ms) is None);
}

/// Decoding an encoded `nft_mint` record yields it back.
#[verifier::rlimit(50)]
#[verifier::spinoff_prover]
pub proof fn lemma_nft_mint_round_trip(s: NftMintV)
    ensures
        spec_decode_item(spec_encode_item(ItemV::NftMint(s))) == Some(ItemV::NftMint(s)),
{
    reveal_strlit("amount");
    reveal_strlit("block");
    reveal_strlit("chain");
    reveal_strlit("contract_address");
    reveal_strlit("contract_type");
    reveal_strlit("currency_symbol");
    reveal_strlit("fee");
    reveal_strlit("from");
    reveal_strlit("from_label");
    reveal_strlit("image");
    reveal_strlit("index");
    reveal_strlit("nft_name");
    reveal_strlit("nft_symbol");
    reveal_strlit("nft_token_id");
    reveal_strlit("thumbnail");
    reveal_strlit("timestamp");
    reveal_strlit("to");
    reveal_strlit("to_label");
    reveal_strlit("tx_hash");
    reveal_strlit("tx_type");
    reveal_strlit("type");
    reveal_strlit("value");
    reveal_strlit("value_usd");
    reveal_strlit("wallet");
    reveal_strlit("wallet_label");
    assert("amount"@.len() == 6);
    assert("block"@.len() == 5);
    assert("chain"@.len() == 5);
    assert("contract_address"@.len() == 16);
    assert("contract_type"@.len() == 13);
    assert("currency_symbol"@.len() == 15);
    assert("fee"@.len() == 3);
    assert("from"@.len() == 4);
    assert("from_label"@.len() == 10);
    assert("image"@.len() == 5);
    assert("index"@.len() == 5);
    assert("nft_name"@.len() == 8);
    assert("nft_symbol"@.len() == 10);
    assert("nft_token_id"@.len() == 12);
    assert("thumbnail"@.len() == 9);
    assert("timestamp"@.len() == 9);
    assert("to"@.len() == 2);
    assert("to_label"@.len() == 8);
    assert("tx_hash"@.len() == 7);
    assert("tx_type"@.len() == 7);
    assert("type"@.len() == 4);
    assert("value"@.len() == 5);
    assert("value_usd"@.len() == 9);
    assert("wallet"@.len() == 6);
    assert("wallet_label"@.len() == 12);
    assert("amount"@[0] == 'a');
    assert("block"@[0] == 'b');
    assert("chain"@[0] == 'c');
    assert("from"@[0] == 'f');
    assert("from_label"@[0] == 'f');
    assert("image"@[0] == 'i');
    assert("image"@[1] == 'm');
    assert("index"@[0] == 'i');
    assert("index"@[1] == 'n');
    assert("nft_name"@[0] == 'n');
    assert("nft_symbol"@[0] == 'n');
    assert("nft_token_id"@[0] == 'n');
    assert("thumbnail"@[0] == 't');
    assert("thumbnail"@[1] == 'h');
    assert("timestamp"@[0] == 't');
    assert("timestamp"@[1] == 'i');
    assert("to_label"@[0] == 't');
    assert("tx_hash"@[3] == 'h');
    assert("tx_type"@[3] == 't');
    assert("type"@[0] == 't');
    assert("value"@[0] == 'v');
    assert("value_usd"@[0] == 'v');
    assert("wallet"@[0] == 'w');
    assert("wallet_label"@[0] == 'w');
    let ms = spec_encode_nft_mint(s);
    let mand = ms;
    assert(mand.len() == 25);
    assert(mand[0].0 == "wallet"@);
    assert(mand[1].0 == "wallet_label"@);
    assert(mand[2].0 == "tx_hash"@);
    assert(mand[3].0 == "tx_type"@);
    assert(mand[4].0 == "chain"@);
    assert(mand[5].0 == "index"@);
    assert(mand[6].0 == "timestamp"@);
    assert(mand[7].0 == "block"@);
    assert(mand[8].0 == "from"@);
    assert(mand[9].0 == "to"@);
    assert(mand[10].0 == "from_label"@);
    assert(mand[11].0 == "to_label"@);
    assert(mand[12].0 == "thumbnail"@);
    assert(mand[13].0 == "image"@);
    assert(mand[14].0 == "amount"@);
    assert(mand[15].0 == "contract_address"@);
    assert(mand[16].0 == "contract_type"@);
    assert(mand[17].0 == "fee"@);
    assert(mand[18].0 == "nft_name"@);
    assert(mand[19].0 == "nft_symbol"@);
    assert(mand[20].0 == "nft_token_id"@);
    assert(mand[21].0 == "currency_symbol"@);
    assert(mand[22].0 == "type"@);
    assert(mand[23].0 == "value"@);
    assert(mand[24].0 == "value_usd"@);
    lemma_lookup_first(mand, 0);
    lemma_lookup_first(mand, 1);
    lemma_lookup_first(mand, 2);
    lemma_lookup_first(mand, 3);
    lemma_lookup_first(mand, 4);
    lemma_lookup_first(mand, 5);
    lemma_lookup_first(mand, 6);
    lemma_lookup_first(mand, 7);
    lemma_lookup_first(mand, 8);
    lemma_lookup_first(mand, 9);
    lemma_lookup_first(mand, 10);
    lemma_lookup_first(mand, 11);
    lemma_lookup_first(mand, 12);
    lemma_lookup_first(mand, 13);
    lemma_lookup_first(mand, 14);
    lemma_lookup_first(mand, 15);
    lemma_lookup_first(mand, 16);
    lemma_lookup_first(mand, 17);
    lemma_lookup_first(mand, 18);
    lemma_lookup_first(mand, 19);
    lemma_lookup_first(mand, 20);
    lemma_lookup_first(mand, 21);
    lemma_lookup_first(mand, 22);
    lemma_lookup_first(mand, 23);
    lemma_lookup_first(mand, 24);
    lemma_nft_mint_not_swap(s);
    lemma_nft_mint_not_lp(s);
    lemma_nft_mint_not_transfer(s);
    lemma_nft_mint_not_lending(s);
    assert(spec_decode_nft_mint(ms) == Some(NftMintV {
        wallet: s.wallet,
        wallet_label: s.wallet_label,
        tx_hash: s.tx_hash,
        tx_type: s.tx_type,
        chain: s.chain,
        index: s.index,
        timestamp: s.timestamp,
        block: s.block,
        from: s.from,
        to: s.to,
        from_label: s.from_label,
        to_label: s.to_label,
        thumbnail: s.thumbnail,
        image: s.image,
        amount: s.amount,
        contract_address: s.contract_address,
        contract_type: s.contract_type,
        fee: s.fee,
        nft_name: s.nft_name,
        nft_symbol: s.nft_symbol,
        nft_token_id: s.nft_token_id,
        currency_symbol: s.currency_symbol,
        type_field: s.type_field,
        value: s.value,
        value_usd: s.value_usd,
    }));
}

/// An encoded `nft_trade` record lacks `dex`, which the `swap` shape needs.
#[verifier::spinoff_prover]
proof fn lemma_nft_trade_not_swap(s: NftTradeV)
    ensures
        spec_decode_swap(spec_encode_nft_trade(s)) is None,
{
    reveal_strlit("action");
    reveal_strlit("bid_accepted");
    reveal_strlit("block");
    reveal_strlit("buyer");
    reveal_strlit("chain");
    reveal_strlit("contract");
    reveal_strlit("currency_symbol");
    reveal_strlit("dex");
    reveal_strlit("first_interaction");
    reveal_strlit("from");
    reveal_strlit("image");
    reveal_strlit("index");
    reveal_strlit("marketplace");
    reveal_strlit("nft_address");
    reveal_strlit("nft_name");
    reveal_strlit("nft_symbol");
    reveal_strlit("nft_token_id");
    reveal_strlit("price");
    reveal_strlit("price_usd");
    reveal_strlit("profit");
    reveal_strlit("seller");
    reveal_strlit("thumbnail");
    reveal_strlit("timestamp");
    reveal_strlit("to");
    reveal_strlit("token");
    reveal_strlit("tx_hash");
    reveal_strlit("tx_type");
    reveal_strlit("wallet");
    reveal_strlit("wallet_label");
    assert("action"@.len() == 6);
    assert("bid_accepted"@.len() == 12);
    assert("block"@.len() == 5);
    assert("buyer"@.len() == 5);
    assert("chain"@.len() == 5);
    assert("contract"@.len() == 8);
    assert("currency_symbol"@.len() == 15);
    assert("dex"@.len() == 3);
    assert("first_interaction"@.len() == 17);
    assert("from"@.len() == 4);
    assert("image"@.len() == 5);
    assert("index"@.len() == 5);
    assert("marketplace"@.len() == 11);
    assert("nft_address"@.len() == 11);
    assert("nft_name"@.len() == 8);
    assert("nft_symbol"@.len() == 10);
    assert("nft_token_id"@.len() == 12);
    assert("price"@.len() == 5);
    assert("price_usd"@.len() == 9);
    assert("profit"@.len() == 6);
    assert("seller"@.len() == 6);
    assert("thumbnail"@.len() == 9);
    assert("timestamp"@.len() == 9);
    assert("to"@.len() == 2);
    assert("token"@.len() == 5);
    assert("tx_hash"@.len() == 7);
    assert("tx_type"@.len() == 7);
    assert("wallet"@.len() == 6);
    assert("wallet_label"@.len() == 12);
    let ms = spec_encode_nft_trade(s);
    let mand = ms;
    assert(mand.len() == 28);
    assert(mand[0].0 == "wallet"@);
    assert(mand[1].0 == "wallet_label"@);
    assert(mand[2].0 == "tx_hash"@);
    assert(mand[3].0 == "tx_type"@);
    assert(mand[4].0 == "chain"@);
    assert(mand[5].0 == "index"@);
    assert(mand[6].0 == "timestamp"@);
    assert(mand[7].0 == "block"@);
    assert(mand[8].0 == "from"@);
    assert(mand[9].0 == "to"@);
    assert(mand[10].0 == "thumbnail"@);
    assert(mand[11].0 == "image"@);
    assert(mand[12].0 == "action"@);
    assert(mand[13].0 == "contract"@);
    assert(mand[14].0 == "marketplace"@);
    assert(mand[15].0 == "nft_address"@);
    assert(mand[16].0 == "nft_name"@);
    assert(mand[17].0 == "nft_symbol"@);
    assert(mand[18].0 == "nft_token_id"@);
    assert(mand[19].0 == "price"@);
    assert(mand[20].0 == "price_usd"@);
    assert(mand[21].0 == "profit"@);
    assert(mand[22].0 == "currency_symbol"@);
    assert(mand[23].0 == "buyer"@);
    assert(mand[24].0 == "seller"@);
    assert(mand[25].0 == "token"@);
    assert(mand[26].0 == "first_interaction"@);
    assert(mand[27].0 == "bid_accepted"@);
    assert forall|j: int| 0 <= j < mand.len() implies mand[j].0 != "dex"@ by {
        if j == 0 {
        } else if j == 1 {
        } else if j == 2 {
        } else if j == 3 {
        } else if j == 4 {
        } else if j == 5 {
        } else if j == 6 {
        } else if j == 7 {
        } else if j == 8 {
        } else if j == 9 {
        } else if j == 10 {
        } else if j == 11 {
        } else if j == 12 {
        } else if j == 13 {
        } else if j == 14 {
        } else if j == 15 {
        } else if j == 16 {
        } else if j == 17 {
        } else if j == 18 {
        } else if j == 19 {
        } else if j == 20 {
        } else if j == 21 {
        } else if j == 22 {
        } else if j == 23 {
        } else if j == 24 {
        } else if j == 25 {
        } else if j == 26 {
        } else if j == 27 {
        } else {
        }
    }
    lemma_lookup_absent(mand, "dex"@);
    assert(spec_decode_swap(ms) is None);
}

/// An encoded `nft_trade` record lacks `dex`, which the `lp` shape needs.
#[verifier::spinoff_prover]
proof fn lemma_nft_trade_not_lp(s: NftTradeV)
    ensures
        spec_decode_lp(spec_encode_nft_trade(s)) is None,
{
    reveal_strlit("action");
    reveal_strlit("bid_accepted");
    reveal_strlit("block");
    reveal_strlit("buyer");
    reveal_strlit("chain");
    reveal_strlit("contract");
    reveal_strlit("currency_symbol");
    reveal_strlit("dex");
    reveal_strlit("first_interaction");
    reveal_strlit("from");
    reveal_strlit("image");
    reveal_strlit("index");
    reveal_strlit("marketplace");
    reveal_strlit("nft_address");
    reveal_strlit("nft_name");
    reveal_strlit("nft_symbol");
    reveal_strlit("nft_token_id");
    reveal_strlit("price");
    reveal_strlit("price_usd");
    reveal_strlit("profit");
    reveal_strlit("seller");
    reveal_strlit("thumbnail");
    reveal_strlit("timestamp");
    reveal_strlit("to");
    reveal_strlit("token");
    reveal_strlit("tx_hash");
    reveal_strlit("tx_type");
    reveal_strlit("wallet");
    reveal_strlit("wallet_label");
    assert("action"@.len() == 6);
    assert("bid_accepted"@.len() == 12);
    assert("block"@.len() == 5);
    assert("buyer"@.len() == 5);
    assert("chain"@.len() == 5);
    assert("contract"@.len() == 8);
    assert("currency_symbol"@.len() == 15);
    assert("dex"@.len() == 3);
    assert("first_interaction"@.len() == 17);
    assert("from"@.len() == 4);
    assert("image"@.len() == 5);
    assert("index"@.len() == 5);
    assert("marketplace"@.len() == 11);
    assert("nft_address"@.len() == 11);
    assert("nft_name"@.len() == 8);
    assert("nft_symbol"@.len() == 10);
    assert("nft_token_id"@.len() == 12);
    assert("price"@.len() == 5);
    assert("price_usd"@.len() == 9);
    assert("profit"@.len() == 6);
    assert("seller"@.len() == 6);
    assert("thumbnail"@.len() == 9);
    assert("timestamp"@.len() == 9);
    assert("to"@.len() == 2);
    assert("token"@.len() == 5);
    assert("tx_hash"@.len() == 7);
    assert("tx_type"@.len() == 7);
    assert("wallet"@.len() == 6);
    assert("wallet_label"@.len() == 12);
    let ms = spec_encode_nft_trade(s);
    let mand = ms;
    assert(mand.len() == 28);
    assert(mand[0].0 == "wallet"@);
    assert(mand[1].0 == "wallet_label"@);
    assert(mand[2].0 == "tx_hash"@);
    assert(mand[3].0 == "tx_type"@);
    assert(mand[4].0 == "chain"@);
    assert(mand[5].0 == "index"@);
    assert(mand[6].0 == "timestamp"@);
    assert(mand[7].0 == "block"@);
    assert(mand[8].0 == "from"@);
    assert(mand[9].0 == "to"@);
    assert(mand[10].0 == "thumbnail"@);
    assert(mand[11].0 == "image"@);
    assert(mand[12].0 == "action"@);
    assert(mand[13].0 == "contract"@);
    assert(mand[14].0 == "marketplace"@);
    assert(mand[15].0 == "nft_address"@);
    assert(mand[16].0 == "nft_name"@);
    assert(mand[17].0 == "nft_symbol"@);
    assert(mand[18].0 == "nft_token_id"@);
    assert(mand[19].0 == "price"@);
    assert(mand[20].0 == "price_usd"@);
    assert(mand[21].0 == "profit"@);
    assert(mand[22].0 == "currency_symbol"@);
    assert(mand[23].0 == "buyer"@);
    assert(mand[24].0 == "seller"@);
    assert(mand[25].0 == "token"@);
    assert(mand[26].0 == "first_interaction"@);
    assert(mand[27].0 == "bid_accepted"@);
    assert forall|j: int| 0 <= j < mand.len() implies mand[j].0 != "dex"@ by {
        if j == 0 {
        } else if j == 1 {
        } else if j == 2 {
        } else if j == 3 {
        } else if j == 4 {
        } else if j == 5 {
        } else if j == 6 {
        } else if j == 7 {
        } else if j == 8 {
        } else if j == 9 {
        } else if j == 10 {
        } else if j == 11 {
        } else if j == 12 {
        } else if j == 13 {
        } else if j == 14 {
        } else if j == 15 {
        } else if j == 16 {
        } else if j == 17 {
        } else if j == 18 {
        } else if j == 19 {
        } else if j == 20 {
        } else if j == 21 {
        } else if j == 22 {
        } else if j == 23 {
        } else if j == 24 {
        } else if j == 25 {
        } else if j == 26 {
        } else if j == 27 {
        } else {
        }
    }
    lemma_lookup_absent(mand, "dex"@);
    assert(spec_decode_lp(ms) is None);
}

/// An encoded `nft_trade` record lacks `contract_address`, which the `transfer` shape needs.
#[verifier::spinoff_prover]
proof fn lemma_nft_trade_not_transfer(s: NftTradeV)
    ensures
        spec_decode_transfer(spec_encode_nft_trade(s)) is None,
{
    reveal_strlit("action");
    reveal_strlit("bid_accepted");
    reveal_strlit("block");
    reveal_strlit("buyer");
    reveal_strlit("chain");
    reveal_strlit("contract");
    reveal_strlit("contract_address");
    reveal_strlit("currency_symbol");
    reveal_strlit("first_interaction");
    reveal_strlit("from");
    reveal_strlit("image");
    reveal_strlit("index");
    reveal_strlit("marketplace");
    reveal_strlit("nft_address");
    reveal_strlit("nft_name");
    reveal_strlit("nft_symbol");
    reveal_strlit("nft_token_id");
    reveal_strlit("price");
    reveal_strlit("price_usd");
    reveal_strlit("profit");
    reveal_strlit("seller");
    reveal_strlit("thumbnail");
    reveal_strlit("timestamp");
    reveal_strlit("to");
    reveal_strlit("token");
    reveal_strlit("tx_hash");
    reveal_strlit("tx_type");
    reveal_strlit("wallet");
    reveal_strlit("wallet_label");
    assert("action"@.len() == 6);
    assert("bid_accepted"@.len() == 12);
    assert("block"@.len() == 5);
    assert("buyer"@.len() == 5);
    assert("chain"@.len() == 5);
    assert("contract"@.len() == 8);
    assert("contract_address"@.len() == 16);
    assert("currency_symbol"@.len() == 15);
    assert("first_interaction"@.len() == 17);
    assert("from"@.len() == 4);
    assert("image"@.len() == 5);
    assert("index"@.len() == 5);
    assert("marketplace"@.len() == 11);
    assert("nft_address"@.len() == 11);
    assert("nft_name"@.len() == 8);
    assert("nft_symbol"@.len() == 10);
    assert("nft_token_id"@.len() == 12);
    assert("price"@.len() == 5);
    assert("price_usd"@.len() == 9);
    assert("profit"@.len() == 6);
    assert("seller"@.len() == 6);
    assert("thumbnail"@.len() == 9);
    assert("timestamp"@.len() == 9);
    assert("to"@.len() == 2);
    assert("token"@.len() == 5);
    assert("tx_hash"@.len() == 7);
    assert("tx_type"@.len() == 7);
    assert("wallet"@.len() == 6);
    assert("wallet_label"@.len() == 12);
    let ms = spec_encode_nft_trade(s);
    let mand = ms;
    assert(mand.len() == 28);
    assert(mand[0].0 == "wallet"@);
    assert(mand[1].0 == "wallet_label"@);
    assert(mand[2].0 == "tx_hash"@);
    assert(mand[3].0 == "tx_type"@);
    assert(mand[4].0 == "chain"@);
    assert(mand[5].0 == "index"@);
    assert(mand[6].0 == "timestamp"@);
    assert(mand[7].0 == "block"@);
    assert(mand[8].0 == "from"@);
    assert(mand[9].0 == "to"@);
    assert(mand[10].0 == "thumbnail"@);
    assert(mand[11].0 == "image"@);
    assert(mand[12].0 == "action"@);
    assert(mand[13].0 == "contract"@);
    assert(mand[14].0 == "marketplace"@);
    assert(mand[15].0 == "nft_address"@);
    assert(mand[16].0 == "nft_name"@);
    assert(mand[17].0 == "nft_symbol"@);
    assert(mand[18].0 == "nft_token_id"@);
    assert(mand[19].0 == "price"@);
    assert(mand[20].0 == "price_usd"@);
    assert(mand[21].0 == "profit"@);
    assert(mand[22].0 == "currency_symbol"@);
    assert(mand[23].0 == "buyer"@);
    assert(mand[24].0 == "seller"@);
    assert(mand[25].0 == "token"@);
    assert(mand[26].0 == "first_interaction"@);
    assert(mand[27].0 == "bid_accepted"@);
    assert forall|j: int| 0 <= j < mand.len() implies mand[j].0 != "contract_address"@ by {
        if j == 0 {
        } else if j == 1 {
        } else if j == 2 {
        } else if j == 3 {
        } else if j == 4 {
        } else if j == 5 {
        } else if j == 6 {
        } else if j == 7 {
        } else if j == 8 {
        } else if j == 9 {
        } else if j == 10 {
        } else if j == 11 {
        } else if j == 12 {
        } else if j == 13 {
        } else if j == 14 {
        } else if j == 15 {
        } else if j == 16 {
        } else if j == 17 {
        } else if j == 18 {
        } else if j == 19 {
        } else if j == 20 {
        } else if j == 21 {
        } else if j == 22 {
        } else if j == 23 {
        } else if j == 24 {
        } else if j == 25 {
        } else if j == 26 {
        } else if j == 27 {
        } else {
        }
    }
    lemma_lookup_absent(mand, "contract_address"@);
    assert(spec_decode_transfer(ms) is None);
}

/// An encoded `nft_trade` record lacks `dex`, which the `lending` shape needs.
#[verifier::spinoff_prover]
proof fn lemma_nft_trade_not_lending(s: NftTradeV)
    ensures
        spec_decode_lending(spec_encode_nft_trade(s)) is None,
{
    reveal_strlit("action");
    reveal_strlit("bid_accepted");
    reveal_strlit("block");
    reveal_strlit("buyer");
    reveal_strlit("chain");
    reveal_strlit("contract");
    reveal_strlit("currency_symbol");
    reveal_strlit("dex");
    reveal_strlit("first_interaction");
    reveal_strlit("from");
    reveal_strlit("image");
    reveal_strlit("index");
    reveal_strlit("marketplace");
    reveal_strlit("nft_address");
    reveal_strlit("nft_name");
    reveal_strlit("nft_symbol");
    reveal_strlit("nft_token_id");
    reveal_strlit("price");
    reveal_strlit("price_usd");
    reveal_strlit("profit");
    reveal_strlit("seller");
    reveal_strlit("thumbnail");
    reveal_strlit("timestamp");
    reveal_strlit("to");
    reveal_strlit("token");
    reveal_strlit("tx_hash");
    reveal_strlit("tx_type");
    reveal_strlit("wallet");
    reveal_strlit("wallet_label");
    assert("action"@.len() == 6);
    assert("bid_accepted"@.len() == 12);
    assert("block"@.len() == 5);
    assert("buyer"@.len() == 5);
    assert("chain"@.len() == 5);
    assert("contract"@.len() == 8);
    assert("currency_symbol"@.len() == 15);
    assert("dex"@.len() == 3);
    assert("first_interaction"@.len() == 17);
    assert("from"@.len() == 4);
    assert("image"@.len() == 5);
    assert("index"@.len() == 5);
    assert("marketplace"@.len() == 11);
    assert("nft_address"@.len() == 11);
    assert("nft_name"@.len() == 8);
    assert("nft_symbol"@.len() == 10);
    assert("nft_token_id"@.len() == 12);
    assert("price"@.len() == 5);
    assert("price_usd"@.len() == 9);
    assert("profit"@.len() == 6);
    assert("seller"@.len() == 6);
    assert("thumbnail"@.len() == 9);
    assert("timestamp"@.len() == 9);
    assert("to"@.len() == 2);
    assert("token"@.len() == 5);
    assert("tx_hash"@.len() == 7);
    assert("tx_type"@.len() == 7);
    assert("wallet"@.len() == 6);
    assert("wallet_label"@.len() == 12);
    let ms = spec_encode_nft_trade(s);
    let mand = ms;
    assert(mand.len() == 28);
    assert(mand[0].0 == "wallet"@);
    assert(mand[1].0 == "wallet_label"@);
    assert(mand[2].0 == "tx_hash"@);
    assert(mand[3].0 == "tx_type"@);
    assert(mand[4].0 == "chain"@);
    assert(mand[5].0 == "index"@);
    assert(mand[6].0 == "timestamp"@);
    assert(mand[7].0 == "block"@);
    assert(mand[8].0 == "from"@);
    assert(mand[9].0 == "to"@);
    assert(mand[10].0 == "thumbnail"@);
    assert(mand[11].0 == "image"@);
    assert(mand[12].0 == "action"@);
    assert(mand[13].0 == "contract"@);
    assert(mand[14].0 == "marketplace"@);
    assert(mand[15].0 == "nft_address"@);
    assert(mand[16].0 == "nft_name"@);
    assert(mand[17].0 == "nft_symbol"@);
    assert(mand[18].0 == "nft_token_id"@);
    assert(mand[19].0 == "price"@);
    assert(mand[20].0 == "price_usd"@);
    assert(mand[21].0 == "profit"@);
    assert(mand[22].0 == "currency_symbol"@);
    assert(mand[23].0 == "buyer"@);
    assert(mand[24].0 == "seller"@);
    assert(mand[25].0 == "token"@);
    assert(mand[26].0 == "first_interaction"@);
    assert(mand[27].0 == "bid_accepted"@);
    assert forall|j: int| 0 <= j < mand.len() implies mand[j].0 != "dex"@ by {
        if j == 0 {
        } else if j == 1 {
        } else if j == 2 {
        } else if j == 3 {
        } else if j == 4 {
        } else if j == 5 {
        } else if j == 6 {
        } else if j == 7 {
        } else if j == 8 {
        } else if j == 9 {
        } else if j == 10 {
        } else if j == 11 {
        } else if j == 12 {
        } else if j == 13 {
        } else if j == 14 {
        } else if j == 15 {
        } else if j == 16 {
        } else if j == 17 {
        } else if j == 18 {
        } else if j == 19 {
        } else if j == 20 {
        } else if j == 21 {
        } else if j == 22 {
        } else if j == 23 {
        } else if j == 24 {
        } else if j == 25 {
        } else if j == 26 {
        } else if j == 27 {
        } else {
        }
    }
    lemma_lookup_absent(mand, "dex"@);
    assert(spec_decode_lending(ms) is None);
}

/// An encoded `nft_trade` record lacks `contract_address`, which the `nft_mint` shape needs.
#[verifier::spinoff_prover]
proof fn lemma_nft_trade_not_nft_mint(s: NftTradeV)
    ensures
        spec_decode_nft_mint(spec_encode_nft_trade(s)) is None,
{
    reveal_strlit("action");
    reveal_strlit("bid_accepted");
    reveal_strlit("block");
    reveal_strlit("buyer");
    reveal_strlit("chain");
    reveal_strlit("contract");
    reveal_strlit("contract_address");
    reveal_strlit("currency_symbol");
    reveal_strlit("first_interaction");
    reveal_strlit("from");
    reveal_strlit("image");
    reveal_strlit("index");
    reveal_strlit("marketplace");
    reveal_strlit("nft_address");
    reveal_strlit("nft_name");
    reveal_strlit("nft_symbol");
    reveal_strlit("nft_token_id");
    reveal_strlit("price");
    reveal_strlit("price_usd");
    reveal_strlit("profit");
    reveal_strlit("seller");
    reveal_strlit("thumbnail");
    reveal_strlit("timestamp");
    reveal_strlit("to");
    reveal_strlit("token");
    reveal_strlit("tx_hash");
    reveal_strlit("tx_type");
    reveal_strlit("wallet");
    reveal_strlit("wallet_label");
    assert("action"@.len() == 6);
    assert("bid_accepted"@.len() == 12);
    assert("block"@.len() == 5);
    assert("buyer"@.len() == 5);
    assert("chain"@.len() == 5);
    assert("contract"@.len() == 8);
    assert("contract_address"@.len() == 16);
    assert("currency_symbol"@.len() == 15);
    assert("first_interaction"@.len() == 17);
    assert("from"@.len() == 4);
    assert("image"@.len() == 5);
    assert("index"@.len() == 5);
    assert("marketplace"@.len() == 11);
    assert("nft_address"@.len() == 11);
    assert("nft_name"@.len() == 8);
    assert("nft_symbol"@.len() == 10);
    assert("nft_token_id"@.len() == 12);
    assert("price"@.len() == 5);
    assert("price_usd"@.len() == 9);
    assert("profit"@.len() == 6);
    assert("seller"@.len() == 6);
    assert("thumbnail"@.len() == 9);
    assert("timestamp"@.len() == 9);
    assert("to"@.len() == 2);
    assert("token"@.len() == 5);
    assert("tx_hash"@.len() == 7);
    assert("tx_type"@.len() == 7);
    assert("wallet"@.len() == 6);
    assert("wallet_label"@.len() == 12);
    let ms = spec_encode_nft_trade(s);
    let mand = ms;
    assert(mand.len() == 28);
    assert(mand[0].0 == "wallet"@);
    assert(mand[1].0 == "wallet_label"@);
    assert(mand[2].0 == "tx_hash"@);
    assert(mand[3].0 == "tx_type"@);
    assert(mand[4].0 == "chain"@);
    assert(mand[5].0 == "index"@);
    assert(mand[6].0 == "timestamp"@);
    assert(mand[7].0 == "block"@);
    assert(mand[8].0 == "from"@);
    assert(mand[9].0 == "to"@);
    assert(mand[10].0 == "thumbnail"@);
    assert(mand[11].0 == "image"@);
    assert(mand[12].0 == "action"@);
    assert(mand[13].0 == "contract"@);
    assert(mand[14].0 == "marketplace"@);
    assert(mand[15].0 == "nft_address"@);
    assert(mand[16].0 == "nft_name"@);
    assert(mand[17].0 == "nft_symbol"@);
    assert(mand[18].0 == "nft_token_id"@);
    assert(mand[19].0 == "price"@);
    assert(mand[20].0 == "price_usd"@);
    assert(mand[21].0 == "profit"@);
    assert(mand[22].0 == "currency_symbol"@);
    assert(mand[23].0 == "buyer"@);
    assert(mand[24].0 == "seller"@);
    assert(mand[25].0 == "token"@);
    assert(mand[26].0 == "first_interaction"@);
    assert(mand[27].0 == "bid_accepted"@);
    assert forall|j: int| 0 <= j < mand.len() implies mand[j].0 != "contract_address"@ by {
        if j == 0 {
        } else if j == 1 {
        } else if j == 2 {
        } else if j == 3 {
        } else if j == 4 {
        } else if j == 5 {
        } else if j == 6 {
        } else if j == 7 {
        } else if j == 8 {
        } else if j == 9 {
        } else if j == 10 {
        } else if j == 11 {
        } else if j == 12 {
        } else if j == 13 {
        } else if j == 14 {
        } else if j == 15 {
        } else if j == 16 {
        } else if j == 17 {
        } else if j == 18 {
        } else if j == 19 {
        } else if j == 20 {
        } else if j == 21 {
        } else if j == 22 {
        } else if j == 23 {
        } else if j == 24 {
        } else if j == 25 {
        } else if j == 26 {
        } else if j == 27 {
        } else {
        }
    }
    lemma_lookup_absent(mand, "contract_address"@);
    assert(spec_decode_nft_mint(ms) is None);
}

/// Decoding an encoded `nft_trade` record yields it back.
#[verifier::rlimit(50)]
#[verifier::spinoff_prover]
pub proof fn lemma_nft_trade_round_trip(s: NftTradeV)
    ensures
        spec_decode_item(spec_encode_item(ItemV::NftTrade(s))) == Some(ItemV::NftTrade(s)),
{
    reveal_strlit("action");
    reveal_strlit("bid_accepted");
    reveal_strlit("block");
    reveal_strlit("buyer");
    reveal_strlit("chain");
    reveal_strlit("contract");
    reveal_strlit("currency_symbol");
    reveal_strlit("first_interaction");
    reveal_strlit("from");
    reveal_strlit("image");
    reveal_strlit("index");
    reveal_strlit("marketplace");
    reveal_strlit("nft_address");
    reveal_strlit("nft_name");
    reveal_strlit("nft_symbol");
    reveal_strlit("nft_token_id");
    reveal_strlit("price");
    reveal_strlit("price_usd");
    reveal_strlit("profit");
    reveal_strlit("seller");
    reveal_strlit("thumbnail");
    reveal_strlit("timestamp");
    reveal_strlit("to");
    reveal_strlit("token");
    reveal_strlit("tx_hash");
    reveal_strlit("tx_type");
    reveal_strlit("wallet");
    reveal_strlit("wallet_label");
    assert("action"@.len() == 6);
    assert("bid_accepted"@.len() == 12);
    assert("block"@.len() == 5);
    assert("buyer"@.len() == 5);
    assert("chain"@.len() == 5);
    assert("contract"@.len() == 8);
    assert("currency_symbol"@.len() == 15);
    assert("first_interaction"@.len() == 17);
    assert("from"@.len() == 4);
    assert("image"@.len() == 5);
    assert("index"@.len() == 5);
    assert("marketplace"@.len() == 11);
    assert("nft_address"@.len() == 11);
    assert("nft_name"@.len() == 8);
    assert("nft_symbol"@.len() == 10);
    assert("nft_token_id"@.len() == 12);
    assert("price"@.len() == 5);
    assert("price_usd"@.len() == 9);
    assert("profit"@.len() == 6);
    assert("seller"@.len() == 6);
    assert("thumbnail"@.len() == 9);
    assert("timestamp"@.len() == 9);
    assert("to"@.len() == 2);
    assert("token"@.len() == 5);
    assert("tx_hash"@.len() == 7);
    assert("tx_type"@.len() == 7);
    assert("wallet"@.len() == 6);
    assert("wallet_label"@.len() == 12);
    assert("action"@[0] == 'a');
    assert("bid_accepted"@[0] == 'b');
    assert("block"@[0] == 'b');
    assert("block"@[1] == 'l');
    assert("buyer"@[0] == 'b');
    assert("buyer"@[1] == 'u');
    assert("chain"@[0] == 'c');
    assert("contract"@[0] == 'c');
    assert("image"@[0] == 'i');
    assert("image"@[1] == 'm');
    assert("index"@[0] == 'i');
    assert("index"@[1] == 'n');
    assert("marketplace"@[0] == 'm');
    assert("nft_address"@[0] == 'n');
    assert("nft_name"@[0] == 'n');
    assert("nft_token_id"@[0] == 'n');
    assert("price"@[0] == 'p');
    assert("price_usd"@[0] == 'p');
    assert("profit"@[0] == 'p');
    assert("seller"@[0] == 's');
    assert("thumbnail"@[0] == 't');
    assert("thumbnail"@[1] == 'h');
    assert("timestamp"@[0] == 't');
    assert("timestamp"@[1] == 'i');
    assert("token"@[0] == 't');
    assert("tx_hash"@[3] == 'h');
    assert("tx_type"@[3] == 't');
    assert("wallet"@[0] == 'w');
    assert("wallet_label"@[0] == 'w');
    let ms = spec_encode_nft_trade(s);
    let mand = ms;
    assert(mand.len() == 28);
    assert(mand[0].0 == "wallet"@);
    assert(mand[1].0 == "wallet_label"@);
    assert(mand[2].0 == "tx_hash"@);
    assert(mand[3].0 == "tx_type"@);
    assert(mand[4].0 == "chain"@);
    assert(mand[5].0 == "index"@);
    assert(mand[6].0 == "timestamp"@);
    assert(mand[7].0 == "block"@);
    assert(mand[8].0 == "from"@);
    assert(mand[9].0 == "to"@);
    assert(mand[10].0 == "thumbnail"@);
    assert(mand[11].0 == "image"@);
    assert(mand[12].0 == "action"@);
    assert(mand[13].0 == "contract"@);
    assert(mand[14].0 == "marketplace"@);
    assert(mand[15].0 == "nft_address"@);
    assert(mand[16].0 == "nft_name"@);
    assert(mand[17].0 == "nft_symbol"@);
    assert(mand[18].0 == "nft_token_id"@);
    assert(mand[19].0 == "price"@);
    assert(mand[20].0 == "price_usd"@);
    assert(mand[21].0 == "profit"@);
    assert(mand[22].0 == "currency_symbol"@);
    assert(mand[23].0 == "buyer"@);
    assert(mand[24].0 == "seller"@);
    assert(mand[25].0 == "token"@);
    assert(mand[26].0 == "first_interaction"@);
    assert(mand[27].0 == "bid_accepted"@);
    lemma_lookup_first(mand, 0);
    lemma_lookup_first(mand, 1);
    lemma_lookup_first(mand, 2);
    lemma_lookup_first(mand, 3);
    lemma_lookup_first(mand, 4);
    lemma_lookup_first(mand, 5);
    lemma_lookup_first(mand, 6);
    lemma_lookup_first(mand, 7);
    lemma_lookup_first(mand, 8);
    lemma_lookup_first(mand, 9);
    lemma_lookup_first(mand, 10);
    lemma_lookup_first(mand, 11);
    lemma_lookup_first(mand, 12);
    lemma_lookup_first(mand, 13);
    lemma_lookup_first(mand, 14);
    lemma_lookup_first(mand, 15);
    lemma_lookup_first(mand, 16);
    lemma_lookup_first(mand, 17);
    lemma_lookup_first(mand, 18);
    lemma_lookup_first(mand, 19);
    lemma_lookup_first(mand, 20);
    lemma_lookup_first(mand, 21);
    lemma_lookup_first(mand, 22);
    lemma_lookup_first(mand, 23);
    lemma_lookup_first(mand, 24);
    lemma_lookup_first(mand, 25);
    lemma_lookup_first(mand, 26);
    lemma_lookup_first(mand, 27);
    lemma_nft_trade_not_swap(s);
    lemma_nft_trade_not_lp(s);
    lemma_nft_trade_not_transfer(s);
    lemma_nft_trade_not_lending(s);
    lemma_nft_trade_not_nft_mint(s);
    assert(spec_decode_nft_trade(ms) == Some(NftTradeV {
        wallet: s.wallet,
        wallet_label: s.wallet_label,
        tx_hash: s.tx_hash,
        tx_type: s.tx_type,
        chain: s.chain,
        index: s.index,
        timestamp: s.timestamp,
        block: s.block,
        from: s.from,
        to: s.to,
        thumbnail: s.thumbnail,
        image: s.image,
        action: s.action,
        contract: s.contract,
        marketplace: s.marketplace,
        nft_address: s.nft_address,
        nft_name: s.nft_name,
        nft_symbol: s.nft_symbol,
        nft_token_id: s.nft_token_id,
        price: s.price,
        price_usd: s.price_usd,
        profit: s.profit,
        currency_symbol: s.currency_symbol,
        buyer: s.buyer,
        seller: s.seller,
        token: s.token,
        first_interaction: s.first_interaction,
        bid_accepted: s.bid_accepted,
    }));
}

/// An encoded `nft_transfer` record lacks `token0_address`, which the `swap` shape needs.
#[verifier::spinoff_prover]
proof fn lemma_nft_transfer_not_swap(s: NftTransferV)
    ensures
        spec_decode_swap(spec_encode_nft_transfer(s)) is None,
{
    reveal_strlit("block");
    reveal_strlit("chain");
    reveal_strlit("contract_address");
    reveal_strlit("contract_type");
    reveal_strlit("fee");
    reveal_strlit("from");
    reveal_strlit("from_label");
    reveal_strlit("image");
    reveal_strlit("index");
    reveal_strlit("nft_name");
    reveal_strlit("nft_symbol");
    reveal_strlit("nft_token_id");
    reveal_strlit("thumbnail");
    reveal_strlit("timestamp");
    reveal_strlit("to");
    reveal_strlit("to_label");
    reveal_strlit("token0_address");
    reveal_strlit("tx_hash");
    reveal_strlit("tx_type");
    reveal_strlit("type");
    reveal_strlit("value");
    reveal_strlit("wallet");
    reveal_strlit("wallet_label");
    assert("block"@.len() == 5);
    assert("chain"@.len() == 5);
    assert("contract_address"@.len() == 16);
    assert("contract_type"@.len() == 13);
    assert("fee"@.len() == 3);
    assert("from"@.len() == 4);
    assert("from_label"@.len() == 10);
    assert("image"@.len() == 5);
    assert("index"@.len() == 5);
    assert("nft_name"@.len() == 8);
    assert("nft_symbol"@.len() == 10);
    assert("nft_token_id"@.len() == 12);
    assert("thumbnail"@.len() == 9);
    assert("timestamp"@.len() == 9);
    assert("to"@.len() == 2);
    assert("to_label"@.len() == 8);
    assert("token0_address"@.len() == 14);
    assert("tx_hash"@.len() == 7);
    assert("tx_type"@.len() == 7);
    assert("type"@.len() == 4);
    assert("value"@.len() == 5);
    assert("wallet"@.len() == 6);
    assert("wallet_label"@.len() == 12);
    let ms = spec_encode_nft_transfer(s);
    let mand = ms;
    assert(mand.len() == 22);
    assert(mand[0].0 == "wallet"@);
    assert(mand[1].0 == "wallet_label"@);
    assert(mand[2].0 == "tx_hash"@);
    assert(mand[3].0 == "tx_type"@);
    assert(mand[4].0 == "chain"@);
    assert(mand[5].0 == "index"@);
    assert(mand[6].0 == "timestamp"@);
    assert(mand[7].0 == "block"@);
    assert(mand[8].0 == "from"@);
    assert(mand[9].0 == "to"@);
    assert(mand[10].0 == "from_label"@);
    assert(mand[11].0 == "to_label"@);
    assert(mand[12].0 == "thumbnail"@);
    assert(mand[13].0 == "image"@);
    assert(mand[14].0 == "contract_address"@);
    assert(mand[15].0 == "contract_type"@);
    assert(mand[16].0 == "fee"@);
    assert(mand[17].0 == "nft_name"@);
    assert(mand[18].0 == "nft_symbol"@);
    assert(mand[19].0 == "nft_token_id"@);
    assert(mand[20].0 == "type"@);
    assert(mand[21].0 == "value"@);
    assert forall|j: int| 0 <= j < mand.len() implies mand[j].0 != "token0_address"@ by {
        if j == 0 {
        } else if j == 1 {
        } else if j == 2 {
        } else if j == 3 {
        } else if j == 4 {
        } else if j == 5 {
        } else if j == 6 {
        } else if j == 7 {
        } else if j == 8 {
        } else if j == 9 {
        } else if j == 10 {
        } else if j == 11 {
        } else if j == 12 {
        } else if j == 13 {
        } else if j == 14 {
        } else if j == 15 {
        } else if j == 16 {
        } else if j == 17 {
        } else if j == 18 {
        } else if j == 19 {
        } else if j == 20 {
        } else if j == 21 {
        } else {
        }
    }
    lemma_lookup_absent(mand, "token0_address"@);
    assert(spec_decode_swap(ms) is None);
}

/// An encoded `nft_transfer` record lacks `token0_address`, which the `lp` shape needs.
#[verifier::spinoff_prover]
proof fn lemma_nft_transfer_not_lp(s: NftTransferV)
    ensures
        spec_decode_lp(spec_encode_nft_transfer(s)) is None,
{
    reveal_strlit("block");
    reveal_strlit("chain");
    reveal_strlit("contract_address");
    reveal_strlit("contract_type");
    reveal_strlit("fee");
    reveal_strlit("from");
    reveal_strlit("from_label");
    reveal_strlit("image");
    reveal_strlit("index");
    reveal_strlit("nft_name");
    reveal_strlit("nft_symbol");
    reveal_strlit("nft_token_id");
    reveal_strlit("thumbnail");
    reveal_strlit("timestamp");
    reveal_strlit("to");
    reveal_strlit("to_label");
    reveal_strlit("token0_address");
    reveal_strlit("tx_hash");
    reveal_strlit("tx_type");
    reveal_strlit("type");
    reveal_strlit("value");
    reveal_strlit("wallet");
    reveal_strlit("wallet_label");
    assert("block"@.len() == 5);
    assert("chain"@.len() == 5);
    assert("contract_address"@.len() == 16);
    assert("contract_type"@.len() == 13);
    assert("fee"@.len() == 3);
    assert("from"@.len() == 4);
    assert("from_label"@.len() == 10);
    assert("image"@.len() == 5);
    assert("index"@.len() == 5);
    assert("nft_name"@.len() == 8);
    assert("nft_symbol"@.len() == 10);
    assert("nft_token_id"@.len() == 12);
    assert("thumbnail"@.len() == 9);
    assert("timestamp"@.len() == 9);
    assert("to"@.len() == 2);
    assert("to_label"@.len() == 8);
    assert("token0_address"@.len() == 14);
    assert("tx_hash"@.len() == 7);
    assert("tx_type"@.len() == 7);
    assert("type"@.len() == 4);
    assert("value"@.len() == 5);
    assert("wallet"@.len() == 6);
    assert("wallet_label"@.len() == 12);
    let ms = spec_encode_nft_transfer(s);
    let mand = ms;
    assert(mand.len() == 22);
    assert(mand[0].0 == "wallet"@);
    assert(mand[1].0 == "wallet_label"@);
    assert(mand[2].0 == "tx_hash"@);
    assert(mand[3].0 == "tx_type"@);
    assert(mand[4].0 == "chain"@);
    assert(mand[5].0 == "index"@);
    assert(mand[6].0 == "timestamp"@);
    assert(mand[7].0 == "block"@);
    assert(mand[8].0 == "from"@);
    assert(mand[9].0 == "to"@);
    assert(mand[10].0 == "from_label"@);
    assert(mand[11].0 == "to_label"@);
    assert(mand[12].0 == "thumbnail"@);
    assert(mand[13].0 == "image"@);
    assert(mand[14].0 == "contract_address"@);
    assert(mand[15].0 == "contract_type"@);
    assert(mand[16].0 == "fee"@);
    assert(mand[17].0 == "nft_name"@);
    assert(mand[18].0 == "nft_symbol"@);
    assert(mand[19].0 == "nft_token_id"@);
    assert(mand[20].0 == "type"@);
    assert(mand[21].0 == "value"@);
    assert forall|j: int| 0 <= j < mand.len() implies mand[j].0 != "token0_address"@ by {
        if j == 0 {
        } else if j == 1 {
        } else if j == 2 {
        } else if j == 3 {
        } else if j == 4 {
        } else if j == 5 {
        } else if j == 6 {
        } else if j == 7 {
        } else if j == 8 {
        } else if j == 9 {
        } else if j == 10 {
        } else if j == 11 {
        } else if j == 12 {
        } else if j == 13 {
        } else if j == 14 {
        } else if j == 15 {
        } else if j == 16 {
        } else if j == 17 {
        } else if j == 18 {
        } else if j == 19 {
        } else if j == 20 {
        } else if j == 21 {
        } else {
        }
    }
    lemma_lookup_absent(mand, "token0_address"@);
    assert(spec_decode_lp(ms) is None);
}

/// An encoded `nft_transfer` record lacks `token_price_usd`, which the `transfer` shape needs.
#[verifier::spinoff_prover]
proof fn lemma_nft_transfer_not_transfer(s: NftTransferV)
    ensures
        spec_decode_transfer(spec_encode_nft_transfer(s)) is None,
{
    reveal_strlit("block");
    reveal_strlit("chain");
    reveal_strlit("contract_address");
    reveal_strlit("contract_type");
    reveal_strlit("fee");
    reveal_strlit("from");
    reveal_strlit("from_label");
    reveal_strlit("image");
    reveal_strlit("index");
    reveal_strlit("nft_name");
    reveal_strlit("nft_symbol");
    reveal_strlit("nft_token_id");
    reveal_strlit("thumbnail");
    reveal_strlit("timestamp");
    reveal_strlit("to");
    reveal_strlit("to_label");
    reveal_strlit("token_price_usd");
    reveal_strlit("tx_hash");
    reveal_strlit("tx_type");
    reveal_strlit("type");
    reveal_strlit("value");
    reveal_strlit("wallet");
    reveal_strlit("wallet_label");
    assert("block"@.len() == 5);
    assert("chain"@.len() == 5);
    assert("contract_address"@.len() == 16);
    assert("contract_type"@.len() == 13);
    assert("fee"@.len() == 3);
    assert("from"@.len() == 4);
    assert("from_label"@.len() == 10);
    assert("image"@.len() == 5);
    assert("index"@.len() == 5);
    assert("nft_name"@.len() == 8);
    assert("nft_symbol"@.len() == 10);
    assert("nft_token_id"@.len() == 12);
    assert("thumbnail"@.len() == 9);
    assert("timestamp"@.len() == 9);
    assert("to"@.len() == 2);
    assert("to_label"@.len() == 8);
    assert("token_price_usd"@.len() == 15);
    assert("tx_hash"@.len() == 7);
    assert("tx_type"@.len() == 7);
    assert("type"@.len() == 4);
    assert("value"@.len() == 5);
    assert("wallet"@.len() == 6);
    assert("wallet_label"@.len() == 12);
    let ms = spec_encode_nft_transfer(s);
    let mand = ms;
    assert(mand.len() == 22);
    assert(mand[0].0 == "wallet"@);
    assert(mand[1].0 == "wallet_label"@);
    assert(mand[2].0 == "tx_hash"@);
    assert(mand[3].0 == "tx_type"@);
    assert(mand[4].0 == "chain"@);
    assert(mand[5].0 == "index"@);
    assert(mand[6].0 == "timestamp"@);
    assert(mand[7].0 == "block"@);
    assert(mand[8].0 == "from"@);
    assert(mand[9].0 == "to"@);
    assert(mand[10].0 == "from_label"@);
    assert(mand[11].0 == "to_label"@);
    assert(mand[12].0 == "thumbnail"@);
    assert(mand[13].0 == "image"@);
    assert(mand[14].0 == "contract_address"@);
    assert(mand[15].0 == "contract_type"@);
    assert(mand[16].0 == "fee"@);
    assert(mand[17].0 == "nft_name"@);
    assert(mand[18].0 == "nft_symbol"@);
    assert(mand[19].0 == "nft_token_id"@);
    assert(mand[20].0 == "type"@);
    assert(mand[21].0 == "value"@);
    assert forall|j: int| 0 <= j < mand.len() implies mand[j].0 != "token_price_usd"@ by {
        if j == 0 {
        } else if j == 1 {
        } else if j == 2 {
        } else if j == 3 {
        } else if j == 4 {
        } else if j == 5 {
        } else if j == 6 {
        } else if j == 7 {
        } else if j == 8 {
        } else if j == 9 {
        } else if j == 10 {
        } else if j == 11 {
        } else if j == 12 {
        } else if j == 13 {
        } else if j == 14 {
        } else if j == 15 {
        } else if j == 16 {
        } else if j == 17 {
        } else if j == 18 {
        } else if j == 19 {
        } else if j == 20 {
        } else if j == 21 {
        } else {
        }
    }
    lemma_lookup_absent(mand, "token_price_usd"@);
    assert(spec_decode_transfer(ms) is None);
}

/// An encoded `nft_transfer` record lacks `token_icon_link`, which the `lending` shape needs.
#[verifier::spinoff_prover]
proof fn lemma_nft_transfer_not_lending(s: NftTransferV)
    ensures
        spec_decode_lending(spec_encode_nft_transfer(s)) is None,
{
    reveal_strlit("block");
    reveal_strlit("chain");
    reveal_strlit("contract_address");
    reveal_strlit("contract_type");
    reveal_strlit("fee");
    reveal_strlit("from");
    reveal_strlit("from_label");
    reveal_strlit("image");
    reveal_strlit("index");
    reveal_strlit("nft_name");
    reveal_strlit("nft_symbol");
    reveal_strlit("nft_token_id");
    reveal_strlit("thumbnail");
    reveal_strlit("timestamp");
    reveal_strlit("to");
    reveal_strlit("to_label");
    reveal_strlit("token_icon_link");
    reveal_strlit("tx_hash");
    reveal_strlit("tx_type");
    reveal_strlit("type");
    reveal_strlit("value");
    reveal_strlit("wallet");
    reveal_strlit("wallet_label");
    assert("block"@.len() == 5);
    assert("chain"@.len() == 5);
    assert("contract_address"@.len() == 16);
    assert("contract_type"@.len() == 13);
    assert("fee"@.len() == 3);
    assert("from"@.len() == 4);
    assert("from_label"@.len() == 10);
    assert("image"@.len() == 5);
    assert("index"@.len() == 5);
    assert("nft_name"@.len() == 8);
    assert("nft_symbol"@.len() == 10);
    assert("nft_token_id"@.len() == 12);
    assert("thumbnail"@.len() == 9);
    assert("timestamp"@.len() == 9);
    assert("to"@.len() == 2);
    assert("to_label"@.len() == 8);
    assert("token_icon_link"@.len() == 15);
    assert("tx_hash"@.len() == 7);
    assert("tx_type"@.len() == 7);
    assert("type"@.len() == 4);
    assert("value"@.len() == 5);
    assert("wallet"@.len() == 6);
    assert("wallet_label"@.len() == 12);
    let ms = spec_encode_nft_transfer(s);
    let mand = ms;
    assert(mand.len() == 22);
    assert(mand[0].0 == "wallet"@);
    assert(mand[1].0 == "wallet_label"@);
    assert(mand[2].0 == "tx_hash"@);
    assert(mand[3].0 == "tx_type"@);
    assert(mand[4].0 == "chain"@);
    assert(mand[5].0 == "index"@);
    assert(mand[6].0 == "timestamp"@);
    assert(mand[7].0 == "block"@);
    assert(mand[8].0 == "from"@);
    assert(mand[9].0 == "to"@);
    assert(mand[10].0 == "from_label"@);
    assert(mand[11].0 == "to_label"@);
    assert(mand[12].0 == "thumbnail"@);
    assert(mand[13].0 == "image"@);
    assert(mand[14].0 == "contract_address"@);
    assert(mand[15].0 == "contract_type"@);
    assert(mand[16].0 == "fee"@);
    assert(mand[17].0 == "nft_name"@);
    assert(mand[18].0 == "nft_symbol"@);
    assert(mand[19].0 == "nft_token_id"@);
    assert(mand[20].0 == "type"@);
    assert(mand[21].0 == "value"@);
    assert forall|j: int| 0 <= j < mand.len() implies mand[j].0 != "token_icon_link"@ by {
        if j == 0 {
        } else if j == 1 {
        } else if j == 2 {
        } else if j == 3 {
        } else if j == 4 {
        } else if j == 5 {
        } else if j == 6 {
        } else if j == 7 {
        } else if j == 8 {
        } else if j == 9 {
        } else if j == 10 {
        } else if j == 11 {
        } else if j == 12 {
        } else if j == 13 {
        } else if j == 14 {
        } else if j == 15 {
        } else if j == 16 {
        } else if j == 17 {
        } else if j == 18 {
        } else if j == 19 {
        } else if j == 20 {
        } else if j == 21 {
        } else {
        }
    }
    lemma_lookup_absent(mand, "token_icon_link"@);
    assert(spec_decode_lending(ms) is None);
}

/// An encoded `nft_transfer` record lacks `currency_symbol`, which the `nft_mint` shape needs.
#[verifier::spinoff_prover]
proof fn lemma_nft_transfer_not_nft_mint(s: NftTransferV)
    ensures
        spec_decode_nft_mint(spec_encode_nft_transfer(s)) is None,
{
    reveal_strlit("block");
    reveal_strlit("chain");
    reveal_strlit("contract_address");
    reveal_strlit("contract_type");
    reveal_strlit("currency_symbol");
    reveal_strlit("fee");
    reveal_strlit("from");
    reveal_strlit("from_label");
    reveal_strlit("image");
    reveal_strlit("index");
    reveal_strlit("nft_name");
    reveal_strlit("nft_symbol");
    reveal_strlit("nft_token_id");
    reveal_strlit("thumbnail");
    reveal_strlit("timestamp");
    reveal_strlit("to");
    reveal_strlit("to_label");
    reveal_strlit("tx_hash");
    reveal_strlit("tx_type");
    reveal_strlit("type");
    reveal_strlit("value");
    reveal_strlit("wallet");
    reveal_strlit("wallet_label");
    assert("block"@.len() == 5);
    assert("chain"@.len() == 5);
    assert("contract_address"@.len() == 16);
    assert("contract_type"@.len() == 13);
    assert("currency_symbol"@.len() == 15);
    assert("fee"@.len() == 3);
    assert("from"@.len() == 4);
    assert("from_label"@.len() == 10);
    assert("image"@.len() == 5);
    assert("index"@.len() == 5);
    assert("nft_name"@.len() == 8);
    assert("nft_symbol"@.len() == 10);
    assert("nft_token_id"@.len() == 12);
    assert("thumbnail"@.len() == 9);
    assert("timestamp"@.len() == 9);
    assert("to"@.len() == 2);
    assert("to_label"@.len() == 8);
    assert("tx_hash"@.len() == 7);
    assert("tx_type"@.len() == 7);
    assert("type"@.len() == 4);
    assert("value"@.len() == 5);
    assert("wallet"@.len() == 6);
    assert("wallet_label"@.len() == 12);
    let ms = spec_encode_nft_transfer(s);
    let mand = ms;
    assert(mand.len() == 22);
    assert(mand[0].0 == "wallet"@);
    assert(mand[1].0 == "wallet_label"@);
    assert(mand[2].0 == "tx_hash"@);
    assert(mand[3].0 == "tx_type"@);
    assert(mand[4].0 == "chain"@);
    assert(mand[5].0 == "index"@);
    assert(mand[6].0 == "timestamp"@);
    assert(mand[7].0 == "block"@);
    assert(mand[8].0 == "from"@);
    assert(mand[9].0 == "to"@);
    assert(mand[10].0 == "from_label"@);
    assert(mand[11].0 == "to_label"@);
    assert(mand[12].0 == "thumbnail"@);
    assert(mand[13].0 == "image"@);
    assert(mand[14].0 == "contract_address"@);
    assert(mand[15].0 == "contract_type"@);
    assert(mand[16].0 == "fee"@);
    assert(mand[17].0 == "nft_name"@);
    assert(mand[18].0 == "nft_symbol"@);
    assert(mand[19].0 == "nft_token_id"@);
    assert(mand[20].0 == "type"@);
    assert(mand[21].0 == "value"@);
    assert forall|j: int| 0 <= j < mand.len() implies mand[j].0 != "currency_symbol"@ by {
        if j == 0 {
        } else if j == 1 {
        } else if j == 2 {
        } else if j == 3 {
        } else if j == 4 {
        } else if j == 5 {
        } else if j == 6 {
        } else if j == 7 {
        } else if j == 8 {
        } else if j == 9 {
        } else if j == 10 {
        } else if j == 11 {
        } else if j == 12 {
        } else if j == 13 {
        } else if j == 14 {
        } else if j == 15 {
        } else if j == 16 {
        } else if j == 17 {
        } else if j == 18 {
        } else if j == 19 {
        } else if j == 20 {
        } else if j == 21 {
        } else {
        }
    }
    lemma_lookup_absent(mand, "currency_symbol"@);
    assert(spec_decode_nft_mint(ms) is None);
}

/// An encoded `nft_transfer` record lacks `marketplace`, which the `nft_trade` shape needs.
#[verifier::spinoff_prover]
proof fn lemma_nft_transfer_not_nft_trade(s: NftTransferV)
    ensures
        spec_decode_nft_trade(spec_encode_nft_transfer(s)) is None,
{
    reveal_strlit("block");
    reveal_strlit("chain");
    reveal_strlit("contract_address");
    reveal_strlit("contract_type");
    reveal_strlit("fee");
    reveal_strlit("from");
    reveal_strlit("from_label");
    reveal_strlit("image");
    reveal_strlit("index");
    reveal_strlit("marketplace");
    reveal_strlit("nft_name");
    reveal_strlit("nft_symbol");
    reveal_strlit("nft_token_id");
    reveal_strlit("thumbnail");
    reveal_strlit("timestamp");
    reveal_strlit("to");
    reveal_strlit("to_label");
    reveal_strlit("tx_hash");
    reveal_strlit("tx_type");
    reveal_strlit("type");
    reveal_strlit("value");
    reveal_strlit("wallet");
    reveal_strlit("wallet_label");
    assert("block"@.len() == 5);
    assert("chain"@.len() == 5);
    assert("contract_address"@.len() == 16);
    assert("contract_type"@.len() == 13);
    assert("fee"@.len() == 3);
    assert("from"@.len() == 4);
    assert("from_label"@.len() == 10);
    assert("image"@.len() == 5);
    assert("index"@.len() == 5);
    assert("marketplace"@.len() == 11);
    assert("nft_name"@.len() == 8);
    assert("nft_symbol"@.len() == 10);
    assert("nft_token_id"@.len() == 12);
    assert("thumbnail"@.len() == 9);
    assert("timestamp"@.len() == 9);
    assert("to"@.len() == 2);
    assert("to_label"@.len() == 8);
    assert("tx_hash"@.len() == 7);
    assert("tx_type"@.len() == 7);
    assert("type"@.len() == 4);
    assert("value"@.len() == 5);
    assert("wallet"@.len() == 6);
    assert("wallet_label"@.len() == 12);
    let ms = spec_encode_nft_transfer(s);
    let mand = ms;
    assert(mand.len() == 22);
    assert(mand[0].0 == "wallet"@);
    assert(mand[1].0 == "wallet_label"@);
    assert(mand[2].0 == "tx_hash"@);
    assert(mand[3].0 == "tx_type"@);
    assert(mand[4].0 == "chain"@);
    assert(mand[5].0 == "index"@);
    assert(mand[6].0 == "timestamp"@);
    assert(mand[7].0 == "block"@);
    assert(mand[8].0 == "from"@);
    assert(mand[9].0 == "to"@);
    assert(mand[10].0 == "from_label"@);
    assert(mand[11].0 == "to_label"@);
    assert(mand[12].0 == "thumbnail"@);
    assert(mand[13].0 == "image"@);
    assert(mand[14].0 == "contract_address"@);
    assert(mand[15].0 == "contract_type"@);
    assert(mand[16].0 == "fee"@);
    assert(mand[17].0 == "nft_name"@);
    assert(mand[18].0 == "nft_symbol"@);
    assert(mand[19].0 == "nft_token_id"@);
    assert(mand[20].0 == "type"@);
    assert(mand[21].0 == "value"@);
    assert forall|j: int| 0 <= j < mand.len() implies mand[j].0 != "marketplace"@ by {
        if j == 0 {
        } else if j == 1 {
        } else if j == 2 {
        } else if j == 3 {
        } else if j == 4 {
        } else if j == 5 {
        } else if j == 6 {
        } else if j == 7 {
        } else if j == 8 {
        } else if j == 9 {
        } else if j == 10 {
        } else if j == 11 {
        } else if j == 12 {
        } else if j == 13 {
        } else if j == 14 {
        } else if j == 15 {
        } else if j == 16 {
        } else if j == 17 {
        } else if j == 18 {
        } else if j == 19 {
        } else if j == 20 {
        } else if j == 21 {
        } else {
        }
    }
    lemma_lookup_absent(mand, "marketplace"@);
    assert(spec_decode_nft_trade(ms) is None);
}

/// Decoding an encoded `nft_transfer` record yields it back.
#[verifier::rlimit(50)]
#[verifier::spinoff_prover]
pub proof fn lemma_nft_transfer_round_trip(s: NftTransferV)
    ensures
        spec_decode_item(spec_encode_item(ItemV::NftTransfer(s))) == Some(ItemV::NftTransfer(s)),
{
    reveal_strlit("block");
    reveal_strlit("chain");
    reveal_strlit("contract_address");
    reveal_strlit("contract_type");
    reveal_strlit("fee");
    reveal_strlit("from");
    reveal_strlit("from_label");
    reveal_strlit("image");
    reveal_strlit("index");
    reveal_strlit("nft_name");
    reveal_strlit("nft_symbol");
    reveal_strlit("nft_token_id");
    reveal_strlit("thumbnail");
    reveal_strlit("timestamp");
    reveal_strlit("to");
    reveal_strlit("to_label");
    reveal_strlit("tx_hash");
    reveal_strlit("tx_type");
    reveal_strlit("type");
    reveal_strlit("value");
    reveal_strlit("wallet");
    reveal_strlit("wallet_label");
    assert("block"@.len() == 5);
    assert("chain"@.len() == 5);
    assert("contract_address"@.len() == 16);
    assert("contract_type"@.len() == 13);
    assert("fee"@.len() == 3);
    assert("from"@.len() == 4);
    assert("from_label"@.len() == 10);
    assert("image"@.len() == 5);
    assert("index"@.len() == 5);
    assert("nft_name"@.len() == 8);
    assert("nft_symbol"@.len() == 10);
    assert("nft_token_id"@.len() == 12);
    assert("thumbnail"@.len() == 9);
    assert("timestamp"@.len() == 9);
    assert("to"@.len() == 2);
    assert("to_label"@.len() == 8);
    assert("tx_hash"@.len() == 7);
    assert("tx_type"@.len() == 7);
    assert("type"@.len() == 4);
    assert("value"@.len() == 5);
    assert("wallet"@.len() == 6);
    assert("wallet_label"@.len() == 12);
    assert("block"@[0] == 'b');
    assert("chain"@[0] == 'c');
    assert("from"@[0] == 'f');
    assert("from_label"@[0] == 'f');
    assert("image"@[0] == 'i');
    assert("image"@[1] == 'm');
    assert("index"@[0] == 'i');
    assert("index"@[1] == 'n');
    assert("nft_name"@[0] == 'n');
    assert("nft_symbol"@[0] == 'n');
    assert("nft_token_id"@[0] == 'n');
    assert("thumbnail"@[1] == 'h');
    assert("timestamp"@[1] == 'i');
    assert("to_label"@[0] == 't');
    assert("tx_hash"@[3] == 'h');
    assert("tx_type"@[3] == 't');
    assert("type"@[0] == 't');
    assert("value"@[0] == 'v');
    assert("wallet_label"@[0] == 'w');
    let ms = spec_encode_nft_transfer(s);
    let mand = ms;
    assert(mand.len() == 22);
    assert(mand[0].0 == "wallet"@);
    assert(mand[1].0 == "wallet_label"@);
    assert(mand[2].0 == "tx_hash"@);
    assert(mand[3].0 == "tx_type"@);
    assert(mand[4].0 == "chain"@);
    assert(mand[5].0 == "index"@);
    assert(mand[6].0 == "timestamp"@);
    assert(mand[7].0 == "block"@);
    assert(mand[8].0 == "from"@);
    assert(mand[9].0 == "to"@);
    assert(mand[10].0 == "from_label"@);
    assert(mand[11].0 == "to_label"@);
    assert(mand[12].0 == "thumbnail"@);
    assert(mand[13].0 == "image"@);
    assert(mand[14].0 == "contract_address"@);
    assert(mand[15].0 == "contract_type"@);
    assert(mand[16].0 == "fee"@);
    assert(mand[17].0 == "nft_name"@);
    assert(mand[18].0 == "nft_symbol"@);
    assert(mand[19].0 == "nft_token_id"@);
    assert(mand[20].0 == "type"@);
    assert(mand[21].0 == "value"@);
    lemma_lookup_first(mand, 0);
    lemma_lookup_first(mand, 1);
    lemma_lookup_first(mand, 2);
    lemma_lookup_first(mand, 3);
    lemma_lookup_first(mand, 4);
    lemma_lookup_first(mand, 5);
    lemma_lookup_first(mand, 6);
    lemma_lookup_first(mand, 7);
    lemma_lookup_first(mand, 8);
    lemma_lookup_first(mand, 9);
    lemma_lookup_first(mand, 10);
    lemma_lookup_first(mand, 11);
    lemma_lookup_first(mand, 12);
    lemma_lookup_first(mand, 13);
    lemma_lookup_first(mand, 14);
    lemma_lookup_first(mand, 15);
    lemma_lookup_first(mand, 16);
    lemma_lookup_first(mand, 17);
    lemma_lookup_first(mand, 18);
    lemma_lookup_first(mand, 19);
    lemma_lookup_first(mand, 20);
    lemma_lookup_first(mand, 21);
    lemma_nft_transfer_not_swap(s);
    lemma_nft_transfer_not_lp(s);
    lemma_nft_transfer_not_transfer(s);
    lemma_nft_transfer_not_lending(s);
    lemma_nft_transfer_not_nft_mint(s);
    lemma_nft_transfer_not_nft_trade(s);
    assert(spec_decode_nft_transfer(ms) == Some(NftTransferV {
        wallet: s.wallet,
        wallet_label: s.wallet_label,
        tx_hash: s.tx_hash,
        tx_type: s.tx_type,
        chain: s.chain,
        index: s.index,
        timestamp: s.timestamp,
        block: s.block,
        from: s.from,
        to: s.to,
        from_label: s.from_label,
        to_label: s.to_label,
        thumbnail: s.thumbnail,
        image: s.image,
        contract_address: s.contract_address,
        contract_type: s.contract_type,
        fee: s.fee,
        nft_name: s.nft_name,
        nft_symbol: s.nft_symbol,
        nft_token_id: s.nft_token_id,
        type_field: s.type_field,
        value: s.value,
    }));
}

/// An encoded `nft_lending` record lacks `dex`, which the `swap` shape needs.
#[verifier::spinoff_prover]
proof fn lemma_nft_lending_not_swap(s: NftLendingV)
    ensures
        spec_decode_swap(spec_encode_nft_lending(s)) is None,
{
    reveal_strlit("action");
    reveal_strlit("block");
    reveal_strlit("chain");
    reveal_strlit("currency_address");
    reveal_strlit("currency_symbol");
    reveal_strlit("dex");
    reveal_strlit("from");
    reveal_strlit("from_label");
    reveal_strlit("image");
    reveal_strlit("index");
    reveal_strlit("interest");
    reveal_strlit("nft_address");
    reveal_strlit("nft_name");
    reveal_strlit("nft_symbol");
    reveal_strlit("nft_token_id");
    reveal_strlit("platform");
    reveal_strlit("price");
    reveal_strlit("price_usd");
    reveal_strlit("refinance");
    reveal_strlit("terms");
    reveal_strlit("thumbnail");
    reveal_strlit("timestamp");
    reveal_strlit("to");
    reveal_strlit("to_label");
    reveal_strlit("tx_hash");
    reveal_strlit("tx_type");
    reveal_strlit("wallet");
    reveal_strlit("wallet_label");
    assert("action"@.len() == 6);
    assert("block"@.len() == 5);
    assert("chain"@.len() == 5);
    assert("currency_address"@.len() == 16);
    assert("currency_symbol"@.len() == 15);
    assert("dex"@.len() == 3);
    assert("from"@.len() == 4);
    assert("from_label"@.len() == 10);
    assert("image"@.len() == 5);
    assert("index"@.len() == 5);
    assert("interest"@.len() == 8);
    assert("nft_address"@.len() == 11);
    assert("nft_name"@.len() == 8);
    assert("nft_symbol"@.len() == 10);
    assert("nft_token_id"@.len() == 12);
    assert("platform"@.len() == 8);
    assert("price"@.len() == 5);
    assert("price_usd"@.len() == 9);
    assert("refinance"@.len() == 9);
    assert("terms"@.len() == 5);
    assert("thumbnail"@.len() == 9);
    assert("timestamp"@.len() == 9);
    assert("to"@.len() == 2);
    assert("to_label"@.len() == 8);
    assert("tx_hash"@.len() == 7);
    assert("tx_type"@.len() == 7);
    assert("wallet"@.len() == 6);
    assert("wallet_label"@.len() == 12);
    let ms = spec_encode_nft_lending(s);
    let mand = ms;
    assert(mand.len() == 27);
    assert(mand[0].0 == "wallet"@);
    assert(mand[1].0 == "wallet_label"@);
    assert(mand[2].0 == "tx_hash"@);
    assert(mand[3].0 == "tx_type"@);
    assert(mand[4].0 == "chain"@);
    assert(mand[5].0 == "index"@);
    assert(mand[6].0 == "timestamp"@);
    assert(mand[7].0 == "block"@);
    assert(mand[8].0 == "from"@);
    assert(mand[9].0 == "to"@);
    assert(mand[10].0 == "from_label"@);
    assert(mand[11].0 == "to_label"@);
    assert(mand[12].0 == "thumbnail"@);
    assert(mand[13].0 == "image"@);
    assert(mand[14].0 == "action"@);
    assert(mand[15].0 == "currency_address"@);
    assert(mand[16].0 == "currency_symbol"@);
    assert(mand[17].0 == "interest"@);
    assert(mand[18].0 == "nft_address"@);
    assert(mand[19].0 == "nft_name"@);
    assert(mand[20].0 == "nft_symbol"@);
    assert(mand[21].0 == "platform"@);
    assert(mand[22].0 == "nft_token_id"@);
    assert(mand[23].0 == "price"@);
    assert(mand[24].0 == "price_usd"@);
    assert(mand[25].0 == "terms"@);
    assert(mand[26].0 == "refinance"@);
    assert forall|j: int| 0 <= j < mand.len() implies mand[j].0 != "dex"@ by {
        if j == 0 {
        } else if j == 1 {
        } else if j == 2 {
        } else if j == 3 {
        } else if j == 4 {
        } else if j == 5 {
        } else if j == 6 {
        } else if j == 7 {
        } else if j == 8 {
        } else if j == 9 {
        } else if j == 10 {
        } else if j == 11 {
        } else if j == 12 {
        } else if j == 13 {
        } else if j == 14 {
        } else if j == 15 {
        } else if j == 16 {
        } else if j == 17 {
        } else if j == 18 {
        } else if j == 19 {
        } else if j == 20 {
        } else if j == 21 {
        } else if j == 22 {
        } else if j == 23 {
        } else if j == 24 {
        } else if j == 25 {
        } else if j == 26 {
        } else {
        }
    }
    lemma_lookup_absent(mand, "dex"@);
    assert(spec_decode_swap(ms) is None);
}

/// An encoded `nft_lending` record lacks `dex`, which the `lp` shape needs.
#[verifier::spinoff_prover]
proof fn lemma_nft_lending_not_lp(s: NftLendingV)
    ensures
        spec_decode_lp(spec_encode_nft_lending(s)) is None,
{
    reveal_strlit("action");
    reveal_strlit("block");
    reveal_strlit("chain");
    reveal_strlit("currency_address");
    reveal_strlit("currency_symbol");
    reveal_strlit("dex");
    reveal_strlit("from");
    reveal_strlit("from_label");
    reveal_strlit("image");
    reveal_strlit("index");
    reveal_strlit("interest");
    reveal_strlit("nft_address");
    reveal_strlit("nft_name");
    reveal_strlit("nft_symbol");
    reveal_strlit("nft_token_id");
    reveal_strlit("platform");
    reveal_strlit("price");
    reveal_strlit("price_usd");
    reveal_strlit("refinance");
    reveal_strlit("terms");
    reveal_strlit("thumbnail");
    reveal_strlit("timestamp");
    reveal_strlit("to");
    reveal_strlit("to_label");
    reveal_strlit("tx_hash");
    reveal_strlit("tx_type");
    reveal_strlit("wallet");
    reveal_strlit("wallet_label");
    assert("action"@.len() == 6);
    assert("block"@.len() == 5);
    assert("chain"@.len() == 5);
    assert("currency_address"@.len() == 16);
    assert("currency_symbol"@.len() == 15);
    assert("dex"@.len() == 3);
    assert("from"@.len() == 4);
    assert("from_label"@.len() == 10);
    assert("image"@.len() == 5);
    assert("index"@.len() == 5);
    assert("interest"@.len() == 8);
    assert("nft_address"@.len() == 11);
    assert("nft_name"@.len() == 8);
    assert("nft_symbol"@.len() == 10);
    assert("nft_token_id"@.len() == 12);
    assert("platform"@.len() == 8);
    assert("price"@.len() == 5);
    assert("price_usd"@.len() == 9);
    assert("refinance"@.len() == 9);
    assert("terms"@.len() == 5);
    assert("thumbnail"@.len() == 9);
    assert("timestamp"@.len() == 9);
    assert("to"@.len() == 2);
    assert("to_label"@.len() == 8);
    assert("tx_hash"@.len() == 7);
    assert("tx_type"@.len() == 7);
    assert("wallet"@.len() == 6);
    assert("wallet_label"@.len() == 12);
    let ms = spec_encode_nft_lending(s);
    let mand = ms;
    assert(mand.len() == 27);
    assert(mand[0].0 == "wallet"@);
    assert(mand[1].0 == "wallet_label"@);
    assert(mand[2].0 == "tx_hash"@);
    assert(mand[3].0 == "tx_type"@);
    assert(mand[4].0 == "chain"@);
    assert(mand[5].0 == "index"@);
    assert(mand[6].0 == "timestamp"@);
    assert(mand[7].0 == "block"@);
    assert(mand[8].0 == "from"@);
    assert(mand[9].0 == "to"@);
    assert(mand[10].0 == "from_label"@);
    assert(mand[11].0 == "to_label"@);
    assert(mand[12].0 == "thumbnail"@);
    assert(mand[13].0 == "image"@);
    assert(mand[14].0 == "action"@);
    assert(mand[15].0 == "currency_address"@);
    assert(mand[16].0 == "currency_symbol"@);
    assert(mand[17].0 == "interest"@);
    assert(mand[18].0 == "nft_address"@);
    assert(mand[19].0 == "nft_name"@);
    assert(mand[20].0 == "nft_symbol"@);
    assert(mand[21].0 == "platform"@);
    assert(mand[22].0 == "nft_token_id"@);
    assert(mand[23].0 == "price"@);
    assert(mand[24].0 == "price_usd"@);
    assert(mand[25].0 == "terms"@);
    assert(mand[26].0 == "refinance"@);
    assert forall|j: int| 0 <= j < mand.len() implies mand[j].0 != "dex"@ by {
        if j == 0 {
        } else if j == 1 {
        } else if j == 2 {
        } else if j == 3 {
        } else if j == 4 {
        } else if j == 5 {
        } else if j == 6 {
        } else if j == 7 {
        } else if j == 8 {
        } else if j == 9 {
        } else if j == 10 {
        } else if j == 11 {
        } else if j == 12 {
        } else if j == 13 {
        } else if j == 14 {
        } else if j == 15 {
        } else if j == 16 {
        } else if j == 17 {
        } else if j == 18 {
        } else if j == 19 {
        } else if j == 20 {
        } else if j == 21 {
        } else if j == 22 {
        } else if j == 23 {
        } else if j == 24 {
        } else if j == 25 {
        } else if j == 26 {
        } else {
        }
    }
    lemma_lookup_absent(mand, "dex"@);
    assert(spec_decode_lp(ms) is None);
}

/// An encoded `nft_lending` record lacks `amount_usd`, which the `transfer` shape needs.
#[verifier::spinoff_prover]
proof fn lemma_nft_lending_not_transfer(s: NftLendingV)
    ensures
        spec_decode_transfer(spec_encode_nft_lending(s)) is None,
{
    reveal_strlit("action");
    reveal_strlit("amount_usd");
    reveal_strlit("block");
    reveal_strlit("chain");
    reveal_strlit("currency_address");
    reveal_strlit("currency_symbol");
    reveal_strlit("from");
    reveal_strlit("from_label");
    reveal_strlit("image");
    reveal_strlit("index");
    reveal_strlit("interest");
    reveal_strlit("nft_address");
    reveal_strlit("nft_name");
    reveal_strlit("nft_symbol");
    reveal_strlit("nft_token_id");
    reveal_strlit("platform");
    reveal_strlit("price");
    reveal_strlit("price_usd");
    reveal_strlit("refinance");
    reveal_strlit("terms");
    reveal_strlit("thumbnail");
    reveal_strlit("timestamp");
    reveal_strlit("to");
    reveal_strlit("to_label");
    reveal_strlit("tx_hash");
    reveal_strlit("tx_type");
    reveal_strlit("wallet");
    reveal_strlit("wallet_label");
    assert("action"@.len() == 6);
    assert("amount_usd"@.len() == 10);
    assert("block"@.len() == 5);
    assert("chain"@.len() == 5);
    assert("currency_address"@.len() == 16);
    assert("currency_symbol"@.len() == 15);
    assert("from"@.len() == 4);
    assert("from_label"@.len() == 10);
    assert("image"@.len() == 5);
    assert("index"@.len() == 5);
    assert("interest"@.len() == 8);
    assert("nft_address"@.len() == 11);
    assert("nft_name"@.len() == 8);
    assert("nft_symbol"@.len() == 10);
    assert("nft_token_id"@.len() == 12);
    assert("platform"@.len() == 8);
    assert("price"@.len() == 5);
    assert("price_usd"@.len() == 9);
    assert("refinance"@.len() == 9);
    assert("terms"@.len() == 5);
    assert("thumbnail"@.len() == 9);
    assert("timestamp"@.len() == 9);
    assert("to"@.len() == 2);
    assert("to_label"@.len() == 8);
    assert("tx_hash"@.len() == 7);
    assert("tx_type"@.len() == 7);
    assert("wallet"@.len() == 6);
    assert("wallet_label"@.len() == 12);
    assert("amount_usd"@[0] == 'a');
    assert("from_label"@[0] == 'f');
    assert("nft_symbol"@[0] == 'n');
    let ms = spec_encode_nft_lending(s);
    let mand = ms;
    assert(mand.len() == 27);
    assert(mand[0].0 == "wallet"@);
    assert(mand[1].0 == "wallet_label"@);
    assert(mand[2].0 == "tx_hash"@);
    assert(mand[3].0 == "tx_type"@);
    assert(mand[4].0 == "chain"@);
    assert(mand[5].0 == "index"@);
    assert(mand[6].0 == "timestamp"@);
    assert(mand[7].0 == "block"@);
    assert(mand[8].0 == "from"@);
    assert(mand[9].0 == "to"@);
    assert(mand[10].0 == "from_label"@);
    assert(mand[11].0 == "to_label"@);
    assert(mand[12].0 == "thumbnail"@);
    assert(mand[13].0 == "image"@);
    assert(mand[14].0 == "action"@);
    assert(mand[15].0 == "currency_address"@);
    assert(mand[16].0 == "currency_symbol"@);
    assert(mand[17].0 == "interest"@);
    assert(mand[18].0 == "nft_address"@);
    assert(mand[19].0 == "nft_name"@);
    assert(mand[20].0 == "nft_symbol"@);
    assert(mand[21].0 == "platform"@);
    assert(mand[22].0 == "nft_token_id"@);
    assert(mand[23].0 == "price"@);
    assert(mand[24].0 == "price_usd"@);
    assert(mand[25].0 == "terms"@);
    assert(mand[26].0 == "refinance"@);
    assert forall|j: int| 0 <= j < mand.len() implies mand[j].0 != "amount_usd"@ by {
        if j == 0 {
        } else if j == 1 {
        } else if j == 2 {
        } else if j == 3 {
        } else if j == 4 {
        } else if j == 5 {
        } else if j == 6 {
        } else if j == 7 {
        } else if j == 8 {
        } else if j == 9 {
        } else if j == 10 {
        } else if j == 11 {
        } else if j == 12 {
        } else if j == 13 {
        } else if j == 14 {
        } else if j == 15 {
        } else if j == 16 {
        } else if j == 17 {
        } else if j == 18 {
        } else if j == 19 {
        } else if j == 20 {
        } else if j == 21 {
        } else if j == 22 {
        } else if j == 23 {
        } else if j == 24 {
        } else if j == 25 {
        } else if j == 26 {
        } else {
        }
    }
    lemma_lookup_absent(mand, "amount_usd"@);
    assert(spec_decode_transfer(ms) is None);
}

/// An encoded `nft_lending` record lacks `dex`, which the `lending` shape needs.
#[verifier::spinoff_prover]
proof fn lemma_nft_lending_not_lending(s: NftLendingV)
    ensures
        spec_decode_lending(spec_encode_nft_lending(s)) is None,
{
    reveal_strlit("action");
    reveal_strlit("block");
    reveal_strlit("chain");
    reveal_strlit("currency_address");
    reveal_strlit("currency_symbol");
    reveal_strlit("dex");
    reveal_strlit("from");
    reveal_strlit("from_label");
    reveal_strlit("image");
    reveal_strlit("index");
    reveal_strlit("interest");
    reveal_strlit("nft_address");
    reveal_strlit("nft_name");
    reveal_strlit("nft_symbol");
    reveal_strlit("nft_token_id");
    reveal_strlit("platform");
    reveal_strlit("price");
    reveal_strlit("price_usd");
    reveal_strlit("refinance");
    reveal_strlit("terms");
    reveal_strlit("thumbnail");
    reveal_strlit("timestamp");
    reveal_strlit("to");
    reveal_strlit("to_label");
    reveal_strlit("tx_hash");
    reveal_strlit("tx_type");
    reveal_strlit("wallet");
    reveal_strlit("wallet_label");
    assert("action"@.len() == 6);
    assert("block"@.len() == 5);
    assert("chain"@.len() == 5);
    assert("currency_address"@.len() == 16);
    assert("currency_symbol"@.len() == 15);
    assert("dex"@.len() == 3);
    assert("from"@.len() == 4);
    assert("from_label"@.len() == 10);
    assert("image"@.len() == 5);
    assert("index"@.len() == 5);
    assert("interest"@.len() == 8);
    assert("nft_address"@.len() == 11);
    assert("nft_name"@.len() == 8);
    assert("nft_symbol"@.len() == 10);
    assert("nft_token_id"@.len() == 12);
    assert("platform"@.len() == 8);
    assert("price"@.len() == 5);
    assert("price_usd"@.len() == 9);
    assert("refinance"@.len() == 9);
    assert("terms"@.len() == 5);
    assert("thumbnail"@.len() == 9);
    assert("timestamp"@.len() == 9);
    assert("to"@.len() == 2);
    assert("to_label"@.len() == 8);
    assert("tx_hash"@.len() == 7);
    assert("tx_type"@.len() == 7);
    assert("wallet"@.len() == 6);
    assert("wallet_label"@.len() == 12);
    let ms = spec_encode_nft_lending(s);
    let mand = ms;
    assert(mand.len() == 27);
    assert(mand[0].0 == "wallet"@);
    assert(mand[1].0 == "wallet_label"@);
    assert(mand[2].0 == "tx_hash"@);
    assert(mand[3].0 == "tx_type"@);
    assert(mand[4].0 == "chain"@);
    assert(mand[5].0 == "index"@);
    assert(mand[6].0 == "timestamp"@);
    assert(mand[7].0 == "block"@);
    assert(mand[8].0 == "from"@);
    assert(mand[9].0 == "to"@);
    assert(mand[10].0 == "from_label"@);
    assert(mand[11].0 == "to_label"@);
    assert(mand[12].0 == "thumbnail"@);
    assert(mand[13].0 == "image"@);
    assert(mand[14].0 == "action"@);
    assert(mand[15].0 == "currency_address"@);
    assert(mand[16].0 == "currency_symbol"@);
    assert(mand[17].0 == "interest"@);
    assert(mand[18].0 == "nft_address"@);
    assert(mand[19].0 == "nft_name"@);
    assert(mand[20].0 == "nft_symbol"@);
    assert(mand[21].0 == "platform"@);
    assert(mand[22].0 == "nft_token_id"@);
    assert(mand[23].0 == "price"@);
    assert(mand[24].0 == "price_usd"@);
    assert(mand[25].0 == "terms"@);
    assert(mand[26].0 == "refinance"@);
    assert forall|j: int| 0 <= j < mand.len() implies mand[j].0 != "dex"@ by {
        if j == 0 {
        } else if j == 1 {
        } else if j == 2 {
        } else if j == 3 {
        } else if j == 4 {
        } else if j == 5 {
        } else if j == 6 {
        } else if j == 7 {
        } else if j == 8 {
        } else if j == 9 {
        } else if j == 10 {
        } else if j == 11 {
        } else if j == 12 {
        } else if j == 13 {
        } else if j == 14 {
        } else if j == 15 {
        } else if j == 16 {
        } else if j == 17 {
        } else if j == 18 {
        } else if j == 19 {
        } else if j == 20 {
        } else if j == 21 {
        } else if j == 22 {
        } else if j == 23 {
        } else if j == 24 {
        } else if j == 25 {
        } else if j == 26 {
        } else {
        }
    }
    lemma_lookup_absent(mand, "dex"@);
    assert(spec_decode_lending(ms) is None);
}

/// An encoded `nft_lending` record lacks `contract_type`, which the `nft_mint` shape needs.
#[verifier::spinoff_prover]
proof fn lemma_nft_lending_not_nft_mint(s: NftLendingV)
    ensures
        spec_decode_nft_mint(spec_encode_nft_lending(s)) is None,
{
    reveal_strlit("action");
    reveal_strlit("block");
    reveal_strlit("chain");
    reveal_strlit("contract_type");
    reveal_strlit("currency_address");
    reveal_strlit("currency_symbol");
    reveal_strlit("from");
    reveal_strlit("from_label");
    reveal_strlit("image");
    reveal_strlit("index");
    reveal_strlit("interest");
    reveal_strlit("nft_address");
    reveal_strlit("nft_name");
    reveal_strlit("nft_symbol");
    reveal_strlit("nft_token_id");
    reveal_strlit("platform");
    reveal_strlit("price");
    reveal_strlit("price_usd");
    reveal_strlit("refinance");
    reveal_strlit("terms");
    reveal_strlit("thumbnail");
    reveal_strlit("timestamp");
    reveal_strlit("to");
    reveal_strlit("to_label");
    reveal_strlit("tx_hash");
    reveal_strlit("tx_type");
    reveal_strlit("wallet");
    reveal_strlit("wallet_label");
    assert("action"@.len() == 6);
    assert("block"@.len() == 5);
    assert("chain"@.len() == 5);
    assert("contract_type"@.len() == 13);
    assert("currency_address"@.len() == 16);
    assert("currency_symbol"@.len() == 15);
    assert("from"@.len() == 4);
    assert("from_label"@.len() == 10);
    assert("image"@.len() == 5);
    assert("index"@.len() == 5);
    assert("interest"@.len() == 8);
    assert("nft_address"@.len() == 11);
    assert("nft_name"@.len() == 8);
    assert("nft_symbol"@.len() == 10);
    assert("nft_token_id"@.len() == 12);
    assert("platform"@.len() == 8);
    assert("price"@.len() == 5);
    assert("price_usd"@.len() == 9);
    assert("refinance"@.len() == 9);
    assert("terms"@.len() == 5);
    assert("thumbnail"@.len() == 9);
    assert("timestamp"@.len() == 9);
    assert("to"@.len() == 2);
    assert("to_label"@.len() == 8);
    assert("tx_hash"@.len() == 7);
    assert("tx_type"@.len() == 7);
    assert("wallet"@.len() == 6);
    assert("wallet_label"@.len() == 12);
    let ms = spec_encode_nft_lending(s);
    let mand = ms;
    assert(mand.len() == 27);
    assert(mand[0].0 == "wallet"@);
    assert(mand[1].0 == "wallet_label"@);
    assert(mand[2].0 == "tx_hash"@);
    assert(mand[3].0 == "tx_type"@);
    assert(mand[4].0 == "chain"@);
    assert(mand[5].0 == "index"@);
    assert(mand[6].0 == "timestamp"@);
    assert(mand[7].0 == "block"@);
    assert(mand[8].0 == "from"@);
    assert(mand[9].0 == "to"@);
    assert(mand[10].0 == "from_label"@);
    assert(mand[11].0 == "to_label"@);
    assert(mand[12].0 == "thumbnail"@);
    assert(mand[13].0 == "image"@);
    assert(mand[14].0 == "action"@);
    assert(mand[15].0 == "currency_address"@);
    assert(mand[16].0 == "currency_symbol"@);
    assert(mand[17].0 == "interest"@);
    assert(mand[18].0 == "nft_address"@);
    assert(mand[19].0 == "nft_name"@);
    assert(mand[20].0 == "nft_symbol"@);
    assert(mand[21].0 == "platform"@);
    assert(mand[22].0 == "nft_token_id"@);
    assert(mand[23].0 == "price"@);
    assert(mand[24].0 == "price_usd"@);
    assert(mand[25].0 == "terms"@);
    assert(mand[26].0 == "refinance"@);
    assert forall|j: int| 0 <= j < mand.len() implies mand[j].0 != "contract_type"@ by {
        if j == 0 {
        } else if j == 1 {
        } else if j == 2 {
        } else if j == 3 {
        } else if j == 4 {
        } else if j == 5 {
        } else if j == 6 {
        } else if j == 7 {
        } else if j == 8 {
        } else if j == 9 {
        } else if j == 10 {
        } else if j == 11 {
        } else if j == 12 {
        } else if j == 13 {
        } else if j == 14 {
        } else if j == 15 {
        } else if j == 16 {
        } else if j == 17 {
        } else if j == 18 {
        } else if j == 19 {
        } else if j == 20 {
        } else if j == 21 {
        } else if j == 22 {
        } else if j == 23 {
        } else if j == 24 {
        } else if j == 25 {
        } else if j == 26 {
        } else {
        }
    }
    lemma_lookup_absent(mand, "contract_type"@);
    assert(spec_decode_nft_mint(ms) is None);
}

/// An encoded `nft_lending` record lacks `first_interaction`, which the `nft_trade` shape needs.
#[verifier::spinoff_prover]
proof fn lemma_nft_lending_not_nft_trade(s: NftLendingV)
    ensures
        spec_decode_nft_trade(spec_encode_nft_lending(s)) is None,
{
    reveal_strlit("action");
    reveal_strlit("block");
    reveal_strlit("chain");
    reveal_strlit("currency_address");
    reveal_strlit("currency_symbol");
    reveal_strlit("first_interaction");
    reveal_strlit("from");
    reveal_strlit("from_label");
    reveal_strlit("image");
    reveal_strlit("index");
    reveal_strlit("interest");
    reveal_strlit("nft_address");
    reveal_strlit("nft_name");
    reveal_strlit("nft_symbol");
    reveal_strlit("nft_token_id");
    reveal_strlit("platform");
    reveal_strlit("price");
    reveal_strlit("price_usd");
    reveal_strlit("refinance");
    reveal_strlit("terms");
    reveal_strlit("thumbnail");
    reveal_strlit("timestamp");
    reveal_strlit("to");
    reveal_strlit("to_label");
    reveal_strlit("tx_hash");
    reveal_strlit("tx_type");
    reveal_strlit("wallet");
    reveal_strlit("wallet_label");
    assert("action"@.len() == 6);
    assert("block"@.len() == 5);
    assert("chain"@.len() == 5);
    assert("currency_address"@.len() == 16);
    assert("currency_symbol"@.len() == 15);
    assert("first_interaction"@.len() == 17);
    assert("from"@.len() == 4);
    assert("from_label"@.len() == 10);
    assert("image"@.len() == 5);
    assert("index"@.len() == 5);
    assert("interest"@.len() == 8);
    assert("nft_address"@.len() == 11);
    assert("nft_name"@.len() == 8);
    assert("nft_symbol"@.len() == 10);
    assert("nft_token_id"@.len() == 12);
    assert("platform"@.len() == 8);
    assert("price"@.len() == 5);
    assert("price_usd"@.len() == 9);
    assert("refinance"@.len() == 9);
    assert("terms"@.len() == 5);
    assert("thumbnail"@.len() == 9);
    assert("timestamp"@.len() == 9);
    assert("to"@.len() == 2);
    assert("to_label"@.len() == 8);
    assert("tx_hash"@.len() == 7);
    assert("tx_type"@.len() == 7);
    assert("wallet"@.len() == 6);
    assert("wallet_label"@.len() == 12);
    let ms = spec_encode_nft_lending(s);
    let mand = ms;
    assert(mand.len() == 27);
    assert(mand[0].0 == "wallet"@);
    assert(mand[1].0 == "wallet_label"@);
    assert(mand[2].0 == "tx_hash"@);
    assert(mand[3].0 == "tx_type"@);
    assert(mand[4].0 == "chain"@);
    assert(mand[5].0 == "index"@);
    assert(mand[6].0 == "timestamp"@);
    assert(mand[7].0 == "block"@);
    assert(mand[8].0 == "from"@);
    assert(mand[9].0 == "to"@);
    assert(mand[10].0 == "from_label"@);
    assert(mand[11].0 == "to_label"@);
    assert(mand[12].0 == "thumbnail"@);
    assert(mand[13].0 == "image"@);
    assert(mand[14].0 == "action"@);
    assert(mand[15].0 == "currency_address"@);
    assert(mand[16].0 == "currency_symbol"@);
    assert(mand[17].0 == "interest"@);
    assert(mand[18].0 == "nft_address"@);
    assert(mand[19].0 == "nft_name"@);
    assert(mand[20].0 == "nft_symbol"@);
    assert(mand[21].0 == "platform"@);
    assert(mand[22].0 == "nft_token_id"@);
    assert(mand[23].0 == "price"@);
    assert(mand[24].0 == "price_usd"@);
    assert(mand[25].0 == "terms"@);
    assert(mand[26].0 == "refinance"@);
    assert forall|j: int| 0 <= j < mand.len() implies mand[j].0 != "first_interaction"@ by {
        if j == 0 {
        } else if j == 1 {
        } else if j == 2 {
        } else if j == 3 {
        } else if j == 4 {
        } else if j == 5 {
        } else if j == 6 {
        } else if j == 7 {
        } else if j == 8 {
        } else if j == 9 {
        } else if j == 10 {
        } else if j == 11 {
        } else if j == 12 {
        } else if j == 13 {
        } else if j == 14 {
        } else if j == 15 {
        } else if j == 16 {
        } else if j == 17 {
        } else if j == 18 {
        } else if j == 19 {
        } else if j == 20 {
        } else if j == 21 {
        } else if j == 22 {
        } else if j == 23 {
        } else if j == 24 {
        } else if j == 25 {
        } else if j == 26 {
        } else {
        }
    }
    lemma_lookup_absent(mand, "first_interaction"@);
    assert(spec_decode_nft_trade(ms) is None);
}

/// An encoded `nft_lending` record lacks `contract_type`, which the `nft_transfer` shape needs.
#[verifier::spinoff_prover]
proof fn lemma_nft_lending_not_nft_transfer(s: NftLendingV)
    ensures
        spec_decode_nft_transfer(spec_encode_nft_lending(s)) is None,
{
    reveal_strlit("action");
    reveal_strlit("block");
    reveal_strlit("chain");
    reveal_strlit("contract_type");
    reveal_strlit("currency_address");
    reveal_strlit("currency_symbol");
    reveal_strlit("from");
    reveal_strlit("from_label");
    reveal_strlit("image");
    reveal_strlit("index");
    reveal_strlit("interest");
    reveal_strlit("nft_address");
    reveal_strlit("nft_name");
    reveal_strlit("nft_symbol");
    reveal_strlit("nft_token_id");
    reveal_strlit("platform");
    reveal_strlit("price");
    reveal_strlit("price_usd");
    reveal_strlit("refinance");
    reveal_strlit("terms");
    reveal_strlit("thumbnail");
    reveal_strlit("timestamp");
    reveal_strlit("to");
    reveal_strlit("to_label");
    reveal_strlit("tx_hash");
    reveal_strlit("tx_type");
    reveal_strlit("wallet");
    reveal_strlit("wallet_label");
    assert("action"@.len() == 6);
    assert("block"@.len() == 5);
    assert("chain"@.len() == 5);
    assert("contract_type"@.len() == 13);
    assert("currency_address"@.len() == 16);
    assert("currency_symbol"@.len() == 15);
    assert("from"@.len() == 4);
    assert("from_label"@.len() == 10);
    assert("image"@.len() == 5);
    assert("index"@.len() == 5);
    assert("interest"@.len() == 8);
    assert("nft_address"@.len() == 11);
    assert("nft_name"@.len() == 8);
    assert("nft_symbol"@.len() == 10);
    assert("nft_token_id"@.len() == 12);
    assert("platform"@.len() == 8);
    assert("price"@.len() == 5);
    assert("price_usd"@.len() == 9);
    assert("refinance"@.len() == 9);
    assert("terms"@.len() == 5);
    assert("thumbnail"@.len() == 9);
    assert("timestamp"@.len() == 9);
    assert("to"@.len() == 2);
    assert("to_label"@.len() == 8);
    assert("tx_hash"@.len() == 7);
    assert("tx_type"@.len() == 7);
    assert("wallet"@.len() == 6);
    assert("wallet_label"@.len() == 12);
    let ms = spec_encode_nft_lending(s);
    let mand = ms;
    assert(mand.len() == 27);
    assert(mand[0].0 == "wallet"@);
    assert(mand[1].0 == "wallet_label"@);
    assert(mand[2].0 == "tx_hash"@);
    assert(mand[3].0 == "tx_type"@);
    assert(mand[4].0 == "chain"@);
    assert(mand[5].0 == "index"@);
    assert(mand[6].0 == "timestamp"@);
    assert(mand[7].0 == "block"@);
    assert(mand[8].0 == "from"@);
    assert(mand[9].0 == "to"@);
    assert(mand[10].0 == "from_label"@);
    assert(mand[11].0 == "to_label"@);
    assert(mand[12].0 == "thumbnail"@);
    assert(mand[13].0 == "image"@);
    assert(mand[14].0 == "action"@);
    assert(mand[15].0 == "currency_address"@);
    assert(mand[16].0 == "currency_symbol"@);
    assert(mand[17].0 == "interest"@);
    assert(mand[18].0 == "nft_address"@);
    assert(mand[19].0 == "nft_name"@);
    assert(mand[20].0 == "nft_symbol"@);
    assert(mand[21].0 == "platform"@);
    assert(mand[22].0 == "nft_token_id"@);
    assert(mand[23].0 == "price"@);
    assert(mand[24].0 == "price_usd"@);
    assert(mand[25].0 == "terms"@);
    assert(mand[26].0 == "refinance"@);
    assert forall|j: int| 0 <= j < mand.len() implies mand[j].0 != "contract_type"@ by {
        if j == 0 {
        } else if j == 1 {
        } else if j == 2 {
        } else if j == 3 {
        } else if j == 4 {
        } else if j == 5 {
        } else if j == 6 {
        } else if j == 7 {
        } else if j == 8 {
        } else if j == 9 {
        } else if j == 10 {
        } else if j == 11 {
        } else if j == 12 {
        } else if j == 13 {
        } else if j == 14 {
        } else if j == 15 {
        } else if j == 16 {
        } else if j == 17 {
        } else if j == 18 {
        } else if j == 19 {
        } else if j == 20 {
        } else if j == 21 {
        } else if j == 22 {
        } else if j == 23 {
        } else if j == 24 {
        } else if j == 25 {
        } else if j == 26 {
        } else {
        }
    }
    lemma_lookup_absent(mand, "contract_type"@);
    assert(spec_decode_nft_transfer(ms) is None);
}

/// Decoding an encoded `nft_lending` record yields it back.
#[verifier::rlimit(50)]
#[verifier::spinoff_prover]
pub proof fn lemma_nft_lending_round_trip(s: NftLendingV)
    ensures
        spec_decode_item(spec_encode_item(ItemV::NftLending(s))) == Some(ItemV::NftLending(s)),
{
    reveal_strlit("action");
    reveal_strlit("block");
    reveal_strlit("chain");
    reveal_strlit("currency_address");
    reveal_strlit("currency_symbol");
    reveal_strlit("from");
    reveal_strlit("from_label");
    reveal_strlit("image");
    reveal_strlit("index");
    reveal_strlit("interest");
    reveal_strlit("nft_address");
    reveal_strlit("nft_name");
    reveal_strlit("nft_symbol");
    reveal_strlit("nft_token_id");
    reveal_strlit("platform");
    reveal_strlit("price");
    reveal_strlit("price_usd");
    reveal_strlit("refinance");
    reveal_strlit("terms");
    reveal_strlit("thumbnail");
    reveal_strlit("timestamp");
    reveal_strlit("to");
    reveal_strlit("to_label");
    reveal_strlit("tx_hash");
    reveal_strlit("tx_type");
    reveal_strlit("wallet");
    reveal_strlit("wallet_label");
    assert("action"@.len() == 6);
    assert("block"@.len() == 5);
    assert("chain"@.len() == 5);
    assert("currency_address"@.len() == 16);
    assert("currency_symbol"@.len() == 15);
    assert("from"@.len() == 4);
    assert("from_label"@.len() == 10);
    assert("image"@.len() == 5);
    assert("index"@.len() == 5);
    assert("interest"@.len() == 8);
    assert("nft_address"@.len() == 11);
    assert("nft_name"@.len() == 8);
    assert("nft_symbol"@.len() == 10);
    assert("nft_token_id"@.len() == 12);
    assert("platform"@.len() == 8);
    assert("price"@.len() == 5);
    assert("price_usd"@.len() == 9);
    assert("refinance"@.len() == 9);
    assert("terms"@.len() == 5);
    assert("thumbnail"@.len() == 9);
    assert("timestamp"@.len() == 9);
    assert("to"@.len() == 2);
    assert("to_label"@.len() == 8);
    assert("tx_hash"@.len() == 7);
    assert("tx_type"@.len() == 7);
    assert("wallet"@.len() == 6);
    assert("wallet_label"@.len() == 12);
    assert("action"@[0] == 'a');
    assert("block"@[0] == 'b');
    assert("chain"@[0] == 'c');
    assert("from_label"@[0] == 'f');
    assert("image"@[0] == 'i');
    assert("image"@[1] == 'm');
    assert("index"@[0] == 'i');
    assert("index"@[1] == 'n');
    assert("interest"@[0] == 'i');
    assert("nft_name"@[0] == 'n');
    assert("nft_symbol"@[0] == 'n');
    assert("nft_token_id"@[0] == 'n');
    assert("platform"@[0] == 'p');
    assert("price"@[0] == 'p');
    assert("price_usd"@[0] == 'p');
    assert("refinance"@[0] == 'r');
    assert("terms"@[0] == 't');
    assert("thumbnail"@[0] == 't');
    assert("thumbnail"@[1] == 'h');
    assert("timestamp"@[0] == 't');
    assert("timestamp"@[1] == 'i');
    assert("to_label"@[0] == 't');
    assert("tx_hash"@[3] == 'h');
    assert("tx_type"@[3] == 't');
    assert("wallet"@[0] == 'w');
    assert("wallet_label"@[0] == 'w');
    let ms = spec_encode_nft_lending(s);
    let mand = ms;
    assert(mand.len() == 27);
    assert(mand[0].0 == "wallet"@);
    assert(mand[1].0 == "wallet_label"@);
    assert(mand[2].0 == "tx_hash"@);
    assert(mand[3].0 == "tx_type"@);
    assert(mand[4].0 == "chain"@);
    assert(mand[5].0 == "index"@);
    assert(mand[6].0 == "timestamp"@);
    assert(mand[7].0 == "block"@);
    assert(mand[8].0 == "from"@);
    assert(mand[9].0 == "to"@);
    assert(mand[10].0 == "from_label"@);
    assert(mand[11].0 == "to_label"@);
    assert(mand[12].0 == "thumbnail"@);
    assert(mand[13].0 == "image"@);
    assert(mand[14].0 == "action"@);
    assert(mand[15].0 == "currency_address"@);
    assert(mand[16].0 == "currency_symbol"@);
    assert(mand[17].0 == "interest"@);
    assert(mand[18].0 == "nft_address"@);
    assert(mand[19].0 == "nft_name"@);
    assert(mand[20].0 == "nft_symbol"@);
    assert(mand[21].0 == "platform"@);
    assert(mand[22].0 == "nft_token_id"@);
    assert(mand[23].0 == "price"@);
    assert(mand[24].0 == "price_usd"@);
    assert(mand[25].0 == "terms"@);
    assert(mand[26].0 == "refinance"@);
    lemma_lookup_first(mand, 0);
    lemma_lookup_first(mand, 1);
    lemma_lookup_first(mand, 2);
    lemma_lookup_first(mand, 3);
    lemma_lookup_first(mand, 4);
    lemma_lookup_first(mand, 5);
    lemma_lookup_first(mand, 6);
    lemma_lookup_first(mand, 7);
    lemma_lookup_first(mand, 8);
    lemma_lookup_first(mand, 9);
    lemma_lookup_first(mand, 10);
    lemma_lookup_first(mand, 11);
    lemma_lookup_first(mand, 12);
    lemma_lookup_first(mand, 13);
    lemma_lookup_first(mand, 14);
    lemma_lookup_first(mand, 15);
    lemma_lookup_first(mand, 16);
    lemma_lookup_first(mand, 17);
    lemma_lookup_first(mand, 18);
    lemma_lookup_first(mand, 19);
    lemma_lookup_first(mand, 20);
    lemma_lookup_first(mand, 21);
    lemma_lookup_first(mand, 22);
    lemma_lookup_first(mand, 23);
    lemma_lookup_first(mand, 24);
    lemma_lookup_first(mand, 25);
    lemma_lookup_first(mand, 26);
    lemma_nft_lending_not_swap(s);
    lemma_nft_lending_not_lp(s);
    lemma_nft_lending_not_transfer(s);
    lemma_nft_lending_not_lending(s);
    lemma_nft_lending_not_nft_mint(s);
    lemma_nft_lending_not_nft_trade(s);
    lemma_nft_lending_not_nft_transfer(s);
    assert(spec_decode_nft_lending(ms) == Some(NftLendingV {
        wallet: s.wallet,
        wallet_label: s.wallet_label,
        tx_hash: s.tx_hash,
        tx_type: s.tx_type,
        chain: s.chain,
        index: s.index,
        timestamp: s.timestamp,
        block: s.block,
        from: s.from,
        to: s.to,
        from_label: s.from_label,
        to_label: s.to_label,
        thumbnail: s.thumbnail,
        image: s.image,
        action: s.action,
        currency_address: s.currency_address,
        currency_symbol: s.currency_symbol,
        interest: s.interest,
        nft_address: s.nft_address,
        nft_name: s.nft_name,
        nft_symbol: s.nft_symbol,
        platform: s.platform,
        nft_token_id: s.nft_token_id,
        price: s.price,
        price_usd: s.price_usd,
        terms: s.terms,
        refinance: s.refinance,
    }));
}

/// An encoded `bridge` record lacks `dex`, which the `swap` shape needs.
#[verifier::spinoff_prover]
proof fn lemma_bridge_not_swap(s: BridgeV)
    ensures
        spec_decode_swap(spec_encode_bridge(s)) is None,
{
    reveal_strlit("amount");
    reveal_strlit("amount_usd");
    reveal_strlit("block");
    reveal_strlit("chain");
    reveal_strlit("dex");
    reveal_strlit("from");
    reveal_strlit("from_chain");
    reveal_strlit("from_label");
    reveal_strlit("index");
    reveal_strlit("platform");
    reveal_strlit("price");
    reveal_strlit("timestamp");
    reveal_strlit("to");
    reveal_strlit("to_chain");
    reveal_strlit("to_label");
    reveal_strlit("token_address");
    reveal_strlit("token_icon_link");
    reveal_strlit("token_name");
    reveal_strlit("token_symbol");
    reveal_strlit("tx_hash");
    reveal_strlit("tx_type");
    reveal_strlit("type");
    reveal_strlit("wallet");
    reveal_strlit("wallet_label");
    assert("amount"@.len() == 6);
    assert("amount_usd"@.len() == 10);
    assert("block"@.len() == 5);
    assert("chain"@.len() == 5);
    assert("dex"@.len() == 3);
    assert("from"@.len() == 4);
    assert("from_chain"@.len() == 10);
    assert("from_label"@.len() == 10);
    assert("index"@.len() == 5);
    assert("platform"@.len() == 8);
    assert("price"@.len() == 5);
    assert("timestamp"@.len() == 9);
    assert("to"@.len() == 2);
    assert("to_chain"@.len() == 8);
    assert("to_label"@.len() == 8);
    assert("token_address"@.len() == 13);
    assert("token_icon_link"@.len() == 15);
    assert("token_name"@.len() == 10);
    assert("token_symbol"@.len() == 12);
    assert("tx_hash"@.len() == 7);
    assert("tx_type"@.len() == 7);
    assert("type"@.len() == 4);
    assert("wallet"@.len() == 6);
    assert("wallet_label"@.len() == 12);
    let ms = spec_encode_bridge(s);
    let mand = ms;
    assert(mand.len() == 23);
    assert(mand[0].0 == "wallet"@);
    assert(mand[1].0 == "wallet_label"@);
    assert(mand[2].0 == "tx_hash"@);
    assert(mand[3].0 == "tx_type"@);
    assert(mand[4].0 == "chain"@);
    assert(mand[5].0 == "index"@);
    assert(mand[6].0 == "timestamp"@);
    assert(mand[7].0 == "block"@);
    assert(mand[8].0 == "from"@);
    assert(mand[9].0 == "to"@);
    assert(mand[10].0 == "from_label"@);
    assert(mand[11].0 == "to_label"@);
    assert(mand[12].0 == "token_address"@);
    assert(mand[13].0 == "token_name"@);
    assert(mand[14].0 == "token_symbol"@);
    assert(mand[15].0 == "token_icon_link"@);
    assert(mand[16].0 == "amount"@);
    assert(mand[17].0 == "amount_usd"@);
    assert(mand[18].0 == "from_chain"@);
    assert(mand[19].0 == "to_chain"@);
    assert(mand[20].0 == "platform"@);
    assert(mand[21].0 == "price"@);
    assert(mand[22].0 == "type"@);
    assert forall|j: int| 0 <= j < mand.len() implies mand[j].0 != "dex"@ by {
        if j == 0 {
        } else if j == 1 {
        } else if j == 2 {
        } else if j == 3 {
        } else if j == 4 {
        } else if j == 5 {
        } else if j == 6 {
        } else if j == 7 {
        } else if j == 8 {
        } else if j == 9 {
        } else if j == 10 {
        } else if j == 11 {
        } else if j == 12 {
        } else if j == 13 {
        } else if j == 14 {
        } else if j == 15 {
        } else if j == 16 {
        } else if j == 17 {
        } else if j == 18 {
        } else if j == 19 {
        } else if j == 20 {
        } else if j == 21 {
        } else if j == 22 {
        } else {
        }
    }
    lemma_lookup_absent(mand, "dex"@);
    assert(spec_decode_swap(ms) is None);
}

/// An encoded `bridge` record lacks `dex`, which the `lp` shape needs.
#[verifier::spinoff_prover]
proof fn lemma_bridge_not_lp(s: BridgeV)
    ensures
        spec_decode_lp(spec_encode_bridge(s)) is None,
{
    reveal_strlit("amount");
    reveal_strlit("amount_usd");
    reveal_strlit("block");
    reveal_strlit("chain");
    reveal_strlit("dex");
    reveal_strlit("from");
    reveal_strlit("from_chain");
    reveal_strlit("from_label");
    reveal_strlit("index");
    reveal_strlit("platform");
    reveal_strlit("price");
    reveal_strlit("timestamp");
    reveal_strlit("to");
    reveal_strlit("to_chain");
    reveal_strlit("to_label");
    reveal_strlit("token_address");
    reveal_strlit("token_icon_link");
    reveal_strlit("token_name");
    reveal_strlit("token_symbol");
    reveal_strlit("tx_hash");
    reveal_strlit("tx_type");
    reveal_strlit("type");
    reveal_strlit("wallet");
    reveal_strlit("wallet_label");
    assert("amount"@.len() == 6);
    assert("amount_usd"@.len() == 10);
    assert("block"@.len() == 5);
    assert("chain"@.len() == 5);
    assert("dex"@.len() == 3);
    assert("from"@.len() == 4);
    assert("from_chain"@.len() == 10);
    assert("from_label"@.len() == 10);
    assert("index"@.len() == 5);
    assert("platform"@.len() == 8);
    assert("price"@.len() == 5);
    assert("timestamp"@.len() == 9);
    assert("to"@.len() == 2);
    assert("to_chain"@.len() == 8);
    assert("to_label"@.len() == 8);
    assert("token_address"@.len() == 13);
    assert("token_icon_link"@.len() == 15);
    assert("token_name"@.len() == 10);
    assert("token_symbol"@.len() == 12);
    assert("tx_hash"@.len() == 7);
    assert("tx_type"@.len() == 7);
    assert("type"@.len() == 4);
    assert("wallet"@.len() == 6);
    assert("wallet_label"@.len() == 12);
    let ms = spec_encode_bridge(s);
    let mand = ms;
    assert(mand.len() == 23);
    assert(mand[0].0 == "wallet"@);
    assert(mand[1].0 == "wallet_label"@);
    assert(mand[2].0 == "tx_hash"@);
    assert(mand[3].0 == "tx_type"@);
    assert(mand[4].0 == "chain"@);
    assert(mand[5].0 == "index"@);
    assert(mand[6].0 == "timestamp"@);
    assert(mand[7].0 == "block"@);
    assert(mand[8].0 == "from"@);
    assert(mand[9].0 == "to"@);
    assert(mand[10].0 == "from_label"@);
    assert(mand[11].0 == "to_label"@);
    assert(mand[12].0 == "token_address"@);
    assert(mand[13].0 == "token_name"@);
    assert(mand[14].0 == "token_symbol"@);
    assert(mand[15].0 == "token_icon_link"@);
    assert(mand[16].0 == "amount"@);
    assert(mand[17].0 == "amount_usd"@);
    assert(mand[18].0 == "from_chain"@);
    assert(mand[19].0 == "to_chain"@);
    assert(mand[20].0 == "platform"@);
    assert(mand[21].0 == "price"@);
    assert(mand[22].0 == "type"@);
    assert forall|j: int| 0 <= j < mand.len() implies mand[j].0 != "dex"@ by {
        if j == 0 {
        } else if j == 1 {
        } else if j == 2 {
        } else if j == 3 {
        } else if j == 4 {
        } else if j == 5 {
        } else if j == 6 {
        } else if j == 7 {
        } else if j == 8 {
        } else if j == 9 {
        } else if j == 10 {
        } else if j == 11 {
        } else if j == 12 {
        } else if j == 13 {
        } else if j == 14 {
        } else if j == 15 {
        } else if j == 16 {
        } else if j == 17 {
        } else if j == 18 {
        } else if j == 19 {
        } else if j == 20 {
        } else if j == 21 {
        } else if j == 22 {
        } else {
        }
    }
    lemma_lookup_absent(mand, "dex"@);
    assert(spec_decode_lp(ms) is None);
}

/// An encoded `bridge` record lacks `contract_address`, which the `transfer` shape needs.
#[verifier::spinoff_prover]
proof fn lemma_bridge_not_transfer(s: BridgeV)
    ensures
        spec_decode_transfer(spec_encode_bridge(s)) is None,
{
    reveal_strlit("amount");
    reveal_strlit("amount_usd");
    reveal_strlit("block");
    reveal_strlit("chain");
    reveal_strlit("contract_address");
    reveal_strlit("from");
    reveal_strlit("from_chain");
    reveal_strlit("from_label");
    reveal_strlit("index");
    reveal_strlit("platform");
    reveal_strlit("price");
    reveal_strlit("timestamp");
    reveal_strlit("to");
    reveal_strlit("to_chain");
    reveal_strlit("to_label");
    reveal_strlit("token_address");
    reveal_strlit("token_icon_link");
    reveal_strlit("token_name");
    reveal_strlit("token_symbol");
    reveal_strlit("tx_hash");
    reveal_strlit("tx_type");
    reveal_strlit("type");
    reveal_strlit("wallet");
    reveal_strlit("wallet_label");
    assert("amount"@.len() == 6);
    assert("amount_usd"@.len() == 10);
    assert("block"@.len() == 5);
    assert("chain"@.len() == 5);
    assert("contract_address"@.len() == 16);
    assert("from"@.len() == 4);
    assert("from_chain"@.len() == 10);
    assert("from_label"@.len() == 10);
    assert("index"@.len() == 5);
    assert("platform"@.len() == 8);
    assert("price"@.len() == 5);
    assert("timestamp"@.len() == 9);
    assert("to"@.len() == 2);
    assert("to_chain"@.len() == 8);
    assert("to_label"@.len() == 8);
    assert("token_address"@.len() == 13);
    assert("token_icon_link"@.len() == 15);
    assert("token_name"@.len() == 10);
    assert("token_symbol"@.len() == 12);
    assert("tx_hash"@.len() == 7);
    assert("tx_type"@.len() == 7);
    assert("type"@.len() == 4);
    assert("wallet"@.len() == 6);
    assert("wallet_label"@.len() == 12);
    let ms = spec_encode_bridge(s);
    let mand = ms;
    assert(mand.len() == 23);
    assert(mand[0].0 == "wallet"@);
    assert(mand[1].0 == "wallet_label"@);
    assert(mand[2].0 == "tx_hash"@);
    assert(mand[3].0 == "tx_type"@);
    assert(mand[4].0 == "chain"@);
    assert(mand[5].0 == "index"@);
    assert(mand[6].0 == "timestamp"@);
    assert(mand[7].0 == "block"@);
    assert(mand[8].0 == "from"@);
    assert(mand[9].0 == "to"@);
    assert(mand[10].0 == "from_label"@);
    assert(mand[11].0 == "to_label"@);
    assert(mand[12].0 == "token_address"@);
    assert(mand[13].0 == "token_name"@);
    assert(mand[14].0 == "token_symbol"@);
    assert(mand[15].0 == "token_icon_link"@);
    assert(mand[16].0 == "amount"@);
    assert(mand[17].0 == "amount_usd"@);
    assert(mand[18].0 == "from_chain"@);
    assert(mand[19].0 == "to_chain"@);
    assert(mand[20].0 == "platform"@);
    assert(mand[21].0 == "price"@);
    assert(mand[22].0 == "type"@);
    assert forall|j: int| 0 <= j < mand.len() implies mand[j].0 != "contract_address"@ by {
        if j == 0 {
        } else if j == 1 {
        } else if j == 2 {
        } else if j == 3 {
        } else if j == 4 {
        } else if j == 5 {
        } else if j == 6 {
        } else if j == 7 {
        } else if j == 8 {
        } else if j == 9 {
        } else if j == 10 {
        } else if j == 11 {
        } else if j == 12 {
        } else if j == 13 {
        } else if j == 14 {
        } else if j == 15 {
        } else if j == 16 {
        } else if j == 17 {
        } else if j == 18 {
        } else if j == 19 {
        } else if j == 20 {
        } else if j == 21 {
        } else if j == 22 {
        } else {
        }
    }
    lemma_lookup_absent(mand, "contract_address"@);
    assert(spec_decode_transfer(ms) is None);
}

/// An encoded `bridge` record lacks `dex`, which the `lending` shape needs.
#[verifier::spinoff_prover]
proof fn lemma_bridge_not_lending(s: BridgeV)
    ensures
        spec_decode_lending(spec_encode_bridge(s)) is None,
{
    reveal_strlit("amount");
    reveal_strlit("amount_usd");
    reveal_strlit("block");
    reveal_strlit("chain");
    reveal_strlit("dex");
    reveal_strlit("from");
    reveal_strlit("from_chain");
    reveal_strlit("from_label");
    reveal_strlit("index");
    reveal_strlit("platform");
    reveal_strlit("price");
    reveal_strlit("timestamp");
    reveal_strlit("to");
    reveal_strlit("to_chain");
    reveal_strlit("to_label");
    reveal_strlit("token_address");
    reveal_strlit("token_icon_link");
    reveal_strlit("token_name");
    reveal_strlit("token_symbol");
    reveal_strlit("tx_hash");
    reveal_strlit("tx_type");
    reveal_strlit("type");
    reveal_strlit("wallet");
    reveal_strlit("wallet_label");
    assert("amount"@.len() == 6);
    assert("amount_usd"@.len() == 10);
    assert("block"@.len() == 5);
    assert("chain"@.len() == 5);
    assert("dex"@.len() == 3);
    assert("from"@.len() == 4);
    assert("from_chain"@.len() == 10);
    assert("from_label"@.len() == 10);
    assert("index"@.len() == 5);
    assert("platform"@.len() == 8);
    assert("price"@.len() == 5);
    assert("timestamp"@.len() == 9);
    assert("to"@.len() == 2);
    assert("to_chain"@.len() == 8);
    assert("to_label"@.len() == 8);
    assert("token_address"@.len() == 13);
    assert("token_icon_link"@.len() == 15);
    assert("token_name"@.len() == 10);
    assert("token_symbol"@.len() == 12);
    assert("tx_hash"@.len() == 7);
    assert("tx_type"@.len() == 7);
    assert("type"@.len() == 4);
    assert("wallet"@.len() == 6);
    assert("wallet_label"@.len() == 12);
    let ms = spec_encode_bridge(s);
    let mand = ms;
    assert(mand.len() == 23);
    assert(mand[0].0 == "wallet"@);
    assert(mand[1].0 == "wallet_label"@);
    assert(mand[2].0 == "tx_hash"@);
    assert(mand[3].0 == "tx_type"@);
    assert(mand[4].0 == "chain"@);
    assert(mand[5].0 == "index"@);
    assert(mand[6].0 == "timestamp"@);
    assert(mand[7].0 == "block"@);
    assert(mand[8].0 == "from"@);
    assert(mand[9].0 == "to"@);
    assert(mand[10].0 == "from_label"@);
    assert(mand[11].0 == "to_label"@);
    assert(mand[12].0 == "token_address"@);
    assert(mand[13].0 == "token_name"@);
    assert(mand[14].0 == "token_symbol"@);
    assert(mand[15].0 == "token_icon_link"@);
    assert(mand[16].0 == "amount"@);
    assert(mand[17].0 == "amount_usd"@);
    assert(mand[18].0 == "from_chain"@);
    assert(mand[19].0 == "to_chain"@);
    assert(mand[20].0 == "platform"@);
    assert(mand[21].0 == "price"@);
    assert(mand[22].0 == "type"@);
    assert forall|j: int| 0 <= j < mand.len() implies mand[j].0 != "dex"@ by {
        if j == 0 {
        } else if j == 1 {
        } else if j == 2 {
        } else if j == 3 {
        } else if j == 4 {
        } else if j == 5 {
        } else if j == 6 {
        } else if j == 7 {
        } else if j == 8 {
        } else if j == 9 {
        } else if j == 10 {
        } else if j == 11 {
        } else if j == 12 {
        } else if j == 13 {
        } else if j == 14 {
        } else if j == 15 {
        } else if j == 16 {
        } else if j == 17 {
        } else if j == 18 {
        } else if j == 19 {
        } else if j == 20 {
        } else if j == 21 {
        } else if j == 22 {
        } else {
        }
    }
    lemma_lookup_absent(mand, "dex"@);
    assert(spec_decode_lending(ms) is None);
}

/// An encoded `bridge` record lacks `contract_address`, which the `nft_mint` shape needs.
#[verifier::spinoff_prover]
proof fn lemma_bridge_not_nft_mint(s: BridgeV)
    ensures
        spec_decode_nft_mint(spec_encode_bridge(s)) is None,
{
    reveal_strlit("amount");
    reveal_strlit("amount_usd");
    reveal_strlit("block");
    reveal_strlit("chain");
    reveal_strlit("contract_address");
    reveal_strlit("from");
    reveal_strlit("from_chain");
    reveal_strlit("from_label");
    reveal_strlit("index");
    reveal_strlit("platform");
    reveal_strlit("price");
    reveal_strlit("timestamp");
    reveal_strlit("to");
    reveal_strlit("to_chain");
    reveal_strlit("to_label");
    reveal_strlit("token_address");
    reveal_strlit("token_icon_link");
    reveal_strlit("token_name");
    reveal_strlit("token_symbol");
    reveal_strlit("tx_hash");
    reveal_strlit("tx_type");
    reveal_strlit("type");
    reveal_strlit("wallet");
    reveal_strlit("wallet_label");
    assert("amount"@.len() == 6);
    assert("amount_usd"@.len() == 10);
    assert("block"@.len() == 5);
    assert("chain"@.len() == 5);
    assert("contract_address"@.len() == 16);
    assert("from"@.len() == 4);
    assert("from_chain"@.len() == 10);
    assert("from_label"@.len() == 10);
    assert("index"@.len() == 5);
    assert("platform"@.len() == 8);
    assert("price"@.len() == 5);
    assert("timestamp"@.len() == 9);
    assert("to"@.len() == 2);
    assert("to_chain"@.len() == 8);
    assert("to_label"@.len() == 8);
    assert("token_address"@.len() == 13);
    assert("token_icon_link"@.len() == 15);
    assert("token_name"@.len() == 10);
    assert("token_symbol"@.len() == 12);
    assert("tx_hash"@.len() == 7);
    assert("tx_type"@.len() == 7);
    assert("type"@.len() == 4);
    assert("wallet"@.len() == 6);
    assert("wallet_label"@.len() == 12);
    let ms = spec_encode_bridge(s);
    let mand = ms;
    assert(mand.len() == 23);
    assert(mand[0].0 == "wallet"@);
    assert(mand[1].0 == "wallet_label"@);
    assert(mand[2].0 == "tx_hash"@);
    assert(mand[3].0 == "tx_type"@);
    assert(mand[4].0 == "chain"@);
    assert(mand[5].0 == "index"@);
    assert(mand[6].0 == "timestamp"@);
    assert(mand[7].0 == "block"@);
    assert(mand[8].0 == "from"@);
    assert(mand[9].0 == "to"@);
    assert(mand[10].0 == "from_label"@);
    assert(mand[11].0 == "to_label"@);
    assert(mand[12].0 == "token_address"@);
    assert(mand[13].0 == "token_name"@);
    assert(mand[14].0 == "token_symbol"@);
    assert(mand[15].0 == "token_icon_link"@);
    assert(mand[16].0 == "amount"@);
    assert(mand[17].0 == "amount_usd"@);
    assert(mand[18].0 == "from_chain"@);
    assert(mand[19].0 == "to_chain"@);
    assert(mand[20].0 == "platform"@);
    assert(mand[21].0 == "price"@);
    assert(mand[22].0 == "type"@);
    assert forall|j: int| 0 <= j < mand.len() implies mand[j].0 != "contract_address"@ by {
        if j == 0 {
        } else if j == 1 {
        } else if j == 2 {
        } else if j == 3 {
        } else if j == 4 {
        } else if j == 5 {
        } else if j == 6 {
        } else if j == 7 {
        } else if j == 8 {
        } else if j == 9 {
        } else if j == 10 {
        } else if j == 11 {
        } else if j == 12 {
        } else if j == 13 {
        } else if j == 14 {
        } else if j == 15 {
        } else if j == 16 {
        } else if j == 17 {
        } else if j == 18 {
        } else if j == 19 {
        } else if j == 20 {
        } else if j == 21 {
        } else if j == 22 {
        } else {
        }
    }
    lemma_lookup_absent(mand, "contract_address"@);
    assert(spec_decode_nft_mint(ms) is None);
}

/// An encoded `bridge` record lacks `marketplace`, which the `nft_trade` shape needs.
#[verifier::spinoff_prover]
proof fn lemma_bridge_not_nft_trade(s: BridgeV)
    ensures
        spec_decode_nft_trade(spec_encode_bridge(s)) is None,
{
    reveal_strlit("amount");
    reveal_strlit("amount_usd");
    reveal_strlit("block");
    reveal_strlit("chain");
    reveal_strlit("from");
    reveal_strlit("from_chain");
    reveal_strlit("from_label");
    reveal_strlit("index");
    reveal_strlit("marketplace");
    reveal_strlit("platform");
    reveal_strlit("price");
    reveal_strlit("timestamp");
    reveal_strlit("to");
    reveal_strlit("to_chain");
    reveal_strlit("to_label");
    reveal_strlit("token_address");
    reveal_strlit("token_icon_link");
    reveal_strlit("token_name");
    reveal_strlit("token_symbol");
    reveal_strlit("tx_hash");
    reveal_strlit("tx_type");
    reveal_strlit("type");
    reveal_strlit("wallet");
    reveal_strlit("wallet_label");
    assert("amount"@.len() == 6);
    assert("amount_usd"@.len() == 10);
    assert("block"@.len() == 5);
    assert("chain"@.len() == 5);
    assert("from"@.len() == 4);
    assert("from_chain"@.len() == 10);
    assert("from_label"@.len() == 10);
    assert("index"@.len() == 5);
    assert("marketplace"@.len() == 11);
    assert("platform"@.len() == 8);
    assert("price"@.len() == 5);
    assert("timestamp"@.len() == 9);
    assert("to"@.len() == 2);
    assert("to_chain"@.len() == 8);
    assert("to_label"@.len() == 8);
    assert("token_address"@.len() == 13);
    assert("token_icon_link"@.len() == 15);
    assert("token_name"@.len() == 10);
    assert("token_symbol"@.len() == 12);
    assert("tx_hash"@.len() == 7);
    assert("tx_type"@.len() == 7);
    assert("type"@.len() == 4);
    assert("wallet"@.len() == 6);
    assert("wallet_label"@.len() == 12);
    let ms = spec_encode_bridge(s);
    let mand = ms;
    assert(mand.len() == 23);
    assert(mand[0].0 == "wallet"@);
    assert(mand[1].0 == "wallet_label"@);
    assert(mand[2].0 == "tx_hash"@);
    assert(mand[3].0 == "tx_type"@);
    assert(mand[4].0 == "chain"@);
    assert(mand[5].0 == "index"@);
    assert(mand[6].0 == "timestamp"@);
    assert(mand[7].0 == "block"@);
    assert(mand[8].0 == "from"@);
    assert(mand[9].0 == "to"@);
    assert(mand[10].0 == "from_label"@);
    assert(mand[11].0 == "to_label"@);
    assert(mand[12].0 == "token_address"@);
    assert(mand[13].0 == "token_name"@);
    assert(mand[14].0 == "token_symbol"@);
    assert(mand[15].0 == "token_icon_link"@);
    assert(mand[16].0 == "amount"@);
    assert(mand[17].0 == "amount_usd"@);
    assert(mand[18].0 == "from_chain"@);
    assert(mand[19].0 == "to_chain"@);
    assert(mand[20].0 == "platform"@);
    assert(mand[21].0 == "price"@);
    assert(mand[22].0 == "type"@);
    assert forall|j: int| 0 <= j < mand.len() implies mand[j].0 != "marketplace"@ by {
        if j == 0 {
        } else if j == 1 {
        } else if j == 2 {
        } else if j == 3 {
        } else if j == 4 {
        } else if j == 5 {
        } else if j == 6 {
        } else if j == 7 {
        } else if j == 8 {
        } else if j == 9 {
        } else if j == 10 {
        } else if j == 11 {
        } else if j == 12 {
        } else if j == 13 {
        } else if j == 14 {
        } else if j == 15 {
        } else if j == 16 {
        } else if j == 17 {
        } else if j == 18 {
        } else if j == 19 {
        } else if j == 20 {
        } else if j == 21 {
        } else if j == 22 {
        } else {
        }
    }
    lemma_lookup_absent(mand, "marketplace"@);
    assert(spec_decode_nft_trade(ms) is None);
}

/// An encoded `bridge` record lacks `contract_address`, which the `nft_transfer` shape needs.
#[verifier::spinoff_prover]
proof fn lemma_bridge_not_nft_transfer(s: BridgeV)
    ensures
        spec_decode_nft_transfer(spec_encode_bridge(s)) is None,
{
    reveal_strlit("amount");
    reveal_strlit("amount_usd");
    reveal_strlit("block");
    reveal_strlit("chain");
    reveal_strlit("contract_address");
    reveal_strlit("from");
    reveal_strlit("from_chain");
    reveal_strlit("from_label");
    reveal_strlit("index");
    reveal_strlit("platform");
    reveal_strlit("price");
    reveal_strlit("timestamp");
    reveal_strlit("to");
    reveal_strlit("to_chain");
    reveal_strlit("to_label");
    reveal_strlit("token_address");
    reveal_strlit("token_icon_link");
    reveal_strlit("token_name");
    reveal_strlit("token_symbol");
    reveal_strlit("tx_hash");
    reveal_strlit("tx_type");
    reveal_strlit("type");
    reveal_strlit("wallet");
    reveal_strlit("wallet_label");
    assert("amount"@.len() == 6);
    assert("amount_usd"@.len() == 10);
    assert("block"@.len() == 5);
    assert("chain"@.len() == 5);
    assert("contract_address"@.len() == 16);
    assert("from"@.len() == 4);
    assert("from_chain"@.len() == 10);
    assert("from_label"@.len() == 10);
    assert("index"@.len() == 5);
    assert("platform"@.len() == 8);
    assert("price"@.len() == 5);
    assert("timestamp"@.len() == 9);
    assert("to"@.len() == 2);
    assert("to_chain"@.len() == 8);
    assert("to_label"@.len() == 8);
    assert("token_address"@.len() == 13);
    assert("token_icon_link"@.len() == 15);
    assert("token_name"@.len() == 10);
    assert("token_symbol"@.len() == 12);
    assert("tx_hash"@.len() == 7);
    assert("tx_type"@.len() == 7);
    assert("type"@.len() == 4);
    assert("wallet"@.len() == 6);
    assert("wallet_label"@.len() == 12);
    let ms = spec_encode_bridge(s);
    let mand = ms;
    assert(mand.len() == 23);
    assert(mand[0].0 == "wallet"@);
    assert(mand[1].0 == "wallet_label"@);
    assert(mand[2].0 == "tx_hash"@);
    assert(mand[3].0 == "tx_type"@);
    assert(mand[4].0 == "chain"@);
    assert(mand[5].0 == "index"@);
    assert(mand[6].0 == "timestamp"@);
    assert(mand[7].0 == "block"@);
    assert(mand[8].0 == "from"@);
    assert(mand[9].0 == "to"@);
    assert(mand[10].0 == "from_label"@);
    assert(mand[11].0 == "to_label"@);
    assert(mand[12].0 == "token_address"@);
    assert(mand[13].0 == "token_name"@);
    assert(mand[14].0 == "token_symbol"@);
    assert(mand[15].0 == "token_icon_link"@);
    assert(mand[16].0 == "amount"@);
    assert(mand[17].0 == "amount_usd"@);
    assert(mand[18].0 == "from_chain"@);
    assert(mand[19].0 == "to_chain"@);
    assert(mand[20].0 == "platform"@);
    assert(mand[21].0 == "price"@);
    assert(mand[22].0 == "type"@);
    assert forall|j: int| 0 <= j < mand.len() implies mand[j].0 != "contract_address"@ by {
        if j == 0 {
        } else if j == 1 {
        } else if j == 2 {
        } else if j == 3 {
        } else if j == 4 {
        } else if j == 5 {
        } else if j == 6 {
        } else if j == 7 {
        } else if j == 8 {
        } else if j == 9 {
        } else if j == 10 {
        } else if j == 11 {
        } else if j == 12 {
        } else if j == 13 {
        } else if j == 14 {
        } else if j == 15 {
        } else if j == 16 {
        } else if j == 17 {
        } else if j == 18 {
        } else if j == 19 {
        } else if j == 20 {
        } else if j == 21 {
        } else if j == 22 {
        } else {
        }
    }
    lemma_lookup_absent(mand, "contract_address"@);
    assert(spec_decode_nft_transfer(ms) is None);
}

/// An encoded `bridge` record lacks `currency_address`, which the `nft_lending` shape needs.
#[verifier::spinoff_prover]
proof fn lemma_bridge_not_nft_lending(s: BridgeV)
    ensures
        spec_decode_nft_lending(spec_encode_bridge(s)) is None,
{
    reveal_strlit("amount");
    reveal_strlit("amount_usd");
    reveal_strlit("block");
    reveal_strlit("chain");
    reveal_strlit("currency_address");
    reveal_strlit("from");
    reveal_strlit("from_chain");
    reveal_strlit("from_label");
    reveal_strlit("index");
    reveal_strlit("platform");
    reveal_strlit("price");
    reveal_strlit("timestamp");
    reveal_strlit("to");
    reveal_strlit("to_chain");
    reveal_strlit("to_label");
    reveal_strlit("token_address");
    reveal_strlit("token_icon_link");
    reveal_strlit("token_name");
    reveal_strlit("token_symbol");
    reveal_strlit("tx_hash");
    reveal_strlit("tx_type");
    reveal_strlit("type");
    reveal_strlit("wallet");
    reveal_strlit("wallet_label");
    assert("amount"@.len() == 6);
    assert("amount_usd"@.len() == 10);
    assert("block"@.len() == 5);
    assert("chain"@.len() == 5);
    assert("currency_address"@.len() == 16);
    assert("from"@.len() == 4);
    assert("from_chain"@.len() == 10);
    assert("from_label"@.len() == 10);
    assert("index"@.len() == 5);
    assert("platform"@.len() == 8);
    assert("price"@.len() == 5);
    assert("timestamp"@.len() == 9);
    assert("to"@.len() == 2);
    assert("to_chain"@.len() == 8);
    assert("to_label"@.len() == 8);
    assert("token_address"@.len() == 13);
    assert("token_icon_link"@.len() == 15);
    assert("token_name"@.len() == 10);
    assert("token_symbol"@.len() == 12);
    assert("tx_hash"@.len() == 7);
    assert("tx_type"@.len() == 7);
    assert("type"@.len() == 4);
    assert("wallet"@.len() == 6);
    assert("wallet_label"@.len() == 12);
    let ms = spec_encode_bridge(s);
    let mand = ms;
    assert(mand.len() == 23);
    assert(mand[0].0 == "wallet"@);
    assert(mand[1].0 == "wallet_label"@);
    assert(mand[2].0 == "tx_hash"@);
    assert(mand[3].0 == "tx_type"@);
    assert(mand[4].0 == "chain"@);
    assert(mand[5].0 == "index"@);
    assert(mand[6].0 == "timestamp"@);
    assert(mand[7].0 == "block"@);
    assert(mand[8].0 == "from"@);
    assert(mand[9].0 == "to"@);
    assert(mand[10].0 == "from_label"@);
    assert(mand[11].0 == "to_label"@);
    assert(mand[12].0 == "token_address"@);
    assert(mand[13].0 == "token_name"@);
    assert(mand[14].0 == "token_symbol"@);
    assert(mand[15].0 == "token_icon_link"@);
    assert(mand[16].0 == "amount"@);
    assert(mand[17].0 == "amount_usd"@);
    assert(mand[18].0 == "from_chain"@);
    assert(mand[19].0 == "to_chain"@);
    assert(mand[20].0 == "platform"@);
    assert(mand[21].0 == "price"@);
    assert(mand[22].0 == "type"@);
    assert forall|j: int| 0 <= j < mand.len() implies mand[j].0 != "currency_address"@ by {
        if j == 0 {
        } else if j == 1 {
        } else if j == 2 {
        } else if j == 3 {
        } else if j == 4 {
        } else if j == 5 {
        } else if j == 6 {
        } else if j == 7 {
        } else if j == 8 {
        } else if j == 9 {
        } else if j == 10 {
        } else if j == 11 {
        } else if j == 12 {
        } else if j == 13 {
        } else if j == 14 {
        } else if j == 15 {
        } else if j == 16 {
        } else if j == 17 {
        } else if j == 18 {
        } else if j == 19 {
        } else if j == 20 {
        } else if j == 21 {
        } else if j == 22 {
        } else {
        }
    }
    lemma_lookup_absent(mand, "currency_address"@);
    assert(spec_decode_nft_lending(ms) is None);
}

/// Decoding an encoded `bridge` record yields it back.
#[verifier::rlimit(50)]
#[verifier::spinoff_prover]
pub proof fn lemma_bridge_round_trip(s: BridgeV)
    ensures
        spec_decode_item(spec_encode_item(ItemV::Bridge(s))) == Some(ItemV::Bridge(s)),
{
    reveal_strlit("amount");
    reveal_strlit("amount_usd");
    reveal_strlit("block");
    reveal_strlit("chain");
    reveal_strlit("from");
    reveal_strlit("from_chain");
    reveal_strlit("from_label");
    reveal_strlit("index");
    reveal_strlit("platform");
    reveal_strlit("price");
    reveal_strlit("timestamp");
    reveal_strlit("to");
    reveal_strlit("to_chain");
    reveal_strlit("to_label");
    reveal_strlit("token_address");
    reveal_strlit("token_icon_link");
    reveal_strlit("token_name");
    reveal_strlit("token_symbol");
    reveal_strlit("tx_hash");
    reveal_strlit("tx_type");
    reveal_strlit("type");
    reveal_strlit("wallet");
    reveal_strlit("wallet_label");
    assert("amount"@.len() == 6);
    assert("amount_usd"@.len() == 10);
    assert("block"@.len() == 5);
    assert("chain"@.len() == 5);
    assert("from"@.len() == 4);
    assert("from_chain"@.len() == 10);
    assert("from_label"@.len() == 10);
    assert("index"@.len() == 5);
    assert("platform"@.len() == 8);
    assert("price"@.len() == 5);
    assert("timestamp"@.len() == 9);
    assert("to"@.len() == 2);
    assert("to_chain"@.len() == 8);
    assert("to_label"@.len() == 8);
    assert("token_address"@.len() == 13);
    assert("token_icon_link"@.len() == 15);
    assert("token_name"@.len() == 10);
    assert("token_symbol"@.len() == 12);
    assert("tx_hash"@.len() == 7);
    assert("tx_type"@.len() == 7);
    assert("type"@.len() == 4);
    assert("wallet"@.len() == 6);
    assert("wallet_label"@.len() == 12);
    assert("amount"@[0] == 'a');
    assert("amount_usd"@[0] == 'a');
    assert("block"@[0] == 'b');
    assert("chain"@[0] == 'c');
    assert("from"@[0] == 'f');
    assert("from_chain"@[0] == 'f');
    assert("from_chain"@[5] == 'c');
    assert("from_label"@[0] == 'f');
    assert("from_label"@[5] == 'l');
    assert("index"@[0] == 'i');
    assert("platform"@[0] == 'p');
    assert("price"@[0] == 'p');
    assert("to_chain"@[0] == 't');
    assert("to_chain"@[3] == 'c');
    assert("to_label"@[0] == 't');
    assert("to_label"@[3] == 'l');
    assert("token_name"@[0] == 't');
    assert("token_symbol"@[0] == 't');
    assert("tx_hash"@[3] == 'h');
    assert("tx_type"@[3] == 't');
    assert("type"@[0] == 't');
    assert("wallet"@[0] == 'w');
    assert("wallet_label"@[0] == 'w');
    let ms = spec_encode_bridge(s);
    let mand = ms;
    assert(mand.len() == 23);
    assert(mand[0].0 == "wallet"@);
    assert(mand[1].0 == "wallet_label"@);
    assert(mand[2].0 == "tx_hash"@);
    assert(mand[3].0 == "tx_type"@);
    assert(mand[4].0 == "chain"@);
    assert(mand[5].0 == "index"@);
    assert(mand[6].0 == "timestamp"@);
    assert(mand[7].0 == "block"@);
    assert(mand[8].0 == "from"@);
    assert(mand[9].0 == "to"@);
    assert(mand[10].0 == "from_label"@);
    assert(mand[11].0 == "to_label"@);
    assert(mand[12].0 == "token_address"@);
    assert(mand[13].0 == "token_name"@);
    assert(mand[14].0 == "token_symbol"@);
    assert(mand[15].0 == "token_icon_link"@);
    assert(mand[16].0 == "amount"@);
    assert(mand[17].0 == "amount_usd"@);
    assert(mand[18].0 == "from_chain"@);
    assert(mand[19].0 == "to_chain"@);
    assert(mand[20].0 == "platform"@);
    assert(mand[21].0 == "price"@);
    assert(mand[22].0 == "type"@);
    lemma_lookup_first(mand, 0);
    lemma_lookup_first(mand, 1);
    lemma_lookup_first(mand, 2);
    lemma_lookup_first(mand, 3);
    lemma_lookup_first(mand, 4);
    lemma_lookup_first(mand, 5);
    lemma_lookup_first(mand, 6);
    lemma_lookup_first(mand, 7);
    lemma_lookup_first(mand, 8);
    lemma_lookup_first(mand, 9);
    lemma_lookup_first(mand, 10);
    lemma_lookup_first(mand, 11);
    lemma_lookup_first(mand, 12);
    lemma_lookup_first(mand, 13);
    lemma_lookup_first(mand, 14);
    lemma_lookup_first(mand, 15);
    lemma_lookup_first(mand, 16);
    lemma_lookup_first(mand, 17);
    lemma_lookup_first(mand, 18);
    lemma_lookup_first(mand, 19);
    lemma_lookup_first(mand, 20);
    lemma_lookup_first(mand, 21);
    lemma_lookup_first(mand, 22);
    lemma_bridge_not_swap(s);
    lemma_bridge_not_lp(s);
    lemma_bridge_not_transfer(s);
    lemma_bridge_not_lending(s);
    lemma_bridge_not_nft_mint(s);
    lemma_bridge_not_nft_trade(s);
    lemma_bridge_not_nft_transfer(s);
    lemma_bridge_not_nft_lending(s);
    assert(spec_decode_bridge(ms) == Some(BridgeV {
        wallet: s.wallet,
        wallet_label: s.wallet_label,
        tx_hash: s.tx_hash,
        tx_type: s.tx_type,
        chain: s.chain,
        index: s.index,
        timestamp: s.timestamp,
        block: s.block,
        from: s.from,
        to: s.to,
        from_label: s.from_label,
        to_label: s.to_label,
        token_address: s.token_address,
        token_name: s.token_name,
        token_symbol: s.token_symbol,
        token_icon_link: s.token_icon_link,
        amount: s.amount,
        amount_usd: s.amount_usd,
        from_chain: s.from_chain,
        to_chain: s.to_chain,
        platform: s.platform,
        price: s.price,
        type_field: s.type_field,
    }));
}

/// An encoded `contract_interaction` record lacks `dex`, which the `swap` shape needs.
#[verifier::spinoff_prover]
proof fn lemma_contract_interaction_not_swap(s: ContractInteractionV)
    ensures
        spec_decode_swap(spec_encode_contract_interaction(s)) is None,
{
    reveal_strlit("block");
    reveal_strlit("chain");
    reveal_strlit("contract_address");
    reveal_strlit("contract_label");
    reveal_strlit("dex");
    reveal_strlit("from");
    reveal_strlit("index");
    reveal_strlit("timestamp");
    reveal_strlit("to");
    reveal_strlit("tx_hash");
    reveal_strlit("tx_type");
    reveal_strlit("wallet");
    reveal_strlit("wallet_label");
    assert("block"@.len() == 5);
    assert("chain"@.len() == 5);
    assert("contract_address"@.len() == 16);
    assert("contract_label"@.len() == 14);
    assert("dex"@.len() == 3);
    assert("from"@.len() == 4);
    assert("index"@.len() == 5);
    assert("timestamp"@.len() == 9);
    assert("to"@.len() == 2);
    assert("tx_hash"@.len() == 7);
    assert("tx_type"@.len() == 7);
    assert("wallet"@.len() == 6);
    assert("wallet_label"@.len() == 12);
    let ms = spec_encode_contract_interaction(s);
    let mand = ms;
    assert(mand.len() == 12);
    assert(mand[0].0 == "wallet"@);
    assert(mand[1].0 == "wallet_label"@);
    assert(mand[2].0 == "tx_hash"@);
    assert(mand[3].0 == "tx_type"@);
    assert(mand[4].0 == "chain"@);
    assert(mand[5].0 == "index"@);
    assert(mand[6].0 == "timestamp"@);
    assert(mand[7].0 == "block"@);
    assert(mand[8].0 == "from"@);
    assert(mand[9].0 == "to"@);
    assert(mand[10].0 == "contract_address"@);
    assert(mand[11].0 == "contract_label"@);
    assert forall|j: int| 0 <= j < mand.len() implies mand[j].0 != "dex"@ by {
        if j == 0 {
        } else if j == 1 {
        } else if j == 2 {
        } else if j == 3 {
        } else if j == 4 {
        } else if j == 5 {
        } else if j == 6 {
        } else if j == 7 {
        } else if j == 8 {
        } else if j == 9 {
        } else if j == 10 {
        } else if j == 11 {
        } else {
        }
    }
    lemma_lookup_absent(mand, "dex"@);
    assert(spec_decode_swap(ms) is None);
}

/// An encoded `contract_interaction` record lacks `dex`, which the `lp` shape needs.
#[verifier::spinoff_prover]
proof fn lemma_contract_interaction_not_lp(s: ContractInteractionV)
    ensures
        spec_decode_lp(spec_encode_contract_interaction(s)) is None,
{
    reveal_strlit("block");
    reveal_strlit("chain");
    reveal_strlit("contract_address");
    reveal_strlit("contract_label");
    reveal_strlit("dex");
    reveal_strlit("from");
    reveal_strlit("index");
    reveal_strlit("timestamp");
    reveal_strlit("to");
    reveal_strlit("tx_hash");
    reveal_strlit("tx_type");
    reveal_strlit("wallet");
    reveal_strlit("wallet_label");
    assert("block"@.len() == 5);
    assert("chain"@.len() == 5);
    assert("contract_address"@.len() == 16);
    assert("contract_label"@.len() == 14);
    assert("dex"@.len() == 3);
    assert("from"@.len() == 4);
    assert("index"@.len() == 5);
    assert("timestamp"@.len() == 9);
    assert("to"@.len() == 2);
    assert("tx_hash"@.len() == 7);
    assert("tx_type"@.len() == 7);
    assert("wallet"@.len() == 6);
    assert("wallet_label"@.len() == 12);
    let ms = spec_encode_contract_interaction(s);
    let mand = ms;
    assert(mand.len() == 12);
    assert(mand[0].0 == "wallet"@);
    assert(mand[1].0 == "wallet_label"@);
    assert(mand[2].0 == "tx_hash"@);
    assert(mand[3].0 == "tx_type"@);
    assert(mand[4].0 == "chain"@);
    assert(mand[5].0 == "index"@);
    assert(mand[6].0 == "timestamp"@);
    assert(mand[7].0 == "block"@);
    assert(mand[8].0 == "from"@);
    assert(mand[9].0 == "to"@);
    assert(mand[10].0 == "contract_address"@);
    assert(mand[11].0 == "contract_label"@);
    assert forall|j: int| 0 <= j < mand.len() implies mand[j].0 != "dex"@ by {
        if j == 0 {
        } else if j == 1 {
        } else if j == 2 {
        } else if j == 3 {
        } else if j == 4 {
        } else if j == 5 {
        } else if j == 6 {
        } else if j == 7 {
        } else if j == 8 {
        } else if j == 9 {
        } else if j == 10 {
        } else if j == 11 {
        } else {
        }
    }
    lemma_lookup_absent(mand, "dex"@);
    assert(spec_decode_lp(ms) is None);
}

/// An encoded `contract_interaction` record lacks `from_label`, which the `transfer` shape needs.
#[verifier::spinoff_prover]
proof fn lemma_contract_interaction_not_transfer(s: ContractInteractionV)
    ensures
        spec_decode_transfer(spec_encode_contract_interaction(s)) is None,
{
    reveal_strlit("block");
    reveal_strlit("chain");
    reveal_strlit("contract_address");
    reveal_strlit("contract_label");
    reveal_strlit("from");
    reveal_strlit("from_label");
    reveal_strlit("index");
    reveal_strlit("timestamp");
    reveal_strlit("to");
    reveal_strlit("tx_hash");
    reveal_strlit("tx_type");
    reveal_strlit("wallet");
    reveal_strlit("wallet_label");
    assert("block"@.len() == 5);
    assert("chain"@.len() == 5);
    assert("contract_address"@.len() == 16);
    assert("contract_label"@.len() == 14);
    assert("from"@.len() == 4);
    assert("from_label"@.len() == 10);
    assert("index"@.len() == 5);
    assert("timestamp"@.len() == 9);
    assert("to"@.len() == 2);
    assert("tx_hash"@.len() == 7);
    assert("tx_type"@.len() == 7);
    assert("wallet"@.len() == 6);
    assert("wallet_label"@.len() == 12);
    let ms = spec_encode_contract_interaction(s);
    let mand = ms;
    assert(mand.len() == 12);
    assert(mand[0].0 == "wallet"@);
    assert(mand[1].0 == "wallet_label"@);
    assert(mand[2].0 == "tx_hash"@);
    assert(mand[3].0 == "tx_type"@);
    assert(mand[4].0 == "chain"@);
    assert(mand[5].0 == "index"@);
    assert(mand[6].0 == "timestamp"@);
    assert(mand[7].0 == "block"@);
    assert(mand[8].0 == "from"@);
    assert(mand[9].0 == "to"@);
    assert(mand[10].0 == "contract_address"@);
    assert(mand[11].0 == "contract_label"@);
    assert forall|j: int| 0 <= j < mand.len() implies mand[j].0 != "from_label"@ by {
        if j == 0 {
        } else if j == 1 {
        } else if j == 2 {
        } else if j == 3 {
        } else if j == 4 {
        } else if j == 5 {
        } else if j == 6 {
        } else if j == 7 {
        } else if j == 8 {
        } else if j == 9 {
        } else if j == 10 {
        } else if j == 11 {
        } else {
        }
    }
    lemma_lookup_absent(mand, "from_label"@);
    assert(spec_decode_transfer(ms) is None);
}

/// An encoded `contract_interaction` record lacks `from_label`, which the `lending` shape needs.
#[verifier::spinoff_prover]
proof fn lemma_contract_interaction_not_lending(s: ContractInteractionV)
    ensures
        spec_decode_lending(spec_encode_contract_interaction(s)) is None,
{
    reveal_strlit("block");
    reveal_strlit("chain");
    reveal_strlit("contract_address");
    reveal_strlit("contract_label");
    reveal_strlit("from");
    reveal_strlit("from_label");
    reveal_strlit("index");
    reveal_strlit("timestamp");
    reveal_strlit("to");
    reveal_strlit("tx_hash");
    reveal_strlit("tx_type");
    reveal_strlit("wallet");
    reveal_strlit("wallet_label");
    assert("block"@.len() == 5);
    assert("chain"@.len() == 5);
    assert("contract_address"@.len() == 16);
    assert("contract_label"@.len() == 14);
    assert("from"@.len() == 4);
    assert("from_label"@.len() == 10);
    assert("index"@.len() == 5);
    assert("timestamp"@.len() == 9);
    assert("to"@.len() == 2);
    assert("tx_hash"@.len() == 7);
    assert("tx_type"@.len() == 7);
    assert("wallet"@.len() == 6);
    assert("wallet_label"@.len() == 12);
    let ms = spec_encode_contract_interaction(s);
    let mand = ms;
    assert(mand.len() == 12);
    assert(mand[0].0 == "wallet"@);
    assert(mand[1].0 == "wallet_label"@);
    assert(mand[2].0 == "tx_hash"@);
    assert(mand[3].0 == "tx_type"@);
    assert(mand[4].0 == "chain"@);
    assert(mand[5].0 == "index"@);
    assert(mand[6].0 == "timestamp"@);
    assert(mand[7].0 == "block"@);
    assert(mand[8].0 == "from"@);
    assert(mand[9].0 == "to"@);
    assert(mand[10].0 == "contract_address"@);
    assert(mand[11].0 == "contract_label"@);
    assert forall|j: int| 0 <= j < mand.len() implies mand[j].0 != "from_label"@ by {
        if j == 0 {
        } else if j == 1 {
        } else if j == 2 {
        } else if j == 3 {
        } else if j == 4 {
        } else if j == 5 {
        } else if j == 6 {
        } else if j == 7 {
        } else if j == 8 {
        } else if j == 9 {
        } else if j == 10 {
        } else if j == 11 {
        } else {
        }
    }
    lemma_lookup_absent(mand, "from_label"@);
    assert(spec_decode_lending(ms) is None);
}

/// An encoded `contract_interaction` record lacks `from_label`, which the `nft_mint` shape needs.
#[verifier::spinoff_prover]
proof fn lemma_contract_interaction_not_nft_mint(s: ContractInteractionV)
    ensures
        spec_decode_nft_mint(spec_encode_contract_interaction(s)) is None,
{
    reveal_strlit("block");
    reveal_strlit("chain");
    reveal_strlit("contract_address");
    reveal_strlit("contract_label");
    reveal_strlit("from");
    reveal_strlit("from_label");
    reveal_strlit("index");
    reveal_strlit("timestamp");
    reveal_strlit("to");
    reveal_strlit("tx_hash");
    reveal_strlit("tx_type");
    reveal_strlit("wallet");
    reveal_strlit("wallet_label");
    assert("block"@.len() == 5);
    assert("chain"@.len() == 5);
    assert("contract_address"@.len() == 16);
    assert("contract_label"@.len() == 14);
    assert("from"@.len() == 4);
    assert("from_label"@.len() == 10);
    assert("index"@.len() == 5);
    assert("timestamp"@.len() == 9);
    assert("to"@.len() == 2);
    assert("tx_hash"@.len() == 7);
    assert("tx_type"@.len() == 7);
    assert("wallet"@.len() == 6);
    assert("wallet_label"@.len() == 12);
    let ms = spec_encode_contract_interaction(s);
    let mand = ms;
    assert(mand.len() == 12);
    assert(mand[0].0 == "wallet"@);
    assert(mand[1].0 == "wallet_label"@);
    assert(mand[2].0 == "tx_hash"@);
    assert(mand[3].0 == "tx_type"@);
    assert(mand[4].0 == "chain"@);
    assert(mand[5].0 == "index"@);
    assert(mand[6].0 == "timestamp"@);
    assert(mand[7].0 == "block"@);
    assert(mand[8].0 == "from"@);
    assert(mand[9].0 == "to"@);
    assert(mand[10].0 == "contract_address"@);
    assert(mand[11].0 == "contract_label"@);
    assert forall|j: int| 0 <= j < mand.len() implies mand[j].0 != "from_label"@ by {
        if j == 0 {
        } else if j == 1 {
        } else if j == 2 {
        } else if j == 3 {
        } else if j == 4 {
        } else if j == 5 {
        } else if j == 6 {
        } else if j == 7 {
        } else if j == 8 {
        } else if j == 9 {
        } else if j == 10 {
        } else if j == 11 {
        } else {
        }
    }
    lemma_lookup_absent(mand, "from_label"@);
    assert(spec_decode_nft_mint(ms) is None);
}

/// An encoded `contract_interaction` record lacks `contract`, which the `nft_trade` shape needs.
#[verifier::spinoff_prover]
proof fn lemma_contract_interaction_not_nft_trade(s: ContractInteractionV)
    ensures
        spec_decode_nft_trade(spec_encode_contract_interaction(s)) is None,
{
    reveal_strlit("block");
    reveal_strlit("chain");
    reveal_strlit("contract");
    reveal_strlit("contract_address");
    reveal_strlit("contract_label");
    reveal_strlit("from");
    reveal_strlit("index");
    reveal_strlit("timestamp");
    reveal_strlit("to");
    reveal_strlit("tx_hash");
    reveal_strlit("tx_type");
    reveal_strlit("wallet");
    reveal_strlit("wallet_label");
    assert("block"@.len() == 5);
    assert("chain"@.len() == 5);
    assert("contract"@.len() == 8);
    assert("contract_address"@.len() == 16);
    assert("contract_label"@.len() == 14);
    assert("from"@.len() == 4);
    assert("index"@.len() == 5);
    assert("timestamp"@.len() == 9);
    assert("to"@.len() == 2);
    assert("tx_hash"@.len() == 7);
    assert("tx_type"@.len() == 7);
    assert("wallet"@.len() == 6);
    assert("wallet_label"@.len() == 12);
    let ms = spec_encode_contract_interaction(s);
    let mand = ms;
    assert(mand.len() == 12);
    assert(mand[0].0 == "wallet"@);
    assert(mand[1].0 == "wallet_label"@);
    assert(mand[2].0 == "tx_hash"@);
    assert(mand[3].0 == "tx_type"@);
    assert(mand[4].0 == "chain"@);
    assert(mand[5].0 == "index"@);
    assert(mand[6].0 == "timestamp"@);
    assert(mand[7].0 == "block"@);
    assert(mand[8].0 == "from"@);
    assert(mand[9].0 == "to"@);
    assert(mand[10].0 == "contract_address"@);
    assert(mand[11].0 == "contract_label"@);
    assert forall|j: int| 0 <= j < mand.len() implies mand[j].0 != "contract"@ by {
        if j == 0 {
        } else if j == 1 {
        } else if j == 2 {
        } else if j == 3 {
        } else if j == 4 {
        } else if j == 5 {
        } else if j == 6 {
        } else if j == 7 {
        } else if j == 8 {
        } else if j == 9 {
        } else if j == 10 {
        } else if j == 11 {
        } else {
        }
    }
    lemma_lookup_absent(mand, "contract"@);
    assert(spec_decode_nft_trade(ms) is None);
}

/// An encoded `contract_interaction` record lacks `from_label`, which the `nft_transfer` shape needs.
#[verifier::spinoff_prover]
proof fn lemma_contract_interaction_not_nft_transfer(s: ContractInteractionV)
    ensures
        spec_decode_nft_transfer(spec_encode_contract_interaction(s)) is None,
{
    reveal_strlit("block");
    reveal_strlit("chain");
    reveal_strlit("contract_address");
    reveal_strlit("contract_label");
    reveal_strlit("from");
    reveal_strlit("from_label");
    reveal_strlit("index");
    reveal_strlit("timestamp");
    reveal_strlit("to");
    reveal_strlit("tx_hash");
    reveal_strlit("tx_type");
    reveal_strlit("wallet");
    reveal_strlit("wallet_label");
    assert("block"@.len() == 5);
    assert("chain"@.len() == 5);
    assert("contract_address"@.len() == 16);
    assert("contract_label"@.len() == 14);
    assert("from"@.len() == 4);
    assert("from_label"@.len() == 10);
    assert("index"@.len() == 5);
    assert("timestamp"@.len() == 9);
    assert("to"@.len() == 2);
    assert("tx_hash"@.len() == 7);
    assert("tx_type"@.len() == 7);
    assert("wallet"@.len() == 6);
    assert("wallet_label"@.len() == 12);
    let ms = spec_encode_contract_interaction(s);
    let mand = ms;
    assert(mand.len() == 12);
    assert(mand[0].0 == "wallet"@);
    assert(mand[1].0 == "wallet_label"@);
    assert(mand[2].0 == "tx_hash"@);
    assert(mand[3].0 == "tx_type"@);
    assert(mand[4].0 == "chain"@);
    assert(mand[5].0 == "index"@);
    assert(mand[6].0 == "timestamp"@);
    assert(mand[7].0 == "block"@);
    assert(mand[8].0 == "from"@);
    assert(mand[9].0 == "to"@);
    assert(mand[10].0 == "contract_address"@);
    assert(mand[11].0 == "contract_label"@);
    assert forall|j: int| 0 <= j < mand.len() implies mand[j].0 != "from_label"@ by {
        if j == 0 {
        } else if j == 1 {
        } else if j == 2 {
        } else if j == 3 {
        } else if j == 4 {
        } else if j == 5 {
        } else if j == 6 {
        } else if j == 7 {
        } else if j == 8 {
        } else if j == 9 {
        } else if j == 10 {
        } else if j == 11 {
        } else {
        }
    }
    lemma_lookup_absent(mand, "from_label"@);
    assert(spec_decode_nft_transfer(ms) is None);
}

/// An encoded `contract_interaction` record lacks `from_label`, which the `nft_lending` shape needs.
#[verifier::spinoff_prover]
proof fn lemma_contract_interaction_not_nft_lending(s: ContractInteractionV)
    ensures
        spec_decode_nft_lending(spec_encode_contract_interaction(s)) is None,
{
    reveal_strlit("block");
    reveal_strlit("chain");
    reveal_strlit("contract_address");
    reveal_strlit("contract_label");
    reveal_strlit("from");
    reveal_strlit("from_label");
    reveal_strlit("index");
    reveal_strlit("timestamp");
    reveal_strlit("to");
    reveal_strlit("tx_hash");
    reveal_strlit("tx_type");
    reveal_strlit("wallet");
    reveal_strlit("wallet_label");
    assert("block"@.len() == 5);
    assert("chain"@.len() == 5);
    assert("contract_address"@.len() == 16);
    assert("contract_label"@.len() == 14);
    assert("from"@.len() == 4);
    assert("from_label"@.len() == 10);
    assert("index"@.len() == 5);
    assert("timestamp"@.len() == 9);
    assert("to"@.len() == 2);
    assert("tx_hash"@.len() == 7);
    assert("tx_type"@.len() == 7);
    assert("wallet"@.len() == 6);
    assert("wallet_label"@.len() == 12);
    let ms = spec_encode_contract_interaction(s);
    let mand = ms;
    assert(mand.len() == 12);
    assert(mand[0].0 == "wallet"@);
    assert(mand[1].0 == "wallet_label"@);
    assert(mand[2].0 == "tx_hash"@);
    assert(mand[3].0 == "tx_type"@);
    assert(mand[4].0 == "chain"@);
    assert(mand[5].0 == "index"@);
    assert(mand[6].0 == "timestamp"@);
    assert(mand[7].0 == "block"@);
    assert(mand[8].0 == "from"@);
    assert(mand[9].0 == "to"@);
    assert(mand[10].0 == "contract_address"@);
    assert(mand[11].0 == "contract_label"@);
    assert forall|j: int| 0 <= j < mand.len() implies mand[j].0 != "from_label"@ by {
        if j == 0 {
        } else if j == 1 {
        } else if j == 2 {
        } else if j == 3 {
        } else if j == 4 {
        } else if j == 5 {
        } else if j == 6 {
        } else if j == 7 {
        } else if j == 8 {
        } else if j == 9 {
        } else if j == 10 {
        } else if j == 11 {
        } else {
        }
    }
    lemma_lookup_absent(mand, "from_label"@);
    assert(spec_decode_nft_lending(ms) is None);
}

/// An encoded `contract_interaction` record lacks `from_label`, which the `bridge` shape needs.
#[verifier::spinoff_prover]
proof fn lemma_contract_interaction_not_bridge(s: ContractInteractionV)
    ensures
        spec_decode_bridge(spec_encode_contract_interaction(s)) is None,
{
    reveal_strlit("block");
    reveal_strlit("chain");
    reveal_strlit("contract_address");
    reveal_strlit("contract_label");
    reveal_strlit("from");
    reveal_strlit("from_label");
    reveal_strlit("index");
    reveal_strlit("timestamp");
    reveal_strlit("to");
    reveal_strlit("tx_hash");
    reveal_strlit("tx_type");
    reveal_strlit("wallet");
    reveal_strlit("wallet_label");
    assert("block"@.len() == 5);
    assert("chain"@.len() == 5);
    assert("contract_address"@.len() == 16);
    assert("contract_label"@.len() == 14);
    assert("from"@.len() == 4);
    assert("from_label"@.len() == 10);
    assert("index"@.len() == 5);
    assert("timestamp"@.len() == 9);
    assert("to"@.len() == 2);
    assert("tx_hash"@.len() == 7);
    assert("tx_type"@.len() == 7);
    assert("wallet"@.len() == 6);
    assert("wallet_label"@.len() == 12);
    let ms = spec_encode_contract_interaction(s);
    let mand = ms;
    assert(mand.len() == 12);
    assert(mand[0].0 == "wallet"@);
    assert(mand[1].0 == "wallet_label"@);
    assert(mand[2].0 == "tx_hash"@);
    assert(mand[3].0 == "tx_type"@);
    assert(mand[4].0 == "chain"@);
    assert(mand[5].0 == "index"@);
    assert(mand[6].0 == "timestamp"@);
    assert(mand[7].0 == "block"@);
    assert(mand[8].0 == "from"@);
    assert(mand[9].0 == "to"@);
    assert(mand[10].0 == "contract_address"@);
    assert(mand[11].0 == "contract_label"@);
    assert forall|j: int| 0 <= j < mand.len() implies mand[j].0 != "from_label"@ by {
        if j == 0 {
        } else if j == 1 {
        } else if j == 2 {
        } else if j == 3 {
        } else if j == 4 {
        } else if j == 5 {
        } else if j == 6 {
        } else if j == 7 {
        } else if j == 8 {
        } else if j == 9 {
        } else if j == 10 {
        } else if j == 11 {
        } else {
        }
    }
    lemma_lookup_absent(mand, "from_label"@);
    assert(spec_decode_bridge(ms) is None);
}

/// Decoding an encoded `contract_interaction` record yields it back.
#[verifier::rlimit(50)]
#[verifier::spinoff_prover]
pub proof fn lemma_contract_interaction_round_trip(s: ContractInteractionV)
    ensures
        spec_decode_item(spec_encode_item(ItemV::ContractInteraction(s))) == Some(ItemV::ContractInteraction(s)),
{
    reveal_strlit("block");
    reveal_strlit("chain");
    reveal_strlit("contract_address");
    reveal_strlit("contract_label");
    reveal_strlit("from");
    reveal_strlit("index");
    reveal_strlit("timestamp");
    reveal_strlit("to");
    reveal_strlit("tx_hash");
    reveal_strlit("tx_type");
    reveal_strlit("wallet");
    reveal_strlit("wallet_label");
    assert("block"@.len() == 5);
    assert("chain"@.len() == 5);
    assert("contract_address"@.len() == 16);
    assert("contract_label"@.len() == 14);
    assert("from"@.len() == 4);
    assert("index"@.len() == 5);
    assert("timestamp"@.len() == 9);
    assert("to"@.len() == 2);
    assert("tx_hash"@.len() == 7);
    assert("tx_type"@.len() == 7);
    assert("wallet"@.len() == 6);
    assert("wallet_label"@.len() == 12);
    assert("block"@[0] == 'b');
    assert("chain"@[0] == 'c');
    assert("index"@[0] == 'i');
    assert("tx_hash"@[3] == 'h');
    assert("tx_type"@[3] == 't');
    let ms = spec_encode_contract_interaction(s);
    let mand = ms;
    assert(mand.len() == 12);
    assert(mand[0].0 == "wallet"@);
    assert(mand[1].0 == "wallet_label"@);
    assert(mand[2].0 == "tx_hash"@);
    assert(mand[3].0 == "tx_type"@);
    assert(mand[4].0 == "chain"@);
    assert(mand[5].0 == "index"@);
    assert(mand[6].0 == "timestamp"@);
    assert(mand[7].0 == "block"@);
    assert(mand[8].0 == "from"@);
    assert(mand[9].0 == "to"@);
    assert(mand[10].0 == "contract_address"@);
    assert(mand[11].0 == "contract_label"@);
    lemma_lookup_first(mand, 0);
    lemma_lookup_first(mand, 1);
    lemma_lookup_first(mand, 2);
    lemma_lookup_first(mand, 3);
    lemma_lookup_first(mand, 4);
    lemma_lookup_first(mand, 5);
    lemma_lookup_first(mand, 6);
    lemma_lookup_first(mand, 7);
    lemma_lookup_first(mand, 8);
    lemma_lookup_first(mand, 9);
    lemma_lookup_first(mand, 10);
    lemma_lookup_first(mand, 11);
    lemma_contract_interaction_not_swap(s);
    lemma_contract_interaction_not_lp(s);
    lemma_contract_interaction_not_transfer(s);
    lemma_contract_interaction_not_lending(s);
    lemma_contract_interaction_not_nft_mint(s);
    lemma_contract_interaction_not_nft_trade(s);
    lemma_contract_interaction_not_nft_transfer(s);
    lemma_contract_interaction_not_nft_lending(s);
    lemma_contract_interaction_not_bridge(s);
    assert(spec_decode_contract_interaction(ms) == Some(ContractInteractionV {
        wallet: s.wallet,
        wallet_label: s.wallet_label,
        tx_hash: s.tx_hash,
        tx_type: s.tx_type,
        chain: s.chain,
        index: s.index,
        timestamp: s.timestamp,
        block: s.block,
        from: s.from,
        to: s.to,
        contract_address: s.contract_address,
        contract_label: s.contract_label,
    }));
}

/// An encoded `wrap` record lacks `token0_address`, which the `swap` shape needs.
#[verifier::spinoff_prover]
proof fn lemma_wrap_not_swap(s: WrapV)
    ensures
        spec_decode_swap(spec_encode_wrap(s)) is None,
{
    reveal_strlit("action");
    reveal_strlit("amount");
    reveal_strlit("amount_usd");
    reveal_strlit("block");
    reveal_strlit("chain");
    reveal_strlit("contract_address");
    reveal_strlit("dex");
    reveal_strlit("from");
    reveal_strlit("index");
    reveal_strlit("name");
    reveal_strlit("symbol");
    reveal_strlit("timestamp");
    reveal_strlit("to");
    reveal_strlit("token0_address");
    reveal_strlit("token_icon_link");
    reveal_strlit("token_price_usd");
    reveal_strlit("token_type");
    reveal_strlit("tx_hash");
    reveal_strlit("tx_type");
    reveal_strlit("wallet");
    reveal_strlit("wallet_label");
    assert("action"@.len() == 6);
    assert("amount"@.len() == 6);
    assert("amount_usd"@.len() == 10);
    assert("block"@.len() == 5);
    assert("chain"@.len() == 5);
    assert("contract_address"@.len() == 16);
    assert("dex"@.len() == 3);
    assert("from"@.len() == 4);
    assert("index"@.len() == 5);
    assert("name"@.len() == 4);
    assert("symbol"@.len() == 6);
    assert("timestamp"@.len() == 9);
    assert("to"@.len() == 2);
    assert("token0_address"@.len() == 14);
    assert("token_icon_link"@.len() == 15);
    assert("token_price_usd"@.len() == 15);
    assert("token_type"@.len() == 10);
    assert("tx_hash"@.len() == 7);
    assert("tx_type"@.len() == 7);
    assert("wallet"@.len() == 6);
    assert("wallet_label"@.len() == 12);
    let ms = spec_encode_wrap(s);
    let mand = ms;
    assert(mand.len() == 20);
    assert(mand[0].0 == "wallet"@);
    assert(mand[1].0 == "wallet_label"@);
    assert(mand[2].0 == "tx_hash"@);
    assert(mand[3].0 == "tx_type"@);
    assert(mand[4].0 == "chain"@);
    assert(mand[5].0 == "index"@);
    assert(mand[6].0 == "timestamp"@);
    assert(mand[7].0 == "block"@);
    assert(mand[8].0 == "dex"@);
    assert(mand[9].0 == "from"@);
    assert(mand[10].0 == "to"@);
    assert(mand[11].0 == "action"@);
    assert(mand[12].0 == "amount"@);
    assert(mand[13].0 == "amount_usd"@);
    assert(mand[14].0 == "contract_address"@);
    assert(mand[15].0 == "name"@);
    assert(mand[16].0 == "symbol"@);
    assert(mand[17].0 == "token_price_usd"@);
    assert(mand[18].0 == "token_type"@);
    assert(mand[19].0 == "token_icon_link"@);
    assert forall|j: int| 0 <= j < mand.len() implies mand[j].0 != "token0_address"@ by {
        if j == 0 {
        } else if j == 1 {
        } else if j == 2 {
        } else if j == 3 {
        } else if j == 4 {
        } else if j == 5 {
        } else if j == 6 {
        } else if j == 7 {
        } else if j == 8 {
        } else if j == 9 {
        } else if j == 10 {
        } else if j == 11 {
        } else if j == 12 {
        } else if j == 13 {
        } else if j == 14 {
        } else if j == 15 {
        } else if j == 16 {
        } else if j == 17 {
        } else if j == 18 {
        } else if j == 19 {
        } else {
        }
    }
    lemma_lookup_absent(mand, "token0_address"@);
    assert(spec_decode_swap(ms) is None);
}

/// An encoded `wrap` record lacks `token0_address`, which the `lp` shape needs.
#[verifier::spinoff_prover]
proof fn lemma_wrap_not_lp(s: WrapV)
    ensures
        spec_decode_lp(spec_encode_wrap(s)) is None,
{
    reveal_strlit("action");
    reveal_strlit("amount");
    reveal_strlit("amount_usd");
    reveal_strlit("block");
    reveal_strlit("chain");
    reveal_strlit("contract_address");
    reveal_strlit("dex");
    reveal_strlit("from");
    reveal_strlit("index");
    reveal_strlit("name");
    reveal_strlit("symbol");
    reveal_strlit("timestamp");
    reveal_strlit("to");
    reveal_strlit("token0_address");
    reveal_strlit("token_icon_link");
    reveal_strlit("token_price_usd");
    reveal_strlit("token_type");
    reveal_strlit("tx_hash");
    reveal_strlit("tx_type");
    reveal_strlit("wallet");
    reveal_strlit("wallet_label");
    assert("action"@.len() == 6);
    assert("amount"@.len() == 6);
    assert("amount_usd"@.len() == 10);
    assert("block"@.len() == 5);
    assert("chain"@.len() == 5);
    assert("contract_address"@.len() == 16);
    assert("dex"@.len() == 3);
    assert("from"@.len() == 4);
    assert("index"@.len() == 5);
    assert("name"@.len() == 4);
    assert("symbol"@.len() == 6);
    assert("timestamp"@.len() == 9);
    assert("to"@.len() == 2);
    assert("token0_address"@.len() == 14);
    assert("token_icon_link"@.len() == 15);
    assert("token_price_usd"@.len() == 15);
    assert("token_type"@.len() == 10);
    assert("tx_hash"@.len() == 7);
    assert("tx_type"@.len() == 7);
    assert("wallet"@.len() == 6);
    assert("wallet_label"@.len() == 12);
    let ms = spec_encode_wrap(s);
    let mand = ms;
    assert(mand.len() == 20);
    assert(mand[0].0 == "wallet"@);
    assert(mand[1].0 == "wallet_label"@);
    assert(mand[2].0 == "tx_hash"@);
    assert(mand[3].0 == "tx_type"@);
    assert(mand[4].0 == "chain"@);
    assert(mand[5].0 == "index"@);
    assert(mand[6].0 == "timestamp"@);
    assert(mand[7].0 == "block"@);
    assert(mand[8].0 == "dex"@);
    assert(mand[9].0 == "from"@);
    assert(mand[10].0 == "to"@);
    assert(mand[11].0 == "action"@);
    assert(mand[12].0 == "amount"@);
    assert(mand[13].0 == "amount_usd"@);
    assert(mand[14].0 == "contract_address"@);
    assert(mand[15].0 == "name"@);
    assert(mand[16].0 == "symbol"@);
    assert(mand[17].0 == "token_price_usd"@);
    assert(mand[18].0 == "token_type"@);
    assert(mand[19].0 == "token_icon_link"@);
    assert forall|j: int| 0 <= j < mand.len() implies mand[j].0 != "token0_address"@ by {
        if j == 0 {
        } else if j == 1 {
        } else if j == 2 {
        } else if j == 3 {
        } else if j == 4 {
        } else if j == 5 {
        } else if j == 6 {
        } else if j == 7 {
        } else if j == 8 {
        } else if j == 9 {
        } else if j == 10 {
        } else if j == 11 {
        } else if j == 12 {
        } else if j == 13 {
        } else if j == 14 {
        } else if j == 15 {
        } else if j == 16 {
        } else if j == 17 {
        } else if j == 18 {
        } else if j == 19 {
        } else {
        }
    }
    lemma_lookup_absent(mand, "token0_address"@);
    assert(spec_decode_lp(ms) is None);
}

/// An encoded `wrap` record lacks `to_label`, which the `transfer` shape needs.
#[verifier::spinoff_prover]
proof fn lemma_wrap_not_transfer(s: WrapV)
    ensures
        spec_decode_transfer(spec_encode_wrap(s)) is None,
{
    reveal_strlit("action");
    reveal_strlit("amount");
    reveal_strlit("amount_usd");
    reveal_strlit("block");
    reveal_strlit("chain");
    reveal_strlit("contract_address");
    reveal_strlit("dex");
    reveal_strlit("from");
    reveal_strlit("index");
    reveal_strlit("name");
    reveal_strlit("symbol");
    reveal_strlit("timestamp");
    reveal_strlit("to");
    reveal_strlit("to_label");
    reveal_strlit("token_icon_link");
    reveal_strlit("token_price_usd");
    reveal_strlit("token_type");
    reveal_strlit("tx_hash");
    reveal_strlit("tx_type");
    reveal_strlit("wallet");
    reveal_strlit("wallet_label");
    assert("action"@.len() == 6);
    assert("amount"@.len() == 6);
    assert("amount_usd"@.len() == 10);
    assert("block"@.len() == 5);
    assert("chain"@.len() == 5);
    assert("contract_address"@.len() == 16);
    assert("dex"@.len() == 3);
    assert("from"@.len() == 4);
    assert("index"@.len() == 5);
    assert("name"@.len() == 4);
    assert("symbol"@.len() == 6);
    assert("timestamp"@.len() == 9);
    assert("to"@.len() == 2);
    assert("to_label"@.len() == 8);
    assert("token_icon_link"@.len() == 15);
    assert("token_price_usd"@.len() == 15);
    assert("token_type"@.len() == 10);
    assert("tx_hash"@.len() == 7);
    assert("tx_type"@.len() == 7);
    assert("wallet"@.len() == 6);
    assert("wallet_label"@.len() == 12);
    let ms = spec_encode_wrap(s);
    let mand = ms;
    assert(mand.len() == 20);
    assert(mand[0].0 == "wallet"@);
    assert(mand[1].0 == "wallet_label"@);
    assert(mand[2].0 == "tx_hash"@);
    assert(mand[3].0 == "tx_type"@);
    assert(mand[4].0 == "chain"@);
    assert(mand[5].0 == "index"@);
    assert(mand[6].0 == "timestamp"@);
    assert(mand[7].0 == "block"@);
    assert(mand[8].0 == "dex"@);
    assert(mand[9].0 == "from"@);
    assert(mand[10].0 == "to"@);
    assert(mand[11].0 == "action"@);
    assert(mand[12].0 == "amount"@);
    assert(mand[13].0 == "amount_usd"@);
    assert(mand[14].0 == "contract_address"@);
    assert(mand[15].0 == "name"@);
    assert(mand[16].0 == "symbol"@);
    assert(mand[17].0 == "token_price_usd"@);
    assert(mand[18].0 == "token_type"@);
    assert(mand[19].0 == "token_icon_link"@);
    assert forall|j: int| 0 <= j < mand.len() implies mand[j].0 != "to_label"@ by {
        if j == 0 {
        } else if j == 1 {
        } else if j == 2 {
        } else if j == 3 {
        } else if j == 4 {
        } else if j == 5 {
        } else if j == 6 {
        } else if j == 7 {
        } else if j == 8 {
        } else if j == 9 {
        } else if j == 10 {
        } else if j == 11 {
        } else if j == 12 {
        } else if j == 13 {
        } else if j == 14 {
        } else if j == 15 {
        } else if j == 16 {
        } else if j == 17 {
        } else if j == 18 {
        } else if j == 19 {
        } else {
        }
    }
    lemma_lookup_absent(mand, "to_label"@);
    assert(spec_decode_transfer(ms) is None);
}

/// An encoded `wrap` record lacks `health_factor`, which the `lending` shape needs.
#[verifier::spinoff_prover]
proof fn lemma_wrap_not_lending(s: WrapV)
    ensures
        spec_decode_lending(spec_encode_wrap(s)) is None,
{
    reveal_strlit("action");
    reveal_strlit("amount");
    reveal_strlit("amount_usd");
    reveal_strlit("block");
    reveal_strlit("chain");
    reveal_strlit("contract_address");
    reveal_strlit("dex");
    reveal_strlit("from");
    reveal_strlit("health_factor");
    reveal_strlit("index");
    reveal_strlit("name");
    reveal_strlit("symbol");
    reveal_strlit("timestamp");
    reveal_strlit("to");
    reveal_strlit("token_icon_link");
    reveal_strlit("token_price_usd");
    reveal_strlit("token_type");
    reveal_strlit("tx_hash");
    reveal_strlit("tx_type");
    reveal_strlit("wallet");
    reveal_strlit("wallet_label");
    assert("action"@.len() == 6);
    assert("amount"@.len() == 6);
    assert("amount_usd"@.len() == 10);
    assert("block"@.len() == 5);
    assert("chain"@.len() == 5);
    assert("contract_address"@.len() == 16);
    assert("dex"@.len() == 3);
    assert("from"@.len() == 4);
    assert("health_factor"@.len() == 13);
    assert("index"@.len() == 5);
    assert("name"@.len() == 4);
    assert("symbol"@.len() == 6);
    assert("timestamp"@.len() == 9);
    assert("to"@.len() == 2);
    assert("token_icon_link"@.len() == 15);
    assert("token_price_usd"@.len() == 15);
    assert("token_type"@.len() == 10);
    assert("tx_hash"@.len() == 7);
    assert("tx_type"@.len() == 7);
    assert("wallet"@.len() == 6);
    assert("wallet_label"@.len() == 12);
    let ms = spec_encode_wrap(s);
    let mand = ms;
    assert(mand.len() == 20);
    assert(mand[0].0 == "wallet"@);
    assert(mand[1].0 == "wallet_label"@);
    assert(mand[2].0 == "tx_hash"@);
    assert(mand[3].0 == "tx_type"@);
    assert(mand[4].0 == "chain"@);
    assert(mand[5].0 == "index"@);
    assert(mand[6].0 == "timestamp"@);
    assert(mand[7].0 == "block"@);
    assert(mand[8].0 == "dex"@);
    assert(mand[9].0 == "from"@);
    assert(mand[10].0 == "to"@);
    assert(mand[11].0 == "action"@);
    assert(mand[12].0 == "amount"@);
    assert(mand[13].0 == "amount_usd"@);
    assert(mand[14].0 == "contract_address"@);
    assert(mand[15].0 == "name"@);
    assert(mand[16].0 == "symbol"@);
    assert(mand[17].0 == "token_price_usd"@);
    assert(mand[18].0 == "token_type"@);
    assert(mand[19].0 == "token_icon_link"@);
    assert forall|j: int| 0 <= j < mand.len() implies mand[j].0 != "health_factor"@ by {
        if j == 0 {
        } else if j == 1 {
        } else if j == 2 {
        } else if j == 3 {
        } else if j == 4 {
        } else if j == 5 {
        } else if j == 6 {
        } else if j == 7 {
        } else if j == 8 {
        } else if j == 9 {
        } else if j == 10 {
        } else if j == 11 {
        } else if j == 12 {
        } else if j == 13 {
        } else if j == 14 {
        } else if j == 15 {
        } else if j == 16 {
        } else if j == 17 {
        } else if j == 18 {
        } else if j == 19 {
        } else {
        }
    }
    lemma_lookup_absent(mand, "health_factor"@);
    assert(spec_decode_lending(ms) is None);
}

/// An encoded `wrap` record lacks `to_label`, which the `nft_mint` shape needs.
#[verifier::spinoff_prover]
proof fn lemma_wrap_not_nft_mint(s: WrapV)
    ensures
        spec_decode_nft_mint(spec_encode_wrap(s)) is None,
{
    reveal_strlit("action");
    reveal_strlit("amount");
    reveal_strlit("amount_usd");
    reveal_strlit("block");
    reveal_strlit("chain");
    reveal_strlit("contract_address");
    reveal_strlit("dex");
    reveal_strlit("from");
    reveal_strlit("index");
    reveal_strlit("name");
    reveal_strlit("symbol");
    reveal_strlit("timestamp");
    reveal_strlit("to");
    reveal_strlit("to_label");
    reveal_strlit("token_icon_link");
    reveal_strlit("token_price_usd");
    reveal_strlit("token_type");
    reveal_strlit("tx_hash");
    reveal_strlit("tx_type");
    reveal_strlit("wallet");
    reveal_strlit("wallet_label");
    assert("action"@.len() == 6);
    assert("amount"@.len() == 6);
    assert("amount_usd"@.len() == 10);
    assert("block"@.len() == 5);
    assert("chain"@.len() == 5);
    assert("contract_address"@.len() == 16);
    assert("dex"@.len() == 3);
    assert("from"@.len() == 4);
    assert("index"@.len() == 5);
    assert("name"@.len() == 4);
    assert("symbol"@.len() == 6);
    assert("timestamp"@.len() == 9);
    assert("to"@.len() == 2);
    assert("to_label"@.len() == 8);
    assert("token_icon_link"@.len() == 15);
    assert("token_price_usd"@.len() == 15);
    assert("token_type"@.len() == 10);
    assert("tx_hash"@.len() == 7);
    assert("tx_type"@.len() == 7);
    assert("wallet"@.len() == 6);
    assert("wallet_label"@.len() == 12);
    let ms = spec_encode_wrap(s);
    let mand = ms;
    assert(mand.len() == 20);
    assert(mand[0].0 == "wallet"@);
    assert(mand[1].0 == "wallet_label"@);
    assert(mand[2].0 == "tx_hash"@);
    assert(mand[3].0 == "tx_type"@);
    assert(mand[4].0 == "chain"@);
    assert(mand[5].0 == "index"@);
    assert(mand[6].0 == "timestamp"@);
    assert(mand[7].0 == "block"@);
    assert(mand[8].0 == "dex"@);
    assert(mand[9].0 == "from"@);
    assert(mand[10].0 == "to"@);
    assert(mand[11].0 == "action"@);
    assert(mand[12].0 == "amount"@);
    assert(mand[13].0 == "amount_usd"@);
    assert(mand[14].0 == "contract_address"@);
    assert(mand[15].0 == "name"@);
    assert(mand[16].0 == "symbol"@);
    assert(mand[17].0 == "token_price_usd"@);
    assert(mand[18].0 == "token_type"@);
    assert(mand[19].0 == "token_icon_link"@);
    assert forall|j: int| 0 <= j < mand.len() implies mand[j].0 != "to_label"@ by {
        if j == 0 {
        } else if j == 1 {
        } else if j == 2 {
        } else if j == 3 {
        } else if j == 4 {
        } else if j == 5 {
        } else if j == 6 {
        } else if j == 7 {
        } else if j == 8 {
        } else if j == 9 {
        } else if j == 10 {
        } else if j == 11 {
        } else if j == 12 {
        } else if j == 13 {
        } else if j == 14 {
        } else if j == 15 {
        } else if j == 16 {
        } else if j == 17 {
        } else if j == 18 {
        } else if j == 19 {
        } else {
        }
    }
    lemma_lookup_absent(mand, "to_label"@);
    assert(spec_decode_nft_mint(ms) is None);
}

/// An encoded `wrap` record lacks `contract`, which the `nft_trade` shape needs.
#[verifier::spinoff_prover]
proof fn lemma_wrap_not_nft_trade(s: WrapV)
    ensures
        spec_decode_nft_trade(spec_encode_wrap(s)) is None,
{
    reveal_strlit("action");
    reveal_strlit("amount");
    reveal_strlit("amount_usd");
    reveal_strlit("block");
    reveal_strlit("chain");
    reveal_strlit("contract");
    reveal_strlit("contract_address");
    reveal_strlit("dex");
    reveal_strlit("from");
    reveal_strlit("index");
    reveal_strlit("name");
    reveal_strlit("symbol");
    reveal_strlit("timestamp");
    reveal_strlit("to");
    reveal_strlit("token_icon_link");
    reveal_strlit("token_price_usd");
    reveal_strlit("token_type");
    reveal_strlit("tx_hash");
    reveal_strlit("tx_type");
    reveal_strlit("wallet");
    reveal_strlit("wallet_label");
    assert("action"@.len() == 6);
    assert("amount"@.len() == 6);
    assert("amount_usd"@.len() == 10);
    assert("block"@.len() == 5);
    assert("chain"@.len() == 5);
    assert("contract"@.len() == 8);
    assert("contract_address"@.len() == 16);
    assert("dex"@.len() == 3);
    assert("from"@.len() == 4);
    assert("index"@.len() == 5);
    assert("name"@.len() == 4);
    assert("symbol"@.len() == 6);
    assert("timestamp"@.len() == 9);
    assert("to"@.len() == 2);
    assert("token_icon_link"@.len() == 15);
    assert("token_price_usd"@.len() == 15);
    assert("token_type"@.len() == 10);
    assert("tx_hash"@.len() == 7);
    assert("tx_type"@.len() == 7);
    assert("wallet"@.len() == 6);
    assert("wallet_label"@.len() == 12);
    let ms = spec_encode_wrap(s);
    let mand = ms;
    assert(mand.len() == 20);
    assert(mand[0].0 == "wallet"@);
    assert(mand[1].0 == "wallet_label"@);
    assert(mand[2].0 == "tx_hash"@);
    assert(mand[3].0 == "tx_type"@);
    assert(mand[4].0 == "chain"@);
    assert(mand[5].0 == "index"@);
    assert(mand[6].0 == "timestamp"@);
    assert(mand[7].0 == "block"@);
    assert(mand[8].0 == "dex"@);
    assert(mand[9].0 == "from"@);
    assert(mand[10].0 == "to"@);
    assert(mand[11].0 == "action"@);
    assert(mand[12].0 == "amount"@);
    assert(mand[13].0 == "amount_usd"@);
    assert(mand[14].0 == "contract_address"@);
    assert(mand[15].0 == "name"@);
    assert(mand[16].0 == "symbol"@);
    assert(mand[17].0 == "token_price_usd"@);
    assert(mand[18].0 == "token_type"@);
    assert(mand[19].0 == "token_icon_link"@);
    assert forall|j: int| 0 <= j < mand.len() implies mand[j].0 != "contract"@ by {
        if j == 0 {
        } else if j == 1 {
        } else if j == 2 {
        } else if j == 3 {
        } else if j == 4 {
        } else if j == 5 {
        } else if j == 6 {
        } else if j == 7 {
        } else if j == 8 {
        } else if j == 9 {
        } else if j == 10 {
        } else if j == 11 {
        } else if j == 12 {
        } else if j == 13 {
        } else if j == 14 {
        } else if j == 15 {
        } else if j == 16 {
        } else if j == 17 {
        } else if j == 18 {
        } else if j == 19 {
        } else {
        }
    }
    lemma_lookup_absent(mand, "contract"@);
    assert(spec_decode_nft_trade(ms) is None);
}

/// An encoded `wrap` record lacks `to_label`, which the `nft_transfer` shape needs.
#[verifier::spinoff_prover]
proof fn lemma_wrap_not_nft_transfer(s: WrapV)
    ensures
        spec_decode_nft_transfer(spec_encode_wrap(s)) is None,
{
    reveal_strlit("action");
    reveal_strlit("amount");
    reveal_strlit("amount_usd");
    reveal_strlit("block");
    reveal_strlit("chain");
    reveal_strlit("contract_address");
    reveal_strlit("dex");
    reveal_strlit("from");
    reveal_strlit("index");
    reveal_strlit("name");
    reveal_strlit("symbol");
    reveal_strlit("timestamp");
    reveal_strlit("to");
    reveal_strlit("to_label");
    reveal_strlit("token_icon_link");
    reveal_strlit("token_price_usd");
    reveal_strlit("token_type");
    reveal_strlit("tx_hash");
    reveal_strlit("tx_type");
    reveal_strlit("wallet");
    reveal_strlit("wallet_label");
    assert("action"@.len() == 6);
    assert("amount"@.len() == 6);
    assert("amount_usd"@.len() == 10);
    assert("block"@.len() == 5);
    assert("chain"@.len() == 5);
    assert("contract_address"@.len() == 16);
    assert("dex"@.len() == 3);
    assert("from"@.len() == 4);
    assert("index"@.len() == 5);
    assert("name"@.len() == 4);
    assert("symbol"@.len() == 6);
    assert("timestamp"@.len() == 9);
    assert("to"@.len() == 2);
    assert("to_label"@.len() == 8);
    assert("token_icon_link"@.len() == 15);
    assert("token_price_usd"@.len() == 15);
    assert("token_type"@.len() == 10);
    assert("tx_hash"@.len() == 7);
    assert("tx_type"@.len() == 7);
    assert("wallet"@.len() == 6);
    assert("wallet_label"@.len() == 12);
    let ms = spec_encode_wrap(s);
    let mand = ms;
    assert(mand.len() == 20);
    assert(mand[0].0 == "wallet"@);
    assert(mand[1].0 == "wallet_label"@);
    assert(mand[2].0 == "tx_hash"@);
    assert(mand[3].0 == "tx_type"@);
    assert(mand[4].0 == "chain"@);
    assert(mand[5].0 == "index"@);
    assert(mand[6].0 == "timestamp"@);
    assert(mand[7].0 == "block"@);
    assert(mand[8].0 == "dex"@);
    assert(mand[9].0 == "from"@);
    assert(mand[10].0 == "to"@);
    assert(mand[11].0 == "action"@);
    assert(mand[12].0 == "amount"@);
    assert(mand[13].0 == "amount_usd"@);
    assert(mand[14].0 == "contract_address"@);
    assert(mand[15].0 == "name"@);
    assert(mand[16].0 == "symbol"@);
    assert(mand[17].0 == "token_price_usd"@);
    assert(mand[18].0 == "token_type"@);
    assert(mand[19].0 == "token_icon_link"@);
    assert forall|j: int| 0 <= j < mand.len() implies mand[j].0 != "to_label"@ by {
        if j == 0 {
        } else if j == 1 {
        } else if j == 2 {
        } else if j == 3 {
        } else if j == 4 {
        } else if j == 5 {
        } else if j == 6 {
        } else if j == 7 {
        } else if j == 8 {
        } else if j == 9 {
        } else if j == 10 {
        } else if j == 11 {
        } else if j == 12 {
        } else if j == 13 {
        } else if j == 14 {
        } else if j == 15 {
        } else if j == 16 {
        } else if j == 17 {
        } else if j == 18 {
        } else if j == 19 {
        } else {
        }
    }
    lemma_lookup_absent(mand, "to_label"@);
    assert(spec_decode_nft_transfer(ms) is None);
}

/// An encoded `wrap` record lacks `to_label`, which the `nft_lending` shape needs.
#[verifier::spinoff_prover]
proof fn lemma_wrap_not_nft_lending(s: WrapV)
    ensures
        spec_decode_nft_lending(spec_encode_wrap(s)) is None,
{
    reveal_strlit("action");
    reveal_strlit("amount");
    reveal_strlit("amount_usd");
    reveal_strlit("block");
    reveal_strlit("chain");
    reveal_strlit("contract_address");
    reveal_strlit("dex");
    reveal_strlit("from");
    reveal_strlit("index");
    reveal_strlit("name");
    reveal_strlit("symbol");
    reveal_strlit("timestamp");
    reveal_strlit("to");
    reveal_strlit("to_label");
    reveal_strlit("token_icon_link");
    reveal_strlit("token_price_usd");
    reveal_strlit("token_type");
    reveal_strlit("tx_hash");
    reveal_strlit("tx_type");
    reveal_strlit("wallet");
    reveal_strlit("wallet_label");
    assert("action"@.len() == 6);
    assert("amount"@.len() == 6);
    assert("amount_usd"@.len() == 10);
    assert("block"@.len() == 5);
    assert("chain"@.len() == 5);
    assert("contract_address"@.len() == 16);
    assert("dex"@.len() == 3);
    assert("from"@.len() == 4);
    assert("index"@.len() == 5);
    assert("name"@.len() == 4);
    assert("symbol"@.len() == 6);
    assert("timestamp"@.len() == 9);
    assert("to"@.len() == 2);
    assert("to_label"@.len() == 8);
    assert("token_icon_link"@.len() == 15);
    assert("token_price_usd"@.len() == 15);
    assert("token_type"@.len() == 10);
    assert("tx_hash"@.len() == 7);
    assert("tx_type"@.len() == 7);
    assert("wallet"@.len() == 6);
    assert("wallet_label"@.len() == 12);
    let ms = spec_encode_wrap(s);
    let mand = ms;
    assert(mand.len() == 20);
    assert(mand[0].0 == "wallet"@);
    assert(mand[1].0 == "wallet_label"@);
    assert(mand[2].0 == "tx_hash"@);
    assert(mand[3].0 == "tx_type"@);
    assert(mand[4].0 == "chain"@);
    assert(mand[5].0 == "index"@);
    assert(mand[6].0 == "timestamp"@);
    assert(mand[7].0 == "block"@);
    assert(mand[8].0 == "dex"@);
    assert(mand[9].0 == "from"@);
    assert(mand[10].0 == "to"@);
    assert(mand[11].0 == "action"@);
    assert(mand[12].0 == "amount"@);
    assert(mand[13].0 == "amount_usd"@);
    assert(mand[14].0 == "contract_address"@);
    assert(mand[15].0 == "name"@);
    assert(mand[16].0 == "symbol"@);
    assert(mand[17].0 == "token_price_usd"@);
    assert(mand[18].0 == "token_type"@);
    assert(mand[19].0 == "token_icon_link"@);
    assert forall|j: int| 0 <= j < mand.len() implies mand[j].0 != "to_label"@ by {
        if j == 0 {
        } else if j == 1 {
        } else if j == 2 {
        } else if j == 3 {
        } else if j == 4 {
        } else if j == 5 {
        } else if j == 6 {
        } else if j == 7 {
        } else if j == 8 {
        } else if j == 9 {
        } else if j == 10 {
        } else if j == 11 {
        } else if j == 12 {
        } else if j == 13 {
        } else if j == 14 {
        } else if j == 15 {
        } else if j == 16 {
        } else if j == 17 {
        } else if j == 18 {
        } else if j == 19 {
        } else {
        }
    }
    lemma_lookup_absent(mand, "to_label"@);
    assert(spec_decode_nft_lending(ms) is None);
}

/// An encoded `wrap` record lacks `to_label`, which the `bridge` shape needs.
#[verifier::spinoff_prover]
proof fn lemma_wrap_not_bridge(s: WrapV)
    ensures
        spec_decode_bridge(spec_encode_wrap(s)) is None,
{
    reveal_strlit("action");
    reveal_strlit("amount");
    reveal_strlit("amount_usd");
    reveal_strlit("block");
    reveal_strlit("chain");
    reveal_strlit("contract_address");
    reveal_strlit("dex");
    reveal_strlit("from");
    reveal_strlit("index");
    reveal_strlit("name");
    reveal_strlit("symbol");
    reveal_strlit("timestamp");
    reveal_strlit("to");
    reveal_strlit("to_label");
    reveal_strlit("token_icon_link");
    reveal_strlit("token_price_usd");
    reveal_strlit("token_type");
    reveal_strlit("tx_hash");
    reveal_strlit("tx_type");
    reveal_strlit("wallet");
    reveal_strlit("wallet_label");
    assert("action"@.len() == 6);
    assert("amount"@.len() == 6);
    assert("amount_usd"@.len() == 10);
    assert("block"@.len() == 5);
    assert("chain"@.len() == 5);
    assert("contract_address"@.len() == 16);
    assert("dex"@.len() == 3);
    assert("from"@.len() == 4);
    assert("index"@.len() == 5);
    assert("name"@.len() == 4);
    assert("symbol"@.len() == 6);
    assert("timestamp"@.len() == 9);
    assert("to"@.len() == 2);
    assert("to_label"@.len() == 8);
    assert("token_icon_link"@.len() == 15);
    assert("token_price_usd"@.len() == 15);
    assert("token_type"@.len() == 10);
    assert("tx_hash"@.len() == 7);
    assert("tx_type"@.len() == 7);
    assert("wallet"@.len() == 6);
    assert("wallet_label"@.len() == 12);
    let ms = spec_encode_wrap(s);
    let mand = ms;
    assert(mand.len() == 20);
    assert(mand[0].0 == "wallet"@);
    assert(mand[1].0 == "wallet_label"@);
    assert(mand[2].0 == "tx_hash"@);
    assert(mand[3].0 == "tx_type"@);
    assert(mand[4].0 == "chain"@);
    assert(mand[5].0 == "index"@);
    assert(mand[6].0 == "timestamp"@);
    assert(mand[7].0 == "block"@);
    assert(mand[8].0 == "dex"@);
    assert(mand[9].0 == "from"@);
    assert(mand[10].0 == "to"@);
    assert(mand[11].0 == "action"@);
    assert(mand[12].0 == "amount"@);
    assert(mand[13].0 == "amount_usd"@);
    assert(mand[14].0 == "contract_address"@);
    assert(mand[15].0 == "name"@);
    assert(mand[16].0 == "symbol"@);
    assert(mand[17].0 == "token_price_usd"@);
    assert(mand[18].0 == "token_type"@);
    assert(mand[19].0 == "token_icon_link"@);
    assert forall|j: int| 0 <= j < mand.len() implies mand[j].0 != "to_label"@ by {
        if j == 0 {
        } else if j == 1 {
        } else if j == 2 {
        } else if j == 3 {
        } else if j == 4 {
        } else if j == 5 {
        } else if j == 6 {
        } else if j == 7 {
        } else if j == 8 {
        } else if j == 9 {
        } else if j == 10 {
        } else if j == 11 {
        } else if j == 12 {
        } else if j == 13 {
        } else if j == 14 {
        } else if j == 15 {
        } else if j == 16 {
        } else if j == 17 {
        } else if j == 18 {
        } else if j == 19 {
        } else {
        }
    }
    lemma_lookup_absent(mand, "to_label"@);
    assert(spec_decode_bridge(ms) is None);
}

/// An encoded `wrap` record lacks `contract_label`, which the `contract_interaction` shape needs.
#[verifier::spinoff_prover]
proof fn lemma_wrap_not_contract_interaction(s: WrapV)
    ensures
        spec_decode_contract_interaction(spec_encode_wrap(s)) is None,
{
    reveal_strlit("action");
    reveal_strlit("amount");
    reveal_strlit("amount_usd");
    reveal_strlit("block");
    reveal_strlit("chain");
    reveal_strlit("contract_address");
    reveal_strlit("contract_label");
    reveal_strlit("dex");
    reveal_strlit("from");
    reveal_strlit("index");
    reveal_strlit("name");
    reveal_strlit("symbol");
    reveal_strlit("timestamp");
    reveal_strlit("to");
    reveal_strlit("token_icon_link");
    reveal_strlit("token_price_usd");
    reveal_strlit("token_type");
    reveal_strlit("tx_hash");
    reveal_strlit("tx_type");
    reveal_strlit("wallet");
    reveal_strlit("wallet_label");
    assert("action"@.len() == 6);
    assert("amount"@.len() == 6);
    assert("amount_usd"@.len() == 10);
    assert("block"@.len() == 5);
    assert("chain"@.len() == 5);
    assert("contract_address"@.len() == 16);
    assert("contract_label"@.len() == 14);
    assert("dex"@.len() == 3);
    assert("from"@.len() == 4);
    assert("index"@.len() == 5);
    assert("name"@.len() == 4);
    assert("symbol"@.len() == 6);
    assert("timestamp"@.len() == 9);
    assert("to"@.len() == 2);
    assert("token_icon_link"@.len() == 15);
    assert("token_price_usd"@.len() == 15);
    assert("token_type"@.len() == 10);
    assert("tx_hash"@.len() == 7);
    assert("tx_type"@.len() == 7);
    assert("wallet"@.len() == 6);
    assert("wallet_label"@.len() == 12);
    let ms = spec_encode_wrap(s);
    let mand = ms;
    assert(mand.len() == 20);
    assert(mand[0].0 == "wallet"@);
    assert(mand[1].0 == "wallet_label"@);
    assert(mand[2].0 == "tx_hash"@);
    assert(mand[3].0 == "tx_type"@);
    assert(mand[4].0 == "chain"@);
    assert(mand[5].0 == "index"@);
    assert(mand[6].0 == "timestamp"@);
    assert(mand[7].0 == "block"@);
    assert(mand[8].0 == "dex"@);
    assert(mand[9].0 == "from"@);
    assert(mand[10].0 == "to"@);
    assert(mand[11].0 == "action"@);
    assert(mand[12].0 == "amount"@);
    assert(mand[13].0 == "amount_usd"@);
    assert(mand[14].0 == "contract_address"@);
    assert(mand[15].0 == "name"@);
    assert(mand[16].0 == "symbol"@);
    assert(mand[17].0 == "token_price_usd"@);
    assert(mand[18].0 == "token_type"@);
    assert(mand[19].0 == "token_icon_link"@);
    assert forall|j: int| 0 <= j < mand.len() implies mand[j].0 != "contract_label"@ by {
        if j == 0 {
        } else if j == 1 {
        } else if j == 2 {
        } else if j == 3 {
        } else if j == 4 {
        } else if j == 5 {
        } else if j == 6 {
        } else if j == 7 {
        } else if j == 8 {
        } else if j == 9 {
        } else if j == 10 {
        } else if j == 11 {
        } else if j == 12 {
        } else if j == 13 {
        } else if j == 14 {
        } else if j == 15 {
        } else if j == 16 {
        } else if j == 17 {
        } else if j == 18 {
        } else if j == 19 {
        } else {
        }
    }
    lemma_lookup_absent(mand, "contract_label"@);
    assert(spec_decode_contract_interaction(ms) is None);
}

/// Decoding an encoded `wrap` record yields it back.
#[verifier::rlimit(50)]
#[verifier::spinoff_prover]
pub proof fn lemma_wrap_round_trip(s: WrapV)
    ensures
        spec_decode_item(spec_encode_item(ItemV::Wrap(s))) == Some(ItemV::Wrap(s)),
{
    reveal_strlit("action");
    reveal_strlit("amount");
    reveal_strlit("amount_usd");
    reveal_strlit("block");
    reveal_strlit("chain");
    reveal_strlit("contract_address");
    reveal_strlit("dex");
    reveal_strlit("from");
    reveal_strlit("index");
    reveal_strlit("name");
    reveal_strlit("symbol");
    reveal_strlit("timestamp");
    reveal_strlit("to");
    reveal_strlit("token_icon_link");
    reveal_strlit("token_price_usd");
    reveal_strlit("token_type");
    reveal_strlit("tx_hash");
    reveal_strlit("tx_type");
    reveal_strlit("wallet");
    reveal_strlit("wallet_label");
    assert("action"@.len() == 6);
    assert("amount"@.len() == 6);
    assert("amount_usd"@.len() == 10);
    assert("block"@.len() == 5);
    assert("chain"@.len() == 5);
    assert("contract_address"@.len() == 16);
    assert("dex"@.len() == 3);
    assert("from"@.len() == 4);
    assert("index"@.len() == 5);
    assert("name"@.len() == 4);
    assert("symbol"@.len() == 6);
    assert("timestamp"@.len() == 9);
    assert("to"@.len() == 2);
    assert("token_icon_link"@.len() == 15);
    assert("token_price_usd"@.len() == 15);
    assert("token_type"@.len() == 10);
    assert("tx_hash"@.len() == 7);
    assert("tx_type"@.len() == 7);
    assert("wallet"@.len() == 6);
    assert("wallet_label"@.len() == 12);
    assert("action"@[0] == 'a');
    assert("action"@[1] == 'c');
    assert("amount"@[0] == 'a');
    assert("amount"@[1] == 'm');
    assert("amount_usd"@[0] == 'a');
    assert("block"@[0] == 'b');
    assert("chain"@[0] == 'c');
    assert("from"@[0] == 'f');
    assert("index"@[0] == 'i');
    assert("name"@[0] == 'n');
    assert("symbol"@[0] == 's');
    assert("token_icon_link"@[6] == 'i');
    assert("token_price_usd"@[6] == 'p');
    assert("token_type"@[0] == 't');
    assert("tx_hash"@[3] == 'h');
    assert("tx_type"@[3] == 't');
    assert("wallet"@[0] == 'w');
    let ms = spec_encode_wrap(s);
    let mand = ms;
    assert(mand.len() == 20);
    assert(mand[0].0 == "wallet"@);
    assert(mand[1].0 == "wallet_label"@);
    assert(mand[2].0 == "tx_hash"@);
    assert(mand[3].0 == "tx_type"@);
    assert(mand[4].0 == "chain"@);
    assert(mand[5].0 == "index"@);
    assert(mand[6].0 == "timestamp"@);
    assert(mand[7].0 == "block"@);
    assert(mand[8].0 == "dex"@);
    assert(mand[9].0 == "from"@);
    assert(mand[10].0 == "to"@);
    assert(mand[11].0 == "action"@);
    assert(mand[12].0 == "amount"@);
    assert(mand[13].0 == "amount_usd"@);
    assert(mand[14].0 == "contract_address"@);
    assert(mand[15].0 == "name"@);
    assert(mand[16].0 == "symbol"@);
    assert(mand[17].0 == "token_price_usd"@);
    assert(mand[18].0 == "token_type"@);
    assert(mand[19].0 == "token_icon_link"@);
    lemma_lookup_first(mand, 0);
    lemma_lookup_first(mand, 1);
    lemma_lookup_first(mand, 2);
    lemma_lookup_first(mand, 3);
    lemma_lookup_first(mand, 4);
    lemma_lookup_first(mand, 5);
    lemma_lookup_first(mand, 6);
    lemma_lookup_first(mand, 7);
    lemma_lookup_first(mand, 8);
    lemma_lookup_first(mand, 9);
    lemma_lookup_first(mand, 10);
    lemma_lookup_first(mand, 11);
    lemma_lookup_first(mand, 12);
    lemma_lookup_first(mand, 13);
    lemma_lookup_first(mand, 14);
    lemma_lookup_first(mand, 15);
    lemma_lookup_first(mand, 16);
    lemma_lookup_first(mand, 17);
    lemma_lookup_first(mand, 18);
    lemma_lookup_first(mand, 19);
    lemma_wrap_not_swap(s);
    lemma_wrap_not_lp(s);
    lemma_wrap_not_transfer(s);
    lemma_wrap_not_lending(s);
    lemma_wrap_not_nft_mint(s);
    lemma_wrap_not_nft_trade(s);
    lemma_wrap_not_nft_transfer(s);
    lemma_wrap_not_nft_lending(s);
    lemma_wrap_not_bridge(s);
    lemma_wrap_not_contract_interaction(s);
    assert(spec_decode_wrap(ms) == Some(WrapV {
        wallet: s.wallet,
        wallet_label: s.wallet_label,
        tx_hash: s.tx_hash,
        tx_type: s.tx_type,
        chain: s.chain,
        index: s.index,
        timestamp: s.timestamp,
        block: s.block,
        dex: s.dex,
        from: s.from,
        to: s.to,
        action: s.action,
        amount: s.amount,
        amount_usd: s.amount_usd,
        contract_address: s.contract_address,
        name: s.name,
        symbol: s.symbol,
        token_price_usd: s.token_price_usd,
        token_type: s.token_type,
        token_icon_link: s.token_icon_link,
    }));
}

/// The `block` member of an encoded `sudo_pool` record holds the field.
#[verifier::spinoff_prover]
proof fn lemma_sudo_pool_block_member(s: SudoPoolV)
    ensures
        spec_opt_u64_field(spec_encode_sudo_pool(s), "block"@) == Some(s.block),
{
    reveal_strlit("block");
    reveal_strlit("chain");
    reveal_strlit("dex");
    reveal_strlit("from");
    reveal_strlit("index");
    reveal_strlit("nft_address");
    reveal_strlit("nft_amount");
    reveal_strlit("nft_price");
    reveal_strlit("nft_symbol");
    reveal_strlit("timestamp");
    reveal_strlit("to");
    reveal_strlit("token0_address");
    reveal_strlit("token0_amount");
    reveal_strlit("token0_amount_usd");
    reveal_strlit("token0_icon_link");
    reveal_strlit("token0_name");
    reveal_strlit("token0_price_usd");
    reveal_strlit("token0_symbol");
    reveal_strlit("tx_hash");
    reveal_strlit("tx_type");
    reveal_strlit("wallet");
    reveal_strlit("wallet_label");
    assert("block"@.len() == 5);
    assert("chain"@.len() == 5);
    assert("dex"@.len() == 3);
    assert("from"@.len() == 4);
    assert("index"@.len() == 5);
    assert("nft_address"@.len() == 11);
    assert("nft_amount"@.len() == 10);
    assert("nft_price"@.len() == 9);
    assert("nft_symbol"@.len() == 10);
    assert("timestamp"@.len() == 9);
    assert("to"@.len() == 2);
    assert("token0_address"@.len() == 14);
    assert("token0_amount"@.len() == 13);
    assert("token0_amount_usd"@.len() == 17);
    assert("token0_icon_link"@.len() == 16);
    assert("token0_name"@.len() == 11);
    assert("token0_price_usd"@.len() == 16);
    assert("token0_symbol"@.len() == 13);
    assert("tx_hash"@.len() == 7);
    assert("tx_type"@.len() == 7);
    assert("wallet"@.len() == 6);
    assert("wallet_label"@.len() == 12);
    assert("block"@[0] == 'b');
    assert("chain"@[0] == 'c');
    assert("index"@[0] == 'i');
    let ms = spec_encode_sudo_pool(s);
    let mand: Seq<(Seq<char>, JsonVal)> = seq![
        ("wallet"@, JsonVal::Str(s.wallet)),
        ("wallet_label"@, JsonVal::Str(s.wallet_label)),
        ("tx_hash"@, JsonVal::Str(s.tx_hash)),
        ("tx_type"@, JsonVal::Str(s.tx_type)),
        ("chain"@, JsonVal::Str(s.chain)),
        ("index"@, JsonVal::Num(JsonNumber::PosInt(s.index as u64))),
        ("timestamp"@, JsonVal::Num(JsonNumber::PosInt(s.timestamp))),
        ("from"@, JsonVal::Str(s.from)),
        ("nft_address"@, JsonVal::Str(s.nft_address)),
        ("nft_amount"@, JsonVal::Num(JsonNumber::PosInt(s.nft_amount as u64))),
        ("nft_price"@, JsonVal::Num(s.nft_price)),
        ("nft_symbol"@, JsonVal::Str(s.nft_symbol)),
        ("to"@, JsonVal::Str(s.to)),
        ("token0_address"@, JsonVal::Str(s.token0_address)),
        ("token0_amount"@, JsonVal::Num(s.token0_amount)),
        ("token0_amount_usd"@, JsonVal::Num(s.token0_amount_usd)),
        ("token0_name"@, JsonVal::Str(s.token0_name)),
        ("token0_price_usd"@, JsonVal::Num(s.token0_price_usd)),
        ("token0_symbol"@, JsonVal::Str(s.token0_symbol)),
        ("token0_icon_link"@, JsonVal::Str(s.token0_icon_link)),
    ];
    let ov_block: Option<JsonVal> = match s.block { Option::Some(x) => Option::Some(JsonVal::Num(JsonNumber::PosInt(x))), Option::None => Option::None };
    let seg_block = opt_member("block"@, ov_block);
    let ov_dex: Option<JsonVal> = match s.dex { Option::Some(x) => Option::Some(JsonVal::Str(x)), Option::None => Option::None };
    let seg_dex = opt_member("dex"@, ov_dex);
    let tail_2 = seg_dex;
    let tail_1 = seg_block + tail_2;
    assert(mand.len() == 20);
    assert(mand[0].0 == "wallet"@);
    assert(mand[1].0 == "wallet_label"@);
    assert(mand[2].0 == "tx_hash"@);
    assert(mand[3].0 == "tx_type"@);
    assert(mand[4].0 == "chain"@);
    assert(mand[5].0 == "index"@);
    assert(mand[6].0 == "timestamp"@);
    assert(mand[7].0 == "from"@);
    assert(mand[8].0 == "nft_address"@);
    assert(mand[9].0 == "nft_amount"@);
    assert(mand[10].0 == "nft_price"@);
    assert(mand[11].0 == "nft_symbol"@);
    assert(mand[12].0 == "to"@);
    assert(mand[13].0 == "token0_address"@);
    assert(mand[14].0 == "token0_amount"@);
    assert(mand[15].0 == "token0_amount_usd"@);
    assert(mand[16].0 == "token0_name"@);
    assert(mand[17].0 == "token0_price_usd"@);
    assert(mand[18].0 == "token0_symbol"@);
    assert(mand[19].0 == "token0_icon_link"@);
    assert forall|j: int| 0 <= j < mand.len() implies mand[j].0 != "block"@ by {
        if j == 0 {
        } else if j == 1 {
        } else if j == 2 {
        } else if j == 3 {
        } else if j == 4 {
        } else if j == 5 {
        } else if j == 6 {
        } else if j == 7 {
        } else if j == 8 {
        } else if j == 9 {
        } else if j == 10 {
        } else if j == 11 {
        } else if j == 12 {
        } else if j == 13 {
        } else if j == 14 {
        } else if j == 15 {
        } else if j == 16 {
        } else if j == 17 {
        } else if j == 18 {
        } else if j == 19 {
        } else {
        }
    }
    lemma_lookup_absent(mand, "block"@);
    lemma_lookup_concat_right(mand, tail_1, "block"@);
    lemma_opt_member_lookup("block"@, ov_block, "block"@);
    match s.block {
        Option::Some(x) => {
            lemma_lookup_concat_left(seg_block, tail_2, "block"@);
            assert(ms == mand + tail_1);
            assert(spec_opt_u64_field(spec_encode_sudo_pool(s), "block"@) == Some(s.block));
        },
        Option::None => {
            lemma_lookup_concat_right(seg_block, tail_2, "block"@);
            lemma_opt_member_lookup("dex"@, ov_dex, "block"@);
            assert(ms == mand + tail_1);
            assert(spec_opt_u64_field(spec_encode_sudo_pool(s), "block"@) == Some(s.block));
        },
    }
}

/// The `dex` member of an encoded `sudo_pool` record holds the field.
#[verifier::spinoff_prover]
proof fn lemma_sudo_pool_dex_member(s: SudoPoolV)
    ensures
        spec_opt_str_field(spec_encode_sudo_pool(s), "dex"@) == Some(s.dex),
{
    reveal_strlit("block");
    reveal_strlit("chain");
    reveal_strlit("dex");
    reveal_strlit("from");
    reveal_strlit("index");
    reveal_strlit("nft_address");
    reveal_strlit("nft_amount");
    reveal_strlit("nft_price");
    reveal_strlit("nft_symbol");
    reveal_strlit("timestamp");
    reveal_strlit("to");
    reveal_strlit("token0_address");
    reveal_strlit("token0_amount");
    reveal_strlit("token0_amount_usd");
    reveal_strlit("token0_icon_link");
    reveal_strlit("token0_name");
    reveal_strlit("token0_price_usd");
    reveal_strlit("token0_symbol");
    reveal_strlit("tx_hash");
    reveal_strlit("tx_type");
    reveal_strlit("wallet");
    reveal_strlit("wallet_label");
    assert("block"@.len() == 5);
    assert("chain"@.len() == 5);
    assert("dex"@.len() == 3);
    assert("from"@.len() == 4);
    assert("index"@.len() == 5);
    assert("nft_address"@.len() == 11);
    assert("nft_amount"@.len() == 10);
    assert("nft_price"@.len() == 9);
    assert("nft_symbol"@.len() == 10);
    assert("timestamp"@.len() == 9);
    assert("to"@.len() == 2);
    assert("token0_address"@.len() == 14);
    assert("token0_amount"@.len() == 13);
    assert("token0_amount_usd"@.len() == 17);
    assert("token0_icon_link"@.len() == 16);
    assert("token0_name"@.len() == 11);
    assert("token0_price_usd"@.len() == 16);
    assert("token0_symbol"@.len() == 13);
    assert("tx_hash"@.len() == 7);
    assert("tx_type"@.len() == 7);
    assert("wallet"@.len() == 6);
    assert("wallet_label"@.len() == 12);
    let ms = spec_encode_sudo_pool(s);
    let mand: Seq<(Seq<char>, JsonVal)> = seq![
        ("wallet"@, JsonVal::Str(s.wallet)),
        ("wallet_label"@, JsonVal::Str(s.wallet_label)),
        ("tx_hash"@, JsonVal::Str(s.tx_hash)),
        ("tx_type"@, JsonVal::Str(s.tx_type)),
        ("chain"@, JsonVal::Str(s.chain)),
        ("index"@, JsonVal::Num(JsonNumber::PosInt(s.index as u64))),
        ("timestamp"@, JsonVal::Num(JsonNumber::PosInt(s.timestamp))),
        ("from"@, JsonVal::Str(s.from)),
        ("nft_address"@, JsonVal::Str(s.nft_address)),
        ("nft_amount"@, JsonVal::Num(JsonNumber::PosInt(s.nft_amount as u64))),
        ("nft_price"@, JsonVal::Num(s.nft_price)),
        ("nft_symbol"@, JsonVal::Str(s.nft_symbol)),
        ("to"@, JsonVal::Str(s.to)),
        ("token0_address"@, JsonVal::Str(s.token0_address)),
        ("token0_amount"@, JsonVal::Num(s.token0_amount)),
        ("token0_amount_usd"@, JsonVal::Num(s.token0_amount_usd)),
        ("token0_name"@, JsonVal::Str(s.token0_name)),
        ("token0_price_usd"@, JsonVal::Num(s.token0_price_usd)),
        ("token0_symbol"@, JsonVal::Str(s.token0_symbol)),
        ("token0_icon_link"@, JsonVal::Str(s.token0_icon_link)),
    ];
    let ov_block: Option<JsonVal> = match s.block { Option::Some(x) => Option::Some(JsonVal::Num(JsonNumber::PosInt(x))), Option::None => Option::None };
    let seg_block = opt_member("block"@, ov_block);
    let ov_dex: Option<JsonVal> = match s.dex { Option::Some(x) => Option::Some(JsonVal::Str(x)), Option::None => Option::None };
    let seg_dex = opt_member("dex"@, ov_dex);
    let tail_2 = seg_dex;
    let tail_1 = seg_block + tail_2;
    assert(mand.len() == 20);
    assert(mand[0].0 == "wallet"@);
    assert(mand[1].0 == "wallet_label"@);
    assert(mand[2].0 == "tx_hash"@);
    assert(mand[3].0 == "tx_type"@);
    assert(mand[4].0 == "chain"@);
    assert(mand[5].0 == "index"@);
    assert(mand[6].0 == "timestamp"@);
    assert(mand[7].0 == "from"@);
    assert(mand[8].0 == "nft_address"@);
    assert(mand[9].0 == "nft_amount"@);
    assert(mand[10].0 == "nft_price"@);
    assert(mand[11].0 == "nft_symbol"@);
    assert(mand[12].0 == "to"@);
    assert(mand[13].0 == "token0_address"@);
    assert(mand[14].0 == "token0_amount"@);
    assert(mand[15].0 == "token0_amount_usd"@);
    assert(mand[16].0 == "token0_name"@);
    assert(mand[17].0 == "token0_price_usd"@);
    assert(mand[18].0 == "token0_symbol"@);
    assert(mand[19].0 == "token0_icon_link"@);
    assert forall|j: int| 0 <= j < mand.len() implies mand[j].0 != "dex"@ by {
        if j == 0 {
        } else if j == 1 {
        } else if j == 2 {
        } else if j == 3 {
        } else if j == 4 {
        } else if j == 5 {
        } else if j == 6 {
        } else if j == 7 {
        } else if j == 8 {
        } else if j == 9 {
        } else if j == 10 {
        } else if j == 11 {
        } else if j == 12 {
        } else if j == 13 {
        } else if j == 14 {
        } else if j == 15 {
        } else if j == 16 {
        } else if j == 17 {
        } else if j == 18 {
        } else if j == 19 {
        } else {
        }
    }
    lemma_lookup_absent(mand, "dex"@);
    lemma_lookup_concat_right(mand, tail_1, "dex"@);
    lemma_opt_member_lookup("block"@, ov_block, "dex"@);
    lemma_lookup_concat_right(seg_block, tail_2, "dex"@);
    lemma_opt_member_lookup("dex"@, ov_dex, "dex"@);
    match s.dex {
        Option::Some(x) => {
            assert(ms == mand + tail_1);
            assert(spec_opt_str_field(spec_encode_sudo_pool(s), "dex"@) == Some(s.dex));
        },
        Option::None => {
            assert(ms == mand + tail_1);
            assert(spec_opt_str_field(spec_encode_sudo_pool(s), "dex"@) == Some(s.dex));
        },
    }
}

/// An encoded `sudo_pool` record lacks `token1_address`, which the `swap` shape needs.
#[verifier::spinoff_prover]
proof fn lemma_sudo_pool_not_swap(s: SudoPoolV)
    ensures
        spec_decode_swap(spec_encode_sudo_pool(s)) is None,
{
    reveal_strlit("block");
    reveal_strlit("chain");
    reveal_strlit("dex");
    reveal_strlit("from");
    reveal_strlit("index");
    reveal_strlit("nft_address");
    reveal_strlit("nft_amount");
    reveal_strlit("nft_price");
    reveal_strlit("nft_symbol");
    reveal_strlit("timestamp");
    reveal_strlit("to");
    reveal_strlit("token0_address");
    reveal_strlit("token0_amount");
    reveal_strlit("token0_amount_usd");
    reveal_strlit("token0_icon_link");
    reveal_strlit("token0_name");
    reveal_strlit("token0_price_usd");
    reveal_strlit("token0_symbol");
    reveal_strlit("token1_address");
    reveal_strlit("tx_hash");
    reveal_strlit("tx_type");
    reveal_strlit("wallet");
    reveal_strlit("wallet_label");
    assert("block"@.len() == 5);
    assert("chain"@.len() == 5);
    assert("dex"@.len() == 3);
    assert("from"@.len() == 4);
    assert("index"@.len() == 5);
    assert("nft_address"@.len() == 11);
    assert("nft_amount"@.len() == 10);
    assert("nft_price"@.len() == 9);
    assert("nft_symbol"@.len() == 10);
    assert("timestamp"@.len() == 9);
    assert("to"@.len() == 2);
    assert("token0_address"@.len() == 14);
    assert("token0_amount"@.len() == 13);
    assert("token0_amount_usd"@.len() == 17);
    assert("token0_icon_link"@.len() == 16);
    assert("token0_name"@.len() == 11);
    assert("token0_price_usd"@.len() == 16);
    assert("token0_symbol"@.len() == 13);
    assert("token1_address"@.len() == 14);
    assert("tx_hash"@.len() == 7);
    assert("tx_type"@.len() == 7);
    assert("wallet"@.len() == 6);
    assert("wallet_label"@.len() == 12);
    assert("token0_address"@[5] == '0');
    assert("token1_address"@[5] == '1');
    let ms = spec_encode_sudo_pool(s);
    let mand: Seq<(Seq<char>, JsonVal)> = seq![
        ("wallet"@, JsonVal::Str(s.wallet)),
        ("wallet_label"@, JsonVal::Str(s.wallet_label)),
        ("tx_hash"@, JsonVal::Str(s.tx_hash)),
        ("tx_type"@, JsonVal::Str(s.tx_type)),
        ("chain"@, JsonVal::Str(s.chain)),
        ("index"@, JsonVal::Num(JsonNumber::PosInt(s.index as u64))),
        ("timestamp"@, JsonVal::Num(JsonNumber::PosInt(s.timestamp))),
        ("from"@, JsonVal::Str(s.from)),
        ("nft_address"@, JsonVal::Str(s.nft_address)),
        ("nft_amount"@, JsonVal::Num(JsonNumber::PosInt(s.nft_amount as u64))),
        ("nft_price"@, JsonVal::Num(s.nft_price)),
        ("nft_symbol"@, JsonVal::Str(s.nft_symbol)),
        ("to"@, JsonVal::Str(s.to)),
        ("token0_address"@, JsonVal::Str(s.token0_address)),
        ("token0_amount"@, JsonVal::Num(s.token0_amount)),
        ("token0_amount_usd"@, JsonVal::Num(s.token0_amount_usd)),
        ("token0_name"@, JsonVal::Str(s.token0_name)),
        ("token0_price_usd"@, JsonVal::Num(s.token0_price_usd)),
        ("token0_symbol"@, JsonVal::Str(s.token0_symbol)),
        ("token0_icon_link"@, JsonVal::Str(s.token0_icon_link)),
    ];
    let ov_block: Option<JsonVal> = match s.block { Option::Some(x) => Option::Some(JsonVal::Num(JsonNumber::PosInt(x))), Option::None => Option::None };
    let seg_block = opt_member("block"@, ov_block);
    let ov_dex: Option<JsonVal> = match s.dex { Option::Some(x) => Option::Some(JsonVal::Str(x)), Option::None => Option::None };
    let seg_dex = opt_member("dex"@, ov_dex);
    let tail_2 = seg_dex;
    let tail_1 = seg_block + tail_2;
    assert(mand.len() == 20);
    assert(mand[0].0 == "wallet"@);
    assert(mand[1].0 == "wallet_label"@);
    assert(mand[2].0 == "tx_hash"@);
    assert(mand[3].0 == "tx_type"@);
    assert(mand[4].0 == "chain"@);
    assert(mand[5].0 == "index"@);
    assert(mand[6].0 == "timestamp"@);
    assert(mand[7].0 == "from"@);
    assert(mand[8].0 == "nft_address"@);
    assert(mand[9].0 == "nft_amount"@);
    assert(mand[10].0 == "nft_price"@);
    assert(mand[11].0 == "nft_symbol"@);
    assert(mand[12].0 == "to"@);
    assert(mand[13].0 == "token0_address"@);
    assert(mand[14].0 == "token0_amount"@);
    assert(mand[15].0 == "token0_amount_usd"@);
    assert(mand[16].0 == "token0_name"@);
    assert(mand[17].0 == "token0_price_usd"@);
    assert(mand[18].0 == "token0_symbol"@);
    assert(mand[19].0 == "token0_icon_link"@);
    assert forall|j: int| 0 <= j < mand.len() implies mand[j].0 != "token1_address"@ by {
        if j == 0 {
        } else if j == 1 {
        } else if j == 2 {
        } else if j == 3 {
        } else if j == 4 {
        } else if j == 5 {
        } else if j == 6 {
        } else if j == 7 {
        } else if j == 8 {
        } else if j == 9 {
        } else if j == 10 {
        } else if j == 11 {
        } else if j == 12 {
        } else if j == 13 {
        } else if j == 14 {
        } else if j == 15 {
        } else if j == 16 {
        } else if j == 17 {
        } else if j == 18 {
        } else if j == 19 {
        } else {
        }
    }
    lemma_lookup_absent(mand, "token1_address"@);
    lemma_opt_member_lookup("block"@, ov_block, "token1_address"@);
    lemma_opt_member_lookup("dex"@, ov_dex, "token1_address"@);
    lemma_lookup_absent_concat(seg_block, tail_2, "token1_address"@);
    lemma_lookup_absent_concat(mand, tail_1, "token1_address"@);
    assert(ms == mand + tail_1);
    assert(spec_decode_swap(ms) is None);
}

/// An encoded `sudo_pool` record lacks `type`, which the `lp` shape needs.
#[verifier::spinoff_prover]
proof fn lemma_sudo_pool_not_lp(s: SudoPoolV)
    ensures
        spec_decode_lp(spec_encode_sudo_pool(s)) is None,
{
    reveal_strlit("block");
    reveal_strlit("chain");
    reveal_strlit("dex");
    reveal_strlit("from");
    reveal_strlit("index");
    reveal_strlit("nft_address");
    reveal_strlit("nft_amount");
    reveal_strlit("nft_price");
    reveal_strlit("nft_symbol");
    reveal_strlit("timestamp");
    reveal_strlit("to");
    reveal_strlit("token0_address");
    reveal_strlit("token0_amount");
    reveal_strlit("token0_amount_usd");
    reveal_strlit("token0_icon_link");
    reveal_strlit("token0_name");
    reveal_strlit("token0_price_usd");
    reveal_strlit("token0_symbol");
    reveal_strlit("tx_hash");
    reveal_strlit("tx_type");
    reveal_strlit("type");
    reveal_strlit("wallet");
    reveal_strlit("wallet_label");
    assert("block"@.len() == 5);
    assert("chain"@.len() == 5);
    assert("dex"@.len() == 3);
    assert("from"@.len() == 4);
    assert("index"@.len() == 5);
    assert("nft_address"@.len() == 11);
    assert("nft_amount"@.len() == 10);
    assert("nft_price"@.len() == 9);
    assert("nft_symbol"@.len() == 10);
    assert("timestamp"@.len() == 9);
    assert("to"@.len() == 2);
    assert("token0_address"@.len() == 14);
    assert("token0_amount"@.len() == 13);
    assert("token0_amount_usd"@.len() == 17);
    assert("token0_icon_link"@.len() == 16);
    assert("token0_name"@.len() == 11);
    assert("token0_price_usd"@.len() == 16);
    assert("token0_symbol"@.len() == 13);
    assert("tx_hash"@.len() == 7);
    assert("tx_type"@.len() == 7);
    assert("type"@.len() == 4);
    assert("wallet"@.len() == 6);
    assert("wallet_label"@.len() == 12);
    assert("from"@[0] == 'f');
    assert("type"@[0] == 't');
    let ms = spec_encode_sudo_pool(s);
    let mand: Seq<(Seq<char>, JsonVal)> = seq![
        ("wallet"@, JsonVal::Str(s.wallet)),
        ("wallet_label"@, JsonVal::Str(s.wallet_label)),
        ("tx_hash"@, JsonVal::Str(s.tx_hash)),
        ("tx_type"@, JsonVal::Str(s.tx_type)),
        ("chain"@, JsonVal::Str(s.chain)),
        ("index"@, JsonVal::Num(JsonNumber::PosInt(s.index as u64))),
        ("timestamp"@, JsonVal::Num(JsonNumber::PosInt(s.timestamp))),
        ("from"@, JsonVal::Str(s.from)),
        ("nft_address"@, JsonVal::Str(s.nft_address)),
        ("nft_amount"@, JsonVal::Num(JsonNumber::PosInt(s.nft_amount as u64))),
        ("nft_price"@, JsonVal::Num(s.nft_price)),
        ("nft_symbol"@, JsonVal::Str(s.nft_symbol)),
        ("to"@, JsonVal::Str(s.to)),
        ("token0_address"@, JsonVal::Str(s.token0_address)),
        ("token0_amount"@, JsonVal::Num(s.token0_amount)),
        ("token0_amount_usd"@, JsonVal::Num(s.token0_amount_usd)),
        ("token0_name"@, JsonVal::Str(s.token0_name)),
        ("token0_price_usd"@, JsonVal::Num(s.token0_price_usd)),
        ("token0_symbol"@, JsonVal::Str(s.token0_symbol)),
        ("token0_icon_link"@, JsonVal::Str(s.token0_icon_link)),
    ];
    let ov_block: Option<JsonVal> = match s.block { Option::Some(x) => Option::Some(JsonVal::Num(JsonNumber::PosInt(x))), Option::None => Option::None };
    let seg_block = opt_member("block"@, ov_block);
    let ov_dex: Option<JsonVal> = match s.dex { Option::Some(x) => Option::Some(JsonVal::Str(x)), Option::None => Option::None };
    let seg_dex = opt_member("dex"@, ov_dex);
    let tail_2 = seg_dex;
    let tail_1 = seg_block + tail_2;
    assert(mand.len() == 20);
    assert(mand[0].0 == "wallet"@);
    assert(mand[1].0 == "wallet_label"@);
    assert(mand[2].0 == "tx_hash"@);
    assert(mand[3].0 == "tx_type"@);
    assert(mand[4].0 == "chain"@);
    assert(mand[5].0 == "index"@);
    assert(mand[6].0 == "timestamp"@);
    assert(mand[7].0 == "from"@);
    assert(mand[8].0 == "nft_address"@);
    assert(mand[9].0 == "nft_amount"@);
    assert(mand[10].0 == "nft_price"@);
    assert(mand[11].0 == "nft_symbol"@);
    assert(mand[12].0 == "to"@);
    assert(mand[13].0 == "token0_address"@);
    assert(mand[14].0 == "token0_amount"@);
    assert(mand[15].0 == "token0_amount_usd"@);
    assert(mand[16].0 == "token0_name"@);
    assert(mand[17].0 == "token0_price_usd"@);
    assert(mand[18].0 == "token0_symbol"@);
    assert(mand[19].0 == "token0_icon_link"@);
    assert forall|j: int| 0 <= j < mand.len() implies mand[j].0 != "type"@ by {
        if j == 0 {
        } else if j == 1 {
        } else if j == 2 {
        } else if j == 3 {
        } else if j == 4 {
        } else if j == 5 {
        } else if j == 6 {
        } else if j == 7 {
        } else if j == 8 {
        } else if j == 9 {
        } else if j == 10 {
        } else if j == 11 {
        } else if j == 12 {
        } else if j == 13 {
        } else if j == 14 {
        } else if j == 15 {
        } else if j == 16 {
        } else if j == 17 {
        } else if j == 18 {
        } else if j == 19 {
        } else {
        }
    }
    lemma_lookup_absent(mand, "type"@);
    lemma_opt_member_lookup("block"@, ov_block, "type"@);
    lemma_opt_member_lookup("dex"@, ov_dex, "type"@);
    lemma_lookup_absent_concat(seg_block, tail_2, "type"@);
    lemma_lookup_absent_concat(mand, tail_1, "type"@);
    assert(ms == mand + tail_1);
    assert(spec_decode_lp(ms) is None);
}

/// An encoded `sudo_pool` record lacks `to_label`, which the `transfer` shape needs.
#[verifier::spinoff_prover]
proof fn lemma_sudo_pool_not_transfer(s: SudoPoolV)
    ensures
        spec_decode_transfer(spec_encode_sudo_pool(s)) is None,
{
    reveal_strlit("block");
    reveal_strlit("chain");
    reveal_strlit("dex");
    reveal_strlit("from");
    reveal_strlit("index");
    reveal_strlit("nft_address");
    reveal_strlit("nft_amount");
    reveal_strlit("nft_price");
    reveal_strlit("nft_symbol");
    reveal_strlit("timestamp");
    reveal_strlit("to");
    reveal_strlit("to_label");
    reveal_strlit("token0_address");
    reveal_strlit("token0_amount");
    reveal_strlit("token0_amount_usd");
    reveal_strlit("token0_icon_link");
    reveal_strlit("token0_name");
    reveal_strlit("token0_price_usd");
    reveal_strlit("token0_symbol");
    reveal_strlit("tx_hash");
    reveal_strlit("tx_type");
    reveal_strlit("wallet");
    reveal_strlit("wallet_label");
    assert("block"@.len() == 5);
    assert("chain"@.len() == 5);
    assert("dex"@.len() == 3);
    assert("from"@.len() == 4);
    assert("index"@.len() == 5);
    assert("nft_address"@.len() == 11);
    assert("nft_amount"@.len() == 10);
    assert("nft_price"@.len() == 9);
    assert("nft_symbol"@.len() == 10);
    assert("timestamp"@.len() == 9);
    assert("to"@.len() == 2);
    assert("to_label"@.len() == 8);
    assert("token0_address"@.len() == 14);
    assert("token0_amount"@.len() == 13);
    assert("token0_amount_usd"@.len() == 17);
    assert("token0_icon_link"@.len() == 16);
    assert("token0_name"@.len() == 11);
    assert("token0_price_usd"@.len() == 16);
    assert("token0_symbol"@.len() == 13);
    assert("tx_hash"@.len() == 7);
    assert("tx_type"@.len() == 7);
    assert("wallet"@.len() == 6);
    assert("wallet_label"@.len() == 12);
    let ms = spec_encode_sudo_pool(s);
    let mand: Seq<(Seq<char>, JsonVal)> = seq![
        ("wallet"@, JsonVal::Str(s.wallet)),
        ("wallet_label"@, JsonVal::Str(s.wallet_label)),
        ("tx_hash"@, JsonVal::Str(s.tx_hash)),
        ("tx_type"@, JsonVal::Str(s.tx_type)),
        ("chain"@, JsonVal::Str(s.chain)),
        ("index"@, JsonVal::Num(JsonNumber::PosInt(s.index as u64))),
        ("timestamp"@, JsonVal::Num(JsonNumber::PosInt(s.timestamp))),
        ("from"@, JsonVal::Str(s.from)),
        ("nft_address"@, JsonVal::Str(s.nft_address)),
        ("nft_amount"@, JsonVal::Num(JsonNumber::PosInt(s.nft_amount as u64))),
        ("nft_price"@, JsonVal::Num(s.nft_price)),
        ("nft_symbol"@, JsonVal::Str(s.nft_symbol)),
        ("to"@, JsonVal::Str(s.to)),
        ("token0_address"@, JsonVal::Str(s.token0_address)),
        ("token0_amount"@, JsonVal::Num(s.token0_amount)),
        ("token0_amount_usd"@, JsonVal::Num(s.token0_amount_usd)),
        ("token0_name"@, JsonVal::Str(s.token0_name)),
        ("token0_price_usd"@, JsonVal::Num(s.token0_price_usd)),
        ("token0_symbol"@, JsonVal::Str(s.token0_symbol)),
        ("token0_icon_link"@, JsonVal::Str(s.token0_icon_link)),
    ];
    let ov_block: Option<JsonVal> = match s.block { Option::Some(x) => Option::Some(JsonVal::Num(JsonNumber::PosInt(x))), Option::None => Option::None };
    let seg_block = opt_member("block"@, ov_block);
    let ov_dex: Option<JsonVal> = match s.dex { Option::Some(x) => Option::Some(JsonVal::Str(x)), Option::None => Option::None };
    let seg_dex = opt_member("dex"@, ov_dex);
    let tail_2 = seg_dex;
    let tail_1 = seg_block + tail_2;
    assert(mand.len() == 20);
    assert(mand[0].0 == "wallet"@);
    assert(mand[1].0 == "wallet_label"@);
    assert(mand[2].0 == "tx_hash"@);
    assert(mand[3].0 == "tx_type"@);
    assert(mand[4].0 == "chain"@);
    assert(mand[5].0 == "index"@);
    assert(mand[6].0 == "timestamp"@);
    assert(mand[7].0 == "from"@);
    assert(mand[8].0 == "nft_address"@);
    assert(mand[9].0 == "nft_amount"@);
    assert(mand[10].0 == "nft_price"@);
    assert(mand[11].0 == "nft_symbol"@);
    assert(mand[12].0 == "to"@);
    assert(mand[13].0 == "token0_address"@);
    assert(mand[14].0 == "token0_amount"@);
    assert(mand[15].0 == "token0_amount_usd"@);
    assert(mand[16].0 == "token0_name"@);
    assert(mand[17].0 == "token0_price_usd"@);
    assert(mand[18].0 == "token0_symbol"@);
    assert(mand[19].0 == "token0_icon_link"@);
    assert forall|j: int| 0 <= j < mand.len() implies mand[j].0 != "to_label"@ by {
        if j == 0 {
        } else if j == 1 {
        } else if j == 2 {
        } else if j == 3 {
        } else if j == 4 {
        } else if j == 5 {
        } else if j == 6 {
        } else if j == 7 {
        } else if j == 8 {
        } else if j == 9 {
        } else if j == 10 {
        } else if j == 11 {
        } else if j == 12 {
        } else if j == 13 {
        } else if j == 14 {
        } else if j == 15 {
        } else if j == 16 {
        } else if j == 17 {
        } else if j == 18 {
        } else if j == 19 {
        } else {
        }
    }
    lemma_lookup_absent(mand, "to_label"@);
    lemma_opt_member_lookup("block"@, ov_block, "to_label"@);
    lemma_opt_member_lookup("dex"@, ov_dex, "to_label"@);
    lemma_lookup_absent_concat(seg_block, tail_2, "to_label"@);
    lemma_lookup_absent_concat(mand, tail_1, "to_label"@);
    assert(ms == mand + tail_1);
    assert(spec_decode_transfer(ms) is None);
}

/// An encoded `sudo_pool` record lacks `platform`, which the `lending` shape needs.
#[verifier::spinoff_prover]
proof fn lemma_sudo_pool_not_lending(s: SudoPoolV)
    ensures
        spec_decode_lending(spec_encode_sudo_pool(s)) is None,
{
    reveal_strlit("block");
    reveal_strlit("chain");
    reveal_strlit("dex");
    reveal_strlit("from");
    reveal_strlit("index");
    reveal_strlit("nft_address");
    reveal_strlit("nft_amount");
    reveal_strlit("nft_price");
    reveal_strlit("nft_symbol");
    reveal_strlit("platform");
    reveal_strlit("timestamp");
    reveal_strlit("to");
    reveal_strlit("token0_address");
    reveal_strlit("token0_amount");
    reveal_strlit("token0_amount_usd");
    reveal_strlit("token0_icon_link");
    reveal_strlit("token0_name");
    reveal_strlit("token0_price_usd");
    reveal_strlit("token0_symbol");
    reveal_strlit("tx_hash");
    reveal_strlit("tx_type");
    reveal_strlit("wallet");
    reveal_strlit("wallet_label");
    assert("block"@.len() == 5);
    assert("chain"@.len() == 5);
    assert("dex"@.len() == 3);
    assert("from"@.len() == 4);
    assert("index"@.len() == 5);
    assert("nft_address"@.len() == 11);
    assert("nft_amount"@.len() == 10);
    assert("nft_price"@.len() == 9);
    assert("nft_symbol"@.len() == 10);
    assert("platform"@.len() == 8);
    assert("timestamp"@.len() == 9);
    assert("to"@.len() == 2);
    assert("token0_address"@.len() == 14);
    assert("token0_amount"@.len() == 13);
    assert("token0_amount_usd"@.len() == 17);
    assert("token0_icon_link"@.len() == 16);
    assert("token0_name"@.len() == 11);
    assert("token0_price_usd"@.len() == 16);
    assert("token0_symbol"@.len() == 13);
    assert("tx_hash"@.len() == 7);
    assert("tx_type"@.len() == 7);
    assert("wallet"@.len() == 6);
    assert("wallet_label"@.len() == 12);
    let ms = spec_encode_sudo_pool(s);
    let mand: Seq<(Seq<char>, JsonVal)> = seq![
        ("wallet"@, JsonVal::Str(s.wallet)),
        ("wallet_label"@, JsonVal::Str(s.wallet_label)),
        ("tx_hash"@, JsonVal::Str(s.tx_hash)),
        ("tx_type"@, JsonVal::Str(s.tx_type)),
        ("chain"@, JsonVal::Str(s.chain)),
        ("index"@, JsonVal::Num(JsonNumber::PosInt(s.index as u64))),
        ("timestamp"@, JsonVal::Num(JsonNumber::PosInt(s.timestamp))),
        ("from"@, JsonVal::Str(s.from)),
        ("nft_address"@, JsonVal::Str(s.nft_address)),
        ("nft_amount"@, JsonVal::Num(JsonNumber::PosInt(s.nft_amount as u64))),
        ("nft_price"@, JsonVal::Num(s.nft_price)),
        ("nft_symbol"@, JsonVal::Str(s.nft_symbol)),
        ("to"@, JsonVal::Str(s.to)),
        ("token0_address"@, JsonVal::Str(s.token0_address)),
        ("token0_amount"@, JsonVal::Num(s.token0_amount)),
        ("token0_amount_usd"@, JsonVal::Num(s.token0_amount_usd)),
        ("token0_name"@, JsonVal::Str(s.token0_name)),
        ("token0_price_usd"@, JsonVal::Num(s.token0_price_usd)),
        ("token0_symbol"@, JsonVal::Str(s.token0_symbol)),
        ("token0_icon_link"@, JsonVal::Str(s.token0_icon_link)),
    ];
    let ov_block: Option<JsonVal> = match s.block { Option::Some(x) => Option::Some(JsonVal::Num(JsonNumber::PosInt(x))), Option::None => Option::None };
    let seg_block = opt_member("block"@, ov_block);
    let ov_dex: Option<JsonVal> = match s.dex { Option::Some(x) => Option::Some(JsonVal::Str(x)), Option::None => Option::None };
    let seg_dex = opt_member("dex"@, ov_dex);
    let tail_2 = seg_dex;
    let tail_1 = seg_block + tail_2;
    assert(mand.len() == 20);
    assert(mand[0].0 == "wallet"@);
    assert(mand[1].0 == "wallet_label"@);
    assert(mand[2].0 == "tx_hash"@);
    assert(mand[3].0 == "tx_type"@);
    assert(mand[4].0 == "chain"@);
    assert(mand[5].0 == "index"@);
    assert(mand[6].0 == "timestamp"@);
    assert(mand[7].0 == "from"@);
    assert(mand[8].0 == "nft_address"@);
    assert(mand[9].0 == "nft_amount"@);
    assert(mand[10].0 == "nft_price"@);
    assert(mand[11].0 == "nft_symbol"@);
    assert(mand[12].0 == "to"@);
    assert(mand[13].0 == "token0_address"@);
    assert(mand[14].0 == "token0_amount"@);
    assert(mand[15].0 == "token0_amount_usd"@);
    assert(mand[16].0 == "token0_name"@);
    assert(mand[17].0 == "token0_price_usd"@);
    assert(mand[18].0 == "token0_symbol"@);
    assert(mand[19].0 == "token0_icon_link"@);
    assert forall|j: int| 0 <= j < mand.len() implies mand[j].0 != "platform"@ by {
        if j == 0 {
        } else if j == 1 {
        } else if j == 2 {
        } else if j == 3 {
        } else if j == 4 {
        } else if j == 5 {
        } else if j == 6 {
        } else if j == 7 {
        } else if j == 8 {
        } else if j == 9 {
        } else if j == 10 {
        } else if j == 11 {
        } else if j == 12 {
        } else if j == 13 {
        } else if j == 14 {
        } else if j == 15 {
        } else if j == 16 {
        } else if j == 17 {
        } else if j == 18 {
        } else if j == 19 {
        } else {
        }
    }
    lemma_lookup_absent(mand, "platform"@);
    lemma_opt_member_lookup("block"@, ov_block, "platform"@);
    lemma_opt_member_lookup("dex"@, ov_dex, "platform"@);
    lemma_lookup_absent_concat(seg_block, tail_2, "platform"@);
    lemma_lookup_absent_concat(mand, tail_1, "platform"@);
    assert(ms == mand + tail_1);
    assert(spec_decode_lending(ms) is None);
}

/// An encoded `sudo_pool` record lacks `to_label`, which the `nft_mint` shape needs.
#[verifier::spinoff_prover]
proof fn lemma_sudo_pool_not_nft_mint(s: SudoPoolV)
    ensures
        spec_decode_nft_mint(spec_encode_sudo_pool(s)) is None,
{
    reveal_strlit("block");
    reveal_strlit("chain");
    reveal_strlit("dex");
    reveal_strlit("from");
    reveal_strlit("index");
    reveal_strlit("nft_address");
    reveal_strlit("nft_amount");
    reveal_strlit("nft_price");
    reveal_strlit("nft_symbol");
    reveal_strlit("timestamp");
    reveal_strlit("to");
    reveal_strlit("to_label");
    reveal_strlit("token0_address");
    reveal_strlit("token0_amount");
    reveal_strlit("token0_amount_usd");
    reveal_strlit("token0_icon_link");
    reveal_strlit("token0_name");
    reveal_strlit("token0_price_usd");
    reveal_strlit("token0_symbol");
    reveal_strlit("tx_hash");
    reveal_strlit("tx_type");
    reveal_strlit("wallet");
    reveal_strlit("wallet_label");
    assert("block"@.len() == 5);
    assert("chain"@.len() == 5);
    assert("dex"@.len() == 3);
    assert("from"@.len() == 4);
    assert("index"@.len() == 5);
    assert("nft_address"@.len() == 11);
    assert("nft_amount"@.len() == 10);
    assert("nft_price"@.len() == 9);
    assert("nft_symbol"@.len() == 10);
    assert("timestamp"@.len() == 9);
    assert("to"@.len() == 2);
    assert("to_label"@.len() == 8);
    assert("token0_address"@.len() == 14);
    assert("token0_amount"@.len() == 13);
    assert("token0_amount_usd"@.len() == 17);
    assert("token0_icon_link"@.len() == 16);
    assert("token0_name"@.len() == 11);
    assert("token0_price_usd"@.len() == 16);
    assert("token0_symbol"@.len() == 13);
    assert("tx_hash"@.len() == 7);
    assert("tx_type"@.len() == 7);
    assert("wallet"@.len() == 6);
    assert("wallet_label"@.len() == 12);
    let ms = spec_encode_sudo_pool(s);
    let mand: Seq<(Seq<char>, JsonVal)> = seq![
        ("wallet"@, JsonVal::Str(s.wallet)),
        ("wallet_label"@, JsonVal::Str(s.wallet_label)),
        ("tx_hash"@, JsonVal::Str(s.tx_hash)),
        ("tx_type"@, JsonVal::Str(s.tx_type)),
        ("chain"@, JsonVal::Str(s.chain)),
        ("index"@, JsonVal::Num(JsonNumber::PosInt(s.index as u64))),
        ("timestamp"@, JsonVal::Num(JsonNumber::PosInt(s.timestamp))),
        ("from"@, JsonVal::Str(s.from)),
        ("nft_address"@, JsonVal::Str(s.nft_address)),
        ("nft_amount"@, JsonVal::Num(JsonNumber::PosInt(s.nft_amount as u64))),
        ("nft_price"@, JsonVal::Num(s.nft_price)),
        ("nft_symbol"@, JsonVal::Str(s.nft_symbol)),
        ("to"@, JsonVal::Str(s.to)),
        ("token0_address"@, JsonVal::Str(s.token0_address)),
        ("token0_amount"@, JsonVal::Num(s.token0_amount)),
        ("token0_amount_usd"@, JsonVal::Num(s.token0_amount_usd)),
        ("token0_name"@, JsonVal::Str(s.token0_name)),
        ("token0_price_usd"@, JsonVal::Num(s.token0_price_usd)),
        ("token0_symbol"@, JsonVal::Str(s.token0_symbol)),
        ("token0_icon_link"@, JsonVal::Str(s.token0_icon_link)),
    ];
    let ov_block: Option<JsonVal> = match s.block { Option::Some(x) => Option::Some(JsonVal::Num(JsonNumber::PosInt(x))), Option::None => Option::None };
    let seg_block = opt_member("block"@, ov_block);
    let ov_dex: Option<JsonVal> = match s.dex { Option::Some(x) => Option::Some(JsonVal::Str(x)), Option::None => Option::None };
    let seg_dex = opt_member("dex"@, ov_dex);
    let tail_2 = seg_dex;
    let tail_1 = seg_block + tail_2;
    assert(mand.len() == 20);
    assert(mand[0].0 == "wallet"@);
    assert(mand[1].0 == "wallet_label"@);
    assert(mand[2].0 == "tx_hash"@);
    assert(mand[3].0 == "tx_type"@);
    assert(mand[4].0 == "chain"@);
    assert(mand[5].0 == "index"@);
    assert(mand[6].0 == "timestamp"@);
    assert(mand[7].0 == "from"@);
    assert(mand[8].0 == "nft_address"@);
    assert(mand[9].0 == "nft_amount"@);
    assert(mand[10].0 == "nft_price"@);
    assert(mand[11].0 == "nft_symbol"@);
    assert(mand[12].0 == "to"@);
    assert(mand[13].0 == "token0_address"@);
    assert(mand[14].0 == "token0_amount"@);
    assert(mand[15].0 == "token0_amount_usd"@);
    assert(mand[16].0 == "token0_name"@);
    assert(mand[17].0 == "token0_price_usd"@);
    assert(mand[18].0 == "token0_symbol"@);
    assert(mand[19].0 == "token0_icon_link"@);
    assert forall|j: int| 0 <= j < mand.len() implies mand[j].0 != "to_label"@ by {
        if j == 0 {
        } else if j == 1 {
        } else if j == 2 {
        } else if j == 3 {
        } else if j == 4 {
        } else if j == 5 {
        } else if j == 6 {
        } else if j == 7 {
        } else if j == 8 {
        } else if j == 9 {
        } else if j == 10 {
        } else if j == 11 {
        } else if j == 12 {
        } else if j == 13 {
        } else if j == 14 {
        } else if j == 15 {
        } else if j == 16 {
        } else if j == 17 {
        } else if j == 18 {
        } else if j == 19 {
        } else {
        }
    }
    lemma_lookup_absent(mand, "to_label"@);
    lemma_opt_member_lookup("block"@, ov_block, "to_label"@);
    lemma_opt_member_lookup("dex"@, ov_dex, "to_label"@);
    lemma_lookup_absent_concat(seg_block, tail_2, "to_label"@);
    lemma_lookup_absent_concat(mand, tail_1, "to_label"@);
    assert(ms == mand + tail_1);
    assert(spec_decode_nft_mint(ms) is None);
}

/// An encoded `sudo_pool` record lacks `contract`, which the `nft_trade` shape needs.
#[verifier::spinoff_prover]
proof fn lemma_sudo_pool_not_nft_trade(s: SudoPoolV)
    ensures
        spec_decode_nft_trade(spec_encode_sudo_pool(s)) is None,
{
    reveal_strlit("block");
    reveal_strlit("chain");
    reveal_strlit("contract");
    reveal_strlit("dex");
    reveal_strlit("from");
    reveal_strlit("index");
    reveal_strlit("nft_address");
    reveal_strlit("nft_amount");
    reveal_strlit("nft_price");
    reveal_strlit("nft_symbol");
    reveal_strlit("timestamp");
    reveal_strlit("to");
    reveal_strlit("token0_address");
    reveal_strlit("token0_amount");
    reveal_strlit("token0_amount_usd");
    reveal_strlit("token0_icon_link");
    reveal_strlit("token0_name");
    reveal_strlit("token0_price_usd");
    reveal_strlit("token0_symbol");
    reveal_strlit("tx_hash");
    reveal_strlit("tx_type");
    reveal_strlit("wallet");
    reveal_strlit("wallet_label");
    assert("block"@.len() == 5);
    assert("chain"@.len() == 5);
    assert("contract"@.len() == 8);
    assert("dex"@.len() == 3);
    assert("from"@.len() == 4);
    assert("index"@.len() == 5);
    assert("nft_address"@.len() == 11);
    assert("nft_amount"@.len() == 10);
    assert("nft_price"@.len() == 9);
    assert("nft_symbol"@.len() == 10);
    assert("timestamp"@.len() == 9);
    assert("to"@.len() == 2);
    assert("token0_address"@.len() == 14);
    assert("token0_amount"@.len() == 13);
    assert("token0_amount_usd"@.len() == 17);
    assert("token0_icon_link"@.len() == 16);
    assert("token0_name"@.len() == 11);
    assert("token0_price_usd"@.len() == 16);
    assert("token0_symbol"@.len() == 13);
    assert("tx_hash"@.len() == 7);
    assert("tx_type"@.len() == 7);
    assert("wallet"@.len() == 6);
    assert("wallet_label"@.len() == 12);
    let ms = spec_encode_sudo_pool(s);
    let mand: Seq<(Seq<char>, JsonVal)> = seq![
        ("wallet"@, JsonVal::Str(s.wallet)),
        ("wallet_label"@, JsonVal::Str(s.wallet_label)),
        ("tx_hash"@, JsonVal::Str(s.tx_hash)),
        ("tx_type"@, JsonVal::Str(s.tx_type)),
        ("chain"@, JsonVal::Str(s.chain)),
        ("index"@, JsonVal::Num(JsonNumber::PosInt(s.index as u64))),
        ("timestamp"@, JsonVal::Num(JsonNumber::PosInt(s.timestamp))),
        ("from"@, JsonVal::Str(s.from)),
        ("nft_address"@, JsonVal::Str(s.nft_address)),
        ("nft_amount"@, JsonVal::Num(JsonNumber::PosInt(s.nft_amount as u64))),
        ("nft_price"@, JsonVal::Num(s.nft_price)),
        ("nft_symbol"@, JsonVal::Str(s.nft_symbol)),
        ("to"@, JsonVal::Str(s.to)),
        ("token0_address"@, JsonVal::Str(s.token0_address)),
        ("token0_amount"@, JsonVal::Num(s.token0_amount)),
        ("token0_amount_usd"@, JsonVal::Num(s.token0_amount_usd)),
        ("token0_name"@, JsonVal::Str(s.token0_name)),
        ("token0_price_usd"@, JsonVal::Num(s.token0_price_usd)),
        ("token0_symbol"@, JsonVal::Str(s.token0_symbol)),
        ("token0_icon_link"@, JsonVal::Str(s.token0_icon_link)),
    ];
    let ov_block: Option<JsonVal> = match s.block { Option::Some(x) => Option::Some(JsonVal::Num(JsonNumber::PosInt(x))), Option::None => Option::None };
    let seg_block = opt_member("block"@, ov_block);
    let ov_dex: Option<JsonVal> = match s.dex { Option::Some(x) => Option::Some(JsonVal::Str(x)), Option::None => Option::None };
    let seg_dex = opt_member("dex"@, ov_dex);
    let tail_2 = seg_dex;
    let tail_1 = seg_block + tail_2;
    assert(mand.len() == 20);
    assert(mand[0].0 == "wallet"@);
    assert(mand[1].0 == "wallet_label"@);
    assert(mand[2].0 == "tx_hash"@);
    assert(mand[3].0 == "tx_type"@);
    assert(mand[4].0 == "chain"@);
    assert(mand[5].0 == "index"@);
    assert(mand[6].0 == "timestamp"@);
    assert(mand[7].0 == "from"@);
    assert(mand[8].0 == "nft_address"@);
    assert(mand[9].0 == "nft_amount"@);
    assert(mand[10].0 == "nft_price"@);
    assert(mand[11].0 == "nft_symbol"@);
    assert(mand[12].0 == "to"@);
    assert(mand[13].0 == "token0_address"@);
    assert(mand[14].0 == "token0_amount"@);
    assert(mand[15].0 == "token0_amount_usd"@);
    assert(mand[16].0 == "token0_name"@);
    assert(mand[17].0 == "token0_price_usd"@);
    assert(mand[18].0 == "token0_symbol"@);
    assert(mand[19].0 == "token0_icon_link"@);
    assert forall|j: int| 0 <= j < mand.len() implies mand[j].0 != "contract"@ by {
        if j == 0 {
        } else if j == 1 {
        } else if j == 2 {
        } else if j == 3 {
        } else if j == 4 {
        } else if j == 5 {
        } else if j == 6 {
        } else if j == 7 {
        } else if j == 8 {
        } else if j == 9 {
        } else if j == 10 {
        } else if j == 11 {
        } else if j == 12 {
        } else if j == 13 {
        } else if j == 14 {
        } else if j == 15 {
        } else if j == 16 {
        } else if j == 17 {
        } else if j == 18 {
        } else if j == 19 {
        } else {
        }
    }
    lemma_lookup_absent(mand, "contract"@);
    lemma_opt_member_lookup("block"@, ov_block, "contract"@);
    lemma_opt_member_lookup("dex"@, ov_dex, "contract"@);
    lemma_lookup_absent_concat(seg_block, tail_2, "contract"@);
    lemma_lookup_absent_concat(mand, tail_1, "contract"@);
    assert(ms == mand + tail_1);
    assert(spec_decode_nft_trade(ms) is None);
}

/// An encoded `sudo_pool` record lacks `to_label`, which the `nft_transfer` shape needs.
#[verifier::spinoff_prover]
proof fn lemma_sudo_pool_not_nft_transfer(s: SudoPoolV)
    ensures
        spec_decode_nft_transfer(spec_encode_sudo_pool(s)) is None,
{
    reveal_strlit("block");
    reveal_strlit("chain");
    reveal_strlit("dex");
    reveal_strlit("from");
    reveal_strlit("index");
    reveal_strlit("nft_address");
    reveal_strlit("nft_amount");
    reveal_strlit("nft_price");
    reveal_strlit("nft_symbol");
    reveal_strlit("timestamp");
    reveal_strlit("to");
    reveal_strlit("to_label");
    reveal_strlit("token0_address");
    reveal_strlit("token0_amount");
    reveal_strlit("token0_amount_usd");
    reveal_strlit("token0_icon_link");
    reveal_strlit("token0_name");
    reveal_strlit("token0_price_usd");
    reveal_strlit("token0_symbol");
    reveal_strlit("tx_hash");
    reveal_strlit("tx_type");
    reveal_strlit("wallet");
    reveal_strlit("wallet_label");
    assert("block"@.len() == 5);
    assert("chain"@.len() == 5);
    assert("dex"@.len() == 3);
    assert("from"@.len() == 4);
    assert("index"@.len() == 5);
    assert("nft_address"@.len() == 11);
    assert("nft_amount"@.len() == 10);
    assert("nft_price"@.len() == 9);
    assert("nft_symbol"@.len() == 10);
    assert("timestamp"@.len() == 9);
    assert("to"@.len() == 2);
    assert("to_label"@.len() == 8);
    assert("token0_address"@.len() == 14);
    assert("token0_amount"@.len() == 13);
    assert("token0_amount_usd"@.len() == 17);
    assert("token0_icon_link"@.len() == 16);
    assert("token0_name"@.len() == 11);
    assert("token0_price_usd"@.len() == 16);
    assert("token0_symbol"@.len() == 13);
    assert("tx_hash"@.len() == 7);
    assert("tx_type"@.len() == 7);
    assert("wallet"@.len() == 6);
    assert("wallet_label"@.len() == 12);
    let ms = spec_encode_sudo_pool(s);
    let mand: Seq<(Seq<char>, JsonVal)> = seq![
        ("wallet"@, JsonVal::Str(s.wallet)),
        ("wallet_label"@, JsonVal::Str(s.wallet_label)),
        ("tx_hash"@, JsonVal::Str(s.tx_hash)),
        ("tx_type"@, JsonVal::Str(s.tx_type)),
        ("chain"@, JsonVal::Str(s.chain)),
        ("index"@, JsonVal::Num(JsonNumber::PosInt(s.index as u64))),
        ("timestamp"@, JsonVal::Num(JsonNumber::PosInt(s.timestamp))),
        ("from"@, JsonVal::Str(s.from)),
        ("nft_address"@, JsonVal::Str(s.nft_address)),
        ("nft_amount"@, JsonVal::Num(JsonNumber::PosInt(s.nft_amount as u64))),
        ("nft_price"@, JsonVal::Num(s.nft_price)),
        ("nft_symbol"@, JsonVal::Str(s.nft_symbol)),
        ("to"@, JsonVal::Str(s.to)),
        ("token0_address"@, JsonVal::Str(s.token0_address)),
        ("token0_amount"@, JsonVal::Num(s.token0_amount)),
        ("token0_amount_usd"@, JsonVal::Num(s.token0_amount_usd)),
        ("token0_name"@, JsonVal::Str(s.token0_name)),
        ("token0_price_usd"@, JsonVal::Num(s.token0_price_usd)),
        ("token0_symbol"@, JsonVal::Str(s.token0_symbol)),
        ("token0_icon_link"@, JsonVal::Str(s.token0_icon_link)),
    ];
    let ov_block: Option<JsonVal> = match s.block { Option::Some(x) => Option::Some(JsonVal::Num(JsonNumber::PosInt(x))), Option::None => Option::None };
    let seg_block = opt_member("block"@, ov_block);
    let ov_dex: Option<JsonVal> = match s.dex { Option::Some(x) => Option::Some(JsonVal::Str(x)), Option::None => Option::None };
    let seg_dex = opt_member("dex"@, ov_dex);
    let tail_2 = seg_dex;
    let tail_1 = seg_block + tail_2;
    assert(mand.len() == 20);
    assert(mand[0].0 == "wallet"@);
    assert(mand[1].0 == "wallet_label"@);
    assert(mand[2].0 == "tx_hash"@);
    assert(mand[3].0 == "tx_type"@);
    assert(mand[4].0 == "chain"@);
    assert(mand[5].0 == "index"@);
    assert(mand[6].0 == "timestamp"@);
    assert(mand[7].0 == "from"@);
    assert(mand[8].0 == "nft_address"@);
    assert(mand[9].0 == "nft_amount"@);
    assert(mand[10].0 == "nft_price"@);
    assert(mand[11].0 == "nft_symbol"@);
    assert(mand[12].0 == "to"@);
    assert(mand[13].0 == "token0_address"@);
    assert(mand[14].0 == "token0_amount"@);
    assert(mand[15].0 == "token0_amount_usd"@);
    assert(mand[16].0 == "token0_name"@);
    assert(mand[17].0 == "token0_price_usd"@);
    assert(mand[18].0 == "token0_symbol"@);
    assert(mand[19].0 == "token0_icon_link"@);
    assert forall|j: int| 0 <= j < mand.len() implies mand[j].0 != "to_label"@ by {
        if j == 0 {
        } else if j == 1 {
        } else if j == 2 {
        } else if j == 3 {
        } else if j == 4 {
        } else if j == 5 {
        } else if j == 6 {
        } else if j == 7 {
        } else if j == 8 {
        } else if j == 9 {
        } else if j == 10 {
        } else if j == 11 {
        } else if j == 12 {
        } else if j == 13 {
        } else if j == 14 {
        } else if j == 15 {
        } else if j == 16 {
        } else if j == 17 {
        } else if j == 18 {
        } else if j == 19 {
        } else {
        }
    }
    lemma_lookup_absent(mand, "to_label"@);
    lemma_opt_member_lookup("block"@, ov_block, "to_label"@);
    lemma_opt_member_lookup("dex"@, ov_dex, "to_label"@);
    lemma_lookup_absent_concat(seg_block, tail_2, "to_label"@);
    lemma_lookup_absent_concat(mand, tail_1, "to_label"@);
    assert(ms == mand + tail_1);
    assert(spec_decode_nft_transfer(ms) is None);
}

/// An encoded `sudo_pool` record lacks `to_label`, which the `nft_lending` shape needs.
#[verifier::spinoff_prover]
proof fn lemma_sudo_pool_not_nft_lending(s: SudoPoolV)
    ensures
        spec_decode_nft_lending(spec_encode_sudo_pool(s)) is None,
{
    reveal_strlit("block");
    reveal_strlit("chain");
    reveal_strlit("dex");
    reveal_strlit("from");
    reveal_strlit("index");
    reveal_strlit("nft_address");
    reveal_strlit("nft_amount");
    reveal_strlit("nft_price");
    reveal_strlit("nft_symbol");
    reveal_strlit("timestamp");
    reveal_strlit("to");
    reveal_strlit("to_label");
    reveal_strlit("token0_address");
    reveal_strlit("token0_amount");
    reveal_strlit("token0_amount_usd");
    reveal_strlit("token0_icon_link");
    reveal_strlit("token0_name");
    reveal_strlit("token0_price_usd");
    reveal_strlit("token0_symbol");
    reveal_strlit("tx_hash");
    reveal_strlit("tx_type");
    reveal_strlit("wallet");
    reveal_strlit("wallet_label");
    assert("block"@.len() == 5);
    assert("chain"@.len() == 5);
    assert("dex"@.len() == 3);
    assert("from"@.len() == 4);
    assert("index"@.len() == 5);
    assert("nft_address"@.len() == 11);
    assert("nft_amount"@.len() == 10);
    assert("nft_price"@.len() == 9);
    assert("nft_symbol"@.len() == 10);
    assert("timestamp"@.len() == 9);
    assert("to"@.len() == 2);
    assert("to_label"@.len() == 8);
    assert("token0_address"@.len() == 14);
    assert("token0_amount"@.len() == 13);
    assert("token0_amount_usd"@.len() == 17);
    assert("token0_icon_link"@.len() == 16);
    assert("token0_name"@.len() == 11);
    assert("token0_price_usd"@.len() == 16);
    assert("token0_symbol"@.len() == 13);
    assert("tx_hash"@.len() == 7);
    assert("tx_type"@.len() == 7);
    assert("wallet"@.len() == 6);
    assert("wallet_label"@.len() == 12);
    let ms = spec_encode_sudo_pool(s);
    let mand: Seq<(Seq<char>, JsonVal)> = seq![
        ("wallet"@, JsonVal::Str(s.wallet)),
        ("wallet_label"@, JsonVal::Str(s.wallet_label)),
        ("tx_hash"@, JsonVal::Str(s.tx_hash)),
        ("tx_type"@, JsonVal::Str(s.tx_type)),
        ("chain"@, JsonVal::Str(s.chain)),
        ("index"@, JsonVal::Num(JsonNumber::PosInt(s.index as u64))),
        ("timestamp"@, JsonVal::Num(JsonNumber::PosInt(s.timestamp))),
        ("from"@, JsonVal::Str(s.from)),
        ("nft_address"@, JsonVal::Str(s.nft_address)),
        ("nft_amount"@, JsonVal::Num(JsonNumber::PosInt(s.nft_amount as u64))),
        ("nft_price"@, JsonVal::Num(s.nft_price)),
        ("nft_symbol"@, JsonVal::Str(s.nft_symbol)),
        ("to"@, JsonVal::Str(s.to)),
        ("token0_address"@, JsonVal::Str(s.token0_address)),
        ("token0_amount"@, JsonVal::Num(s.token0_amount)),
        ("token0_amount_usd"@, JsonVal::Num(s.token0_amount_usd)),
        ("token0_name"@, JsonVal::Str(s.token0_name)),
        ("token0_price_usd"@, JsonVal::Num(s.token0_price_usd)),
        ("token0_symbol"@, JsonVal::Str(s.token0_symbol)),
        ("token0_icon_link"@, JsonVal::Str(s.token0_icon_link)),
    ];
    let ov_block: Option<JsonVal> = match s.block { Option::Some(x) => Option::Some(JsonVal::Num(JsonNumber::PosInt(x))), Option::None => Option::None };
    let seg_block = opt_member("block"@, ov_block);
    let ov_dex: Option<JsonVal> = match s.dex { Option::Some(x) => Option::Some(JsonVal::Str(x)), Option::None => Option::None };
    let seg_dex = opt_member("dex"@, ov_dex);
    let tail_2 = seg_dex;
    let tail_1 = seg_block + tail_2;
    assert(mand.len() == 20);
    assert(mand[0].0 == "wallet"@);
    assert(mand[1].0 == "wallet_label"@);
    assert(mand[2].0 == "tx_hash"@);
    assert(mand[3].0 == "tx_type"@);
    assert(mand[4].0 == "chain"@);
    assert(mand[5].0 == "index"@);
    assert(mand[6].0 == "timestamp"@);
    assert(mand[7].0 == "from"@);
    assert(mand[8].0 == "nft_address"@);
    assert(mand[9].0 == "nft_amount"@);
    assert(mand[10].0 == "nft_price"@);
    assert(mand[11].0 == "nft_symbol"@);
    assert(mand[12].0 == "to"@);
    assert(mand[13].0 == "token0_address"@);
    assert(mand[14].0 == "token0_amount"@);
    assert(mand[15].0 == "token0_amount_usd"@);
    assert(mand[16].0 == "token0_name"@);
    assert(mand[17].0 == "token0_price_usd"@);
    assert(mand[18].0 == "token0_symbol"@);
    assert(mand[19].0 == "token0_icon_link"@);
    assert forall|j: int| 0 <= j < mand.len() implies mand[j].0 != "to_label"@ by {
        if j == 0 {
        } else if j == 1 {
        } else if j == 2 {
        } else if j == 3 {
        } else if j == 4 {
        } else if j == 5 {
        } else if j == 6 {
        } else if j == 7 {
        } else if j == 8 {
        } else if j == 9 {
        } else if j == 10 {
        } else if j == 11 {
        } else if j == 12 {
        } else if j == 13 {
        } else if j == 14 {
        } else if j == 15 {
        } else if j == 16 {
        } else if j == 17 {
        } else if j == 18 {
        } else if j == 19 {
        } else {
        }
    }
    lemma_lookup_absent(mand, "to_label"@);
    lemma_opt_member_lookup("block"@, ov_block, "to_label"@);
    lemma_opt_member_lookup("dex"@, ov_dex, "to_label"@);
    lemma_lookup_absent_concat(seg_block, tail_2, "to_label"@);
    lemma_lookup_absent_concat(mand, tail_1, "to_label"@);
    assert(ms == mand + tail_1);
    assert(spec_decode_nft_lending(ms) is None);
}

/// An encoded `sudo_pool` record lacks `to_label`, which the `bridge` shape needs.
#[verifier::spinoff_prover]
proof fn lemma_sudo_pool_not_bridge(s: SudoPoolV)
    ensures
        spec_decode_bridge(spec_encode_sudo_pool(s)) is None,
{
    reveal_strlit("block");
    reveal_strlit("chain");
    reveal_strlit("dex");
    reveal_strlit("from");
    reveal_strlit("index");
    reveal_strlit("nft_address");
    reveal_strlit("nft_amount");
    reveal_strlit("nft_price");
    reveal_strlit("nft_symbol");
    reveal_strlit("timestamp");
    reveal_strlit("to");
    reveal_strlit("to_label");
    reveal_strlit("token0_address");
    reveal_strlit("token0_amount");
    reveal_strlit("token0_amount_usd");
    reveal_strlit("token0_icon_link");
    reveal_strlit("token0_name");
    reveal_strlit("token0_price_usd");
    reveal_strlit("token0_symbol");
    reveal_strlit("tx_hash");
    reveal_strlit("tx_type");
    reveal_strlit("wallet");
    reveal_strlit("wallet_label");
    assert("block"@.len() == 5);
    assert("chain"@.len() == 5);
    assert("dex"@.len() == 3);
    assert("from"@.len() == 4);
    assert("index"@.len() == 5);
    assert("nft_address"@.len() == 11);
    assert("nft_amount"@.len() == 10);
    assert("nft_price"@.len() == 9);
    assert("nft_symbol"@.len() == 10);
    assert("timestamp"@.len() == 9);
    assert("to"@.len() == 2);
    assert("to_label"@.len() == 8);
    assert("token0_address"@.len() == 14);
    assert("token0_amount"@.len() == 13);
    assert("token0_amount_usd"@.len() == 17);
    assert("token0_icon_link"@.len() == 16);
    assert("token0_name"@.len() == 11);
    assert("token0_price_usd"@.len() == 16);
    assert("token0_symbol"@.len() == 13);
    assert("tx_hash"@.len() == 7);
    assert("tx_type"@.len() == 7);
    assert("wallet"@.len() == 6);
    assert("wallet_label"@.len() == 12);
    let ms = spec_encode_sudo_pool(s);
    let mand: Seq<(Seq<char>, JsonVal)> = seq![
        ("wallet"@, JsonVal::Str(s.wallet)),
        ("wallet_label"@, JsonVal::Str(s.wallet_label)),
        ("tx_hash"@, JsonVal::Str(s.tx_hash)),
        ("tx_type"@, JsonVal::Str(s.tx_type)),
        ("chain"@, JsonVal::Str(s.chain)),
        ("index"@, JsonVal::Num(JsonNumber::PosInt(s.index as u64))),
        ("timestamp"@, JsonVal::Num(JsonNumber::PosInt(s.timestamp))),
        ("from"@, JsonVal::Str(s.from)),
        ("nft_address"@, JsonVal::Str(s.nft_address)),
        ("nft_amount"@, JsonVal::Num(JsonNumber::PosInt(s.nft_amount as u64))),
        ("nft_price"@, JsonVal::Num(s.nft_price)),
        ("nft_symbol"@, JsonVal::Str(s.nft_symbol)),
        ("to"@, JsonVal::Str(s.to)),
        ("token0_address"@, JsonVal::Str(s.token0_address)),
        ("token0_amount"@, JsonVal::Num(s.token0_amount)),
        ("token0_amount_usd"@, JsonVal::Num(s.token0_amount_usd)),
        ("token0_name"@, JsonVal::Str(s.token0_name)),
        ("token0_price_usd"@, JsonVal::Num(s.token0_price_usd)),
        ("token0_symbol"@, JsonVal::Str(s.token0_symbol)),
        ("token0_icon_link"@, JsonVal::Str(s.token0_icon_link)),
    ];
    let ov_block: Option<JsonVal> = match s.block { Option::Some(x) => Option::Some(JsonVal::Num(JsonNumber::PosInt(x))), Option::None => Option::None };
    let seg_block = opt_member("block"@, ov_block);
    let ov_dex: Option<JsonVal> = match s.dex { Option::Some(x) => Option::Some(JsonVal::Str(x)), Option::None => Option::None };
    let seg_dex = opt_member("dex"@, ov_dex);
    let tail_2 = seg_dex;
    let tail_1 = seg_block + tail_2;
    assert(mand.len() == 20);
    assert(mand[0].0 == "wallet"@);
    assert(mand[1].0 == "wallet_label"@);
    assert(mand[2].0 == "tx_hash"@);
    assert(mand[3].0 == "tx_type"@);
    assert(mand[4].0 == "chain"@);
    assert(mand[5].0 == "index"@);
    assert(mand[6].0 == "timestamp"@);
    assert(mand[7].0 == "from"@);
    assert(mand[8].0 == "nft_address"@);
    assert(mand[9].0 == "nft_amount"@);
    assert(mand[10].0 == "nft_price"@);
    assert(mand[11].0 == "nft_symbol"@);
    assert(mand[12].0 == "to"@);
    assert(mand[13].0 == "token0_address"@);
    assert(mand[14].0 == "token0_amount"@);
    assert(mand[15].0 == "token0_amount_usd"@);
    assert(mand[16].0 == "token0_name"@);
    assert(mand[17].0 == "token0_price_usd"@);
    assert(mand[18].0 == "token0_symbol"@);
    assert(mand[19].0 == "token0_icon_link"@);
    assert forall|j: int| 0 <= j < mand.len() implies mand[j].0 != "to_label"@ by {
        if j == 0 {
        } else if j == 1 {
        } else if j == 2 {
        } else if j == 3 {
        } else if j == 4 {
        } else if j == 5 {
        } else if j == 6 {
        } else if j == 7 {
        } else if j == 8 {
        } else if j == 9 {
        } else if j == 10 {
        } else if j == 11 {
        } else if j == 12 {
        } else if j == 13 {
        } else if j == 14 {
        } else if j == 15 {
        } else if j == 16 {
        } else if j == 17 {
        } else if j == 18 {
        } else if j == 19 {
        } else {
        }
    }
    lemma_lookup_absent(mand, "to_label"@);
    lemma_opt_member_lookup("block"@, ov_block, "to_label"@);
    lemma_opt_member_lookup("dex"@, ov_dex, "to_label"@);
    lemma_lookup_absent_concat(seg_block, tail_2, "to_label"@);
    lemma_lookup_absent_concat(mand, tail_1, "to_label"@);
    assert(ms == mand + tail_1);
    assert(spec_decode_bridge(ms) is None);
}

/// An encoded `sudo_pool` record lacks `contract_address`, which the `contract_interaction` shape needs.
#[verifier::spinoff_prover]
proof fn lemma_sudo_pool_not_contract_interaction(s: SudoPoolV)
    ensures
        spec_decode_contract_interaction(spec_encode_sudo_pool(s)) is None,
{
    reveal_strlit("block");
    reveal_strlit("chain");
    reveal_strlit("contract_address");
    reveal_strlit("dex");
    reveal_strlit("from");
    reveal_strlit("index");
    reveal_strlit("nft_address");
    reveal_strlit("nft_amount");
    reveal_strlit("nft_price");
    reveal_strlit("nft_symbol");
    reveal_strlit("timestamp");
    reveal_strlit("to");
    reveal_strlit("token0_address");
    reveal_strlit("token0_amount");
    reveal_strlit("token0_amount_usd");
    reveal_strlit("token0_icon_link");
    reveal_strlit("token0_name");
    reveal_strlit("token0_price_usd");
    reveal_strlit("token0_symbol");
    reveal_strlit("tx_hash");
    reveal_strlit("tx_type");
    reveal_strlit("wallet");
    reveal_strlit("wallet_label");
    assert("block"@.len() == 5);
    assert("chain"@.len() == 5);
    assert("contract_address"@.len() == 16);
    assert("dex"@.len() == 3);
    assert("from"@.len() == 4);
    assert("index"@.len() == 5);
    assert("nft_address"@.len() == 11);
    assert("nft_amount"@.len() == 10);
    assert("nft_price"@.len() == 9);
    assert("nft_symbol"@.len() == 10);
    assert("timestamp"@.len() == 9);
    assert("to"@.len() == 2);
    assert("token0_address"@.len() == 14);
    assert("token0_amount"@.len() == 13);
    assert("token0_amount_usd"@.len() == 17);
    assert("token0_icon_link"@.len() == 16);
    assert("token0_name"@.len() == 11);
    assert("token0_price_usd"@.len() == 16);
    assert("token0_symbol"@.len() == 13);
    assert("tx_hash"@.len() == 7);
    assert("tx_type"@.len() == 7);
    assert("wallet"@.len() == 6);
    assert("wallet_label"@.len() == 12);
    assert("contract_address"@[0] == 'c');
    assert("token0_icon_link"@[0] == 't');
    assert("token0_price_usd"@[0] == 't');
    let ms = spec_encode_sudo_pool(s);
    let mand: Seq<(Seq<char>, JsonVal)> = seq![
        ("wallet"@, JsonVal::Str(s.wallet)),
        ("wallet_label"@, JsonVal::Str(s.wallet_label)),
        ("tx_hash"@, JsonVal::Str(s.tx_hash)),
        ("tx_type"@, JsonVal::Str(s.tx_type)),
        ("chain"@, JsonVal::Str(s.chain)),
        ("index"@, JsonVal::Num(JsonNumber::PosInt(s.index as u64))),
        ("timestamp"@, JsonVal::Num(JsonNumber::PosInt(s.timestamp))),
        ("from"@, JsonVal::Str(s.from)),
        ("nft_address"@, JsonVal::Str(s.nft_address)),
        ("nft_amount"@, JsonVal::Num(JsonNumber::PosInt(s.nft_amount as u64))),
        ("nft_price"@, JsonVal::Num(s.nft_price)),
        ("nft_symbol"@, JsonVal::Str(s.nft_symbol)),
        ("to"@, JsonVal::Str(s.to)),
        ("token0_address"@, JsonVal::Str(s.token0_address)),
        ("token0_amount"@, JsonVal::Num(s.token0_amount)),
        ("token0_amount_usd"@, JsonVal::Num(s.token0_amount_usd)),
        ("token0_name"@, JsonVal::Str(s.token0_name)),
        ("token0_price_usd"@, JsonVal::Num(s.token0_price_usd)),
        ("token0_symbol"@, JsonVal::Str(s.token0_symbol)),
        ("token0_icon_link"@, JsonVal::Str(s.token0_icon_link)),
    ];
    let ov_block: Option<JsonVal> = match s.block { Option::Some(x) => Option::Some(JsonVal::Num(JsonNumber::PosInt(x))), Option::None => Option::None };
    let seg_block = opt_member("block"@, ov_block);
    let ov_dex: Option<JsonVal> = match s.dex { Option::Some(x) => Option::Some(JsonVal::Str(x)), Option::None => Option::None };
    let seg_dex = opt_member("dex"@, ov_dex);
    let tail_2 = seg_dex;
    let tail_1 = seg_block + tail_2;
    assert(mand.len() == 20);
    assert(mand[0].0 == "wallet"@);
    assert(mand[1].0 == "wallet_label"@);
    assert(mand[2].0 == "tx_hash"@);
    assert(mand[3].0 == "tx_type"@);
    assert(mand[4].0 == "chain"@);
    assert(mand[5].0 == "index"@);
    assert(mand[6].0 == "timestamp"@);
    assert(mand[7].0 == "from"@);
    assert(mand[8].0 == "nft_address"@);
    assert(mand[9].0 == "nft_amount"@);
    assert(mand[10].0 == "nft_price"@);
    assert(mand[11].0 == "nft_symbol"@);
    assert(mand[12].0 == "to"@);
    assert(mand[13].0 == "token0_address"@);
    assert(mand[14].0 == "token0_amount"@);
    assert(mand[15].0 == "token0_amount_usd"@);
    assert(mand[16].0 == "token0_name"@);
    assert(mand[17].0 == "token0_price_usd"@);
    assert(mand[18].0 == "token0_symbol"@);
    assert(mand[19].0 == "token0_icon_link"@);
    assert forall|j: int| 0 <= j < mand.len() implies mand[j].0 != "contract_address"@ by {
        if j == 0 {
        } else if j == 1 {
        } else if j == 2 {
        } else if j == 3 {
        } else if j == 4 {
        } else if j == 5 {
        } else if j == 6 {
        } else if j == 7 {
        } else if j == 8 {
        } else if j == 9 {
        } else if j == 10 {
        } else if j == 11 {
        } else if j == 12 {
        } else if j == 13 {
        } else if j == 14 {
        } else if j == 15 {
        } else if j == 16 {
        } else if j == 17 {
        } else if j == 18 {
        } else if j == 19 {
        } else {
        }
    }
    lemma_lookup_absent(mand, "contract_address"@);
    lemma_opt_member_lookup("block"@, ov_block, "contract_address"@);
    lemma_opt_member_lookup("dex"@, ov_dex, "contract_address"@);
    lemma_lookup_absent_concat(seg_block, tail_2, "contract_address"@);
    lemma_lookup_absent_concat(mand, tail_1, "contract_address"@);
    assert(ms == mand + tail_1);
    assert(spec_decode_contract_interaction(ms) is None);
}

/// An encoded `sudo_pool` record lacks `token_price_usd`, which the `wrap` shape needs.
#[verifier::spinoff_prover]
proof fn lemma_sudo_pool_not_wrap(s: SudoPoolV)
    ensures
        spec_decode_wrap(spec_encode_sudo_pool(s)) is None,
{
    reveal_strlit("block");
    reveal_strlit("chain");
    reveal_strlit("dex");
    reveal_strlit("from");
    reveal_strlit("index");
    reveal_strlit("nft_address");
    reveal_strlit("nft_amount");
    reveal_strlit("nft_price");
    reveal_strlit("nft_symbol");
    reveal_strlit("timestamp");
    reveal_strlit("to");
    reveal_strlit("token0_address");
    reveal_strlit("token0_amount");
    reveal_strlit("token0_amount_usd");
    reveal_strlit("token0_icon_link");
    reveal_strlit("token0_name");
    reveal_strlit("token0_price_usd");
    reveal_strlit("token0_symbol");
    reveal_strlit("token_price_usd");
    reveal_strlit("tx_hash");
    reveal_strlit("tx_type");
    reveal_strlit("wallet");
    reveal_strlit("wallet_label");
    assert("block"@.len() == 5);
    assert("chain"@.len() == 5);
    assert("dex"@.len() == 3);
    assert("from"@.len() == 4);
    assert("index"@.len() == 5);
    assert("nft_address"@.len() == 11);
    assert("nft_amount"@.len() == 10);
    assert("nft_price"@.len() == 9);
    assert("nft_symbol"@.len() == 10);
    assert("timestamp"@.len() == 9);
    assert("to"@.len() == 2);
    assert("token0_address"@.len() == 14);
    assert("token0_amount"@.len() == 13);
    assert("token0_amount_usd"@.len() == 17);
    assert("token0_icon_link"@.len() == 16);
    assert("token0_name"@.len() == 11);
    assert("token0_price_usd"@.len() == 16);
    assert("token0_symbol"@.len() == 13);
    assert("token_price_usd"@.len() == 15);
    assert("tx_hash"@.len() == 7);
    assert("tx_type"@.len() == 7);
    assert("wallet"@.len() == 6);
    assert("wallet_label"@.len() == 12);
    let ms = spec_encode_sudo_pool(s);
    let mand: Seq<(Seq<char>, JsonVal)> = seq![
        ("wallet"@, JsonVal::Str(s.wallet)),
        ("wallet_label"@, JsonVal::Str(s.wallet_label)),
        ("tx_hash"@, JsonVal::Str(s.tx_hash)),
        ("tx_type"@, JsonVal::Str(s.tx_type)),
        ("chain"@, JsonVal::Str(s.chain)),
        ("index"@, JsonVal::Num(JsonNumber::PosInt(s.index as u64))),
        ("timestamp"@, JsonVal::Num(JsonNumber::PosInt(s.timestamp))),
        ("from"@, JsonVal::Str(s.from)),
        ("nft_address"@, JsonVal::Str(s.nft_address)),
        ("nft_amount"@, JsonVal::Num(JsonNumber::PosInt(s.nft_amount as u64))),
        ("nft_price"@, JsonVal::Num(s.nft_price)),
        ("nft_symbol"@, JsonVal::Str(s.nft_symbol)),
        ("to"@, JsonVal::Str(s.to)),
        ("token0_address"@, JsonVal::Str(s.token0_address)),
        ("token0_amount"@, JsonVal::Num(s.token0_amount)),
        ("token0_amount_usd"@, JsonVal::Num(s.token0_amount_usd)),
        ("token0_name"@, JsonVal::Str(s.token0_name)),
        ("token0_price_usd"@, JsonVal::Num(s.token0_price_usd)),
        ("token0_symbol"@, JsonVal::Str(s.token0_symbol)),
        ("token0_icon_link"@, JsonVal::Str(s.token0_icon_link)),
    ];
    let ov_block: Option<JsonVal> = match s.block { Option::Some(x) => Option::Some(JsonVal::Num(JsonNumber::PosInt(x))), Option::None => Option::None };
    let seg_block = opt_member("block"@, ov_block);
    let ov_dex: Option<JsonVal> = match s.dex { Option::Some(x) => Option::Some(JsonVal::Str(x)), Option::None => Option::None };
    let seg_dex = opt_member("dex"@, ov_dex);
    let tail_2 = seg_dex;
    let tail_1 = seg_block + tail_2;
    assert(mand.len() == 20);
    assert(mand[0].0 == "wallet"@);
    assert(mand[1].0 == "wallet_label"@);
    assert(mand[2].0 == "tx_hash"@);
    assert(mand[3].0 == "tx_type"@);
    assert(mand[4].0 == "chain"@);
    assert(mand[5].0 == "index"@);
    assert(mand[6].0 == "timestamp"@);
    assert(mand[7].0 == "from"@);
    assert(mand[8].0 == "nft_address"@);
    assert(mand[9].0 == "nft_amount"@);
    assert(mand[10].0 == "nft_price"@);
    assert(mand[11].0 == "nft_symbol"@);
    assert(mand[12].0 == "to"@);
    assert(mand[13].0 == "token0_address"@);
    assert(mand[14].0 == "token0_amount"@);
    assert(mand[15].0 == "token0_amount_usd"@);
    assert(mand[16].0 == "token0_name"@);
    assert(mand[17].0 == "token0_price_usd"@);
    assert(mand[18].0 == "token0_symbol"@);
    assert(mand[19].0 == "token0_icon_link"@);
    assert forall|j: int| 0 <= j < mand.len() implies mand[j].0 != "token_price_usd"@ by {
        if j == 0 {
        } else if j == 1 {
        } else if j == 2 {
        } else if j == 3 {
        } else if j == 4 {
        } else if j == 5 {
        } else if j == 6 {
        } else if j == 7 {
        } else if j == 8 {
        } else if j == 9 {
        } else if j == 10 {
        } else if j == 11 {
        } else if j == 12 {
        } else if j == 13 {
        } else if j == 14 {
        } else if j == 15 {
        } else if j == 16 {
        } else if j == 17 {
        } else if j == 18 {
        } else if j == 19 {
        } else {
        }
    }
    lemma_lookup_absent(mand, "token_price_usd"@);
    lemma_opt_member_lookup("block"@, ov_block, "token_price_usd"@);
    lemma_opt_member_lookup("dex"@, ov_dex, "token_price_usd"@);
    lemma_lookup_absent_concat(seg_block, tail_2, "token_price_usd"@);
    lemma_lookup_absent_concat(mand, tail_1, "token_price_usd"@);
    assert(ms == mand + tail_1);
    assert(spec_decode_wrap(ms) is None);
}

/// Decoding an encoded `sudo_pool` record yields it back.
#[verifier::rlimit(50)]
#[verifier::spinoff_prover]
pub proof fn lemma_sudo_pool_round_trip(s: SudoPoolV)
    ensures
        spec_decode_item(spec_encode_item(ItemV::SudoPool(s))) == Some(ItemV::SudoPool(s)),
{
    reveal_strlit("block");
    reveal_strlit("chain");
    reveal_strlit("dex");
    reveal_strlit("from");
    reveal_strlit("index");
    reveal_strlit("nft_address");
    reveal_strlit("nft_amount");
    reveal_strlit("nft_price");
    reveal_strlit("nft_symbol");
    reveal_strlit("timestamp");
    reveal_strlit("to");
    reveal_strlit("token0_address");
    reveal_strlit("token0_amount");
    reveal_strlit("token0_amount_usd");
    reveal_strlit("token0_icon_link");
    reveal_strlit("token0_name");
    reveal_strlit("token0_price_usd");
    reveal_strlit("token0_symbol");
    reveal_strlit("tx_hash");
    reveal_strlit("tx_type");
    reveal_strlit("wallet");
    reveal_strlit("wallet_label");
    assert("block"@.len() == 5);
    assert("chain"@.len() == 5);
    assert("dex"@.len() == 3);
    assert("from"@.len() == 4);
    assert("index"@.len() == 5);
    assert("nft_address"@.len() == 11);
    assert("nft_amount"@.len() == 10);
    assert("nft_price"@.len() == 9);
    assert("nft_symbol"@.len() == 10);
    assert("timestamp"@.len() == 9);
    assert("to"@.len() == 2);
    assert("token0_address"@.len() == 14);
    assert("token0_amount"@.len() == 13);
    assert("token0_amount_usd"@.len() == 17);
    assert("token0_icon_link"@.len() == 16);
    assert("token0_name"@.len() == 11);
    assert("token0_price_usd"@.len() == 16);
    assert("token0_symbol"@.len() == 13);
    assert("tx_hash"@.len() == 7);
    assert("tx_type"@.len() == 7);
    assert("wallet"@.len() == 6);
    assert("wallet_label"@.len() == 12);
    assert("block"@[0] == 'b');
    assert("chain"@[0] == 'c');
    assert("index"@[0] == 'i');
    assert("nft_address"@[0] == 'n');
    assert("nft_amount"@[4] == 'a');
    assert("nft_price"@[0] == 'n');
    assert("nft_symbol"@[4] == 's');
    assert("timestamp"@[0] == 't');
    assert("token0_amount"@[7] == 'a');
    assert("token0_icon_link"@[7] == 'i');
    assert("token0_name"@[0] == 't');
    assert("token0_price_usd"@[7] == 'p');
    assert("token0_symbol"@[7] == 's');
    assert("tx_hash"@[3] == 'h');
    assert("tx_type"@[3] == 't');
    let ms = spec_encode_sudo_pool(s);
    let mand: Seq<(Seq<char>, JsonVal)> = seq![
        ("wallet"@, JsonVal::Str(s.wallet)),
        ("wallet_label"@, JsonVal::Str(s.wallet_label)),
        ("tx_hash"@, JsonVal::Str(s.tx_hash)),
        ("tx_type"@, JsonVal::Str(s.tx_type)),
        ("chain"@, JsonVal::Str(s.chain)),
        ("index"@, JsonVal::Num(JsonNumber::PosInt(s.index as u64))),
        ("timestamp"@, JsonVal::Num(JsonNumber::PosInt(s.timestamp))),
        ("from"@, JsonVal::Str(s.from)),
        ("nft_address"@, JsonVal::Str(s.nft_address)),
        ("nft_amount"@, JsonVal::Num(JsonNumber::PosInt(s.nft_amount as u64))),
        ("nft_price"@, JsonVal::Num(s.nft_price)),
        ("nft_symbol"@, JsonVal::Str(s.nft_symbol)),
        ("to"@, JsonVal::Str(s.to)),
        ("token0_address"@, JsonVal::Str(s.token0_address)),
        ("token0_amount"@, JsonVal::Num(s.token0_amount)),
        ("token0_amount_usd"@, JsonVal::Num(s.token0_amount_usd)),
        ("token0_name"@, JsonVal::Str(s.token0_name)),
        ("token0_price_usd"@, JsonVal::Num(s.token0_price_usd)),
        ("token0_symbol"@, JsonVal::Str(s.token0_symbol)),
        ("token0_icon_link"@, JsonVal::Str(s.token0_icon_link)),
    ];
    let ov_block: Option<JsonVal> = match s.block { Option::Some(x) => Option::Some(JsonVal::Num(JsonNumber::PosInt(x))), Option::None => Option::None };
    let seg_block = opt_member("block"@, ov_block);
    let ov_dex: Option<JsonVal> = match s.dex { Option::Some(x) => Option::Some(JsonVal::Str(x)), Option::None => Option::None };
    let seg_dex = opt_member("dex"@, ov_dex);
    let tail_2 = seg_dex;
    let tail_1 = seg_block + tail_2;
    assert(mand.len() == 20);
    assert(mand[0].0 == "wallet"@);
    assert(mand[1].0 == "wallet_label"@);
    assert(mand[2].0 == "tx_hash"@);
    assert(mand[3].0 == "tx_type"@);
    assert(mand[4].0 == "chain"@);
    assert(mand[5].0 == "index"@);
    assert(mand[6].0 == "timestamp"@);
    assert(mand[7].0 == "from"@);
    assert(mand[8].0 == "nft_address"@);
    assert(mand[9].0 == "nft_amount"@);
    assert(mand[10].0 == "nft_price"@);
    assert(mand[11].0 == "nft_symbol"@);
    assert(mand[12].0 == "to"@);
    assert(mand[13].0 == "token0_address"@);
    assert(mand[14].0 == "token0_amount"@);
    assert(mand[15].0 == "token0_amount_usd"@);
    assert(mand[16].0 == "token0_name"@);
    assert(mand[17].0 == "token0_price_usd"@);
    assert(mand[18].0 == "token0_symbol"@);
    assert(mand[19].0 == "token0_icon_link"@);
    lemma_lookup_first(mand, 0);
    lemma_lookup_first(mand, 1);
    lemma_lookup_first(mand, 2);
    lemma_lookup_first(mand, 3);
    lemma_lookup_first(mand, 4);
    lemma_lookup_first(mand, 5);
    lemma_lookup_first(mand, 6);
    lemma_lookup_first(mand, 7);
    lemma_lookup_first(mand, 8);
    lemma_lookup_first(mand, 9);
    lemma_lookup_first(mand, 10);
    lemma_lookup_first(mand, 11);
    lemma_lookup_first(mand, 12);
    lemma_lookup_first(mand, 13);
    lemma_lookup_first(mand, 14);
    lemma_lookup_first(mand, 15);
    lemma_lookup_first(mand, 16);
    lemma_lookup_first(mand, 17);
    lemma_lookup_first(mand, 18);
    lemma_lookup_first(mand, 19);
    lemma_lookup_concat_left(mand, tail_1, "wallet"@);
    lemma_lookup_concat_left(mand, tail_1, "wallet_label"@);
    lemma_lookup_concat_left(mand, tail_1, "tx_hash"@);
    lemma_lookup_concat_left(mand, tail_1, "tx_type"@);
    lemma_lookup_concat_left(mand, tail_1, "chain"@);
    lemma_lookup_concat_left(mand, tail_1, "index"@);
    lemma_lookup_concat_left(mand, tail_1, "timestamp"@);
    lemma_lookup_concat_left(mand, tail_1, "from"@);
    lemma_lookup_concat_left(mand, tail_1, "nft_address"@);
    lemma_lookup_concat_left(mand, tail_1, "nft_amount"@);
    lemma_lookup_concat_left(mand, tail_1, "nft_price"@);
    lemma_lookup_concat_left(mand, tail_1, "nft_symbol"@);
    lemma_lookup_concat_left(mand, tail_1, "to"@);
    lemma_lookup_concat_left(mand, tail_1, "token0_address"@);
    lemma_lookup_concat_left(mand, tail_1, "token0_amount"@);
    lemma_lookup_concat_left(mand, tail_1, "token0_amount_usd"@);
    lemma_lookup_concat_left(mand, tail_1, "token0_name"@);
    lemma_lookup_concat_left(mand, tail_1, "token0_price_usd"@);
    lemma_lookup_concat_left(mand, tail_1, "token0_symbol"@);
    lemma_lookup_concat_left(mand, tail_1, "token0_icon_link"@);
    lemma_sudo_pool_block_member(s);
    lemma_sudo_pool_dex_member(s);
    lemma_sudo_pool_not_swap(s);
    lemma_sudo_pool_not_lp(s);
    lemma_sudo_pool_not_transfer(s);
    lemma_sudo_pool_not_lending(s);
    lemma_sudo_pool_not_nft_mint(s);
    lemma_sudo_pool_not_nft_trade(s);
    lemma_sudo_pool_not_nft_transfer(s);
    lemma_sudo_pool_not_nft_lending(s);
    lemma_sudo_pool_not_bridge(s);
    lemma_sudo_pool_not_contract_interaction(s);
    lemma_sudo_pool_not_wrap(s);
    assert(ms == mand + tail_1);
    assert(spec_decode_sudo_pool(ms) == Some(SudoPoolV {
        wallet: s.wallet,
        wallet_label: s.wallet_label,
        tx_hash: s.tx_hash,
        tx_type: s.tx_type,
        chain: s.chain,
        index: s.index,
        timestamp: s.timestamp,
        block: s.block,
        dex: s.dex,
        from: s.from,
        nft_address: s.nft_address,
        nft_amount: s.nft_amount,
        nft_price: s.nft_price,
        nft_symbol: s.nft_symbol,
        to: s.to,
        token0_address: s.token0_address,
        token0_amount: s.token0_amount,
        token0_amount_usd: s.token0_amount_usd,
        token0_name: s.token0_name,
        token0_price_usd: s.token0_price_usd,
        token0_symbol: s.token0_symbol,
        token0_icon_link: s.token0_icon_link,
    }));
}

/// An encoded `flashloan` record lacks `to`, which the `swap` shape needs.
#[verifier::spinoff_prover]
proof fn lemma_flashloan_not_swap(s: FlashloanV)
    ensures
        spec_decode_swap(spec_encode_flashloan(s)) is None,
{
    reveal_strlit("address");
    reveal_strlit("amount");
    reveal_strlit("amount_usd");
    reveal_strlit("block");
    reveal_strlit("chain");
    reveal_strlit("dex");
    reveal_strlit("from");
    reveal_strlit("health_factor");
    reveal_strlit("index");
    reveal_strlit("name");
    reveal_strlit("platform");
    reveal_strlit("price_usd");
    reveal_strlit("symbol");
    reveal_strlit("timestamp");
    reveal_strlit("to");
    reveal_strlit("token_icon_link");
    reveal_strlit("tx_hash");
    reveal_strlit("tx_type");
    reveal_strlit("wallet");
    reveal_strlit("wallet_label");
    assert("address"@.len() == 7);
    assert("amount"@.len() == 6);
    assert("amount_usd"@.len() == 10);
    assert("block"@.len() == 5);
    assert("chain"@.len() == 5);
    assert("dex"@.len() == 3);
    assert("from"@.len() == 4);
    assert("health_factor"@.len() == 13);
    assert("index"@.len() == 5);
    assert("name"@.len() == 4);
    assert("platform"@.len() == 8);
    assert("price_usd"@.len() == 9);
    assert("symbol"@.len() == 6);
    assert("timestamp"@.len() == 9);
    assert("to"@.len() == 2);
    assert("token_icon_link"@.len() == 15);
    assert("tx_hash"@.len() == 7);
    assert("tx_type"@.len() == 7);
    assert("wallet"@.len() == 6);
    assert("wallet_label"@.len() == 12);
    let ms = spec_encode_flashloan(s);
    let mand = ms;
    assert(mand.len() == 19);
    assert(mand[0].0 == "wallet"@);
    assert(mand[1].0 == "wallet_label"@);
    assert(mand[2].0 == "tx_hash"@);
    assert(mand[3].0 == "tx_type"@);
    assert(mand[4].0 == "chain"@);
    assert(mand[5].0 == "index"@);
    assert(mand[6].0 == "timestamp"@);
    assert(mand[7].0 == "block"@);
    assert(mand[8].0 == "address"@);
    assert(mand[9].0 == "amount"@);
    assert(mand[10].0 == "amount_usd"@);
    assert(mand[11].0 == "dex"@);
    assert(mand[12].0 == "from"@);
    assert(mand[13].0 == "health_factor"@);
    assert(mand[14].0 == "name"@);
    assert(mand[15].0 == "platform"@);
    assert(mand[16].0 == "price_usd"@);
    assert(mand[17].0 == "symbol"@);
    assert(mand[18].0 == "token_icon_link"@);
    assert forall|j: int| 0 <= j < mand.len() implies mand[j].0 != "to"@ by {
        if j == 0 {
        } else if j == 1 {
        } else if j == 2 {
        } else if j == 3 {
        } else if j == 4 {
        } else if j == 5 {
        } else if j == 6 {
        } else if j == 7 {
        } else if j == 8 {
        } else if j == 9 {
        } else if j == 10 {
        } else if j == 11 {
        } else if j == 12 {
        } else if j == 13 {
        } else if j == 14 {
        } else if j == 15 {
        } else if j == 16 {
        } else if j == 17 {
        } else if j == 18 {
        } else {
        }
    }
    lemma_lookup_absent(mand, "to"@);
    assert(spec_decode_swap(ms) is None);
}

/// An encoded `flashloan` record lacks `token0_address`, which the `lp` shape needs.
#[verifier::spinoff_prover]
proof fn lemma_flashloan_not_lp(s: FlashloanV)
    ensures
        spec_decode_lp(spec_encode_flashloan(s)) is None,
{
    reveal_strlit("address");
    reveal_strlit("amount");
    reveal_strlit("amount_usd");
    reveal_strlit("block");
    reveal_strlit("chain");
    reveal_strlit("dex");
    reveal_strlit("from");
    reveal_strlit("health_factor");
    reveal_strlit("index");
    reveal_strlit("name");
    reveal_strlit("platform");
    reveal_strlit("price_usd");
    reveal_strlit("symbol");
    reveal_strlit("timestamp");
    reveal_strlit("token0_address");
    reveal_strlit("token_icon_link");
    reveal_strlit("tx_hash");
    reveal_strlit("tx_type");
    reveal_strlit("wallet");
    reveal_strlit("wallet_label");
    assert("address"@.len() == 7);
    assert("amount"@.len() == 6);
    assert("amount_usd"@.len() == 10);
    assert("block"@.len() == 5);
    assert("chain"@.len() == 5);
    assert("dex"@.len() == 3);
    assert("from"@.len() == 4);
    assert("health_factor"@.len() == 13);
    assert("index"@.len() == 5);
    assert("name"@.len() == 4);
    assert("platform"@.len() == 8);
    assert("price_usd"@.len() == 9);
    assert("symbol"@.len() == 6);
    assert("timestamp"@.len() == 9);
    assert("token0_address"@.len() == 14);
    assert("token_icon_link"@.len() == 15);
    assert("tx_hash"@.len() == 7);
    assert("tx_type"@.len() == 7);
    assert("wallet"@.len() == 6);
    assert("wallet_label"@.len() == 12);
    let ms = spec_encode_flashloan(s);
    let mand = ms;
    assert(mand.len() == 19);
    assert(mand[0].0 == "wallet"@);
    assert(mand[1].0 == "wallet_label"@);
    assert(mand[2].0 == "tx_hash"@);
    assert(mand[3].0 == "tx_type"@);
    assert(mand[4].0 == "chain"@);
    assert(mand[5].0 == "index"@);
    assert(mand[6].0 == "timestamp"@);
    assert(mand[7].0 == "block"@);
    assert(mand[8].0 == "address"@);
    assert(mand[9].0 == "amount"@);
    assert(mand[10].0 == "amount_usd"@);
    assert(mand[11].0 == "dex"@);
    assert(mand[12].0 == "from"@);
    assert(mand[13].0 == "health_factor"@);
    assert(mand[14].0 == "name"@);
    assert(mand[15].0 == "platform"@);
    assert(mand[16].0 == "price_usd"@);
    assert(mand[17].0 == "symbol"@);
    assert(mand[18].0 == "token_icon_link"@);
    assert forall|j: int| 0 <= j < mand.len() implies mand[j].0 != "token0_address"@ by {
        if j == 0 {
        } else if j == 1 {
        } else if j == 2 {
        } else if j == 3 {
        } else if j == 4 {
        } else if j == 5 {
        } else if j == 6 {
        } else if j == 7 {
        } else if j == 8 {
        } else if j == 9 {
        } else if j == 10 {
        } else if j == 11 {
        } else if j == 12 {
        } else if j == 13 {
        } else if j == 14 {
        } else if j == 15 {
        } else if j == 16 {
        } else if j == 17 {
        } else if j == 18 {
        } else {
        }
    }
    lemma_lookup_absent(mand, "token0_address"@);
    assert(spec_decode_lp(ms) is None);
}

/// An encoded `flashloan` record lacks `to`, which the `transfer` shape needs.
#[verifier::spinoff_prover]
proof fn lemma_flashloan_not_transfer(s: FlashloanV)
    ensures
        spec_decode_transfer(spec_encode_flashloan(s)) is None,
{
    reveal_strlit("address");
    reveal_strlit("amount");
    reveal_strlit("amount_usd");
    reveal_strlit("block");
    reveal_strlit("chain");
    reveal_strlit("dex");
    reveal_strlit("from");
    reveal_strlit("health_factor");
    reveal_strlit("index");
    reveal_strlit("name");
    reveal_strlit("platform");
    reveal_strlit("price_usd");
    reveal_strlit("symbol");
    reveal_strlit("timestamp");
    reveal_strlit("to");
    reveal_strlit("token_icon_link");
    reveal_strlit("tx_hash");
    reveal_strlit("tx_type");
    reveal_strlit("wallet");
    reveal_strlit("wallet_label");
    assert("address"@.len() == 7);
    assert("amount"@.len() == 6);
    assert("amount_usd"@.len() == 10);
    assert("block"@.len() == 5);
    assert("chain"@.len() == 5);
    assert("dex"@.len() == 3);
    assert("from"@.len() == 4);
    assert("health_factor"@.len() == 13);
    assert("index"@.len() == 5);
    assert("name"@.len() == 4);
    assert("platform"@.len() == 8);
    assert("price_usd"@.len() == 9);
    assert("symbol"@.len() == 6);
    assert("timestamp"@.len() == 9);
    assert("to"@.len() == 2);
    assert("token_icon_link"@.len() == 15);
    assert("tx_hash"@.len() == 7);
    assert("tx_type"@.len() == 7);
    assert("wallet"@.len() == 6);
    assert("wallet_label"@.len() == 12);
    let ms = spec_encode_flashloan(s);
    let mand = ms;
    assert(mand.len() == 19);
    assert(mand[0].0 == "wallet"@);
    assert(mand[1].0 == "wallet_label"@);
    assert(mand[2].0 == "tx_hash"@);
    assert(mand[3].0 == "tx_type"@);
    assert(mand[4].0 == "chain"@);
    assert(mand[5].0 == "index"@);
    assert(mand[6].0 == "timestamp"@);
    assert(mand[7].0 == "block"@);
    assert(mand[8].0 == "address"@);
    assert(mand[9].0 == "amount"@);
    assert(mand[10].0 == "amount_usd"@);
    assert(mand[11].0 == "dex"@);
    assert(mand[12].0 == "from"@);
    assert(mand[13].0 == "health_factor"@);
    assert(mand[14].0 == "name"@);
    assert(mand[15].0 == "platform"@);
    assert(mand[16].0 == "price_usd"@);
    assert(mand[17].0 == "symbol"@);
    assert(mand[18].0 == "token_icon_link"@);
    assert forall|j: int| 0 <= j < mand.len() implies mand[j].0 != "to"@ by {
        if j == 0 {
        } else if j == 1 {
        } else if j == 2 {
        } else if j == 3 {
        } else if j == 4 {
        } else if j == 5 {
        } else if j == 6 {
        } else if j == 7 {
        } else if j == 8 {
        } else if j == 9 {
        } else if j == 10 {
        } else if j == 11 {
        } else if j == 12 {
        } else if j == 13 {
        } else if j == 14 {
        } else if j == 15 {
        } else if j == 16 {
        } else if j == 17 {
        } else if j == 18 {
        } else {
        }
    }
    lemma_lookup_absent(mand, "to"@);
    assert(spec_decode_transfer(ms) is None);
}

/// An encoded `flashloan` record lacks `from_label`, which the `lending` shape needs.
#[verifier::spinoff_prover]
proof fn lemma_flashloan_not_lending(s: FlashloanV)
    ensures
        spec_decode_lending(spec_encode_flashloan(s)) is None,
{
    reveal_strlit("address");
    reveal_strlit("amount");
    reveal_strlit("amount_usd");
    reveal_strlit("block");
    reveal_strlit("chain");
    reveal_strlit("dex");
    reveal_strlit("from");
    reveal_strlit("from_label");
    reveal_strlit("health_factor");
    reveal_strlit("index");
    reveal_strlit("name");
    reveal_strlit("platform");
    reveal_strlit("price_usd");
    reveal_strlit("symbol");
    reveal_strlit("timestamp");
    reveal_strlit("token_icon_link");
    reveal_strlit("tx_hash");
    reveal_strlit("tx_type");
    reveal_strlit("wallet");
    reveal_strlit("wallet_label");
    assert("address"@.len() == 7);
    assert("amount"@.len() == 6);
    assert("amount_usd"@.len() == 10);
    assert("block"@.len() == 5);
    assert("chain"@.len() == 5);
    assert("dex"@.len() == 3);
    assert("from"@.len() == 4);
    assert("from_label"@.len() == 10);
    assert("health_factor"@.len() == 13);
    assert("index"@.len() == 5);
    assert("name"@.len() == 4);
    assert("platform"@.len() == 8);
    assert("price_usd"@.len() == 9);
    assert("symbol"@.len() == 6);
    assert("timestamp"@.len() == 9);
    assert("token_icon_link"@.len() == 15);
    assert("tx_hash"@.len() == 7);
    assert("tx_type"@.len() == 7);
    assert("wallet"@.len() == 6);
    assert("wallet_label"@.len() == 12);
    assert("amount_usd"@[0] == 'a');
    assert("from_label"@[0] == 'f');
    let ms = spec_encode_flashloan(s);
    let mand = ms;
    assert(mand.len() == 19);
    assert(mand[0].0 == "wallet"@);
    assert(mand[1].0 == "wallet_label"@);
    assert(mand[2].0 == "tx_hash"@);
    assert(mand[3].0 == "tx_type"@);
    assert(mand[4].0 == "chain"@);
    assert(mand[5].0 == "index"@);
    assert(mand[6].0 == "timestamp"@);
    assert(mand[7].0 == "block"@);
    assert(mand[8].0 == "address"@);
    assert(mand[9].0 == "amount"@);
    assert(mand[10].0 == "amount_usd"@);
    assert(mand[11].0 == "dex"@);
    assert(mand[12].0 == "from"@);
    assert(mand[13].0 == "health_factor"@);
    assert(mand[14].0 == "name"@);
    assert(mand[15].0 == "platform"@);
    assert(mand[16].0 == "price_usd"@);
    assert(mand[17].0 == "symbol"@);
    assert(mand[18].0 == "token_icon_link"@);
    assert forall|j: int| 0 <= j < mand.len() implies mand[j].0 != "from_label"@ by {
        if j == 0 {
        } else if j == 1 {
        } else if j == 2 {
        } else if j == 3 {
        } else if j == 4 {
        } else if j == 5 {
        } else if j == 6 {
        } else if j == 7 {
        } else if j == 8 {
        } else if j == 9 {
        } else if j == 10 {
        } else if j == 11 {
        } else if j == 12 {
        } else if j == 13 {
        } else if j == 14 {
        } else if j == 15 {
        } else if j == 16 {
        } else if j == 17 {
        } else if j == 18 {
        } else {
        }
    }
    lemma_lookup_absent(mand, "from_label"@);
    assert(spec_decode_lending(ms) is None);
}

/// An encoded `flashloan` record lacks `to`, which the `nft_mint` shape needs.
#[verifier::spinoff_prover]
proof fn lemma_flashloan_not_nft_mint(s: FlashloanV)
    ensures
        spec_decode_nft_mint(spec_encode_flashloan(s)) is None,
{
    reveal_strlit("address");
    reveal_strlit("amount");
    reveal_strlit("amount_usd");
    reveal_strlit("block");
    reveal_strlit("chain");
    reveal_strlit("dex");
    reveal_strlit("from");
    reveal_strlit("health_factor");
    reveal_strlit("index");
    reveal_strlit("name");
    reveal_strlit("platform");
    reveal_strlit("price_usd");
    reveal_strlit("symbol");
    reveal_strlit("timestamp");
    reveal_strlit("to");
    reveal_strlit("token_icon_link");
    reveal_strlit("tx_hash");
    reveal_strlit("tx_type");
    reveal_strlit("wallet");
    reveal_strlit("wallet_label");
    assert("address"@.len() == 7);
    assert("amount"@.len() == 6);
    assert("amount_usd"@.len() == 10);
    assert("block"@.len() == 5);
    assert("chain"@.len() == 5);
    assert("dex"@.len() == 3);
    assert("from"@.len() == 4);
    assert("health_factor"@.len() == 13);
    assert("index"@.len() == 5);
    assert("name"@.len() == 4);
    assert("platform"@.len() == 8);
    assert("price_usd"@.len() == 9);
    assert("symbol"@.len() == 6);
    assert("timestamp"@.len() == 9);
    assert("to"@.len() == 2);
    assert("token_icon_link"@.len() == 15);
    assert("tx_hash"@.len() == 7);
    assert("tx_type"@.len() == 7);
    assert("wallet"@.len() == 6);
    assert("wallet_label"@.len() == 12);
    let ms = spec_encode_flashloan(s);
    let mand = ms;
    assert(mand.len() == 19);
    assert(mand[0].0 == "wallet"@);
    assert(mand[1].0 == "wallet_label"@);
    assert(mand[2].0 == "tx_hash"@);
    assert(mand[3].0 == "tx_type"@);
    assert(mand[4].0 == "chain"@);
    assert(mand[5].0 == "index"@);
    assert(mand[6].0 == "timestamp"@);
    assert(mand[7].0 == "block"@);
    assert(mand[8].0 == "address"@);
    assert(mand[9].0 == "amount"@);
    assert(mand[10].0 == "amount_usd"@);
    assert(mand[11].0 == "dex"@);
    assert(mand[12].0 == "from"@);
    assert(mand[13].0 == "health_factor"@);
    assert(mand[14].0 == "name"@);
    assert(mand[15].0 == "platform"@);
    assert(mand[16].0 == "price_usd"@);
    assert(mand[17].0 == "symbol"@);
    assert(mand[18].0 == "token_icon_link"@);
    assert forall|j: int| 0 <= j < mand.len() implies mand[j].0 != "to"@ by {
        if j == 0 {
        } else if j == 1 {
        } else if j == 2 {
        } else if j == 3 {
        } else if j == 4 {
        } else if j == 5 {
        } else if j == 6 {
        } else if j == 7 {
        } else if j == 8 {
        } else if j == 9 {
        } else if j == 10 {
        } else if j == 11 {
        } else if j == 12 {
        } else if j == 13 {
        } else if j == 14 {
        } else if j == 15 {
        } else if j == 16 {
        } else if j == 17 {
        } else if j == 18 {
        } else {
        }
    }
    lemma_lookup_absent(mand, "to"@);
    assert(spec_decode_nft_mint(ms) is None);
}

/// An encoded `flashloan` record lacks `to`, which the `nft_trade` shape needs.
#[verifier::spinoff_prover]
proof fn lemma_flashloan_not_nft_trade(s: FlashloanV)
    ensures
        spec_decode_nft_trade(spec_encode_flashloan(s)) is None,
{
    reveal_strlit("address");
    reveal_strlit("amount");
    reveal_strlit("amount_usd");
    reveal_strlit("block");
    reveal_strlit("chain");
    reveal_strlit("dex");
    reveal_strlit("from");
    reveal_strlit("health_factor");
    reveal_strlit("index");
    reveal_strlit("name");
    reveal_strlit("platform");
    reveal_strlit("price_usd");
    reveal_strlit("symbol");
    reveal_strlit("timestamp");
    reveal_strlit("to");
    reveal_strlit("token_icon_link");
    reveal_strlit("tx_hash");
    reveal_strlit("tx_type");
    reveal_strlit("wallet");
    reveal_strlit("wallet_label");
    assert("address"@.len() == 7);
    assert("amount"@.len() == 6);
    assert("amount_usd"@.len() == 10);
    assert("block"@.len() == 5);
    assert("chain"@.len() == 5);
    assert("dex"@.len() == 3);
    assert("from"@.len() == 4);
    assert("health_factor"@.len() == 13);
    assert("index"@.len() == 5);
    assert("name"@.len() == 4);
    assert("platform"@.len() == 8);
    assert("price_usd"@.len() == 9);
    assert("symbol"@.len() == 6);
    assert("timestamp"@.len() == 9);
    assert("to"@.len() == 2);
    assert("token_icon_link"@.len() == 15);
    assert("tx_hash"@.len() == 7);
    assert("tx_type"@.len() == 7);
    assert("wallet"@.len() == 6);
    assert("wallet_label"@.len() == 12);
    let ms = spec_encode_flashloan(s);
    let mand = ms;
    assert(mand.len() == 19);
    assert(mand[0].0 == "wallet"@);
    assert(mand[1].0 == "wallet_label"@);
    assert(mand[2].0 == "tx_hash"@);
    assert(mand[3].0 == "tx_type"@);
    assert(mand[4].0 == "chain"@);
    assert(mand[5].0 == "index"@);
    assert(mand[6].0 == "timestamp"@);
    assert(mand[7].0 == "block"@);
    assert(mand[8].0 == "address"@);
    assert(mand[9].0 == "amount"@);
    assert(mand[10].0 == "amount_usd"@);
    assert(mand[11].0 == "dex"@);
    assert(mand[12].0 == "from"@);
    assert(mand[13].0 == "health_factor"@);
    assert(mand[14].0 == "name"@);
    assert(mand[15].0 == "platform"@);
    assert(mand[16].0 == "price_usd"@);
    assert(mand[17].0 == "symbol"@);
    assert(mand[18].0 == "token_icon_link"@);
    assert forall|j: int| 0 <= j < mand.len() implies mand[j].0 != "to"@ by {
        if j == 0 {
        } else if j == 1 {
        } else if j == 2 {
        } else if j == 3 {
        } else if j == 4 {
        } else if j == 5 {
        } else if j == 6 {
        } else if j == 7 {
        } else if j == 8 {
        } else if j == 9 {
        } else if j == 10 {
        } else if j == 11 {
        } else if j == 12 {
        } else if j == 13 {
        } else if j == 14 {
        } else if j == 15 {
        } else if j == 16 {
        } else if j == 17 {
        } else if j == 18 {
        } else {
        }
    }
    lemma_lookup_absent(mand, "to"@);
    assert(spec_decode_nft_trade(ms) is None);
}

/// An encoded `flashloan` record lacks `to`, which the `nft_transfer` shape needs.
#[verifier::spinoff_prover]
proof fn lemma_flashloan_not_nft_transfer(s: FlashloanV)
    ensures
        spec_decode_nft_transfer(spec_encode_flashloan(s)) is None,
{
    reveal_strlit("address");
    reveal_strlit("amount");
    reveal_strlit("amount_usd");
    reveal_strlit("block");
    reveal_strlit("chain");
    reveal_strlit("dex");
    reveal_strlit("from");
    reveal_strlit("health_factor");
    reveal_strlit("index");
    reveal_strlit("name");
    reveal_strlit("platform");
    reveal_strlit("price_usd");
    reveal_strlit("symbol");
    reveal_strlit("timestamp");
    reveal_strlit("to");
    reveal_strlit("token_icon_link");
    reveal_strlit("tx_hash");
    reveal_strlit("tx_type");
    reveal_strlit("wallet");
    reveal_strlit("wallet_label");
    assert("address"@.len() == 7);
    assert("amount"@.len() == 6);
    assert("amount_usd"@.len() == 10);
    assert("block"@.len() == 5);
    assert("chain"@.len() == 5);
    assert("dex"@.len() == 3);
    assert("from"@.len() == 4);
    assert("health_factor"@.len() == 13);
    assert("index"@.len() == 5);
    assert("name"@.len() == 4);
    assert("platform"@.len() == 8);
    assert("price_usd"@.len() == 9);
    assert("symbol"@.len() == 6);
    assert("timestamp"@.len() == 9);
    assert("to"@.len() == 2);
    assert("token_icon_link"@.len() == 15);
    assert("tx_hash"@.len() == 7);
    assert("tx_type"@.len() == 7);
    assert("wallet"@.len() == 6);
    assert("wallet_label"@.len() == 12);
    let ms = spec_encode_flashloan(s);
    let mand = ms;
    assert(mand.len() == 19);
    assert(mand[0].0 == "wallet"@);
    assert(mand[1].0 == "wallet_label"@);
    assert(mand[2].0 == "tx_hash"@);
    assert(mand[3].0 == "tx_type"@);
    assert(mand[4].0 == "chain"@);
    assert(mand[5].0 == "index"@);
    assert(mand[6].0 == "timestamp"@);
    assert(mand[7].0 == "block"@);
    assert(mand[8].0 == "address"@);
    assert(mand[9].0 == "amount"@);
    assert(mand[10].0 == "amount_usd"@);
    assert(mand[11].0 == "dex"@);
    assert(mand[12].0 == "from"@);
    assert(mand[13].0 == "health_factor"@);
    assert(mand[14].0 == "name"@);
    assert(mand[15].0 == "platform"@);
    assert(mand[16].0 == "price_usd"@);
    assert(mand[17].0 == "symbol"@);
    assert(mand[18].0 == "token_icon_link"@);
    assert forall|j: int| 0 <= j < mand.len() implies mand[j].0 != "to"@ by {
        if j == 0 {
        } else if j == 1 {
        } else if j == 2 {
        } else if j == 3 {
        } else if j == 4 {
        } else if j == 5 {
        } else if j == 6 {
        } else if j == 7 {
        } else if j == 8 {
        } else if j == 9 {
        } else if j == 10 {
        } else if j == 11 {
        } else if j == 12 {
        } else if j == 13 {
        } else if j == 14 {
        } else if j == 15 {
        } else if j == 16 {
        } else if j == 17 {
        } else if j == 18 {
        } else {
        }
    }
    lemma_lookup_absent(mand, "to"@);
    assert(spec_decode_nft_transfer(ms) is None);
}

/// An encoded `flashloan` record lacks `to`, which the `nft_lending` shape needs.
#[verifier::spinoff_prover]
proof fn lemma_flashloan_not_nft_lending(s: FlashloanV)
    ensures
        spec_decode_nft_lending(spec_encode_flashloan(s)) is None,
{
    reveal_strlit("address");
    reveal_strlit("amount");
    reveal_strlit("amount_usd");
    reveal_strlit("block");
    reveal_strlit("chain");
    reveal_strlit("dex");
    reveal_strlit("from");
    reveal_strlit("health_factor");
    reveal_strlit("index");
    reveal_strlit("name");
    reveal_strlit("platform");
    reveal_strlit("price_usd");
    reveal_strlit("symbol");
    reveal_strlit("timestamp");
    reveal_strlit("to");
    reveal_strlit("token_icon_link");
    reveal_strlit("tx_hash");
    reveal_strlit("tx_type");
    reveal_strlit("wallet");
    reveal_strlit("wallet_label");
    assert("address"@.len() == 7);
    assert("amount"@.len() == 6);
    assert("amount_usd"@.len() == 10);
    assert("block"@.len() == 5);
    assert("chain"@.len() == 5);
    assert("dex"@.len() == 3);
    assert("from"@.len() == 4);
    assert("health_factor"@.len() == 13);
    assert("index"@.len() == 5);
    assert("name"@.len() == 4);
    assert("platform"@.len() == 8);
    assert("price_usd"@.len() == 9);
    assert("symbol"@.len() == 6);
    assert("timestamp"@.len() == 9);
    assert("to"@.len() == 2);
    assert("token_icon_link"@.len() == 15);
    assert("tx_hash"@.len() == 7);
    assert("tx_type"@.len() == 7);
    assert("wallet"@.len() == 6);
    assert("wallet_label"@.len() == 12);
    let ms = spec_encode_flashloan(s);
    let mand = ms;
    assert(mand.len() == 19);
    assert(mand[0].0 == "wallet"@);
    assert(mand[1].0 == "wallet_label"@);
    assert(mand[2].0 == "tx_hash"@);
    assert(mand[3].0 == "tx_type"@);
    assert(mand[4].0 == "chain"@);
    assert(mand[5].0 == "index"@);
    assert(mand[6].0 == "timestamp"@);
    assert(mand[7].0 == "block"@);
    assert(mand[8].0 == "address"@);
    assert(mand[9].0 == "amount"@);
    assert(mand[10].0 == "amount_usd"@);
    assert(mand[11].0 == "dex"@);
    assert(mand[12].0 == "from"@);
    assert(mand[13].0 == "health_factor"@);
    assert(mand[14].0 == "name"@);
    assert(mand[15].0 == "platform"@);
    assert(mand[16].0 == "price_usd"@);
    assert(mand[17].0 == "symbol"@);
    assert(mand[18].0 == "token_icon_link"@);
    assert forall|j: int| 0 <= j < mand.len() implies mand[j].0 != "to"@ by {
        if j == 0 {
        } else if j == 1 {
        } else if j == 2 {
        } else if j == 3 {
        } else if j == 4 {
        } else if j == 5 {
        } else if j == 6 {
        } else if j == 7 {
        } else if j == 8 {
        } else if j == 9 {
        } else if j == 10 {
        } else if j == 11 {
        } else if j == 12 {
        } else if j == 13 {
        } else if j == 14 {
        } else if j == 15 {
        } else if j == 16 {
        } else if j == 17 {
        } else if j == 18 {
        } else {
        }
    }
    lemma_lookup_absent(mand, "to"@);
    assert(spec_decode_nft_lending(ms) is None);
}

/// An encoded `flashloan` record lacks `to`, which the `bridge` shape needs.
#[verifier::spinoff_prover]
proof fn lemma_flashloan_not_bridge(s: FlashloanV)
    ensures
        spec_decode_bridge(spec_encode_flashloan(s)) is None,
{
    reveal_strlit("address");
    reveal_strlit("amount");
    reveal_strlit("amount_usd");
    reveal_strlit("block");
    reveal_strlit("chain");
    reveal_strlit("dex");
    reveal_strlit("from");
    reveal_strlit("health_factor");
    reveal_strlit("index");
    reveal_strlit("name");
    reveal_strlit("platform");
    reveal_strlit("price_usd");
    reveal_strlit("symbol");
    reveal_strlit("timestamp");
    reveal_strlit("to");
    reveal_strlit("token_icon_link");
    reveal_strlit("tx_hash");
    reveal_strlit("tx_type");
    reveal_strlit("wallet");
    reveal_strlit("wallet_label");
    assert("address"@.len() == 7);
    assert("amount"@.len() == 6);
    assert("amount_usd"@.len() == 10);
    assert("block"@.len() == 5);
    assert("chain"@.len() == 5);
    assert("dex"@.len() == 3);
    assert("from"@.len() == 4);
    assert("health_factor"@.len() == 13);
    assert("index"@.len() == 5);
    assert("name"@.len() == 4);
    assert("platform"@.len() == 8);
    assert("price_usd"@.len() == 9);
    assert("symbol"@.len() == 6);
    assert("timestamp"@.len() == 9);
    assert("to"@.len() == 2);
    assert("token_icon_link"@.len() == 15);
    assert("tx_hash"@.len() == 7);
    assert("tx_type"@.len() == 7);
    assert("wallet"@.len() == 6);
    assert("wallet_label"@.len() == 12);
    let ms = spec_encode_flashloan(s);
    let mand = ms;
    assert(mand.len() == 19);
    assert(mand[0].0 == "wallet"@);
    assert(mand[1].0 == "wallet_label"@);
    assert(mand[2].0 == "tx_hash"@);
    assert(mand[3].0 == "tx_type"@);
    assert(mand[4].0 == "chain"@);
    assert(mand[5].0 == "index"@);
    assert(mand[6].0 == "timestamp"@);
    assert(mand[7].0 == "block"@);
    assert(mand[8].0 == "address"@);
    assert(mand[9].0 == "amount"@);
    assert(mand[10].0 == "amount_usd"@);
    assert(mand[11].0 == "dex"@);
    assert(mand[12].0 == "from"@);
    assert(mand[13].0 == "health_factor"@);
    assert(mand[14].0 == "name"@);
    assert(mand[15].0 == "platform"@);
    assert(mand[16].0 == "price_usd"@);
    assert(mand[17].0 == "symbol"@);
    assert(mand[18].0 == "token_icon_link"@);
    assert forall|j: int| 0 <= j < mand.len() implies mand[j].0 != "to"@ by {
        if j == 0 {
        } else if j == 1 {
        } else if j == 2 {
        } else if j == 3 {
        } else if j == 4 {
        } else if j == 5 {
        } else if j == 6 {
        } else if j == 7 {
        } else if j == 8 {
        } else if j == 9 {
        } else if j == 10 {
        } else if j == 11 {
        } else if j == 12 {
        } else if j == 13 {
        } else if j == 14 {
        } else if j == 15 {
        } else if j == 16 {
        } else if j == 17 {
        } else if j == 18 {
        } else {
        }
    }
    lemma_lookup_absent(mand, "to"@);
    assert(spec_decode_bridge(ms) is None);
}

/// An encoded `flashloan` record lacks `to`, which the `contract_interaction` shape needs.
#[verifier::spinoff_prover]
proof fn lemma_flashloan_not_contract_interaction(s: FlashloanV)
    ensures
        spec_decode_contract_interaction(spec_encode_flashloan(s)) is None,
{
    reveal_strlit("address");
    reveal_strlit("amount");
    reveal_strlit("amount_usd");
    reveal_strlit("block");
    reveal_strlit("chain");
    reveal_strlit("dex");
    reveal_strlit("from");
    reveal_strlit("health_factor");
    reveal_strlit("index");
    reveal_strlit("name");
    reveal_strlit("platform");
    reveal_strlit("price_usd");
    reveal_strlit("symbol");
    reveal_strlit("timestamp");
    reveal_strlit("to");
    reveal_strlit("token_icon_link");
    reveal_strlit("tx_hash");
    reveal_strlit("tx_type");
    reveal_strlit("wallet");
    reveal_strlit("wallet_label");
    assert("address"@.len() == 7);
    assert("amount"@.len() == 6);
    assert("amount_usd"@.len() == 10);
    assert("block"@.len() == 5);
    assert("chain"@.len() == 5);
    assert("dex"@.len() == 3);
    assert("from"@.len() == 4);
    assert("health_factor"@.len() == 13);
    assert("index"@.len() == 5);
    assert("name"@.len() == 4);
    assert("platform"@.len() == 8);
    assert("price_usd"@.len() == 9);
    assert("symbol"@.len() == 6);
    assert("timestamp"@.len() == 9);
    assert("to"@.len() == 2);
    assert("token_icon_link"@.len() == 15);
    assert("tx_hash"@.len() == 7);
    assert("tx_type"@.len() == 7);
    assert("wallet"@.len() == 6);
    assert("wallet_label"@.len() == 12);
    let ms = spec_encode_flashloan(s);
    let mand = ms;
    assert(mand.len() == 19);
    assert(mand[0].0 == "wallet"@);
    assert(mand[1].0 == "wallet_label"@);
    assert(mand[2].0 == "tx_hash"@);
    assert(mand[3].0 == "tx_type"@);
    assert(mand[4].0 == "chain"@);
    assert(mand[5].0 == "index"@);
    assert(mand[6].0 == "timestamp"@);
    assert(mand[7].0 == "block"@);
    assert(mand[8].0 == "address"@);
    assert(mand[9].0 == "amount"@);
    assert(mand[10].0 == "amount_usd"@);
    assert(mand[11].0 == "dex"@);
    assert(mand[12].0 == "from"@);
    assert(mand[13].0 == "health_factor"@);
    assert(mand[14].0 == "name"@);
    assert(mand[15].0 == "platform"@);
    assert(mand[16].0 == "price_usd"@);
    assert(mand[17].0 == "symbol"@);
    assert(mand[18].0 == "token_icon_link"@);
    assert forall|j: int| 0 <= j < mand.len() implies mand[j].0 != "to"@ by {
        if j == 0 {
        } else if j == 1 {
        } else if j == 2 {
        } else if j == 3 {
        } else if j == 4 {
        } else if j == 5 {
        } else if j == 6 {
        } else if j == 7 {
        } else if j == 8 {
        } else if j == 9 {
        } else if j == 10 {
        } else if j == 11 {
        } else if j == 12 {
        } else if j == 13 {
        } else if j == 14 {
        } else if j == 15 {
        } else if j == 16 {
        } else if j == 17 {
        } else if j == 18 {
        } else {
        }
    }
    lemma_lookup_absent(mand, "to"@);
    assert(spec_decode_contract_interaction(ms) is None);
}

/// An encoded `flashloan` record lacks `to`, which the `wrap` shape needs.
#[verifier::spinoff_prover]
proof fn lemma_flashloan_not_wrap(s: FlashloanV)
    ensures
        spec_decode_wrap(spec_encode_flashloan(s)) is None,
{
    reveal_strlit("address");
    reveal_strlit("amount");
    reveal_strlit("amount_usd");
    reveal_strlit("block");
    reveal_strlit("chain");
    reveal_strlit("dex");
    reveal_strlit("from");
    reveal_strlit("health_factor");
    reveal_strlit("index");
    reveal_strlit("name");
    reveal_strlit("platform");
    reveal_strlit("price_usd");
    reveal_strlit("symbol");
    reveal_strlit("timestamp");
    reveal_strlit("to");
    reveal_strlit("token_icon_link");
    reveal_strlit("tx_hash");
    reveal_strlit("tx_type");
    reveal_strlit("wallet");
    reveal_strlit("wallet_label");
    assert("address"@.len() == 7);
    assert("amount"@.len() == 6);
    assert("amount_usd"@.len() == 10);
    assert("block"@.len() == 5);
    assert("chain"@.len() == 5);
    assert("dex"@.len() == 3);
    assert("from"@.len() == 4);
    assert("health_factor"@.len() == 13);
    assert("index"@.len() == 5);
    assert("name"@.len() == 4);
    assert("platform"@.len() == 8);
    assert("price_usd"@.len() == 9);
    assert("symbol"@.len() == 6);
    assert("timestamp"@.len() == 9);
    assert("to"@.len() == 2);
    assert("token_icon_link"@.len() == 15);
    assert("tx_hash"@.len() == 7);
    assert("tx_type"@.len() == 7);
    assert("wallet"@.len() == 6);
    assert("wallet_label"@.len() == 12);
    let ms = spec_encode_flashloan(s);
    let mand = ms;
    assert(mand.len() == 19);
    assert(mand[0].0 == "wallet"@);
    assert(mand[1].0 == "wallet_label"@);
    assert(mand[2].0 == "tx_hash"@);
    assert(mand[3].0 == "tx_type"@);
    assert(mand[4].0 == "chain"@);
    assert(mand[5].0 == "index"@);
    assert(mand[6].0 == "timestamp"@);
    assert(mand[7].0 == "block"@);
    assert(mand[8].0 == "address"@);
    assert(mand[9].0 == "amount"@);
    assert(mand[10].0 == "amount_usd"@);
    assert(mand[11].0 == "dex"@);
    assert(mand[12].0 == "from"@);
    assert(mand[13].0 == "health_factor"@);
    assert(mand[14].0 == "name"@);
    assert(mand[15].0 == "platform"@);
    assert(mand[16].0 == "price_usd"@);
    assert(mand[17].0 == "symbol"@);
    assert(mand[18].0 == "token_icon_link"@);
    assert forall|j: int| 0 <= j < mand.len() implies mand[j].0 != "to"@ by {
        if j == 0 {
        } else if j == 1 {
        } else if j == 2 {
        } else if j == 3 {
        } else if j == 4 {
        } else if j == 5 {
        } else if j == 6 {
        } else if j == 7 {
        } else if j == 8 {
        } else if j == 9 {
        } else if j == 10 {
        } else if j == 11 {
        } else if j == 12 {
        } else if j == 13 {
        } else if j == 14 {
        } else if j == 15 {
        } else if j == 16 {
        } else if j == 17 {
        } else if j == 18 {
        } else {
        }
    }
    lemma_lookup_absent(mand, "to"@);
    assert(spec_decode_wrap(ms) is None);
}

/// An encoded `flashloan` record lacks `nft_address`, which the `sudo_pool` shape needs.
#[verifier::spinoff_prover]
proof fn lemma_flashloan_not_sudo_pool(s: FlashloanV)
    ensures
        spec_decode_sudo_pool(spec_encode_flashloan(s)) is None,
{
    reveal_strlit("address");
    reveal_strlit("amount");
    reveal_strlit("amount_usd");
    reveal_strlit("block");
    reveal_strlit("chain");
    reveal_strlit("dex");
    reveal_strlit("from");
    reveal_strlit("health_factor");
    reveal_strlit("index");
    reveal_strlit("name");
    reveal_strlit("nft_address");
    reveal_strlit("platform");
    reveal_strlit("price_usd");
    reveal_strlit("symbol");
    reveal_strlit("timestamp");
    reveal_strlit("token_icon_link");
    reveal_strlit("tx_hash");
    reveal_strlit("tx_type");
    reveal_strlit("wallet");
    reveal_strlit("wallet_label");
    assert("address"@.len() == 7);
    assert("amount"@.len() == 6);
    assert("amount_usd"@.len() == 10);
    assert("block"@.len() == 5);
    assert("chain"@.len() == 5);
    assert("dex"@.len() == 3);
    assert("from"@.len() == 4);
    assert("health_factor"@.len() == 13);
    assert("index"@.len() == 5);
    assert("name"@.len() == 4);
    assert("nft_address"@.len() == 11);
    assert("platform"@.len() == 8);
    assert("price_usd"@.len() == 9);
    assert("symbol"@.len() == 6);
    assert("timestamp"@.len() == 9);
    assert("token_icon_link"@.len() == 15);
    assert("tx_hash"@.len() == 7);
    assert("tx_type"@.len() == 7);
    assert("wallet"@.len() == 6);
    assert("wallet_label"@.len() == 12);
    let ms = spec_encode_flashloan(s);
    let mand = ms;
    assert(mand.len() == 19);
    assert(mand[0].0 == "wallet"@);
    assert(mand[1].0 == "wallet_label"@);
    assert(mand[2].0 == "tx_hash"@);
    assert(mand[3].0 == "tx_type"@);
    assert(mand[4].0 == "chain"@);
    assert(mand[5].0 == "index"@);
    assert(mand[6].0 == "timestamp"@);
    assert(mand[7].0 == "block"@);
    assert(mand[8].0 == "address"@);
    assert(mand[9].0 == "amount"@);
    assert(mand[10].0 == "amount_usd"@);
    assert(mand[11].0 == "dex"@);
    assert(mand[12].0 == "from"@);
    assert(mand[13].0 == "health_factor"@);
    assert(mand[14].0 == "name"@);
    assert(mand[15].0 == "platform"@);
    assert(mand[16].0 == "price_usd"@);
    assert(mand[17].0 == "symbol"@);
    assert(mand[18].0 == "token_icon_link"@);
    assert forall|j: int| 0 <= j < mand.len() implies mand[j].0 != "nft_address"@ by {
        if j == 0 {
        } else if j == 1 {
        } else if j == 2 {
        } else if j == 3 {
        } else if j == 4 {
        } else if j == 5 {
        } else if j == 6 {
        } else if j == 7 {
        } else if j == 8 {
        } else if j == 9 {
        } else if j == 10 {
        } else if j == 11 {
        } else if j == 12 {
        } else if j == 13 {
        } else if j == 14 {
        } else if j == 15 {
        } else if j == 16 {
        } else if j == 17 {
        } else if j == 18 {
        } else {
        }
    }
    lemma_lookup_absent(mand, "nft_address"@);
    assert(spec_decode_sudo_pool(ms) is None);
}

/// Decoding an encoded `flashloan` record yields it back.
#[verifier::rlimit(50)]
#[verifier::spinoff_prover]
pub proof fn lemma_flashloan_round_trip(s: FlashloanV)
    ensures
        spec_decode_item(spec_encode_item(ItemV::Flashloan(s))) == Some(ItemV::Flashloan(s)),
{
    reveal_strlit("address");
    reveal_strlit("amount");
    reveal_strlit("amount_usd");
    reveal_strlit("block");
    reveal_strlit("chain");
    reveal_strlit("dex");
    reveal_strlit("from");
    reveal_strlit("health_factor");
    reveal_strlit("index");
    reveal_strlit("name");
    reveal_strlit("platform");
    reveal_strlit("price_usd");
    reveal_strlit("symbol");
    reveal_strlit("timestamp");
    reveal_strlit("token_icon_link");
    reveal_strlit("tx_hash");
    reveal_strlit("tx_type");
    reveal_strlit("wallet");
    reveal_strlit("wallet_label");
    assert("address"@.len() == 7);
    assert("amount"@.len() == 6);
    assert("amount_usd"@.len() == 10);
    assert("block"@.len() == 5);
    assert("chain"@.len() == 5);
    assert("dex"@.len() == 3);
    assert("from"@.len() == 4);
    assert("health_factor"@.len() == 13);
    assert("index"@.len() == 5);
    assert("name"@.len() == 4);
    assert("platform"@.len() == 8);
    assert("price_usd"@.len() == 9);
    assert("symbol"@.len() == 6);
    assert("timestamp"@.len() == 9);
    assert("token_icon_link"@.len() == 15);
    assert("tx_hash"@.len() == 7);
    assert("tx_type"@.len() == 7);
    assert("wallet"@.len() == 6);
    assert("wallet_label"@.len() == 12);
    assert("address"@[0] == 'a');
    assert("amount"@[0] == 'a');
    assert("block"@[0] == 'b');
    assert("chain"@[0] == 'c');
    assert("from"@[0] == 'f');
    assert("index"@[0] == 'i');
    assert("name"@[0] == 'n');
    assert("price_usd"@[0] == 'p');
    assert("symbol"@[0] == 's');
    assert("timestamp"@[0] == 't');
    assert("tx_hash"@[0] == 't');
    assert("tx_hash"@[3] == 'h');
    assert("tx_type"@[0] == 't');
    assert("tx_type"@[3] == 't');
    assert("wallet"@[0] == 'w');
    let ms = spec_encode_flashloan(s);
    let mand = ms;
    assert(mand.len() == 19);
    assert(mand[0].0 == "wallet"@);
    assert(mand[1].0 == "wallet_label"@);
    assert(mand[2].0 == "tx_hash"@);
    assert(mand[3].0 == "tx_type"@);
    assert(mand[4].0 == "chain"@);
    assert(mand[5].0 == "index"@);
    assert(mand[6].0 == "timestamp"@);
    assert(mand[7].0 == "block"@);
    assert(mand[8].0 == "address"@);
    assert(mand[9].0 == "amount"@);
    assert(mand[10].0 == "amount_usd"@);
    assert(mand[11].0 == "dex"@);
    assert(mand[12].0 == "from"@);
    assert(mand[13].0 == "health_factor"@);
    assert(mand[14].0 == "name"@);
    assert(mand[15].0 == "platform"@);
    assert(mand[16].0 == "price_usd"@);
    assert(mand[17].0 == "symbol"@);
    assert(mand[18].0 == "token_icon_link"@);
    lemma_lookup_first(mand, 0);
    lemma_lookup_first(mand, 1);
    lemma_lookup_first(mand, 2);
    lemma_lookup_first(mand, 3);
    lemma_lookup_first(mand, 4);
    lemma_lookup_first(mand, 5);
    lemma_lookup_first(mand, 6);
    lemma_lookup_first(mand, 7);
    lemma_lookup_first(mand, 8);
    lemma_lookup_first(mand, 9);
    lemma_lookup_first(mand, 10);
    lemma_lookup_first(mand, 11);
    lemma_lookup_first(mand, 12);
    lemma_lookup_first(mand, 13);
    lemma_lookup_first(mand, 14);
    lemma_lookup_first(mand, 15);
    lemma_lookup_first(mand, 16);
    lemma_lookup_first(mand, 17);
    lemma_lookup_first(mand, 18);
    lemma_flashloan_not_swap(s);
    lemma_flashloan_not_lp(s);
    lemma_flashloan_not_transfer(s);
    lemma_flashloan_not_lending(s);
    lemma_flashloan_not_nft_mint(s);
    lemma_flashloan_not_nft_trade(s);
    lemma_flashloan_not_nft_transfer(s);
    lemma_flashloan_not_nft_lending(s);
    lemma_flashloan_not_bridge(s);
    lemma_flashloan_not_contract_interaction(s);
    lemma_flashloan_not_wrap(s);
    lemma_flashloan_not_sudo_pool(s);
    assert(spec_decode_flashloan(ms) == Some(FlashloanV {
        wallet: s.wallet,
        wallet_label: s.wallet_label,
        tx_hash: s.tx_hash,
        tx_type: s.tx_type,
        chain: s.chain,
        index: s.index,
        timestamp: s.timestamp,
        block: s.block,
        address: s.address,
        amount: s.amount,
        amount_usd: s.amount_usd,
        dex: s.dex,
        from: s.from,
        health_factor: s.health_factor,
        name: s.name,
        platform: s.platform,
        price_usd: s.price_usd,
        symbol: s.symbol,
        token_icon_link: s.token_icon_link,
    }));
}

/// An encoded `reward` record lacks `dex`, which the `swap` shape needs.
#[verifier::spinoff_prover]
proof fn lemma_reward_not_swap(s: RewardV)
    ensures
        spec_decode_swap(spec_encode_reward(s)) is None,
{
    reveal_strlit("address");
    reveal_strlit("amount");
    reveal_strlit("amount_usd");
    reveal_strlit("block");
    reveal_strlit("chain");
    reveal_strlit("dex");
    reveal_strlit("from");
    reveal_strlit("index");
    reveal_strlit("name");
    reveal_strlit("price_usd");
    reveal_strlit("symbol");
    reveal_strlit("timestamp");
    reveal_strlit("tx_hash");
    reveal_strlit("tx_type");
    reveal_strlit("wallet");
    reveal_strlit("wallet_label");
    assert("address"@.len() == 7);
    assert("amount"@.len() == 6);
    assert("amount_usd"@.len() == 10);
    assert("block"@.len() == 5);
    assert("chain"@.len() == 5);
    assert("dex"@.len() == 3);
    assert("from"@.len() == 4);
    assert("index"@.len() == 5);
    assert("name"@.len() == 4);
    assert("price_usd"@.len() == 9);
    assert("symbol"@.len() == 6);
    assert("timestamp"@.len() == 9);
    assert("tx_hash"@.len() == 7);
    assert("tx_type"@.len() == 7);
    assert("wallet"@.len() == 6);
    assert("wallet_label"@.len() == 12);
    let ms = spec_encode_reward(s);
    let mand = ms;
    assert(mand.len() == 15);
    assert(mand[0].0 == "wallet"@);
    assert(mand[1].0 == "wallet_label"@);
    assert(mand[2].0 == "tx_hash"@);
    assert(mand[3].0 == "tx_type"@);
    assert(mand[4].0 == "chain"@);
    assert(mand[5].0 == "index"@);
    assert(mand[6].0 == "timestamp"@);
    assert(mand[7].0 == "block"@);
    assert(mand[8].0 == "address"@);
    assert(mand[9].0 == "amount"@);
    assert(mand[10].0 == "amount_usd"@);
    assert(mand[11].0 == "from"@);
    assert(mand[12].0 == "name"@);
    assert(mand[13].0 == "price_usd"@);
    assert(mand[14].0 == "symbol"@);
    assert forall|j: int| 0 <= j < mand.len() implies mand[j].0 != "dex"@ by {
        if j == 0 {
        } else if j == 1 {
        } else if j == 2 {
        } else if j == 3 {
        } else if j == 4 {
        } else if j == 5 {
        } else if j == 6 {
        } else if j == 7 {
        } else if j == 8 {
        } else if j == 9 {
        } else if j == 10 {
        } else if j == 11 {
        } else if j == 12 {
        } else if j == 13 {
        } else if j == 14 {
        } else {
        }
    }
    lemma_lookup_absent(mand, "dex"@);
    assert(spec_decode_swap(ms) is None);
}

/// An encoded `reward` record lacks `dex`, which the `lp` shape needs.
#[verifier::spinoff_prover]
proof fn lemma_reward_not_lp(s: RewardV)
    ensures
        spec_decode_lp(spec_encode_reward(s)) is None,
{
    reveal_strlit("address");
    reveal_strlit("amount");
    reveal_strlit("amount_usd");
    reveal_strlit("block");
    reveal_strlit("chain");
    reveal_strlit("dex");
    reveal_strlit("from");
    reveal_strlit("index");
    reveal_strlit("name");
    reveal_strlit("price_usd");
    reveal_strlit("symbol");
    reveal_strlit("timestamp");
    reveal_strlit("tx_hash");
    reveal_strlit("tx_type");
    reveal_strlit("wallet");
    reveal_strlit("wallet_label");
    assert("address"@.len() == 7);
    assert("amount"@.len() == 6);
    assert("amount_usd"@.len() == 10);
    assert("block"@.len() == 5);
    assert("chain"@.len() == 5);
    assert("dex"@.len() == 3);
    assert("from"@.len() == 4);
    assert("index"@.len() == 5);
    assert("name"@.len() == 4);
    assert("price_usd"@.len() == 9);
    assert("symbol"@.len() == 6);
    assert("timestamp"@.len() == 9);
    assert("tx_hash"@.len() == 7);
    assert("tx_type"@.len() == 7);
    assert("wallet"@.len() == 6);
    assert("wallet_label"@.len() == 12);
    let ms = spec_encode_reward(s);
    let mand = ms;
    assert(mand.len() == 15);
    assert(mand[0].0 == "wallet"@);
    assert(mand[1].0 == "wallet_label"@);
    assert(mand[2].0 == "tx_hash"@);
    assert(mand[3].0 == "tx_type"@);
    assert(mand[4].0 == "chain"@);
    assert(mand[5].0 == "index"@);
    assert(mand[6].0 == "timestamp"@);
    assert(mand[7].0 == "block"@);
    assert(mand[8].0 == "address"@);
    assert(mand[9].0 == "amount"@);
    assert(mand[10].0 == "amount_usd"@);
    assert(mand[11].0 == "from"@);
    assert(mand[12].0 == "name"@);
    assert(mand[13].0 == "price_usd"@);
    assert(mand[14].0 == "symbol"@);
    assert forall|j: int| 0 <= j < mand.len() implies mand[j].0 != "dex"@ by {
        if j == 0 {
        } else if j == 1 {
        } else if j == 2 {
        } else if j == 3 {
        } else if j == 4 {
        } else if j == 5 {
        } else if j == 6 {
        } else if j == 7 {
        } else if j == 8 {
        } else if j == 9 {
        } else if j == 10 {
        } else if j == 11 {
        } else if j == 12 {
        } else if j == 13 {
        } else if j == 14 {
        } else {
        }
    }
    lemma_lookup_absent(mand, "dex"@);
    assert(spec_decode_lp(ms) is None);
}

/// An encoded `reward` record lacks `to`, which the `transfer` shape needs.
#[verifier::spinoff_prover]
proof fn lemma_reward_not_transfer(s: RewardV)
    ensures
        spec_decode_transfer(spec_encode_reward(s)) is None,
{
    reveal_strlit("address");
    reveal_strlit("amount");
    reveal_strlit("amount_usd");
    reveal_strlit("block");
    reveal_strlit("chain");
    reveal_strlit("from");
    reveal_strlit("index");
    reveal_strlit("name");
    reveal_strlit("price_usd");
    reveal_strlit("symbol");
    reveal_strlit("timestamp");
    reveal_strlit("to");
    reveal_strlit("tx_hash");
    reveal_strlit("tx_type");
    reveal_strlit("wallet");
    reveal_strlit("wallet_label");
    assert("address"@.len() == 7);
    assert("amount"@.len() == 6);
    assert("amount_usd"@.len() == 10);
    assert("block"@.len() == 5);
    assert("chain"@.len() == 5);
    assert("from"@.len() == 4);
    assert("index"@.len() == 5);
    assert("name"@.len() == 4);
    assert("price_usd"@.len() == 9);
    assert("symbol"@.len() == 6);
    assert("timestamp"@.len() == 9);
    assert("to"@.len() == 2);
    assert("tx_hash"@.len() == 7);
    assert("tx_type"@.len() == 7);
    assert("wallet"@.len() == 6);
    assert("wallet_label"@.len() == 12);
    let ms = spec_encode_reward(s);
    let mand = ms;
    assert(mand.len() == 15);
    assert(mand[0].0 == "wallet"@);
    assert(mand[1].0 == "wallet_label"@);
    assert(mand[2].0 == "tx_hash"@);
    assert(mand[3].0 == "tx_type"@);
    assert(mand[4].0 == "chain"@);
    assert(mand[5].0 == "index"@);
    assert(mand[6].0 == "timestamp"@);
    assert(mand[7].0 == "block"@);
    assert(mand[8].0 == "address"@);
    assert(mand[9].0 == "amount"@);
    assert(mand[10].0 == "amount_usd"@);
    assert(mand[11].0 == "from"@);
    assert(mand[12].0 == "name"@);
    assert(mand[13].0 == "price_usd"@);
    assert(mand[14].0 == "symbol"@);
    assert forall|j: int| 0 <= j < mand.len() implies mand[j].0 != "to"@ by {
        if j == 0 {
        } else if j == 1 {
        } else if j == 2 {
        } else if j == 3 {
        } else if j == 4 {
        } else if j == 5 {
        } else if j == 6 {
        } else if j == 7 {
        } else if j == 8 {
        } else if j == 9 {
        } else if j == 10 {
        } else if j == 11 {
        } else if j == 12 {
        } else if j == 13 {
        } else if j == 14 {
        } else {
        }
    }
    lemma_lookup_absent(mand, "to"@);
    assert(spec_decode_transfer(ms) is None);
}

/// An encoded `reward` record lacks `dex`, which the `lending` shape needs.
#[verifier::spinoff_prover]
proof fn lemma_reward_not_lending(s: RewardV)
    ensures
        spec_decode_lending(spec_encode_reward(s)) is None,
{
    reveal_strlit("address");
    reveal_strlit("amount");
    reveal_strlit("amount_usd");
    reveal_strlit("block");
    reveal_strlit("chain");
    reveal_strlit("dex");
    reveal_strlit("from");
    reveal_strlit("index");
    reveal_strlit("name");
    reveal_strlit("price_usd");
    reveal_strlit("symbol");
    reveal_strlit("timestamp");
    reveal_strlit("tx_hash");
    reveal_strlit("tx_type");
    reveal_strlit("wallet");
    reveal_strlit("wallet_label");
    assert("address"@.len() == 7);
    assert("amount"@.len() == 6);
    assert("amount_usd"@.len() == 10);
    assert("block"@.len() == 5);
    assert("chain"@.len() == 5);
    assert("dex"@.len() == 3);
    assert("from"@.len() == 4);
    assert("index"@.len() == 5);
    assert("name"@.len() == 4);
    assert("price_usd"@.len() == 9);
    assert("symbol"@.len() == 6);
    assert("timestamp"@.len() == 9);
    assert("tx_hash"@.len() == 7);
    assert("tx_type"@.len() == 7);
    assert("wallet"@.len() == 6);
    assert("wallet_label"@.len() == 12);
    let ms = spec_encode_reward(s);
    let mand = ms;
    assert(mand.len() == 15);
    assert(mand[0].0 == "wallet"@);
    assert(mand[1].0 == "wallet_label"@);
    assert(mand[2].0 == "tx_hash"@);
    assert(mand[3].0 == "tx_type"@);
    assert(mand[4].0 == "chain"@);
    assert(mand[5].0 == "index"@);
    assert(mand[6].0 == "timestamp"@);
    assert(mand[7].0 == "block"@);
    assert(mand[8].0 == "address"@);
    assert(mand[9].0 == "amount"@);
    assert(mand[10].0 == "amount_usd"@);
    assert(mand[11].0 == "from"@);
    assert(mand[12].0 == "name"@);
    assert(mand[13].0 == "price_usd"@);
    assert(mand[14].0 == "symbol"@);
    assert forall|j: int| 0 <= j < mand.len() implies mand[j].0 != "dex"@ by {
        if j == 0 {
        } else if j == 1 {
        } else if j == 2 {
        } else if j == 3 {
        } else if j == 4 {
        } else if j == 5 {
        } else if j == 6 {
        } else if j == 7 {
        } else if j == 8 {
        } else if j == 9 {
        } else if j == 10 {
        } else if j == 11 {
        } else if j == 12 {
        } else if j == 13 {
        } else if j == 14 {
        } else {
        }
    }
    lemma_lookup_absent(mand, "dex"@);
    assert(spec_decode_lending(ms) is None);
}

/// An encoded `reward` record lacks `to`, which the `nft_mint` shape needs.
#[verifier::spinoff_prover]
proof fn lemma_reward_not_nft_mint(s: RewardV)
    ensures
        spec_decode_nft_mint(spec_encode_reward(s)) is None,
{
    reveal_strlit("address");
    reveal_strlit("amount");
    reveal_strlit("amount_usd");
    reveal_strlit("block");
    reveal_strlit("chain");
    reveal_strlit("from");
    reveal_strlit("index");
    reveal_strlit("name");
    reveal_strlit("price_usd");
    reveal_strlit("symbol");
    reveal_strlit("timestamp");
    reveal_strlit("to");
    reveal_strlit("tx_hash");
    reveal_strlit("tx_type");
    reveal_strlit("wallet");
    reveal_strlit("wallet_label");
    assert("address"@.len() == 7);
    assert("amount"@.len() == 6);
    assert("amount_usd"@.len() == 10);
    assert("block"@.len() == 5);
    assert("chain"@.len() == 5);
    assert("from"@.len() == 4);
    assert("index"@.len() == 5);
    assert("name"@.len() == 4);
    assert("price_usd"@.len() == 9);
    assert("symbol"@.len() == 6);
    assert("timestamp"@.len() == 9);
    assert("to"@.len() == 2);
    assert("tx_hash"@.len() == 7);
    assert("tx_type"@.len() == 7);
    assert("wallet"@.len() == 6);
    assert("wallet_label"@.len() == 12);
    let ms = spec_encode_reward(s);
    let mand = ms;
    assert(mand.len() == 15);
    assert(mand[0].0 == "wallet"@);
    assert(mand[1].0 == "wallet_label"@);
    assert(mand[2].0 == "tx_hash"@);
    assert(mand[3].0 == "tx_type"@);
    assert(mand[4].0 == "chain"@);
    assert(mand[5].0 == "index"@);
    assert(mand[6].0 == "timestamp"@);
    assert(mand[7].0 == "block"@);
    assert(mand[8].0 == "address"@);
    assert(mand[9].0 == "amount"@);
    assert(mand[10].0 == "amount_usd"@);
    assert(mand[11].0 == "from"@);
    assert(mand[12].0 == "name"@);
    assert(mand[13].0 == "price_usd"@);
    assert(mand[14].0 == "symbol"@);
    assert forall|j: int| 0 <= j < mand.len() implies mand[j].0 != "to"@ by {
        if j == 0 {
        } else if j == 1 {
        } else if j == 2 {
        } else if j == 3 {
        } else if j == 4 {
        } else if j == 5 {
        } else if j == 6 {
        } else if j == 7 {
        } else if j == 8 {
        } else if j == 9 {
        } else if j == 10 {
        } else if j == 11 {
        } else if j == 12 {
        } else if j == 13 {
        } else if j == 14 {
        } else {
        }
    }
    lemma_lookup_absent(mand, "to"@);
    assert(spec_decode_nft_mint(ms) is None);
}

/// An encoded `reward` record lacks `to`, which the `nft_trade` shape needs.
#[verifier::spinoff_prover]
proof fn lemma_reward_not_nft_trade(s: RewardV)
    ensures
        spec_decode_nft_trade(spec_encode_reward(s)) is None,
{
    reveal_strlit("address");
    reveal_strlit("amount");
    reveal_strlit("amount_usd");
    reveal_strlit("block");
    reveal_strlit("chain");
    reveal_strlit("from");
    reveal_strlit("index");
    reveal_strlit("name");
    reveal_strlit("price_usd");
    reveal_strlit("symbol");
    reveal_strlit("timestamp");
    reveal_strlit("to");
    reveal_strlit("tx_hash");
    reveal_strlit("tx_type");
    reveal_strlit("wallet");
    reveal_strlit("wallet_label");
    assert("address"@.len() == 7);
    assert("amount"@.len() == 6);
    assert("amount_usd"@.len() == 10);
    assert("block"@.len() == 5);
    assert("chain"@.len() == 5);
    assert("from"@.len() == 4);
    assert("index"@.len() == 5);
    assert("name"@.len() == 4);
    assert("price_usd"@.len() == 9);
    assert("symbol"@.len() == 6);
    assert("timestamp"@.len() == 9);
    assert("to"@.len() == 2);
    assert("tx_hash"@.len() == 7);
    assert("tx_type"@.len() == 7);
    assert("wallet"@.len() == 6);
    assert("wallet_label"@.len() == 12);
    let ms = spec_encode_reward(s);
    let mand = ms;
    assert(mand.len() == 15);
    assert(mand[0].0 == "wallet"@);
    assert(mand[1].0 == "wallet_label"@);
    assert(mand[2].0 == "tx_hash"@);
    assert(mand[3].0 == "tx_type"@);
    assert(mand[4].0 == "chain"@);
    assert(mand[5].0 == "index"@);
    assert(mand[6].0 == "timestamp"@);
    assert(mand[7].0 == "block"@);
    assert(mand[8].0 == "address"@);
    assert(mand[9].0 == "amount"@);
    assert(mand[10].0 == "amount_usd"@);
    assert(mand[11].0 == "from"@);
    assert(mand[12].0 == "name"@);
    assert(mand[13].0 == "price_usd"@);
    assert(mand[14].0 == "symbol"@);
    assert forall|j: int| 0 <= j < mand.len() implies mand[j].0 != "to"@ by {
        if j == 0 {
        } else if j == 1 {
        } else if j == 2 {
        } else if j == 3 {
        } else if j == 4 {
        } else if j == 5 {
        } else if j == 6 {
        } else if j == 7 {
        } else if j == 8 {
        } else if j == 9 {
        } else if j == 10 {
        } else if j == 11 {
        } else if j == 12 {
        } else if j == 13 {
        } else if j == 14 {
        } else {
        }
    }
    lemma_lookup_absent(mand, "to"@);
    assert(spec_decode_nft_trade(ms) is None);
}

/// An encoded `reward` record lacks `to`, which the `nft_transfer` shape needs.
#[verifier::spinoff_prover]
proof fn lemma_reward_not_nft_transfer(s: RewardV)
    ensures
        spec_decode_nft_transfer(spec_encode_reward(s)) is None,
{
    reveal_strlit("address");
    reveal_strlit("amount");
    reveal_strlit("amount_usd");
    reveal_strlit("block");
    reveal_strlit("chain");
    reveal_strlit("from");
    reveal_strlit("index");
    reveal_strlit("name");
    reveal_strlit("price_usd");
    reveal_strlit("symbol");
    reveal_strlit("timestamp");
    reveal_strlit("to");
    reveal_strlit("tx_hash");
    reveal_strlit("tx_type");
    reveal_strlit("wallet");
    reveal_strlit("wallet_label");
    assert("address"@.len() == 7);
    assert("amount"@.len() == 6);
    assert("amount_usd"@.len() == 10);
    assert("block"@.len() == 5);
    assert("chain"@.len() == 5);
    assert("from"@.len() == 4);
    assert("index"@.len() == 5);
    assert("name"@.len() == 4);
    assert("price_usd"@.len() == 9);
    assert("symbol"@.len() == 6);
    assert("timestamp"@.len() == 9);
    assert("to"@.len() == 2);
    assert("tx_hash"@.len() == 7);
    assert("tx_type"@.len() == 7);
    assert("wallet"@.len() == 6);
    assert("wallet_label"@.len() == 12);
    let ms = spec_encode_reward(s);
    let mand = ms;
    assert(mand.len() == 15);
    assert(mand[0].0 == "wallet"@);
    assert(mand[1].0 == "wallet_label"@);
    assert(mand[2].0 == "tx_hash"@);
    assert(mand[3].0 == "tx_type"@);
    assert(mand[4].0 == "chain"@);
    assert(mand[5].0 == "index"@);
    assert(mand[6].0 == "timestamp"@);
    assert(mand[7].0 == "block"@);
    assert(mand[8].0 == "address"@);
    assert(mand[9].0 == "amount"@);
    assert(mand[10].0 == "amount_usd"@);
    assert(mand[11].0 == "from"@);
    assert(mand[12].0 == "name"@);
    assert(mand[13].0 == "price_usd"@);
    assert(mand[14].0 == "symbol"@);
    assert forall|j: int| 0 <= j < mand.len() implies mand[j].0 != "to"@ by {
        if j == 0 {
        } else if j == 1 {
        } else if j == 2 {
        } else if j == 3 {
        } else if j == 4 {
        } else if j == 5 {
        } else if j == 6 {
        } else if j == 7 {
        } else if j == 8 {
        } else if j == 9 {
        } else if j == 10 {
        } else if j == 11 {
        } else if j == 12 {
        } else if j == 13 {
        } else if j == 14 {
        } else {
        }
    }
    lemma_lookup_absent(mand, "to"@);
    assert(spec_decode_nft_transfer(ms) is None);
}

/// An encoded `reward` record lacks `to`, which the `nft_lending` shape needs.
#[verifier::spinoff_prover]
proof fn lemma_reward_not_nft_lending(s: RewardV)
    ensures
        spec_decode_nft_lending(spec_encode_reward(s)) is None,
{
    reveal_strlit("address");
    reveal_strlit("amount");
    reveal_strlit("amount_usd");
    reveal_strlit("block");
    reveal_strlit("chain");
    reveal_strlit("from");
    reveal_strlit("index");
    reveal_strlit("name");
    reveal_strlit("price_usd");
    reveal_strlit("symbol");
    reveal_strlit("timestamp");
    reveal_strlit("to");
    reveal_strlit("tx_hash");
    reveal_strlit("tx_type");
    reveal_strlit("wallet");
    reveal_strlit("wallet_label");
    assert("address"@.len() == 7);
    assert("amount"@.len() == 6);
    assert("amount_usd"@.len() == 10);
    assert("block"@.len() == 5);
    assert("chain"@.len() == 5);
    assert("from"@.len() == 4);
    assert("index"@.len() == 5);
    assert("name"@.len() == 4);
    assert("price_usd"@.len() == 9);
    assert("symbol"@.len() == 6);
    assert("timestamp"@.len() == 9);
    assert("to"@.len() == 2);
    assert("tx_hash"@.len() == 7);
    assert("tx_type"@.len() == 7);
    assert("wallet"@.len() == 6);
    assert("wallet_label"@.len() == 12);
    let ms = spec_encode_reward(s);
    let mand = ms;
    assert(mand.len() == 15);
    assert(mand[0].0 == "wallet"@);
    assert(mand[1].0 == "wallet_label"@);
    assert(mand[2].0 == "tx_hash"@);
    assert(mand[3].0 == "tx_type"@);
    assert(mand[4].0 == "chain"@);
    assert(mand[5].0 == "index"@);
    assert(mand[6].0 == "timestamp"@);
    assert(mand[7].0 == "block"@);
    assert(mand[8].0 == "address"@);
    assert(mand[9].0 == "amount"@);
    assert(mand[10].0 == "amount_usd"@);
    assert(mand[11].0 == "from"@);
    assert(mand[12].0 == "name"@);
    assert(mand[13].0 == "price_usd"@);
    assert(mand[14].0 == "symbol"@);
    assert forall|j: int| 0 <= j < mand.len() implies mand[j].0 != "to"@ by {
        if j == 0 {
        } else if j == 1 {
        } else if j == 2 {
        } else if j == 3 {
        } else if j == 4 {
        } else if j == 5 {
        } else if j == 6 {
        } else if j == 7 {
        } else if j == 8 {
        } else if j == 9 {
        } else if j == 10 {
        } else if j == 11 {
        } else if j == 12 {
        } else if j == 13 {
        } else if j == 14 {
        } else {
        }
    }
    lemma_lookup_absent(mand, "to"@);
    assert(spec_decode_nft_lending(ms) is None);
}

/// An encoded `reward` record lacks `to`, which the `bridge` shape needs.
#[verifier::spinoff_prover]
proof fn lemma_reward_not_bridge(s: RewardV)
    ensures
        spec_decode_bridge(spec_encode_reward(s)) is None,
{
    reveal_strlit("address");
    reveal_strlit("amount");
    reveal_strlit("amount_usd");
    reveal_strlit("block");
    reveal_strlit("chain");
    reveal_strlit("from");
    reveal_strlit("index");
    reveal_strlit("name");
    reveal_strlit("price_usd");
    reveal_strlit("symbol");
    reveal_strlit("timestamp");
    reveal_strlit("to");
    reveal_strlit("tx_hash");
    reveal_strlit("tx_type");
    reveal_strlit("wallet");
    reveal_strlit("wallet_label");
    assert("address"@.len() == 7);
    assert("amount"@.len() == 6);
    assert("amount_usd"@.len() == 10);
    assert("block"@.len() == 5);
    assert("chain"@.len() == 5);
    assert("from"@.len() == 4);
    assert("index"@.len() == 5);
    assert("name"@.len() == 4);
    assert("price_usd"@.len() == 9);
    assert("symbol"@.len() == 6);
    assert("timestamp"@.len() == 9);
    assert("to"@.len() == 2);
    assert("tx_hash"@.len() == 7);
    assert("tx_type"@.len() == 7);
    assert("wallet"@.len() == 6);
    assert("wallet_label"@.len() == 12);
    let ms = spec_encode_reward(s);
    let mand = ms;
    assert(mand.len() == 15);
    assert(mand[0].0 == "wallet"@);
    assert(mand[1].0 == "wallet_label"@);
    assert(mand[2].0 == "tx_hash"@);
    assert(mand[3].0 == "tx_type"@);
    assert(mand[4].0 == "chain"@);
    assert(mand[5].0 == "index"@);
    assert(mand[6].0 == "timestamp"@);
    assert(mand[7].0 == "block"@);
    assert(mand[8].0 == "address"@);
    assert(mand[9].0 == "amount"@);
    assert(mand[10].0 == "amount_usd"@);
    assert(mand[11].0 == "from"@);
    assert(mand[12].0 == "name"@);
    assert(mand[13].0 == "price_usd"@);
    assert(mand[14].0 == "symbol"@);
    assert forall|j: int| 0 <= j < mand.len() implies mand[j].0 != "to"@ by {
        if j == 0 {
        } else if j == 1 {
        } else if j == 2 {
        } else if j == 3 {
        } else if j == 4 {
        } else if j == 5 {
        } else if j == 6 {
        } else if j == 7 {
        } else if j == 8 {
        } else if j == 9 {
        } else if j == 10 {
        } else if j == 11 {
        } else if j == 12 {
        } else if j == 13 {
        } else if j == 14 {
        } else {
        }
    }
    lemma_lookup_absent(mand, "to"@);
    assert(spec_decode_bridge(ms) is None);
}

/// An encoded `reward` record lacks `to`, which the `contract_interaction` shape needs.
#[verifier::spinoff_prover]
proof fn lemma_reward_not_contract_interaction(s: RewardV)
    ensures
        spec_decode_contract_interaction(spec_encode_reward(s)) is None,
{
    reveal_strlit("address");
    reveal_strlit("amount");
    reveal_strlit("amount_usd");
    reveal_strlit("block");
    reveal_strlit("chain");
    reveal_strlit("from");
    reveal_strlit("index");
    reveal_strlit("name");
    reveal_strlit("price_usd");
    reveal_strlit("symbol");
    reveal_strlit("timestamp");
    reveal_strlit("to");
    reveal_strlit("tx_hash");
    reveal_strlit("tx_type");
    reveal_strlit("wallet");
    reveal_strlit("wallet_label");
    assert("address"@.len() == 7);
    assert("amount"@.len() == 6);
    assert("amount_usd"@.len() == 10);
    assert("block"@.len() == 5);
    assert("chain"@.len() == 5);
    assert("from"@.len() == 4);
    assert("index"@.len() == 5);
    assert("name"@.len() == 4);
    assert("price_usd"@.len() == 9);
    assert("symbol"@.len() == 6);
    assert("timestamp"@.len() == 9);
    assert("to"@.len() == 2);
    assert("tx_hash"@.len() == 7);
    assert("tx_type"@.len() == 7);
    assert("wallet"@.len() == 6);
    assert("wallet_label"@.len() == 12);
    let ms = spec_encode_reward(s);
    let mand = ms;
    assert(mand.len() == 15);
    assert(mand[0].0 == "wallet"@);
    assert(mand[1].0 == "wallet_label"@);
    assert(mand[2].0 == "tx_hash"@);
    assert(mand[3].0 == "tx_type"@);
    assert(mand[4].0 == "chain"@);
    assert(mand[5].0 == "index"@);
    assert(mand[6].0 == "timestamp"@);
    assert(mand[7].0 == "block"@);
    assert(mand[8].0 == "address"@);
    assert(mand[9].0 == "amount"@);
    assert(mand[10].0 == "amount_usd"@);
    assert(mand[11].0 == "from"@);
    assert(mand[12].0 == "name"@);
    assert(mand[13].0 == "price_usd"@);
    assert(mand[14].0 == "symbol"@);
    assert forall|j: int| 0 <= j < mand.len() implies mand[j].0 != "to"@ by {
        if j == 0 {
        } else if j == 1 {
        } else if j == 2 {
        } else if j == 3 {
        } else if j == 4 {
        } else if j == 5 {
        } else if j == 6 {
        } else if j == 7 {
        } else if j == 8 {
        } else if j == 9 {
        } else if j == 10 {
        } else if j == 11 {
        } else if j == 12 {
        } else if j == 13 {
        } else if j == 14 {
        } else {
        }
    }
    lemma_lookup_absent(mand, "to"@);
    assert(spec_decode_contract_interaction(ms) is None);
}

/// An encoded `reward` record lacks `dex`, which the `wrap` shape needs.
#[verifier::spinoff_prover]
proof fn lemma_reward_not_wrap(s: RewardV)
    ensures
        spec_decode_wrap(spec_encode_reward(s)) is None,
{
    reveal_strlit("address");
    reveal_strlit("amount");
    reveal_strlit("amount_usd");
    reveal_strlit("block");
    reveal_strlit("chain");
    reveal_strlit("dex");
    reveal_strlit("from");
    reveal_strlit("index");
    reveal_strlit("name");
    reveal_strlit("price_usd");
    reveal_strlit("symbol");
    reveal_strlit("timestamp");
    reveal_strlit("tx_hash");
    reveal_strlit("tx_type");
    reveal_strlit("wallet");
    reveal_strlit("wallet_label");
    assert("address"@.len() == 7);
    assert("amount"@.len() == 6);
    assert("amount_usd"@.len() == 10);
    assert("block"@.len() == 5);
    assert("chain"@.len() == 5);
    assert("dex"@.len() == 3);
    assert("from"@.len() == 4);
    assert("index"@.len() == 5);
    assert("name"@.len() == 4);
    assert("price_usd"@.len() == 9);
    assert("symbol"@.len() == 6);
    assert("timestamp"@.len() == 9);
    assert("tx_hash"@.len() == 7);
    assert("tx_type"@.len() == 7);
    assert("wallet"@.len() == 6);
    assert("wallet_label"@.len() == 12);
    let ms = spec_encode_reward(s);
    let mand = ms;
    assert(mand.len() == 15);
    assert(mand[0].0 == "wallet"@);
    assert(mand[1].0 == "wallet_label"@);
    assert(mand[2].0 == "tx_hash"@);
    assert(mand[3].0 == "tx_type"@);
    assert(mand[4].0 == "chain"@);
    assert(mand[5].0 == "index"@);
    assert(mand[6].0 == "timestamp"@);
    assert(mand[7].0 == "block"@);
    assert(mand[8].0 == "address"@);
    assert(mand[9].0 == "amount"@);
    assert(mand[10].0 == "amount_usd"@);
    assert(mand[11].0 == "from"@);
    assert(mand[12].0 == "name"@);
    assert(mand[13].0 == "price_usd"@);
    assert(mand[14].0 == "symbol"@);
    assert forall|j: int| 0 <= j < mand.len() implies mand[j].0 != "dex"@ by {
        if j == 0 {
        } else if j == 1 {
        } else if j == 2 {
        } else if j == 3 {
        } else if j == 4 {
        } else if j == 5 {
        } else if j == 6 {
        } else if j == 7 {
        } else if j == 8 {
        } else if j == 9 {
        } else if j == 10 {
        } else if j == 11 {
        } else if j == 12 {
        } else if j == 13 {
        } else if j == 14 {
        } else {
        }
    }
    lemma_lookup_absent(mand, "dex"@);
    assert(spec_decode_wrap(ms) is None);
}

/// An encoded `reward` record lacks `nft_address`, which the `sudo_pool` shape needs.
#[verifier::spinoff_prover]
proof fn lemma_reward_not_sudo_pool(s: RewardV)
    ensures
        spec_decode_sudo_pool(spec_encode_reward(s)) is None,
{
    reveal_strlit("address");
    reveal_strlit("amount");
    reveal_strlit("amount_usd");
    reveal_strlit("block");
    reveal_strlit("chain");
    reveal_strlit("from");
    reveal_strlit("index");
    reveal_strlit("name");
    reveal_strlit("nft_address");
    reveal_strlit("price_usd");
    reveal_strlit("symbol");
    reveal_strlit("timestamp");
    reveal_strlit("tx_hash");
    reveal_strlit("tx_type");
    reveal_strlit("wallet");
    reveal_strlit("wallet_label");
    assert("address"@.len() == 7);
    assert("amount"@.len() == 6);
    assert("amount_usd"@.len() == 10);
    assert("block"@.len() == 5);
    assert("chain"@.len() == 5);
    assert("from"@.len() == 4);
    assert("index"@.len() == 5);
    assert("name"@.len() == 4);
    assert("nft_address"@.len() == 11);
    assert("price_usd"@.len() == 9);
    assert("symbol"@.len() == 6);
    assert("timestamp"@.len() == 9);
    assert("tx_hash"@.len() == 7);
    assert("tx_type"@.len() == 7);
    assert("wallet"@.len() == 6);
    assert("wallet_label"@.len() == 12);
    let ms = spec_encode_reward(s);
    let mand = ms;
    assert(mand.len() == 15);
    assert(mand[0].0 == "wallet"@);
    assert(mand[1].0 == "wallet_label"@);
    assert(mand[2].0 == "tx_hash"@);
    assert(mand[3].0 == "tx_type"@);
    assert(mand[4].0 == "chain"@);
    assert(mand[5].0 == "index"@);
    assert(mand[6].0 == "timestamp"@);
    assert(mand[7].0 == "block"@);
    assert(mand[8].0 == "address"@);
    assert(mand[9].0 == "amount"@);
    assert(mand[10].0 == "amount_usd"@);
    assert(mand[11].0 == "from"@);
    assert(mand[12].0 == "name"@);
    assert(mand[13].0 == "price_usd"@);
    assert(mand[14].0 == "symbol"@);
    assert forall|j: int| 0 <= j < mand.len() implies mand[j].0 != "nft_address"@ by {
        if j == 0 {
        } else if j == 1 {
        } else if j == 2 {
        } else if j == 3 {
        } else if j == 4 {
        } else if j == 5 {
        } else if j == 6 {
        } else if j == 7 {
        } else if j == 8 {
        } else if j == 9 {
        } else if j == 10 {
        } else if j == 11 {
        } else if j == 12 {
        } else if j == 13 {
        } else if j == 14 {
        } else {
        }
    }
    lemma_lookup_absent(mand, "nft_address"@);
    assert(spec_decode_sudo_pool(ms) is None);
}

/// An encoded `reward` record lacks `dex`, which the `flashloan` shape needs.
#[verifier::spinoff_prover]
proof fn lemma_reward_not_flashloan(s: RewardV)
    ensures
        spec_decode_flashloan(spec_encode_reward(s)) is None,
{
    reveal_strlit("address");
    reveal_strlit("amount");
    reveal_strlit("amount_usd");
    reveal_strlit("block");
    reveal_strlit("chain");
    reveal_strlit("dex");
    reveal_strlit("from");
    reveal_strlit("index");
    reveal_strlit("name");
    reveal_strlit("price_usd");
    reveal_strlit("symbol");
    reveal_strlit("timestamp");
    reveal_strlit("tx_hash");
    reveal_strlit("tx_type");
    reveal_strlit("wallet");
    reveal_strlit("wallet_label");
    assert("address"@.len() == 7);
    assert("amount"@.len() == 6);
    assert("amount_usd"@.len() == 10);
    assert("block"@.len() == 5);
    assert("chain"@.len() == 5);
    assert("dex"@.len() == 3);
    assert("from"@.len() == 4);
    assert("index"@.len() == 5);
    assert("name"@.len() == 4);
    assert("price_usd"@.len() == 9);
    assert("symbol"@.len() == 6);
    assert("timestamp"@.len() == 9);
    assert("tx_hash"@.len() == 7);
    assert("tx_type"@.len() == 7);
    assert("wallet"@.len() == 6);
    assert("wallet_label"@.len() == 12);
    let ms = spec_encode_reward(s);
    let mand = ms;
    assert(mand.len() == 15);
    assert(mand[0].0 == "wallet"@);
    assert(mand[1].0 == "wallet_label"@);
    assert(mand[2].0 == "tx_hash"@);
    assert(mand[3].0 == "tx_type"@);
    assert(mand[4].0 == "chain"@);
    assert(mand[5].0 == "index"@);
    assert(mand[6].0 == "timestamp"@);
    assert(mand[7].0 == "block"@);
    assert(mand[8].0 == "address"@);
    assert(mand[9].0 == "amount"@);
    assert(mand[10].0 == "amount_usd"@);
    assert(mand[11].0 == "from"@);
    assert(mand[12].0 == "name"@);
    assert(mand[13].0 == "price_usd"@);
    assert(mand[14].0 == "symbol"@);
    assert forall|j: int| 0 <= j < mand.len() implies mand[j].0 != "dex"@ by {
        if j == 0 {
        } else if j == 1 {
        } else if j == 2 {
        } else if j == 3 {
        } else if j == 4 {
        } else if j == 5 {
        } else if j == 6 {
        } else if j == 7 {
        } else if j == 8 {
        } else if j == 9 {
        } else if j == 10 {
        } else if j == 11 {
        } else if j == 12 {
        } else if j == 13 {
        } else if j == 14 {
        } else {
        }
    }
    lemma_lookup_absent(mand, "dex"@);
    assert(spec_decode_flashloan(ms) is None);
}

/// Decoding an encoded `reward` record yields it back.
#[verifier::rlimit(50)]
#[verifier::spinoff_prover]
pub proof fn lemma_reward_round_trip(s: RewardV)
    ensures
        spec_decode_item(spec_encode_item(ItemV::Reward(s))) == Some(ItemV::Reward(s)),
{
    reveal_strlit("address");
    reveal_strlit("amount");
    reveal_strlit("amount_usd");
    reveal_strlit("block");
    reveal_strlit("chain");
    reveal_strlit("from");
    reveal_strlit("index");
    reveal_strlit("name");
    reveal_strlit("price_usd");
    reveal_strlit("symbol");
    reveal_strlit("timestamp");
    reveal_strlit("tx_hash");
    reveal_strlit("tx_type");
    reveal_strlit("wallet");
    reveal_strlit("wallet_label");
    assert("address"@.len() == 7);
    assert("amount"@.len() == 6);
    assert("amount_usd"@.len() == 10);
    assert("block"@.len() == 5);
    assert("chain"@.len() == 5);
    assert("from"@.len() == 4);
    assert("index"@.len() == 5);
    assert("name"@.len() == 4);
    assert("price_usd"@.len() == 9);
    assert("symbol"@.len() == 6);
    assert("timestamp"@.len() == 9);
    assert("tx_hash"@.len() == 7);
    assert("tx_type"@.len() == 7);
    assert("wallet"@.len() == 6);
    assert("wallet_label"@.len() == 12);
    assert("address"@[0] == 'a');
    assert("amount"@[0] == 'a');
    assert("block"@[0] == 'b');
    assert("chain"@[0] == 'c');
    assert("from"@[0] == 'f');
    assert("index"@[0] == 'i');
    assert("name"@[0] == 'n');
    assert("price_usd"@[0] == 'p');
    assert("symbol"@[0] == 's');
    assert("timestamp"@[0] == 't');
    assert("tx_hash"@[0] == 't');
    assert("tx_hash"@[3] == 'h');
    assert("tx_type"@[0] == 't');
    assert("tx_type"@[3] == 't');
    assert("wallet"@[0] == 'w');
    let ms = spec_encode_reward(s);
    let mand = ms;
    assert(mand.len() == 15);
    assert(mand[0].0 == "wallet"@);
    assert(mand[1].0 == "wallet_label"@);
    assert(mand[2].0 == "tx_hash"@);
    assert(mand[3].0 == "tx_type"@);
    assert(mand[4].0 == "chain"@);
    assert(mand[5].0 == "index"@);
    assert(mand[6].0 == "timestamp"@);
    assert(mand[7].0 == "block"@);
    assert(mand[8].0 == "address"@);
    assert(mand[9].0 == "amount"@);
    assert(mand[10].0 == "amount_usd"@);
    assert(mand[11].0 == "from"@);
    assert(mand[12].0 == "name"@);
    assert(mand[13].0 == "price_usd"@);
    assert(mand[14].0 == "symbol"@);
    lemma_lookup_first(mand, 0);
    lemma_lookup_first(mand, 1);
    lemma_lookup_first(mand, 2);
    lemma_lookup_first(mand, 3);
    lemma_lookup_first(mand, 4);
    lemma_lookup_first(mand, 5);
    lemma_lookup_first(mand, 6);
    lemma_lookup_first(mand, 7);
    lemma_lookup_first(mand, 8);
    lemma_lookup_first(mand, 9);
    lemma_lookup_first(mand, 10);
    lemma_lookup_first(mand, 11);
    lemma_lookup_first(mand, 12);
    lemma_lookup_first(mand, 13);
    lemma_lookup_first(mand, 14);
    lemma_reward_not_swap(s);
    lemma_reward_not_lp(s);
    lemma_reward_not_transfer(s);
    lemma_reward_not_lending(s);
    lemma_reward_not_nft_mint(s);
    lemma_reward_not_nft_trade(s);
    lemma_reward_not_nft_transfer(s);
    lemma_reward_not_nft_lending(s);
    lemma_reward_not_bridge(s);
    lemma_reward_not_contract_interaction(s);
    lemma_reward_not_wrap(s);
    lemma_reward_not_sudo_pool(s);
    lemma_reward_not_flashloan(s);
    assert(spec_decode_reward(ms) == Some(RewardV {
        wallet: s.wallet,
        wallet_label: s.wallet_label,
        tx_hash: s.tx_hash,
        tx_type: s.tx_type,
        chain: s.chain,
        index: s.index,
        timestamp: s.timestamp,
        block: s.block,
        address: s.address,
        amount: s.amount,
        amount_usd: s.amount_usd,
        from: s.from,
        name: s.name,
        price_usd: s.price_usd,
        symbol: s.symbol,
    }));
}

/// An encoded `staking` record lacks `dex`, which the `swap` shape needs.
#[verifier::spinoff_prover]
proof fn lemma_staking_not_swap(s: StakingV)
    ensures
        spec_decode_swap(spec_encode_staking(s)) is None,
{
    reveal_strlit("action");
    reveal_strlit("amount");
    reveal_strlit("amount_usd");
    reveal_strlit("block");
    reveal_strlit("chain");
    reveal_strlit("contract_address");
    reveal_strlit("dex");
    reveal_strlit("from");
    reveal_strlit("from_label");
    reveal_strlit("index");
    reveal_strlit("name");
    reveal_strlit("symbol");
    reveal_strlit("timestamp");
    reveal_strlit("to");
    reveal_strlit("to_label");
    reveal_strlit("token_price_usd");
    reveal_strlit("tx_hash");
    reveal_strlit("tx_type");
    reveal_strlit("wallet");
    reveal_strlit("wallet_label");
    assert("action"@.len() == 6);
    assert("amount"@.len() == 6);
    assert("amount_usd"@.len() == 10);
    assert("block"@.len() == 5);
    assert("chain"@.len() == 5);
    assert("contract_address"@.len() == 16);
    assert("dex"@.len() == 3);
    assert("from"@.len() == 4);
    assert("from_label"@.len() == 10);
    assert("index"@.len() == 5);
    assert("name"@.len() == 4);
    assert("symbol"@.len() == 6);
    assert("timestamp"@.len() == 9);
    assert("to"@.len() == 2);
    assert("to_label"@.len() == 8);
    assert("token_price_usd"@.len() == 15);
    assert("tx_hash"@.len() == 7);
    assert("tx_type"@.len() == 7);
    assert("wallet"@.len() == 6);
    assert("wallet_label"@.len() == 12);
    let ms = spec_encode_staking(s);
    let mand = ms;
    assert(mand.len() == 19);
    assert(mand[0].0 == "wallet"@);
    assert(mand[1].0 == "wallet_label"@);
    assert(mand[2].0 == "tx_hash"@);
    assert(mand[3].0 == "tx_type"@);
    assert(mand[4].0 == "chain"@);
    assert(mand[5].0 == "index"@);
    assert(mand[6].0 == "timestamp"@);
    assert(mand[7].0 == "block"@);
    assert(mand[8].0 == "from"@);
    assert(mand[9].0 == "to"@);
    assert(mand[10].0 == "from_label"@);
    assert(mand[11].0 == "to_label"@);
    assert(mand[12].0 == "amount"@);
    assert(mand[13].0 == "amount_usd"@);
    assert(mand[14].0 == "token_price_usd"@);
    assert(mand[15].0 == "contract_address"@);
    assert(mand[16].0 == "symbol"@);
    assert(mand[17].0 == "name"@);
    assert(mand[18].0 == "action"@);
    assert forall|j: int| 0 <= j < mand.len() implies mand[j].0 != "dex"@ by {
        if j == 0 {
        } else if j == 1 {
        } else if j == 2 {
        } else if j == 3 {
        } else if j == 4 {
        } else if j == 5 {
        } else if j == 6 {
        } else if j == 7 {
        } else if j == 8 {
        } else if j == 9 {
        } else if j == 10 {
        } else if j == 11 {
        } else if j == 12 {
        } else if j == 13 {
        } else if j == 14 {
        } else if j == 15 {
        } else if j == 16 {
        } else if j == 17 {
        } else if j == 18 {
        } else {
        }
    }
    lemma_lookup_absent(mand, "dex"@);
    assert(spec_decode_swap(ms) is None);
}

/// An encoded `staking` record lacks `dex`, which the `lp` shape needs.
#[verifier::spinoff_prover]
proof fn lemma_staking_not_lp(s: StakingV)
    ensures
        spec_decode_lp(spec_encode_staking(s)) is None,
{
    reveal_strlit("action");
    reveal_strlit("amount");
    reveal_strlit("amount_usd");
    reveal_strlit("block");
    reveal_strlit("chain");
    reveal_strlit("contract_address");
    reveal_strlit("dex");
    reveal_strlit("from");
    reveal_strlit("from_label");
    reveal_strlit("index");
    reveal_strlit("name");
    reveal_strlit("symbol");
    reveal_strlit("timestamp");
    reveal_strlit("to");
    reveal_strlit("to_label");
    reveal_strlit("token_price_usd");
    reveal_strlit("tx_hash");
    reveal_strlit("tx_type");
    reveal_strlit("wallet");
    reveal_strlit("wallet_label");
    assert("action"@.len() == 6);
    assert("amount"@.len() == 6);
    assert("amount_usd"@.len() == 10);
    assert("block"@.len() == 5);
    assert("chain"@.len() == 5);
    assert("contract_address"@.len() == 16);
    assert("dex"@.len() == 3);
    assert("from"@.len() == 4);
    assert("from_label"@.len() == 10);
    assert("index"@.len() == 5);
    assert("name"@.len() == 4);
    assert("symbol"@.len() == 6);
    assert("timestamp"@.len() == 9);
    assert("to"@.len() == 2);
    assert("to_label"@.len() == 8);
    assert("token_price_usd"@.len() == 15);
    assert("tx_hash"@.len() == 7);
    assert("tx_type"@.len() == 7);
    assert("wallet"@.len() == 6);
    assert("wallet_label"@.len() == 12);
    let ms = spec_encode_staking(s);
    let mand = ms;
    assert(mand.len() == 19);
    assert(mand[0].0 == "wallet"@);
    assert(mand[1].0 == "wallet_label"@);
    assert(mand[2].0 == "tx_hash"@);
    assert(mand[3].0 == "tx_type"@);
    assert(mand[4].0 == "chain"@);
    assert(mand[5].0 == "index"@);
    assert(mand[6].0 == "timestamp"@);
    assert(mand[7].0 == "block"@);
    assert(mand[8].0 == "from"@);
    assert(mand[9].0 == "to"@);
    assert(mand[10].0 == "from_label"@);
    assert(mand[11].0 == "to_label"@);
    assert(mand[12].0 == "amount"@);
    assert(mand[13].0 == "amount_usd"@);
    assert(mand[14].0 == "token_price_usd"@);
    assert(mand[15].0 == "contract_address"@);
    assert(mand[16].0 == "symbol"@);
    assert(mand[17].0 == "name"@);
    assert(mand[18].0 == "action"@);
    assert forall|j: int| 0 <= j < mand.len() implies mand[j].0 != "dex"@ by {
        if j == 0 {
        } else if j == 1 {
        } else if j == 2 {
        } else if j == 3 {
        } else if j == 4 {
        } else if j == 5 {
        } else if j == 6 {
        } else if j == 7 {
        } else if j == 8 {
        } else if j == 9 {
        } else if j == 10 {
        } else if j == 11 {
        } else if j == 12 {
        } else if j == 13 {
        } else if j == 14 {
        } else if j == 15 {
        } else if j == 16 {
        } else if j == 17 {
        } else if j == 18 {
        } else {
        }
    }
    lemma_lookup_absent(mand, "dex"@);
    assert(spec_decode_lp(ms) is None);
}

/// An encoded `staking` record lacks `type`, which the `transfer` shape needs.
#[verifier::spinoff_prover]
proof fn lemma_staking_not_transfer(s: StakingV)
    ensures
        spec_decode_transfer(spec_encode_staking(s)) is None,
{
    reveal_strlit("action");
    reveal_strlit("amount");
    reveal_strlit("amount_usd");
    reveal_strlit("block");
    reveal_strlit("chain");
    reveal_strlit("contract_address");
    reveal_strlit("from");
    reveal_strlit("from_label");
    reveal_strlit("index");
    reveal_strlit("name");
    reveal_strlit("symbol");
    reveal_strlit("timestamp");
    reveal_strlit("to");
    reveal_strlit("to_label");
    reveal_strlit("token_price_usd");
    reveal_strlit("tx_hash");
    reveal_strlit("tx_type");
    reveal_strlit("type");
    reveal_strlit("wallet");
    reveal_strlit("wallet_label");
    assert("action"@.len() == 6);
    assert("amount"@.len() == 6);
    assert("amount_usd"@.len() == 10);
    assert("block"@.len() == 5);
    assert("chain"@.len() == 5);
    assert("contract_address"@.len() == 16);
    assert("from"@.len() == 4);
    assert("from_label"@.len() == 10);
    assert("index"@.len() == 5);
    assert("name"@.len() == 4);
    assert("symbol"@.len() == 6);
    assert("timestamp"@.len() == 9);
    assert("to"@.len() == 2);
    assert("to_label"@.len() == 8);
    assert("token_price_usd"@.len() == 15);
    assert("tx_hash"@.len() == 7);
    assert("tx_type"@.len() == 7);
    assert("type"@.len() == 4);
    assert("wallet"@.len() == 6);
    assert("wallet_label"@.len() == 12);
    assert("from"@[0] == 'f');
    assert("name"@[0] == 'n');
    assert("type"@[0] == 't');
    let ms = spec_encode_staking(s);
    let mand = ms;
    assert(mand.len() == 19);
    assert(mand[0].0 == "wallet"@);
    assert(mand[1].0 == "wallet_label"@);
    assert(mand[2].0 == "tx_hash"@);
    assert(mand[3].0 == "tx_type"@);
    assert(mand[4].0 == "chain"@);
    assert(mand[5].0 == "index"@);
    assert(mand[6].0 == "timestamp"@);
    assert(mand[7].0 == "block"@);
    assert(mand[8].0 == "from"@);
    assert(mand[9].0 == "to"@);
    assert(mand[10].0 == "from_label"@);
    assert(mand[11].0 == "to_label"@);
    assert(mand[12].0 == "amount"@);
    assert(mand[13].0 == "amount_usd"@);
    assert(mand[14].0 == "token_price_usd"@);
    assert(mand[15].0 == "contract_address"@);
    assert(mand[16].0 == "symbol"@);
    assert(mand[17].0 == "name"@);
    assert(mand[18].0 == "action"@);
    assert forall|j: int| 0 <= j < mand.len() implies mand[j].0 != "type"@ by {
        if j == 0 {
        } else if j == 1 {
        } else if j == 2 {
        } else if j == 3 {
        } else if j == 4 {
        } else if j == 5 {
        } else if j == 6 {
        } else if j == 7 {
        } else if j == 8 {
        } else if j == 9 {
        } else if j == 10 {
        } else if j == 11 {
        } else if j == 12 {
        } else if j == 13 {
        } else if j == 14 {
        } else if j == 15 {
        } else if j == 16 {
        } else if j == 17 {
        } else if j == 18 {
        } else {
        }
    }
    lemma_lookup_absent(mand, "type"@);
    assert(spec_decode_transfer(ms) is None);
}

/// An encoded `staking` record lacks `dex`, which the `lending` shape needs.
#[verifier::spinoff_prover]
proof fn lemma_staking_not_lending(s: StakingV)
    ensures
        spec_decode_lending(spec_encode_staking(s)) is None,
{
    reveal_strlit("action");
    reveal_strlit("amount");
    reveal_strlit("amount_usd");
    reveal_strlit("block");
    reveal_strlit("chain");
    reveal_strlit("contract_address");
    reveal_strlit("dex");
    reveal_strlit("from");
    reveal_strlit("from_label");
    reveal_strlit("index");
    reveal_strlit("name");
    reveal_strlit("symbol");
    reveal_strlit("timestamp");
    reveal_strlit("to");
    reveal_strlit("to_label");
    reveal_strlit("token_price_usd");
    reveal_strlit("tx_hash");
    reveal_strlit("tx_type");
    reveal_strlit("wallet");
    reveal_strlit("wallet_label");
    assert("action"@.len() == 6);
    assert("amount"@.len() == 6);
    assert("amount_usd"@.len() == 10);
    assert("block"@.len() == 5);
    assert("chain"@.len() == 5);
    assert("contract_address"@.len() == 16);
    assert("dex"@.len() == 3);
    assert("from"@.len() == 4);
    assert("from_label"@.len() == 10);
    assert("index"@.len() == 5);
    assert("name"@.len() == 4);
    assert("symbol"@.len() == 6);
    assert("timestamp"@.len() == 9);
    assert("to"@.len() == 2);
    assert("to_label"@.len() == 8);
    assert("token_price_usd"@.len() == 15);
    assert("tx_hash"@.len() == 7);
    assert("tx_type"@.len() == 7);
    assert("wallet"@.len() == 6);
    assert("wallet_label"@.len() == 12);
    let ms = spec_encode_staking(s);
    let mand = ms;
    assert(mand.len() == 19);
    assert(mand[0].0 == "wallet"@);
    assert(mand[1].0 == "wallet_label"@);
    assert(mand[2].0 == "tx_hash"@);
    assert(mand[3].0 == "tx_type"@);
    assert(mand[4].0 == "chain"@);
    assert(mand[5].0 == "index"@);
    assert(mand[6].0 == "timestamp"@);
    assert(mand[7].0 == "block"@);
    assert(mand[8].0 == "from"@);
    assert(mand[9].0 == "to"@);
    assert(mand[10].0 == "from_label"@);
    assert(mand[11].0 == "to_label"@);
    assert(mand[12].0 == "amount"@);
    assert(mand[13].0 == "amount_usd"@);
    assert(mand[14].0 == "token_price_usd"@);
    assert(mand[15].0 == "contract_address"@);
    assert(mand[16].0 == "symbol"@);
    assert(mand[17].0 == "name"@);
    assert(mand[18].0 == "action"@);
    assert forall|j: int| 0 <= j < mand.len() implies mand[j].0 != "dex"@ by {
        if j == 0 {
        } else if j == 1 {
        } else if j == 2 {
        } else if j == 3 {
        } else if j == 4 {
        } else if j == 5 {
        } else if j == 6 {
        } else if j == 7 {
        } else if j == 8 {
        } else if j == 9 {
        } else if j == 10 {
        } else if j == 11 {
        } else if j == 12 {
        } else if j == 13 {
        } else if j == 14 {
        } else if j == 15 {
        } else if j == 16 {
        } else if j == 17 {
        } else if j == 18 {
        } else {
        }
    }
    lemma_lookup_absent(mand, "dex"@);
    assert(spec_decode_lending(ms) is None);
}

/// An encoded `staking` record lacks `contract_type`, which the `nft_mint` shape needs.
#[verifier::spinoff_prover]
proof fn lemma_staking_not_nft_mint(s: StakingV)
    ensures
        spec_decode_nft_mint(spec_encode_staking(s)) is None,
{
    reveal_strlit("action");
    reveal_strlit("amount");
    reveal_strlit("amount_usd");
    reveal_strlit("block");
    reveal_strlit("chain");
    reveal_strlit("contract_address");
    reveal_strlit("contract_type");
    reveal_strlit("from");
    reveal_strlit("from_label");
    reveal_strlit("index");
    reveal_strlit("name");
    reveal_strlit("symbol");
    reveal_strlit("timestamp");
    reveal_strlit("to");
    reveal_strlit("to_label");
    reveal_strlit("token_price_usd");
    reveal_strlit("tx_hash");
    reveal_strlit("tx_type");
    reveal_strlit("wallet");
    reveal_strlit("wallet_label");
    assert("action"@.len() == 6);
    assert("amount"@.len() == 6);
    assert("amount_usd"@.len() == 10);
    assert("block"@.len() == 5);
    assert("chain"@.len() == 5);
    assert("contract_address"@.len() == 16);
    assert("contract_type"@.len() == 13);
    assert("from"@.len() == 4);
    assert("from_label"@.len() == 10);
    assert("index"@.len() == 5);
    assert("name"@.len() == 4);
    assert("symbol"@.len() == 6);
    assert("timestamp"@.len() == 9);
    assert("to"@.len() == 2);
    assert("to_label"@.len() == 8);
    assert("token_price_usd"@.len() == 15);
    assert("tx_hash"@.len() == 7);
    assert("tx_type"@.len() == 7);
    assert("wallet"@.len() == 6);
    assert("wallet_label"@.len() == 12);
    let ms = spec_encode_staking(s);
    let mand = ms;
    assert(mand.len() == 19);
    assert(mand[0].0 == "wallet"@);
    assert(mand[1].0 == "wallet_label"@);
    assert(mand[2].0 == "tx_hash"@);
    assert(mand[3].0 == "tx_type"@);
    assert(mand[4].0 == "chain"@);
    assert(mand[5].0 == "index"@);
    assert(mand[6].0 == "timestamp"@);
    assert(mand[7].0 == "block"@);
    assert(mand[8].0 == "from"@);
    assert(mand[9].0 == "to"@);
    assert(mand[10].0 == "from_label"@);
    assert(mand[11].0 == "to_label"@);
    assert(mand[12].0 == "amount"@);
    assert(mand[13].0 == "amount_usd"@);
    assert(mand[14].0 == "token_price_usd"@);
    assert(mand[15].0 == "contract_address"@);
    assert(mand[16].0 == "symbol"@);
    assert(mand[17].0 == "name"@);
    assert(mand[18].0 == "action"@);
    assert forall|j: int| 0 <= j < mand.len() implies mand[j].0 != "contract_type"@ by {
        if j == 0 {
        } else if j == 1 {
        } else if j == 2 {
        } else if j == 3 {
        } else if j == 4 {
        } else if j == 5 {
        } else if j == 6 {
        } else if j == 7 {
        } else if j == 8 {
        } else if j == 9 {
        } else if j == 10 {
        } else if j == 11 {
        } else if j == 12 {
        } else if j == 13 {
        } else if j == 14 {
        } else if j == 15 {
        } else if j == 16 {
        } else if j == 17 {
        } else if j == 18 {
        } else {
        }
    }
    lemma_lookup_absent(mand, "contract_type"@);
    assert(spec_decode_nft_mint(ms) is None);
}

/// An encoded `staking` record lacks `marketplace`, which the `nft_trade` shape needs.
#[verifier::spinoff_prover]
proof fn lemma_staking_not_nft_trade(s: StakingV)
    ensures
        spec_decode_nft_trade(spec_encode_staking(s)) is None,
{
    reveal_strlit("action");
    reveal_strlit("amount");
    reveal_strlit("amount_usd");
    reveal_strlit("block");
    reveal_strlit("chain");
    reveal_strlit("contract_address");
    reveal_strlit("from");
    reveal_strlit("from_label");
    reveal_strlit("index");
    reveal_strlit("marketplace");
    reveal_strlit("name");
    reveal_strlit("symbol");
    reveal_strlit("timestamp");
    reveal_strlit("to");
    reveal_strlit("to_label");
    reveal_strlit("token_price_usd");
    reveal_strlit("tx_hash");
    reveal_strlit("tx_type");
    reveal_strlit("wallet");
    reveal_strlit("wallet_label");
    assert("action"@.len() == 6);
    assert("amount"@.len() == 6);
    assert("amount_usd"@.len() == 10);
    assert("block"@.len() == 5);
    assert("chain"@.len() == 5);
    assert("contract_address"@.len() == 16);
    assert("from"@.len() == 4);
    assert("from_label"@.len() == 10);
    assert("index"@.len() == 5);
    assert("marketplace"@.len() == 11);
    assert("name"@.len() == 4);
    assert("symbol"@.len() == 6);
    assert("timestamp"@.len() == 9);
    assert("to"@.len() == 2);
    assert("to_label"@.len() == 8);
    assert("token_price_usd"@.len() == 15);
    assert("tx_hash"@.len() == 7);
    assert("tx_type"@.len() == 7);
    assert("wallet"@.len() == 6);
    assert("wallet_label"@.len() == 12);
    let ms = spec_encode_staking(s);
    let mand = ms;
    assert(mand.len() == 19);
    assert(mand[0].0 == "wallet"@);
    assert(mand[1].0 == "wallet_label"@);
    assert(mand[2].0 == "tx_hash"@);
    assert(mand[3].0 == "tx_type"@);
    assert(mand[4].0 == "chain"@);
    assert(mand[5].0 == "index"@);
    assert(mand[6].0 == "timestamp"@);
    assert(mand[7].0 == "block"@);
    assert(mand[8].0 == "from"@);
    assert(mand[9].0 == "to"@);
    assert(mand[10].0 == "from_label"@);
    assert(mand[11].0 == "to_label"@);
    assert(mand[12].0 == "amount"@);
    assert(mand[13].0 == "amount_usd"@);
    assert(mand[14].0 == "token_price_usd"@);
    assert(mand[15].0 == "contract_address"@);
    assert(mand[16].0 == "symbol"@);
    assert(mand[17].0 == "name"@);
    assert(mand[18].0 == "action"@);
    assert forall|j: int| 0 <= j < mand.len() implies mand[j].0 != "marketplace"@ by {
        if j == 0 {
        } else if j == 1 {
        } else if j == 2 {
        } else if j == 3 {
        } else if j == 4 {
        } else if j == 5 {
        } else if j == 6 {
        } else if j == 7 {
        } else if j == 8 {
        } else if j == 9 {
        } else if j == 10 {
        } else if j == 11 {
        } else if j == 12 {
        } else if j == 13 {
        } else if j == 14 {
        } else if j == 15 {
        } else if j == 16 {
        } else if j == 17 {
        } else if j == 18 {
        } else {
        }
    }
    lemma_lookup_absent(mand, "marketplace"@);
    assert(spec_decode_nft_trade(ms) is None);
}

/// An encoded `staking` record lacks `contract_type`, which the `nft_transfer` shape needs.
#[verifier::spinoff_prover]
proof fn lemma_staking_not_nft_transfer(s: StakingV)
    ensures
        spec_decode_nft_transfer(spec_encode_staking(s)) is None,
{
    reveal_strlit("action");
    reveal_strlit("amount");
    reveal_strlit("amount_usd");
    reveal_strlit("block");
    reveal_strlit("chain");
    reveal_strlit("contract_address");
    reveal_strlit("contract_type");
    reveal_strlit("from");
    reveal_strlit("from_label");
    reveal_strlit("index");
    reveal_strlit("name");
    reveal_strlit("symbol");
    reveal_strlit("timestamp");
    reveal_strlit("to");
    reveal_strlit("to_label");
    reveal_strlit("token_price_usd");
    reveal_strlit("tx_hash");
    reveal_strlit("tx_type");
    reveal_strlit("wallet");
    reveal_strlit("wallet_label");
    assert("action"@.len() == 6);
    assert("amount"@.len() == 6);
    assert("amount_usd"@.len() == 10);
    assert("block"@.len() == 5);
    assert("chain"@.len() == 5);
    assert("contract_address"@.len() == 16);
    assert("contract_type"@.len() == 13);
    assert("from"@.len() == 4);
    assert("from_label"@.len() == 10);
    assert("index"@.len() == 5);
    assert("name"@.len() == 4);
    assert("symbol"@.len() == 6);
    assert("timestamp"@.len() == 9);
    assert("to"@.len() == 2);
    assert("to_label"@.len() == 8);
    assert("token_price_usd"@.len() == 15);
    assert("tx_hash"@.len() == 7);
    assert("tx_type"@.len() == 7);
    assert("wallet"@.len() == 6);
    assert("wallet_label"@.len() == 12);
    let ms = spec_encode_staking(s);
    let mand = ms;
    assert(mand.len() == 19);
    assert(mand[0].0 == "wallet"@);
    assert(mand[1].0 == "wallet_label"@);
    assert(mand[2].0 == "tx_hash"@);
    assert(mand[3].0 == "tx_type"@);
    assert(mand[4].0 == "chain"@);
    assert(mand[5].0 == "index"@);
    assert(mand[6].0 == "timestamp"@);
    assert(mand[7].0 == "block"@);
    assert(mand[8].0 == "from"@);
    assert(mand[9].0 == "to"@);
    assert(mand[10].0 == "from_label"@);
    assert(mand[11].0 == "to_label"@);
    assert(mand[12].0 == "amount"@);
    assert(mand[13].0 == "amount_usd"@);
    assert(mand[14].0 == "token_price_usd"@);
    assert(mand[15].0 == "contract_address"@);
    assert(mand[16].0 == "symbol"@);
    assert(mand[17].0 == "name"@);
    assert(mand[18].0 == "action"@);
    assert forall|j: int| 0 <= j < mand.len() implies mand[j].0 != "contract_type"@ by {
        if j == 0 {
        } else if j == 1 {
        } else if j == 2 {
        } else if j == 3 {
        } else if j == 4 {
        } else if j == 5 {
        } else if j == 6 {
        } else if j == 7 {
        } else if j == 8 {
        } else if j == 9 {
        } else if j == 10 {
        } else if j == 11 {
        } else if j == 12 {
        } else if j == 13 {
        } else if j == 14 {
        } else if j == 15 {
        } else if j == 16 {
        } else if j == 17 {
        } else if j == 18 {
        } else {
        }
    }
    lemma_lookup_absent(mand, "contract_type"@);
    assert(spec_decode_nft_transfer(ms) is None);
}

/// An encoded `staking` record lacks `nft_address`, which the `nft_lending` shape needs.
#[verifier::spinoff_prover]
proof fn lemma_staking_not_nft_lending(s: StakingV)
    ensures
        spec_decode_nft_lending(spec_encode_staking(s)) is None,
{
    reveal_strlit("action");
    reveal_strlit("amount");
    reveal_strlit("amount_usd");
    reveal_strlit("block");
    reveal_strlit("chain");
    reveal_strlit("contract_address");
    reveal_strlit("from");
    reveal_strlit("from_label");
    reveal_strlit("index");
    reveal_strlit("name");
    reveal_strlit("nft_address");
    reveal_strlit("symbol");
    reveal_strlit("timestamp");
    reveal_strlit("to");
    reveal_strlit("to_label");
    reveal_strlit("token_price_usd");
    reveal_strlit("tx_hash");
    reveal_strlit("tx_type");
    reveal_strlit("wallet");
    reveal_strlit("wallet_label");
    assert("action"@.len() == 6);
    assert("amount"@.len() == 6);
    assert("amount_usd"@.len() == 10);
    assert("block"@.len() == 5);
    assert("chain"@.len() == 5);
    assert("contract_address"@.len() == 16);
    assert("from"@.len() == 4);
    assert("from_label"@.len() == 10);
    assert("index"@.len() == 5);
    assert("name"@.len() == 4);
    assert("nft_address"@.len() == 11);
    assert("symbol"@.len() == 6);
    assert("timestamp"@.len() == 9);
    assert("to"@.len() == 2);
    assert("to_label"@.len() == 8);
    assert("token_price_usd"@.len() == 15);
    assert("tx_hash"@.len() == 7);
    assert("tx_type"@.len() == 7);
    assert("wallet"@.len() == 6);
    assert("wallet_label"@.len() == 12);
    let ms = spec_encode_staking(s);
    let mand = ms;
    assert(mand.len() == 19);
    assert(mand[0].0 == "wallet"@);
    assert(mand[1].0 == "wallet_label"@);
    assert(mand[2].0 == "tx_hash"@);
    assert(mand[3].0 == "tx_type"@);
    assert(mand[4].0 == "chain"@);
    assert(mand[5].0 == "index"@);
    assert(mand[6].0 == "timestamp"@);
    assert(mand[7].0 == "block"@);
    assert(mand[8].0 == "from"@);
    assert(mand[9].0 == "to"@);
    assert(mand[10].0 == "from_label"@);
    assert(mand[11].0 == "to_label"@);
    assert(mand[12].0 == "amount"@);
    assert(mand[13].0 == "amount_usd"@);
    assert(mand[14].0 == "token_price_usd"@);
    assert(mand[15].0 == "contract_address"@);
    assert(mand[16].0 == "symbol"@);
    assert(mand[17].0 == "name"@);
    assert(mand[18].0 == "action"@);
    assert forall|j: int| 0 <= j < mand.len() implies mand[j].0 != "nft_address"@ by {
        if j == 0 {
        } else if j == 1 {
        } else if j == 2 {
        } else if j == 3 {
        } else if j == 4 {
        } else if j == 5 {
        } else if j == 6 {
        } else if j == 7 {
        } else if j == 8 {
        } else if j == 9 {
        } else if j == 10 {
        } else if j == 11 {
        } else if j == 12 {
        } else if j == 13 {
        } else if j == 14 {
        } else if j == 15 {
        } else if j == 16 {
        } else if j == 17 {
        } else if j == 18 {
        } else {
        }
    }
    lemma_lookup_absent(mand, "nft_address"@);
    assert(spec_decode_nft_lending(ms) is None);
}

/// An encoded `staking` record lacks `token_address`, which the `bridge` shape needs.
#[verifier::spinoff_prover]
proof fn lemma_staking_not_bridge(s: StakingV)
    ensures
        spec_decode_bridge(spec_encode_staking(s)) is None,
{
    reveal_strlit("action");
    reveal_strlit("amount");
    reveal_strlit("amount_usd");
    reveal_strlit("block");
    reveal_strlit("chain");
    reveal_strlit("contract_address");
    reveal_strlit("from");
    reveal_strlit("from_label");
    reveal_strlit("index");
    reveal_strlit("name");
    reveal_strlit("symbol");
    reveal_strlit("timestamp");
    reveal_strlit("to");
    reveal_strlit("to_label");
    reveal_strlit("token_address");
    reveal_strlit("token_price_usd");
    reveal_strlit("tx_hash");
    reveal_strlit("tx_type");
    reveal_strlit("wallet");
    reveal_strlit("wallet_label");
    assert("action"@.len() == 6);
    assert("amount"@.len() == 6);
    assert("amount_usd"@.len() == 10);
    assert("block"@.len() == 5);
    assert("chain"@.len() == 5);
    assert("contract_address"@.len() == 16);
    assert("from"@.len() == 4);
    assert("from_label"@.len() == 10);
    assert("index"@.len() == 5);
    assert("name"@.len() == 4);
    assert("symbol"@.len() == 6);
    assert("timestamp"@.len() == 9);
    assert("to"@.len() == 2);
    assert("to_label"@.len() == 8);
    assert("token_address"@.len() == 13);
    assert("token_price_usd"@.len() == 15);
    assert("tx_hash"@.len() == 7);
    assert("tx_type"@.len() == 7);
    assert("wallet"@.len() == 6);
    assert("wallet_label"@.len() == 12);
    let ms = spec_encode_staking(s);
    let mand = ms;
    assert(mand.len() == 19);
    assert(mand[0].0 == "wallet"@);
    assert(mand[1].0 == "wallet_label"@);
    assert(mand[2].0 == "tx_hash"@);
    assert(mand[3].0 == "tx_type"@);
    assert(mand[4].0 == "chain"@);
    assert(mand[5].0 == "index"@);
    assert(mand[6].0 == "timestamp"@);
    assert(mand[7].0 == "block"@);
    assert(mand[8].0 == "from"@);
    assert(mand[9].0 == "to"@);
    assert(mand[10].0 == "from_label"@);
    assert(mand[11].0 == "to_label"@);
    assert(mand[12].0 == "amount"@);
    assert(mand[13].0 == "amount_usd"@);
    assert(mand[14].0 == "token_price_usd"@);
    assert(mand[15].0 == "contract_address"@);
    assert(mand[16].0 == "symbol"@);
    assert(mand[17].0 == "name"@);
    assert(mand[18].0 == "action"@);
    assert forall|j: int| 0 <= j < mand.len() implies mand[j].0 != "token_address"@ by {
        if j == 0 {
        } else if j == 1 {
        } else if j == 2 {
        } else if j == 3 {
        } else if j == 4 {
        } else if j == 5 {
        } else if j == 6 {
        } else if j == 7 {
        } else if j == 8 {
        } else if j == 9 {
        } else if j == 10 {
        } else if j == 11 {
        } else if j == 12 {
        } else if j == 13 {
        } else if j == 14 {
        } else if j == 15 {
        } else if j == 16 {
        } else if j == 17 {
        } else if j == 18 {
        } else {
        }
    }
    lemma_lookup_absent(mand, "token_address"@);
    assert(spec_decode_bridge(ms) is None);
}

/// An encoded `staking` record lacks `contract_label`, which the `contract_interaction` shape needs.
#[verifier::spinoff_prover]
proof fn lemma_staking_not_contract_interaction(s: StakingV)
    ensures
        spec_decode_contract_interaction(spec_encode_staking(s)) is None,
{
    reveal_strlit("action");
    reveal_strlit("amount");
    reveal_strlit("amount_usd");
    reveal_strlit("block");
    reveal_strlit("chain");
    reveal_strlit("contract_address");
    reveal_strlit("contract_label");
    reveal_strlit("from");
    reveal_strlit("from_label");
    reveal_strlit("index");
    reveal_strlit("name");
    reveal_strlit("symbol");
    reveal_strlit("timestamp");
    reveal_strlit("to");
    reveal_strlit("to_label");
    reveal_strlit("token_price_usd");
    reveal_strlit("tx_hash");
    reveal_strlit("tx_type");
    reveal_strlit("wallet");
    reveal_strlit("wallet_label");
    assert("action"@.len() == 6);
    assert("amount"@.len() == 6);
    assert("amount_usd"@.len() == 10);
    assert("block"@.len() == 5);
    assert("chain"@.len() == 5);
    assert("contract_address"@.len() == 16);
    assert("contract_label"@.len() == 14);
    assert("from"@.len() == 4);
    assert("from_label"@.len() == 10);
    assert("index"@.len() == 5);
    assert("name"@.len() == 4);
    assert("symbol"@.len() == 6);
    assert("timestamp"@.len() == 9);
    assert("to"@.len() == 2);
    assert("to_label"@.len() == 8);
    assert("token_price_usd"@.len() == 15);
    assert("tx_hash"@.len() == 7);
    assert("tx_type"@.len() == 7);
    assert("wallet"@.len() == 6);
    assert("wallet_label"@.len() == 12);
    let ms = spec_encode_staking(s);
    let mand = ms;
    assert(mand.len() == 19);
    assert(mand[0].0 == "wallet"@);
    assert(mand[1].0 == "wallet_label"@);
    assert(mand[2].0 == "tx_hash"@);
    assert(mand[3].0 == "tx_type"@);
    assert(mand[4].0 == "chain"@);
    assert(mand[5].0 == "index"@);
    assert(mand[6].0 == "timestamp"@);
    assert(mand[7].0 == "block"@);
    assert(mand[8].0 == "from"@);
    assert(mand[9].0 == "to"@);
    assert(mand[10].0 == "from_label"@);
    assert(mand[11].0 == "to_label"@);
    assert(mand[12].0 == "amount"@);
    assert(mand[13].0 == "amount_usd"@);
    assert(mand[14].0 == "token_price_usd"@);
    assert(mand[15].0 == "contract_address"@);
    assert(mand[16].0 == "symbol"@);
    assert(mand[17].0 == "name"@);
    assert(mand[18].0 == "action"@);
    assert forall|j: int| 0 <= j < mand.len() implies mand[j].0 != "contract_label"@ by {
        if j == 0 {
        } else if j == 1 {
        } else if j == 2 {
        } else if j == 3 {
        } else if j == 4 {
        } else if j == 5 {
        } else if j == 6 {
        } else if j == 7 {
        } else if j == 8 {
        } else if j == 9 {
        } else if j == 10 {
        } else if j == 11 {
        } else if j == 12 {
        } else if j == 13 {
        } else if j == 14 {
        } else if j == 15 {
        } else if j == 16 {
        } else if j == 17 {
        } else if j == 18 {
        } else {
        }
    }
    lemma_lookup_absent(mand, "contract_label"@);
    assert(spec_decode_contract_interaction(ms) is None);
}

/// An encoded `staking` record lacks `dex`, which the `wrap` shape needs.
#[verifier::spinoff_prover]
proof fn lemma_staking_not_wrap(s: StakingV)
    ensures
        spec_decode_wrap(spec_encode_staking(s)) is None,
{
    reveal_strlit("action");
    reveal_strlit("amount");
    reveal_strlit("amount_usd");
    reveal_strlit("block");
    reveal_strlit("chain");
    reveal_strlit("contract_address");
    reveal_strlit("dex");
    reveal_strlit("from");
    reveal_strlit("from_label");
    reveal_strlit("index");
    reveal_strlit("name");
    reveal_strlit("symbol");
    reveal_strlit("timestamp");
    reveal_strlit("to");
    reveal_strlit("to_label");
    reveal_strlit("token_price_usd");
    reveal_strlit("tx_hash");
    reveal_strlit("tx_type");
    reveal_strlit("wallet");
    reveal_strlit("wallet_label");
    assert("action"@.len() == 6);
    assert("amount"@.len() == 6);
    assert("amount_usd"@.len() == 10);
    assert("block"@.len() == 5);
    assert("chain"@.len() == 5);
    assert("contract_address"@.len() == 16);
    assert("dex"@.len() == 3);
    assert("from"@.len() == 4);
    assert("from_label"@.len() == 10);
    assert("index"@.len() == 5);
    assert("name"@.len() == 4);
    assert("symbol"@.len() == 6);
    assert("timestamp"@.len() == 9);
    assert("to"@.len() == 2);
    assert("to_label"@.len() == 8);
    assert("token_price_usd"@.len() == 15);
    assert("tx_hash"@.len() == 7);
    assert("tx_type"@.len() == 7);
    assert("wallet"@.len() == 6);
    assert("wallet_label"@.len() == 12);
    let ms = spec_encode_staking(s);
    let mand = ms;
    assert(mand.len() == 19);
    assert(mand[0].0 == "wallet"@);
    assert(mand[1].0 == "wallet_label"@);
    assert(mand[2].0 == "tx_hash"@);
    assert(mand[3].0 == "tx_type"@);
    assert(mand[4].0 == "chain"@);
    assert(mand[5].0 == "index"@);
    assert(mand[6].0 == "timestamp"@);
    assert(mand[7].0 == "block"@);
    assert(mand[8].0 == "from"@);
    assert(mand[9].0 == "to"@);
    assert(mand[10].0 == "from_label"@);
    assert(mand[11].0 == "to_label"@);
    assert(mand[12].0 == "amount"@);
    assert(mand[13].0 == "amount_usd"@);
    assert(mand[14].0 == "token_price_usd"@);
    assert(mand[15].0 == "contract_address"@);
    assert(mand[16].0 == "symbol"@);
    assert(mand[17].0 == "name"@);
    assert(mand[18].0 == "action"@);
    assert forall|j: int| 0 <= j < mand.len() implies mand[j].0 != "dex"@ by {
        if j == 0 {
        } else if j == 1 {
        } else if j == 2 {
        } else if j == 3 {
        } else if j == 4 {
        } else if j == 5 {
        } else if j == 6 {
        } else if j == 7 {
        } else if j == 8 {
        } else if j == 9 {
        } else if j == 10 {
        } else if j == 11 {
        } else if j == 12 {
        } else if j == 13 {
        } else if j == 14 {
        } else if j == 15 {
        } else if j == 16 {
        } else if j == 17 {
        } else if j == 18 {
        } else {
        }
    }
    lemma_lookup_absent(mand, "dex"@);
    assert(spec_decode_wrap(ms) is None);
}

/// An encoded `staking` record lacks `nft_address`, which the `sudo_pool` shape needs.
#[verifier::spinoff_prover]
proof fn lemma_staking_not_sudo_pool(s: StakingV)
    ensures
        spec_decode_sudo_pool(spec_encode_staking(s)) is None,
{
    reveal_strlit("action");
    reveal_strlit("amount");
    reveal_strlit("amount_usd");
    reveal_strlit("block");
    reveal_strlit("chain");
    reveal_strlit("contract_address");
    reveal_strlit("from");
    reveal_strlit("from_label");
    reveal_strlit("index");
    reveal_strlit("name");
    reveal_strlit("nft_address");
    reveal_strlit("symbol");
    reveal_strlit("timestamp");
    reveal_strlit("to");
    reveal_strlit("to_label");
    reveal_strlit("token_price_usd");
    reveal_strlit("tx_hash");
    reveal_strlit("tx_type");
    reveal_strlit("wallet");
    reveal_strlit("wallet_label");
    assert("action"@.len() == 6);
    assert("amount"@.len() == 6);
    assert("amount_usd"@.len() == 10);
    assert("block"@.len() == 5);
    assert("chain"@.len() == 5);
    assert("contract_address"@.len() == 16);
    assert("from"@.len() == 4);
    assert("from_label"@.len() == 10);
    assert("index"@.len() == 5);
    assert("name"@.len() == 4);
    assert("nft_address"@.len() == 11);
    assert("symbol"@.len() == 6);
    assert("timestamp"@.len() == 9);
    assert("to"@.len() == 2);
    assert("to_label"@.len() == 8);
    assert("token_price_usd"@.len() == 15);
    assert("tx_hash"@.len() == 7);
    assert("tx_type"@.len() == 7);
    assert("wallet"@.len() == 6);
    assert("wallet_label"@.len() == 12);
    let ms = spec_encode_staking(s);
    let mand = ms;
    assert(mand.len() == 19);
    assert(mand[0].0 == "wallet"@);
    assert(mand[1].0 == "wallet_label"@);
    assert(mand[2].0 == "tx_hash"@);
    assert(mand[3].0 == "tx_type"@);
    assert(mand[4].0 == "chain"@);
    assert(mand[5].0 == "index"@);
    assert(mand[6].0 == "timestamp"@);
    assert(mand[7].0 == "block"@);
    assert(mand[8].0 == "from"@);
    assert(mand[9].0 == "to"@);
    assert(mand[10].0 == "from_label"@);
    assert(mand[11].0 == "to_label"@);
    assert(mand[12].0 == "amount"@);
    assert(mand[13].0 == "amount_usd"@);
    assert(mand[14].0 == "token_price_usd"@);
    assert(mand[15].0 == "contract_address"@);
    assert(mand[16].0 == "symbol"@);
    assert(mand[17].0 == "name"@);
    assert(mand[18].0 == "action"@);
    assert forall|j: int| 0 <= j < mand.len() implies mand[j].0 != "nft_address"@ by {
        if j == 0 {
        } else if j == 1 {
        } else if j == 2 {
        } else if j == 3 {
        } else if j == 4 {
        } else if j == 5 {
        } else if j == 6 {
        } else if j == 7 {
        } else if j == 8 {
        } else if j == 9 {
        } else if j == 10 {
        } else if j == 11 {
        } else if j == 12 {
        } else if j == 13 {
        } else if j == 14 {
        } else if j == 15 {
        } else if j == 16 {
        } else if j == 17 {
        } else if j == 18 {
        } else {
        }
    }
    lemma_lookup_absent(mand, "nft_address"@);
    assert(spec_decode_sudo_pool(ms) is None);
}

/// An encoded `staking` record lacks `dex`, which the `flashloan` shape needs.
#[verifier::spinoff_prover]
proof fn lemma_staking_not_flashloan(s: StakingV)
    ensures
        spec_decode_flashloan(spec_encode_staking(s)) is None,
{
    reveal_strlit("action");
    reveal_strlit("amount");
    reveal_strlit("amount_usd");
    reveal_strlit("block");
    reveal_strlit("chain");
    reveal_strlit("contract_address");
    reveal_strlit("dex");
    reveal_strlit("from");
    reveal_strlit("from_label");
    reveal_strlit("index");
    reveal_strlit("name");
    reveal_strlit("symbol");
    reveal_strlit("timestamp");
    reveal_strlit("to");
    reveal_strlit("to_label");
    reveal_strlit("token_price_usd");
    reveal_strlit("tx_hash");
    reveal_strlit("tx_type");
    reveal_strlit("wallet");
    reveal_strlit("wallet_label");
    assert("action"@.len() == 6);
    assert("amount"@.len() == 6);
    assert("amount_usd"@.len() == 10);
    assert("block"@.len() == 5);
    assert("chain"@.len() == 5);
    assert("contract_address"@.len() == 16);
    assert("dex"@.len() == 3);
    assert("from"@.len() == 4);
    assert("from_label"@.len() == 10);
    assert("index"@.len() == 5);
    assert("name"@.len() == 4);
    assert("symbol"@.len() == 6);
    assert("timestamp"@.len() == 9);
    assert("to"@.len() == 2);
    assert("to_label"@.len() == 8);
    assert("token_price_usd"@.len() == 15);
    assert("tx_hash"@.len() == 7);
    assert("tx_type"@.len() == 7);
    assert("wallet"@.len() == 6);
    assert("wallet_label"@.len() == 12);
    let ms = spec_encode_staking(s);
    let mand = ms;
    assert(mand.len() == 19);
    assert(mand[0].0 == "wallet"@);
    assert(mand[1].0 == "wallet_label"@);
    assert(mand[2].0 == "tx_hash"@);
    assert(mand[3].0 == "tx_type"@);
    assert(mand[4].0 == "chain"@);
    assert(mand[5].0 == "index"@);
    assert(mand[6].0 == "timestamp"@);
    assert(mand[7].0 == "block"@);
    assert(mand[8].0 == "from"@);
    assert(mand[9].0 == "to"@);
    assert(mand[10].0 == "from_label"@);
    assert(mand[11].0 == "to_label"@);
    assert(mand[12].0 == "amount"@);
    assert(mand[13].0 == "amount_usd"@);
    assert(mand[14].0 == "token_price_usd"@);
    assert(mand[15].0 == "contract_address"@);
    assert(mand[16].0 == "symbol"@);
    assert(mand[17].0 == "name"@);
    assert(mand[18].0 == "action"@);
    assert forall|j: int| 0 <= j < mand.len() implies mand[j].0 != "dex"@ by {
        if j == 0 {
        } else if j == 1 {
        } else if j == 2 {
        } else if j == 3 {
        } else if j == 4 {
        } else if j == 5 {
        } else if j == 6 {
        } else if j == 7 {
        } else if j == 8 {
        } else if j == 9 {
        } else if j == 10 {
        } else if j == 11 {
        } else if j == 12 {
        } else if j == 13 {
        } else if j == 14 {
        } else if j == 15 {
        } else if j == 16 {
        } else if j == 17 {
        } else if j == 18 {
        } else {
        }
    }
    lemma_lookup_absent(mand, "dex"@);
    assert(spec_decode_flashloan(ms) is None);
}

/// An encoded `staking` record lacks `address`, which the `reward` shape needs.
#[verifier::spinoff_prover]
proof fn lemma_staking_not_reward(s: StakingV)
    ensures
        spec_decode_reward(spec_encode_staking(s)) is None,
{
    reveal_strlit("action");
    reveal_strlit("address");
    reveal_strlit("amount");
    reveal_strlit("amount_usd");
    reveal_strlit("block");
    reveal_strlit("chain");
    reveal_strlit("contract_address");
    reveal_strlit("from");
    reveal_strlit("from_label");
    reveal_strlit("index");
    reveal_strlit("name");
    reveal_strlit("symbol");
    reveal_strlit("timestamp");
    reveal_strlit("to");
    reveal_strlit("to_label");
    reveal_strlit("token_price_usd");
    reveal_strlit("tx_hash");
    reveal_strlit("tx_type");
    reveal_strlit("wallet");
    reveal_strlit("wallet_label");
    assert("action"@.len() == 6);
    assert("address"@.len() == 7);
    assert("amount"@.len() == 6);
    assert("amount_usd"@.len() == 10);
    assert("block"@.len() == 5);
    assert("chain"@.len() == 5);
    assert("contract_address"@.len() == 16);
    assert("from"@.len() == 4);
    assert("from_label"@.len() == 10);
    assert("index"@.len() == 5);
    assert("name"@.len() == 4);
    assert("symbol"@.len() == 6);
    assert("timestamp"@.len() == 9);
    assert("to"@.len() == 2);
    assert("to_label"@.len() == 8);
    assert("token_price_usd"@.len() == 15);
    assert("tx_hash"@.len() == 7);
    assert("tx_type"@.len() == 7);
    assert("wallet"@.len() == 6);
    assert("wallet_label"@.len() == 12);
    assert("address"@[0] == 'a');
    assert("tx_hash"@[0] == 't');
    assert("tx_type"@[0] == 't');
    let ms = spec_encode_staking(s);
    let mand = ms;
    assert(mand.len() == 19);
    assert(mand[0].0 == "wallet"@);
    assert(mand[1].0 == "wallet_label"@);
    assert(mand[2].0 == "tx_hash"@);
    assert(mand[3].0 == "tx_type"@);
    assert(mand[4].0 == "chain"@);
    assert(mand[5].0 == "index"@);
    assert(mand[6].0 == "timestamp"@);
    assert(mand[7].0 == "block"@);
    assert(mand[8].0 == "from"@);
    assert(mand[9].0 == "to"@);
    assert(mand[10].0 == "from_label"@);
    assert(mand[11].0 == "to_label"@);
    assert(mand[12].0 == "amount"@);
    assert(mand[13].0 == "amount_usd"@);
    assert(mand[14].0 == "token_price_usd"@);
    assert(mand[15].0 == "contract_address"@);
    assert(mand[16].0 == "symbol"@);
    assert(mand[17].0 == "name"@);
    assert(mand[18].0 == "action"@);
    assert forall|j: int| 0 <= j < mand.len() implies mand[j].0 != "address"@ by {
        if j == 0 {
        } else if j == 1 {
        } else if j == 2 {
        } else if j == 3 {
        } else if j == 4 {
        } else if j == 5 {
        } else if j == 6 {
        } else if j == 7 {
        } else if j == 8 {
        } else if j == 9 {
        } else if j == 10 {
        } else if j == 11 {
        } else if j == 12 {
        } else if j == 13 {
        } else if j == 14 {
        } else if j == 15 {
        } else if j == 16 {
        } else if j == 17 {
        } else if j == 18 {
        } else {
        }
    }
    lemma_lookup_absent(mand, "address"@);
    assert(spec_decode_reward(ms) is None);
}

/// Decoding an encoded `staking` record yields it back.
#[verifier::rlimit(50)]
#[verifier::spinoff_prover]
pub proof fn lemma_staking_round_trip(s: StakingV)
    ensures
        spec_decode_item(spec_encode_item(ItemV::Staking(s))) == Some(ItemV::Staking(s)),
{
    reveal_strlit("action");
    reveal_strlit("amount");
    reveal_strlit("amount_usd");
    reveal_strlit("block");
    reveal_strlit("chain");
    reveal_strlit("contract_address");
    reveal_strlit("from");
    reveal_strlit("from_label");
    reveal_strlit("index");
    reveal_strlit("name");
    reveal_strlit("symbol");
    reveal_strlit("timestamp");
    reveal_strlit("to");
    reveal_strlit("to_label");
    reveal_strlit("token_price_usd");
    reveal_strlit("tx_hash");
    reveal_strlit("tx_type");
    reveal_strlit("wallet");
    reveal_strlit("wallet_label");
    assert("action"@.len() == 6);
    assert("amount"@.len() == 6);
    assert("amount_usd"@.len() == 10);
    assert("block"@.len() == 5);
    assert("chain"@.len() == 5);
    assert("contract_address"@.len() == 16);
    assert("from"@.len() == 4);
    assert("from_label"@.len() == 10);
    assert("index"@.len() == 5);
    assert("name"@.len() == 4);
    assert("symbol"@.len() == 6);
    assert("timestamp"@.len() == 9);
    assert("to"@.len() == 2);
    assert("to_label"@.len() == 8);
    assert("token_price_usd"@.len() == 15);
    assert("tx_hash"@.len() == 7);
    assert("tx_type"@.len() == 7);
    assert("wallet"@.len() == 6);
    assert("wallet_label"@.len() == 12);
    assert("action"@[0] == 'a');
    assert("action"@[1] == 'c');
    assert("amount"@[0] == 'a');
    assert("amount"@[1] == 'm');
    assert("amount_usd"@[0] == 'a');
    assert("block"@[0] == 'b');
    assert("chain"@[0] == 'c');
    assert("from"@[0] == 'f');
    assert("from_label"@[0] == 'f');
    assert("index"@[0] == 'i');
    assert("name"@[0] == 'n');
    assert("symbol"@[0] == 's');
    assert("tx_hash"@[3] == 'h');
    assert("tx_type"@[3] == 't');
    assert("wallet"@[0] == 'w');
    let ms = spec_encode_staking(s);
    let mand = ms;
    assert(mand.len() == 19);
    assert(mand[0].0 == "wallet"@);
    assert(mand[1].0 == "wallet_label"@);
    assert(mand[2].0 == "tx_hash"@);
    assert(mand[3].0 == "tx_type"@);
    assert(mand[4].0 == "chain"@);
    assert(mand[5].0 == "index"@);
    assert(mand[6].0 == "timestamp"@);
    assert(mand[7].0 == "block"@);
    assert(mand[8].0 == "from"@);
    assert(mand[9].0 == "to"@);
    assert(mand[10].0 == "from_label"@);
    assert(mand[11].0 == "to_label"@);
    assert(mand[12].0 == "amount"@);
    assert(mand[13].0 == "amount_usd"@);
    assert(mand[14].0 == "token_price_usd"@);
    assert(mand[15].0 == "contract_address"@);
    assert(mand[16].0 == "symbol"@);
    assert(mand[17].0 == "name"@);
    assert(mand[18].0 == "action"@);
    lemma_lookup_first(mand, 0);
    lemma_lookup_first(mand, 1);
    lemma_lookup_first(mand, 2);
    lemma_lookup_first(mand, 3);
    lemma_lookup_first(mand, 4);
    lemma_lookup_first(mand, 5);
    lemma_lookup_first(mand, 6);
    lemma_lookup_first(mand, 7);
    lemma_lookup_first(mand, 8);
    lemma_lookup_first(mand, 9);
    lemma_lookup_first(mand, 10);
    lemma_lookup_first(mand, 11);
    lemma_lookup_first(mand, 12);
    lemma_lookup_first(mand, 13);
    lemma_lookup_first(mand, 14);
    lemma_lookup_first(mand, 15);
    lemma_lookup_first(mand, 16);
    lemma_lookup_first(mand, 17);
    lemma_lookup_first(mand, 18);
    lemma_staking_not_swap(s);
    lemma_staking_not_lp(s);
    lemma_staking_not_transfer(s);
    lemma_staking_not_lending(s);
    lemma_staking_not_nft_mint(s);
    lemma_staking_not_nft_trade(s);
    lemma_staking_not_nft_transfer(s);
    lemma_staking_not_nft_lending(s);
    lemma_staking_not_bridge(s);
    lemma_staking_not_contract_interaction(s);
    lemma_staking_not_wrap(s);
    lemma_staking_not_sudo_pool(s);
    lemma_staking_not_flashloan(s);
    lemma_staking_not_reward(s);
    assert(spec_decode_staking(ms) == Some(StakingV {
        wallet: s.wallet,
        wallet_label: s.wallet_label,
        tx_hash: s.tx_hash,
        tx_type: s.tx_type,
        chain: s.chain,
        index: s.index,
        timestamp: s.timestamp,
        block: s.block,
        from: s.from,
        to: s.to,
        from_label: s.from_label,
        to_label: s.to_label,
        amount: s.amount,
        amount_usd: s.amount_usd,
        token_price_usd: s.token_price_usd,
        contract_address: s.contract_address,
        symbol: s.symbol,
        name: s.name,
        action: s.action,
    }));
}

/// The `position_size` member of an encoded `perp` record holds the field.
#[verifier::rlimit(50)]
#[verifier::spinoff_prover]
proof fn lemma_perp_position_size_member(s: PerpV)
    ensures
        spec_opt_num_field(spec_encode_perp(s), "position_size"@) == Some(s.position_size),
{
    reveal_strlit("action");
    reveal_strlit("amount_usd");
    reveal_strlit("average_price");
    reveal_strlit("base_token_address");
    reveal_strlit("base_token_amount");
    reveal_strlit("base_token_symbol");
    reveal_strlit("block");
    reveal_strlit("chain");
    reveal_strlit("dex");
    reveal_strlit("from");
    reveal_strlit("index");
    reveal_strlit("is_nft_perp");
    reveal_strlit("leverage");
    reveal_strlit("liquidation");
    reveal_strlit("liquidation_price");
    reveal_strlit("perp_details");
    reveal_strlit("position_size");
    reveal_strlit("position_size_usd");
    reveal_strlit("realized_pnl");
    reveal_strlit("timestamp");
    reveal_strlit("to");
    reveal_strlit("token0_address");
    reveal_strlit("token0_amount");
    reveal_strlit("token0_amount_usd");
    reveal_strlit("token0_icon_link");
    reveal_strlit("token0_name");
    reveal_strlit("token0_price_usd");
    reveal_strlit("token0_symbol");
    reveal_strlit("token1_address");
    reveal_strlit("token1_amount");
    reveal_strlit("token1_amount_usd");
    reveal_strlit("token1_icon_link");
    reveal_strlit("token1_name");
    reveal_strlit("token1_price_usd");
    reveal_strlit("token1_symbol");
    reveal_strlit("trade_direction");
    reveal_strlit("tx_hash");
    reveal_strlit("tx_type");
    reveal_strlit("unrealized_pnl");
    reveal_strlit("wallet");
    reveal_strlit("wallet_label");
    assert("action"@.len() == 6);
    assert("amount_usd"@.len() == 10);
    assert("average_price"@.len() == 13);
    assert("base_token_address"@.len() == 18);
    assert("base_token_amount"@.len() == 17);
    assert("base_token_symbol"@.len() == 17);
    assert("block"@.len() == 5);
    assert("chain"@.len() == 5);
    assert("dex"@.len() == 3);
    assert("from"@.len() == 4);
    assert("index"@.len() == 5);
    assert("is_nft_perp"@.len() == 11);
    assert("leverage"@.len() == 8);
    assert("liquidation"@.len() == 11);
    assert("liquidation_price"@.len() == 17);
    assert("perp_details"@.len() == 12);
    assert("position_size"@.len() == 13);
    assert("position_size_usd"@.len() == 17);
    assert("realized_pnl"@.len() == 12);
    assert("timestamp"@.len() == 9);
    assert("to"@.len() == 2);
    assert("token0_address"@.len() == 14);
    assert("token0_amount"@.len() == 13);
    assert("token0_amount_usd"@.len() == 17);
    assert("token0_icon_link"@.len() == 16);
    assert("token0_name"@.len() == 11);
    assert("token0_price_usd"@.len() == 16);
    assert("token0_symbol"@.len() == 13);
    assert("token1_address"@.len() == 14);
    assert("token1_amount"@.len() == 13);
    assert("token1_amount_usd"@.len() == 17);
    assert("token1_icon_link"@.len() == 16);
    assert("token1_name"@.len() == 11);
    assert("token1_price_usd"@.len() == 16);
    assert("token1_symbol"@.len() == 13);
    assert("trade_direction"@.len() == 15);
    assert("tx_hash"@.len() == 7);
    assert("tx_type"@.len() == 7);
    assert("unrealized_pnl"@.len() == 14);
    assert("wallet"@.len() == 6);
    assert("wallet_label"@.len() == 12);
    assert("average_price"@[0] == 'a');
    assert("position_size"@[0] == 'p');
    assert("token0_amount"@[0] == 't');
    assert("token0_symbol"@[0] == 't');
    assert("token1_amount"@[0] == 't');
    assert("token1_symbol"@[0] == 't');
    let ms = spec_encode_perp(s);
    let mand: Seq<(Seq<char>, JsonVal)> = seq![
        ("wallet"@, JsonVal::Str(s.wallet)),
        ("wallet_label"@, JsonVal::Str(s.wallet_label)),
        ("tx_hash"@, JsonVal::Str(s.tx_hash)),
        ("tx_type"@, JsonVal::Str(s.tx_type)),
        ("chain"@, JsonVal::Str(s.chain)),
        ("index"@, JsonVal::Num(JsonNumber::PosInt(s.index as u64))),
        ("timestamp"@, JsonVal::Num(JsonNumber::PosInt(s.timestamp))),
        ("block"@, JsonVal::Num(JsonNumber::PosInt(s.block))),
        ("action"@, JsonVal::Str(s.action)),
        ("amount_usd"@, JsonVal::Num(s.amount_usd)),
        ("average_price"@, JsonVal::Num(s.average_price)),
        ("base_token_address"@, JsonVal::Str(s.base_token_address)),
        ("base_token_amount"@, JsonVal::Num(s.base_token_amount)),
        ("base_token_symbol"@, JsonVal::Str(s.base_token_symbol)),
        ("dex"@, JsonVal::Str(s.dex)),
        ("from"@, JsonVal::Str(s.from)),
        ("liquidation"@, JsonVal::Bool(s.liquidation)),
        ("liquidation_price"@, JsonVal::Num(s.liquidation_price)),
        ("to"@, JsonVal::Str(s.to)),
        ("trade_direction"@, JsonVal::Str(s.trade_direction)),
        ("perp_details"@, JsonVal::Str(s.perp_details)),
        ("token0_address"@, JsonVal::Str(s.token0_address)),
        ("token0_amount"@, JsonVal::Num(s.token0_amount)),
        ("token0_amount_usd"@, JsonVal::Num(s.token0_amount_usd)),
        ("token0_name"@, JsonVal::Str(s.token0_name)),
        ("token0_price_usd"@, JsonVal::Num(s.token0_price_usd)),
        ("token0_symbol"@, JsonVal::Str(s.token0_symbol)),
        ("token0_icon_link"@, JsonVal::Str(s.token0_icon_link)),
        ("token1_address"@, JsonVal::Str(s.token1_address)),
        ("token1_amount"@, JsonVal::Num(s.token1_amount)),
        ("token1_amount_usd"@, JsonVal::Num(s.token1_amount_usd)),
        ("token1_name"@, JsonVal::Str(s.token1_name)),
        ("token1_price_usd"@, JsonVal::Num(s.token1_price_usd)),
        ("token1_symbol"@, JsonVal::Str(s.token1_symbol)),
        ("token1_icon_link"@, JsonVal::Str(s.token1_icon_link)),
        ("realized_pnl"@, JsonVal::Num(s.realized_pnl)),
        ("is_nft_perp"@, JsonVal::Bool(s.is_nft_perp)),
    ];
    let ov_position_size: Option<JsonVal> = match s.position_size { Option::Some(x) => Option::Some(JsonVal::Num(x)), Option::None => Option::None };
    let seg_position_size = opt_member("position_size"@, ov_position_size);
    let ov_position_size_usd: Option<JsonVal> = match s.position_size_usd { Option::Some(x) => Option::Some(JsonVal::Num(x)), Option::None => Option::None };
    let seg_position_size_usd = opt_member("position_size_usd"@, ov_position_size_usd);
    let ov_leverage: Option<JsonVal> = match s.leverage { Option::Some(x) => Option::Some(JsonVal::Num(x)), Option::None => Option::None };
    let seg_leverage = opt_member("leverage"@, ov_leverage);
    let ov_unrealized_pnl: Option<JsonVal> = match s.unrealized_pnl { Option::Some(x) => Option::Some(JsonVal::Num(x)), Option::None => Option::None };
    let seg_unrealized_pnl = opt_member("unrealized_pnl"@, ov_unrealized_pnl);
    let tail_4 = seg_unrealized_pnl;
    let tail_3 = seg_leverage + tail_4;
    let tail_2 = seg_position_size_usd + tail_3;
    let tail_1 = seg_position_size + tail_2;
    assert(mand.len() == 37);
    assert(mand[0].0 == "wallet"@);
    assert(mand[1].0 == "wallet_label"@);
    assert(mand[2].0 == "tx_hash"@);
    assert(mand[3].0 == "tx_type"@);
    assert(mand[4].0 == "chain"@);
    assert(mand[5].0 == "index"@);
    assert(mand[6].0 == "timestamp"@);
    assert(mand[7].0 == "block"@);
    assert(mand[8].0 == "action"@);
    assert(mand[9].0 == "amount_usd"@);
    assert(mand[10].0 == "average_price"@);
    assert(mand[11].0 == "base_token_address"@);
    assert(mand[12].0 == "base_token_amount"@);
    assert(mand[13].0 == "base_token_symbol"@);
    assert(mand[14].0 == "dex"@);
    assert(mand[15].0 == "from"@);
    assert(mand[16].0 == "liquidation"@);
    assert(mand[17].0 == "liquidation_price"@);
    assert(mand[18].0 == "to"@);
    assert(mand[19].0 == "trade_direction"@);
    assert(mand[20].0 == "perp_details"@);
    assert(mand[21].0 == "token0_address"@);
    assert(mand[22].0 == "token0_amount"@);
    assert(mand[23].0 == "token0_amount_usd"@);
    assert(mand[24].0 == "token0_name"@);
    assert(mand[25].0 == "token0_price_usd"@);
    assert(mand[26].0 == "token0_symbol"@);
    assert(mand[27].0 == "token0_icon_link"@);
    assert(mand[28].0 == "token1_address"@);
    assert(mand[29].0 == "token1_amount"@);
    assert(mand[30].0 == "token1_amount_usd"@);
    assert(mand[31].0 == "token1_name"@);
    assert(mand[32].0 == "token1_price_usd"@);
    assert(mand[33].0 == "token1_symbol"@);
    assert(mand[34].0 == "token1_icon_link"@);
    assert(mand[35].0 == "realized_pnl"@);
    assert(mand[36].0 == "is_nft_perp"@);
    assert forall|j: int| 0 <= j < mand.len() implies mand[j].0 != "position_size"@ by {
        if j == 0 {
        } else if j == 1 {
        } else if j == 2 {
        } else if j == 3 {
        } else if j == 4 {
        } else if j == 5 {
        } else if j == 6 {
        } else if j == 7 {
        } else if j == 8 {
        } else if j == 9 {
        } else if j == 10 {
        } else if j == 11 {
        } else if j == 12 {
        } else if j == 13 {
        } else if j == 14 {
        } else if j == 15 {
        } else if j == 16 {
        } else if j == 17 {
        } else if j == 18 {
        } else if j == 19 {
        } else if j == 20 {
        } else if j == 21 {
        } else if j == 22 {
        } else if j == 23 {
        } else if j == 24 {
        } else if j == 25 {
        } else if j == 26 {
        } else if j == 27 {
        } else if j == 28 {
        } else if j == 29 {
        } else if j == 30 {
        } else if j == 31 {
        } else if j == 32 {
        } else if j == 33 {
        } else if j == 34 {
        } else if j == 35 {
        } else if j == 36 {
        } else {
        }
    }
    lemma_lookup_absent(mand, "position_size"@);
    lemma_lookup_concat_right(mand, tail_1, "position_size"@);
    lemma_opt_member_lookup("position_size"@, ov_position_size, "position_size"@);
    match s.position_size {
        Option::Some(x) => {
            lemma_lookup_concat_left(seg_position_size, tail_2, "position_size"@);
            assert(ms == mand + tail_1);
            assert(spec_opt_num_field(spec_encode_perp(s), "position_size"@) == Some(s.position_size));
        },
        Option::None => {
            lemma_lookup_concat_right(seg_position_size, tail_2, "position_size"@);
            lemma_opt_member_lookup("position_size_usd"@, ov_position_size_usd, "position_size"@);
            lemma_lookup_concat_right(seg_position_size_usd, tail_3, "position_size"@);
            lemma_opt_member_lookup("leverage"@, ov_leverage, "position_size"@);
            lemma_lookup_concat_right(seg_leverage, tail_4, "position_size"@);
            lemma_opt_member_lookup("unrealized_pnl"@, ov_unrealized_pnl, "position_size"@);
            assert(ms == mand + tail_1);
            assert(spec_opt_num_field(spec_encode_perp(s), "position_size"@) == Some(s.position_size));
        },
    }
}

/// The `position_size_usd` member of an encoded `perp` record holds the field.
#[verifier::rlimit(50)]
#[verifier::spinoff_prover]
proof fn lemma_perp_position_size_usd_member(s: PerpV)
    ensures
        spec_opt_num_field(spec_encode_perp(s), "position_size_usd"@) == Some(s.position_size_usd),
{
    reveal_strlit("action");
    reveal_strlit("amount_usd");
    reveal_strlit("average_price");
    reveal_strlit("base_token_address");
    reveal_strlit("base_token_amount");
    reveal_strlit("base_token_symbol");
    reveal_strlit("block");
    reveal_strlit("chain");
    reveal_strlit("dex");
    reveal_strlit("from");
    reveal_strlit("index");
    reveal_strlit("is_nft_perp");
    reveal_strlit("leverage");
    reveal_strlit("liquidation");
    reveal_strlit("liquidation_price");
    reveal_strlit("perp_details");
    reveal_strlit("position_size");
    reveal_strlit("position_size_usd");
    reveal_strlit("realized_pnl");
    reveal_strlit("timestamp");
    reveal_strlit("to");
    reveal_strlit("token0_address");
    reveal_strlit("token0_amount");
    reveal_strlit("token0_amount_usd");
    reveal_strlit("token0_icon_link");
    reveal_strlit("token0_name");
    reveal_strlit("token0_price_usd");
    reveal_strlit("token0_symbol");
    reveal_strlit("token1_address");
    reveal_strlit("token1_amount");
    reveal_strlit("token1_amount_usd");
    reveal_strlit("token1_icon_link");
    reveal_strlit("token1_name");
    reveal_strlit("token1_price_usd");
    reveal_strlit("token1_symbol");
    reveal_strlit("trade_direction");
    reveal_strlit("tx_hash");
    reveal_strlit("tx_type");
    reveal_strlit("unrealized_pnl");
    reveal_strlit("wallet");
    reveal_strlit("wallet_label");
    assert("action"@.len() == 6);
    assert("amount_usd"@.len() == 10);
    assert("average_price"@.len() == 13);
    assert("base_token_address"@.len() == 18);
    assert("base_token_amount"@.len() == 17);
    assert("base_token_symbol"@.len() == 17);
    assert("block"@.len() == 5);
    assert("chain"@.len() == 5);
    assert("dex"@.len() == 3);
    assert("from"@.len() == 4);
    assert("index"@.len() == 5);
    assert("is_nft_perp"@.len() == 11);
    assert("leverage"@.len() == 8);
    assert("liquidation"@.len() == 11);
    assert("liquidation_price"@.len() == 17);
    assert("perp_details"@.len() == 12);
    assert("position_size"@.len() == 13);
    assert("position_size_usd"@.len() == 17);
    assert("realized_pnl"@.len() == 12);
    assert("timestamp"@.len() == 9);
    assert("to"@.len() == 2);
    assert("token0_address"@.len() == 14);
    assert("token0_amount"@.len() == 13);
    assert("token0_amount_usd"@.len() == 17);
    assert("token0_icon_link"@.len() == 16);
    assert("token0_name"@.len() == 11);
    assert("token0_price_usd"@.len() == 16);
    assert("token0_symbol"@.len() == 13);
    assert("token1_address"@.len() == 14);
    assert("token1_amount"@.len() == 13);
    assert("token1_amount_usd"@.len() == 17);
    assert("token1_icon_link"@.len() == 16);
    assert("token1_name"@.len() == 11);
    assert("token1_price_usd"@.len() == 16);
    assert("token1_symbol"@.len() == 13);
    assert("trade_direction"@.len() == 15);
    assert("tx_hash"@.len() == 7);
    assert("tx_type"@.len() == 7);
    assert("unrealized_pnl"@.len() == 14);
    assert("wallet"@.len() == 6);
    assert("wallet_label"@.len() == 12);
    assert("base_token_amount"@[0] == 'b');
    assert("base_token_symbol"@[0] == 'b');
    assert("liquidation_price"@[0] == 'l');
    assert("position_size_usd"@[0] == 'p');
    assert("token0_amount_usd"@[0] == 't');
    assert("token1_amount_usd"@[0] == 't');
    let ms = spec_encode_perp(s);
    let mand: Seq<(Seq<char>, JsonVal)> = seq![
        ("wallet"@, JsonVal::Str(s.wallet)),
        ("wallet_label"@, JsonVal::Str(s.wallet_label)),
        ("tx_hash"@, JsonVal::Str(s.tx_hash)),
        ("tx_type"@, JsonVal::Str(s.tx_type)),
        ("chain"@, JsonVal::Str(s.chain)),
        ("index"@, JsonVal::Num(JsonNumber::PosInt(s.index as u64))),
        ("timestamp"@, JsonVal::Num(JsonNumber::PosInt(s.timestamp))),
        ("block"@, JsonVal::Num(JsonNumber::PosInt(s.block))),
        ("action"@, JsonVal::Str(s.action)),
        ("amount_usd"@, JsonVal::Num(s.amount_usd)),
        ("average_price"@, JsonVal::Num(s.average_price)),
        ("base_token_address"@, JsonVal::Str(s.base_token_address)),
        ("base_token_amount"@, JsonVal::Num(s.base_token_amount)),
        ("base_token_symbol"@, JsonVal::Str(s.base_token_symbol)),
        ("dex"@, JsonVal::Str(s.dex)),
        ("from"@, JsonVal::Str(s.from)),
        ("liquidation"@, JsonVal::Bool(s.liquidation)),
        ("liquidation_price"@, JsonVal::Num(s.liquidation_price)),
        ("to"@, JsonVal::Str(s.to)),
        ("trade_direction"@, JsonVal::Str(s.trade_direction)),
        ("perp_details"@, JsonVal::Str(s.perp_details)),
        ("token0_address"@, JsonVal::Str(s.token0_address)),
        ("token0_amount"@, JsonVal::Num(s.token0_amount)),
        ("token0_amount_usd"@, JsonVal::Num(s.token0_amount_usd)),
        ("token0_name"@, JsonVal::Str(s.token0_name)),
        ("token0_price_usd"@, JsonVal::Num(s.token0_price_usd)),
        ("token0_symbol"@, JsonVal::Str(s.token0_symbol)),
        ("token0_icon_link"@, JsonVal::Str(s.token0_icon_link)),
        ("token1_address"@, JsonVal::Str(s.token1_address)),
        ("token1_amount"@, JsonVal::Num(s.token1_amount)),
        ("token1_amount_usd"@, JsonVal::Num(s.token1_amount_usd)),
        ("token1_name"@, JsonVal::Str(s.token1_name)),
        ("token1_price_usd"@, JsonVal::Num(s.token1_price_usd)),
        ("token1_symbol"@, JsonVal::Str(s.token1_symbol)),
        ("token1_icon_link"@, JsonVal::Str(s.token1_icon_link)),
        ("realized_pnl"@, JsonVal::Num(s.realized_pnl)),
        ("is_nft_perp"@, JsonVal::Bool(s.is_nft_perp)),
    ];
    let ov_position_size: Option<JsonVal> = match s.position_size { Option::Some(x) => Option::Some(JsonVal::Num(x)), Option::None => Option::None };
    let seg_position_size = opt_member("position_size"@, ov_position_size);
    let ov_position_size_usd: Option<JsonVal> = match s.position_size_usd { Option::Some(x) => Option::Some(JsonVal::Num(x)), Option::None => Option::None };
    let seg_position_size_usd = opt_member("position_size_usd"@, ov_position_size_usd);
    let ov_leverage: Option<JsonVal> = match s.leverage { Option::Some(x) => Option::Some(JsonVal::Num(x)), Option::None => Option::None };
    let seg_leverage = opt_member("leverage"@, ov_leverage);
    let ov_unrealized_pnl: Option<JsonVal> = match s.unrealized_pnl { Option::Some(x) => Option::Some(JsonVal::Num(x)), Option::None => Option::None };
    let seg_unrealized_pnl = opt_member("unrealized_pnl"@, ov_unrealized_pnl);
    let tail_4 = seg_unrealized_pnl;
    let tail_3 = seg_leverage + tail_4;
    let tail_2 = seg_position_size_usd + tail_3;
    let tail_1 = seg_position_size + tail_2;
    assert(mand.len() == 37);
    assert(mand[0].0 == "wallet"@);
    assert(mand[1].0 == "wallet_label"@);
    assert(mand[2].0 == "tx_hash"@);
    assert(mand[3].0 == "tx_type"@);
    assert(mand[4].0 == "chain"@);
    assert(mand[5].0 == "index"@);
    assert(mand[6].0 == "timestamp"@);
    assert(mand[7].0 == "block"@);
    assert(mand[8].0 == "action"@);
    assert(mand[9].0 == "amount_usd"@);
    assert(mand[10].0 == "average_price"@);
    assert(mand[11].0 == "base_token_address"@);
    assert(mand[12].0 == "base_token_amount"@);
    assert(mand[13].0 == "base_token_symbol"@);
    assert(mand[14].0 == "dex"@);
    assert(mand[15].0 == "from"@);
    assert(mand[16].0 == "liquidation"@);
    assert(mand[17].0 == "liquidation_price"@);
    assert(mand[18].0 == "to"@);
    assert(mand[19].0 == "trade_direction"@);
    assert(mand[20].0 == "perp_details"@);
    assert(mand[21].0 == "token0_address"@);
    assert(mand[22].0 == "token0_amount"@);
    assert(mand[23].0 == "token0_amount_usd"@);
    assert(mand[24].0 == "token0_name"@);
    assert(mand[25].0 == "token0_price_usd"@);
    assert(mand[26].0 == "token0_symbol"@);
    assert(mand[27].0 == "token0_icon_link"@);
    assert(mand[28].0 == "token1_address"@);
    assert(mand[29].0 == "token1_amount"@);
    assert(mand[30].0 == "token1_amount_usd"@);
    assert(mand[31].0 == "token1_name"@);
    assert(mand[32].0 == "token1_price_usd"@);
    assert(mand[33].0 == "token1_symbol"@);
    assert(mand[34].0 == "token1_icon_link"@);
    assert(mand[35].0 == "realized_pnl"@);
    assert(mand[36].0 == "is_nft_perp"@);
    assert forall|j: int| 0 <= j < mand.len() implies mand[j].0 != "position_size_usd"@ by {
        if j == 0 {
        } else if j == 1 {
        } else if j == 2 {
        } else if j == 3 {
        } else if j == 4 {
        } else if j == 5 {
        } else if j == 6 {
        } else if j == 7 {
        } else if j == 8 {
        } else if j == 9 {
        } else if j == 10 {
        } else if j == 11 {
        } else if j == 12 {
        } else if j == 13 {
        } else if j == 14 {
        } else if j == 15 {
        } else if j == 16 {
        } else if j == 17 {
        } else if j == 18 {
        } else if j == 19 {
        } else if j == 20 {
        } else if j == 21 {
        } else if j == 22 {
        } else if j == 23 {
        } else if j == 24 {
        } else if j == 25 {
        } else if j == 26 {
        } else if j == 27 {
        } else if j == 28 {
        } else if j == 29 {
        } else if j == 30 {
        } else if j == 31 {
        } else if j == 32 {
        } else if j == 33 {
        } else if j == 34 {
        } else if j == 35 {
        } else if j == 36 {
        } else {
        }
    }
    lemma_lookup_absent(mand, "position_size_usd"@);
    lemma_lookup_concat_right(mand, tail_1, "position_size_usd"@);
    lemma_opt_member_lookup("position_size"@, ov_position_size, "position_size_usd"@);
    lemma_lookup_concat_right(seg_position_size, tail_2, "position_size_usd"@);
    lemma_opt_member_lookup("position_size_usd"@, ov_position_size_usd, "position_size_usd"@);
    match s.position_size_usd {
        Option::Some(x) => {
            lemma_lookup_concat_left(seg_position_size_usd, tail_3, "position_size_usd"@);
            assert(ms == mand + tail_1);
            assert(spec_opt_num_field(spec_encode_perp(s), "position_size_usd"@) == Some(s.position_size_usd));
        },
        Option::None => {
            lemma_lookup_concat_right(seg_position_size_usd, tail_3, "position_size_usd"@);
            lemma_opt_member_lookup("leverage"@, ov_leverage, "position_size_usd"@);
            lemma_lookup_concat_right(seg_leverage, tail_4, "position_size_usd"@);
            lemma_opt_member_lookup("unrealized_pnl"@, ov_unrealized_pnl, "position_size_usd"@);
            assert(ms == mand + tail_1);
            assert(spec_opt_num_field(spec_encode_perp(s), "position_size_usd"@) == Some(s.position_size_usd));
        },
    }
}

/// The `leverage` member of an encoded `perp` record holds the field.
#[verifier::rlimit(50)]
#[verifier::spinoff_prover]
proof fn lemma_perp_leverage_member(s: PerpV)
    ensures
        spec_opt_num_field(spec_encode_perp(s), "leverage"@) == Some(s.leverage),
{
    reveal_strlit("action");
    reveal_strlit("amount_usd");
    reveal_strlit("average_price");
    reveal_strlit("base_token_address");
    reveal_strlit("base_token_amount");
    reveal_strlit("base_token_symbol");
    reveal_strlit("block");
    reveal_strlit("chain");
    reveal_strlit("dex");
    reveal_strlit("from");
    reveal_strlit("index");
    reveal_strlit("is_nft_perp");
    reveal_strlit("leverage");
    reveal_strlit("liquidation");
    reveal_strlit("liquidation_price");
    reveal_strlit("perp_details");
    reveal_strlit("position_size");
    reveal_strlit("position_size_usd");
    reveal_strlit("realized_pnl");
    reveal_strlit("timestamp");
    reveal_strlit("to");
    reveal_strlit("token0_address");
    reveal_strlit("token0_amount");
    reveal_strlit("token0_amount_usd");
    reveal_strlit("token0_icon_link");
    reveal_strlit("token0_name");
    reveal_strlit("token0_price_usd");
    reveal_strlit("token0_symbol");
    reveal_strlit("token1_address");
    reveal_strlit("token1_amount");
    reveal_strlit("token1_amount_usd");
    reveal_strlit("token1_icon_link");
    reveal_strlit("token1_name");
    reveal_strlit("token1_price_usd");
    reveal_strlit("token1_symbol");
    reveal_strlit("trade_direction");
    reveal_strlit("tx_hash");
    reveal_strlit("tx_type");
    reveal_strlit("unrealized_pnl");
    reveal_strlit("wallet");
    reveal_strlit("wallet_label");
    assert("action"@.len() == 6);
    assert("amount_usd"@.len() == 10);
    assert("average_price"@.len() == 13);
    assert("base_token_address"@.len() == 18);
    assert("base_token_amount"@.len() == 17);
    assert("base_token_symbol"@.len() == 17);
    assert("block"@.len() == 5);
    assert("chain"@.len() == 5);
    assert("dex"@.len() == 3);
    assert("from"@.len() == 4);
    assert("index"@.len() == 5);
    assert("is_nft_perp"@.len() == 11);
    assert("leverage"@.len() == 8);
    assert("liquidation"@.len() == 11);
    assert("liquidation_price"@.len() == 17);
    assert("perp_details"@.len() == 12);
    assert("position_size"@.len() == 13);
    assert("position_size_usd"@.len() == 17);
    assert("realized_pnl"@.len() == 12);
    assert("timestamp"@.len() == 9);
    assert("to"@.len() == 2);
    assert("token0_address"@.len() == 14);
    assert("token0_amount"@.len() == 13);
    assert("token0_amount_usd"@.len() == 17);
    assert("token0_icon_link"@.len() == 16);
    assert("token0_name"@.len() == 11);
    assert("token0_price_usd"@.len() == 16);
    assert("token0_symbol"@.len() == 13);
    assert("token1_address"@.len() == 14);
    assert("token1_amount"@.len() == 13);
    assert("token1_amount_usd"@.len() == 17);
    assert("token1_icon_link"@.len() == 16);
    assert("token1_name"@.len() == 11);
    assert("token1_price_usd"@.len() == 16);
    assert("token1_symbol"@.len() == 13);
    assert("trade_direction"@.len() == 15);
    assert("tx_hash"@.len() == 7);
    assert("tx_type"@.len() == 7);
    assert("unrealized_pnl"@.len() == 14);
    assert("wallet"@.len() == 6);
    assert("wallet_label"@.len() == 12);
    let ms = spec_encode_perp(s);
    let mand: Seq<(Seq<char>, JsonVal)> = seq![
        ("wallet"@, JsonVal::Str(s.wallet)),
        ("wallet_label"@, JsonVal::Str(s.wallet_label)),
        ("tx_hash"@, JsonVal::Str(s.tx_hash)),
        ("tx_type"@, JsonVal::Str(s.tx_type)),
        ("chain"@, JsonVal::Str(s.chain)),
        ("index"@, JsonVal::Num(JsonNumber::PosInt(s.index as u64))),
        ("timestamp"@, JsonVal::Num(JsonNumber::PosInt(s.timestamp))),
        ("block"@, JsonVal::Num(JsonNumber::PosInt(s.block))),
        ("action"@, JsonVal::Str(s.action)),
        ("amount_usd"@, JsonVal::Num(s.amount_usd)),
        ("average_price"@, JsonVal::Num(s.average_price)),
        ("base_token_address"@, JsonVal::Str(s.base_token_address)),
        ("base_token_amount"@, JsonVal::Num(s.base_token_amount)),
        ("base_token_symbol"@, JsonVal::Str(s.base_token_symbol)),
        ("dex"@, JsonVal::Str(s.dex)),
        ("from"@, JsonVal::Str(s.from)),
        ("liquidation"@, JsonVal::Bool(s.liquidation)),
        ("liquidation_price"@, JsonVal::Num(s.liquidation_price)),
        ("to"@, JsonVal::Str(s.to)),
        ("trade_direction"@, JsonVal::Str(s.trade_direction)),
        ("perp_details"@, JsonVal::Str(s.perp_details)),
        ("token0_address"@, JsonVal::Str(s.token0_address)),
        ("token0_amount"@, JsonVal::Num(s.token0_amount)),
        ("token0_amount_usd"@, JsonVal::Num(s.token0_amount_usd)),
        ("token0_name"@, JsonVal::Str(s.token0_name)),
        ("token0_price_usd"@, JsonVal::Num(s.token0_price_usd)),
        ("token0_symbol"@, JsonVal::Str(s.token0_symbol)),
        ("token0_icon_link"@, JsonVal::Str(s.token0_icon_link)),
        ("token1_address"@, JsonVal::Str(s.token1_address)),
        ("token1_amount"@, JsonVal::Num(s.token1_amount)),
        ("token1_amount_usd"@, JsonVal::Num(s.token1_amount_usd)),
        ("token1_name"@, JsonVal::Str(s.token1_name)),
        ("token1_price_usd"@, JsonVal::Num(s.token1_price_usd)),
        ("token1_symbol"@, JsonVal::Str(s.token1_symbol)),
        ("token1_icon_link"@, JsonVal::Str(s.token1_icon_link)),
        ("realized_pnl"@, JsonVal::Num(s.realized_pnl)),
        ("is_nft_perp"@, JsonVal::Bool(s.is_nft_perp)),
    ];
    let ov_position_size: Option<JsonVal> = match s.position_size { Option::Some(x) => Option::Some(JsonVal::Num(x)), Option::None => Option::None };
    let seg_position_size = opt_member("position_size"@, ov_position_size);
    let ov_position_size_usd: Option<JsonVal> = match s.position_size_usd { Option::Some(x) => Option::Some(JsonVal::Num(x)), Option::None => Option::None };
    let seg_position_size_usd = opt_member("position_size_usd"@, ov_position_size_usd);
    let ov_leverage: Option<JsonVal> = match s.leverage { Option::Some(x) => Option::Some(JsonVal::Num(x)), Option::None => Option::None };
    let seg_leverage = opt_member("leverage"@, ov_leverage);
    let ov_unrealized_pnl: Option<JsonVal> = match s.unrealized_pnl { Option::Some(x) => Option::Some(JsonVal::Num(x)), Option::None => Option::None };
    let seg_unrealized_pnl = opt_member("unrealized_pnl"@, ov_unrealized_pnl);
    let tail_4 = seg_unrealized_pnl;
    let tail_3 = seg_leverage + tail_4;
    let tail_2 = seg_position_size_usd + tail_3;
    let tail_1 = seg_position_size + tail_2;
    assert(mand.len() == 37);
    assert(mand[0].0 == "wallet"@);
    assert(mand[1].0 == "wallet_label"@);
    assert(mand[2].0 == "tx_hash"@);
    assert(mand[3].0 == "tx_type"@);
    assert(mand[4].0 == "chain"@);
    assert(mand[5].0 == "index"@);
    assert(mand[6].0 == "timestamp"@);
    assert(mand[7].0 == "block"@);
    assert(mand[8].0 == "action"@);
    assert(mand[9].0 == "amount_usd"@);
    assert(mand[10].0 == "average_price"@);
    assert(mand[11].0 == "base_token_address"@);
    assert(mand[12].0 == "base_token_amount"@);
    assert(mand[13].0 == "base_token_symbol"@);
    assert(mand[14].0 == "dex"@);
    assert(mand[15].0 == "from"@);
    assert(mand[16].0 == "liquidation"@);
    assert(mand[17].0 == "liquidation_price"@);
    assert(mand[18].0 == "to"@);
    assert(mand[19].0 == "trade_direction"@);
    assert(mand[20].0 == "perp_details"@);
    assert(mand[21].0 == "token0_address"@);
    assert(mand[22].0 == "token0_amount"@);
    assert(mand[23].0 == "token0_amount_usd"@);
    assert(mand[24].0 == "token0_name"@);
    assert(mand[25].0 == "token0_price_usd"@);
    assert(mand[26].0 == "token0_symbol"@);
    assert(mand[27].0 == "token0_icon_link"@);
    assert(mand[28].0 == "token1_address"@);
    assert(mand[29].0 == "token1_amount"@);
    assert(mand[30].0 == "token1_amount_usd"@);
    assert(mand[31].0 == "token1_name"@);
    assert(mand[32].0 == "token1_price_usd"@);
    assert(mand[33].0 == "token1_symbol"@);
    assert(mand[34].0 == "token1_icon_link"@);
    assert(mand[35].0 == "realized_pnl"@);
    assert(mand[36].0 == "is_nft_perp"@);
    assert forall|j: int| 0 <= j < mand.len() implies mand[j].0 != "leverage"@ by {
        if j == 0 {
        } else if j == 1 {
        } else if j == 2 {
        } else if j == 3 {
        } else if j == 4 {
        } else if j == 5 {
        } else if j == 6 {
        } else if j == 7 {
        } else if j == 8 {
        } else if j == 9 {
        } else if j == 10 {
        } else if j == 11 {
        } else if j == 12 {
        } else if j == 13 {
        } else if j == 14 {
        } else if j == 15 {
        } else if j == 16 {
        } else if j == 17 {
        } else if j == 18 {
        } else if j == 19 {
        } else if j == 20 {
        } else if j == 21 {
        } else if j == 22 {
        } else if j == 23 {
        } else if j == 24 {
        } else if j == 25 {
        } else if j == 26 {
        } else if j == 27 {
        } else if j == 28 {
        } else if j == 29 {
        } else if j == 30 {
        } else if j == 31 {
        } else if j == 32 {
        } else if j == 33 {
        } else if j == 34 {
        } else if j == 35 {
        } else if j == 36 {
        } else {
        }
    }
    lemma_lookup_absent(mand, "leverage"@);
    lemma_lookup_concat_right(mand, tail_1, "leverage"@);
    lemma_opt_member_lookup("position_size"@, ov_position_size, "leverage"@);
    lemma_lookup_concat_right(seg_position_size, tail_2, "leverage"@);
    lemma_opt_member_lookup("position_size_usd"@, ov_position_size_usd, "leverage"@);
    lemma_lookup_concat_right(seg_position_size_usd, tail_3, "leverage"@);
    lemma_opt_member_lookup("leverage"@, ov_leverage, "leverage"@);
    match s.leverage {
        Option::Some(x) => {
            lemma_lookup_concat_left(seg_leverage, tail_4, "leverage"@);
            assert(ms == mand + tail_1);
            assert(spec_opt_num_field(spec_encode_perp(s), "leverage"@) == Some(s.leverage));
        },
        Option::None => {
            lemma_lookup_concat_right(seg_leverage, tail_4, "leverage"@);
            lemma_opt_member_lookup("unrealized_pnl"@, ov_unrealized_pnl, "leverage"@);
            assert(ms == mand + tail_1);
            assert(spec_opt_num_field(spec_encode_perp(s), "leverage"@) == Some(s.leverage));
        },
    }
}

/// The `unrealized_pnl` member of an encoded `perp` record holds the field.
#[verifier::rlimit(50)]
#[verifier::spinoff_prover]
proof fn lemma_perp_unrealized_pnl_member(s: PerpV)
    ensures
        spec_opt_num_field(spec_encode_perp(s), "unrealized_pnl"@) == Some(s.unrealized_pnl),
{
    reveal_strlit("action");
    reveal_strlit("amount_usd");
    reveal_strlit("average_price");
    reveal_strlit("base_token_address");
    reveal_strlit("base_token_amount");
    reveal_strlit("base_token_symbol");
    reveal_strlit("block");
    reveal_strlit("chain");
    reveal_strlit("dex");
    reveal_strlit("from");
    reveal_strlit("index");
    reveal_strlit("is_nft_perp");
    reveal_strlit("leverage");
    reveal_strlit("liquidation");
    reveal_strlit("liquidation_price");
    reveal_strlit("perp_details");
    reveal_strlit("position_size");
    reveal_strlit("position_size_usd");
    reveal_strlit("realized_pnl");
    reveal_strlit("timestamp");
    reveal_strlit("to");
    reveal_strlit("token0_address");
    reveal_strlit("token0_amount");
    reveal_strlit("token0_amount_usd");
    reveal_strlit("token0_icon_link");
    reveal_strlit("token0_name");
    reveal_strlit("token0_price_usd");
    reveal_strlit("token0_symbol");
    reveal_strlit("token1_address");
    reveal_strlit("token1_amount");
    reveal_strlit("token1_amount_usd");
    reveal_strlit("token1_icon_link");
    reveal_strlit("token1_name");
    reveal_strlit("token1_price_usd");
    reveal_strlit("token1_symbol");
    reveal_strlit("trade_direction");
    reveal_strlit("tx_hash");
    reveal_strlit("tx_type");
    reveal_strlit("unrealized_pnl");
    reveal_strlit("wallet");
    reveal_strlit("wallet_label");
    assert("action"@.len() == 6);
    assert("amount_usd"@.len() == 10);
    assert("average_price"@.len() == 13);
    assert("base_token_address"@.len() == 18);
    assert("base_token_amount"@.len() == 17);
    assert("base_token_symbol"@.len() == 17);
    assert("block"@.len() == 5);
    assert("chain"@.len() == 5);
    assert("dex"@.len() == 3);
    assert("from"@.len() == 4);
    assert("index"@.len() == 5);
    assert("is_nft_perp"@.len() == 11);
    assert("leverage"@.len() == 8);
    assert("liquidation"@.len() == 11);
    assert("liquidation_price"@.len() == 17);
    assert("perp_details"@.len() == 12);
    assert("position_size"@.len() == 13);
    assert("position_size_usd"@.len() == 17);
    assert("realized_pnl"@.len() == 12);
    assert("timestamp"@.len() == 9);
    assert("to"@.len() == 2);
    assert("token0_address"@.len() == 14);
    assert("token0_amount"@.len() == 13);
    assert("token0_amount_usd"@.len() == 17);
    assert("token0_icon_link"@.len() == 16);
    assert("token0_name"@.len() == 11);
    assert("token0_price_usd"@.len() == 16);
    assert("token0_symbol"@.len() == 13);
    assert("token1_address"@.len() == 14);
    assert("token1_amount"@.len() == 13);
    assert("token1_amount_usd"@.len() == 17);
    assert("token1_icon_link"@.len() == 16);
    assert("token1_name"@.len() == 11);
    assert("token1_price_usd"@.len() == 16);
    assert("token1_symbol"@.len() == 13);
    assert("trade_direction"@.len() == 15);
    assert("tx_hash"@.len() == 7);
    assert("tx_type"@.len() == 7);
    assert("unrealized_pnl"@.len() == 14);
    assert("wallet"@.len() == 6);
    assert("wallet_label"@.len() == 12);
    assert("token0_address"@[0] == 't');
    assert("token1_address"@[0] == 't');
    assert("unrealized_pnl"@[0] == 'u');
    let ms = spec_encode_perp(s);
    let mand: Seq<(Seq<char>, JsonVal)> = seq![
        ("wallet"@, JsonVal::Str(s.wallet)),
        ("wallet_label"@, JsonVal::Str(s.wallet_label)),
        ("tx_hash"@, JsonVal::Str(s.tx_hash)),
        ("tx_type"@, JsonVal::Str(s.tx_type)),
        ("chain"@, JsonVal::Str(s.chain)),
        ("index"@, JsonVal::Num(JsonNumber::PosInt(s.index as u64))),
        ("timestamp"@, JsonVal::Num(JsonNumber::PosInt(s.timestamp))),
        ("block"@, JsonVal::Num(JsonNumber::PosInt(s.block))),
        ("action"@, JsonVal::Str(s.action)),
        ("amount_usd"@, JsonVal::Num(s.amount_usd)),
        ("average_price"@, JsonVal::Num(s.average_price)),
        ("base_token_address"@, JsonVal::Str(s.base_token_address)),
        ("base_token_amount"@, JsonVal::Num(s.base_token_amount)),
        ("base_token_symbol"@, JsonVal::Str(s.base_token_symbol)),
        ("dex"@, JsonVal::Str(s.dex)),
        ("from"@, JsonVal::Str(s.from)),
        ("liquidation"@, JsonVal::Bool(s.liquidation)),
        ("liquidation_price"@, JsonVal::Num(s.liquidation_price)),
        ("to"@, JsonVal::Str(s.to)),
        ("trade_direction"@, JsonVal::Str(s.trade_direction)),
        ("perp_details"@, JsonVal::Str(s.perp_details)),
        ("token0_address"@, JsonVal::Str(s.token0_address)),
        ("token0_amount"@, JsonVal::Num(s.token0_amount)),
        ("token0_amount_usd"@, JsonVal::Num(s.token0_amount_usd)),
        ("token0_name"@, JsonVal::Str(s.token0_name)),
        ("token0_price_usd"@, JsonVal::Num(s.token0_price_usd)),
        ("token0_symbol"@, JsonVal::Str(s.token0_symbol)),
        ("token0_icon_link"@, JsonVal::Str(s.token0_icon_link)),
        ("token1_address"@, JsonVal::Str(s.token1_address)),
        ("token1_amount"@, JsonVal::Num(s.token1_amount)),
        ("token1_amount_usd"@, JsonVal::Num(s.token1_amount_usd)),
        ("token1_name"@, JsonVal::Str(s.token1_name)),
        ("token1_price_usd"@, JsonVal::Num(s.token1_price_usd)),
        ("token1_symbol"@, JsonVal::Str(s.token1_symbol)),
        ("token1_icon_link"@, JsonVal::Str(s.token1_icon_link)),
        ("realized_pnl"@, JsonVal::Num(s.realized_pnl)),
        ("is_nft_perp"@, JsonVal::Bool(s.is_nft_perp)),
    ];
    let ov_position_size: Option<JsonVal> = match s.position_size { Option::Some(x) => Option::Some(JsonVal::Num(x)), Option::None => Option::None };
    let seg_position_size = opt_member("position_size"@, ov_position_size);
    let ov_position_size_usd: Option<JsonVal> = match s.position_size_usd { Option::Some(x) => Option::Some(JsonVal::Num(x)), Option::None => Option::None };
    let seg_position_size_usd = opt_member("position_size_usd"@, ov_position_size_usd);
    let ov_leverage: Option<JsonVal> = match s.leverage { Option::Some(x) => Option::Some(JsonVal::Num(x)), Option::None => Option::None };
    let seg_leverage = opt_member("leverage"@, ov_leverage);
    let ov_unrealized_pnl: Option<JsonVal> = match s.unrealized_pnl { Option::Some(x) => Option::Some(JsonVal::Num(x)), Option::None => Option::None };
    let seg_unrealized_pnl = opt_member("unrealized_pnl"@, ov_unrealized_pnl);
    let tail_4 = seg_unrealized_pnl;
    let tail_3 = seg_leverage + tail_4;
    let tail_2 = seg_position_size_usd + tail_3;
    let tail_1 = seg_position_size + tail_2;
    assert(mand.len() == 37);
    assert(mand[0].0 == "wallet"@);
    assert(mand[1].0 == "wallet_label"@);
    assert(mand[2].0 == "tx_hash"@);
    assert(mand[3].0 == "tx_type"@);
    assert(mand[4].0 == "chain"@);
    assert(mand[5].0 == "index"@);
    assert(mand[6].0 == "timestamp"@);
    assert(mand[7].0 == "block"@);
    assert(mand[8].0 == "action"@);
    assert(mand[9].0 == "amount_usd"@);
    assert(mand[10].0 == "average_price"@);
    assert(mand[11].0 == "base_token_address"@);
    assert(mand[12].0 == "base_token_amount"@);
    assert(mand[13].0 == "base_token_symbol"@);
    assert(mand[14].0 == "dex"@);
    assert(mand[15].0 == "from"@);
    assert(mand[16].0 == "liquidation"@);
    assert(mand[17].0 == "liquidation_price"@);
    assert(mand[18].0 == "to"@);
    assert(mand[19].0 == "trade_direction"@);
    assert(mand[20].0 == "perp_details"@);
    assert(mand[21].0 == "token0_address"@);
    assert(mand[22].0 == "token0_amount"@);
    assert(mand[23].0 == "token0_amount_usd"@);
    assert(mand[24].0 == "token0_name"@);
    assert(mand[25].0 == "token0_price_usd"@);
    assert(mand[26].0 == "token0_symbol"@);
    assert(mand[27].0 == "token0_icon_link"@);
    assert(mand[28].0 == "token1_address"@);
    assert(mand[29].0 == "token1_amount"@);
    assert(mand[30].0 == "token1_amount_usd"@);
    assert(mand[31].0 == "token1_name"@);
    assert(mand[32].0 == "token1_price_usd"@);
    assert(mand[33].0 == "token1_symbol"@);
    assert(mand[34].0 == "token1_icon_link"@);
    assert(mand[35].0 == "realized_pnl"@);
    assert(mand[36].0 == "is_nft_perp"@);
    assert forall|j: int| 0 <= j < mand.len() implies mand[j].0 != "unrealized_pnl"@ by {
        if j == 0 {
        } else if j == 1 {
        } else if j == 2 {
        } else if j == 3 {
        } else if j == 4 {
        } else if j == 5 {
        } else if j == 6 {
        } else if j == 7 {
        } else if j == 8 {
        } else if j == 9 {
        } else if j == 10 {
        } else if j == 11 {
        } else if j == 12 {
        } else if j == 13 {
        } else if j == 14 {
        } else if j == 15 {
        } else if j == 16 {
        } else if j == 17 {
        } else if j == 18 {
        } else if j == 19 {
        } else if j == 20 {
        } else if j == 21 {
        } else if j == 22 {
        } else if j == 23 {
        } else if j == 24 {
        } else if j == 25 {
        } else if j == 26 {
        } else if j == 27 {
        } else if j == 28 {
        } else if j == 29 {
        } else if j == 30 {
        } else if j == 31 {
        } else if j == 32 {
        } else if j == 33 {
        } else if j == 34 {
        } else if j == 35 {
        } else if j == 36 {
        } else {
        }
    }
    lemma_lookup_absent(mand, "unrealized_pnl"@);
    lemma_lookup_concat_right(mand, tail_1, "unrealized_pnl"@);
    lemma_opt_member_lookup("position_size"@, ov_position_size, "unrealized_pnl"@);
    lemma_lookup_concat_right(seg_position_size, tail_2, "unrealized_pnl"@);
    lemma_opt_member_lookup("position_size_usd"@, ov_position_size_usd, "unrealized_pnl"@);
    lemma_lookup_concat_right(seg_position_size_usd, tail_3, "unrealized_pnl"@);
    lemma_opt_member_lookup("leverage"@, ov_leverage, "unrealized_pnl"@);
    lemma_lookup_concat_right(seg_leverage, tail_4, "unrealized_pnl"@);
    lemma_opt_member_lookup("unrealized_pnl"@, ov_unrealized_pnl, "unrealized_pnl"@);
    match s.unrealized_pnl {
        Option::Some(x) => {
            assert(ms == mand + tail_1);
            assert(spec_opt_num_field(spec_encode_perp(s), "unrealized_pnl"@) == Some(s.unrealized_pnl));
        },
        Option::None => {
            assert(ms == mand + tail_1);
            assert(spec_opt_num_field(spec_encode_perp(s), "unrealized_pnl"@) == Some(s.unrealized_pnl));
        },
    }
}

/// An encoded `perp` record lacks `first_interaction`, which the `swap` shape needs.
#[verifier::spinoff_prover]
proof fn lemma_perp_not_swap(s: PerpV)
    ensures
        spec_decode_swap(spec_encode_perp(s)) is None,
{
    reveal_strlit("action");
    reveal_strlit("amount_usd");
    reveal_strlit("average_price");
    reveal_strlit("base_token_address");
    reveal_strlit("base_token_amount");
    reveal_strlit("base_token_symbol");
    reveal_strlit("block");
    reveal_strlit("chain");
    reveal_strlit("dex");
    reveal_strlit("first_interaction");
    reveal_strlit("from");
    reveal_strlit("index");
    reveal_strlit("is_nft_perp");
    reveal_strlit("leverage");
    reveal_strlit("liquidation");
    reveal_strlit("liquidation_price");
    reveal_strlit("perp_details");
    reveal_strlit("position_size");
    reveal_strlit("position_size_usd");
    reveal_strlit("realized_pnl");
    reveal_strlit("timestamp");
    reveal_strlit("to");
    reveal_strlit("token0_address");
    reveal_strlit("token0_amount");
    reveal_strlit("token0_amount_usd");
    reveal_strlit("token0_icon_link");
    reveal_strlit("token0_name");
    reveal_strlit("token0_price_usd");
    reveal_strlit("token0_symbol");
    reveal_strlit("token1_address");
    reveal_strlit("token1_amount");
    reveal_strlit("token1_amount_usd");
    reveal_strlit("token1_icon_link");
    reveal_strlit("token1_name");
    reveal_strlit("token1_price_usd");
    reveal_strlit("token1_symbol");
    reveal_strlit("trade_direction");
    reveal_strlit("tx_hash");
    reveal_strlit("tx_type");
    reveal_strlit("unrealized_pnl");
    reveal_strlit("wallet");
    reveal_strlit("wallet_label");
    assert("action"@.len() == 6);
    assert("amount_usd"@.len() == 10);
    assert("average_price"@.len() == 13);
    assert("base_token_address"@.len() == 18);
    assert("base_token_amount"@.len() == 17);
    assert("base_token_symbol"@.len() == 17);
    assert("block"@.len() == 5);
    assert("chain"@.len() == 5);
    assert("dex"@.len() == 3);
    assert("first_interaction"@.len() == 17);
    assert("from"@.len() == 4);
    assert("index"@.len() == 5);
    assert("is_nft_perp"@.len() == 11);
    assert("leverage"@.len() == 8);
    assert("liquidation"@.len() == 11);
    assert("liquidation_price"@.len() == 17);
    assert("perp_details"@.len() == 12);
    assert("position_size"@.len() == 13);
    assert("position_size_usd"@.len() == 17);
    assert("realized_pnl"@.len() == 12);
    assert("timestamp"@.len() == 9);
    assert("to"@.len() == 2);
    assert("token0_address"@.len() == 14);
    assert("token0_amount"@.len() == 13);
    assert("token0_amount_usd"@.len() == 17);
    assert("token0_icon_link"@.len() == 16);
    assert("token0_name"@.len() == 11);
    assert("token0_price_usd"@.len() == 16);
    assert("token0_symbol"@.len() == 13);
    assert("token1_address"@.len() == 14);
    assert("token1_amount"@.len() == 13);
    assert("token1_amount_usd"@.len() == 17);
    assert("token1_icon_link"@.len() == 16);
    assert("token1_name"@.len() == 11);
    assert("token1_price_usd"@.len() == 16);
    assert("token1_symbol"@.len() == 13);
    assert("trade_direction"@.len() == 15);
    assert("tx_hash"@.len() == 7);
    assert("tx_type"@.len() == 7);
    assert("unrealized_pnl"@.len() == 14);
    assert("wallet"@.len() == 6);
    assert("wallet_label"@.len() == 12);
    assert("base_token_amount"@[0] == 'b');
    assert("base_token_symbol"@[0] == 'b');
    assert("first_interaction"@[0] == 'f');
    assert("liquidation_price"@[0] == 'l');
    assert("position_size_usd"@[0] == 'p');
    assert("token0_amount_usd"@[0] == 't');
    assert("token1_amount_usd"@[0] == 't');
    let ms = spec_encode_perp(s);
    let mand: Seq<(Seq<char>, JsonVal)> = seq![
        ("wallet"@, JsonVal::Str(s.wallet)),
        ("wallet_label"@, JsonVal::Str(s.wallet_label)),
        ("tx_hash"@, JsonVal::Str(s.tx_hash)),
        ("tx_type"@, JsonVal::Str(s.tx_type)),
        ("chain"@, JsonVal::Str(s.chain)),
        ("index"@, JsonVal::Num(JsonNumber::PosInt(s.index as u64))),
        ("timestamp"@, JsonVal::Num(JsonNumber::PosInt(s.timestamp))),
        ("block"@, JsonVal::Num(JsonNumber::PosInt(s.block))),
        ("action"@, JsonVal::Str(s.action)),
        ("amount_usd"@, JsonVal::Num(s.amount_usd)),
        ("average_price"@, JsonVal::Num(s.average_price)),
        ("base_token_address"@, JsonVal::Str(s.base_token_address)),
        ("base_token_amount"@, JsonVal::Num(s.base_token_amount)),
        ("base_token_symbol"@, JsonVal::Str(s.base_token_symbol)),
        ("dex"@, JsonVal::Str(s.dex)),
        ("from"@, JsonVal::Str(s.from)),
        ("liquidation"@, JsonVal::Bool(s.liquidation)),
        ("liquidation_price"@, JsonVal::Num(s.liquidation_price)),
        ("to"@, JsonVal::Str(s.to)),
        ("trade_direction"@, JsonVal::Str(s.trade_direction)),
        ("perp_details"@, JsonVal::Str(s.perp_details)),
        ("token0_address"@, JsonVal::Str(s.token0_address)),
        ("token0_amount"@, JsonVal::Num(s.token0_amount)),
        ("token0_amount_usd"@, JsonVal::Num(s.token0_amount_usd)),
        ("token0_name"@, JsonVal::Str(s.token0_name)),
        ("token0_price_usd"@, JsonVal::Num(s.token0_price_usd)),
        ("token0_symbol"@, JsonVal::Str(s.token0_symbol)),
        ("token0_icon_link"@, JsonVal::Str(s.token0_icon_link)),
        ("token1_address"@, JsonVal::Str(s.token1_address)),
        ("token1_amount"@, JsonVal::Num(s.token1_amount)),
        ("token1_amount_usd"@, JsonVal::Num(s.token1_amount_usd)),
        ("token1_name"@, JsonVal::Str(s.token1_name)),
        ("token1_price_usd"@, JsonVal::Num(s.token1_price_usd)),
        ("token1_symbol"@, JsonVal::Str(s.token1_symbol)),
        ("token1_icon_link"@, JsonVal::Str(s.token1_icon_link)),
        ("realized_pnl"@, JsonVal::Num(s.realized_pnl)),
        ("is_nft_perp"@, JsonVal::Bool(s.is_nft_perp)),
    ];
    let ov_position_size: Option<JsonVal> = match s.position_size { Option::Some(x) => Option::Some(JsonVal::Num(x)), Option::None => Option::None };
    let seg_position_size = opt_member("position_size"@, ov_position_size);
    let ov_position_size_usd: Option<JsonVal> = match s.position_size_usd { Option::Some(x) => Option::Some(JsonVal::Num(x)), Option::None => Option::None };
    let seg_position_size_usd = opt_member("position_size_usd"@, ov_position_size_usd);
    let ov_leverage: Option<JsonVal> = match s.leverage { Option::Some(x) => Option::Some(JsonVal::Num(x)), Option::None => Option::None };
    let seg_leverage = opt_member("leverage"@, ov_leverage);
    let ov_unrealized_pnl: Option<JsonVal> = match s.unrealized_pnl { Option::Some(x) => Option::Some(JsonVal::Num(x)), Option::None => Option::None };
    let seg_unrealized_pnl = opt_member("unrealized_pnl"@, ov_unrealized_pnl);
    let tail_4 = seg_unrealized_pnl;
    let tail_3 = seg_leverage + tail_4;
    let tail_2 = seg_position_size_usd + tail_3;
    let tail_1 = seg_position_size + tail_2;
    assert(mand.len() == 37);
    assert(mand[0].0 == "wallet"@);
    assert(mand[1].0 == "wallet_label"@);
    assert(mand[2].0 == "tx_hash"@);
    assert(mand[3].0 == "tx_type"@);
    assert(mand[4].0 == "chain"@);
    assert(mand[5].0 == "index"@);
    assert(mand[6].0 == "timestamp"@);
    assert(mand[7].0 == "block"@);
    assert(mand[8].0 == "action"@);
    assert(mand[9].0 == "amount_usd"@);
    assert(mand[10].0 == "average_price"@);
    assert(mand[11].0 == "base_token_address"@);
    assert(mand[12].0 == "base_token_amount"@);
    assert(mand[13].0 == "base_token_symbol"@);
    assert(mand[14].0 == "dex"@);
    assert(mand[15].0 == "from"@);
    assert(mand[16].0 == "liquidation"@);
    assert(mand[17].0 == "liquidation_price"@);
    assert(mand[18].0 == "to"@);
    assert(mand[19].0 == "trade_direction"@);
    assert(mand[20].0 == "perp_details"@);
    assert(mand[21].0 == "token0_address"@);
    assert(mand[22].0 == "token0_amount"@);
    assert(mand[23].0 == "token0_amount_usd"@);
    assert(mand[24].0 == "token0_name"@);
    assert(mand[25].0 == "token0_price_usd"@);
    assert(mand[26].0 == "token0_symbol"@);
    assert(mand[27].0 == "token0_icon_link"@);
    assert(mand[28].0 == "token1_address"@);
    assert(mand[29].0 == "token1_amount"@);
    assert(mand[30].0 == "token1_amount_usd"@);
    assert(mand[31].0 == "token1_name"@);
    assert(mand[32].0 == "token1_price_usd"@);
    assert(mand[33].0 == "token1_symbol"@);
    assert(mand[34].0 == "token1_icon_link"@);
    assert(mand[35].0 == "realized_pnl"@);
    assert(mand[36].0 == "is_nft_perp"@);
    assert forall|j: int| 0 <= j < mand.len() implies mand[j].0 != "first_interaction"@ by {
        if j == 0 {
        } else if j == 1 {
        } else if j == 2 {
        } else if j == 3 {
        } else if j == 4 {
        } else if j == 5 {
        } else if j == 6 {
        } else if j == 7 {
        } else if j == 8 {
        } else if j == 9 {
        } else if j == 10 {
        } else if j == 11 {
        } else if j == 12 {
        } else if j == 13 {
        } else if j == 14 {
        } else if j == 15 {
        } else if j == 16 {
        } else if j == 17 {
        } else if j == 18 {
        } else if j == 19 {
        } else if j == 20 {
        } else if j == 21 {
        } else if j == 22 {
        } else if j == 23 {
        } else if j == 24 {
        } else if j == 25 {
        } else if j == 26 {
        } else if j == 27 {
        } else if j == 28 {
        } else if j == 29 {
        } else if j == 30 {
        } else if j == 31 {
        } else if j == 32 {
        } else if j == 33 {
        } else if j == 34 {
        } else if j == 35 {
        } else if j == 36 {
        } else {
        }
    }
    lemma_lookup_absent(mand, "first_interaction"@);
    lemma_opt_member_lookup("position_size"@, ov_position_size, "first_interaction"@);
    lemma_opt_member_lookup("position_size_usd"@, ov_position_size_usd, "first_interaction"@);
    lemma_opt_member_lookup("leverage"@, ov_leverage, "first_interaction"@);
    lemma_opt_member_lookup("unrealized_pnl"@, ov_unrealized_pnl, "first_interaction"@);
    lemma_lookup_absent_concat(seg_leverage, tail_4, "first_interaction"@);
    lemma_lookup_absent_concat(seg_position_size_usd, tail_3, "first_interaction"@);
    lemma_lookup_absent_concat(seg_position_size, tail_2, "first_interaction"@);
    lemma_lookup_absent_concat(mand, tail_1, "first_interaction"@);
    assert(ms == mand + tail_1);
    assert(spec_decode_swap(ms) is None);
}

/// An encoded `perp` record lacks `type`, which the `lp` shape needs.
#[verifier::spinoff_prover]
proof fn lemma_perp_not_lp(s: PerpV)
    ensures
        spec_decode_lp(spec_encode_perp(s)) is None,
{
    reveal_strlit("action");
    reveal_strlit("amount_usd");
    reveal_strlit("average_price");
    reveal_strlit("base_token_address");
    reveal_strlit("base_token_amount");
    reveal_strlit("base_token_symbol");
    reveal_strlit("block");
    reveal_strlit("chain");
    reveal_strlit("dex");
    reveal_strlit("from");
    reveal_strlit("index");
    reveal_strlit("is_nft_perp");
    reveal_strlit("leverage");
    reveal_strlit("liquidation");
    reveal_strlit("liquidation_price");
    reveal_strlit("perp_details");
    reveal_strlit("position_size");
    reveal_strlit("position_size_usd");
    reveal_strlit("realized_pnl");
    reveal_strlit("timestamp");
    reveal_strlit("to");
    reveal_strlit("token0_address");
    reveal_strlit("token0_amount");
    reveal_strlit("token0_amount_usd");
    reveal_strlit("token0_icon_link");
    reveal_strlit("token0_name");
    reveal_strlit("token0_price_usd");
    reveal_strlit("token0_symbol");
    reveal_strlit("token1_address");
    reveal_strlit("token1_amount");
    reveal_strlit("token1_amount_usd");
    reveal_strlit("token1_icon_link");
    reveal_strlit("token1_name");
    reveal_strlit("token1_price_usd");
    reveal_strlit("token1_symbol");
    reveal_strlit("trade_direction");
    reveal_strlit("tx_hash");
    reveal_strlit("tx_type");
    reveal_strlit("type");
    reveal_strlit("unrealized_pnl");
    reveal_strlit("wallet");
    reveal_strlit("wallet_label");
    assert("action"@.len() == 6);
    assert("amount_usd"@.len() == 10);
    assert("average_price"@.len() == 13);
    assert("base_token_address"@.len() == 18);
    assert("base_token_amount"@.len() == 17);
    assert("base_token_symbol"@.len() == 17);
    assert("block"@.len() == 5);
    assert("chain"@.len() == 5);
    assert("dex"@.len() == 3);
    assert("from"@.len() == 4);
    assert("index"@.len() == 5);
    assert("is_nft_perp"@.len() == 11);
    assert("leverage"@.len() == 8);
    assert("liquidation"@.len() == 11);
    assert("liquidation_price"@.len() == 17);
    assert("perp_details"@.len() == 12);
    assert("position_size"@.len() == 13);
    assert("position_size_usd"@.len() == 17);
    assert("realized_pnl"@.len() == 12);
    assert("timestamp"@.len() == 9);
    assert("to"@.len() == 2);
    assert("token0_address"@.len() == 14);
    assert("token0_amount"@.len() == 13);
    assert("token0_amount_usd"@.len() == 17);
    assert("token0_icon_link"@.len() == 16);
    assert("token0_name"@.len() == 11);
    assert("token0_price_usd"@.len() == 16);
    assert("token0_symbol"@.len() == 13);
    assert("token1_address"@.len() == 14);
    assert("token1_amount"@.len() == 13);
    assert("token1_amount_usd"@.len() == 17);
    assert("token1_icon_link"@.len() == 16);
    assert("token1_name"@.len() == 11);
    assert("token1_price_usd"@.len() == 16);
    assert("token1_symbol"@.len() == 13);
    assert("trade_direction"@.len() == 15);
    assert("tx_hash"@.len() == 7);
    assert("tx_type"@.len() == 7);
    assert("type"@.len() == 4);
    assert("unrealized_pnl"@.len() == 14);
    assert("wallet"@.len() == 6);
    assert("wallet_label"@.len() == 12);
    assert("from"@[0] == 'f');
    assert("type"@[0] == 't');
    let ms = spec_encode_perp(s);
    let mand: Seq<(Seq<char>, JsonVal)> = seq![
        ("wallet"@, JsonVal::Str(s.wallet)),
        ("wallet_label"@, JsonVal::Str(s.wallet_label)),
        ("tx_hash"@, JsonVal::Str(s.tx_hash)),
        ("tx_type"@, JsonVal::Str(s.tx_type)),
        ("chain"@, JsonVal::Str(s.chain)),
        ("index"@, JsonVal::Num(JsonNumber::PosInt(s.index as u64))),
        ("timestamp"@, JsonVal::Num(JsonNumber::PosInt(s.timestamp))),
        ("block"@, JsonVal::Num(JsonNumber::PosInt(s.block))),
        ("action"@, JsonVal::Str(s.action)),
        ("amount_usd"@, JsonVal::Num(s.amount_usd)),
        ("average_price"@, JsonVal::Num(s.average_price)),
        ("base_token_address"@, JsonVal::Str(s.base_token_address)),
        ("base_token_amount"@, JsonVal::Num(s.base_token_amount)),
        ("base_token_symbol"@, JsonVal::Str(s.base_token_symbol)),
        ("dex"@, JsonVal::Str(s.dex)),
        ("from"@, JsonVal::Str(s.from)),
        ("liquidation"@, JsonVal::Bool(s.liquidation)),
        ("liquidation_price"@, JsonVal::Num(s.liquidation_price)),
        ("to"@, JsonVal::Str(s.to)),
        ("trade_direction"@, JsonVal::Str(s.trade_direction)),
        ("perp_details"@, JsonVal::Str(s.perp_details)),
        ("token0_address"@, JsonVal::Str(s.token0_address)),
        ("token0_amount"@, JsonVal::Num(s.token0_amount)),
        ("token0_amount_usd"@, JsonVal::Num(s.token0_amount_usd)),
        ("token0_name"@, JsonVal::Str(s.token0_name)),
        ("token0_price_usd"@, JsonVal::Num(s.token0_price_usd)),
        ("token0_symbol"@, JsonVal::Str(s.token0_symbol)),
        ("token0_icon_link"@, JsonVal::Str(s.token0_icon_link)),
        ("token1_address"@, JsonVal::Str(s.token1_address)),
        ("token1_amount"@, JsonVal::Num(s.token1_amount)),
        ("token1_amount_usd"@, JsonVal::Num(s.token1_amount_usd)),
        ("token1_name"@, JsonVal::Str(s.token1_name)),
        ("token1_price_usd"@, JsonVal::Num(s.token1_price_usd)),
        ("token1_symbol"@, JsonVal::Str(s.token1_symbol)),
        ("token1_icon_link"@, JsonVal::Str(s.token1_icon_link)),
        ("realized_pnl"@, JsonVal::Num(s.realized_pnl)),
        ("is_nft_perp"@, JsonVal::Bool(s.is_nft_perp)),
    ];
    let ov_position_size: Option<JsonVal> = match s.position_size { Option::Some(x) => Option::Some(JsonVal::Num(x)), Option::None => Option::None };
    let seg_position_size = opt_member("position_size"@, ov_position_size);
    let ov_position_size_usd: Option<JsonVal> = match s.position_size_usd { Option::Some(x) => Option::Some(JsonVal::Num(x)), Option::None => Option::None };
    let seg_position_size_usd = opt_member("position_size_usd"@, ov_position_size_usd);
    let ov_leverage: Option<JsonVal> = match s.leverage { Option::Some(x) => Option::Some(JsonVal::Num(x)), Option::None => Option::None };
    let seg_leverage = opt_member("leverage"@, ov_leverage);
    let ov_unrealized_pnl: Option<JsonVal> = match s.unrealized_pnl { Option::Some(x) => Option::Some(JsonVal::Num(x)), Option::None => Option::None };
    let seg_unrealized_pnl = opt_member("unrealized_pnl"@, ov_unrealized_pnl);
    let tail_4 = seg_unrealized_pnl;
    let tail_3 = seg_leverage + tail_4;
    let tail_2 = seg_position_size_usd + tail_3;
    let tail_1 = seg_position_size + tail_2;
    assert(mand.len() == 37);
    assert(mand[0].0 == "wallet"@);
    assert(mand[1].0 == "wallet_label"@);
    assert(mand[2].0 == "tx_hash"@);
    assert(mand[3].0 == "tx_type"@);
    assert(mand[4].0 == "chain"@);
    assert(mand[5].0 == "index"@);
    assert(mand[6].0 == "timestamp"@);
    assert(mand[7].0 == "block"@);
    assert(mand[8].0 == "action"@);
    assert(mand[9].0 == "amount_usd"@);
    assert(mand[10].0 == "average_price"@);
    assert(mand[11].0 == "base_token_address"@);
    assert(mand[12].0 == "base_token_amount"@);
    assert(mand[13].0 == "base_token_symbol"@);
    assert(mand[14].0 == "dex"@);
    assert(mand[15].0 == "from"@);
    assert(mand[16].0 == "liquidation"@);
    assert(mand[17].0 == "liquidation_price"@);
    assert(mand[18].0 == "to"@);
    assert(mand[19].0 == "trade_direction"@);
    assert(mand[20].0 == "perp_details"@);
    assert(mand[21].0 == "token0_address"@);
    assert(mand[22].0 == "token0_amount"@);
    assert(mand[23].0 == "token0_amount_usd"@);
    assert(mand[24].0 == "token0_name"@);
    assert(mand[25].0 == "token0_price_usd"@);
    assert(mand[26].0 == "token0_symbol"@);
    assert(mand[27].0 == "token0_icon_link"@);
    assert(mand[28].0 == "token1_address"@);
    assert(mand[29].0 == "token1_amount"@);
    assert(mand[30].0 == "token1_amount_usd"@);
    assert(mand[31].0 == "token1_name"@);
    assert(mand[32].0 == "token1_price_usd"@);
    assert(mand[33].0 == "token1_symbol"@);
    assert(mand[34].0 == "token1_icon_link"@);
    assert(mand[35].0 == "realized_pnl"@);
    assert(mand[36].0 == "is_nft_perp"@);
    assert forall|j: int| 0 <= j < mand.len() implies mand[j].0 != "type"@ by {
        if j == 0 {
        } else if j == 1 {
        } else if j == 2 {
        } else if j == 3 {
        } else if j == 4 {
        } else if j == 5 {
        } else if j == 6 {
        } else if j == 7 {
        } else if j == 8 {
        } else if j == 9 {
        } else if j == 10 {
        } else if j == 11 {
        } else if j == 12 {
        } else if j == 13 {
        } else if j == 14 {
        } else if j == 15 {
        } else if j == 16 {
        } else if j == 17 {
        } else if j == 18 {
        } else if j == 19 {
        } else if j == 20 {
        } else if j == 21 {
        } else if j == 22 {
        } else if j == 23 {
        } else if j == 24 {
        } else if j == 25 {
        } else if j == 26 {
        } else if j == 27 {
        } else if j == 28 {
        } else if j == 29 {
        } else if j == 30 {
        } else if j == 31 {
        } else if j == 32 {
        } else if j == 33 {
        } else if j == 34 {
        } else if j == 35 {
        } else if j == 36 {
        } else {
        }
    }
    lemma_lookup_absent(mand, "type"@);
    lemma_opt_member_lookup("position_size"@, ov_position_size, "type"@);
    lemma_opt_member_lookup("position_size_usd"@, ov_position_size_usd, "type"@);
    lemma_opt_member_lookup("leverage"@, ov_leverage, "type"@);
    lemma_opt_member_lookup("unrealized_pnl"@, ov_unrealized_pnl, "type"@);
    lemma_lookup_absent_concat(seg_leverage, tail_4, "type"@);
    lemma_lookup_absent_concat(seg_position_size_usd, tail_3, "type"@);
    lemma_lookup_absent_concat(seg_position_size, tail_2, "type"@);
    lemma_lookup_absent_concat(mand, tail_1, "type"@);
    assert(ms == mand + tail_1);
    assert(spec_decode_lp(ms) is None);
}

/// An encoded `perp` record lacks `from_label`, which the `transfer` shape needs.
#[verifier::spinoff_prover]
proof fn lemma_perp_not_transfer(s: PerpV)
    ensures
        spec_decode_transfer(spec_encode_perp(s)) is None,
{
    reveal_strlit("action");
    reveal_strlit("amount_usd");
    reveal_strlit("average_price");
    reveal_strlit("base_token_address");
    reveal_strlit("base_token_amount");
    reveal_strlit("base_token_symbol");
    reveal_strlit("block");
    reveal_strlit("chain");
    reveal_strlit("dex");
    reveal_strlit("from");
    reveal_strlit("from_label");
    reveal_strlit("index");
    reveal_strlit("is_nft_perp");
    reveal_strlit("leverage");
    reveal_strlit("liquidation");
    reveal_strlit("liquidation_price");
    reveal_strlit("perp_details");
    reveal_strlit("position_size");
    reveal_strlit("position_size_usd");
    reveal_strlit("realized_pnl");
    reveal_strlit("timestamp");
    reveal_strlit("to");
    reveal_strlit("token0_address");
    reveal_strlit("token0_amount");
    reveal_strlit("token0_amount_usd");
    reveal_strlit("token0_icon_link");
    reveal_strlit("token0_name");
    reveal_strlit("token0_price_usd");
    reveal_strlit("token0_symbol");
    reveal_strlit("token1_address");
    reveal_strlit("token1_amount");
    reveal_strlit("token1_amount_usd");
    reveal_strlit("token1_icon_link");
    reveal_strlit("token1_name");
    reveal_strlit("token1_price_usd");
    reveal_strlit("token1_symbol");
    reveal_strlit("trade_direction");
    reveal_strlit("tx_hash");
    reveal_strlit("tx_type");
    reveal_strlit("unrealized_pnl");
    reveal_strlit("wallet");
    reveal_strlit("wallet_label");
    assert("action"@.len() == 6);
    assert("amount_usd"@.len() == 10);
    assert("average_price"@.len() == 13);
    assert("base_token_address"@.len() == 18);
    assert("base_token_amount"@.len() == 17);
    assert("base_token_symbol"@.len() == 17);
    assert("block"@.len() == 5);
    assert("chain"@.len() == 5);
    assert("dex"@.len() == 3);
    assert("from"@.len() == 4);
    assert("from_label"@.len() == 10);
    assert("index"@.len() == 5);
    assert("is_nft_perp"@.len() == 11);
    assert("leverage"@.len() == 8);
    assert("liquidation"@.len() == 11);
    assert("liquidation_price"@.len() == 17);
    assert("perp_details"@.len() == 12);
    assert("position_size"@.len() == 13);
    assert("position_size_usd"@.len() == 17);
    assert("realized_pnl"@.len() == 12);
    assert("timestamp"@.len() == 9);
    assert("to"@.len() == 2);
    assert("token0_address"@.len() == 14);
    assert("token0_amount"@.len() == 13);
    assert("token0_amount_usd"@.len() == 17);
    assert("token0_icon_link"@.len() == 16);
    assert("token0_name"@.len() == 11);
    assert("token0_price_usd"@.len() == 16);
    assert("token0_symbol"@.len() == 13);
    assert("token1_address"@.len() == 14);
    assert("token1_amount"@.len() == 13);
    assert("token1_amount_usd"@.len() == 17);
    assert("token1_icon_link"@.len() == 16);
    assert("token1_name"@.len() == 11);
    assert("token1_price_usd"@.len() == 16);
    assert("token1_symbol"@.len() == 13);
    assert("trade_direction"@.len() == 15);
    assert("tx_hash"@.len() == 7);
    assert("tx_type"@.len() == 7);
    assert("unrealized_pnl"@.len() == 14);
    assert("wallet"@.len() == 6);
    assert("wallet_label"@.len() == 12);
    assert("amount_usd"@[0] == 'a');
    assert("from_label"@[0] == 'f');
    let ms = spec_encode_perp(s);
    let mand: Seq<(Seq<char>, JsonVal)> = seq![
        ("wallet"@, JsonVal::Str(s.wallet)),
        ("wallet_label"@, JsonVal::Str(s.wallet_label)),
        ("tx_hash"@, JsonVal::Str(s.tx_hash)),
        ("tx_type"@, JsonVal::Str(s.tx_type)),
        ("chain"@, JsonVal::Str(s.chain)),
        ("index"@, JsonVal::Num(JsonNumber::PosInt(s.index as u64))),
        ("timestamp"@, JsonVal::Num(JsonNumber::PosInt(s.timestamp))),
        ("block"@, JsonVal::Num(JsonNumber::PosInt(s.block))),
        ("action"@, JsonVal::Str(s.action)),
        ("amount_usd"@, JsonVal::Num(s.amount_usd)),
        ("average_price"@, JsonVal::Num(s.average_price)),
        ("base_token_address"@, JsonVal::Str(s.base_token_address)),
        ("base_token_amount"@, JsonVal::Num(s.base_token_amount)),
        ("base_token_symbol"@, JsonVal::Str(s.base_token_symbol)),
        ("dex"@, JsonVal::Str(s.dex)),
        ("from"@, JsonVal::Str(s.from)),
        ("liquidation"@, JsonVal::Bool(s.liquidation)),
        ("liquidation_price"@, JsonVal::Num(s.liquidation_price)),
        ("to"@, JsonVal::Str(s.to)),
        ("trade_direction"@, JsonVal::Str(s.trade_direction)),
        ("perp_details"@, JsonVal::Str(s.perp_details)),
        ("token0_address"@, JsonVal::Str(s.token0_address)),
        ("token0_amount"@, JsonVal::Num(s.token0_amount)),
        ("token0_amount_usd"@, JsonVal::Num(s.token0_amount_usd)),
        ("token0_name"@, JsonVal::Str(s.token0_name)),
        ("token0_price_usd"@, JsonVal::Num(s.token0_price_usd)),
        ("token0_symbol"@, JsonVal::Str(s.token0_symbol)),
        ("token0_icon_link"@, JsonVal::Str(s.token0_icon_link)),
        ("token1_address"@, JsonVal::Str(s.token1_address)),
        ("token1_amount"@, JsonVal::Num(s.token1_amount)),
        ("token1_amount_usd"@, JsonVal::Num(s.token1_amount_usd)),
        ("token1_name"@, JsonVal::Str(s.token1_name)),
        ("token1_price_usd"@, JsonVal::Num(s.token1_price_usd)),
        ("token1_symbol"@, JsonVal::Str(s.token1_symbol)),
        ("token1_icon_link"@, JsonVal::Str(s.token1_icon_link)),
        ("realized_pnl"@, JsonVal::Num(s.realized_pnl)),
        ("is_nft_perp"@, JsonVal::Bool(s.is_nft_perp)),
    ];
    let ov_position_size: Option<JsonVal> = match s.position_size { Option::Some(x) => Option::Some(JsonVal::Num(x)), Option::None => Option::None };
    let seg_position_size = opt_member("position_size"@, ov_position_size);
    let ov_position_size_usd: Option<JsonVal> = match s.position_size_usd { Option::Some(x) => Option::Some(JsonVal::Num(x)), Option::None => Option::None };
    let seg_position_size_usd = opt_member("position_size_usd"@, ov_position_size_usd);
    let ov_leverage: Option<JsonVal> = match s.leverage { Option::Some(x) => Option::Some(JsonVal::Num(x)), Option::None => Option::None };
    let seg_leverage = opt_member("leverage"@, ov_leverage);
    let ov_unrealized_pnl: Option<JsonVal> = match s.unrealized_pnl { Option::Some(x) => Option::Some(JsonVal::Num(x)), Option::None => Option::None };
    let seg_unrealized_pnl = opt_member("unrealized_pnl"@, ov_unrealized_pnl);
    let tail_4 = seg_unrealized_pnl;
    let tail_3 = seg_leverage + tail_4;
    let tail_2 = seg_position_size_usd + tail_3;
    let tail_1 = seg_position_size + tail_2;
    assert(mand.len() == 37);
    assert(mand[0].0 == "wallet"@);
    assert(mand[1].0 == "wallet_label"@);
    assert(mand[2].0 == "tx_hash"@);
    assert(mand[3].0 == "tx_type"@);
    assert(mand[4].0 == "chain"@);
    assert(mand[5].0 == "index"@);
    assert(mand[6].0 == "timestamp"@);
    assert(mand[7].0 == "block"@);
    assert(mand[8].0 == "action"@);
    assert(mand[9].0 == "amount_usd"@);
    assert(mand[10].0 == "average_price"@);
    assert(mand[11].0 == "base_token_address"@);
    assert(mand[12].0 == "base_token_amount"@);
    assert(mand[13].0 == "base_token_symbol"@);
    assert(mand[14].0 == "dex"@);
    assert(mand[15].0 == "from"@);
    assert(mand[16].0 == "liquidation"@);
    assert(mand[17].0 == "liquidation_price"@);
    assert(mand[18].0 == "to"@);
    assert(mand[19].0 == "trade_direction"@);
    assert(mand[20].0 == "perp_details"@);
    assert(mand[21].0 == "token0_address"@);
    assert(mand[22].0 == "token0_amount"@);
    assert(mand[23].0 == "token0_amount_usd"@);
    assert(mand[24].0 == "token0_name"@);
    assert(mand[25].0 == "token0_price_usd"@);
    assert(mand[26].0 == "token0_symbol"@);
    assert(mand[27].0 == "token0_icon_link"@);
    assert(mand[28].0 == "token1_address"@);
    assert(mand[29].0 == "token1_amount"@);
    assert(mand[30].0 == "token1_amount_usd"@);
    assert(mand[31].0 == "token1_name"@);
    assert(mand[32].0 == "token1_price_usd"@);
    assert(mand[33].0 == "token1_symbol"@);
    assert(mand[34].0 == "token1_icon_link"@);
    assert(mand[35].0 == "realized_pnl"@);
    assert(mand[36].0 == "is_nft_perp"@);
    assert forall|j: int| 0 <= j < mand.len() implies mand[j].0 != "from_label"@ by {
        if j == 0 {
        } else if j == 1 {
        } else if j == 2 {
        } else if j == 3 {
        } else if j == 4 {
        } else if j == 5 {
        } else if j == 6 {
        } else if j == 7 {
        } else if j == 8 {
        } else if j == 9 {
        } else if j == 10 {
        } else if j == 11 {
        } else if j == 12 {
        } else if j == 13 {
        } else if j == 14 {
        } else if j == 15 {
        } else if j == 16 {
        } else if j == 17 {
        } else if j == 18 {
        } else if j == 19 {
        } else if j == 20 {
        } else if j == 21 {
        } else if j == 22 {
        } else if j == 23 {
        } else if j == 24 {
        } else if j == 25 {
        } else if j == 26 {
        } else if j == 27 {
        } else if j == 28 {
        } else if j == 29 {
        } else if j == 30 {
        } else if j == 31 {
        } else if j == 32 {
        } else if j == 33 {
        } else if j == 34 {
        } else if j == 35 {
        } else if j == 36 {
        } else {
        }
    }
    lemma_lookup_absent(mand, "from_label"@);
    lemma_opt_member_lookup("position_size"@, ov_position_size, "from_label"@);
    lemma_opt_member_lookup("position_size_usd"@, ov_position_size_usd, "from_label"@);
    lemma_opt_member_lookup("leverage"@, ov_leverage, "from_label"@);
    lemma_opt_member_lookup("unrealized_pnl"@, ov_unrealized_pnl, "from_label"@);
    lemma_lookup_absent_concat(seg_leverage, tail_4, "from_label"@);
    lemma_lookup_absent_concat(seg_position_size_usd, tail_3, "from_label"@);
    lemma_lookup_absent_concat(seg_position_size, tail_2, "from_label"@);
    lemma_lookup_absent_concat(mand, tail_1, "from_label"@);
    assert(ms == mand + tail_1);
    assert(spec_decode_transfer(ms) is None);
}

/// An encoded `perp` record lacks `from_label`, which the `lending` shape needs.
#[verifier::spinoff_prover]
proof fn lemma_perp_not_lending(s: PerpV)
    ensures
        spec_decode_lending(spec_encode_perp(s)) is None,
{
    reveal_strlit("action");
    reveal_strlit("amount_usd");
    reveal_strlit("average_price");
    reveal_strlit("base_token_address");
    reveal_strlit("base_token_amount");
    reveal_strlit("base_token_symbol");
    reveal_strlit("block");
    reveal_strlit("chain");
    reveal_strlit("dex");
    reveal_strlit("from");
    reveal_strlit("from_label");
    reveal_strlit("index");
    reveal_strlit("is_nft_perp");
    reveal_strlit("leverage");
    reveal_strlit("liquidation");
    reveal_strlit("liquidation_price");
    reveal_strlit("perp_details");
    reveal_strlit("position_size");
    reveal_strlit("position_size_usd");
    reveal_strlit("realized_pnl");
    reveal_strlit("timestamp");
    reveal_strlit("to");
    reveal_strlit("token0_address");
    reveal_strlit("token0_amount");
    reveal_strlit("token0_amount_usd");
    reveal_strlit("token0_icon_link");
    reveal_strlit("token0_name");
    reveal_strlit("token0_price_usd");
    reveal_strlit("token0_symbol");
    reveal_strlit("token1_address");
    reveal_strlit("token1_amount");
    reveal_strlit("token1_amount_usd");
    reveal_strlit("token1_icon_link");
    reveal_strlit("token1_name");
    reveal_strlit("token1_price_usd");
    reveal_strlit("token1_symbol");
    reveal_strlit("trade_direction");
    reveal_strlit("tx_hash");
    reveal_strlit("tx_type");
    reveal_strlit("unrealized_pnl");
    reveal_strlit("wallet");
    reveal_strlit("wallet_label");
    assert("action"@.len() == 6);
    assert("amount_usd"@.len() == 10);
    assert("average_price"@.len() == 13);
    assert("base_token_address"@.len() == 18);
    assert("base_token_amount"@.len() == 17);
    assert("base_token_symbol"@.len() == 17);
    assert("block"@.len() == 5);
    assert("chain"@.len() == 5);
    assert("dex"@.len() == 3);
    assert("from"@.len() == 4);
    assert("from_label"@.len() == 10);
    assert("index"@.len() == 5);
    assert("is_nft_perp"@.len() == 11);
    assert("leverage"@.len() == 8);
    assert("liquidation"@.len() == 11);
    assert("liquidation_price"@.len() == 17);
    assert("perp_details"@.len() == 12);
    assert("position_size"@.len() == 13);
    assert("position_size_usd"@.len() == 17);
    assert("realized_pnl"@.len() == 12);
    assert("timestamp"@.len() == 9);
    assert("to"@.len() == 2);
    assert("token0_address"@.len() == 14);
    assert("token0_amount"@.len() == 13);
    assert("token0_amount_usd"@.len() == 17);
    assert("token0_icon_link"@.len() == 16);
    assert("token0_name"@.len() == 11);
    assert("token0_price_usd"@.len() == 16);
    assert("token0_symbol"@.len() == 13);
    assert("token1_address"@.len() == 14);
    assert("token1_amount"@.len() == 13);
    assert("token1_amount_usd"@.len() == 17);
    assert("token1_icon_link"@.len() == 16);
    assert("token1_name"@.len() == 11);
    assert("token1_price_usd"@.len() == 16);
    assert("token1_symbol"@.len() == 13);
    assert("trade_direction"@.len() == 15);
    assert("tx_hash"@.len() == 7);
    assert("tx_type"@.len() == 7);
    assert("unrealized_pnl"@.len() == 14);
    assert("wallet"@.len() == 6);
    assert("wallet_label"@.len() == 12);
    assert("amount_usd"@[0] == 'a');
    assert("from_label"@[0] == 'f');
    let ms = spec_encode_perp(s);
    let mand: Seq<(Seq<char>, JsonVal)> = seq![
        ("wallet"@, JsonVal::Str(s.wallet)),
        ("wallet_label"@, JsonVal::Str(s.wallet_label)),
        ("tx_hash"@, JsonVal::Str(s.tx_hash)),
        ("tx_type"@, JsonVal::Str(s.tx_type)),
        ("chain"@, JsonVal::Str(s.chain)),
        ("index"@, JsonVal::Num(JsonNumber::PosInt(s.index as u64))),
        ("timestamp"@, JsonVal::Num(JsonNumber::PosInt(s.timestamp))),
        ("block"@, JsonVal::Num(JsonNumber::PosInt(s.block))),
        ("action"@, JsonVal::Str(s.action)),
        ("amount_usd"@, JsonVal::Num(s.amount_usd)),
        ("average_price"@, JsonVal::Num(s.average_price)),
        ("base_token_address"@, JsonVal::Str(s.base_token_address)),
        ("base_token_amount"@, JsonVal::Num(s.base_token_amount)),
        ("base_token_symbol"@, JsonVal::Str(s.base_token_symbol)),
        ("dex"@, JsonVal::Str(s.dex)),
        ("from"@, JsonVal::Str(s.from)),
        ("liquidation"@, JsonVal::Bool(s.liquidation)),
        ("liquidation_price"@, JsonVal::Num(s.liquidation_price)),
        ("to"@, JsonVal::Str(s.to)),
        ("trade_direction"@, JsonVal::Str(s.trade_direction)),
        ("perp_details"@, JsonVal::Str(s.perp_details)),
        ("token0_address"@, JsonVal::Str(s.token0_address)),
        ("token0_amount"@, JsonVal::Num(s.token0_amount)),
        ("token0_amount_usd"@, JsonVal::Num(s.token0_amount_usd)),
        ("token0_name"@, JsonVal::Str(s.token0_name)),
        ("token0_price_usd"@, JsonVal::Num(s.token0_price_usd)),
        ("token0_symbol"@, JsonVal::Str(s.token0_symbol)),
        ("token0_icon_link"@, JsonVal::Str(s.token0_icon_link)),
        ("token1_address"@, JsonVal::Str(s.token1_address)),
        ("token1_amount"@, JsonVal::Num(s.token1_amount)),
        ("token1_amount_usd"@, JsonVal::Num(s.token1_amount_usd)),
        ("token1_name"@, JsonVal::Str(s.token1_name)),
        ("token1_price_usd"@, JsonVal::Num(s.token1_price_usd)),
        ("token1_symbol"@, JsonVal::Str(s.token1_symbol)),
        ("token1_icon_link"@, JsonVal::Str(s.token1_icon_link)),
        ("realized_pnl"@, JsonVal::Num(s.realized_pnl)),
        ("is_nft_perp"@, JsonVal::Bool(s.is_nft_perp)),
    ];
    let ov_position_size: Option<JsonVal> = match s.position_size { Option::Some(x) => Option::Some(JsonVal::Num(x)), Option::None => Option::None };
    let seg_position_size = opt_member("position_size"@, ov_position_size);
    let ov_position_size_usd: Option<JsonVal> = match s.position_size_usd { Option::Some(x) => Option::Some(JsonVal::Num(x)), Option::None => Option::None };
    let seg_position_size_usd = opt_member("position_size_usd"@, ov_position_size_usd);
    let ov_leverage: Option<JsonVal> = match s.leverage { Option::Some(x) => Option::Some(JsonVal::Num(x)), Option::None => Option::None };
    let seg_leverage = opt_member("leverage"@, ov_leverage);
    let ov_unrealized_pnl: Option<JsonVal> = match s.unrealized_pnl { Option::Some(x) => Option::Some(JsonVal::Num(x)), Option::None => Option::None };
    let seg_unrealized_pnl = opt_member("unrealized_pnl"@, ov_unrealized_pnl);
    let tail_4 = seg_unrealized_pnl;
    let tail_3 = seg_leverage + tail_4;
    let tail_2 = seg_position_size_usd + tail_3;
    let tail_1 = seg_position_size + tail_2;
    assert(mand.len() == 37);
    assert(mand[0].0 == "wallet"@);
    assert(mand[1].0 == "wallet_label"@);
    assert(mand[2].0 == "tx_hash"@);
    assert(mand[3].0 == "tx_type"@);
    assert(mand[4].0 == "chain"@);
    assert(mand[5].0 == "index"@);
    assert(mand[6].0 == "timestamp"@);
    assert(mand[7].0 == "block"@);
    assert(mand[8].0 == "action"@);
    assert(mand[9].0 == "amount_usd"@);
    assert(mand[10].0 == "average_price"@);
    assert(mand[11].0 == "base_token_address"@);
    assert(mand[12].0 == "base_token_amount"@);
    assert(mand[13].0 == "base_token_symbol"@);
    assert(mand[14].0 == "dex"@);
    assert(mand[15].0 == "from"@);
    assert(mand[16].0 == "liquidation"@);
    assert(mand[17].0 == "liquidation_price"@);
    assert(mand[18].0 == "to"@);
    assert(mand[19].0 == "trade_direction"@);
    assert(mand[20].0 == "perp_details"@);
    assert(mand[21].0 == "token0_address"@);
    assert(mand[22].0 == "token0_amount"@);
    assert(mand[23].0 == "token0_amount_usd"@);
    assert(mand[24].0 == "token0_name"@);
    assert(mand[25].0 == "token0_price_usd"@);
    assert(mand[26].0 == "token0_symbol"@);
    assert(mand[27].0 == "token0_icon_link"@);
    assert(mand[28].0 == "token1_address"@);
    assert(mand[29].0 == "token1_amount"@);
    assert(mand[30].0 == "token1_amount_usd"@);
    assert(mand[31].0 == "token1_name"@);
    assert(mand[32].0 == "token1_price_usd"@);
    assert(mand[33].0 == "token1_symbol"@);
    assert(mand[34].0 == "token1_icon_link"@);
    assert(mand[35].0 == "realized_pnl"@);
    assert(mand[36].0 == "is_nft_perp"@);
    assert forall|j: int| 0 <= j < mand.len() implies mand[j].0 != "from_label"@ by {
        if j == 0 {
        } else if j == 1 {
        } else if j == 2 {
        } else if j == 3 {
        } else if j == 4 {
        } else if j == 5 {
        } else if j == 6 {
        } else if j == 7 {
        } else if j == 8 {
        } else if j == 9 {
        } else if j == 10 {
        } else if j == 11 {
        } else if j == 12 {
        } else if j == 13 {
        } else if j == 14 {
        } else if j == 15 {
        } else if j == 16 {
        } else if j == 17 {
        } else if j == 18 {
        } else if j == 19 {
        } else if j == 20 {
        } else if j == 21 {
        } else if j == 22 {
        } else if j == 23 {
        } else if j == 24 {
        } else if j == 25 {
        } else if j == 26 {
        } else if j == 27 {
        } else if j == 28 {
        } else if j == 29 {
        } else if j == 30 {
        } else if j == 31 {
        } else if j == 32 {
        } else if j == 33 {
        } else if j == 34 {
        } else if j == 35 {
        } else if j == 36 {
        } else {
        }
    }
    lemma_lookup_absent(mand, "from_label"@);
    lemma_opt_member_lookup("position_size"@, ov_position_size, "from_label"@);
    lemma_opt_member_lookup("position_size_usd"@, ov_position_size_usd, "from_label"@);
    lemma_opt_member_lookup("leverage"@, ov_leverage, "from_label"@);
    lemma_opt_member_lookup("unrealized_pnl"@, ov_unrealized_pnl, "from_label"@);
    lemma_lookup_absent_concat(seg_leverage, tail_4, "from_label"@);
    lemma_lookup_absent_concat(seg_position_size_usd, tail_3, "from_label"@);
    lemma_lookup_absent_concat(seg_position_size, tail_2, "from_label"@);
    lemma_lookup_absent_concat(mand, tail_1, "from_label"@);
    assert(ms == mand + tail_1);
    assert(spec_decode_lending(ms) is None);
}

/// An encoded `perp` record lacks `from_label`, which the `nft_mint` shape needs.
#[verifier::spinoff_prover]
proof fn lemma_perp_not_nft_mint(s: PerpV)
    ensures
        spec_decode_nft_mint(spec_encode_perp(s)) is None,
{
    reveal_strlit("action");
    reveal_strlit("amount_usd");
    reveal_strlit("average_price");
    reveal_strlit("base_token_address");
    reveal_strlit("base_token_amount");
    reveal_strlit("base_token_symbol");
    reveal_strlit("block");
    reveal_strlit("chain");
    reveal_strlit("dex");
    reveal_strlit("from");
    reveal_strlit("from_label");
    reveal_strlit("index");
    reveal_strlit("is_nft_perp");
    reveal_strlit("leverage");
    reveal_strlit("liquidation");
    reveal_strlit("liquidation_price");
    reveal_strlit("perp_details");
    reveal_strlit("position_size");
    reveal_strlit("position_size_usd");
    reveal_strlit("realized_pnl");
    reveal_strlit("timestamp");
    reveal_strlit("to");
    reveal_strlit("token0_address");
    reveal_strlit("token0_amount");
    reveal_strlit("token0_amount_usd");
    reveal_strlit("token0_icon_link");
    reveal_strlit("token0_name");
    reveal_strlit("token0_price_usd");
    reveal_strlit("token0_symbol");
    reveal_strlit("token1_address");
    reveal_strlit("token1_amount");
    reveal_strlit("token1_amount_usd");
    reveal_strlit("token1_icon_link");
    reveal_strlit("token1_name");
    reveal_strlit("token1_price_usd");
    reveal_strlit("token1_symbol");
    reveal_strlit("trade_direction");
    reveal_strlit("tx_hash");
    reveal_strlit("tx_type");
    reveal_strlit("unrealized_pnl");
    reveal_strlit("wallet");
    reveal_strlit("wallet_label");
    assert("action"@.len() == 6);
    assert("amount_usd"@.len() == 10);
    assert("average_price"@.len() == 13);
    assert("base_token_address"@.len() == 18);
    assert("base_token_amount"@.len() == 17);
    assert("base_token_symbol"@.len() == 17);
    assert("block"@.len() == 5);
    assert("chain"@.len() == 5);
    assert("dex"@.len() == 3);
    assert("from"@.len() == 4);
    assert("from_label"@.len() == 10);
    assert("index"@.len() == 5);
    assert("is_nft_perp"@.len() == 11);
    assert("leverage"@.len() == 8);
    assert("liquidation"@.len() == 11);
    assert("liquidation_price"@.len() == 17);
    assert("perp_details"@.len() == 12);
    assert("position_size"@.len() == 13);
    assert("position_size_usd"@.len() == 17);
    assert("realized_pnl"@.len() == 12);
    assert("timestamp"@.len() == 9);
    assert("to"@.len() == 2);
    assert("token0_address"@.len() == 14);
    assert("token0_amount"@.len() == 13);
    assert("token0_amount_usd"@.len() == 17);
    assert("token0_icon_link"@.len() == 16);
    assert("token0_name"@.len() == 11);
    assert("token0_price_usd"@.len() == 16);
    assert("token0_symbol"@.len() == 13);
    assert("token1_address"@.len() == 14);
    assert("token1_amount"@.len() == 13);
    assert("token1_amount_usd"@.len() == 17);
    assert("token1_icon_link"@.len() == 16);
    assert("token1_name"@.len() == 11);
    assert("token1_price_usd"@.len() == 16);
    assert("token1_symbol"@.len() == 13);
    assert("trade_direction"@.len() == 15);
    assert("tx_hash"@.len() == 7);
    assert("tx_type"@.len() == 7);
    assert("unrealized_pnl"@.len() == 14);
    assert("wallet"@.len() == 6);
    assert("wallet_label"@.len() == 12);
    assert("amount_usd"@[0] == 'a');
    assert("from_label"@[0] == 'f');
    let ms = spec_encode_perp(s);
    let mand: Seq<(Seq<char>, JsonVal)> = seq![
        ("wallet"@, JsonVal::Str(s.wallet)),
        ("wallet_label"@, JsonVal::Str(s.wallet_label)),
        ("tx_hash"@, JsonVal::Str(s.tx_hash)),
        ("tx_type"@, JsonVal::Str(s.tx_type)),
        ("chain"@, JsonVal::Str(s.chain)),
        ("index"@, JsonVal::Num(JsonNumber::PosInt(s.index as u64))),
        ("timestamp"@, JsonVal::Num(JsonNumber::PosInt(s.timestamp))),
        ("block"@, JsonVal::Num(JsonNumber::PosInt(s.block))),
        ("action"@, JsonVal::Str(s.action)),
        ("amount_usd"@, JsonVal::Num(s.amount_usd)),
        ("average_price"@, JsonVal::Num(s.average_price)),
        ("base_token_address"@, JsonVal::Str(s.base_token_address)),
        ("base_token_amount"@, JsonVal::Num(s.base_token_amount)),
        ("base_token_symbol"@, JsonVal::Str(s.base_token_symbol)),
        ("dex"@, JsonVal::Str(s.dex)),
        ("from"@, JsonVal::Str(s.from)),
        ("liquidation"@, JsonVal::Bool(s.liquidation)),
        ("liquidation_price"@, JsonVal::Num(s.liquidation_price)),
        ("to"@, JsonVal::Str(s.to)),
        ("trade_direction"@, JsonVal::Str(s.trade_direction)),
        ("perp_details"@, JsonVal::Str(s.perp_details)),
        ("token0_address"@, JsonVal::Str(s.token0_address)),
        ("token0_amount"@, JsonVal::Num(s.token0_amount)),
        ("token0_amount_usd"@, JsonVal::Num(s.token0_amount_usd)),
        ("token0_name"@, JsonVal::Str(s.token0_name)),
        ("token0_price_usd"@, JsonVal::Num(s.token0_price_usd)),
        ("token0_symbol"@, JsonVal::Str(s.token0_symbol)),
        ("token0_icon_link"@, JsonVal::Str(s.token0_icon_link)),
        ("token1_address"@, JsonVal::Str(s.token1_address)),
        ("token1_amount"@, JsonVal::Num(s.token1_amount)),
        ("token1_amount_usd"@, JsonVal::Num(s.token1_amount_usd)),
        ("token1_name"@, JsonVal::Str(s.token1_name)),
        ("token1_price_usd"@, JsonVal::Num(s.token1_price_usd)),
        ("token1_symbol"@, JsonVal::Str(s.token1_symbol)),
        ("token1_icon_link"@, JsonVal::Str(s.token1_icon_link)),
        ("realized_pnl"@, JsonVal::Num(s.realized_pnl)),
        ("is_nft_perp"@, JsonVal::Bool(s.is_nft_perp)),
    ];
    let ov_position_size: Option<JsonVal> = match s.position_size { Option::Some(x) => Option::Some(JsonVal::Num(x)), Option::None => Option::None };
    let seg_position_size = opt_member("position_size"@, ov_position_size);
    let ov_position_size_usd: Option<JsonVal> = match s.position_size_usd { Option::Some(x) => Option::Some(JsonVal::Num(x)), Option::None => Option::None };
    let seg_position_size_usd = opt_member("position_size_usd"@, ov_position_size_usd);
    let ov_leverage: Option<JsonVal> = match s.leverage { Option::Some(x) => Option::Some(JsonVal::Num(x)), Option::None => Option::None };
    let seg_leverage = opt_member("leverage"@, ov_leverage);
    let ov_unrealized_pnl: Option<JsonVal> = match s.unrealized_pnl { Option::Some(x) => Option::Some(JsonVal::Num(x)), Option::None => Option::None };
    let seg_unrealized_pnl = opt_member("unrealized_pnl"@, ov_unrealized_pnl);
    let tail_4 = seg_unrealized_pnl;
    let tail_3 = seg_leverage + tail_4;
    let tail_2 = seg_position_size_usd + tail_3;
    let tail_1 = seg_position_size + tail_2;
    assert(mand.len() == 37);
    assert(mand[0].0 == "wallet"@);
    assert(mand[1].0 == "wallet_label"@);
    assert(mand[2].0 == "tx_hash"@);
    assert(mand[3].0 == "tx_type"@);
    assert(mand[4].0 == "chain"@);
    assert(mand[5].0 == "index"@);
    assert(mand[6].0 == "timestamp"@);
    assert(mand[7].0 == "block"@);
    assert(mand[8].0 == "action"@);
    assert(mand[9].0 == "amount_usd"@);
    assert(mand[10].0 == "average_price"@);
    assert(mand[11].0 == "base_token_address"@);
    assert(mand[12].0 == "base_token_amount"@);
    assert(mand[13].0 == "base_token_symbol"@);
    assert(mand[14].0 == "dex"@);
    assert(mand[15].0 == "from"@);
    assert(mand[16].0 == "liquidation"@);
    assert(mand[17].0 == "liquidation_price"@);
    assert(mand[18].0 == "to"@);
    assert(mand[19].0 == "trade_direction"@);
    assert(mand[20].0 == "perp_details"@);
    assert(mand[21].0 == "token0_address"@);
    assert(mand[22].0 == "token0_amount"@);
    assert(mand[23].0 == "token0_amount_usd"@);
    assert(mand[24].0 == "token0_name"@);
    assert(mand[25].0 == "token0_price_usd"@);
    assert(mand[26].0 == "token0_symbol"@);
    assert(mand[27].0 == "token0_icon_link"@);
    assert(mand[28].0 == "token1_address"@);
    assert(mand[29].0 == "token1_amount"@);
    assert(mand[30].0 == "token1_amount_usd"@);
    assert(mand[31].0 == "token1_name"@);
    assert(mand[32].0 == "token1_price_usd"@);
    assert(mand[33].0 == "token1_symbol"@);
    assert(mand[34].0 == "token1_icon_link"@);
    assert(mand[35].0 == "realized_pnl"@);
    assert(mand[36].0 == "is_nft_perp"@);
    assert forall|j: int| 0 <= j < mand.len() implies mand[j].0 != "from_label"@ by {
        if j == 0 {
        } else if j == 1 {
        } else if j == 2 {
        } else if j == 3 {
        } else if j == 4 {
        } else if j == 5 {
        } else if j == 6 {
        } else if j == 7 {
        } else if j == 8 {
        } else if j == 9 {
        } else if j == 10 {
        } else if j == 11 {
        } else if j == 12 {
        } else if j == 13 {
        } else if j == 14 {
        } else if j == 15 {
        } else if j == 16 {
        } else if j == 17 {
        } else if j == 18 {
        } else if j == 19 {
        } else if j == 20 {
        } else if j == 21 {
        } else if j == 22 {
        } else if j == 23 {
        } else if j == 24 {
        } else if j == 25 {
        } else if j == 26 {
        } else if j == 27 {
        } else if j == 28 {
        } else if j == 29 {
        } else if j == 30 {
        } else if j == 31 {
        } else if j == 32 {
        } else if j == 33 {
        } else if j == 34 {
        } else if j == 35 {
        } else if j == 36 {
        } else {
        }
    }
    lemma_lookup_absent(mand, "from_label"@);
    lemma_opt_member_lookup("position_size"@, ov_position_size, "from_label"@);
    lemma_opt_member_lookup("position_size_usd"@, ov_position_size_usd, "from_label"@);
    lemma_opt_member_lookup("leverage"@, ov_leverage, "from_label"@);
    lemma_opt_member_lookup("unrealized_pnl"@, ov_unrealized_pnl, "from_label"@);
    lemma_lookup_absent_concat(seg_leverage, tail_4, "from_label"@);
    lemma_lookup_absent_concat(seg_position_size_usd, tail_3, "from_label"@);
    lemma_lookup_absent_concat(seg_position_size, tail_2, "from_label"@);
    lemma_lookup_absent_concat(mand, tail_1, "from_label"@);
    assert(ms == mand + tail_1);
    assert(spec_decode_nft_mint(ms) is None);
}

/// An encoded `perp` record lacks `thumbnail`, which the `nft_trade` shape needs.
#[verifier::spinoff_prover]
proof fn lemma_perp_not_nft_trade(s: PerpV)
    ensures
        spec_decode_nft_trade(spec_encode_perp(s)) is None,
{
    reveal_strlit("action");
    reveal_strlit("amount_usd");
    reveal_strlit("average_price");
    reveal_strlit("base_token_address");
    reveal_strlit("base_token_amount");
    reveal_strlit("base_token_symbol");
    reveal_strlit("block");
    reveal_strlit("chain");
    reveal_strlit("dex");
    reveal_strlit("from");
    reveal_strlit("index");
    reveal_strlit("is_nft_perp");
    reveal_strlit("leverage");
    reveal_strlit("liquidation");
    reveal_strlit("liquidation_price");
    reveal_strlit("perp_details");
    reveal_strlit("position_size");
    reveal_strlit("position_size_usd");
    reveal_strlit("realized_pnl");
    reveal_strlit("thumbnail");
    reveal_strlit("timestamp");
    reveal_strlit("to");
    reveal_strlit("token0_address");
    reveal_strlit("token0_amount");
    reveal_strlit("token0_amount_usd");
    reveal_strlit("token0_icon_link");
    reveal_strlit("token0_name");
    reveal_strlit("token0_price_usd");
    reveal_strlit("token0_symbol");
    reveal_strlit("token1_address");
    reveal_strlit("token1_amount");
    reveal_strlit("token1_amount_usd");
    reveal_strlit("token1_icon_link");
    reveal_strlit("token1_name");
    reveal_strlit("token1_price_usd");
    reveal_strlit("token1_symbol");
    reveal_strlit("trade_direction");
    reveal_strlit("tx_hash");
    reveal_strlit("tx_type");
    reveal_strlit("unrealized_pnl");
    reveal_strlit("wallet");
    reveal_strlit("wallet_label");
    assert("action"@.len() == 6);
    assert("amount_usd"@.len() == 10);
    assert("average_price"@.len() == 13);
    assert("base_token_address"@.len() == 18);
    assert("base_token_amount"@.len() == 17);
    assert("base_token_symbol"@.len() == 17);
    assert("block"@.len() == 5);
    assert("chain"@.len() == 5);
    assert("dex"@.len() == 3);
    assert("from"@.len() == 4);
    assert("index"@.len() == 5);
    assert("is_nft_perp"@.len() == 11);
    assert("leverage"@.len() == 8);
    assert("liquidation"@.len() == 11);
    assert("liquidation_price"@.len() == 17);
    assert("perp_details"@.len() == 12);
    assert("position_size"@.len() == 13);
    assert("position_size_usd"@.len() == 17);
    assert("realized_pnl"@.len() == 12);
    assert("thumbnail"@.len() == 9);
    assert("timestamp"@.len() == 9);
    assert("to"@.len() == 2);
    assert("token0_address"@.len() == 14);
    assert("token0_amount"@.len() == 13);
    assert("token0_amount_usd"@.len() == 17);
    assert("token0_icon_link"@.len() == 16);
    assert("token0_name"@.len() == 11);
    assert("token0_price_usd"@.len() == 16);
    assert("token0_symbol"@.len() == 13);
    assert("token1_address"@.len() == 14);
    assert("token1_amount"@.len() == 13);
    assert("token1_amount_usd"@.len() == 17);
    assert("token1_icon_link"@.len() == 16);
    assert("token1_name"@.len() == 11);
    assert("token1_price_usd"@.len() == 16);
    assert("token1_symbol"@.len() == 13);
    assert("trade_direction"@.len() == 15);
    assert("tx_hash"@.len() == 7);
    assert("tx_type"@.len() == 7);
    assert("unrealized_pnl"@.len() == 14);
    assert("wallet"@.len() == 6);
    assert("wallet_label"@.len() == 12);
    assert("thumbnail"@[1] == 'h');
    assert("timestamp"@[1] == 'i');
    let ms = spec_encode_perp(s);
    let mand: Seq<(Seq<char>, JsonVal)> = seq![
        ("wallet"@, JsonVal::Str(s.wallet)),
        ("wallet_label"@, JsonVal::Str(s.wallet_label)),
        ("tx_hash"@, JsonVal::Str(s.tx_hash)),
        ("tx_type"@, JsonVal::Str(s.tx_type)),
        ("chain"@, JsonVal::Str(s.chain)),
        ("index"@, JsonVal::Num(JsonNumber::PosInt(s.index as u64))),
        ("timestamp"@, JsonVal::Num(JsonNumber::PosInt(s.timestamp))),
        ("block"@, JsonVal::Num(JsonNumber::PosInt(s.block))),
        ("action"@, JsonVal::Str(s.action)),
        ("amount_usd"@, JsonVal::Num(s.amount_usd)),
        ("average_price"@, JsonVal::Num(s.average_price)),
        ("base_token_address"@, JsonVal::Str(s.base_token_address)),
        ("base_token_amount"@, JsonVal::Num(s.base_token_amount)),
        ("base_token_symbol"@, JsonVal::Str(s.base_token_symbol)),
        ("dex"@, JsonVal::Str(s.dex)),
        ("from"@, JsonVal::Str(s.from)),
        ("liquidation"@, JsonVal::Bool(s.liquidation)),
        ("liquidation_price"@, JsonVal::Num(s.liquidation_price)),
        ("to"@, JsonVal::Str(s.to)),
        ("trade_direction"@, JsonVal::Str(s.trade_direction)),
        ("perp_details"@, JsonVal::Str(s.perp_details)),
        ("token0_address"@, JsonVal::Str(s.token0_address)),
        ("token0_amount"@, JsonVal::Num(s.token0_amount)),
        ("token0_amount_usd"@, JsonVal::Num(s.token0_amount_usd)),
        ("token0_name"@, JsonVal::Str(s.token0_name)),
        ("token0_price_usd"@, JsonVal::Num(s.token0_price_usd)),
        ("token0_symbol"@, JsonVal::Str(s.token0_symbol)),
        ("token0_icon_link"@, JsonVal::Str(s.token0_icon_link)),
        ("token1_address"@, JsonVal::Str(s.token1_address)),
        ("token1_amount"@, JsonVal::Num(s.token1_amount)),
        ("token1_amount_usd"@, JsonVal::Num(s.token1_amount_usd)),
        ("token1_name"@, JsonVal::Str(s.token1_name)),
        ("token1_price_usd"@, JsonVal::Num(s.token1_price_usd)),
        ("token1_symbol"@, JsonVal::Str(s.token1_symbol)),
        ("token1_icon_link"@, JsonVal::Str(s.token1_icon_link)),
        ("realized_pnl"@, JsonVal::Num(s.realized_pnl)),
        ("is_nft_perp"@, JsonVal::Bool(s.is_nft_perp)),
    ];
    let ov_position_size: Option<JsonVal> = match s.position_size { Option::Some(x) => Option::Some(JsonVal::Num(x)), Option::None => Option::None };
    let seg_position_size = opt_member("position_size"@, ov_position_size);
    let ov_position_size_usd: Option<JsonVal> = match s.position_size_usd { Option::Some(x) => Option::Some(JsonVal::Num(x)), Option::None => Option::None };
    let seg_position_size_usd = opt_member("position_size_usd"@, ov_position_size_usd);
    let ov_leverage: Option<JsonVal> = match s.leverage { Option::Some(x) => Option::Some(JsonVal::Num(x)), Option::None => Option::None };
    let seg_leverage = opt_member("leverage"@, ov_leverage);
    let ov_unrealized_pnl: Option<JsonVal> = match s.unrealized_pnl { Option::Some(x) => Option::Some(JsonVal::Num(x)), Option::None => Option::None };
    let seg_unrealized_pnl = opt_member("unrealized_pnl"@, ov_unrealized_pnl);
    let tail_4 = seg_unrealized_pnl;
    let tail_3 = seg_leverage + tail_4;
    let tail_2 = seg_position_size_usd + tail_3;
    let tail_1 = seg_position_size + tail_2;
    assert(mand.len() == 37);
    assert(mand[0].0 == "wallet"@);
    assert(mand[1].0 == "wallet_label"@);
    assert(mand[2].0 == "tx_hash"@);
    assert(mand[3].0 == "tx_type"@);
    assert(mand[4].0 == "chain"@);
    assert(mand[5].0 == "index"@);
    assert(mand[6].0 == "timestamp"@);
    assert(mand[7].0 == "block"@);
    assert(mand[8].0 == "action"@);
    assert(mand[9].0 == "amount_usd"@);
    assert(mand[10].0 == "average_price"@);
    assert(mand[11].0 == "base_token_address"@);
    assert(mand[12].0 == "base_token_amount"@);
    assert(mand[13].0 == "base_token_symbol"@);
    assert(mand[14].0 == "dex"@);
    assert(mand[15].0 == "from"@);
    assert(mand[16].0 == "liquidation"@);
    assert(mand[17].0 == "liquidation_price"@);
    assert(mand[18].0 == "to"@);
    assert(mand[19].0 == "trade_direction"@);
    assert(mand[20].0 == "perp_details"@);
    assert(mand[21].0 == "token0_address"@);
    assert(mand[22].0 == "token0_amount"@);
    assert(mand[23].0 == "token0_amount_usd"@);
    assert(mand[24].0 == "token0_name"@);
    assert(mand[25].0 == "token0_price_usd"@);
    assert(mand[26].0 == "token0_symbol"@);
    assert(mand[27].0 == "token0_icon_link"@);
    assert(mand[28].0 == "token1_address"@);
    assert(mand[29].0 == "token1_amount"@);
    assert(mand[30].0 == "token1_amount_usd"@);
    assert(mand[31].0 == "token1_name"@);
    assert(mand[32].0 == "token1_price_usd"@);
    assert(mand[33].0 == "token1_symbol"@);
    assert(mand[34].0 == "token1_icon_link"@);
    assert(mand[35].0 == "realized_pnl"@);
    assert(mand[36].0 == "is_nft_perp"@);
    assert forall|j: int| 0 <= j < mand.len() implies mand[j].0 != "thumbnail"@ by {
        if j == 0 {
        } else if j == 1 {
        } else if j == 2 {
        } else if j == 3 {
        } else if j == 4 {
        } else if j == 5 {
        } else if j == 6 {
        } else if j == 7 {
        } else if j == 8 {
        } else if j == 9 {
        } else if j == 10 {
        } else if j == 11 {
        } else if j == 12 {
        } else if j == 13 {
        } else if j == 14 {
        } else if j == 15 {
        } else if j == 16 {
        } else if j == 17 {
        } else if j == 18 {
        } else if j == 19 {
        } else if j == 20 {
        } else if j == 21 {
        } else if j == 22 {
        } else if j == 23 {
        } else if j == 24 {
        } else if j == 25 {
        } else if j == 26 {
        } else if j == 27 {
        } else if j == 28 {
        } else if j == 29 {
        } else if j == 30 {
        } else if j == 31 {
        } else if j == 32 {
        } else if j == 33 {
        } else if j == 34 {
        } else if j == 35 {
        } else if j == 36 {
        } else {
        }
    }
    lemma_lookup_absent(mand, "thumbnail"@);
    lemma_opt_member_lookup("position_size"@, ov_position_size, "thumbnail"@);
    lemma_opt_member_lookup("position_size_usd"@, ov_position_size_usd, "thumbnail"@);
    lemma_opt_member_lookup("leverage"@, ov_leverage, "thumbnail"@);
    lemma_opt_member_lookup("unrealized_pnl"@, ov_unrealized_pnl, "thumbnail"@);
    lemma_lookup_absent_concat(seg_leverage, tail_4, "thumbnail"@);
    lemma_lookup_absent_concat(seg_position_size_usd, tail_3, "thumbnail"@);
    lemma_lookup_absent_concat(seg_position_size, tail_2, "thumbnail"@);
    lemma_lookup_absent_concat(mand, tail_1, "thumbnail"@);
    assert(ms == mand + tail_1);
    assert(spec_decode_nft_trade(ms) is None);
}

/// An encoded `perp` record lacks `from_label`, which the `nft_transfer` shape needs.
#[verifier::spinoff_prover]
proof fn lemma_perp_not_nft_transfer(s: PerpV)
    ensures
        spec_decode_nft_transfer(spec_encode_perp(s)) is None,
{
    reveal_strlit("action");
    reveal_strlit("amount_usd");
    reveal_strlit("average_price");
    reveal_strlit("base_token_address");
    reveal_strlit("base_token_amount");
    reveal_strlit("base_token_symbol");
    reveal_strlit("block");
    reveal_strlit("chain");
    reveal_strlit("dex");
    reveal_strlit("from");
    reveal_strlit("from_label");
    reveal_strlit("index");
    reveal_strlit("is_nft_perp");
    reveal_strlit("leverage");
    reveal_strlit("liquidation");
    reveal_strlit("liquidation_price");
    reveal_strlit("perp_details");
    reveal_strlit("position_size");
    reveal_strlit("position_size_usd");
    reveal_strlit("realized_pnl");
    reveal_strlit("timestamp");
    reveal_strlit("to");
    reveal_strlit("token0_address");
    reveal_strlit("token0_amount");
    reveal_strlit("token0_amount_usd");
    reveal_strlit("token0_icon_link");
    reveal_strlit("token0_name");
    reveal_strlit("token0_price_usd");
    reveal_strlit("token0_symbol");
    reveal_strlit("token1_address");
    reveal_strlit("token1_amount");
    reveal_strlit("token1_amount_usd");
    reveal_strlit("token1_icon_link");
    reveal_strlit("token1_name");
    reveal_strlit("token1_price_usd");
    reveal_strlit("token1_symbol");
    reveal_strlit("trade_direction");
    reveal_strlit("tx_hash");
    reveal_strlit("tx_type");
    reveal_strlit("unrealized_pnl");
    reveal_strlit("wallet");
    reveal_strlit("wallet_label");
    assert("action"@.len() == 6);
    assert("amount_usd"@.len() == 10);
    assert("average_price"@.len() == 13);
    assert("base_token_address"@.len() == 18);
    assert("base_token_amount"@.len() == 17);
    assert("base_token_symbol"@.len() == 17);
    assert("block"@.len() == 5);
    assert("chain"@.len() == 5);
    assert("dex"@.len() == 3);
    assert("from"@.len() == 4);
    assert("from_label"@.len() == 10);
    assert("index"@.len() == 5);
    assert("is_nft_perp"@.len() == 11);
    assert("leverage"@.len() == 8);
    assert("liquidation"@.len() == 11);
    assert("liquidation_price"@.len() == 17);
    assert("perp_details"@.len() == 12);
    assert("position_size"@.len() == 13);
    assert("position_size_usd"@.len() == 17);
    assert("realized_pnl"@.len() == 12);
    assert("timestamp"@.len() == 9);
    assert("to"@.len() == 2);
    assert("token0_address"@.len() == 14);
    assert("token0_amount"@.len() == 13);
    assert("token0_amount_usd"@.len() == 17);
    assert("token0_icon_link"@.len() == 16);
    assert("token0_name"@.len() == 11);
    assert("token0_price_usd"@.len() == 16);
    assert("token0_symbol"@.len() == 13);
    assert("token1_address"@.len() == 14);
    assert("token1_amount"@.len() == 13);
    assert("token1_amount_usd"@.len() == 17);
    assert("token1_icon_link"@.len() == 16);
    assert("token1_name"@.len() == 11);
    assert("token1_price_usd"@.len() == 16);
    assert("token1_symbol"@.len() == 13);
    assert("trade_direction"@.len() == 15);
    assert("tx_hash"@.len() == 7);
    assert("tx_type"@.len() == 7);
    assert("unrealized_pnl"@.len() == 14);
    assert("wallet"@.len() == 6);
    assert("wallet_label"@.len() == 12);
    assert("amount_usd"@[0] == 'a');
    assert("from_label"@[0] == 'f');
    let ms = spec_encode_perp(s);
    let mand: Seq<(Seq<char>, JsonVal)> = seq![
        ("wallet"@, JsonVal::Str(s.wallet)),
        ("wallet_label"@, JsonVal::Str(s.wallet_label)),
        ("tx_hash"@, JsonVal::Str(s.tx_hash)),
        ("tx_type"@, JsonVal::Str(s.tx_type)),
        ("chain"@, JsonVal::Str(s.chain)),
        ("index"@, JsonVal::Num(JsonNumber::PosInt(s.index as u64))),
        ("timestamp"@, JsonVal::Num(JsonNumber::PosInt(s.timestamp))),
        ("block"@, JsonVal::Num(JsonNumber::PosInt(s.block))),
        ("action"@, JsonVal::Str(s.action)),
        ("amount_usd"@, JsonVal::Num(s.amount_usd)),
        ("average_price"@, JsonVal::Num(s.average_price)),
        ("base_token_address"@, JsonVal::Str(s.base_token_address)),
        ("base_token_amount"@, JsonVal::Num(s.base_token_amount)),
        ("base_token_symbol"@, JsonVal::Str(s.base_token_symbol)),
        ("dex"@, JsonVal::Str(s.dex)),
        ("from"@, JsonVal::Str(s.from)),
        ("liquidation"@, JsonVal::Bool(s.liquidation)),
        ("liquidation_price"@, JsonVal::Num(s.liquidation_price)),
        ("to"@, JsonVal::Str(s.to)),
        ("trade_direction"@, JsonVal::Str(s.trade_direction)),
        ("perp_details"@, JsonVal::Str(s.perp_details)),
        ("token0_address"@, JsonVal::Str(s.token0_address)),
        ("token0_amount"@, JsonVal::Num(s.token0_amount)),
        ("token0_amount_usd"@, JsonVal::Num(s.token0_amount_usd)),
        ("token0_name"@, JsonVal::Str(s.token0_name)),
        ("token0_price_usd"@, JsonVal::Num(s.token0_price_usd)),
        ("token0_symbol"@, JsonVal::Str(s.token0_symbol)),
        ("token0_icon_link"@, JsonVal::Str(s.token0_icon_link)),
        ("token1_address"@, JsonVal::Str(s.token1_address)),
        ("token1_amount"@, JsonVal::Num(s.token1_amount)),
        ("token1_amount_usd"@, JsonVal::Num(s.token1_amount_usd)),
        ("token1_name"@, JsonVal::Str(s.token1_name)),
        ("token1_price_usd"@, JsonVal::Num(s.token1_price_usd)),
        ("token1_symbol"@, JsonVal::Str(s.token1_symbol)),
        ("token1_icon_link"@, JsonVal::Str(s.token1_icon_link)),
        ("realized_pnl"@, JsonVal::Num(s.realized_pnl)),
        ("is_nft_perp"@, JsonVal::Bool(s.is_nft_perp)),
    ];
    let ov_position_size: Option<JsonVal> = match s.position_size { Option::Some(x) => Option::Some(JsonVal::Num(x)), Option::None => Option::None };
    let seg_position_size = opt_member("position_size"@, ov_position_size);
    let ov_position_size_usd: Option<JsonVal> = match s.position_size_usd { Option::Some(x) => Option::Some(JsonVal::Num(x)), Option::None => Option::None };
    let seg_position_size_usd = opt_member("position_size_usd"@, ov_position_size_usd);
    let ov_leverage: Option<JsonVal> = match s.leverage { Option::Some(x) => Option::Some(JsonVal::Num(x)), Option::None => Option::None };
    let seg_leverage = opt_member("leverage"@, ov_leverage);
    let ov_unrealized_pnl: Option<JsonVal> = match s.unrealized_pnl { Option::Some(x) => Option::Some(JsonVal::Num(x)), Option::None => Option::None };
    let seg_unrealized_pnl = opt_member("unrealized_pnl"@, ov_unrealized_pnl);
    let tail_4 = seg_unrealized_pnl;
    let tail_3 = seg_leverage + tail_4;
    let tail_2 = seg_position_size_usd + tail_3;
    let tail_1 = seg_position_size + tail_2;
    assert(mand.len() == 37);
    assert(mand[0].0 == "wallet"@);
    assert(mand[1].0 == "wallet_label"@);
    assert(mand[2].0 == "tx_hash"@);
    assert(mand[3].0 == "tx_type"@);
    assert(mand[4].0 == "chain"@);
    assert(mand[5].0 == "index"@);
    assert(mand[6].0 == "timestamp"@);
    assert(mand[7].0 == "block"@);
    assert(mand[8].0 == "action"@);
    assert(mand[9].0 == "amount_usd"@);
    assert(mand[10].0 == "average_price"@);
    assert(mand[11].0 == "base_token_address"@);
    assert(mand[12].0 == "base_token_amount"@);
    assert(mand[13].0 == "base_token_symbol"@);
    assert(mand[14].0 == "dex"@);
    assert(mand[15].0 == "from"@);
    assert(mand[16].0 == "liquidation"@);
    assert(mand[17].0 == "liquidation_price"@);
    assert(mand[18].0 == "to"@);
    assert(mand[19].0 == "trade_direction"@);
    assert(mand[20].0 == "perp_details"@);
    assert(mand[21].0 == "token0_address"@);
    assert(mand[22].0 == "token0_amount"@);
    assert(mand[23].0 == "token0_amount_usd"@);
    assert(mand[24].0 == "token0_name"@);
    assert(mand[25].0 == "token0_price_usd"@);
    assert(mand[26].0 == "token0_symbol"@);
    assert(mand[27].0 == "token0_icon_link"@);
    assert(mand[28].0 == "token1_address"@);
    assert(mand[29].0 == "token1_amount"@);
    assert(mand[30].0 == "token1_amount_usd"@);
    assert(mand[31].0 == "token1_name"@);
    assert(mand[32].0 == "token1_price_usd"@);
    assert(mand[33].0 == "token1_symbol"@);
    assert(mand[34].0 == "token1_icon_link"@);
    assert(mand[35].0 == "realized_pnl"@);
    assert(mand[36].0 == "is_nft_perp"@);
    assert forall|j: int| 0 <= j < mand.len() implies mand[j].0 != "from_label"@ by {
        if j == 0 {
        } else if j == 1 {
        } else if j == 2 {
        } else if j == 3 {
        } else if j == 4 {
        } else if j == 5 {
        } else if j == 6 {
        } else if j == 7 {
        } else if j == 8 {
        } else if j == 9 {
        } else if j == 10 {
        } else if j == 11 {
        } else if j == 12 {
        } else if j == 13 {
        } else if j == 14 {
        } else if j == 15 {
        } else if j == 16 {
        } else if j == 17 {
        } else if j == 18 {
        } else if j == 19 {
        } else if j == 20 {
        } else if j == 21 {
        } else if j == 22 {
        } else if j == 23 {
        } else if j == 24 {
        } else if j == 25 {
        } else if j == 26 {
        } else if j == 27 {
        } else if j == 28 {
        } else if j == 29 {
        } else if j == 30 {
        } else if j == 31 {
        } else if j == 32 {
        } else if j == 33 {
        } else if j == 34 {
        } else if j == 35 {
        } else if j == 36 {
        } else {
        }
    }
    lemma_lookup_absent(mand, "from_label"@);
    lemma_opt_member_lookup("position_size"@, ov_position_size, "from_label"@);
    lemma_opt_member_lookup("position_size_usd"@, ov_position_size_usd, "from_label"@);
    lemma_opt_member_lookup("leverage"@, ov_leverage, "from_label"@);
    lemma_opt_member_lookup("unrealized_pnl"@, ov_unrealized_pnl, "from_label"@);
    lemma_lookup_absent_concat(seg_leverage, tail_4, "from_label"@);
    lemma_lookup_absent_concat(seg_position_size_usd, tail_3, "from_label"@);
    lemma_lookup_absent_concat(seg_position_size, tail_2, "from_label"@);
    lemma_lookup_absent_concat(mand, tail_1, "from_label"@);
    assert(ms == mand + tail_1);
    assert(spec_decode_nft_transfer(ms) is None);
}

/// An encoded `perp` record lacks `from_label`, which the `nft_lending` shape needs.
#[verifier::spinoff_prover]
proof fn lemma_perp_not_nft_lending(s: PerpV)
    ensures
        spec_decode_nft_lending(spec_encode_perp(s)) is None,
{
    reveal_strlit("action");
    reveal_strlit("amount_usd");
    reveal_strlit("average_price");
    reveal_strlit("base_token_address");
    reveal_strlit("base_token_amount");
    reveal_strlit("base_token_symbol");
    reveal_strlit("block");
    reveal_strlit("chain");
    reveal_strlit("dex");
    reveal_strlit("from");
    reveal_strlit("from_label");
    reveal_strlit("index");
    reveal_strlit("is_nft_perp");
    reveal_strlit("leverage");
    reveal_strlit("liquidation");
    reveal_strlit("liquidation_price");
    reveal_strlit("perp_details");
    reveal_strlit("position_size");
    reveal_strlit("position_size_usd");
    reveal_strlit("realized_pnl");
    reveal_strlit("timestamp");
    reveal_strlit("to");
    reveal_strlit("token0_address");
    reveal_strlit("token0_amount");
    reveal_strlit("token0_amount_usd");
    reveal_strlit("token0_icon_link");
    reveal_strlit("token0_name");
    reveal_strlit("token0_price_usd");
    reveal_strlit("token0_symbol");
    reveal_strlit("token1_address");
    reveal_strlit("token1_amount");
    reveal_strlit("token1_amount_usd");
    reveal_strlit("token1_icon_link");
    reveal_strlit("token1_name");
    reveal_strlit("token1_price_usd");
    reveal_strlit("token1_symbol");
    reveal_strlit("trade_direction");
    reveal_strlit("tx_hash");
    reveal_strlit("tx_type");
    reveal_strlit("unrealized_pnl");
    reveal_strlit("wallet");
    reveal_strlit("wallet_label");
    assert("action"@.len() == 6);
    assert("amount_usd"@.len() == 10);
    assert("average_price"@.len() == 13);
    assert("base_token_address"@.len() == 18);
    assert("base_token_amount"@.len() == 17);
    assert("base_token_symbol"@.len() == 17);
    assert("block"@.len() == 5);
    assert("chain"@.len() == 5);
    assert("dex"@.len() == 3);
    assert("from"@.len() == 4);
    assert("from_label"@.len() == 10);
    assert("index"@.len() == 5);
    assert("is_nft_perp"@.len() == 11);
    assert("leverage"@.len() == 8);
    assert("liquidation"@.len() == 11);
    assert("liquidation_price"@.len() == 17);
    assert("perp_details"@.len() == 12);
    assert("position_size"@.len() == 13);
    assert("position_size_usd"@.len() == 17);
    assert("realized_pnl"@.len() == 12);
    assert("timestamp"@.len() == 9);
    assert("to"@.len() == 2);
    assert("token0_address"@.len() == 14);
    assert("token0_amount"@.len() == 13);
    assert("token0_amount_usd"@.len() == 17);
    assert("token0_icon_link"@.len() == 16);
    assert("token0_name"@.len() == 11);
    assert("token0_price_usd"@.len() == 16);
    assert("token0_symbol"@.len() == 13);
    assert("token1_address"@.len() == 14);
    assert("token1_amount"@.len() == 13);
    assert("token1_amount_usd"@.len() == 17);
    assert("token1_icon_link"@.len() == 16);
    assert("token1_name"@.len() == 11);
    assert("token1_price_usd"@.len() == 16);
    assert("token1_symbol"@.len() == 13);
    assert("trade_direction"@.len() == 15);
    assert("tx_hash"@.len() == 7);
    assert("tx_type"@.len() == 7);
    assert("unrealized_pnl"@.len() == 14);
    assert("wallet"@.len() == 6);
    assert("wallet_label"@.len() == 12);
    assert("amount_usd"@[0] == 'a');
    assert("from_label"@[0] == 'f');
    let ms = spec_encode_perp(s);
    let mand: Seq<(Seq<char>, JsonVal)> = seq![
        ("wallet"@, JsonVal::Str(s.wallet)),
        ("wallet_label"@, JsonVal::Str(s.wallet_label)),
        ("tx_hash"@, JsonVal::Str(s.tx_hash)),
        ("tx_type"@, JsonVal::Str(s.tx_type)),
        ("chain"@, JsonVal::Str(s.chain)),
        ("index"@, JsonVal::Num(JsonNumber::PosInt(s.index as u64))),
        ("timestamp"@, JsonVal::Num(JsonNumber::PosInt(s.timestamp))),
        ("block"@, JsonVal::Num(JsonNumber::PosInt(s.block))),
        ("action"@, JsonVal::Str(s.action)),
        ("amount_usd"@, JsonVal::Num(s.amount_usd)),
        ("average_price"@, JsonVal::Num(s.average_price)),
        ("base_token_address"@, JsonVal::Str(s.base_token_address)),
        ("base_token_amount"@, JsonVal::Num(s.base_token_amount)),
        ("base_token_symbol"@, JsonVal::Str(s.base_token_symbol)),
        ("dex"@, JsonVal::Str(s.dex)),
        ("from"@, JsonVal::Str(s.from)),
        ("liquidation"@, JsonVal::Bool(s.liquidation)),
        ("liquidation_price"@, JsonVal::Num(s.liquidation_price)),
        ("to"@, JsonVal::Str(s.to)),
        ("trade_direction"@, JsonVal::Str(s.trade_direction)),
        ("perp_details"@, JsonVal::Str(s.perp_details)),
        ("token0_address"@, JsonVal::Str(s.token0_address)),
        ("token0_amount"@, JsonVal::Num(s.token0_amount)),
        ("token0_amount_usd"@, JsonVal::Num(s.token0_amount_usd)),
        ("token0_name"@, JsonVal::Str(s.token0_name)),
        ("token0_price_usd"@, JsonVal::Num(s.token0_price_usd)),
        ("token0_symbol"@, JsonVal::Str(s.token0_symbol)),
        ("token0_icon_link"@, JsonVal::Str(s.token0_icon_link)),
        ("token1_address"@, JsonVal::Str(s.token1_address)),
        ("token1_amount"@, JsonVal::Num(s.token1_amount)),
        ("token1_amount_usd"@, JsonVal::Num(s.token1_amount_usd)),
        ("token1_name"@, JsonVal::Str(s.token1_name)),
        ("token1_price_usd"@, JsonVal::Num(s.token1_price_usd)),
        ("token1_symbol"@, JsonVal::Str(s.token1_symbol)),
        ("token1_icon_link"@, JsonVal::Str(s.token1_icon_link)),
        ("realized_pnl"@, JsonVal::Num(s.realized_pnl)),
        ("is_nft_perp"@, JsonVal::Bool(s.is_nft_perp)),
    ];
    let ov_position_size: Option<JsonVal> = match s.position_size { Option::Some(x) => Option::Some(JsonVal::Num(x)), Option::None => Option::None };
    let seg_position_size = opt_member("position_size"@, ov_position_size);
    let ov_position_size_usd: Option<JsonVal> = match s.position_size_usd { Option::Some(x) => Option::Some(JsonVal::Num(x)), Option::None => Option::None };
    let seg_position_size_usd = opt_member("position_size_usd"@, ov_position_size_usd);
    let ov_leverage: Option<JsonVal> = match s.leverage { Option::Some(x) => Option::Some(JsonVal::Num(x)), Option::None => Option::None };
    let seg_leverage = opt_member("leverage"@, ov_leverage);
    let ov_unrealized_pnl: Option<JsonVal> = match s.unrealized_pnl { Option::Some(x) => Option::Some(JsonVal::Num(x)), Option::None => Option::None };
    let seg_unrealized_pnl = opt_member("unrealized_pnl"@, ov_unrealized_pnl);
    let tail_4 = seg_unrealized_pnl;
    let tail_3 = seg_leverage + tail_4;
    let tail_2 = seg_position_size_usd + tail_3;
    let tail_1 = seg_position_size + tail_2;
    assert(mand.len() == 37);
    assert(mand[0].0 == "wallet"@);
    assert(mand[1].0 == "wallet_label"@);
    assert(mand[2].0 == "tx_hash"@);
    assert(mand[3].0 == "tx_type"@);
    assert(mand[4].0 == "chain"@);
    assert(mand[5].0 == "index"@);
    assert(mand[6].0 == "timestamp"@);
    assert(mand[7].0 == "block"@);
    assert(mand[8].0 == "action"@);
    assert(mand[9].0 == "amount_usd"@);
    assert(mand[10].0 == "average_price"@);
    assert(mand[11].0 == "base_token_address"@);
    assert(mand[12].0 == "base_token_amount"@);
    assert(mand[13].0 == "base_token_symbol"@);
    assert(mand[14].0 == "dex"@);
    assert(mand[15].0 == "from"@);
    assert(mand[16].0 == "liquidation"@);
    assert(mand[17].0 == "liquidation_price"@);
    assert(mand[18].0 == "to"@);
    assert(mand[19].0 == "trade_direction"@);
    assert(mand[20].0 == "perp_details"@);
    assert(mand[21].0 == "token0_address"@);
    assert(mand[22].0 == "token0_amount"@);
    assert(mand[23].0 == "token0_amount_usd"@);
    assert(mand[24].0 == "token0_name"@);
    assert(mand[25].0 == "token0_price_usd"@);
    assert(mand[26].0 == "token0_symbol"@);
    assert(mand[27].0 == "token0_icon_link"@);
    assert(mand[28].0 == "token1_address"@);
    assert(mand[29].0 == "token1_amount"@);
    assert(mand[30].0 == "token1_amount_usd"@);
    assert(mand[31].0 == "token1_name"@);
    assert(mand[32].0 == "token1_price_usd"@);
    assert(mand[33].0 == "token1_symbol"@);
    assert(mand[34].0 == "token1_icon_link"@);
    assert(mand[35].0 == "realized_pnl"@);
    assert(mand[36].0 == "is_nft_perp"@);
    assert forall|j: int| 0 <= j < mand.len() implies mand[j].0 != "from_label"@ by {
        if j == 0 {
        } else if j == 1 {
        } else if j == 2 {
        } else if j == 3 {
        } else if j == 4 {
        } else if j == 5 {
        } else if j == 6 {
        } else if j == 7 {
        } else if j == 8 {
        } else if j == 9 {
        } else if j == 10 {
        } else if j == 11 {
        } else if j == 12 {
        } else if j == 13 {
        } else if j == 14 {
        } else if j == 15 {
        } else if j == 16 {
        } else if j == 17 {
        } else if j == 18 {
        } else if j == 19 {
        } else if j == 20 {
        } else if j == 21 {
        } else if j == 22 {
        } else if j == 23 {
        } else if j == 24 {
        } else if j == 25 {
        } else if j == 26 {
        } else if j == 27 {
        } else if j == 28 {
        } else if j == 29 {
        } else if j == 30 {
        } else if j == 31 {
        } else if j == 32 {
        } else if j == 33 {
        } else if j == 34 {
        } else if j == 35 {
        } else if j == 36 {
        } else {
        }
    }
    lemma_lookup_absent(mand, "from_label"@);
    lemma_opt_member_lookup("position_size"@, ov_position_size, "from_label"@);
    lemma_opt_member_lookup("position_size_usd"@, ov_position_size_usd, "from_label"@);
    lemma_opt_member_lookup("leverage"@, ov_leverage, "from_label"@);
    lemma_opt_member_lookup("unrealized_pnl"@, ov_unrealized_pnl, "from_label"@);
    lemma_lookup_absent_concat(seg_leverage, tail_4, "from_label"@);
    lemma_lookup_absent_concat(seg_position_size_usd, tail_3, "from_label"@);
    lemma_lookup_absent_concat(seg_position_size, tail_2, "from_label"@);
    lemma_lookup_absent_concat(mand, tail_1, "from_label"@);
    assert(ms == mand + tail_1);
    assert(spec_decode_nft_lending(ms) is None);
}

/// An encoded `perp` record lacks `from_label`, which the `bridge` shape needs.
#[verifier::spinoff_prover]
proof fn lemma_perp_not_bridge(s: PerpV)
    ensures
        spec_decode_bridge(spec_encode_perp(s)) is None,
{
    reveal_strlit("action");
    reveal_strlit("amount_usd");
    reveal_strlit("average_price");
    reveal_strlit("base_token_address");
    reveal_strlit("base_token_amount");
    reveal_strlit("base_token_symbol");
    reveal_strlit("block");
    reveal_strlit("chain");
    reveal_strlit("dex");
    reveal_strlit("from");
    reveal_strlit("from_label");
    reveal_strlit("index");
    reveal_strlit("is_nft_perp");
    reveal_strlit("leverage");
    reveal_strlit("liquidation");
    reveal_strlit("liquidation_price");
    reveal_strlit("perp_details");
    reveal_strlit("position_size");
    reveal_strlit("position_size_usd");
    reveal_strlit("realized_pnl");
    reveal_strlit("timestamp");
    reveal_strlit("to");
    reveal_strlit("token0_address");
    reveal_strlit("token0_amount");
    reveal_strlit("token0_amount_usd");
    reveal_strlit("token0_icon_link");
    reveal_strlit("token0_name");
    reveal_strlit("token0_price_usd");
    reveal_strlit("token0_symbol");
    reveal_strlit("token1_address");
    reveal_strlit("token1_amount");
    reveal_strlit("token1_amount_usd");
    reveal_strlit("token1_icon_link");
    reveal_strlit("token1_name");
    reveal_strlit("token1_price_usd");
    reveal_strlit("token1_symbol");
    reveal_strlit("trade_direction");
    reveal_strlit("tx_hash");
    reveal_strlit("tx_type");
    reveal_strlit("unrealized_pnl");
    reveal_strlit("wallet");
    reveal_strlit("wallet_label");
    assert("action"@.len() == 6);
    assert("amount_usd"@.len() == 10);
    assert("average_price"@.len() == 13);
    assert("base_token_address"@.len() == 18);
    assert("base_token_amount"@.len() == 17);
    assert("base_token_symbol"@.len() == 17);
    assert("block"@.len() == 5);
    assert("chain"@.len() == 5);
    assert("dex"@.len() == 3);
    assert("from"@.len() == 4);
    assert("from_label"@.len() == 10);
    assert("index"@.len() == 5);
    assert("is_nft_perp"@.len() == 11);
    assert("leverage"@.len() == 8);
    assert("liquidation"@.len() == 11);
    assert("liquidation_price"@.len() == 17);
    assert("perp_details"@.len() == 12);
    assert("position_size"@.len() == 13);
    assert("position_size_usd"@.len() == 17);
    assert("realized_pnl"@.len() == 12);
    assert("timestamp"@.len() == 9);
    assert("to"@.len() == 2);
    assert("token0_address"@.len() == 14);
    assert("token0_amount"@.len() == 13);
    assert("token0_amount_usd"@.len() == 17);
    assert("token0_icon_link"@.len() == 16);
    assert("token0_name"@.len() == 11);
    assert("token0_price_usd"@.len() == 16);
    assert("token0_symbol"@.len() == 13);
    assert("token1_address"@.len() == 14);
    assert("token1_amount"@.len() == 13);
    assert("token1_amount_usd"@.len() == 17);
    assert("token1_icon_link"@.len() == 16);
    assert("token1_name"@.len() == 11);
    assert("token1_price_usd"@.len() == 16);
    assert("token1_symbol"@.len() == 13);
    assert("trade_direction"@.len() == 15);
    assert("tx_hash"@.len() == 7);
    assert("tx_type"@.len() == 7);
    assert("unrealized_pnl"@.len() == 14);
    assert("wallet"@.len() == 6);
    assert("wallet_label"@.len() == 12);
    assert("amount_usd"@[0] == 'a');
    assert("from_label"@[0] == 'f');
    let ms = spec_encode_perp(s);
    let mand: Seq<(Seq<char>, JsonVal)> = seq![
        ("wallet"@, JsonVal::Str(s.wallet)),
        ("wallet_label"@, JsonVal::Str(s.wallet_label)),
        ("tx_hash"@, JsonVal::Str(s.tx_hash)),
        ("tx_type"@, JsonVal::Str(s.tx_type)),
        ("chain"@, JsonVal::Str(s.chain)),
        ("index"@, JsonVal::Num(JsonNumber::PosInt(s.index as u64))),
        ("timestamp"@, JsonVal::Num(JsonNumber::PosInt(s.timestamp))),
        ("block"@, JsonVal::Num(JsonNumber::PosInt(s.block))),
        ("action"@, JsonVal::Str(s.action)),
        ("amount_usd"@, JsonVal::Num(s.amount_usd)),
        ("average_price"@, JsonVal::Num(s.average_price)),
        ("base_token_address"@, JsonVal::Str(s.base_token_address)),
        ("base_token_amount"@, JsonVal::Num(s.base_token_amount)),
        ("base_token_symbol"@, JsonVal::Str(s.base_token_symbol)),
        ("dex"@, JsonVal::Str(s.dex)),
        ("from"@, JsonVal::Str(s.from)),
        ("liquidation"@, JsonVal::Bool(s.liquidation)),
        ("liquidation_price"@, JsonVal::Num(s.liquidation_price)),
        ("to"@, JsonVal::Str(s.to)),
        ("trade_direction"@, JsonVal::Str(s.trade_direction)),
        ("perp_details"@, JsonVal::Str(s.perp_details)),
        ("token0_address"@, JsonVal::Str(s.token0_address)),
        ("token0_amount"@, JsonVal::Num(s.token0_amount)),
        ("token0_amount_usd"@, JsonVal::Num(s.token0_amount_usd)),
        ("token0_name"@, JsonVal::Str(s.token0_name)),
        ("token0_price_usd"@, JsonVal::Num(s.token0_price_usd)),
        ("token0_symbol"@, JsonVal::Str(s.token0_symbol)),
        ("token0_icon_link"@, JsonVal::Str(s.token0_icon_link)),
        ("token1_address"@, JsonVal::Str(s.token1_address)),
        ("token1_amount"@, JsonVal::Num(s.token1_amount)),
        ("token1_amount_usd"@, JsonVal::Num(s.token1_amount_usd)),
        ("token1_name"@, JsonVal::Str(s.token1_name)),
        ("token1_price_usd"@, JsonVal::Num(s.token1_price_usd)),
        ("token1_symbol"@, JsonVal::Str(s.token1_symbol)),
        ("token1_icon_link"@, JsonVal::Str(s.token1_icon_link)),
        ("realized_pnl"@, JsonVal::Num(s.realized_pnl)),
        ("is_nft_perp"@, JsonVal::Bool(s.is_nft_perp)),
    ];
    let ov_position_size: Option<JsonVal> = match s.position_size { Option::Some(x) => Option::Some(JsonVal::Num(x)), Option::None => Option::None };
    let seg_position_size = opt_member("position_size"@, ov_position_size);
    let ov_position_size_usd: Option<JsonVal> = match s.position_size_usd { Option::Some(x) => Option::Some(JsonVal::Num(x)), Option::None => Option::None };
    let seg_position_size_usd = opt_member("position_size_usd"@, ov_position_size_usd);
    let ov_leverage: Option<JsonVal> = match s.leverage { Option::Some(x) => Option::Some(JsonVal::Num(x)), Option::None => Option::None };
    let seg_leverage = opt_member("leverage"@, ov_leverage);
    let ov_unrealized_pnl: Option<JsonVal> = match s.unrealized_pnl { Option::Some(x) => Option::Some(JsonVal::Num(x)), Option::None => Option::None };
    let seg_unrealized_pnl = opt_member("unrealized_pnl"@, ov_unrealized_pnl);
    let tail_4 = seg_unrealized_pnl;
    let tail_3 = seg_leverage + tail_4;
    let tail_2 = seg_position_size_usd + tail_3;
    let tail_1 = seg_position_size + tail_2;
    assert(mand.len() == 37);
    assert(mand[0].0 == "wallet"@);
    assert(mand[1].0 == "wallet_label"@);
    assert(mand[2].0 == "tx_hash"@);
    assert(mand[3].0 == "tx_type"@);
    assert(mand[4].0 == "chain"@);
    assert(mand[5].0 == "index"@);
    assert(mand[6].0 == "timestamp"@);
    assert(mand[7].0 == "block"@);
    assert(mand[8].0 == "action"@);
    assert(mand[9].0 == "amount_usd"@);
    assert(mand[10].0 == "average_price"@);
    assert(mand[11].0 == "base_token_address"@);
    assert(mand[12].0 == "base_token_amount"@);
    assert(mand[13].0 == "base_token_symbol"@);
    assert(mand[14].0 == "dex"@);
    assert(mand[15].0 == "from"@);
    assert(mand[16].0 == "liquidation"@);
    assert(mand[17].0 == "liquidation_price"@);
    assert(mand[18].0 == "to"@);
    assert(mand[19].0 == "trade_direction"@);
    assert(mand[20].0 == "perp_details"@);
    assert(mand[21].0 == "token0_address"@);
    assert(mand[22].0 == "token0_amount"@);
    assert(mand[23].0 == "token0_amount_usd"@);
    assert(mand[24].0 == "token0_name"@);
    assert(mand[25].0 == "token0_price_usd"@);
    assert(mand[26].0 == "token0_symbol"@);
    assert(mand[27].0 == "token0_icon_link"@);
    assert(mand[28].0 == "token1_address"@);
    assert(mand[29].0 == "token1_amount"@);
    assert(mand[30].0 == "token1_amount_usd"@);
    assert(mand[31].0 == "token1_name"@);
    assert(mand[32].0 == "token1_price_usd"@);
    assert(mand[33].0 == "token1_symbol"@);
    assert(mand[34].0 == "token1_icon_link"@);
    assert(mand[35].0 == "realized_pnl"@);
    assert(mand[36].0 == "is_nft_perp"@);
    assert forall|j: int| 0 <= j < mand.len() implies mand[j].0 != "from_label"@ by {
        if j == 0 {
        } else if j == 1 {
        } else if j == 2 {
        } else if j == 3 {
        } else if j == 4 {
        } else if j == 5 {
        } else if j == 6 {
        } else if j == 7 {
        } else if j == 8 {
        } else if j == 9 {
        } else if j == 10 {
        } else if j == 11 {
        } else if j == 12 {
        } else if j == 13 {
        } else if j == 14 {
        } else if j == 15 {
        } else if j == 16 {
        } else if j == 17 {
        } else if j == 18 {
        } else if j == 19 {
        } else if j == 20 {
        } else if j == 21 {
        } else if j == 22 {
        } else if j == 23 {
        } else if j == 24 {
        } else if j == 25 {
        } else if j == 26 {
        } else if j == 27 {
        } else if j == 28 {
        } else if j == 29 {
        } else if j == 30 {
        } else if j == 31 {
        } else if j == 32 {
        } else if j == 33 {
        } else if j == 34 {
        } else if j == 35 {
        } else if j == 36 {
        } else {
        }
    }
    lemma_lookup_absent(mand, "from_label"@);
    lemma_opt_member_lookup("position_size"@, ov_position_size, "from_label"@);
    lemma_opt_member_lookup("position_size_usd"@, ov_position_size_usd, "from_label"@);
    lemma_opt_member_lookup("leverage"@, ov_leverage, "from_label"@);
    lemma_opt_member_lookup("unrealized_pnl"@, ov_unrealized_pnl, "from_label"@);
    lemma_lookup_absent_concat(seg_leverage, tail_4, "from_label"@);
    lemma_lookup_absent_concat(seg_position_size_usd, tail_3, "from_label"@);
    lemma_lookup_absent_concat(seg_position_size, tail_2, "from_label"@);
    lemma_lookup_absent_concat(mand, tail_1, "from_label"@);
    assert(ms == mand + tail_1);
    assert(spec_decode_bridge(ms) is None);
}

/// An encoded `perp` record lacks `contract_address`, which the `contract_interaction` shape needs.
#[verifier::spinoff_prover]
proof fn lemma_perp_not_contract_interaction(s: PerpV)
    ensures
        spec_decode_contract_interaction(spec_encode_perp(s)) is None,
{
    reveal_strlit("action");
    reveal_strlit("amount_usd");
    reveal_strlit("average_price");
    reveal_strlit("base_token_address");
    reveal_strlit("base_token_amount");
    reveal_strlit("base_token_symbol");
    reveal_strlit("block");
    reveal_strlit("chain");
    reveal_strlit("contract_address");
    reveal_strlit("dex");
    reveal_strlit("from");
    reveal_strlit("index");
    reveal_strlit("is_nft_perp");
    reveal_strlit("leverage");
    reveal_strlit("liquidation");
    reveal_strlit("liquidation_price");
    reveal_strlit("perp_details");
    reveal_strlit("position_size");
    reveal_strlit("position_size_usd");
    reveal_strlit("realized_pnl");
    reveal_strlit("timestamp");
    reveal_strlit("to");
    reveal_strlit("token0_address");
    reveal_strlit("token0_amount");
    reveal_strlit("token0_amount_usd");
    reveal_strlit("token0_icon_link");
    reveal_strlit("token0_name");
    reveal_strlit("token0_price_usd");
    reveal_strlit("token0_symbol");
    reveal_strlit("token1_address");
    reveal_strlit("token1_amount");
    reveal_strlit("token1_amount_usd");
    reveal_strlit("token1_icon_link");
    reveal_strlit("token1_name");
    reveal_strlit("token1_price_usd");
    reveal_strlit("token1_symbol");
    reveal_strlit("trade_direction");
    reveal_strlit("tx_hash");
    reveal_strlit("tx_type");
    reveal_strlit("unrealized_pnl");
    reveal_strlit("wallet");
    reveal_strlit("wallet_label");
    assert("action"@.len() == 6);
    assert("amount_usd"@.len() == 10);
    assert("average_price"@.len() == 13);
    assert("base_token_address"@.len() == 18);
    assert("base_token_amount"@.len() == 17);
    assert("base_token_symbol"@.len() == 17);
    assert("block"@.len() == 5);
    assert("chain"@.len() == 5);
    assert("contract_address"@.len() == 16);
    assert("dex"@.len() == 3);
    assert("from"@.len() == 4);
    assert("index"@.len() == 5);
    assert("is_nft_perp"@.len() == 11);
    assert("leverage"@.len() == 8);
    assert("liquidation"@.len() == 11);
    assert("liquidation_price"@.len() == 17);
    assert("perp_details"@.len() == 12);
    assert("position_size"@.len() == 13);
    assert("position_size_usd"@.len() == 17);
    assert("realized_pnl"@.len() == 12);
    assert("timestamp"@.len() == 9);
    assert("to"@.len() == 2);
    assert("token0_address"@.len() == 14);
    assert("token0_amount"@.len() == 13);
    assert("token0_amount_usd"@.len() == 17);
    assert("token0_icon_link"@.len() == 16);
    assert("token0_name"@.len() == 11);
    assert("token0_price_usd"@.len() == 16);
    assert("token0_symbol"@.len() == 13);
    assert("token1_address"@.len() == 14);
    assert("token1_amount"@.len() == 13);
    assert("token1_amount_usd"@.len() == 17);
    assert("token1_icon_link"@.len() == 16);
    assert("token1_name"@.len() == 11);
    assert("token1_price_usd"@.len() == 16);
    assert("token1_symbol"@.len() == 13);
    assert("trade_direction"@.len() == 15);
    assert("tx_hash"@.len() == 7);
    assert("tx_type"@.len() == 7);
    assert("unrealized_pnl"@.len() == 14);
    assert("wallet"@.len() == 6);
    assert("wallet_label"@.len() == 12);
    assert("contract_address"@[0] == 'c');
    assert("token0_icon_link"@[0] == 't');
    assert("token0_price_usd"@[0] == 't');
    assert("token1_icon_link"@[0] == 't');
    assert("token1_price_usd"@[0] == 't');
    let ms = spec_encode_perp(s);
    let mand: Seq<(Seq<char>, JsonVal)> = seq![
        ("wallet"@, JsonVal::Str(s.wallet)),
        ("wallet_label"@, JsonVal::Str(s.wallet_label)),
        ("tx_hash"@, JsonVal::Str(s.tx_hash)),
        ("tx_type"@, JsonVal::Str(s.tx_type)),
        ("chain"@, JsonVal::Str(s.chain)),
        ("index"@, JsonVal::Num(JsonNumber::PosInt(s.index as u64))),
        ("timestamp"@, JsonVal::Num(JsonNumber::PosInt(s.timestamp))),
        ("block"@, JsonVal::Num(JsonNumber::PosInt(s.block))),
        ("action"@, JsonVal::Str(s.action)),
        ("amount_usd"@, JsonVal::Num(s.amount_usd)),
        ("average_price"@, JsonVal::Num(s.average_price)),
        ("base_token_address"@, JsonVal::Str(s.base_token_address)),
        ("base_token_amount"@, JsonVal::Num(s.base_token_amount)),
        ("base_token_symbol"@, JsonVal::Str(s.base_token_symbol)),
        ("dex"@, JsonVal::Str(s.dex)),
        ("from"@, JsonVal::Str(s.from)),
        ("liquidation"@, JsonVal::Bool(s.liquidation)),
        ("liquidation_price"@, JsonVal::Num(s.liquidation_price)),
        ("to"@, JsonVal::Str(s.to)),
        ("trade_direction"@, JsonVal::Str(s.trade_direction)),
        ("perp_details"@, JsonVal::Str(s.perp_details)),
        ("token0_address"@, JsonVal::Str(s.token0_address)),
        ("token0_amount"@, JsonVal::Num(s.token0_amount)),
        ("token0_amount_usd"@, JsonVal::Num(s.token0_amount_usd)),
        ("token0_name"@, JsonVal::Str(s.token0_name)),
        ("token0_price_usd"@, JsonVal::Num(s.token0_price_usd)),
        ("token0_symbol"@, JsonVal::Str(s.token0_symbol)),
        ("token0_icon_link"@, JsonVal::Str(s.token0_icon_link)),
        ("token1_address"@, JsonVal::Str(s.token1_address)),
        ("token1_amount"@, JsonVal::Num(s.token1_amount)),
        ("token1_amount_usd"@, JsonVal::Num(s.token1_amount_usd)),
        ("token1_name"@, JsonVal::Str(s.token1_name)),
        ("token1_price_usd"@, JsonVal::Num(s.token1_price_usd)),
        ("token1_symbol"@, JsonVal::Str(s.token1_symbol)),
        ("token1_icon_link"@, JsonVal::Str(s.token1_icon_link)),
        ("realized_pnl"@, JsonVal::Num(s.realized_pnl)),
        ("is_nft_perp"@, JsonVal::Bool(s.is_nft_perp)),
    ];
    let ov_position_size: Option<JsonVal> = match s.position_size { Option::Some(x) => Option::Some(JsonVal::Num(x)), Option::None => Option::None };
    let seg_position_size = opt_member("position_size"@, ov_position_size);
    let ov_position_size_usd: Option<JsonVal> = match s.position_size_usd { Option::Some(x) => Option::Some(JsonVal::Num(x)), Option::None => Option::None };
    let seg_position_size_usd = opt_member("position_size_usd"@, ov_position_size_usd);
    let ov_leverage: Option<JsonVal> = match s.leverage { Option::Some(x) => Option::Some(JsonVal::Num(x)), Option::None => Option::None };
    let seg_leverage = opt_member("leverage"@, ov_leverage);
    let ov_unrealized_pnl: Option<JsonVal> = match s.unrealized_pnl { Option::Some(x) => Option::Some(JsonVal::Num(x)), Option::None => Option::None };
    let seg_unrealized_pnl = opt_member("unrealized_pnl"@, ov_unrealized_pnl);
    let tail_4 = seg_unrealized_pnl;
    let tail_3 = seg_leverage + tail_4;
    let tail_2 = seg_position_size_usd + tail_3;
    let tail_1 = seg_position_size + tail_2;
    assert(mand.len() == 37);
    assert(mand[0].0 == "wallet"@);
    assert(mand[1].0 == "wallet_label"@);
    assert(mand[2].0 == "tx_hash"@);
    assert(mand[3].0 == "tx_type"@);
    assert(mand[4].0 == "chain"@);
    assert(mand[5].0 == "index"@);
    assert(mand[6].0 == "timestamp"@);
    assert(mand[7].0 == "block"@);
    assert(mand[8].0 == "action"@);
    assert(mand[9].0 == "amount_usd"@);
    assert(mand[10].0 == "average_price"@);
    assert(mand[11].0 == "base_token_address"@);
    assert(mand[12].0 == "base_token_amount"@);
    assert(mand[13].0 == "base_token_symbol"@);
    assert(mand[14].0 == "dex"@);
    assert(mand[15].0 == "from"@);
    assert(mand[16].0 == "liquidation"@);
    assert(mand[17].0 == "liquidation_price"@);
    assert(mand[18].0 == "to"@);
    assert(mand[19].0 == "trade_direction"@);
    assert(mand[20].0 == "perp_details"@);
    assert(mand[21].0 == "token0_address"@);
    assert(mand[22].0 == "token0_amount"@);
    assert(mand[23].0 == "token0_amount_usd"@);
    assert(mand[24].0 == "token0_name"@);
    assert(mand[25].0 == "token0_price_usd"@);
    assert(mand[26].0 == "token0_symbol"@);
    assert(mand[27].0 == "token0_icon_link"@);
    assert(mand[28].0 == "token1_address"@);
    assert(mand[29].0 == "token1_amount"@);
    assert(mand[30].0 == "token1_amount_usd"@);
    assert(mand[31].0 == "token1_name"@);
    assert(mand[32].0 == "token1_price_usd"@);
    assert(mand[33].0 == "token1_symbol"@);
    assert(mand[34].0 == "token1_icon_link"@);
    assert(mand[35].0 == "realized_pnl"@);
    assert(mand[36].0 == "is_nft_perp"@);
    assert forall|j: int| 0 <= j < mand.len() implies mand[j].0 != "contract_address"@ by {
        if j == 0 {
        } else if j == 1 {
        } else if j == 2 {
        } else if j == 3 {
        } else if j == 4 {
        } else if j == 5 {
        } else if j == 6 {
        } else if j == 7 {
        } else if j == 8 {
        } else if j == 9 {
        } else if j == 10 {
        } else if j == 11 {
        } else if j == 12 {
        } else if j == 13 {
        } else if j == 14 {
        } else if j == 15 {
        } else if j == 16 {
        } else if j == 17 {
        } else if j == 18 {
        } else if j == 19 {
        } else if j == 20 {
        } else if j == 21 {
        } else if j == 22 {
        } else if j == 23 {
        } else if j == 24 {
        } else if j == 25 {
        } else if j == 26 {
        } else if j == 27 {
        } else if j == 28 {
        } else if j == 29 {
        } else if j == 30 {
        } else if j == 31 {
        } else if j == 32 {
        } else if j == 33 {
        } else if j == 34 {
        } else if j == 35 {
        } else if j == 36 {
        } else {
        }
    }
    lemma_lookup_absent(mand, "contract_address"@);
    lemma_opt_member_lookup("position_size"@, ov_position_size, "contract_address"@);
    lemma_opt_member_lookup("position_size_usd"@, ov_position_size_usd, "contract_address"@);
    lemma_opt_member_lookup("leverage"@, ov_leverage, "contract_address"@);
    lemma_opt_member_lookup("unrealized_pnl"@, ov_unrealized_pnl, "contract_address"@);
    lemma_lookup_absent_concat(seg_leverage, tail_4, "contract_address"@);
    lemma_lookup_absent_concat(seg_position_size_usd, tail_3, "contract_address"@);
    lemma_lookup_absent_concat(seg_position_size, tail_2, "contract_address"@);
    lemma_lookup_absent_concat(mand, tail_1, "contract_address"@);
    assert(ms == mand + tail_1);
    assert(spec_decode_contract_interaction(ms) is None);
}

/// An encoded `perp` record lacks `amount`, which the `wrap` shape needs.
#[verifier::spinoff_prover]
proof fn lemma_perp_not_wrap(s: PerpV)
    ensures
        spec_decode_wrap(spec_encode_perp(s)) is None,
{
    reveal_strlit("action");
    reveal_strlit("amount");
    reveal_strlit("amount_usd");
    reveal_strlit("average_price");
    reveal_strlit("base_token_address");
    reveal_strlit("base_token_amount");
    reveal_strlit("base_token_symbol");
    reveal_strlit("block");
    reveal_strlit("chain");
    reveal_strlit("dex");
    reveal_strlit("from");
    reveal_strlit("index");
    reveal_strlit("is_nft_perp");
    reveal_strlit("leverage");
    reveal_strlit("liquidation");
    reveal_strlit("liquidation_price");
    reveal_strlit("perp_details");
    reveal_strlit("position_size");
    reveal_strlit("position_size_usd");
    reveal_strlit("realized_pnl");
    reveal_strlit("timestamp");
    reveal_strlit("to");
    reveal_strlit("token0_address");
    reveal_strlit("token0_amount");
    reveal_strlit("token0_amount_usd");
    reveal_strlit("token0_icon_link");
    reveal_strlit("token0_name");
    reveal_strlit("token0_price_usd");
    reveal_strlit("token0_symbol");
    reveal_strlit("token1_address");
    reveal_strlit("token1_amount");
    reveal_strlit("token1_amount_usd");
    reveal_strlit("token1_icon_link");
    reveal_strlit("token1_name");
    reveal_strlit("token1_price_usd");
    reveal_strlit("token1_symbol");
    reveal_strlit("trade_direction");
    reveal_strlit("tx_hash");
    reveal_strlit("tx_type");
    reveal_strlit("unrealized_pnl");
    reveal_strlit("wallet");
    reveal_strlit("wallet_label");
    assert("action"@.len() == 6);
    assert("amount"@.len() == 6);
    assert("amount_usd"@.len() == 10);
    assert("average_price"@.len() == 13);
    assert("base_token_address"@.len() == 18);
    assert("base_token_amount"@.len() == 17);
    assert("base_token_symbol"@.len() == 17);
    assert("block"@.len() == 5);
    assert("chain"@.len() == 5);
    assert("dex"@.len() == 3);
    assert("from"@.len() == 4);
    assert("index"@.len() == 5);
    assert("is_nft_perp"@.len() == 11);
    assert("leverage"@.len() == 8);
    assert("liquidation"@.len() == 11);
    assert("liquidation_price"@.len() == 17);
    assert("perp_details"@.len() == 12);
    assert("position_size"@.len() == 13);
    assert("position_size_usd"@.len() == 17);
    assert("realized_pnl"@.len() == 12);
    assert("timestamp"@.len() == 9);
    assert("to"@.len() == 2);
    assert("token0_address"@.len() == 14);
    assert("token0_amount"@.len() == 13);
    assert("token0_amount_usd"@.len() == 17);
    assert("token0_icon_link"@.len() == 16);
    assert("token0_name"@.len() == 11);
    assert("token0_price_usd"@.len() == 16);
    assert("token0_symbol"@.len() == 13);
    assert("token1_address"@.len() == 14);
    assert("token1_amount"@.len() == 13);
    assert("token1_amount_usd"@.len() == 17);
    assert("token1_icon_link"@.len() == 16);
    assert("token1_name"@.len() == 11);
    assert("token1_price_usd"@.len() == 16);
    assert("token1_symbol"@.len() == 13);
    assert("trade_direction"@.len() == 15);
    assert("tx_hash"@.len() == 7);
    assert("tx_type"@.len() == 7);
    assert("unrealized_pnl"@.len() == 14);
    assert("wallet"@.len() == 6);
    assert("wallet_label"@.len() == 12);
    assert("action"@[1] == 'c');
    assert("amount"@[0] == 'a');
    assert("amount"@[1] == 'm');
    assert("wallet"@[0] == 'w');
    let ms = spec_encode_perp(s);
    let mand: Seq<(Seq<char>, JsonVal)> = seq![
        ("wallet"@, JsonVal::Str(s.wallet)),
        ("wallet_label"@, JsonVal::Str(s.wallet_label)),
        ("tx_hash"@, JsonVal::Str(s.tx_hash)),
        ("tx_type"@, JsonVal::Str(s.tx_type)),
        ("chain"@, JsonVal::Str(s.chain)),
        ("index"@, JsonVal::Num(JsonNumber::PosInt(s.index as u64))),
        ("timestamp"@, JsonVal::Num(JsonNumber::PosInt(s.timestamp))),
        ("block"@, JsonVal::Num(JsonNumber::PosInt(s.block))),
        ("action"@, JsonVal::Str(s.action)),
        ("amount_usd"@, JsonVal::Num(s.amount_usd)),
        ("average_price"@, JsonVal::Num(s.average_price)),
        ("base_token_address"@, JsonVal::Str(s.base_token_address)),
        ("base_token_amount"@, JsonVal::Num(s.base_token_amount)),
        ("base_token_symbol"@, JsonVal::Str(s.base_token_symbol)),
        ("dex"@, JsonVal::Str(s.dex)),
        ("from"@, JsonVal::Str(s.from)),
        ("liquidation"@, JsonVal::Bool(s.liquidation)),
        ("liquidation_price"@, JsonVal::Num(s.liquidation_price)),
        ("to"@, JsonVal::Str(s.to)),
        ("trade_direction"@, JsonVal::Str(s.trade_direction)),
        ("perp_details"@, JsonVal::Str(s.perp_details)),
        ("token0_address"@, JsonVal::Str(s.token0_address)),
        ("token0_amount"@, JsonVal::Num(s.token0_amount)),
        ("token0_amount_usd"@, JsonVal::Num(s.token0_amount_usd)),
        ("token0_name"@, JsonVal::Str(s.token0_name)),
        ("token0_price_usd"@, JsonVal::Num(s.token0_price_usd)),
        ("token0_symbol"@, JsonVal::Str(s.token0_symbol)),
        ("token0_icon_link"@, JsonVal::Str(s.token0_icon_link)),
        ("token1_address"@, JsonVal::Str(s.token1_address)),
        ("token1_amount"@, JsonVal::Num(s.token1_amount)),
        ("token1_amount_usd"@, JsonVal::Num(s.token1_amount_usd)),
        ("token1_name"@, JsonVal::Str(s.token1_name)),
        ("token1_price_usd"@, JsonVal::Num(s.token1_price_usd)),
        ("token1_symbol"@, JsonVal::Str(s.token1_symbol)),
        ("token1_icon_link"@, JsonVal::Str(s.token1_icon_link)),
        ("realized_pnl"@, JsonVal::Num(s.realized_pnl)),
        ("is_nft_perp"@, JsonVal::Bool(s.is_nft_perp)),
    ];
    let ov_position_size: Option<JsonVal> = match s.position_size { Option::Some(x) => Option::Some(JsonVal::Num(x)), Option::None => Option::None };
    let seg_position_size = opt_member("position_size"@, ov_position_size);
    let ov_position_size_usd: Option<JsonVal> = match s.position_size_usd { Option::Some(x) => Option::Some(JsonVal::Num(x)), Option::None => Option::None };
    let seg_position_size_usd = opt_member("position_size_usd"@, ov_position_size_usd);
    let ov_leverage: Option<JsonVal> = match s.leverage { Option::Some(x) => Option::Some(JsonVal::Num(x)), Option::None => Option::None };
    let seg_leverage = opt_member("leverage"@, ov_leverage);
    let ov_unrealized_pnl: Option<JsonVal> = match s.unrealized_pnl { Option::Some(x) => Option::Some(JsonVal::Num(x)), Option::None => Option::None };
    let seg_unrealized_pnl = opt_member("unrealized_pnl"@, ov_unrealized_pnl);
    let tail_4 = seg_unrealized_pnl;
    let tail_3 = seg_leverage + tail_4;
    let tail_2 = seg_position_size_usd + tail_3;
    let tail_1 = seg_position_size + tail_2;
    assert(mand.len() == 37);
    assert(mand[0].0 == "wallet"@);
    assert(mand[1].0 == "wallet_label"@);
    assert(mand[2].0 == "tx_hash"@);
    assert(mand[3].0 == "tx_type"@);
    assert(mand[4].0 == "chain"@);
    assert(mand[5].0 == "index"@);
    assert(mand[6].0 == "timestamp"@);
    assert(mand[7].0 == "block"@);
    assert(mand[8].0 == "action"@);
    assert(mand[9].0 == "amount_usd"@);
    assert(mand[10].0 == "average_price"@);
    assert(mand[11].0 == "base_token_address"@);
    assert(mand[12].0 == "base_token_amount"@);
    assert(mand[13].0 == "base_token_symbol"@);
    assert(mand[14].0 == "dex"@);
    assert(mand[15].0 == "from"@);
    assert(mand[16].0 == "liquidation"@);
    assert(mand[17].0 == "liquidation_price"@);
    assert(mand[18].0 == "to"@);
    assert(mand[19].0 == "trade_direction"@);
    assert(mand[20].0 == "perp_details"@);
    assert(mand[21].0 == "token0_address"@);
    assert(mand[22].0 == "token0_amount"@);
    assert(mand[23].0 == "token0_amount_usd"@);
    assert(mand[24].0 == "token0_name"@);
    assert(mand[25].0 == "token0_price_usd"@);
    assert(mand[26].0 == "token0_symbol"@);
    assert(mand[27].0 == "token0_icon_link"@);
    assert(mand[28].0 == "token1_address"@);
    assert(mand[29].0 == "token1_amount"@);
    assert(mand[30].0 == "token1_amount_usd"@);
    assert(mand[31].0 == "token1_name"@);
    assert(mand[32].0 == "token1_price_usd"@);
    assert(mand[33].0 == "token1_symbol"@);
    assert(mand[34].0 == "token1_icon_link"@);
    assert(mand[35].0 == "realized_pnl"@);
    assert(mand[36].0 == "is_nft_perp"@);
    assert forall|j: int| 0 <= j < mand.len() implies mand[j].0 != "amount"@ by {
        if j == 0 {
        } else if j == 1 {
        } else if j == 2 {
        } else if j == 3 {
        } else if j == 4 {
        } else if j == 5 {
        } else if j == 6 {
        } else if j == 7 {
        } else if j == 8 {
        } else if j == 9 {
        } else if j == 10 {
        } else if j == 11 {
        } else if j == 12 {
        } else if j == 13 {
        } else if j == 14 {
        } else if j == 15 {
        } else if j == 16 {
        } else if j == 17 {
        } else if j == 18 {
        } else if j == 19 {
        } else if j == 20 {
        } else if j == 21 {
        } else if j == 22 {
        } else if j == 23 {
        } else if j == 24 {
        } else if j == 25 {
        } else if j == 26 {
        } else if j == 27 {
        } else if j == 28 {
        } else if j == 29 {
        } else if j == 30 {
        } else if j == 31 {
        } else if j == 32 {
        } else if j == 33 {
        } else if j == 34 {
        } else if j == 35 {
        } else if j == 36 {
        } else {
        }
    }
    lemma_lookup_absent(mand, "amount"@);
    lemma_opt_member_lookup("position_size"@, ov_position_size, "amount"@);
    lemma_opt_member_lookup("position_size_usd"@, ov_position_size_usd, "amount"@);
    lemma_opt_member_lookup("leverage"@, ov_leverage, "amount"@);
    lemma_opt_member_lookup("unrealized_pnl"@, ov_unrealized_pnl, "amount"@);
    lemma_lookup_absent_concat(seg_leverage, tail_4, "amount"@);
    lemma_lookup_absent_concat(seg_position_size_usd, tail_3, "amount"@);
    lemma_lookup_absent_concat(seg_position_size, tail_2, "amount"@);
    lemma_lookup_absent_concat(mand, tail_1, "amount"@);
    assert(ms == mand + tail_1);
    assert(spec_decode_wrap(ms) is None);
}

/// An encoded `perp` record lacks `nft_address`, which the `sudo_pool` shape needs.
#[verifier::spinoff_prover]
proof fn lemma_perp_not_sudo_pool(s: PerpV)
    ensures
        spec_decode_sudo_pool(spec_encode_perp(s)) is None,
{
    reveal_strlit("action");
    reveal_strlit("amount_usd");
    reveal_strlit("average_price");
    reveal_strlit("base_token_address");
    reveal_strlit("base_token_amount");
    reveal_strlit("base_token_symbol");
    reveal_strlit("block");
    reveal_strlit("chain");
    reveal_strlit("dex");
    reveal_strlit("from");
    reveal_strlit("index");
    reveal_strlit("is_nft_perp");
    reveal_strlit("leverage");
    reveal_strlit("liquidation");
    reveal_strlit("liquidation_price");
    reveal_strlit("nft_address");
    reveal_strlit("perp_details");
    reveal_strlit("position_size");
    reveal_strlit("position_size_usd");
    reveal_strlit("realized_pnl");
    reveal_strlit("timestamp");
    reveal_strlit("to");
    reveal_strlit("token0_address");
    reveal_strlit("token0_amount");
    reveal_strlit("token0_amount_usd");
    reveal_strlit("token0_icon_link");
    reveal_strlit("token0_name");
    reveal_strlit("token0_price_usd");
    reveal_strlit("token0_symbol");
    reveal_strlit("token1_address");
    reveal_strlit("token1_amount");
    reveal_strlit("token1_amount_usd");
    reveal_strlit("token1_icon_link");
    reveal_strlit("token1_name");
    reveal_strlit("token1_price_usd");
    reveal_strlit("token1_symbol");
    reveal_strlit("trade_direction");
    reveal_strlit("tx_hash");
    reveal_strlit("tx_type");
    reveal_strlit("unrealized_pnl");
    reveal_strlit("wallet");
    reveal_strlit("wallet_label");
    assert("action"@.len() == 6);
    assert("amount_usd"@.len() == 10);
    assert("average_price"@.len() == 13);
    assert("base_token_address"@.len() == 18);
    assert("base_token_amount"@.len() == 17);
    assert("base_token_symbol"@.len() == 17);
    assert("block"@.len() == 5);
    assert("chain"@.len() == 5);
    assert("dex"@.len() == 3);
    assert("from"@.len() == 4);
    assert("index"@.len() == 5);
    assert("is_nft_perp"@.len() == 11);
    assert("leverage"@.len() == 8);
    assert("liquidation"@.len() == 11);
    assert("liquidation_price"@.len() == 17);
    assert("nft_address"@.len() == 11);
    assert("perp_details"@.len() == 12);
    assert("position_size"@.len() == 13);
    assert("position_size_usd"@.len() == 17);
    assert("realized_pnl"@.len() == 12);
    assert("timestamp"@.len() == 9);
    assert("to"@.len() == 2);
    assert("token0_address"@.len() == 14);
    assert("token0_amount"@.len() == 13);
    assert("token0_amount_usd"@.len() == 17);
    assert("token0_icon_link"@.len() == 16);
    assert("token0_name"@.len() == 11);
    assert("token0_price_usd"@.len() == 16);
    assert("token0_symbol"@.len() == 13);
    assert("token1_address"@.len() == 14);
    assert("token1_amount"@.len() == 13);
    assert("token1_amount_usd"@.len() == 17);
    assert("token1_icon_link"@.len() == 16);
    assert("token1_name"@.len() == 11);
    assert("token1_price_usd"@.len() == 16);
    assert("token1_symbol"@.len() == 13);
    assert("trade_direction"@.len() == 15);
    assert("tx_hash"@.len() == 7);
    assert("tx_type"@.len() == 7);
    assert("unrealized_pnl"@.len() == 14);
    assert("wallet"@.len() == 6);
    assert("wallet_label"@.len() == 12);
    assert("is_nft_perp"@[0] == 'i');
    assert("liquidation"@[0] == 'l');
    assert("nft_address"@[0] == 'n');
    assert("token0_name"@[0] == 't');
    assert("token1_name"@[0] == 't');
    let ms = spec_encode_perp(s);
    let mand: Seq<(Seq<char>, JsonVal)> = seq![
        ("wallet"@, JsonVal::Str(s.wallet)),
        ("wallet_label"@, JsonVal::Str(s.wallet_label)),
        ("tx_hash"@, JsonVal::Str(s.tx_hash)),
        ("tx_type"@, JsonVal::Str(s.tx_type)),
        ("chain"@, JsonVal::Str(s.chain)),
        ("index"@, JsonVal::Num(JsonNumber::PosInt(s.index as u64))),
        ("timestamp"@, JsonVal::Num(JsonNumber::PosInt(s.timestamp))),
        ("block"@, JsonVal::Num(JsonNumber::PosInt(s.block))),
        ("action"@, JsonVal::Str(s.action)),
        ("amount_usd"@, JsonVal::Num(s.amount_usd)),
        ("average_price"@, JsonVal::Num(s.average_price)),
        ("base_token_address"@, JsonVal::Str(s.base_token_address)),
        ("base_token_amount"@, JsonVal::Num(s.base_token_amount)),
        ("base_token_symbol"@, JsonVal::Str(s.base_token_symbol)),
        ("dex"@, JsonVal::Str(s.dex)),
        ("from"@, JsonVal::Str(s.from)),
        ("liquidation"@, JsonVal::Bool(s.liquidation)),
        ("liquidation_price"@, JsonVal::Num(s.liquidation_price)),
        ("to"@, JsonVal::Str(s.to)),
        ("trade_direction"@, JsonVal::Str(s.trade_direction)),
        ("perp_details"@, JsonVal::Str(s.perp_details)),
        ("token0_address"@, JsonVal::Str(s.token0_address)),
        ("token0_amount"@, JsonVal::Num(s.token0_amount)),
        ("token0_amount_usd"@, JsonVal::Num(s.token0_amount_usd)),
        ("token0_name"@, JsonVal::Str(s.token0_name)),
        ("token0_price_usd"@, JsonVal::Num(s.token0_price_usd)),
        ("token0_symbol"@, JsonVal::Str(s.token0_symbol)),
        ("token0_icon_link"@, JsonVal::Str(s.token0_icon_link)),
        ("token1_address"@, JsonVal::Str(s.token1_address)),
        ("token1_amount"@, JsonVal::Num(s.token1_amount)),
        ("token1_amount_usd"@, JsonVal::Num(s.token1_amount_usd)),
        ("token1_name"@, JsonVal::Str(s.token1_name)),
        ("token1_price_usd"@, JsonVal::Num(s.token1_price_usd)),
        ("token1_symbol"@, JsonVal::Str(s.token1_symbol)),
        ("token1_icon_link"@, JsonVal::Str(s.token1_icon_link)),
        ("realized_pnl"@, JsonVal::Num(s.realized_pnl)),
        ("is_nft_perp"@, JsonVal::Bool(s.is_nft_perp)),
    ];
    let ov_position_size: Option<JsonVal> = match s.position_size { Option::Some(x) => Option::Some(JsonVal::Num(x)), Option::None => Option::None };
    let seg_position_size = opt_member("position_size"@, ov_position_size);
    let ov_position_size_usd: Option<JsonVal> = match s.position_size_usd { Option::Some(x) => Option::Some(JsonVal::Num(x)), Option::None => Option::None };
    let seg_position_size_usd = opt_member("position_size_usd"@, ov_position_size_usd);
    let ov_leverage: Option<JsonVal> = match s.leverage { Option::Some(x) => Option::Some(JsonVal::Num(x)), Option::None => Option::None };
    let seg_leverage = opt_member("leverage"@, ov_leverage);
    let ov_unrealized_pnl: Option<JsonVal> = match s.unrealized_pnl { Option::Some(x) => Option::Some(JsonVal::Num(x)), Option::None => Option::None };
    let seg_unrealized_pnl = opt_member("unrealized_pnl"@, ov_unrealized_pnl);
    let tail_4 = seg_unrealized_pnl;
    let tail_3 = seg_leverage + tail_4;
    let tail_2 = seg_position_size_usd + tail_3;
    let tail_1 = seg_position_size + tail_2;
    assert(mand.len() == 37);
    assert(mand[0].0 == "wallet"@);
    assert(mand[1].0 == "wallet_label"@);
    assert(mand[2].0 == "tx_hash"@);
    assert(mand[3].0 == "tx_type"@);
    assert(mand[4].0 == "chain"@);
    assert(mand[5].0 == "index"@);
    assert(mand[6].0 == "timestamp"@);
    assert(mand[7].0 == "block"@);
    assert(mand[8].0 == "action"@);
    assert(mand[9].0 == "amount_usd"@);
    assert(mand[10].0 == "average_price"@);
    assert(mand[11].0 == "base_token_address"@);
    assert(mand[12].0 == "base_token_amount"@);
    assert(mand[13].0 == "base_token_symbol"@);
    assert(mand[14].0 == "dex"@);
    assert(mand[15].0 == "from"@);
    assert(mand[16].0 == "liquidation"@);
    assert(mand[17].0 == "liquidation_price"@);
    assert(mand[18].0 == "to"@);
    assert(mand[19].0 == "trade_direction"@);
    assert(mand[20].0 == "perp_details"@);
    assert(mand[21].0 == "token0_address"@);
    assert(mand[22].0 == "token0_amount"@);
    assert(mand[23].0 == "token0_amount_usd"@);
    assert(mand[24].0 == "token0_name"@);
    assert(mand[25].0 == "token0_price_usd"@);
    assert(mand[26].0 == "token0_symbol"@);
    assert(mand[27].0 == "token0_icon_link"@);
    assert(mand[28].0 == "token1_address"@);
    assert(mand[29].0 == "token1_amount"@);
    assert(mand[30].0 == "token1_amount_usd"@);
    assert(mand[31].0 == "token1_name"@);
    assert(mand[32].0 == "token1_price_usd"@);
    assert(mand[33].0 == "token1_symbol"@);
    assert(mand[34].0 == "token1_icon_link"@);
    assert(mand[35].0 == "realized_pnl"@);
    assert(mand[36].0 == "is_nft_perp"@);
    assert forall|j: int| 0 <= j < mand.len() implies mand[j].0 != "nft_address"@ by {
        if j == 0 {
        } else if j == 1 {
        } else if j == 2 {
        } else if j == 3 {
        } else if j == 4 {
        } else if j == 5 {
        } else if j == 6 {
        } else if j == 7 {
        } else if j == 8 {
        } else if j == 9 {
        } else if j == 10 {
        } else if j == 11 {
        } else if j == 12 {
        } else if j == 13 {
        } else if j == 14 {
        } else if j == 15 {
        } else if j == 16 {
        } else if j == 17 {
        } else if j == 18 {
        } else if j == 19 {
        } else if j == 20 {
        } else if j == 21 {
        } else if j == 22 {
        } else if j == 23 {
        } else if j == 24 {
        } else if j == 25 {
        } else if j == 26 {
        } else if j == 27 {
        } else if j == 28 {
        } else if j == 29 {
        } else if j == 30 {
        } else if j == 31 {
        } else if j == 32 {
        } else if j == 33 {
        } else if j == 34 {
        } else if j == 35 {
        } else if j == 36 {
        } else {
        }
    }
    lemma_lookup_absent(mand, "nft_address"@);
    lemma_opt_member_lookup("position_size"@, ov_position_size, "nft_address"@);
    lemma_opt_member_lookup("position_size_usd"@, ov_position_size_usd, "nft_address"@);
    lemma_opt_member_lookup("leverage"@, ov_leverage, "nft_address"@);
    lemma_opt_member_lookup("unrealized_pnl"@, ov_unrealized_pnl, "nft_address"@);
    lemma_lookup_absent_concat(seg_leverage, tail_4, "nft_address"@);
    lemma_lookup_absent_concat(seg_position_size_usd, tail_3, "nft_address"@);
    lemma_lookup_absent_concat(seg_position_size, tail_2, "nft_address"@);
    lemma_lookup_absent_concat(mand, tail_1, "nft_address"@);
    assert(ms == mand + tail_1);
    assert(spec_decode_sudo_pool(ms) is None);
}

/// An encoded `perp` record lacks `address`, which the `flashloan` shape needs.
#[verifier::spinoff_prover]
proof fn lemma_perp_not_flashloan(s: PerpV)
    ensures
        spec_decode_flashloan(spec_encode_perp(s)) is None,
{
    reveal_strlit("action");
    reveal_strlit("address");
    reveal_strlit("amount_usd");
    reveal_strlit("average_price");
    reveal_strlit("base_token_address");
    reveal_strlit("base_token_amount");
    reveal_strlit("base_token_symbol");
    reveal_strlit("block");
    reveal_strlit("chain");
    reveal_strlit("dex");
    reveal_strlit("from");
    reveal_strlit("index");
    reveal_strlit("is_nft_perp");
    reveal_strlit("leverage");
    reveal_strlit("liquidation");
    reveal_strlit("liquidation_price");
    reveal_strlit("perp_details");
    reveal_strlit("position_size");
    reveal_strlit("position_size_usd");
    reveal_strlit("realized_pnl");
    reveal_strlit("timestamp");
    reveal_strlit("to");
    reveal_strlit("token0_address");
    reveal_strlit("token0_amount");
    reveal_strlit("token0_amount_usd");
    reveal_strlit("token0_icon_link");
    reveal_strlit("token0_name");
    reveal_strlit("token0_price_usd");
    reveal_strlit("token0_symbol");
    reveal_strlit("token1_address");
    reveal_strlit("token1_amount");
    reveal_strlit("token1_amount_usd");
    reveal_strlit("token1_icon_link");
    reveal_strlit("token1_name");
    reveal_strlit("token1_price_usd");
    reveal_strlit("token1_symbol");
    reveal_strlit("trade_direction");
    reveal_strlit("tx_hash");
    reveal_strlit("tx_type");
    reveal_strlit("unrealized_pnl");
    reveal_strlit("wallet");
    reveal_strlit("wallet_label");
    assert("action"@.len() == 6);
    assert("address"@.len() == 7);
    assert("amount_usd"@.len() == 10);
    assert("average_price"@.len() == 13);
    assert("base_token_address"@.len() == 18);
    assert("base_token_amount"@.len() == 17);
    assert("base_token_symbol"@.len() == 17);
    assert("block"@.len() == 5);
    assert("chain"@.len() == 5);
    assert("dex"@.len() == 3);
    assert("from"@.len() == 4);
    assert("index"@.len() == 5);
    assert("is_nft_perp"@.len() == 11);
    assert("leverage"@.len() == 8);
    assert("liquidation"@.len() == 11);
    assert("liquidation_price"@.len() == 17);
    assert("perp_details"@.len() == 12);
    assert("position_size"@.len() == 13);
    assert("position_size_usd"@.len() == 17);
    assert("realized_pnl"@.len() == 12);
    assert("timestamp"@.len() == 9);
    assert("to"@.len() == 2);
    assert("token0_address"@.len() == 14);
    assert("token0_amount"@.len() == 13);
    assert("token0_amount_usd"@.len() == 17);
    assert("token0_icon_link"@.len() == 16);
    assert("token0_name"@.len() == 11);
    assert("token0_price_usd"@.len() == 16);
    assert("token0_symbol"@.len() == 13);
    assert("token1_address"@.len() == 14);
    assert("token1_amount"@.len() == 13);
    assert("token1_amount_usd"@.len() == 17);
    assert("token1_icon_link"@.len() == 16);
    assert("token1_name"@.len() == 11);
    assert("token1_price_usd"@.len() == 16);
    assert("token1_symbol"@.len() == 13);
    assert("trade_direction"@.len() == 15);
    assert("tx_hash"@.len() == 7);
    assert("tx_type"@.len() == 7);
    assert("unrealized_pnl"@.len() == 14);
    assert("wallet"@.len() == 6);
    assert("wallet_label"@.len() == 12);
    assert("address"@[0] == 'a');
    assert("tx_hash"@[0] == 't');
    assert("tx_type"@[0] == 't');
    let ms = spec_encode_perp(s);
    let mand: Seq<(Seq<char>, JsonVal)> = seq![
        ("wallet"@, JsonVal::Str(s.wallet)),
        ("wallet_label"@, JsonVal::Str(s.wallet_label)),
        ("tx_hash"@, JsonVal::Str(s.tx_hash)),
        ("tx_type"@, JsonVal::Str(s.tx_type)),
        ("chain"@, JsonVal::Str(s.chain)),
        ("index"@, JsonVal::Num(JsonNumber::PosInt(s.index as u64))),
        ("timestamp"@, JsonVal::Num(JsonNumber::PosInt(s.timestamp))),
        ("block"@, JsonVal::Num(JsonNumber::PosInt(s.block))),
        ("action"@, JsonVal::Str(s.action)),
        ("amount_usd"@, JsonVal::Num(s.amount_usd)),
        ("average_price"@, JsonVal::Num(s.average_price)),
        ("base_token_address"@, JsonVal::Str(s.base_token_address)),
        ("base_token_amount"@, JsonVal::Num(s.base_token_amount)),
        ("base_token_symbol"@, JsonVal::Str(s.base_token_symbol)),
        ("dex"@, JsonVal::Str(s.dex)),
        ("from"@, JsonVal::Str(s.from)),
        ("liquidation"@, JsonVal::Bool(s.liquidation)),
        ("liquidation_price"@, JsonVal::Num(s.liquidation_price)),
        ("to"@, JsonVal::Str(s.to)),
        ("trade_direction"@, JsonVal::Str(s.trade_direction)),
        ("perp_details"@, JsonVal::Str(s.perp_details)),
        ("token0_address"@, JsonVal::Str(s.token0_address)),
        ("token0_amount"@, JsonVal::Num(s.token0_amount)),
        ("token0_amount_usd"@, JsonVal::Num(s.token0_amount_usd)),
        ("token0_name"@, JsonVal::Str(s.token0_name)),
        ("token0_price_usd"@, JsonVal::Num(s.token0_price_usd)),
        ("token0_symbol"@, JsonVal::Str(s.token0_symbol)),
        ("token0_icon_link"@, JsonVal::Str(s.token0_icon_link)),
        ("token1_address"@, JsonVal::Str(s.token1_address)),
        ("token1_amount"@, JsonVal::Num(s.token1_amount)),
        ("token1_amount_usd"@, JsonVal::Num(s.token1_amount_usd)),
        ("token1_name"@, JsonVal::Str(s.token1_name)),
        ("token1_price_usd"@, JsonVal::Num(s.token1_price_usd)),
        ("token1_symbol"@, JsonVal::Str(s.token1_symbol)),
        ("token1_icon_link"@, JsonVal::Str(s.token1_icon_link)),
        ("realized_pnl"@, JsonVal::Num(s.realized_pnl)),
        ("is_nft_perp"@, JsonVal::Bool(s.is_nft_perp)),
    ];
    let ov_position_size: Option<JsonVal> = match s.position_size { Option::Some(x) => Option::Some(JsonVal::Num(x)), Option::None => Option::None };
    let seg_position_size = opt_member("position_size"@, ov_position_size);
    let ov_position_size_usd: Option<JsonVal> = match s.position_size_usd { Option::Some(x) => Option::Some(JsonVal::Num(x)), Option::None => Option::None };
    let seg_position_size_usd = opt_member("position_size_usd"@, ov_position_size_usd);
    let ov_leverage: Option<JsonVal> = match s.leverage { Option::Some(x) => Option::Some(JsonVal::Num(x)), Option::None => Option::None };
    let seg_leverage = opt_member("leverage"@, ov_leverage);
    let ov_unrealized_pnl: Option<JsonVal> = match s.unrealized_pnl { Option::Some(x) => Option::Some(JsonVal::Num(x)), Option::None => Option::None };
    let seg_unrealized_pnl = opt_member("unrealized_pnl"@, ov_unrealized_pnl);
    let tail_4 = seg_unrealized_pnl;
    let tail_3 = seg_leverage + tail_4;
    let tail_2 = seg_position_size_usd + tail_3;
    let tail_1 = seg_position_size + tail_2;
    assert(mand.len() == 37);
    assert(mand[0].0 == "wallet"@);
    assert(mand[1].0 == "wallet_label"@);
    assert(mand[2].0 == "tx_hash"@);
    assert(mand[3].0 == "tx_type"@);
    assert(mand[4].0 == "chain"@);
    assert(mand[5].0 == "index"@);
    assert(mand[6].0 == "timestamp"@);
    assert(mand[7].0 == "block"@);
    assert(mand[8].0 == "action"@);
    assert(mand[9].0 == "amount_usd"@);
    assert(mand[10].0 == "average_price"@);
    assert(mand[11].0 == "base_token_address"@);
    assert(mand[12].0 == "base_token_amount"@);
    assert(mand[13].0 == "base_token_symbol"@);
    assert(mand[14].0 == "dex"@);
    assert(mand[15].0 == "from"@);
    assert(mand[16].0 == "liquidation"@);
    assert(mand[17].0 == "liquidation_price"@);
    assert(mand[18].0 == "to"@);
    assert(mand[19].0 == "trade_direction"@);
    assert(mand[20].0 == "perp_details"@);
    assert(mand[21].0 == "token0_address"@);
    assert(mand[22].0 == "token0_amount"@);
    assert(mand[23].0 == "token0_amount_usd"@);
    assert(mand[24].0 == "token0_name"@);
    assert(mand[25].0 == "token0_price_usd"@);
    assert(mand[26].0 == "token0_symbol"@);
    assert(mand[27].0 == "token0_icon_link"@);
    assert(mand[28].0 == "token1_address"@);
    assert(mand[29].0 == "token1_amount"@);
    assert(mand[30].0 == "token1_amount_usd"@);
    assert(mand[31].0 == "token1_name"@);
    assert(mand[32].0 == "token1_price_usd"@);
    assert(mand[33].0 == "token1_symbol"@);
    assert(mand[34].0 == "token1_icon_link"@);
    assert(mand[35].0 == "realized_pnl"@);
    assert(mand[36].0 == "is_nft_perp"@);
    assert forall|j: int| 0 <= j < mand.len() implies mand[j].0 != "address"@ by {
        if j == 0 {
        } else if j == 1 {
        } else if j == 2 {
        } else if j == 3 {
        } else if j == 4 {
        } else if j == 5 {
        } else if j == 6 {
        } else if j == 7 {
        } else if j == 8 {
        } else if j == 9 {
        } else if j == 10 {
        } else if j == 11 {
        } else if j == 12 {
        } else if j == 13 {
        } else if j == 14 {
        } else if j == 15 {
        } else if j == 16 {
        } else if j == 17 {
        } else if j == 18 {
        } else if j == 19 {
        } else if j == 20 {
        } else if j == 21 {
        } else if j == 22 {
        } else if j == 23 {
        } else if j == 24 {
        } else if j == 25 {
        } else if j == 26 {
        } else if j == 27 {
        } else if j == 28 {
        } else if j == 29 {
        } else if j == 30 {
        } else if j == 31 {
        } else if j == 32 {
        } else if j == 33 {
        } else if j == 34 {
        } else if j == 35 {
        } else if j == 36 {
        } else {
        }
    }
    lemma_lookup_absent(mand, "address"@);
    lemma_opt_member_lookup("position_size"@, ov_position_size, "address"@);
    lemma_opt_member_lookup("position_size_usd"@, ov_position_size_usd, "address"@);
    lemma_opt_member_lookup("leverage"@, ov_leverage, "address"@);
    lemma_opt_member_lookup("unrealized_pnl"@, ov_unrealized_pnl, "address"@);
    lemma_lookup_absent_concat(seg_leverage, tail_4, "address"@);
    lemma_lookup_absent_concat(seg_position_size_usd, tail_3, "address"@);
    lemma_lookup_absent_concat(seg_position_size, tail_2, "address"@);
    lemma_lookup_absent_concat(mand, tail_1, "address"@);
    assert(ms == mand + tail_1);
    assert(spec_decode_flashloan(ms) is None);
}

/// An encoded `perp` record lacks `address`, which the `reward` shape needs.
#[verifier::spinoff_prover]
proof fn lemma_perp_not_reward(s: PerpV)
    ensures
        spec_decode_reward(spec_encode_perp(s)) is None,
{
    reveal_strlit("action");
    reveal_strlit("address");
    reveal_strlit("amount_usd");
    reveal_strlit("average_price");
    reveal_strlit("base_token_address");
    reveal_strlit("base_token_amount");
    reveal_strlit("base_token_symbol");
    reveal_strlit("block");
    reveal_strlit("chain");
    reveal_strlit("dex");
    reveal_strlit("from");
    reveal_strlit("index");
    reveal_strlit("is_nft_perp");
    reveal_strlit("leverage");
    reveal_strlit("liquidation");
    reveal_strlit("liquidation_price");
    reveal_strlit("perp_details");
    reveal_strlit("position_size");
    reveal_strlit("position_size_usd");
    reveal_strlit("realized_pnl");
    reveal_strlit("timestamp");
    reveal_strlit("to");
    reveal_strlit("token0_address");
    reveal_strlit("token0_amount");
    reveal_strlit("token0_amount_usd");
    reveal_strlit("token0_icon_link");
    reveal_strlit("token0_name");
    reveal_strlit("token0_price_usd");
    reveal_strlit("token0_symbol");
    reveal_strlit("token1_address");
    reveal_strlit("token1_amount");
    reveal_strlit("token1_amount_usd");
    reveal_strlit("token1_icon_link");
    reveal_strlit("token1_name");
    reveal_strlit("token1_price_usd");
    reveal_strlit("token1_symbol");
    reveal_strlit("trade_direction");
    reveal_strlit("tx_hash");
    reveal_strlit("tx_type");
    reveal_strlit("unrealized_pnl");
    reveal_strlit("wallet");
    reveal_strlit("wallet_label");
    assert("action"@.len() == 6);
    assert("address"@.len() == 7);
    assert("amount_usd"@.len() == 10);
    assert("average_price"@.len() == 13);
    assert("base_token_address"@.len() == 18);
    assert("base_token_amount"@.len() == 17);
    assert("base_token_symbol"@.len() == 17);
    assert("block"@.len() == 5);
    assert("chain"@.len() == 5);
    assert("dex"@.len() == 3);
    assert("from"@.len() == 4);
    assert("index"@.len() == 5);
    assert("is_nft_perp"@.len() == 11);
    assert("leverage"@.len() == 8);
    assert("liquidation"@.len() == 11);
    assert("liquidation_price"@.len() == 17);
    assert("perp_details"@.len() == 12);
    assert("position_size"@.len() == 13);
    assert("position_size_usd"@.len() == 17);
    assert("realized_pnl"@.len() == 12);
    assert("timestamp"@.len() == 9);
    assert("to"@.len() == 2);
    assert("token0_address"@.len() == 14);
    assert("token0_amount"@.len() == 13);
    assert("token0_amount_usd"@.len() == 17);
    assert("token0_icon_link"@.len() == 16);
    assert("token0_name"@.len() == 11);
    assert("token0_price_usd"@.len() == 16);
    assert("token0_symbol"@.len() == 13);
    assert("token1_address"@.len() == 14);
    assert("token1_amount"@.len() == 13);
    assert("token1_amount_usd"@.len() == 17);
    assert("token1_icon_link"@.len() == 16);
    assert("token1_name"@.len() == 11);
    assert("token1_price_usd"@.len() == 16);
    assert("token1_symbol"@.len() == 13);
    assert("trade_direction"@.len() == 15);
    assert("tx_hash"@.len() == 7);
    assert("tx_type"@.len() == 7);
    assert("unrealized_pnl"@.len() == 14);
    assert("wallet"@.len() == 6);
    assert("wallet_label"@.len() == 12);
    assert("address"@[0] == 'a');
    assert("tx_hash"@[0] == 't');
    assert("tx_type"@[0] == 't');
    let ms = spec_encode_perp(s);
    let mand: Seq<(Seq<char>, JsonVal)> = seq![
        ("wallet"@, JsonVal::Str(s.wallet)),
        ("wallet_label"@, JsonVal::Str(s.wallet_label)),
        ("tx_hash"@, JsonVal::Str(s.tx_hash)),
        ("tx_type"@, JsonVal::Str(s.tx_type)),
        ("chain"@, JsonVal::Str(s.chain)),
        ("index"@, JsonVal::Num(JsonNumber::PosInt(s.index as u64))),
        ("timestamp"@, JsonVal::Num(JsonNumber::PosInt(s.timestamp))),
        ("block"@, JsonVal::Num(JsonNumber::PosInt(s.block))),
        ("action"@, JsonVal::Str(s.action)),
        ("amount_usd"@, JsonVal::Num(s.amount_usd)),
        ("average_price"@, JsonVal::Num(s.average_price)),
        ("base_token_address"@, JsonVal::Str(s.base_token_address)),
        ("base_token_amount"@, JsonVal::Num(s.base_token_amount)),
        ("base_token_symbol"@, JsonVal::Str(s.base_token_symbol)),
        ("dex"@, JsonVal::Str(s.dex)),
        ("from"@, JsonVal::Str(s.from)),
        ("liquidation"@, JsonVal::Bool(s.liquidation)),
        ("liquidation_price"@, JsonVal::Num(s.liquidation_price)),
        ("to"@, JsonVal::Str(s.to)),
        ("trade_direction"@, JsonVal::Str(s.trade_direction)),
        ("perp_details"@, JsonVal::Str(s.perp_details)),
        ("token0_address"@, JsonVal::Str(s.token0_address)),
        ("token0_amount"@, JsonVal::Num(s.token0_amount)),
        ("token0_amount_usd"@, JsonVal::Num(s.token0_amount_usd)),
        ("token0_name"@, JsonVal::Str(s.token0_name)),
        ("token0_price_usd"@, JsonVal::Num(s.token0_price_usd)),
        ("token0_symbol"@, JsonVal::Str(s.token0_symbol)),
        ("token0_icon_link"@, JsonVal::Str(s.token0_icon_link)),
        ("token1_address"@, JsonVal::Str(s.token1_address)),
        ("token1_amount"@, JsonVal::Num(s.token1_amount)),
        ("token1_amount_usd"@, JsonVal::Num(s.token1_amount_usd)),
        ("token1_name"@, JsonVal::Str(s.token1_name)),
        ("token1_price_usd"@, JsonVal::Num(s.token1_price_usd)),
        ("token1_symbol"@, JsonVal::Str(s.token1_symbol)),
        ("token1_icon_link"@, JsonVal::Str(s.token1_icon_link)),
        ("realized_pnl"@, JsonVal::Num(s.realized_pnl)),
        ("is_nft_perp"@, JsonVal::Bool(s.is_nft_perp)),
    ];
    let ov_position_size: Option<JsonVal> = match s.position_size { Option::Some(x) => Option::Some(JsonVal::Num(x)), Option::None => Option::None };
    let seg_position_size = opt_member("position_size"@, ov_position_size);
    let ov_position_size_usd: Option<JsonVal> = match s.position_size_usd { Option::Some(x) => Option::Some(JsonVal::Num(x)), Option::None => Option::None };
    let seg_position_size_usd = opt_member("position_size_usd"@, ov_position_size_usd);
    let ov_leverage: Option<JsonVal> = match s.leverage { Option::Some(x) => Option::Some(JsonVal::Num(x)), Option::None => Option::None };
    let seg_leverage = opt_member("leverage"@, ov_leverage);
    let ov_unrealized_pnl: Option<JsonVal> = match s.unrealized_pnl { Option::Some(x) => Option::Some(JsonVal::Num(x)), Option::None => Option::None };
    let seg_unrealized_pnl = opt_member("unrealized_pnl"@, ov_unrealized_pnl);
    let tail_4 = seg_unrealized_pnl;
    let tail_3 = seg_leverage + tail_4;
    let tail_2 = seg_position_size_usd + tail_3;
    let tail_1 = seg_position_size + tail_2;
    assert(mand.len() == 37);
    assert(mand[0].0 == "wallet"@);
    assert(mand[1].0 == "wallet_label"@);
    assert(mand[2].0 == "tx_hash"@);
    assert(mand[3].0 == "tx_type"@);
    assert(mand[4].0 == "chain"@);
    assert(mand[5].0 == "index"@);
    assert(mand[6].0 == "timestamp"@);
    assert(mand[7].0 == "block"@);
    assert(mand[8].0 == "action"@);
    assert(mand[9].0 == "amount_usd"@);
    assert(mand[10].0 == "average_price"@);
    assert(mand[11].0 == "base_token_address"@);
    assert(mand[12].0 == "base_token_amount"@);
    assert(mand[13].0 == "base_token_symbol"@);
    assert(mand[14].0 == "dex"@);
    assert(mand[15].0 == "from"@);
    assert(mand[16].0 == "liquidation"@);
    assert(mand[17].0 == "liquidation_price"@);
    assert(mand[18].0 == "to"@);
    assert(mand[19].0 == "trade_direction"@);
    assert(mand[20].0 == "perp_details"@);
    assert(mand[21].0 == "token0_address"@);
    assert(mand[22].0 == "token0_amount"@);
    assert(mand[23].0 == "token0_amount_usd"@);
    assert(mand[24].0 == "token0_name"@);
    assert(mand[25].0 == "token0_price_usd"@);
    assert(mand[26].0 == "token0_symbol"@);
    assert(mand[27].0 == "token0_icon_link"@);
    assert(mand[28].0 == "token1_address"@);
    assert(mand[29].0 == "token1_amount"@);
    assert(mand[30].0 == "token1_amount_usd"@);
    assert(mand[31].0 == "token1_name"@);
    assert(mand[32].0 == "token1_price_usd"@);
    assert(mand[33].0 == "token1_symbol"@);
    assert(mand[34].0 == "token1_icon_link"@);
    assert(mand[35].0 == "realized_pnl"@);
    assert(mand[36].0 == "is_nft_perp"@);
    assert forall|j: int| 0 <= j < mand.len() implies mand[j].0 != "address"@ by {
        if j == 0 {
        } else if j == 1 {
        } else if j == 2 {
        } else if j == 3 {
        } else if j == 4 {
        } else if j == 5 {
        } else if j == 6 {
        } else if j == 7 {
        } else if j == 8 {
        } else if j == 9 {
        } else if j == 10 {
        } else if j == 11 {
        } else if j == 12 {
        } else if j == 13 {
        } else if j == 14 {
        } else if j == 15 {
        } else if j == 16 {
        } else if j == 17 {
        } else if j == 18 {
        } else if j == 19 {
        } else if j == 20 {
        } else if j == 21 {
        } else if j == 22 {
        } else if j == 23 {
        } else if j == 24 {
        } else if j == 25 {
        } else if j == 26 {
        } else if j == 27 {
        } else if j == 28 {
        } else if j == 29 {
        } else if j == 30 {
        } else if j == 31 {
        } else if j == 32 {
        } else if j == 33 {
        } else if j == 34 {
        } else if j == 35 {
        } else if j == 36 {
        } else {
        }
    }
    lemma_lookup_absent(mand, "address"@);
    lemma_opt_member_lookup("position_size"@, ov_position_size, "address"@);
    lemma_opt_member_lookup("position_size_usd"@, ov_position_size_usd, "address"@);
    lemma_opt_member_lookup("leverage"@, ov_leverage, "address"@);
    lemma_opt_member_lookup("unrealized_pnl"@, ov_unrealized_pnl, "address"@);
    lemma_lookup_absent_concat(seg_leverage, tail_4, "address"@);
    lemma_lookup_absent_concat(seg_position_size_usd, tail_3, "address"@);
    lemma_lookup_absent_concat(seg_position_size, tail_2, "address"@);
    lemma_lookup_absent_concat(mand, tail_1, "address"@);
    assert(ms == mand + tail_1);
    assert(spec_decode_reward(ms) is None);
}

/// An encoded `perp` record lacks `from_label`, which the `staking` shape needs.
#[verifier::spinoff_prover]
proof fn lemma_perp_not_staking(s: PerpV)
    ensures
        spec_decode_staking(spec_encode_perp(s)) is None,
{
    reveal_strlit("action");
    reveal_strlit("amount_usd");
    reveal_strlit("average_price");
    reveal_strlit("base_token_address");
    reveal_strlit("base_token_amount");
    reveal_strlit("base_token_symbol");
    reveal_strlit("block");
    reveal_strlit("chain");
    reveal_strlit("dex");
    reveal_strlit("from");
    reveal_strlit("from_label");
    reveal_strlit("index");
    reveal_strlit("is_nft_perp");
    reveal_strlit("leverage");
    reveal_strlit("liquidation");
    reveal_strlit("liquidation_price");
    reveal_strlit("perp_details");
    reveal_strlit("position_size");
    reveal_strlit("position_size_usd");
    reveal_strlit("realized_pnl");
    reveal_strlit("timestamp");
    reveal_strlit("to");
    reveal_strlit("token0_address");
    reveal_strlit("token0_amount");
    reveal_strlit("token0_amount_usd");
    reveal_strlit("token0_icon_link");
    reveal_strlit("token0_name");
    reveal_strlit("token0_price_usd");
    reveal_strlit("token0_symbol");
    reveal_strlit("token1_address");
    reveal_strlit("token1_amount");
    reveal_strlit("token1_amount_usd");
    reveal_strlit("token1_icon_link");
    reveal_strlit("token1_name");
    reveal_strlit("token1_price_usd");
    reveal_strlit("token1_symbol");
    reveal_strlit("trade_direction");
    reveal_strlit("tx_hash");
    reveal_strlit("tx_type");
    reveal_strlit("unrealized_pnl");
    reveal_strlit("wallet");
    reveal_strlit("wallet_label");
    assert("action"@.len() == 6);
    assert("amount_usd"@.len() == 10);
    assert("average_price"@.len() == 13);
    assert("base_token_address"@.len() == 18);
    assert("base_token_amount"@.len() == 17);
    assert("base_token_symbol"@.len() == 17);
    assert("block"@.len() == 5);
    assert("chain"@.len() == 5);
    assert("dex"@.len() == 3);
    assert("from"@.len() == 4);
    assert("from_label"@.len() == 10);
    assert("index"@.len() == 5);
    assert("is_nft_perp"@.len() == 11);
    assert("leverage"@.len() == 8);
    assert("liquidation"@.len() == 11);
    assert("liquidation_price"@.len() == 17);
    assert("perp_details"@.len() == 12);
    assert("position_size"@.len() == 13);
    assert("position_size_usd"@.len() == 17);
    assert("realized_pnl"@.len() == 12);
    assert("timestamp"@.len() == 9);
    assert("to"@.len() == 2);
    assert("token0_address"@.len() == 14);
    assert("token0_amount"@.len() == 13);
    assert("token0_amount_usd"@.len() == 17);
    assert("token0_icon_link"@.len() == 16);
    assert("token0_name"@.len() == 11);
    assert("token0_price_usd"@.len() == 16);
    assert("token0_symbol"@.len() == 13);
    assert("token1_address"@.len() == 14);
    assert("token1_amount"@.len() == 13);
    assert("token1_amount_usd"@.len() == 17);
    assert("token1_icon_link"@.len() == 16);
    assert("token1_name"@.len() == 11);
    assert("token1_price_usd"@.len() == 16);
    assert("token1_symbol"@.len() == 13);
    assert("trade_direction"@.len() == 15);
    assert("tx_hash"@.len() == 7);
    assert("tx_type"@.len() == 7);
    assert("unrealized_pnl"@.len() == 14);
    assert("wallet"@.len() == 6);
    assert("wallet_label"@.len() == 12);
    assert("amount_usd"@[0] == 'a');
    assert("from_label"@[0] == 'f');
    let ms = spec_encode_perp(s);
    let mand: Seq<(Seq<char>, JsonVal)> = seq![
        ("wallet"@, JsonVal::Str(s.wallet)),
        ("wallet_label"@, JsonVal::Str(s.wallet_label)),
        ("tx_hash"@, JsonVal::Str(s.tx_hash)),
        ("tx_type"@, JsonVal::Str(s.tx_type)),
        ("chain"@, JsonVal::Str(s.chain)),
        ("index"@, JsonVal::Num(JsonNumber::PosInt(s.index as u64))),
        ("timestamp"@, JsonVal::Num(JsonNumber::PosInt(s.timestamp))),
        ("block"@, JsonVal::Num(JsonNumber::PosInt(s.block))),
        ("action"@, JsonVal::Str(s.action)),
        ("amount_usd"@, JsonVal::Num(s.amount_usd)),
        ("average_price"@, JsonVal::Num(s.average_price)),
        ("base_token_address"@, JsonVal::Str(s.base_token_address)),
        ("base_token_amount"@, JsonVal::Num(s.base_token_amount)),
        ("base_token_symbol"@, JsonVal::Str(s.base_token_symbol)),
        ("dex"@, JsonVal::Str(s.dex)),
        ("from"@, JsonVal::Str(s.from)),
        ("liquidation"@, JsonVal::Bool(s.liquidation)),
        ("liquidation_price"@, JsonVal::Num(s.liquidation_price)),
        ("to"@, JsonVal::Str(s.to)),
        ("trade_direction"@, JsonVal::Str(s.trade_direction)),
        ("perp_details"@, JsonVal::Str(s.perp_details)),
        ("token0_address"@, JsonVal::Str(s.token0_address)),
        ("token0_amount"@, JsonVal::Num(s.token0_amount)),
        ("token0_amount_usd"@, JsonVal::Num(s.token0_amount_usd)),
        ("token0_name"@, JsonVal::Str(s.token0_name)),
        ("token0_price_usd"@, JsonVal::Num(s.token0_price_usd)),
        ("token0_symbol"@, JsonVal::Str(s.token0_symbol)),
        ("token0_icon_link"@, JsonVal::Str(s.token0_icon_link)),
        ("token1_address"@, JsonVal::Str(s.token1_address)),
        ("token1_amount"@, JsonVal::Num(s.token1_amount)),
        ("token1_amount_usd"@, JsonVal::Num(s.token1_amount_usd)),
        ("token1_name"@, JsonVal::Str(s.token1_name)),
        ("token1_price_usd"@, JsonVal::Num(s.token1_price_usd)),
        ("token1_symbol"@, JsonVal::Str(s.token1_symbol)),
        ("token1_icon_link"@, JsonVal::Str(s.token1_icon_link)),
        ("realized_pnl"@, JsonVal::Num(s.realized_pnl)),
        ("is_nft_perp"@, JsonVal::Bool(s.is_nft_perp)),
    ];
    let ov_position_size: Option<JsonVal> = match s.position_size { Option::Some(x) => Option::Some(JsonVal::Num(x)), Option::None => Option::None };
    let seg_position_size = opt_member("position_size"@, ov_position_size);
    let ov_position_size_usd: Option<JsonVal> = match s.position_size_usd { Option::Some(x) => Option::Some(JsonVal::Num(x)), Option::None => Option::None };
    let seg_position_size_usd = opt_member("position_size_usd"@, ov_position_size_usd);
    let ov_leverage: Option<JsonVal> = match s.leverage { Option::Some(x) => Option::Some(JsonVal::Num(x)), Option::None => Option::None };
    let seg_leverage = opt_member("leverage"@, ov_leverage);
    let ov_unrealized_pnl: Option<JsonVal> = match s.unrealized_pnl { Option::Some(x) => Option::Some(JsonVal::Num(x)), Option::None => Option::None };
    let seg_unrealized_pnl = opt_member("unrealized_pnl"@, ov_unrealized_pnl);
    let tail_4 = seg_unrealized_pnl;
    let tail_3 = seg_leverage + tail_4;
    let tail_2 = seg_position_size_usd + tail_3;
    let tail_1 = seg_position_size + tail_2;
    assert(mand.len() == 37);
    assert(mand[0].0 == "wallet"@);
    assert(mand[1].0 == "wallet_label"@);
    assert(mand[2].0 == "tx_hash"@);
    assert(mand[3].0 == "tx_type"@);
    assert(mand[4].0 == "chain"@);
    assert(mand[5].0 == "index"@);
    assert(mand[6].0 == "timestamp"@);
    assert(mand[7].0 == "block"@);
    assert(mand[8].0 == "action"@);
    assert(mand[9].0 == "amount_usd"@);
    assert(mand[10].0 == "average_price"@);
    assert(mand[11].0 == "base_token_address"@);
    assert(mand[12].0 == "base_token_amount"@);
    assert(mand[13].0 == "base_token_symbol"@);
    assert(mand[14].0 == "dex"@);
    assert(mand[15].0 == "from"@);
    assert(mand[16].0 == "liquidation"@);
    assert(mand[17].0 == "liquidation_price"@);
    assert(mand[18].0 == "to"@);
    assert(mand[19].0 == "trade_direction"@);
    assert(mand[20].0 == "perp_details"@);
    assert(mand[21].0 == "token0_address"@);
    assert(mand[22].0 == "token0_amount"@);
    assert(mand[23].0 == "token0_amount_usd"@);
    assert(mand[24].0 == "token0_name"@);
    assert(mand[25].0 == "token0_price_usd"@);
    assert(mand[26].0 == "token0_symbol"@);
    assert(mand[27].0 == "token0_icon_link"@);
    assert(mand[28].0 == "token1_address"@);
    assert(mand[29].0 == "token1_amount"@);
    assert(mand[30].0 == "token1_amount_usd"@);
    assert(mand[31].0 == "token1_name"@);
    assert(mand[32].0 == "token1_price_usd"@);
    assert(mand[33].0 == "token1_symbol"@);
    assert(mand[34].0 == "token1_icon_link"@);
    assert(mand[35].0 == "realized_pnl"@);
    assert(mand[36].0 == "is_nft_perp"@);
    assert forall|j: int| 0 <= j < mand.len() implies mand[j].0 != "from_label"@ by {
        if j == 0 {
        } else if j == 1 {
        } else if j == 2 {
        } else if j == 3 {
        } else if j == 4 {
        } else if j == 5 {
        } else if j == 6 {
        } else if j == 7 {
        } else if j == 8 {
        } else if j == 9 {
        } else if j == 10 {
        } else if j == 11 {
        } else if j == 12 {
        } else if j == 13 {
        } else if j == 14 {
        } else if j == 15 {
        } else if j == 16 {
        } else if j == 17 {
        } else if j == 18 {
        } else if j == 19 {
        } else if j == 20 {
        } else if j == 21 {
        } else if j == 22 {
        } else if j == 23 {
        } else if j == 24 {
        } else if j == 25 {
        } else if j == 26 {
        } else if j == 27 {
        } else if j == 28 {
        } else if j == 29 {
        } else if j == 30 {
        } else if j == 31 {
        } else if j == 32 {
        } else if j == 33 {
        } else if j == 34 {
        } else if j == 35 {
        } else if j == 36 {
        } else {
        }
    }
    lemma_lookup_absent(mand, "from_label"@);
    lemma_opt_member_lookup("position_size"@, ov_position_size, "from_label"@);
    lemma_opt_member_lookup("position_size_usd"@, ov_position_size_usd, "from_label"@);
    lemma_opt_member_lookup("leverage"@, ov_leverage, "from_label"@);
    lemma_opt_member_lookup("unrealized_pnl"@, ov_unrealized_pnl, "from_label"@);
    lemma_lookup_absent_concat(seg_leverage, tail_4, "from_label"@);
    lemma_lookup_absent_concat(seg_position_size_usd, tail_3, "from_label"@);
    lemma_lookup_absent_concat(seg_position_size, tail_2, "from_label"@);
    lemma_lookup_absent_concat(mand, tail_1, "from_label"@);
    assert(ms == mand + tail_1);
    assert(spec_decode_staking(ms) is None);
}

/// Decoding an encoded `perp` record yields it back.
#[verifier::rlimit(50)]
#[verifier::spinoff_prover]
pub proof fn lemma_perp_round_trip(s: PerpV)
    ensures
        spec_decode_item(spec_encode_item(ItemV::Perp(s))) == Some(ItemV::Perp(s)),
{
    reveal_strlit("action");
    reveal_strlit("amount_usd");
    reveal_strlit("average_price");
    reveal_strlit("base_token_address");
    reveal_strlit("base_token_amount");
    reveal_strlit("base_token_symbol");
    reveal_strlit("block");
    reveal_strlit("chain");
    reveal_strlit("dex");
    reveal_strlit("from");
    reveal_strlit("index");
    reveal_strlit("is_nft_perp");
    reveal_strlit("leverage");
    reveal_strlit("liquidation");
    reveal_strlit("liquidation_price");
    reveal_strlit("perp_details");
    reveal_strlit("position_size");
    reveal_strlit("position_size_usd");
    reveal_strlit("realized_pnl");
    reveal_strlit("timestamp");
    reveal_strlit("to");
    reveal_strlit("token0_address");
    reveal_strlit("token0_amount");
    reveal_strlit("token0_amount_usd");
    reveal_strlit("token0_icon_link");
    reveal_strlit("token0_name");
    reveal_strlit("token0_price_usd");
    reveal_strlit("token0_symbol");
    reveal_strlit("token1_address");
    reveal_strlit("token1_amount");
    reveal_strlit("token1_amount_usd");
    reveal_strlit("token1_icon_link");
    reveal_strlit("token1_name");
    reveal_strlit("token1_price_usd");
    reveal_strlit("token1_symbol");
    reveal_strlit("trade_direction");
    reveal_strlit("tx_hash");
    reveal_strlit("tx_type");
    reveal_strlit("unrealized_pnl");
    reveal_strlit("wallet");
    reveal_strlit("wallet_label");
    assert("action"@.len() == 6);
    assert("amount_usd"@.len() == 10);
    assert("average_price"@.len() == 13);
    assert("base_token_address"@.len() == 18);
    assert("base_token_amount"@.len() == 17);
    assert("base_token_symbol"@.len() == 17);
    assert("block"@.len() == 5);
    assert("chain"@.len() == 5);
    assert("dex"@.len() == 3);
    assert("from"@.len() == 4);
    assert("index"@.len() == 5);
    assert("is_nft_perp"@.len() == 11);
    assert("leverage"@.len() == 8);
    assert("liquidation"@.len() == 11);
    assert("liquidation_price"@.len() == 17);
    assert("perp_details"@.len() == 12);
    assert("position_size"@.len() == 13);
    assert("position_size_usd"@.len() == 17);
    assert("realized_pnl"@.len() == 12);
    assert("timestamp"@.len() == 9);
    assert("to"@.len() == 2);
    assert("token0_address"@.len() == 14);
    assert("token0_amount"@.len() == 13);
    assert("token0_amount_usd"@.len() == 17);
    assert("token0_icon_link"@.len() == 16);
    assert("token0_name"@.len() == 11);
    assert("token0_price_usd"@.len() == 16);
    assert("token0_symbol"@.len() == 13);
    assert("token1_address"@.len() == 14);
    assert("token1_amount"@.len() == 13);
    assert("token1_amount_usd"@.len() == 17);
    assert("token1_icon_link"@.len() == 16);
    assert("token1_name"@.len() == 11);
    assert("token1_price_usd"@.len() == 16);
    assert("token1_symbol"@.len() == 13);
    assert("trade_direction"@.len() == 15);
    assert("tx_hash"@.len() == 7);
    assert("tx_type"@.len() == 7);
    assert("unrealized_pnl"@.len() == 14);
    assert("wallet"@.len() == 6);
    assert("wallet_label"@.len() == 12);
    assert("action"@[0] == 'a');
    assert("average_price"@[0] == 'a');
    assert("base_token_amount"@[0] == 'b');
    assert("base_token_amount"@[11] == 'a');
    assert("base_token_symbol"@[0] == 'b');
    assert("base_token_symbol"@[11] == 's');
    assert("block"@[0] == 'b');
    assert("chain"@[0] == 'c');
    assert("index"@[0] == 'i');
    assert("is_nft_perp"@[0] == 'i');
    assert("liquidation"@[0] == 'l');
    assert("liquidation_price"@[0] == 'l');
    assert("perp_details"@[0] == 'p');
    assert("position_size"@[0] == 'p');
    assert("position_size_usd"@[0] == 'p');
    assert("realized_pnl"@[0] == 'r');
    assert("token0_address"@[0] == 't');
    assert("token0_address"@[5] == '0');
    assert("token0_amount"@[0] == 't');
    assert("token0_amount"@[5] == '0');
    assert("token0_amount"@[7] == 'a');
    assert("token0_amount_usd"@[0] == 't');
    assert("token0_amount_usd"@[5] == '0');
    assert("token0_icon_link"@[5] == '0');
    assert("token0_icon_link"@[7] == 'i');
    assert("token0_name"@[0] == 't');
    assert("token0_name"@[5] == '0');
    assert("token0_price_usd"@[5] == '0');
    assert("token0_price_usd"@[7] == 'p');
    assert("token0_symbol"@[0] == 't');
    assert("token0_symbol"@[5] == '0');
    assert("token0_symbol"@[7] == 's');
    assert("token1_address"@[0] == 't');
    assert("token1_address"@[5] == '1');
    assert("token1_amount"@[0] == 't');
    assert("token1_amount"@[5] == '1');
    assert("token1_amount"@[7] == 'a');
    assert("token1_amount_usd"@[0] == 't');
    assert("token1_amount_usd"@[5] == '1');
    assert("token1_icon_link"@[5] == '1');
    assert("token1_icon_link"@[7] == 'i');
    assert("token1_name"@[0] == 't');
    assert("token1_name"@[5] == '1');
    assert("token1_price_usd"@[5] == '1');
    assert("token1_price_usd"@[7] == 'p');
    assert("token1_symbol"@[0] == 't');
    assert("token1_symbol"@[5] == '1');
    assert("token1_symbol"@[7] == 's');
    assert("tx_hash"@[3] == 'h');
    assert("tx_type"@[3] == 't');
    assert("unrealized_pnl"@[0] == 'u');
    assert("wallet"@[0] == 'w');
    assert("wallet_label"@[0] == 'w');
    let ms = spec_encode_perp(s);
    let mand: Seq<(Seq<char>, JsonVal)> = seq![
        ("wallet"@, JsonVal::Str(s.wallet)),
        ("wallet_label"@, JsonVal::Str(s.wallet_label)),
        ("tx_hash"@, JsonVal::Str(s.tx_hash)),
        ("tx_type"@, JsonVal::Str(s.tx_type)),
        ("chain"@, JsonVal::Str(s.chain)),
        ("index"@, JsonVal::Num(JsonNumber::PosInt(s.index as u64))),
        ("timestamp"@, JsonVal::Num(JsonNumber::PosInt(s.timestamp))),
        ("block"@, JsonVal::Num(JsonNumber::PosInt(s.block))),
        ("action"@, JsonVal::Str(s.action)),
        ("amount_usd"@, JsonVal::Num(s.amount_usd)),
        ("average_price"@, JsonVal::Num(s.average_price)),
        ("base_token_address"@, JsonVal::Str(s.base_token_address)),
        ("base_token_amount"@, JsonVal::Num(s.base_token_amount)),
        ("base_token_symbol"@, JsonVal::Str(s.base_token_symbol)),
        ("dex"@, JsonVal::Str(s.dex)),
        ("from"@, JsonVal::Str(s.from)),
        ("liquidation"@, JsonVal::Bool(s.liquidation)),
        ("liquidation_price"@, JsonVal::Num(s.liquidation_price)),
        ("to"@, JsonVal::Str(s.to)),
        ("trade_direction"@, JsonVal::Str(s.trade_direction)),
        ("perp_details"@, JsonVal::Str(s.perp_details)),
        ("token0_address"@, JsonVal::Str(s.token0_address)),
        ("token0_amount"@, JsonVal::Num(s.token0_amount)),
        ("token0_amount_usd"@, JsonVal::Num(s.token0_amount_usd)),
        ("token0_name"@, JsonVal::Str(s.token0_name)),
        ("token0_price_usd"@, JsonVal::Num(s.token0_price_usd)),
        ("token0_symbol"@, JsonVal::Str(s.token0_symbol)),
        ("token0_icon_link"@, JsonVal::Str(s.token0_icon_link)),
        ("token1_address"@, JsonVal::Str(s.token1_address)),
        ("token1_amount"@, JsonVal::Num(s.token1_amount)),
        ("token1_amount_usd"@, JsonVal::Num(s.token1_amount_usd)),
        ("token1_name"@, JsonVal::Str(s.token1_name)),
        ("token1_price_usd"@, JsonVal::Num(s.token1_price_usd)),
        ("token1_symbol"@, JsonVal::Str(s.token1_symbol)),
        ("token1_icon_link"@, JsonVal::Str(s.token1_icon_link)),
        ("realized_pnl"@, JsonVal::Num(s.realized_pnl)),
        ("is_nft_perp"@, JsonVal::Bool(s.is_nft_perp)),
    ];
    let ov_position_size: Option<JsonVal> = match s.position_size { Option::Some(x) => Option::Some(JsonVal::Num(x)), Option::None => Option::None };
    let seg_position_size = opt_member("position_size"@, ov_position_size);
    let ov_position_size_usd: Option<JsonVal> = match s.position_size_usd { Option::Some(x) => Option::Some(JsonVal::Num(x)), Option::None => Option::None };
    let seg_position_size_usd = opt_member("position_size_usd"@, ov_position_size_usd);
    let ov_leverage: Option<JsonVal> = match s.leverage { Option::Some(x) => Option::Some(JsonVal::Num(x)), Option::None => Option::None };
    let seg_leverage = opt_member("leverage"@, ov_leverage);
    let ov_unrealized_pnl: Option<JsonVal> = match s.unrealized_pnl { Option::Some(x) => Option::Some(JsonVal::Num(x)), Option::None => Option::None };
    let seg_unrealized_pnl = opt_member("unrealized_pnl"@, ov_unrealized_pnl);
    let tail_4 = seg_unrealized_pnl;
    let tail_3 = seg_leverage + tail_4;
    let tail_2 = seg_position_size_usd + tail_3;
    let tail_1 = seg_position_size + tail_2;
    assert(mand.len() == 37);
    assert(mand[0].0 == "wallet"@);
    assert(mand[1].0 == "wallet_label"@);
    assert(mand[2].0 == "tx_hash"@);
    assert(mand[3].0 == "tx_type"@);
    assert(mand[4].0 == "chain"@);
    assert(mand[5].0 == "index"@);
    assert(mand[6].0 == "timestamp"@);
    assert(mand[7].0 == "block"@);
    assert(mand[8].0 == "action"@);
    assert(mand[9].0 == "amount_usd"@);
    assert(mand[10].0 == "average_price"@);
    assert(mand[11].0 == "base_token_address"@);
    assert(mand[12].0 == "base_token_amount"@);
    assert(mand[13].0 == "base_token_symbol"@);
    assert(mand[14].0 == "dex"@);
    assert(mand[15].0 == "from"@);
    assert(mand[16].0 == "liquidation"@);
    assert(mand[17].0 == "liquidation_price"@);
    assert(mand[18].0 == "to"@);
    assert(mand[19].0 == "trade_direction"@);
    assert(mand[20].0 == "perp_details"@);
    assert(mand[21].0 == "token0_address"@);
    assert(mand[22].0 == "token0_amount"@);
    assert(mand[23].0 == "token0_amount_usd"@);
    assert(mand[24].0 == "token0_name"@);
    assert(mand[25].0 == "token0_price_usd"@);
    assert(mand[26].0 == "token0_symbol"@);
    assert(mand[27].0 == "token0_icon_link"@);
    assert(mand[28].0 == "token1_address"@);
    assert(mand[29].0 == "token1_amount"@);
    assert(mand[30].0 == "token1_amount_usd"@);
    assert(mand[31].0 == "token1_name"@);
    assert(mand[32].0 == "token1_price_usd"@);
    assert(mand[33].0 == "token1_symbol"@);
    assert(mand[34].0 == "token1_icon_link"@);
    assert(mand[35].0 == "realized_pnl"@);
    assert(mand[36].0 == "is_nft_perp"@);
    lemma_lookup_first(mand, 0);
    lemma_lookup_first(mand, 1);
    lemma_lookup_first(mand, 2);
    lemma_lookup_first(mand, 3);
    lemma_lookup_first(mand, 4);
    lemma_lookup_first(mand, 5);
    lemma_lookup_first(mand, 6);
    lemma_lookup_first(mand, 7);
    lemma_lookup_first(mand, 8);
    lemma_lookup_first(mand, 9);
    lemma_lookup_first(mand, 10);
    lemma_lookup_first(mand, 11);
    lemma_lookup_first(mand, 12);
    lemma_lookup_first(mand, 13);
    lemma_lookup_first(mand, 14);
    lemma_lookup_first(mand, 15);
    lemma_lookup_first(mand, 16);
    lemma_lookup_first(mand, 17);
    lemma_lookup_first(mand, 18);
    lemma_lookup_first(mand, 19);
    lemma_lookup_first(mand, 20);
    lemma_lookup_first(mand, 21);
    lemma_lookup_first(mand, 22);
    lemma_lookup_first(mand, 23);
    lemma_lookup_first(mand, 24);
    lemma_lookup_first(mand, 25);
    lemma_lookup_first(mand, 26);
    lemma_lookup_first(mand, 27);
    lemma_lookup_first(mand, 28);
    lemma_lookup_first(mand, 29);
    lemma_lookup_first(mand, 30);
    lemma_lookup_first(mand, 31);
    lemma_lookup_first(mand, 32);
    lemma_lookup_first(mand, 33);
    lemma_lookup_first(mand, 34);
    lemma_lookup_first(mand, 35);
    lemma_lookup_first(mand, 36);
    lemma_lookup_concat_left(mand, tail_1, "wallet"@);
    lemma_lookup_concat_left(mand, tail_1, "wallet_label"@);
    lemma_lookup_concat_left(mand, tail_1, "tx_hash"@);
    lemma_lookup_concat_left(mand, tail_1, "tx_type"@);
    lemma_lookup_concat_left(mand, tail_1, "chain"@);
    lemma_lookup_concat_left(mand, tail_1, "index"@);
    lemma_lookup_concat_left(mand, tail_1, "timestamp"@);
    lemma_lookup_concat_left(mand, tail_1, "block"@);
    lemma_lookup_concat_left(mand, tail_1, "action"@);
    lemma_lookup_concat_left(mand, tail_1, "amount_usd"@);
    lemma_lookup_concat_left(mand, tail_1, "average_price"@);
    lemma_lookup_concat_left(mand, tail_1, "base_token_address"@);
    lemma_lookup_concat_left(mand, tail_1, "base_token_amount"@);
    lemma_lookup_concat_left(mand, tail_1, "base_token_symbol"@);
    lemma_lookup_concat_left(mand, tail_1, "dex"@);
    lemma_lookup_concat_left(mand, tail_1, "from"@);
    lemma_lookup_concat_left(mand, tail_1, "liquidation"@);
    lemma_lookup_concat_left(mand, tail_1, "liquidation_price"@);
    lemma_lookup_concat_left(mand, tail_1, "to"@);
    lemma_lookup_concat_left(mand, tail_1, "trade_direction"@);
    lemma_lookup_concat_left(mand, tail_1, "perp_details"@);
    lemma_lookup_concat_left(mand, tail_1, "token0_address"@);
    lemma_lookup_concat_left(mand, tail_1, "token0_amount"@);
    lemma_lookup_concat_left(mand, tail_1, "token0_amount_usd"@);
    lemma_lookup_concat_left(mand, tail_1, "token0_name"@);
    lemma_lookup_concat_left(mand, tail_1, "token0_price_usd"@);
    lemma_lookup_concat_left(mand, tail_1, "token0_symbol"@);
    lemma_lookup_concat_left(mand, tail_1, "token0_icon_link"@);
    lemma_lookup_concat_left(mand, tail_1, "token1_address"@);
    lemma_lookup_concat_left(mand, tail_1, "token1_amount"@);
    lemma_lookup_concat_left(mand, tail_1, "token1_amount_usd"@);
    lemma_lookup_concat_left(mand, tail_1, "token1_name"@);
    lemma_lookup_concat_left(mand, tail_1, "token1_price_usd"@);
    lemma_lookup_concat_left(mand, tail_1, "token1_symbol"@);
    lemma_lookup_concat_left(mand, tail_1, "token1_icon_link"@);
    lemma_lookup_concat_left(mand, tail_1, "realized_pnl"@);
    lemma_lookup_concat_left(mand, tail_1, "is_nft_perp"@);
    lemma_perp_position_size_member(s);
    lemma_perp_position_size_usd_member(s);
    lemma_perp_leverage_member(s);
    lemma_perp_unrealized_pnl_member(s);
    lemma_perp_not_swap(s);
    lemma_perp_not_lp(s);
    lemma_perp_not_transfer(s);
    lemma_perp_not_lending(s);
    lemma_perp_not_nft_mint(s);
    lemma_perp_not_nft_trade(s);
    lemma_perp_not_nft_transfer(s);
    lemma_perp_not_nft_lending(s);
    lemma_perp_not_bridge(s);
    lemma_perp_not_contract_interaction(s);
    lemma_perp_not_wrap(s);
    lemma_perp_not_sudo_pool(s);
    lemma_perp_not_flashloan(s);
    lemma_perp_not_reward(s);
    lemma_perp_not_staking(s);
    assert(ms == mand + tail_1);
    assert(spec_decode_perp(ms) == Some(PerpV {
        wallet: s.wallet,
        wallet_label: s.wallet_label,
        tx_hash: s.tx_hash,
        tx_type: s.tx_type,
        chain: s.chain,
        index: s.index,
        timestamp: s.timestamp,
        block: s.block,
        action: s.action,
        amount_usd: s.amount_usd,
        average_price: s.average_price,
        base_token_address: s.base_token_address,
        base_token_amount: s.base_token_amount,
        base_token_symbol: s.base_token_symbol,
        dex: s.dex,
        from: s.from,
        liquidation: s.liquidation,
        liquidation_price: s.liquidation_price,
        to: s.to,
        trade_direction: s.trade_direction,
        perp_details: s.perp_details,
        token0_address: s.token0_address,
        token0_amount: s.token0_amount,
        token0_amount_usd: s.token0_amount_usd,
        token0_name: s.token0_name,
        token0_price_usd: s.token0_price_usd,
        token0_symbol: s.token0_symbol,
        token0_icon_link: s.token0_icon_link,
        token1_address: s.token1_address,
        token1_amount: s.token1_amount,
        token1_amount_usd: s.token1_amount_usd,
        token1_name: s.token1_name,
        token1_price_usd: s.token1_price_usd,
        token1_symbol: s.token1_symbol,
        token1_icon_link: s.token1_icon_link,
        realized_pnl: s.realized_pnl,
        is_nft_perp: s.is_nft_perp,
        position_size: s.position_size,
        position_size_usd: s.position_size_usd,
        leverage: s.leverage,
        unrealized_pnl: s.unrealized_pnl,
    }));
}

/// An encoded `contract_creation` record lacks `dex`, which the `swap` shape needs.
#[verifier::spinoff_prover]
proof fn lemma_contract_creation_not_swap(s: ContractCreationV)
    ensures
        spec_decode_swap(spec_encode_contract_creation(s)) is None,
{
    reveal_strlit("amount_usd");
    reveal_strlit("block");
    reveal_strlit("chain");
    reveal_strlit("contract_address");
    reveal_strlit("dex");
    reveal_strlit("from");
    reveal_strlit("from_label");
    reveal_strlit("index");
    reveal_strlit("timestamp");
    reveal_strlit("tx_hash");
    reveal_strlit("tx_type");
    reveal_strlit("wallet");
    reveal_strlit("wallet_label");
    assert("amount_usd"@.len() == 10);
    assert("block"@.len() == 5);
    assert("chain"@.len() == 5);
    assert("contract_address"@.len() == 16);
    assert("dex"@.len() == 3);
    assert("from"@.len() == 4);
    assert("from_label"@.len() == 10);
    assert("index"@.len() == 5);
    assert("timestamp"@.len() == 9);
    assert("tx_hash"@.len() == 7);
    assert("tx_type"@.len() == 7);
    assert("wallet"@.len() == 6);
    assert("wallet_label"@.len() == 12);
    let ms = spec_encode_contract_creation(s);
    let mand = ms;
    assert(mand.len() == 12);
    assert(mand[0].0 == "wallet"@);
    assert(mand[1].0 == "wallet_label"@);
    assert(mand[2].0 == "tx_hash"@);
    assert(mand[3].0 == "tx_type"@);
    assert(mand[4].0 == "chain"@);
    assert(mand[5].0 == "index"@);
    assert(mand[6].0 == "timestamp"@);
    assert(mand[7].0 == "block"@);
    assert(mand[8].0 == "amount_usd"@);
    assert(mand[9].0 == "contract_address"@);
    assert(mand[10].0 == "from"@);
    assert(mand[11].0 == "from_label"@);
    assert forall|j: int| 0 <= j < mand.len() implies mand[j].0 != "dex"@ by {
        if j == 0 {
        } else if j == 1 {
        } else if j == 2 {
        } else if j == 3 {
        } else if j == 4 {
        } else if j == 5 {
        } else if j == 6 {
        } else if j == 7 {
        } else if j == 8 {
        } else if j == 9 {
        } else if j == 10 {
        } else if j == 11 {
        } else {
        }
    }
    lemma_lookup_absent(mand, "dex"@);
    assert(spec_decode_swap(ms) is None);
}

/// An encoded `contract_creation` record lacks `dex`, which the `lp` shape needs.
#[verifier::spinoff_prover]
proof fn lemma_contract_creation_not_lp(s: ContractCreationV)
    ensures
        spec_decode_lp(spec_encode_contract_creation(s)) is None,
{
    reveal_strlit("amount_usd");
    reveal_strlit("block");
    reveal_strlit("chain");
    reveal_strlit("contract_address");
    reveal_strlit("dex");
    reveal_strlit("from");
    reveal_strlit("from_label");
    reveal_strlit("index");
    reveal_strlit("timestamp");
    reveal_strlit("tx_hash");
    reveal_strlit("tx_type");
    reveal_strlit("wallet");
    reveal_strlit("wallet_label");
    assert("amount_usd"@.len() == 10);
    assert("block"@.len() == 5);
    assert("chain"@.len() == 5);
    assert("contract_address"@.len() == 16);
    assert("dex"@.len() == 3);
    assert("from"@.len() == 4);
    assert("from_label"@.len() == 10);
    assert("index"@.len() == 5);
    assert("timestamp"@.len() == 9);
    assert("tx_hash"@.len() == 7);
    assert("tx_type"@.len() == 7);
    assert("wallet"@.len() == 6);
    assert("wallet_label"@.len() == 12);
    let ms = spec_encode_contract_creation(s);
    let mand = ms;
    assert(mand.len() == 12);
    assert(mand[0].0 == "wallet"@);
    assert(mand[1].0 == "wallet_label"@);
    assert(mand[2].0 == "tx_hash"@);
    assert(mand[3].0 == "tx_type"@);
    assert(mand[4].0 == "chain"@);
    assert(mand[5].0 == "index"@);
    assert(mand[6].0 == "timestamp"@);
    assert(mand[7].0 == "block"@);
    assert(mand[8].0 == "amount_usd"@);
    assert(mand[9].0 == "contract_address"@);
    assert(mand[10].0 == "from"@);
    assert(mand[11].0 == "from_label"@);
    assert forall|j: int| 0 <= j < mand.len() implies mand[j].0 != "dex"@ by {
        if j == 0 {
        } else if j == 1 {
        } else if j == 2 {
        } else if j == 3 {
        } else if j == 4 {
        } else if j == 5 {
        } else if j == 6 {
        } else if j == 7 {
        } else if j == 8 {
        } else if j == 9 {
        } else if j == 10 {
        } else if j == 11 {
        } else {
        }
    }
    lemma_lookup_absent(mand, "dex"@);
    assert(spec_decode_lp(ms) is None);
}

/// An encoded `contract_creation` record lacks `to`, which the `transfer` shape needs.
#[verifier::spinoff_prover]
proof fn lemma_contract_creation_not_transfer(s: ContractCreationV)
    ensures
        spec_decode_transfer(spec_encode_contract_creation(s)) is None,
{
    reveal_strlit("amount_usd");
    reveal_strlit("block");
    reveal_strlit("chain");
    reveal_strlit("contract_address");
    reveal_strlit("from");
    reveal_strlit("from_label");
    reveal_strlit("index");
    reveal_strlit("timestamp");
    reveal_strlit("to");
    reveal_strlit("tx_hash");
    reveal_strlit("tx_type");
    reveal_strlit("wallet");
    reveal_strlit("wallet_label");
    assert("amount_usd"@.len() == 10);
    assert("block"@.len() == 5);
    assert("chain"@.len() == 5);
    assert("contract_address"@.len() == 16);
    assert("from"@.len() == 4);
    assert("from_label"@.len() == 10);
    assert("index"@.len() == 5);
    assert("timestamp"@.len() == 9);
    assert("to"@.len() == 2);
    assert("tx_hash"@.len() == 7);
    assert("tx_type"@.len() == 7);
    assert("wallet"@.len() == 6);
    assert("wallet_label"@.len() == 12);
    let ms = spec_encode_contract_creation(s);
    let mand = ms;
    assert(mand.len() == 12);
    assert(mand[0].0 == "wallet"@);
    assert(mand[1].0 == "wallet_label"@);
    assert(mand[2].0 == "tx_hash"@);
    assert(mand[3].0 == "tx_type"@);
    assert(mand[4].0 == "chain"@);
    assert(mand[5].0 == "index"@);
    assert(mand[6].0 == "timestamp"@);
    assert(mand[7].0 == "block"@);
    assert(mand[8].0 == "amount_usd"@);
    assert(mand[9].0 == "contract_address"@);
    assert(mand[10].0 == "from"@);
    assert(mand[11].0 == "from_label"@);
    assert forall|j: int| 0 <= j < mand.len() implies mand[j].0 != "to"@ by {
        if j == 0 {
        } else if j == 1 {
        } else if j == 2 {
        } else if j == 3 {
        } else if j == 4 {
        } else if j == 5 {
        } else if j == 6 {
        } else if j == 7 {
        } else if j == 8 {
        } else if j == 9 {
        } else if j == 10 {
        } else if j == 11 {
        } else {
        }
    }
    lemma_lookup_absent(mand, "to"@);
    assert(spec_decode_transfer(ms) is None);
}

/// An encoded `contract_creation` record lacks `dex`, which the `lending` shape needs.
#[verifier::spinoff_prover]
proof fn lemma_contract_creation_not_lending(s: ContractCreationV)
    ensures
        spec_decode_lending(spec_encode_contract_creation(s)) is None,
{
    reveal_strlit("amount_usd");
    reveal_strlit("block");
    reveal_strlit("chain");
    reveal_strlit("contract_address");
    reveal_strlit("dex");
    reveal_strlit("from");
    reveal_strlit("from_label");
    reveal_strlit("index");
    reveal_strlit("timestamp");
    reveal_strlit("tx_hash");
    reveal_strlit("tx_type");
    reveal_strlit("wallet");
    reveal_strlit("wallet_label");
    assert("amount_usd"@.len() == 10);
    assert("block"@.len() == 5);
    assert("chain"@.len() == 5);
    assert("contract_address"@.len() == 16);
    assert("dex"@.len() == 3);
    assert("from"@.len() == 4);
    assert("from_label"@.len() == 10);
    assert("index"@.len() == 5);
    assert("timestamp"@.len() == 9);
    assert("tx_hash"@.len() == 7);
    assert("tx_type"@.len() == 7);
    assert("wallet"@.len() == 6);
    assert("wallet_label"@.len() == 12);
    let ms = spec_encode_contract_creation(s);
    let mand = ms;
    assert(mand.len() == 12);
    assert(mand[0].0 == "wallet"@);
    assert(mand[1].0 == "wallet_label"@);
    assert(mand[2].0 == "tx_hash"@);
    assert(mand[3].0 == "tx_type"@);
    assert(mand[4].0 == "chain"@);
    assert(mand[5].0 == "index"@);
    assert(mand[6].0 == "timestamp"@);
    assert(mand[7].0 == "block"@);
    assert(mand[8].0 == "amount_usd"@);
    assert(mand[9].0 == "contract_address"@);
    assert(mand[10].0 == "from"@);
    assert(mand[11].0 == "from_label"@);
    assert forall|j: int| 0 <= j < mand.len() implies mand[j].0 != "dex"@ by {
        if j == 0 {
        } else if j == 1 {
        } else if j == 2 {
        } else if j == 3 {
        } else if j == 4 {
        } else if j == 5 {
        } else if j == 6 {
        } else if j == 7 {
        } else if j == 8 {
        } else if j == 9 {
        } else if j == 10 {
        } else if j == 11 {
        } else {
        }
    }
    lemma_lookup_absent(mand, "dex"@);
    assert(spec_decode_lending(ms) is None);
}

/// An encoded `contract_creation` record lacks `to`, which the `nft_mint` shape needs.
#[verifier::spinoff_prover]
proof fn lemma_contract_creation_not_nft_mint(s: ContractCreationV)
    ensures
        spec_decode_nft_mint(spec_encode_contract_creation(s)) is None,
{
    reveal_strlit("amount_usd");
    reveal_strlit("block");
    reveal_strlit("chain");
    reveal_strlit("contract_address");
    reveal_strlit("from");
    reveal_strlit("from_label");
    reveal_strlit("index");
    reveal_strlit("timestamp");
    reveal_strlit("to");
    reveal_strlit("tx_hash");
    reveal_strlit("tx_type");
    reveal_strlit("wallet");
    reveal_strlit("wallet_label");
    assert("amount_usd"@.len() == 10);
    assert("block"@.len() == 5);
    assert("chain"@.len() == 5);
    assert("contract_address"@.len() == 16);
    assert("from"@.len() == 4);
    assert("from_label"@.len() == 10);
    assert("index"@.len() == 5);
    assert("timestamp"@.len() == 9);
    assert("to"@.len() == 2);
    assert("tx_hash"@.len() == 7);
    assert("tx_type"@.len() == 7);
    assert("wallet"@.len() == 6);
    assert("wallet_label"@.len() == 12);
    let ms = spec_encode_contract_creation(s);
    let mand = ms;
    assert(mand.len() == 12);
    assert(mand[0].0 == "wallet"@);
    assert(mand[1].0 == "wallet_label"@);
    assert(mand[2].0 == "tx_hash"@);
    assert(mand[3].0 == "tx_type"@);
    assert(mand[4].0 == "chain"@);
    assert(mand[5].0 == "index"@);
    assert(mand[6].0 == "timestamp"@);
    assert(mand[7].0 == "block"@);
    assert(mand[8].0 == "amount_usd"@);
    assert(mand[9].0 == "contract_address"@);
    assert(mand[10].0 == "from"@);
    assert(mand[11].0 == "from_label"@);
    assert forall|j: int| 0 <= j < mand.len() implies mand[j].0 != "to"@ by {
        if j == 0 {
        } else if j == 1 {
        } else if j == 2 {
        } else if j == 3 {
        } else if j == 4 {
        } else if j == 5 {
        } else if j == 6 {
        } else if j == 7 {
        } else if j == 8 {
        } else if j == 9 {
        } else if j == 10 {
        } else if j == 11 {
        } else {
        }
    }
    lemma_lookup_absent(mand, "to"@);
    assert(spec_decode_nft_mint(ms) is None);
}

/// An encoded `contract_creation` record lacks `to`, which the `nft_trade` shape needs.
#[verifier::spinoff_prover]
proof fn lemma_contract_creation_not_nft_trade(s: ContractCreationV)
    ensures
        spec_decode_nft_trade(spec_encode_contract_creation(s)) is None,
{
    reveal_strlit("amount_usd");
    reveal_strlit("block");
    reveal_strlit("chain");
    reveal_strlit("contract_address");
    reveal_strlit("from");
    reveal_strlit("from_label");
    reveal_strlit("index");
    reveal_strlit("timestamp");
    reveal_strlit("to");
    reveal_strlit("tx_hash");
    reveal_strlit("tx_type");
    reveal_strlit("wallet");
    reveal_strlit("wallet_label");
    assert("amount_usd"@.len() == 10);
    assert("block"@.len() == 5);
    assert("chain"@.len() == 5);
    assert("contract_address"@.len() == 16);
    assert("from"@.len() == 4);
    assert("from_label"@.len() == 10);
    assert("index"@.len() == 5);
    assert("timestamp"@.len() == 9);
    assert("to"@.len() == 2);
    assert("tx_hash"@.len() == 7);
    assert("tx_type"@.len() == 7);
    assert("wallet"@.len() == 6);
    assert("wallet_label"@.len() == 12);
    let ms = spec_encode_contract_creation(s);
    let mand = ms;
    assert(mand.len() == 12);
    assert(mand[0].0 == "wallet"@);
    assert(mand[1].0 == "wallet_label"@);
    assert(mand[2].0 == "tx_hash"@);
    assert(mand[3].0 == "tx_type"@);
    assert(mand[4].0 == "chain"@);
    assert(mand[5].0 == "index"@);
    assert(mand[6].0 == "timestamp"@);
    assert(mand[7].0 == "block"@);
    assert(mand[8].0 == "amount_usd"@);
    assert(mand[9].0 == "contract_address"@);
    assert(mand[10].0 == "from"@);
    assert(mand[11].0 == "from_label"@);
    assert forall|j: int| 0 <= j < mand.len() implies mand[j].0 != "to"@ by {
        if j == 0 {
        } else if j == 1 {
        } else if j == 2 {
        } else if j == 3 {
        } else if j == 4 {
        } else if j == 5 {
        } else if j == 6 {
        } else if j == 7 {
        } else if j == 8 {
        } else if j == 9 {
        } else if j == 10 {
        } else if j == 11 {
        } else {
        }
    }
    lemma_lookup_absent(mand, "to"@);
    assert(spec_decode_nft_trade(ms) is None);
}

/// An encoded `contract_creation` record lacks `to`, which the `nft_transfer` shape needs.
#[verifier::spinoff_prover]
proof fn lemma_contract_creation_not_nft_transfer(s: ContractCreationV)
    ensures
        spec_decode_nft_transfer(spec_encode_contract_creation(s)) is None,
{
    reveal_strlit("amount_usd");
    reveal_strlit("block");
    reveal_strlit("chain");
    reveal_strlit("contract_address");
    reveal_strlit("from");
    reveal_strlit("from_label");
    reveal_strlit("index");
    reveal_strlit("timestamp");
    reveal_strlit("to");
    reveal_strlit("tx_hash");
    reveal_strlit("tx_type");
    reveal_strlit("wallet");
    reveal_strlit("wallet_label");
    assert("amount_usd"@.len() == 10);
    assert("block"@.len() == 5);
    assert("chain"@.len() == 5);
    assert("contract_address"@.len() == 16);
    assert("from"@.len() == 4);
    assert("from_label"@.len() == 10);
    assert("index"@.len() == 5);
    assert("timestamp"@.len() == 9);
    assert("to"@.len() == 2);
    assert("tx_hash"@.len() == 7);
    assert("tx_type"@.len() == 7);
    assert("wallet"@.len() == 6);
    assert("wallet_label"@.len() == 12);
    let ms = spec_encode_contract_creation(s);
    let mand = ms;
    assert(mand.len() == 12);
    assert(mand[0].0 == "wallet"@);
    assert(mand[1].0 == "wallet_label"@);
    assert(mand[2].0 == "tx_hash"@);
    assert(mand[3].0 == "tx_type"@);
    assert(mand[4].0 == "chain"@);
    assert(mand[5].0 == "index"@);
    assert(mand[6].0 == "timestamp"@);
    assert(mand[7].0 == "block"@);
    assert(mand[8].0 == "amount_usd"@);
    assert(mand[9].0 == "contract_address"@);
    assert(mand[10].0 == "from"@);
    assert(mand[11].0 == "from_label"@);
    assert forall|j: int| 0 <= j < mand.len() implies mand[j].0 != "to"@ by {
        if j == 0 {
        } else if j == 1 {
        } else if j == 2 {
        } else if j == 3 {
        } else if j == 4 {
        } else if j == 5 {
        } else if j == 6 {
        } else if j == 7 {
        } else if j == 8 {
        } else if j == 9 {
        } else if j == 10 {
        } else if j == 11 {
        } else {
        }
    }
    lemma_lookup_absent(mand, "to"@);
    assert(spec_decode_nft_transfer(ms) is None);
}

/// An encoded `contract_creation` record lacks `to`, which the `nft_lending` shape needs.
#[verifier::spinoff_prover]
proof fn lemma_contract_creation_not_nft_lending(s: ContractCreationV)
    ensures
        spec_decode_nft_lending(spec_encode_contract_creation(s)) is None,
{
    reveal_strlit("amount_usd");
    reveal_strlit("block");
    reveal_strlit("chain");
    reveal_strlit("contract_address");
    reveal_strlit("from");
    reveal_strlit("from_label");
    reveal_strlit("index");
    reveal_strlit("timestamp");
    reveal_strlit("to");
    reveal_strlit("tx_hash");
    reveal_strlit("tx_type");
    reveal_strlit("wallet");
    reveal_strlit("wallet_label");
    assert("amount_usd"@.len() == 10);
    assert("block"@.len() == 5);
    assert("chain"@.len() == 5);
    assert("contract_address"@.len() == 16);
    assert("from"@.len() == 4);
    assert("from_label"@.len() == 10);
    assert("index"@.len() == 5);
    assert("timestamp"@.len() == 9);
    assert("to"@.len() == 2);
    assert("tx_hash"@.len() == 7);
    assert("tx_type"@.len() == 7);
    assert("wallet"@.len() == 6);
    assert("wallet_label"@.len() == 12);
    let ms = spec_encode_contract_creation(s);
    let mand = ms;
    assert(mand.len() == 12);
    assert(mand[0].0 == "wallet"@);
    assert(mand[1].0 == "wallet_label"@);
    assert(mand[2].0 == "tx_hash"@);
    assert(mand[3].0 == "tx_type"@);
    assert(mand[4].0 == "chain"@);
    assert(mand[5].0 == "index"@);
    assert(mand[6].0 == "timestamp"@);
    assert(mand[7].0 == "block"@);
    assert(mand[8].0 == "amount_usd"@);
    assert(mand[9].0 == "contract_address"@);
    assert(mand[10].0 == "from"@);
    assert(mand[11].0 == "from_label"@);
    assert forall|j: int| 0 <= j < mand.len() implies mand[j].0 != "to"@ by {
        if j == 0 {
        } else if j == 1 {
        } else if j == 2 {
        } else if j == 3 {
        } else if j == 4 {
        } else if j == 5 {
        } else if j == 6 {
        } else if j == 7 {
        } else if j == 8 {
        } else if j == 9 {
        } else if j == 10 {
        } else if j == 11 {
        } else {
        }
    }
    lemma_lookup_absent(mand, "to"@);
    assert(spec_decode_nft_lending(ms) is None);
}

/// An encoded `contract_creation` record lacks `to`, which the `bridge` shape needs.
#[verifier::spinoff_prover]
proof fn lemma_contract_creation_not_bridge(s: ContractCreationV)
    ensures
        spec_decode_bridge(spec_encode_contract_creation(s)) is None,
{
    reveal_strlit("amount_usd");
    reveal_strlit("block");
    reveal_strlit("chain");
    reveal_strlit("contract_address");
    reveal_strlit("from");
    reveal_strlit("from_label");
    reveal_strlit("index");
    reveal_strlit("timestamp");
    reveal_strlit("to");
    reveal_strlit("tx_hash");
    reveal_strlit("tx_type");
    reveal_strlit("wallet");
    reveal_strlit("wallet_label");
    assert("amount_usd"@.len() == 10);
    assert("block"@.len() == 5);
    assert("chain"@.len() == 5);
    assert("contract_address"@.len() == 16);
    assert("from"@.len() == 4);
    assert("from_label"@.len() == 10);
    assert("index"@.len() == 5);
    assert("timestamp"@.len() == 9);
    assert("to"@.len() == 2);
    assert("tx_hash"@.len() == 7);
    assert("tx_type"@.len() == 7);
    assert("wallet"@.len() == 6);
    assert("wallet_label"@.len() == 12);
    let ms = spec_encode_contract_creation(s);
    let mand = ms;
    assert(mand.len() == 12);
    assert(mand[0].0 == "wallet"@);
    assert(mand[1].0 == "wallet_label"@);
    assert(mand[2].0 == "tx_hash"@);
    assert(mand[3].0 == "tx_type"@);
    assert(mand[4].0 == "chain"@);
    assert(mand[5].0 == "index"@);
    assert(mand[6].0 == "timestamp"@);
    assert(mand[7].0 == "block"@);
    assert(mand[8].0 == "amount_usd"@);
    assert(mand[9].0 == "contract_address"@);
    assert(mand[10].0 == "from"@);
    assert(mand[11].0 == "from_label"@);
    assert forall|j: int| 0 <= j < mand.len() implies mand[j].0 != "to"@ by {
        if j == 0 {
        } else if j == 1 {
        } else if j == 2 {
        } else if j == 3 {
        } else if j == 4 {
        } else if j == 5 {
        } else if j == 6 {
        } else if j == 7 {
        } else if j == 8 {
        } else if j == 9 {
        } else if j == 10 {
        } else if j == 11 {
        } else {
        }
    }
    lemma_lookup_absent(mand, "to"@);
    assert(spec_decode_bridge(ms) is None);
}

/// An encoded `contract_creation` record lacks `to`, which the `contract_interaction` shape needs.
#[verifier::spinoff_prover]
proof fn lemma_contract_creation_not_contract_interaction(s: ContractCreationV)
    ensures
        spec_decode_contract_interaction(spec_encode_contract_creation(s)) is None,
{
    reveal_strlit("amount_usd");
    reveal_strlit("block");
    reveal_strlit("chain");
    reveal_strlit("contract_address");
    reveal_strlit("from");
    reveal_strlit("from_label");
    reveal_strlit("index");
    reveal_strlit("timestamp");
    reveal_strlit("to");
    reveal_strlit("tx_hash");
    reveal_strlit("tx_type");
    reveal_strlit("wallet");
    reveal_strlit("wallet_label");
    assert("amount_usd"@.len() == 10);
    assert("block"@.len() == 5);
    assert("chain"@.len() == 5);
    assert("contract_address"@.len() == 16);
    assert("from"@.len() == 4);
    assert("from_label"@.len() == 10);
    assert("index"@.len() == 5);
    assert("timestamp"@.len() == 9);
    assert("to"@.len() == 2);
    assert("tx_hash"@.len() == 7);
    assert("tx_type"@.len() == 7);
    assert("wallet"@.len() == 6);
    assert("wallet_label"@.len() == 12);
    let ms = spec_encode_contract_creation(s);
    let mand = ms;
    assert(mand.len() == 12);
    assert(mand[0].0 == "wallet"@);
    assert(mand[1].0 == "wallet_label"@);
    assert(mand[2].0 == "tx_hash"@);
    assert(mand[3].0 == "tx_type"@);
    assert(mand[4].0 == "chain"@);
    assert(mand[5].0 == "index"@);
    assert(mand[6].0 == "timestamp"@);
    assert(mand[7].0 == "block"@);
    assert(mand[8].0 == "amount_usd"@);
    assert(mand[9].0 == "contract_address"@);
    assert(mand[10].0 == "from"@);
    assert(mand[11].0 == "from_label"@);
    assert forall|j: int| 0 <= j < mand.len() implies mand[j].0 != "to"@ by {
        if j == 0 {
        } else if j == 1 {
        } else if j == 2 {
        } else if j == 3 {
        } else if j == 4 {
        } else if j == 5 {
        } else if j == 6 {
        } else if j == 7 {
        } else if j == 8 {
        } else if j == 9 {
        } else if j == 10 {
        } else if j == 11 {
        } else {
        }
    }
    lemma_lookup_absent(mand, "to"@);
    assert(spec_decode_contract_interaction(ms) is None);
}

/// An encoded `contract_creation` record lacks `dex`, which the `wrap` shape needs.
#[verifier::spinoff_prover]
proof fn lemma_contract_creation_not_wrap(s: ContractCreationV)
    ensures
        spec_decode_wrap(spec_encode_contract_creation(s)) is None,
{
    reveal_strlit("amount_usd");
    reveal_strlit("block");
    reveal_strlit("chain");
    reveal_strlit("contract_address");
    reveal_strlit("dex");
    reveal_strlit("from");
    reveal_strlit("from_label");
    reveal_strlit("index");
    reveal_strlit("timestamp");
    reveal_strlit("tx_hash");
    reveal_strlit("tx_type");
    reveal_strlit("wallet");
    reveal_strlit("wallet_label");
    assert("amount_usd"@.len() == 10);
    assert("block"@.len() == 5);
    assert("chain"@.len() == 5);
    assert("contract_address"@.len() == 16);
    assert("dex"@.len() == 3);
    assert("from"@.len() == 4);
    assert("from_label"@.len() == 10);
    assert("index"@.len() == 5);
    assert("timestamp"@.len() == 9);
    assert("tx_hash"@.len() == 7);
    assert("tx_type"@.len() == 7);
    assert("wallet"@.len() == 6);
    assert("wallet_label"@.len() == 12);
    let ms = spec_encode_contract_creation(s);
    let mand = ms;
    assert(mand.len() == 12);
    assert(mand[0].0 == "wallet"@);
    assert(mand[1].0 == "wallet_label"@);
    assert(mand[2].0 == "tx_hash"@);
    assert(mand[3].0 == "tx_type"@);
    assert(mand[4].0 == "chain"@);
    assert(mand[5].0 == "index"@);
    assert(mand[6].0 == "timestamp"@);
    assert(mand[7].0 == "block"@);
    assert(mand[8].0 == "amount_usd"@);
    assert(mand[9].0 == "contract_address"@);
    assert(mand[10].0 == "from"@);
    assert(mand[11].0 == "from_label"@);
    assert forall|j: int| 0 <= j < mand.len() implies mand[j].0 != "dex"@ by {
        if j == 0 {
        } else if j == 1 {
        } else if j == 2 {
        } else if j == 3 {
        } else if j == 4 {
        } else if j == 5 {
        } else if j == 6 {
        } else if j == 7 {
        } else if j == 8 {
        } else if j == 9 {
        } else if j == 10 {
        } else if j == 11 {
        } else {
        }
    }
    lemma_lookup_absent(mand, "dex"@);
    assert(spec_decode_wrap(ms) is None);
}

/// An encoded `contract_creation` record lacks `nft_address`, which the `sudo_pool` shape needs.
#[verifier::spinoff_prover]
proof fn lemma_contract_creation_not_sudo_pool(s: ContractCreationV)
    ensures
        spec_decode_sudo_pool(spec_encode_contract_creation(s)) is None,
{
    reveal_strlit("amount_usd");
    reveal_strlit("block");
    reveal_strlit("chain");
    reveal_strlit("contract_address");
    reveal_strlit("from");
    reveal_strlit("from_label");
    reveal_strlit("index");
    reveal_strlit("nft_address");
    reveal_strlit("timestamp");
    reveal_strlit("tx_hash");
    reveal_strlit("tx_type");
    reveal_strlit("wallet");
    reveal_strlit("wallet_label");
    assert("amount_usd"@.len() == 10);
    assert("block"@.len() == 5);
    assert("chain"@.len() == 5);
    assert("contract_address"@.len() == 16);
    assert("from"@.len() == 4);
    assert("from_label"@.len() == 10);
    assert("index"@.len() == 5);
    assert("nft_address"@.len() == 11);
    assert("timestamp"@.len() == 9);
    assert("tx_hash"@.len() == 7);
    assert("tx_type"@.len() == 7);
    assert("wallet"@.len() == 6);
    assert("wallet_label"@.len() == 12);
    let ms = spec_encode_contract_creation(s);
    let mand = ms;
    assert(mand.len() == 12);
    assert(mand[0].0 == "wallet"@);
    assert(mand[1].0 == "wallet_label"@);
    assert(mand[2].0 == "tx_hash"@);
    assert(mand[3].0 == "tx_type"@);
    assert(mand[4].0 == "chain"@);
    assert(mand[5].0 == "index"@);
    assert(mand[6].0 == "timestamp"@);
    assert(mand[7].0 == "block"@);
    assert(mand[8].0 == "amount_usd"@);
    assert(mand[9].0 == "contract_address"@);
    assert(mand[10].0 == "from"@);
    assert(mand[11].0 == "from_label"@);
    assert forall|j: int| 0 <= j < mand.len() implies mand[j].0 != "nft_address"@ by {
        if j == 0 {
        } else if j == 1 {
        } else if j == 2 {
        } else if j == 3 {
        } else if j == 4 {
        } else if j == 5 {
        } else if j == 6 {
        } else if j == 7 {
        } else if j == 8 {
        } else if j == 9 {
        } else if j == 10 {
        } else if j == 11 {
        } else {
        }
    }
    lemma_lookup_absent(mand, "nft_address"@);
    assert(spec_decode_sudo_pool(ms) is None);
}

/// An encoded `contract_creation` record lacks `dex`, which the `flashloan` shape needs.
#[verifier::spinoff_prover]
proof fn lemma_contract_creation_not_flashloan(s: ContractCreationV)
    ensures
        spec_decode_flashloan(spec_encode_contract_creation(s)) is None,
{
    reveal_strlit("amount_usd");
    reveal_strlit("block");
    reveal_strlit("chain");
    reveal_strlit("contract_address");
    reveal_strlit("dex");
    reveal_strlit("from");
    reveal_strlit("from_label");
    reveal_strlit("index");
    reveal_strlit("timestamp");
    reveal_strlit("tx_hash");
    reveal_strlit("tx_type");
    reveal_strlit("wallet");
    reveal_strlit("wallet_label");
    assert("amount_usd"@.len() == 10);
    assert("block"@.len() == 5);
    assert("chain"@.len() == 5);
    assert("contract_address"@.len() == 16);
    assert("dex"@.len() == 3);
    assert("from"@.len() == 4);
    assert("from_label"@.len() == 10);
    assert("index"@.len() == 5);
    assert("timestamp"@.len() == 9);
    assert("tx_hash"@.len() == 7);
    assert("tx_type"@.len() == 7);
    assert("wallet"@.len() == 6);
    assert("wallet_label"@.len() == 12);
    let ms = spec_encode_contract_creation(s);
    let mand = ms;
    assert(mand.len() == 12);
    assert(mand[0].0 == "wallet"@);
    assert(mand[1].0 == "wallet_label"@);
    assert(mand[2].0 == "tx_hash"@);
    assert(mand[3].0 == "tx_type"@);
    assert(mand[4].0 == "chain"@);
    assert(mand[5].0 == "index"@);
    assert(mand[6].0 == "timestamp"@);
    assert(mand[7].0 == "block"@);
    assert(mand[8].0 == "amount_usd"@);
    assert(mand[9].0 == "contract_address"@);
    assert(mand[10].0 == "from"@);
    assert(mand[11].0 == "from_label"@);
    assert forall|j: int| 0 <= j < mand.len() implies mand[j].0 != "dex"@ by {
        if j == 0 {
        } else if j == 1 {
        } else if j == 2 {
        } else if j == 3 {
        } else if j == 4 {
        } else if j == 5 {
        } else if j == 6 {
        } else if j == 7 {
        } else if j == 8 {
        } else if j == 9 {
        } else if j == 10 {
        } else if j == 11 {
        } else {
        }
    }
    lemma_lookup_absent(mand, "dex"@);
    assert(spec_decode_flashloan(ms) is None);
}

/// An encoded `contract_creation` record lacks `address`, which the `reward` shape needs.
#[verifier::spinoff_prover]
proof fn lemma_contract_creation_not_reward(s: ContractCreationV)
    ensures
        spec_decode_reward(spec_encode_contract_creation(s)) is None,
{
    reveal_strlit("address");
    reveal_strlit("amount_usd");
    reveal_strlit("block");
    reveal_strlit("chain");
    reveal_strlit("contract_address");
    reveal_strlit("from");
    reveal_strlit("from_label");
    reveal_strlit("index");
    reveal_strlit("timestamp");
    reveal_strlit("tx_hash");
    reveal_strlit("tx_type");
    reveal_strlit("wallet");
    reveal_strlit("wallet_label");
    assert("address"@.len() == 7);
    assert("amount_usd"@.len() == 10);
    assert("block"@.len() == 5);
    assert("chain"@.len() == 5);
    assert("contract_address"@.len() == 16);
    assert("from"@.len() == 4);
    assert("from_label"@.len() == 10);
    assert("index"@.len() == 5);
    assert("timestamp"@.len() == 9);
    assert("tx_hash"@.len() == 7);
    assert("tx_type"@.len() == 7);
    assert("wallet"@.len() == 6);
    assert("wallet_label"@.len() == 12);
    assert("address"@[0] == 'a');
    assert("tx_hash"@[0] == 't');
    assert("tx_type"@[0] == 't');
    let ms = spec_encode_contract_creation(s);
    let mand = ms;
    assert(mand.len() == 12);
    assert(mand[0].0 == "wallet"@);
    assert(mand[1].0 == "wallet_label"@);
    assert(mand[2].0 == "tx_hash"@);
    assert(mand[3].0 == "tx_type"@);
    assert(mand[4].0 == "chain"@);
    assert(mand[5].0 == "index"@);
    assert(mand[6].0 == "timestamp"@);
    assert(mand[7].0 == "block"@);
    assert(mand[8].0 == "amount_usd"@);
    assert(mand[9].0 == "contract_address"@);
    assert(mand[10].0 == "from"@);
    assert(mand[11].0 == "from_label"@);
    assert forall|j: int| 0 <= j < mand.len() implies mand[j].0 != "address"@ by {
        if j == 0 {
        } else if j == 1 {
        } else if j == 2 {
        } else if j == 3 {
        } else if j == 4 {
        } else if j == 5 {
        } else if j == 6 {
        } else if j == 7 {
        } else if j == 8 {
        } else if j == 9 {
        } else if j == 10 {
        } else if j == 11 {
        } else {
        }
    }
    lemma_lookup_absent(mand, "address"@);
    assert(spec_decode_reward(ms) is None);
}

/// An encoded `contract_creation` record lacks `to`, which the `staking` shape needs.
#[verifier::spinoff_prover]
proof fn lemma_contract_creation_not_staking(s: ContractCreationV)
    ensures
        spec_decode_staking(spec_encode_contract_creation(s)) is None,
{
    reveal_strlit("amount_usd");
    reveal_strlit("block");
    reveal_strlit("chain");
    reveal_strlit("contract_address");
    reveal_strlit("from");
    reveal_strlit("from_label");
    reveal_strlit("index");
    reveal_strlit("timestamp");
    reveal_strlit("to");
    reveal_strlit("tx_hash");
    reveal_strlit("tx_type");
    reveal_strlit("wallet");
    reveal_strlit("wallet_label");
    assert("amount_usd"@.len() == 10);
    assert("block"@.len() == 5);
    assert("chain"@.len() == 5);
    assert("contract_address"@.len() == 16);
    assert("from"@.len() == 4);
    assert("from_label"@.len() == 10);
    assert("index"@.len() == 5);
    assert("timestamp"@.len() == 9);
    assert("to"@.len() == 2);
    assert("tx_hash"@.len() == 7);
    assert("tx_type"@.len() == 7);
    assert("wallet"@.len() == 6);
    assert("wallet_label"@.len() == 12);
    let ms = spec_encode_contract_creation(s);
    let mand = ms;
    assert(mand.len() == 12);
    assert(mand[0].0 == "wallet"@);
    assert(mand[1].0 == "wallet_label"@);
    assert(mand[2].0 == "tx_hash"@);
    assert(mand[3].0 == "tx_type"@);
    assert(mand[4].0 == "chain"@);
    assert(mand[5].0 == "index"@);
    assert(mand[6].0 == "timestamp"@);
    assert(mand[7].0 == "block"@);
    assert(mand[8].0 == "amount_usd"@);
    assert(mand[9].0 == "contract_address"@);
    assert(mand[10].0 == "from"@);
    assert(mand[11].0 == "from_label"@);
    assert forall|j: int| 0 <= j < mand.len() implies mand[j].0 != "to"@ by {
        if j == 0 {
        } else if j == 1 {
        } else if j == 2 {
        } else if j == 3 {
        } else if j == 4 {
        } else if j == 5 {
        } else if j == 6 {
        } else if j == 7 {
        } else if j == 8 {
        } else if j == 9 {
        } else if j == 10 {
        } else if j == 11 {
        } else {
        }
    }
    lemma_lookup_absent(mand, "to"@);
    assert(spec_decode_staking(ms) is None);
}

/// An encoded `contract_creation` record lacks `average_price`, which the `perp` shape needs.
#[verifier::spinoff_prover]
proof fn lemma_contract_creation_not_perp(s: ContractCreationV)
    ensures
        spec_decode_perp(spec_encode_contract_creation(s)) is None,
{
    reveal_strlit("amount_usd");
    reveal_strlit("average_price");
    reveal_strlit("block");
    reveal_strlit("chain");
    reveal_strlit("contract_address");
    reveal_strlit("from");
    reveal_strlit("from_label");
    reveal_strlit("index");
    reveal_strlit("timestamp");
    reveal_strlit("tx_hash");
    reveal_strlit("tx_type");
    reveal_strlit("wallet");
    reveal_strlit("wallet_label");
    assert("amount_usd"@.len() == 10);
    assert("average_price"@.len() == 13);
    assert("block"@.len() == 5);
    assert("chain"@.len() == 5);
    assert("contract_address"@.len() == 16);
    assert("from"@.len() == 4);
    assert("from_label"@.len() == 10);
    assert("index"@.len() == 5);
    assert("timestamp"@.len() == 9);
    assert("tx_hash"@.len() == 7);
    assert("tx_type"@.len() == 7);
    assert("wallet"@.len() == 6);
    assert("wallet_label"@.len() == 12);
    let ms = spec_encode_contract_creation(s);
    let mand = ms;
    assert(mand.len() == 12);
    assert(mand[0].0 == "wallet"@);
    assert(mand[1].0 == "wallet_label"@);
    assert(mand[2].0 == "tx_hash"@);
    assert(mand[3].0 == "tx_type"@);
    assert(mand[4].0 == "chain"@);
    assert(mand[5].0 == "index"@);
    assert(mand[6].0 == "timestamp"@);
    assert(mand[7].0 == "block"@);
    assert(mand[8].0 == "amount_usd"@);
    assert(mand[9].0 == "contract_address"@);
    assert(mand[10].0 == "from"@);
    assert(mand[11].0 == "from_label"@);
    assert forall|j: int| 0 <= j < mand.len() implies mand[j].0 != "average_price"@ by {
        if j == 0 {
        } else if j == 1 {
        } else if j == 2 {
        } else if j == 3 {
        } else if j == 4 {
        } else if j == 5 {
        } else if j == 6 {
        } else if j == 7 {
        } else if j == 8 {
        } else if j == 9 {
        } else if j == 10 {
        } else if j == 11 {
        } else {
        }
    }
    lemma_lookup_absent(mand, "average_price"@);
    assert(spec_decode_perp(ms) is None);
}

/// Decoding an encoded `contract_creation` record yields it back.
#[verifier::rlimit(50)]
#[verifier::spinoff_prover]
pub proof fn lemma_contract_creation_round_trip(s: ContractCreationV)
    ensures
        spec_decode_item(spec_encode_item(ItemV::ContractCreation(s))) == Some(ItemV::ContractCreation(s)),
{
    reveal_strlit("amount_usd");
    reveal_strlit("block");
    reveal_strlit("chain");
    reveal_strlit("contract_address");
    reveal_strlit("from");
    reveal_strlit("from_label");
    reveal_strlit("index");
    reveal_strlit("timestamp");
    reveal_strlit("tx_hash");
    reveal_strlit("tx_type");
    reveal_strlit("wallet");
    reveal_strlit("wallet_label");
    assert("amount_usd"@.len() == 10);
    assert("block"@.len() == 5);
    assert("chain"@.len() == 5);
    assert("contract_address"@.len() == 16);
    assert("from"@.len() == 4);
    assert("from_label"@.len() == 10);
    assert("index"@.len() == 5);
    assert("timestamp"@.len() == 9);
    assert("tx_hash"@.len() == 7);
    assert("tx_type"@.len() == 7);
    assert("wallet"@.len() == 6);
    assert("wallet_label"@.len() == 12);
    assert("amount_usd"@[0] == 'a');
    assert("block"@[0] == 'b');
    assert("chain"@[0] == 'c');
    assert("from_label"@[0] == 'f');
    assert("index"@[0] == 'i');
    assert("tx_hash"@[3] == 'h');
    assert("tx_type"@[3] == 't');
    let ms = spec_encode_contract_creation(s);
    let mand = ms;
    assert(mand.len() == 12);
    assert(mand[0].0 == "wallet"@);
    assert(mand[1].0 == "wallet_label"@);
    assert(mand[2].0 == "tx_hash"@);
    assert(mand[3].0 == "tx_type"@);
    assert(mand[4].0 == "chain"@);
    assert(mand[5].0 == "index"@);
    assert(mand[6].0 == "timestamp"@);
    assert(mand[7].0 == "block"@);
    assert(mand[8].0 == "amount_usd"@);
    assert(mand[9].0 == "contract_address"@);
    assert(mand[10].0 == "from"@);
    assert(mand[11].0 == "from_label"@);
    lemma_lookup_first(mand, 0);
    lemma_lookup_first(mand, 1);
    lemma_lookup_first(mand, 2);
    lemma_lookup_first(mand, 3);
    lemma_lookup_first(mand, 4);
    lemma_lookup_first(mand, 5);
    lemma_lookup_first(mand, 6);
    lemma_lookup_first(mand, 7);
    lemma_lookup_first(mand, 8);
    lemma_lookup_first(mand, 9);
    lemma_lookup_first(mand, 10);
    lemma_lookup_first(mand, 11);
    lemma_contract_creation_not_swap(s);
    lemma_contract_creation_not_lp(s);
    lemma_contract_creation_not_transfer(s);
    lemma_contract_creation_not_lending(s);
    lemma_contract_creation_not_nft_mint(s);
    lemma_contract_creation_not_nft_trade(s);
    lemma_contract_creation_not_nft_transfer(s);
    lemma_contract_creation_not_nft_lending(s);
    lemma_contract_creation_not_bridge(s);
    lemma_contract_creation_not_contract_interaction(s);
    lemma_contract_creation_not_wrap(s);
    lemma_contract_creation_not_sudo_pool(s);
    lemma_contract_creation_not_flashloan(s);
    lemma_contract_creation_not_reward(s);
    lemma_contract_creation_not_staking(s);
    lemma_contract_creation_not_perp(s);
    assert(spec_decode_contract_creation(ms) == Some(ContractCreationV {
        wallet: s.wallet,
        wallet_label: s.wallet_label,
        tx_hash: s.tx_hash,
        tx_type: s.tx_type,
        chain: s.chain,
        index: s.index,
        timestamp: s.timestamp,
        block: s.block,
        amount_usd: s.amount_usd,
        contract_address: s.contract_address,
        from: s.from,
        from_label: s.from_label,
    }));
}

/// An encoded `nft_liquidation` record lacks `token0_address`, which the `swap` shape needs.
#[verifier::spinoff_prover]
proof fn lemma_nft_liquidation_not_swap(s: NftLiquidationV)
    ensures
        spec_decode_swap(spec_encode_nft_liquidation(s)) is None,
{
    reveal_strlit("block");
    reveal_strlit("chain");
    reveal_strlit("contract_address");
    reveal_strlit("currency_address");
    reveal_strlit("currency_symbol");
    reveal_strlit("dex");
    reveal_strlit("from");
    reveal_strlit("index");
    reveal_strlit("nft_address");
    reveal_strlit("nft_name");
    reveal_strlit("nft_symbol");
    reveal_strlit("platform");
    reveal_strlit("price");
    reveal_strlit("price_usd");
    reveal_strlit("timestamp");
    reveal_strlit("to");
    reveal_strlit("token0_address");
    reveal_strlit("token_id");
    reveal_strlit("tx_hash");
    reveal_strlit("tx_type");
    reveal_strlit("wallet");
    reveal_strlit("wallet_label");
    assert("block"@.len() == 5);
    assert("chain"@.len() == 5);
    assert("contract_address"@.len() == 16);
    assert("currency_address"@.len() == 16);
    assert("currency_symbol"@.len() == 15);
    assert("dex"@.len() == 3);
    assert("from"@.len() == 4);
    assert("index"@.len() == 5);
    assert("nft_address"@.len() == 11);
    assert("nft_name"@.len() == 8);
    assert("nft_symbol"@.len() == 10);
    assert("platform"@.len() == 8);
    assert("price"@.len() == 5);
    assert("price_usd"@.len() == 9);
    assert("timestamp"@.len() == 9);
    assert("to"@.len() == 2);
    assert("token0_address"@.len() == 14);
    assert("token_id"@.len() == 8);
    assert("tx_hash"@.len() == 7);
    assert("tx_type"@.len() == 7);
    assert("wallet"@.len() == 6);
    assert("wallet_label"@.len() == 12);
    let ms = spec_encode_nft_liquidation(s);
    let mand = ms;
    assert(mand.len() == 21);
    assert(mand[0].0 == "wallet"@);
    assert(mand[1].0 == "wallet_label"@);
    assert(mand[2].0 == "tx_hash"@);
    assert(mand[3].0 == "tx_type"@);
    assert(mand[4].0 == "chain"@);
    assert(mand[5].0 == "index"@);
    assert(mand[6].0 == "timestamp"@);
    assert(mand[7].0 == "block"@);
    assert(mand[8].0 == "contract_address"@);
    assert(mand[9].0 == "currency_address"@);
    assert(mand[10].0 == "currency_symbol"@);
    assert(mand[11].0 == "dex"@);
    assert(mand[12].0 == "from"@);
    assert(mand[13].0 == "nft_address"@);
    assert(mand[14].0 == "nft_name"@);
    assert(mand[15].0 == "nft_symbol"@);
    assert(mand[16].0 == "platform"@);
    assert(mand[17].0 == "price"@);
    assert(mand[18].0 == "price_usd"@);
    assert(mand[19].0 == "to"@);
    assert(mand[20].0 == "token_id"@);
    assert forall|j: int| 0 <= j < mand.len() implies mand[j].0 != "token0_address"@ by {
        if j == 0 {
        } else if j == 1 {
        } else if j == 2 {
        } else if j == 3 {
        } else if j == 4 {
        } else if j == 5 {
        } else if j == 6 {
        } else if j == 7 {
        } else if j == 8 {
        } else if j == 9 {
        } else if j == 10 {
        } else if j == 11 {
        } else if j == 12 {
        } else if j == 13 {
        } else if j == 14 {
        } else if j == 15 {
        } else if j == 16 {
        } else if j == 17 {
        } else if j == 18 {
        } else if j == 19 {
        } else if j == 20 {
        } else {
        }
    }
    lemma_lookup_absent(mand, "token0_address"@);
    assert(spec_decode_swap(ms) is None);
}

/// An encoded `nft_liquidation` record lacks `token0_address`, which the `lp` shape needs.
#[verifier::spinoff_prover]
proof fn lemma_nft_liquidation_not_lp(s: NftLiquidationV)
    ensures
        spec_decode_lp(spec_encode_nft_liquidation(s)) is None,
{
    reveal_strlit("block");
    reveal_strlit("chain");
    reveal_strlit("contract_address");
    reveal_strlit("currency_address");
    reveal_strlit("currency_symbol");
    reveal_strlit("dex");
    reveal_strlit("from");
    reveal_strlit("index");
    reveal_strlit("nft_address");
    reveal_strlit("nft_name");
    reveal_strlit("nft_symbol");
    reveal_strlit("platform");
    reveal_strlit("price");
    reveal_strlit("price_usd");
    reveal_strlit("timestamp");
    reveal_strlit("to");
    reveal_strlit("token0_address");
    reveal_strlit("token_id");
    reveal_strlit("tx_hash");
    reveal_strlit("tx_type");
    reveal_strlit("wallet");
    reveal_strlit("wallet_label");
    assert("block"@.len() == 5);
    assert("chain"@.len() == 5);
    assert("contract_address"@.len() == 16);
    assert("currency_address"@.len() == 16);
    assert("currency_symbol"@.len() == 15);
    assert("dex"@.len() == 3);
    assert("from"@.len() == 4);
    assert("index"@.len() == 5);
    assert("nft_address"@.len() == 11);
    assert("nft_name"@.len() == 8);
    assert("nft_symbol"@.len() == 10);
    assert("platform"@.len() == 8);
    assert("price"@.len() == 5);
    assert("price_usd"@.len() == 9);
    assert("timestamp"@.len() == 9);
    assert("to"@.len() == 2);
    assert("token0_address"@.len() == 14);
    assert("token_id"@.len() == 8);
    assert("tx_hash"@.len() == 7);
    assert("tx_type"@.len() == 7);
    assert("wallet"@.len() == 6);
    assert("wallet_label"@.len() == 12);
    let ms = spec_encode_nft_liquidation(s);
    let mand = ms;
    assert(mand.len() == 21);
    assert(mand[0].0 == "wallet"@);
    assert(mand[1].0 == "wallet_label"@);
    assert(mand[2].0 == "tx_hash"@);
    assert(mand[3].0 == "tx_type"@);
    assert(mand[4].0 == "chain"@);
    assert(mand[5].0 == "index"@);
    assert(mand[6].0 == "timestamp"@);
    assert(mand[7].0 == "block"@);
    assert(mand[8].0 == "contract_address"@);
    assert(mand[9].0 == "currency_address"@);
    assert(mand[10].0 == "currency_symbol"@);
    assert(mand[11].0 == "dex"@);
    assert(mand[12].0 == "from"@);
    assert(mand[13].0 == "nft_address"@);
    assert(mand[14].0 == "nft_name"@);
    assert(mand[15].0 == "nft_symbol"@);
    assert(mand[16].0 == "platform"@);
    assert(mand[17].0 == "price"@);
    assert(mand[18].0 == "price_usd"@);
    assert(mand[19].0 == "to"@);
    assert(mand[20].0 == "token_id"@);
    assert forall|j: int| 0 <= j < mand.len() implies mand[j].0 != "token0_address"@ by {
        if j == 0 {
        } else if j == 1 {
        } else if j == 2 {
        } else if j == 3 {
        } else if j == 4 {
        } else if j == 5 {
        } else if j == 6 {
        } else if j == 7 {
        } else if j == 8 {
        } else if j == 9 {
        } else if j == 10 {
        } else if j == 11 {
        } else if j == 12 {
        } else if j == 13 {
        } else if j == 14 {
        } else if j == 15 {
        } else if j == 16 {
        } else if j == 17 {
        } else if j == 18 {
        } else if j == 19 {
        } else if j == 20 {
        } else {
        }
    }
    lemma_lookup_absent(mand, "token0_address"@);
    assert(spec_decode_lp(ms) is None);
}

/// An encoded `nft_liquidation` record lacks `from_label`, which the `transfer` shape needs.
#[verifier::spinoff_prover]
proof fn lemma_nft_liquidation_not_transfer(s: NftLiquidationV)
    ensures
        spec_decode_transfer(spec_encode_nft_liquidation(s)) is None,
{
    reveal_strlit("block");
    reveal_strlit("chain");
    reveal_strlit("contract_address");
    reveal_strlit("currency_address");
    reveal_strlit("currency_symbol");
    reveal_strlit("dex");
    reveal_strlit("from");
    reveal_strlit("from_label");
    reveal_strlit("index");
    reveal_strlit("nft_address");
    reveal_strlit("nft_name");
    reveal_strlit("nft_symbol");
    reveal_strlit("platform");
    reveal_strlit("price");
    reveal_strlit("price_usd");
    reveal_strlit("timestamp");
    reveal_strlit("to");
    reveal_strlit("token_id");
    reveal_strlit("tx_hash");
    reveal_strlit("tx_type");
    reveal_strlit("wallet");
    reveal_strlit("wallet_label");
    assert("block"@.len() == 5);
    assert("chain"@.len() == 5);
    assert("contract_address"@.len() == 16);
    assert("currency_address"@.len() == 16);
    assert("currency_symbol"@.len() == 15);
    assert("dex"@.len() == 3);
    assert("from"@.len() == 4);
    assert("from_label"@.len() == 10);
    assert("index"@.len() == 5);
    assert("nft_address"@.len() == 11);
    assert("nft_name"@.len() == 8);
    assert("nft_symbol"@.len() == 10);
    assert("platform"@.len() == 8);
    assert("price"@.len() == 5);
    assert("price_usd"@.len() == 9);
    assert("timestamp"@.len() == 9);
    assert("to"@.len() == 2);
    assert("token_id"@.len() == 8);
    assert("tx_hash"@.len() == 7);
    assert("tx_type"@.len() == 7);
    assert("wallet"@.len() == 6);
    assert("wallet_label"@.len() == 12);
    assert("from_label"@[0] == 'f');
    assert("nft_symbol"@[0] == 'n');
    let ms = spec_encode_nft_liquidation(s);
    let mand = ms;
    assert(mand.len() == 21);
    assert(mand[0].0 == "wallet"@);
    assert(mand[1].0 == "wallet_label"@);
    assert(mand[2].0 == "tx_hash"@);
    assert(mand[3].0 == "tx_type"@);
    assert(mand[4].0 == "chain"@);
    assert(mand[5].0 == "index"@);
    assert(mand[6].0 == "timestamp"@);
    assert(mand[7].0 == "block"@);
    assert(mand[8].0 == "contract_address"@);
    assert(mand[9].0 == "currency_address"@);
    assert(mand[10].0 == "currency_symbol"@);
    assert(mand[11].0 == "dex"@);
    assert(mand[12].0 == "from"@);
    assert(mand[13].0 == "nft_address"@);
    assert(mand[14].0 == "nft_name"@);
    assert(mand[15].0 == "nft_symbol"@);
    assert(mand[16].0 == "platform"@);
    assert(mand[17].0 == "price"@);
    assert(mand[18].0 == "price_usd"@);
    assert(mand[19].0 == "to"@);
    assert(mand[20].0 == "token_id"@);
    assert forall|j: int| 0 <= j < mand.len() implies mand[j].0 != "from_label"@ by {
        if j == 0 {
        } else if j == 1 {
        } else if j == 2 {
        } else if j == 3 {
        } else if j == 4 {
        } else if j == 5 {
        } else if j == 6 {
        } else if j == 7 {
        } else if j == 8 {
        } else if j == 9 {
        } else if j == 10 {
        } else if j == 11 {
        } else if j == 12 {
        } else if j == 13 {
        } else if j == 14 {
        } else if j == 15 {
        } else if j == 16 {
        } else if j == 17 {
        } else if j == 18 {
        } else if j == 19 {
        } else if j == 20 {
        } else {
        }
    }
    lemma_lookup_absent(mand, "from_label"@);
    assert(spec_decode_transfer(ms) is None);
}

/// An encoded `nft_liquidation` record lacks `health_factor`, which the `lending` shape needs.
#[verifier::spinoff_prover]
proof fn lemma_nft_liquidation_not_lending(s: NftLiquidationV)
    ensures
        spec_decode_lending(spec_encode_nft_liquidation(s)) is None,
{
    reveal_strlit("block");
    reveal_strlit("chain");
    reveal_strlit("contract_address");
    reveal_strlit("currency_address");
    reveal_strlit("currency_symbol");
    reveal_strlit("dex");
    reveal_strlit("from");
    reveal_strlit("health_factor");
    reveal_strlit("index");
    reveal_strlit("nft_address");
    reveal_strlit("nft_name");
    reveal_strlit("nft_symbol");
    reveal_strlit("platform");
    reveal_strlit("price");
    reveal_strlit("price_usd");
    reveal_strlit("timestamp");
    reveal_strlit("to");
    reveal_strlit("token_id");
    reveal_strlit("tx_hash");
    reveal_strlit("tx_type");
    reveal_strlit("wallet");
    reveal_strlit("wallet_label");
    assert("block"@.len() == 5);
    assert("chain"@.len() == 5);
    assert("contract_address"@.len() == 16);
    assert("currency_address"@.len() == 16);
    assert("currency_symbol"@.len() == 15);
    assert("dex"@.len() == 3);
    assert("from"@.len() == 4);
    assert("health_factor"@.len() == 13);
    assert("index"@.len() == 5);
    assert("nft_address"@.len() == 11);
    assert("nft_name"@.len() == 8);
    assert("nft_symbol"@.len() == 10);
    assert("platform"@.len() == 8);
    assert("price"@.len() == 5);
    assert("price_usd"@.len() == 9);
    assert("timestamp"@.len() == 9);
    assert("to"@.len() == 2);
    assert("token_id"@.len() == 8);
    assert("tx_hash"@.len() == 7);
    assert("tx_type"@.len() == 7);
    assert("wallet"@.len() == 6);
    assert("wallet_label"@.len() == 12);
    let ms = spec_encode_nft_liquidation(s);
    let mand = ms;
    assert(mand.len() == 21);
    assert(mand[0].0 == "wallet"@);
    assert(mand[1].0 == "wallet_label"@);
    assert(mand[2].0 == "tx_hash"@);
    assert(mand[3].0 == "tx_type"@);
    assert(mand[4].0 == "chain"@);
    assert(mand[5].0 == "index"@);
    assert(mand[6].0 == "timestamp"@);
    assert(mand[7].0 == "block"@);
    assert(mand[8].0 == "contract_address"@);
    assert(mand[9].0 == "currency_address"@);
    assert(mand[10].0 == "currency_symbol"@);
    assert(mand[11].0 == "dex"@);
    assert(mand[12].0 == "from"@);
    assert(mand[13].0 == "nft_address"@);
    assert(mand[14].0 == "nft_name"@);
    assert(mand[15].0 == "nft_symbol"@);
    assert(mand[16].0 == "platform"@);
    assert(mand[17].0 == "price"@);
    assert(mand[18].0 == "price_usd"@);
    assert(mand[19].0 == "to"@);
    assert(mand[20].0 == "token_id"@);
    assert forall|j: int| 0 <= j < mand.len() implies mand[j].0 != "health_factor"@ by {
        if j == 0 {
        } else if j == 1 {
        } else if j == 2 {
        } else if j == 3 {
        } else if j == 4 {
        } else if j == 5 {
        } else if j == 6 {
        } else if j == 7 {
        } else if j == 8 {
        } else if j == 9 {
        } else if j == 10 {
        } else if j == 11 {
        } else if j == 12 {
        } else if j == 13 {
        } else if j == 14 {
        } else if j == 15 {
        } else if j == 16 {
        } else if j == 17 {
        } else if j == 18 {
        } else if j == 19 {
        } else if j == 20 {
        } else {
        }
    }
    lemma_lookup_absent(mand, "health_factor"@);
    assert(spec_decode_lending(ms) is None);
}

/// An encoded `nft_liquidation` record lacks `contract_type`, which the `nft_mint` shape needs.
#[verifier::spinoff_prover]
proof fn lemma_nft_liquidation_not_nft_mint(s: NftLiquidationV)
    ensures
        spec_decode_nft_mint(spec_encode_nft_liquidation(s)) is None,
{
    reveal_strlit("block");
    reveal_strlit("chain");
    reveal_strlit("contract_address");
    reveal_strlit("contract_type");
    reveal_strlit("currency_address");
    reveal_strlit("currency_symbol");
    reveal_strlit("dex");
    reveal_strlit("from");
    reveal_strlit("index");
    reveal_strlit("nft_address");
    reveal_strlit("nft_name");
    reveal_strlit("nft_symbol");
    reveal_strlit("platform");
    reveal_strlit("price");
    reveal_strlit("price_usd");
    reveal_strlit("timestamp");
    reveal_strlit("to");
    reveal_strlit("token_id");
    reveal_strlit("tx_hash");
    reveal_strlit("tx_type");
    reveal_strlit("wallet");
    reveal_strlit("wallet_label");
    assert("block"@.len() == 5);
    assert("chain"@.len() == 5);
    assert("contract_address"@.len() == 16);
    assert("contract_type"@.len() == 13);
    assert("currency_address"@.len() == 16);
    assert("currency_symbol"@.len() == 15);
    assert("dex"@.len() == 3);
    assert("from"@.len() == 4);
    assert("index"@.len() == 5);
    assert("nft_address"@.len() == 11);
    assert("nft_name"@.len() == 8);
    assert("nft_symbol"@.len() == 10);
    assert("platform"@.len() == 8);
    assert("price"@.len() == 5);
    assert("price_usd"@.len() == 9);
    assert("timestamp"@.len() == 9);
    assert("to"@.len() == 2);
    assert("token_id"@.len() == 8);
    assert("tx_hash"@.len() == 7);
    assert("tx_type"@.len() == 7);
    assert("wallet"@.len() == 6);
    assert("wallet_label"@.len() == 12);
    let ms = spec_encode_nft_liquidation(s);
    let mand = ms;
    assert(mand.len() == 21);
    assert(mand[0].0 == "wallet"@);
    assert(mand[1].0 == "wallet_label"@);
    assert(mand[2].0 == "tx_hash"@);
    assert(mand[3].0 == "tx_type"@);
    assert(mand[4].0 == "chain"@);
    assert(mand[5].0 == "index"@);
    assert(mand[6].0 == "timestamp"@);
    assert(mand[7].0 == "block"@);
    assert(mand[8].0 == "contract_address"@);
    assert(mand[9].0 == "currency_address"@);
    assert(mand[10].0 == "currency_symbol"@);
    assert(mand[11].0 == "dex"@);
    assert(mand[12].0 == "from"@);
    assert(mand[13].0 == "nft_address"@);
    assert(mand[14].0 == "nft_name"@);
    assert(mand[15].0 == "nft_symbol"@);
    assert(mand[16].0 == "platform"@);
    assert(mand[17].0 == "price"@);
    assert(mand[18].0 == "price_usd"@);
    assert(mand[19].0 == "to"@);
    assert(mand[20].0 == "token_id"@);
    assert forall|j: int| 0 <= j < mand.len() implies mand[j].0 != "contract_type"@ by {
        if j == 0 {
        } else if j == 1 {
        } else if j == 2 {
        } else if j == 3 {
        } else if j == 4 {
        } else if j == 5 {
        } else if j == 6 {
        } else if j == 7 {
        } else if j == 8 {
        } else if j == 9 {
        } else if j == 10 {
        } else if j == 11 {
        } else if j == 12 {
        } else if j == 13 {
        } else if j == 14 {
        } else if j == 15 {
        } else if j == 16 {
        } else if j == 17 {
        } else if j == 18 {
        } else if j == 19 {
        } else if j == 20 {
        } else {
        }
    }
    lemma_lookup_absent(mand, "contract_type"@);
    assert(spec_decode_nft_mint(ms) is None);
}

/// An encoded `nft_liquidation` record lacks `first_interaction`, which the `nft_trade` shape needs.
#[verifier::spinoff_prover]
proof fn lemma_nft_liquidation_not_nft_trade(s: NftLiquidationV)
    ensures
        spec_decode_nft_trade(spec_encode_nft_liquidation(s)) is None,
{
    reveal_strlit("block");
    reveal_strlit("chain");
    reveal_strlit("contract_address");
    reveal_strlit("currency_address");
    reveal_strlit("currency_symbol");
    reveal_strlit("dex");
    reveal_strlit("first_interaction");
    reveal_strlit("from");
    reveal_strlit("index");
    reveal_strlit("nft_address");
    reveal_strlit("nft_name");
    reveal_strlit("nft_symbol");
    reveal_strlit("platform");
    reveal_strlit("price");
    reveal_strlit("price_usd");
    reveal_strlit("timestamp");
    reveal_strlit("to");
    reveal_strlit("token_id");
    reveal_strlit("tx_hash");
    reveal_strlit("tx_type");
    reveal_strlit("wallet");
    reveal_strlit("wallet_label");
    assert("block"@.len() == 5);
    assert("chain"@.len() == 5);
    assert("contract_address"@.len() == 16);
    assert("currency_address"@.len() == 16);
    assert("currency_symbol"@.len() == 15);
    assert("dex"@.len() == 3);
    assert("first_interaction"@.len() == 17);
    assert("from"@.len() == 4);
    assert("index"@.len() == 5);
    assert("nft_address"@.len() == 11);
    assert("nft_name"@.len() == 8);
    assert("nft_symbol"@.len() == 10);
    assert("platform"@.len() == 8);
    assert("price"@.len() == 5);
    assert("price_usd"@.len() == 9);
    assert("timestamp"@.len() == 9);
    assert("to"@.len() == 2);
    assert("token_id"@.len() == 8);
    assert("tx_hash"@.len() == 7);
    assert("tx_type"@.len() == 7);
    assert("wallet"@.len() == 6);
    assert("wallet_label"@.len() == 12);
    let ms = spec_encode_nft_liquidation(s);
    let mand = ms;
    assert(mand.len() == 21);
    assert(mand[0].0 == "wallet"@);
    assert(mand[1].0 == "wallet_label"@);
    assert(mand[2].0 == "tx_hash"@);
    assert(mand[3].0 == "tx_type"@);
    assert(mand[4].0 == "chain"@);
    assert(mand[5].0 == "index"@);
    assert(mand[6].0 == "timestamp"@);
    assert(mand[7].0 == "block"@);
    assert(mand[8].0 == "contract_address"@);
    assert(mand[9].0 == "currency_address"@);
    assert(mand[10].0 == "currency_symbol"@);
    assert(mand[11].0 == "dex"@);
    assert(mand[12].0 == "from"@);
    assert(mand[13].0 == "nft_address"@);
    assert(mand[14].0 == "nft_name"@);
    assert(mand[15].0 == "nft_symbol"@);
    assert(mand[16].0 == "platform"@);
    assert(mand[17].0 == "price"@);
    assert(mand[18].0 == "price_usd"@);
    assert(mand[19].0 == "to"@);
    assert(mand[20].0 == "token_id"@);
    assert forall|j: int| 0 <= j < mand.len() implies mand[j].0 != "first_interaction"@ by {
        if j == 0 {
        } else if j == 1 {
        } else if j == 2 {
        } else if j == 3 {
        } else if j == 4 {
        } else if j == 5 {
        } else if j == 6 {
        } else if j == 7 {
        } else if j == 8 {
        } else if j == 9 {
        } else if j == 10 {
        } else if j == 11 {
        } else if j == 12 {
        } else if j == 13 {
        } else if j == 14 {
        } else if j == 15 {
        } else if j == 16 {
        } else if j == 17 {
        } else if j == 18 {
        } else if j == 19 {
        } else if j == 20 {
        } else {
        }
    }
    lemma_lookup_absent(mand, "first_interaction"@);
    assert(spec_decode_nft_trade(ms) is None);
}

/// An encoded `nft_liquidation` record lacks `contract_type`, which the `nft_transfer` shape needs.
#[verifier::spinoff_prover]
proof fn lemma_nft_liquidation_not_nft_transfer(s: NftLiquidationV)
    ensures
        spec_decode_nft_transfer(spec_encode_nft_liquidation(s)) is None,
{
    reveal_strlit("block");
    reveal_strlit("chain");
    reveal_strlit("contract_address");
    reveal_strlit("contract_type");
    reveal_strlit("currency_address");
    reveal_strlit("currency_symbol");
    reveal_strlit("dex");
    reveal_strlit("from");
    reveal_strlit("index");
    reveal_strlit("nft_address");
    reveal_strlit("nft_name");
    reveal_strlit("nft_symbol");
    reveal_strlit("platform");
    reveal_strlit("price");
    reveal_strlit("price_usd");
    reveal_strlit("timestamp");
    reveal_strlit("to");
    reveal_strlit("token_id");
    reveal_strlit("tx_hash");
    reveal_strlit("tx_type");
    reveal_strlit("wallet");
    reveal_strlit("wallet_label");
    assert("block"@.len() == 5);
    assert("chain"@.len() == 5);
    assert("contract_address"@.len() == 16);
    assert("contract_type"@.len() == 13);
    assert("currency_address"@.len() == 16);
    assert("currency_symbol"@.len() == 15);
    assert("dex"@.len() == 3);
    assert("from"@.len() == 4);
    assert("index"@.len() == 5);
    assert("nft_address"@.len() == 11);
    assert("nft_name"@.len() == 8);
    assert("nft_symbol"@.len() == 10);
    assert("platform"@.len() == 8);
    assert("price"@.len() == 5);
    assert("price_usd"@.len() == 9);
    assert("timestamp"@.len() == 9);
    assert("to"@.len() == 2);
    assert("token_id"@.len() == 8);
    assert("tx_hash"@.len() == 7);
    assert("tx_type"@.len() == 7);
    assert("wallet"@.len() == 6);
    assert("wallet_label"@.len() == 12);
    let ms = spec_encode_nft_liquidation(s);
    let mand = ms;
    assert(mand.len() == 21);
    assert(mand[0].0 == "wallet"@);
    assert(mand[1].0 == "wallet_label"@);
    assert(mand[2].0 == "tx_hash"@);
    assert(mand[3].0 == "tx_type"@);
    assert(mand[4].0 == "chain"@);
    assert(mand[5].0 == "index"@);
    assert(mand[6].0 == "timestamp"@);
    assert(mand[7].0 == "block"@);
    assert(mand[8].0 == "contract_address"@);
    assert(mand[9].0 == "currency_address"@);
    assert(mand[10].0 == "currency_symbol"@);
    assert(mand[11].0 == "dex"@);
    assert(mand[12].0 == "from"@);
    assert(mand[13].0 == "nft_address"@);
    assert(mand[14].0 == "nft_name"@);
    assert(mand[15].0 == "nft_symbol"@);
    assert(mand[16].0 == "platform"@);
    assert(mand[17].0 == "price"@);
    assert(mand[18].0 == "price_usd"@);
    assert(mand[19].0 == "to"@);
    assert(mand[20].0 == "token_id"@);
    assert forall|j: int| 0 <= j < mand.len() implies mand[j].0 != "contract_type"@ by {
        if j == 0 {
        } else if j == 1 {
        } else if j == 2 {
        } else if j == 3 {
        } else if j == 4 {
        } else if j == 5 {
        } else if j == 6 {
        } else if j == 7 {
        } else if j == 8 {
        } else if j == 9 {
        } else if j == 10 {
        } else if j == 11 {
        } else if j == 12 {
        } else if j == 13 {
        } else if j == 14 {
        } else if j == 15 {
        } else if j == 16 {
        } else if j == 17 {
        } else if j == 18 {
        } else if j == 19 {
        } else if j == 20 {
        } else {
        }
    }
    lemma_lookup_absent(mand, "contract_type"@);
    assert(spec_decode_nft_transfer(ms) is None);
}

/// An encoded `nft_liquidation` record lacks `from_label`, which the `nft_lending` shape needs.
#[verifier::spinoff_prover]
proof fn lemma_nft_liquidation_not_nft_lending(s: NftLiquidationV)
    ensures
        spec_decode_nft_lending(spec_encode_nft_liquidation(s)) is None,
{
    reveal_strlit("block");
    reveal_strlit("chain");
    reveal_strlit("contract_address");
    reveal_strlit("currency_address");
    reveal_strlit("currency_symbol");
    reveal_strlit("dex");
    reveal_strlit("from");
    reveal_strlit("from_label");
    reveal_strlit("index");
    reveal_strlit("nft_address");
    reveal_strlit("nft_name");
    reveal_strlit("nft_symbol");
    reveal_strlit("platform");
    reveal_strlit("price");
    reveal_strlit("price_usd");
    reveal_strlit("timestamp");
    reveal_strlit("to");
    reveal_strlit("token_id");
    reveal_strlit("tx_hash");
    reveal_strlit("tx_type");
    reveal_strlit("wallet");
    reveal_strlit("wallet_label");
    assert("block"@.len() == 5);
    assert("chain"@.len() == 5);
    assert("contract_address"@.len() == 16);
    assert("currency_address"@.len() == 16);
    assert("currency_symbol"@.len() == 15);
    assert("dex"@.len() == 3);
    assert("from"@.len() == 4);
    assert("from_label"@.len() == 10);
    assert("index"@.len() == 5);
    assert("nft_address"@.len() == 11);
    assert("nft_name"@.len() == 8);
    assert("nft_symbol"@.len() == 10);
    assert("platform"@.len() == 8);
    assert("price"@.len() == 5);
    assert("price_usd"@.len() == 9);
    assert("timestamp"@.len() == 9);
    assert("to"@.len() == 2);
    assert("token_id"@.len() == 8);
    assert("tx_hash"@.len() == 7);
    assert("tx_type"@.len() == 7);
    assert("wallet"@.len() == 6);
    assert("wallet_label"@.len() == 12);
    assert("from_label"@[0] == 'f');
    assert("nft_symbol"@[0] == 'n');
    let ms = spec_encode_nft_liquidation(s);
    let mand = ms;
    assert(mand.len() == 21);
    assert(mand[0].0 == "wallet"@);
    assert(mand[1].0 == "wallet_label"@);
    assert(mand[2].0 == "tx_hash"@);
    assert(mand[3].0 == "tx_type"@);
    assert(mand[4].0 == "chain"@);
    assert(mand[5].0 == "index"@);
    assert(mand[6].0 == "timestamp"@);
    assert(mand[7].0 == "block"@);
    assert(mand[8].0 == "contract_address"@);
    assert(mand[9].0 == "currency_address"@);
    assert(mand[10].0 == "currency_symbol"@);
    assert(mand[11].0 == "dex"@);
    assert(mand[12].0 == "from"@);
    assert(mand[13].0 == "nft_address"@);
    assert(mand[14].0 == "nft_name"@);
    assert(mand[15].0 == "nft_symbol"@);
    assert(mand[16].0 == "platform"@);
    assert(mand[17].0 == "price"@);
    assert(mand[18].0 == "price_usd"@);
    assert(mand[19].0 == "to"@);
    assert(mand[20].0 == "token_id"@);
    assert forall|j: int| 0 <= j < mand.len() implies mand[j].0 != "from_label"@ by {
        if j == 0 {
        } else if j == 1 {
        } else if j == 2 {
        } else if j == 3 {
        } else if j == 4 {
        } else if j == 5 {
        } else if j == 6 {
        } else if j == 7 {
        } else if j == 8 {
        } else if j == 9 {
        } else if j == 10 {
        } else if j == 11 {
        } else if j == 12 {
        } else if j == 13 {
        } else if j == 14 {
        } else if j == 15 {
        } else if j == 16 {
        } else if j == 17 {
        } else if j == 18 {
        } else if j == 19 {
        } else if j == 20 {
        } else {
        }
    }
    lemma_lookup_absent(mand, "from_label"@);
    assert(spec_decode_nft_lending(ms) is None);
}

/// An encoded `nft_liquidation` record lacks `token_address`, which the `bridge` shape needs.
#[verifier::spinoff_prover]
proof fn lemma_nft_liquidation_not_bridge(s: NftLiquidationV)
    ensures
        spec_decode_bridge(spec_encode_nft_liquidation(s)) is None,
{
    reveal_strlit("block");
    reveal_strlit("chain");
    reveal_strlit("contract_address");
    reveal_strlit("currency_address");
    reveal_strlit("currency_symbol");
    reveal_strlit("dex");
    reveal_strlit("from");
    reveal_strlit("index");
    reveal_strlit("nft_address");
    reveal_strlit("nft_name");
    reveal_strlit("nft_symbol");
    reveal_strlit("platform");
    reveal_strlit("price");
    reveal_strlit("price_usd");
    reveal_strlit("timestamp");
    reveal_strlit("to");
    reveal_strlit("token_address");
    reveal_strlit("token_id");
    reveal_strlit("tx_hash");
    reveal_strlit("tx_type");
    reveal_strlit("wallet");
    reveal_strlit("wallet_label");
    assert("block"@.len() == 5);
    assert("chain"@.len() == 5);
    assert("contract_address"@.len() == 16);
    assert("currency_address"@.len() == 16);
    assert("currency_symbol"@.len() == 15);
    assert("dex"@.len() == 3);
    assert("from"@.len() == 4);
    assert("index"@.len() == 5);
    assert("nft_address"@.len() == 11);
    assert("nft_name"@.len() == 8);
    assert("nft_symbol"@.len() == 10);
    assert("platform"@.len() == 8);
    assert("price"@.len() == 5);
    assert("price_usd"@.len() == 9);
    assert("timestamp"@.len() == 9);
    assert("to"@.len() == 2);
    assert("token_address"@.len() == 13);
    assert("token_id"@.len() == 8);
    assert("tx_hash"@.len() == 7);
    assert("tx_type"@.len() == 7);
    assert("wallet"@.len() == 6);
    assert("wallet_label"@.len() == 12);
    let ms = spec_encode_nft_liquidation(s);
    let mand = ms;
    assert(mand.len() == 21);
    assert(mand[0].0 == "wallet"@);
    assert(mand[1].0 == "wallet_label"@);
    assert(mand[2].0 == "tx_hash"@);
    assert(mand[3].0 == "tx_type"@);
    assert(mand[4].0 == "chain"@);
    assert(mand[5].0 == "index"@);
    assert(mand[6].0 == "timestamp"@);
    assert(mand[7].0 == "block"@);
    assert(mand[8].0 == "contract_address"@);
    assert(mand[9].0 == "currency_address"@);
    assert(mand[10].0 == "currency_symbol"@);
    assert(mand[11].0 == "dex"@);
    assert(mand[12].0 == "from"@);
    assert(mand[13].0 == "nft_address"@);
    assert(mand[14].0 == "nft_name"@);
    assert(mand[15].0 == "nft_symbol"@);
    assert(mand[16].0 == "platform"@);
    assert(mand[17].0 == "price"@);
    assert(mand[18].0 == "price_usd"@);
    assert(mand[19].0 == "to"@);
    assert(mand[20].0 == "token_id"@);
    assert forall|j: int| 0 <= j < mand.len() implies mand[j].0 != "token_address"@ by {
        if j == 0 {
        } else if j == 1 {
        } else if j == 2 {
        } else if j == 3 {
        } else if j == 4 {
        } else if j == 5 {
        } else if j == 6 {
        } else if j == 7 {
        } else if j == 8 {
        } else if j == 9 {
        } else if j == 10 {
        } else if j == 11 {
        } else if j == 12 {
        } else if j == 13 {
        } else if j == 14 {
        } else if j == 15 {
        } else if j == 16 {
        } else if j == 17 {
        } else if j == 18 {
        } else if j == 19 {
        } else if j == 20 {
        } else {
        }
    }
    lemma_lookup_absent(mand, "token_address"@);
    assert(spec_decode_bridge(ms) is None);
}

/// An encoded `nft_liquidation` record lacks `contract_label`, which the `contract_interaction` shape needs.
#[verifier::spinoff_prover]
proof fn lemma_nft_liquidation_not_contract_interaction(s: NftLiquidationV)
    ensures
        spec_decode_contract_interaction(spec_encode_nft_liquidation(s)) is None,
{
    reveal_strlit("block");
    reveal_strlit("chain");
    reveal_strlit("contract_address");
    reveal_strlit("contract_label");
    reveal_strlit("currency_address");
    reveal_strlit("currency_symbol");
    reveal_strlit("dex");
    reveal_strlit("from");
    reveal_strlit("index");
    reveal_strlit("nft_address");
    reveal_strlit("nft_name");
    reveal_strlit("nft_symbol");
    reveal_strlit("platform");
    reveal_strlit("price");
    reveal_strlit("price_usd");
    reveal_strlit("timestamp");
    reveal_strlit("to");
    reveal_strlit("token_id");
    reveal_strlit("tx_hash");
    reveal_strlit("tx_type");
    reveal_strlit("wallet");
    reveal_strlit("wallet_label");
    assert("block"@.len() == 5);
    assert("chain"@.len() == 5);
    assert("contract_address"@.len() == 16);
    assert("contract_label"@.len() == 14);
    assert("currency_address"@.len() == 16);
    assert("currency_symbol"@.len() == 15);
    assert("dex"@.len() == 3);
    assert("from"@.len() == 4);
    assert("index"@.len() == 5);
    assert("nft_address"@.len() == 11);
    assert("nft_name"@.len() == 8);
    assert("nft_symbol"@.len() == 10);
    assert("platform"@.len() == 8);
    assert("price"@.len() == 5);
    assert("price_usd"@.len() == 9);
    assert("timestamp"@.len() == 9);
    assert("to"@.len() == 2);
    assert("token_id"@.len() == 8);
    assert("tx_hash"@.len() == 7);
    assert("tx_type"@.len() == 7);
    assert("wallet"@.len() == 6);
    assert("wallet_label"@.len() == 12);
    let ms = spec_encode_nft_liquidation(s);
    let mand = ms;
    assert(mand.len() == 21);
    assert(mand[0].0 == "wallet"@);
    assert(mand[1].0 == "wallet_label"@);
    assert(mand[2].0 == "tx_hash"@);
    assert(mand[3].0 == "tx_type"@);
    assert(mand[4].0 == "chain"@);
    assert(mand[5].0 == "index"@);
    assert(mand[6].0 == "timestamp"@);
    assert(mand[7].0 == "block"@);
    assert(mand[8].0 == "contract_address"@);
    assert(mand[9].0 == "currency_address"@);
    assert(mand[10].0 == "currency_symbol"@);
    assert(mand[11].0 == "dex"@);
    assert(mand[12].0 == "from"@);
    assert(mand[13].0 == "nft_address"@);
    assert(mand[14].0 == "nft_name"@);
    assert(mand[15].0 == "nft_symbol"@);
    assert(mand[16].0 == "platform"@);
    assert(mand[17].0 == "price"@);
    assert(mand[18].0 == "price_usd"@);
    assert(mand[19].0 == "to"@);
    assert(mand[20].0 == "token_id"@);
    assert forall|j: int| 0 <= j < mand.len() implies mand[j].0 != "contract_label"@ by {
        if j == 0 {
        } else if j == 1 {
        } else if j == 2 {
        } else if j == 3 {
        } else if j == 4 {
        } else if j == 5 {
        } else if j == 6 {
        } else if j == 7 {
        } else if j == 8 {
        } else if j == 9 {
        } else if j == 10 {
        } else if j == 11 {
        } else if j == 12 {
        } else if j == 13 {
        } else if j == 14 {
        } else if j == 15 {
        } else if j == 16 {
        } else if j == 17 {
        } else if j == 18 {
        } else if j == 19 {
        } else if j == 20 {
        } else {
        }
    }
    lemma_lookup_absent(mand, "contract_label"@);
    assert(spec_decode_contract_interaction(ms) is None);
}

/// An encoded `nft_liquidation` record lacks `action`, which the `wrap` shape needs.
#[verifier::spinoff_prover]
proof fn lemma_nft_liquidation_not_wrap(s: NftLiquidationV)
    ensures
        spec_decode_wrap(spec_encode_nft_liquidation(s)) is None,
{
    reveal_strlit("action");
    reveal_strlit("block");
    reveal_strlit("chain");
    reveal_strlit("contract_address");
    reveal_strlit("currency_address");
    reveal_strlit("currency_symbol");
    reveal_strlit("dex");
    reveal_strlit("from");
    reveal_strlit("index");
    reveal_strlit("nft_address");
    reveal_strlit("nft_name");
    reveal_strlit("nft_symbol");
    reveal_strlit("platform");
    reveal_strlit("price");
    reveal_strlit("price_usd");
    reveal_strlit("timestamp");
    reveal_strlit("to");
    reveal_strlit("token_id");
    reveal_strlit("tx_hash");
    reveal_strlit("tx_type");
    reveal_strlit("wallet");
    reveal_strlit("wallet_label");
    assert("action"@.len() == 6);
    assert("block"@.len() == 5);
    assert("chain"@.len() == 5);
    assert("contract_address"@.len() == 16);
    assert("currency_address"@.len() == 16);
    assert("currency_symbol"@.len() == 15);
    assert("dex"@.len() == 3);
    assert("from"@.len() == 4);
    assert("index"@.len() == 5);
    assert("nft_address"@.len() == 11);
    assert("nft_name"@.len() == 8);
    assert("nft_symbol"@.len() == 10);
    assert("platform"@.len() == 8);
    assert("price"@.len() == 5);
    assert("price_usd"@.len() == 9);
    assert("timestamp"@.len() == 9);
    assert("to"@.len() == 2);
    assert("token_id"@.len() == 8);
    assert("tx_hash"@.len() == 7);
    assert("tx_type"@.len() == 7);
    assert("wallet"@.len() == 6);
    assert("wallet_label"@.len() == 12);
    assert("action"@[0] == 'a');
    assert("wallet"@[0] == 'w');
    let ms = spec_encode_nft_liquidation(s);
    let mand = ms;
    assert(mand.len() == 21);
    assert(mand[0].0 == "wallet"@);
    assert(mand[1].0 == "wallet_label"@);
    assert(mand[2].0 == "tx_hash"@);
    assert(mand[3].0 == "tx_type"@);
    assert(mand[4].0 == "chain"@);
    assert(mand[5].0 == "index"@);
    assert(mand[6].0 == "timestamp"@);
    assert(mand[7].0 == "block"@);
    assert(mand[8].0 == "contract_address"@);
    assert(mand[9].0 == "currency_address"@);
    assert(mand[10].0 == "currency_symbol"@);
    assert(mand[11].0 == "dex"@);
    assert(mand[12].0 == "from"@);
    assert(mand[13].0 == "nft_address"@);
    assert(mand[14].0 == "nft_name"@);
    assert(mand[15].0 == "nft_symbol"@);
    assert(mand[16].0 == "platform"@);
    assert(mand[17].0 == "price"@);
    assert(mand[18].0 == "price_usd"@);
    assert(mand[19].0 == "to"@);
    assert(mand[20].0 == "token_id"@);
    assert forall|j: int| 0 <= j < mand.len() implies mand[j].0 != "action"@ by {
        if j == 0 {
        } else if j == 1 {
        } else if j == 2 {
        } else if j == 3 {
        } else if j == 4 {
        } else if j == 5 {
        } else if j == 6 {
        } else if j == 7 {
        } else if j == 8 {
        } else if j == 9 {
        } else if j == 10 {
        } else if j == 11 {
        } else if j == 12 {
        } else if j == 13 {
        } else if j == 14 {
        } else if j == 15 {
        } else if j == 16 {
        } else if j == 17 {
        } else if j == 18 {
        } else if j == 19 {
        } else if j == 20 {
        } else {
        }
    }
    lemma_lookup_absent(mand, "action"@);
    assert(spec_decode_wrap(ms) is None);
}

/// An encoded `nft_liquidation` record lacks `token0_address`, which the `sudo_pool` shape needs.
#[verifier::spinoff_prover]
proof fn lemma_nft_liquidation_not_sudo_pool(s: NftLiquidationV)
    ensures
        spec_decode_sudo_pool(spec_encode_nft_liquidation(s)) is None,
{
    reveal_strlit("block");
    reveal_strlit("chain");
    reveal_strlit("contract_address");
    reveal_strlit("currency_address");
    reveal_strlit("currency_symbol");
    reveal_strlit("dex");
    reveal_strlit("from");
    reveal_strlit("index");
    reveal_strlit("nft_address");
    reveal_strlit("nft_name");
    reveal_strlit("nft_symbol");
    reveal_strlit("platform");
    reveal_strlit("price");
    reveal_strlit("price_usd");
    reveal_strlit("timestamp");
    reveal_strlit("to");
    reveal_strlit("token0_address");
    reveal_strlit("token_id");
    reveal_strlit("tx_hash");
    reveal_strlit("tx_type");
    reveal_strlit("wallet");
    reveal_strlit("wallet_label");
    assert("block"@.len() == 5);
    assert("chain"@.len() == 5);
    assert("contract_address"@.len() == 16);
    assert("currency_address"@.len() == 16);
    assert("currency_symbol"@.len() == 15);
    assert("dex"@.len() == 3);
    assert("from"@.len() == 4);
    assert("index"@.len() == 5);
    assert("nft_address"@.len() == 11);
    assert("nft_name"@.len() == 8);
    assert("nft_symbol"@.len() == 10);
    assert("platform"@.len() == 8);
    assert("price"@.len() == 5);
    assert("price_usd"@.len() == 9);
    assert("timestamp"@.len() == 9);
    assert("to"@.len() == 2);
    assert("token0_address"@.len() == 14);
    assert("token_id"@.len() == 8);
    assert("tx_hash"@.len() == 7);
    assert("tx_type"@.len() == 7);
    assert("wallet"@.len() == 6);
    assert("wallet_label"@.len() == 12);
    let ms = spec_encode_nft_liquidation(s);
    let mand = ms;
    assert(mand.len() == 21);
    assert(mand[0].0 == "wallet"@);
    assert(mand[1].0 == "wallet_label"@);
    assert(mand[2].0 == "tx_hash"@);
    assert(mand[3].0 == "tx_type"@);
    assert(mand[4].0 == "chain"@);
    assert(mand[5].0 == "index"@);
    assert(mand[6].0 == "timestamp"@);
    assert(mand[7].0 == "block"@);
    assert(mand[8].0 == "contract_address"@);
    assert(mand[9].0 == "currency_address"@);
    assert(mand[10].0 == "currency_symbol"@);
    assert(mand[11].0 == "dex"@);
    assert(mand[12].0 == "from"@);
    assert(mand[13].0 == "nft_address"@);
    assert(mand[14].0 == "nft_name"@);
    assert(mand[15].0 == "nft_symbol"@);
    assert(mand[16].0 == "platform"@);
    assert(mand[17].0 == "price"@);
    assert(mand[18].0 == "price_usd"@);
    assert(mand[19].0 == "to"@);
    assert(mand[20].0 == "token_id"@);
    assert forall|j: int| 0 <= j < mand.len() implies mand[j].0 != "token0_address"@ by {
        if j == 0 {
        } else if j == 1 {
        } else if j == 2 {
        } else if j == 3 {
        } else if j == 4 {
        } else if j == 5 {
        } else if j == 6 {
        } else if j == 7 {
        } else if j == 8 {
        } else if j == 9 {
        } else if j == 10 {
        } else if j == 11 {
        } else if j == 12 {
        } else if j == 13 {
        } else if j == 14 {
        } else if j == 15 {
        } else if j == 16 {
        } else if j == 17 {
        } else if j == 18 {
        } else if j == 19 {
        } else if j == 20 {
        } else {
        }
    }
    lemma_lookup_absent(mand, "token0_address"@);
    assert(spec_decode_sudo_pool(ms) is None);
}

/// An encoded `nft_liquidation` record lacks `health_factor`, which the `flashloan` shape needs.
#[verifier::spinoff_prover]
proof fn lemma_nft_liquidation_not_flashloan(s: NftLiquidationV)
    ensures
        spec_decode_flashloan(spec_encode_nft_liquidation(s)) is None,
{
    reveal_strlit("block");
    reveal_strlit("chain");
    reveal_strlit("contract_address");
    reveal_strlit("currency_address");
    reveal_strlit("currency_symbol");
    reveal_strlit("dex");
    reveal_strlit("from");
    reveal_strlit("health_factor");
    reveal_strlit("index");
    reveal_strlit("nft_address");
    reveal_strlit("nft_name");
    reveal_strlit("nft_symbol");
    reveal_strlit("platform");
    reveal_strlit("price");
    reveal_strlit("price_usd");
    reveal_strlit("timestamp");
    reveal_strlit("to");
    reveal_strlit("token_id");
    reveal_strlit("tx_hash");
    reveal_strlit("tx_type");
    reveal_strlit("wallet");
    reveal_strlit("wallet_label");
    assert("block"@.len() == 5);
    assert("chain"@.len() == 5);
    assert("contract_address"@.len() == 16);
    assert("currency_address"@.len() == 16);
    assert("currency_symbol"@.len() == 15);
    assert("dex"@.len() == 3);
    assert("from"@.len() == 4);
    assert("health_factor"@.len() == 13);
    assert("index"@.len() == 5);
    assert("nft_address"@.len() == 11);
    assert("nft_name"@.len() == 8);
    assert("nft_symbol"@.len() == 10);
    assert("platform"@.len() == 8);
    assert("price"@.len() == 5);
    assert("price_usd"@.len() == 9);
    assert("timestamp"@.len() == 9);
    assert("to"@.len() == 2);
    assert("token_id"@.len() == 8);
    assert("tx_hash"@.len() == 7);
    assert("tx_type"@.len() == 7);
    assert("wallet"@.len() == 6);
    assert("wallet_label"@.len() == 12);
    let ms = spec_encode_nft_liquidation(s);
    let mand = ms;
    assert(mand.len() == 21);
    assert(mand[0].0 == "wallet"@);
    assert(mand[1].0 == "wallet_label"@);
    assert(mand[2].0 == "tx_hash"@);
    assert(mand[3].0 == "tx_type"@);
    assert(mand[4].0 == "chain"@);
    assert(mand[5].0 == "index"@);
    assert(mand[6].0 == "timestamp"@);
    assert(mand[7].0 == "block"@);
    assert(mand[8].0 == "contract_address"@);
    assert(mand[9].0 == "currency_address"@);
    assert(mand[10].0 == "currency_symbol"@);
    assert(mand[11].0 == "dex"@);
    assert(mand[12].0 == "from"@);
    assert(mand[13].0 == "nft_address"@);
    assert(mand[14].0 == "nft_name"@);
    assert(mand[15].0 == "nft_symbol"@);
    assert(mand[16].0 == "platform"@);
    assert(mand[17].0 == "price"@);
    assert(mand[18].0 == "price_usd"@);
    assert(mand[19].0 == "to"@);
    assert(mand[20].0 == "token_id"@);
    assert forall|j: int| 0 <= j < mand.len() implies mand[j].0 != "health_factor"@ by {
        if j == 0 {
        } else if j == 1 {
        } else if j == 2 {
        } else if j == 3 {
        } else if j == 4 {
        } else if j == 5 {
        } else if j == 6 {
        } else if j == 7 {
        } else if j == 8 {
        } else if j == 9 {
        } else if j == 10 {
        } else if j == 11 {
        } else if j == 12 {
        } else if j == 13 {
        } else if j == 14 {
        } else if j == 15 {
        } else if j == 16 {
        } else if j == 17 {
        } else if j == 18 {
        } else if j == 19 {
        } else if j == 20 {
        } else {
        }
    }
    lemma_lookup_absent(mand, "health_factor"@);
    assert(spec_decode_flashloan(ms) is None);
}

/// An encoded `nft_liquidation` record lacks `address`, which the `reward` shape needs.
#[verifier::spinoff_prover]
proof fn lemma_nft_liquidation_not_reward(s: NftLiquidationV)
    ensures
        spec_decode_reward(spec_encode_nft_liquidation(s)) is None,
{
    reveal_strlit("address");
    reveal_strlit("block");
    reveal_strlit("chain");
    reveal_strlit("contract_address");
    reveal_strlit("currency_address");
    reveal_strlit("currency_symbol");
    reveal_strlit("dex");
    reveal_strlit("from");
    reveal_strlit("index");
    reveal_strlit("nft_address");
    reveal_strlit("nft_name");
    reveal_strlit("nft_symbol");
    reveal_strlit("platform");
    reveal_strlit("price");
    reveal_strlit("price_usd");
    reveal_strlit("timestamp");
    reveal_strlit("to");
    reveal_strlit("token_id");
    reveal_strlit("tx_hash");
    reveal_strlit("tx_type");
    reveal_strlit("wallet");
    reveal_strlit("wallet_label");
    assert("address"@.len() == 7);
    assert("block"@.len() == 5);
    assert("chain"@.len() == 5);
    assert("contract_address"@.len() == 16);
    assert("currency_address"@.len() == 16);
    assert("currency_symbol"@.len() == 15);
    assert("dex"@.len() == 3);
    assert("from"@.len() == 4);
    assert("index"@.len() == 5);
    assert("nft_address"@.len() == 11);
    assert("nft_name"@.len() == 8);
    assert("nft_symbol"@.len() == 10);
    assert("platform"@.len() == 8);
    assert("price"@.len() == 5);
    assert("price_usd"@.len() == 9);
    assert("timestamp"@.len() == 9);
    assert("to"@.len() == 2);
    assert("token_id"@.len() == 8);
    assert("tx_hash"@.len() == 7);
    assert("tx_type"@.len() == 7);
    assert("wallet"@.len() == 6);
    assert("wallet_label"@.len() == 12);
    assert("address"@[0] == 'a');
    assert("tx_hash"@[0] == 't');
    assert("tx_type"@[0] == 't');
    let ms = spec_encode_nft_liquidation(s);
    let mand = ms;
    assert(mand.len() == 21);
    assert(mand[0].0 == "wallet"@);
    assert(mand[1].0 == "wallet_label"@);
    assert(mand[2].0 == "tx_hash"@);
    assert(mand[3].0 == "tx_type"@);
    assert(mand[4].0 == "chain"@);
    assert(mand[5].0 == "index"@);
    assert(mand[6].0 == "timestamp"@);
    assert(mand[7].0 == "block"@);
    assert(mand[8].0 == "contract_address"@);
    assert(mand[9].0 == "currency_address"@);
    assert(mand[10].0 == "currency_symbol"@);
    assert(mand[11].0 == "dex"@);
    assert(mand[12].0 == "from"@);
    assert(mand[13].0 == "nft_address"@);
    assert(mand[14].0 == "nft_name"@);
    assert(mand[15].0 == "nft_symbol"@);
    assert(mand[16].0 == "platform"@);
    assert(mand[17].0 == "price"@);
    assert(mand[18].0 == "price_usd"@);
    assert(mand[19].0 == "to"@);
    assert(mand[20].0 == "token_id"@);
    assert forall|j: int| 0 <= j < mand.len() implies mand[j].0 != "address"@ by {
        if j == 0 {
        } else if j == 1 {
        } else if j == 2 {
        } else if j == 3 {
        } else if j == 4 {
        } else if j == 5 {
        } else if j == 6 {
        } else if j == 7 {
        } else if j == 8 {
        } else if j == 9 {
        } else if j == 10 {
        } else if j == 11 {
        } else if j == 12 {
        } else if j == 13 {
        } else if j == 14 {
        } else if j == 15 {
        } else if j == 16 {
        } else if j == 17 {
        } else if j == 18 {
        } else if j == 19 {
        } else if j == 20 {
        } else {
        }
    }
    lemma_lookup_absent(mand, "address"@);
    assert(spec_decode_reward(ms) is None);
}

/// An encoded `nft_liquidation` record lacks `from_label`, which the `staking` shape needs.
#[verifier::spinoff_prover]
proof fn lemma_nft_liquidation_not_staking(s: NftLiquidationV)
    ensures
        spec_decode_staking(spec_encode_nft_liquidation(s)) is None,
{
    reveal_strlit("block");
    reveal_strlit("chain");
    reveal_strlit("contract_address");
    reveal_strlit("currency_address");
    reveal_strlit("currency_symbol");
    reveal_strlit("dex");
    reveal_strlit("from");
    reveal_strlit("from_label");
    reveal_strlit("index");
    reveal_strlit("nft_address");
    reveal_strlit("nft_name");
    reveal_strlit("nft_symbol");
    reveal_strlit("platform");
    reveal_strlit("price");
    reveal_strlit("price_usd");
    reveal_strlit("timestamp");
    reveal_strlit("to");
    reveal_strlit("token_id");
    reveal_strlit("tx_hash");
    reveal_strlit("tx_type");
    reveal_strlit("wallet");
    reveal_strlit("wallet_label");
    assert("block"@.len() == 5);
    assert("chain"@.len() == 5);
    assert("contract_address"@.len() == 16);
    assert("currency_address"@.len() == 16);
    assert("currency_symbol"@.len() == 15);
    assert("dex"@.len() == 3);
    assert("from"@.len() == 4);
    assert("from_label"@.len() == 10);
    assert("index"@.len() == 5);
    assert("nft_address"@.len() == 11);
    assert("nft_name"@.len() == 8);
    assert("nft_symbol"@.len() == 10);
    assert("platform"@.len() == 8);
    assert("price"@.len() == 5);
    assert("price_usd"@.len() == 9);
    assert("timestamp"@.len() == 9);
    assert("to"@.len() == 2);
    assert("token_id"@.len() == 8);
    assert("tx_hash"@.len() == 7);
    assert("tx_type"@.len() == 7);
    assert("wallet"@.len() == 6);
    assert("wallet_label"@.len() == 12);
    assert("from_label"@[0] == 'f');
    assert("nft_symbol"@[0] == 'n');
    let ms = spec_encode_nft_liquidation(s);
    let mand = ms;
    assert(mand.len() == 21);
    assert(mand[0].0 == "wallet"@);
    assert(mand[1].0 == "wallet_label"@);
    assert(mand[2].0 == "tx_hash"@);
    assert(mand[3].0 == "tx_type"@);
    assert(mand[4].0 == "chain"@);
    assert(mand[5].0 == "index"@);
    assert(mand[6].0 == "timestamp"@);
    assert(mand[7].0 == "block"@);
    assert(mand[8].0 == "contract_address"@);
    assert(mand[9].0 == "currency_address"@);
    assert(mand[10].0 == "currency_symbol"@);
    assert(mand[11].0 == "dex"@);
    assert(mand[12].0 == "from"@);
    assert(mand[13].0 == "nft_address"@);
    assert(mand[14].0 == "nft_name"@);
    assert(mand[15].0 == "nft_symbol"@);
    assert(mand[16].0 == "platform"@);
    assert(mand[17].0 == "price"@);
    assert(mand[18].0 == "price_usd"@);
    assert(mand[19].0 == "to"@);
    assert(mand[20].0 == "token_id"@);
    assert forall|j: int| 0 <= j < mand.len() implies mand[j].0 != "from_label"@ by {
        if j == 0 {
        } else if j == 1 {
        } else if j == 2 {
        } else if j == 3 {
        } else if j == 4 {
        } else if j == 5 {
        } else if j == 6 {
        } else if j == 7 {
        } else if j == 8 {
        } else if j == 9 {
        } else if j == 10 {
        } else if j == 11 {
        } else if j == 12 {
        } else if j == 13 {
        } else if j == 14 {
        } else if j == 15 {
        } else if j == 16 {
        } else if j == 17 {
        } else if j == 18 {
        } else if j == 19 {
        } else if j == 20 {
        } else {
        }
    }
    lemma_lookup_absent(mand, "from_label"@);
    assert(spec_decode_staking(ms) is None);
}

/// An encoded `nft_liquidation` record lacks `average_price`, which the `perp` shape needs.
#[verifier::spinoff_prover]
proof fn lemma_nft_liquidation_not_perp(s: NftLiquidationV)
    ensures
        spec_decode_perp(spec_encode_nft_liquidation(s)) is None,
{
    reveal_strlit("average_price");
    reveal_strlit("block");
    reveal_strlit("chain");
    reveal_strlit("contract_address");
    reveal_strlit("currency_address");
    reveal_strlit("currency_symbol");
    reveal_strlit("dex");
    reveal_strlit("from");
    reveal_strlit("index");
    reveal_strlit("nft_address");
    reveal_strlit("nft_name");
    reveal_strlit("nft_symbol");
    reveal_strlit("platform");
    reveal_strlit("price");
    reveal_strlit("price_usd");
    reveal_strlit("timestamp");
    reveal_strlit("to");
    reveal_strlit("token_id");
    reveal_strlit("tx_hash");
    reveal_strlit("tx_type");
    reveal_strlit("wallet");
    reveal_strlit("wallet_label");
    assert("average_price"@.len() == 13);
    assert("block"@.len() == 5);
    assert("chain"@.len() == 5);
    assert("contract_address"@.len() == 16);
    assert("currency_address"@.len() == 16);
    assert("currency_symbol"@.len() == 15);
    assert("dex"@.len() == 3);
    assert("from"@.len() == 4);
    assert("index"@.len() == 5);
    assert("nft_address"@.len() == 11);
    assert("nft_name"@.len() == 8);
    assert("nft_symbol"@.len() == 10);
    assert("platform"@.len() == 8);
    assert("price"@.len() == 5);
    assert("price_usd"@.len() == 9);
    assert("timestamp"@.len() == 9);
    assert("to"@.len() == 2);
    assert("token_id"@.len() == 8);
    assert("tx_hash"@.len() == 7);
    assert("tx_type"@.len() == 7);
    assert("wallet"@.len() == 6);
    assert("wallet_label"@.len() == 12);
    let ms = spec_encode_nft_liquidation(s);
    let mand = ms;
    assert(mand.len() == 21);
    assert(mand[0].0 == "wallet"@);
    assert(mand[1].0 == "wallet_label"@);
    assert(mand[2].0 == "tx_hash"@);
    assert(mand[3].0 == "tx_type"@);
    assert(mand[4].0 == "chain"@);
    assert(mand[5].0 == "index"@);
    assert(mand[6].0 == "timestamp"@);
    assert(mand[7].0 == "block"@);
    assert(mand[8].0 == "contract_address"@);
    assert(mand[9].0 == "currency_address"@);
    assert(mand[10].0 == "currency_symbol"@);
    assert(mand[11].0 == "dex"@);
    assert(mand[12].0 == "from"@);
    assert(mand[13].0 == "nft_address"@);
    assert(mand[14].0 == "nft_name"@);
    assert(mand[15].0 == "nft_symbol"@);
    assert(mand[16].0 == "platform"@);
    assert(mand[17].0 == "price"@);
    assert(mand[18].0 == "price_usd"@);
    assert(mand[19].0 == "to"@);
    assert(mand[20].0 == "token_id"@);
    assert forall|j: int| 0 <= j < mand.len() implies mand[j].0 != "average_price"@ by {
        if j == 0 {
        } else if j == 1 {
        } else if j == 2 {
        } else if j == 3 {
        } else if j == 4 {
        } else if j == 5 {
        } else if j == 6 {
        } else if j == 7 {
        } else if j == 8 {
        } else if j == 9 {
        } else if j == 10 {
        } else if j == 11 {
        } else if j == 12 {
        } else if j == 13 {
        } else if j == 14 {
        } else if j == 15 {
        } else if j == 16 {
        } else if j == 17 {
        } else if j == 18 {
        } else if j == 19 {
        } else if j == 20 {
        } else {
        }
    }
    lemma_lookup_absent(mand, "average_price"@);
    assert(spec_decode_perp(ms) is None);
}

/// An encoded `nft_liquidation` record lacks `amount_usd`, which the `contract_creation` shape needs.
#[verifier::spinoff_prover]
proof fn lemma_nft_liquidation_not_contract_creation(s: NftLiquidationV)
    ensures
        spec_decode_contract_creation(spec_encode_nft_liquidation(s)) is None,
{
    reveal_strlit("amount_usd");
    reveal_strlit("block");
    reveal_strlit("chain");
    reveal_strlit("contract_address");
    reveal_strlit("currency_address");
    reveal_strlit("currency_symbol");
    reveal_strlit("dex");
    reveal_strlit("from");
    reveal_strlit("index");
    reveal_strlit("nft_address");
    reveal_strlit("nft_name");
    reveal_strlit("nft_symbol");
    reveal_strlit("platform");
    reveal_strlit("price");
    reveal_strlit("price_usd");
    reveal_strlit("timestamp");
    reveal_strlit("to");
    reveal_strlit("token_id");
    reveal_strlit("tx_hash");
    reveal_strlit("tx_type");
    reveal_strlit("wallet");
    reveal_strlit("wallet_label");
    assert("amount_usd"@.len() == 10);
    assert("block"@.len() == 5);
    assert("chain"@.len() == 5);
    assert("contract_address"@.len() == 16);
    assert("currency_address"@.len() == 16);
    assert("currency_symbol"@.len() == 15);
    assert("dex"@.len() == 3);
    assert("from"@.len() == 4);
    assert("index"@.len() == 5);
    assert("nft_address"@.len() == 11);
    assert("nft_name"@.len() == 8);
    assert("nft_symbol"@.len() == 10);
    assert("platform"@.len() == 8);
    assert("price"@.len() == 5);
    assert("price_usd"@.len() == 9);
    assert("timestamp"@.len() == 9);
    assert("to"@.len() == 2);
    assert("token_id"@.len() == 8);
    assert("tx_hash"@.len() == 7);
    assert("tx_type"@.len() == 7);
    assert("wallet"@.len() == 6);
    assert("wallet_label"@.len() == 12);
    assert("amount_usd"@[0] == 'a');
    assert("nft_symbol"@[0] == 'n');
    let ms = spec_encode_nft_liquidation(s);
    let mand = ms;
    assert(mand.len() == 21);
    assert(mand[0].0 == "wallet"@);
    assert(mand[1].0 == "wallet_label"@);
    assert(mand[2].0 == "tx_hash"@);
    assert(mand[3].0 == "tx_type"@);
    assert(mand[4].0 == "chain"@);
    assert(mand[5].0 == "index"@);
    assert(mand[6].0 == "timestamp"@);
    assert(mand[7].0 == "block"@);
    assert(mand[8].0 == "contract_address"@);
    assert(mand[9].0 == "currency_address"@);
    assert(mand[10].0 == "currency_symbol"@);
    assert(mand[11].0 == "dex"@);
    assert(mand[12].0 == "from"@);
    assert(mand[13].0 == "nft_address"@);
    assert(mand[14].0 == "nft_name"@);
    assert(mand[15].0 == "nft_symbol"@);
    assert(mand[16].0 == "platform"@);
    assert(mand[17].0 == "price"@);
    assert(mand[18].0 == "price_usd"@);
    assert(mand[19].0 == "to"@);
    assert(mand[20].0 == "token_id"@);
    assert forall|j: int| 0 <= j < mand.len() implies mand[j].0 != "amount_usd"@ by {
        if j == 0 {
        } else if j == 1 {
        } else if j == 2 {
        } else if j == 3 {
        } else if j == 4 {
        } else if j == 5 {
        } else if j == 6 {
        } else if j == 7 {
        } else if j == 8 {
        } else if j == 9 {
        } else if j == 10 {
        } else if j == 11 {
        } else if j == 12 {
        } else if j == 13 {
        } else if j == 14 {
        } else if j == 15 {
        } else if j == 16 {
        } else if j == 17 {
        } else if j == 18 {
        } else if j == 19 {
        } else if j == 20 {
        } else {
        }
    }
    lemma_lookup_absent(mand, "amount_usd"@);
    assert(spec_decode_contract_creation(ms) is None);
}

/// Decoding an encoded `nft_liquidation` record yields it back.
#[verifier::rlimit(50)]
#[verifier::spinoff_prover]
pub proof fn lemma_nft_liquidation_round_trip(s: NftLiquidationV)
    ensures
        spec_decode_item(spec_encode_item(ItemV::NftLiquidation(s))) == Some(ItemV::NftLiquidation(s)),
{
    reveal_strlit("block");
    reveal_strlit("chain");
    reveal_strlit("contract_address");
    reveal_strlit("currency_address");
    reveal_strlit("currency_symbol");
    reveal_strlit("dex");
    reveal_strlit("from");
    reveal_strlit("index");
    reveal_strlit("nft_address");
    reveal_strlit("nft_name");
    reveal_strlit("nft_symbol");
    reveal_strlit("platform");
    reveal_strlit("price");
    reveal_strlit("price_usd");
    reveal_strlit("timestamp");
    reveal_strlit("to");
    reveal_strlit("token_id");
    reveal_strlit("tx_hash");
    reveal_strlit("tx_type");
    reveal_strlit("wallet");
    reveal_strlit("wallet_label");
    assert("block"@.len() == 5);
    assert("chain"@.len() == 5);
    assert("contract_address"@.len() == 16);
    assert("currency_address"@.len() == 16);
    assert("currency_symbol"@.len() == 15);
    assert("dex"@.len() == 3);
    assert("from"@.len() == 4);
    assert("index"@.len() == 5);
    assert("nft_address"@.len() == 11);
    assert("nft_name"@.len() == 8);
    assert("nft_symbol"@.len() == 10);
    assert("platform"@.len() == 8);
    assert("price"@.len() == 5);
    assert("price_usd"@.len() == 9);
    assert("timestamp"@.len() == 9);
    assert("to"@.len() == 2);
    assert("token_id"@.len() == 8);
    assert("tx_hash"@.len() == 7);
    assert("tx_type"@.len() == 7);
    assert("wallet"@.len() == 6);
    assert("wallet_label"@.len() == 12);
    assert("block"@[0] == 'b');
    assert("chain"@[0] == 'c');
    assert("contract_address"@[1] == 'o');
    assert("currency_address"@[1] == 'u');
    assert("index"@[0] == 'i');
    assert("nft_name"@[0] == 'n');
    assert("platform"@[0] == 'p');
    assert("price"@[0] == 'p');
    assert("price_usd"@[0] == 'p');
    assert("timestamp"@[0] == 't');
    assert("token_id"@[0] == 't');
    assert("tx_hash"@[3] == 'h');
    assert("tx_type"@[3] == 't');
    let ms = spec_encode_nft_liquidation(s);
    let mand = ms;
    assert(mand.len() == 21);
    assert(mand[0].0 == "wallet"@);
    assert(mand[1].0 == "wallet_label"@);
    assert(mand[2].0 == "tx_hash"@);
    assert(mand[3].0 == "tx_type"@);
    assert(mand[4].0 == "chain"@);
    assert(mand[5].0 == "index"@);
    assert(mand[6].0 == "timestamp"@);
    assert(mand[7].0 == "block"@);
    assert(mand[8].0 == "contract_address"@);
    assert(mand[9].0 == "currency_address"@);
    assert(mand[10].0 == "currency_symbol"@);
    assert(mand[11].0 == "dex"@);
    assert(mand[12].0 == "from"@);
    assert(mand[13].0 == "nft_address"@);
    assert(mand[14].0 == "nft_name"@);
    assert(mand[15].0 == "nft_symbol"@);
    assert(mand[16].0 == "platform"@);
    assert(mand[17].0 == "price"@);
    assert(mand[18].0 == "price_usd"@);
    assert(mand[19].0 == "to"@);
    assert(mand[20].0 == "token_id"@);
    lemma_lookup_first(mand, 0);
    lemma_lookup_first(mand, 1);
    lemma_lookup_first(mand, 2);
    lemma_lookup_first(mand, 3);
    lemma_lookup_first(mand, 4);
    lemma_lookup_first(mand, 5);
    lemma_lookup_first(mand, 6);
    lemma_lookup_first(mand, 7);
    lemma_lookup_first(mand, 8);
    lemma_lookup_first(mand, 9);
    lemma_lookup_first(mand, 10);
    lemma_lookup_first(mand, 11);
    lemma_lookup_first(mand, 12);
    lemma_lookup_first(mand, 13);
    lemma_lookup_first(mand, 14);
    lemma_lookup_first(mand, 15);
    lemma_lookup_first(mand, 16);
    lemma_lookup_first(mand, 17);
    lemma_lookup_first(mand, 18);
    lemma_lookup_first(mand, 19);
    lemma_lookup_first(mand, 20);
    lemma_nft_liquidation_not_swap(s);
    lemma_nft_liquidation_not_lp(s);
    lemma_nft_liquidation_not_transfer(s);
    lemma_nft_liquidation_not_lending(s);
    lemma_nft_liquidation_not_nft_mint(s);
    lemma_nft_liquidation_not_nft_trade(s);
    lemma_nft_liquidation_not_nft_transfer(s);
    lemma_nft_liquidation_not_nft_lending(s);
    lemma_nft_liquidation_not_bridge(s);
    lemma_nft_liquidation_not_contract_interaction(s);
    lemma_nft_liquidation_not_wrap(s);
    lemma_nft_liquidation_not_sudo_pool(s);
    lemma_nft_liquidation_not_flashloan(s);
    lemma_nft_liquidation_not_reward(s);
    lemma_nft_liquidation_not_staking(s);
    lemma_nft_liquidation_not_perp(s);
    lemma_nft_liquidation_not_contract_creation(s);
    assert(spec_decode_nft_liquidation(ms) == Some(NftLiquidationV {
        wallet: s.wallet,
        wallet_label: s.wallet_label,
        tx_hash: s.tx_hash,
        tx_type: s.tx_type,
        chain: s.chain,
        index: s.index,
        timestamp: s.timestamp,
        block: s.block,
        contract_address: s.contract_address,
        currency_address: s.currency_address,
        currency_symbol: s.currency_symbol,
        dex: s.dex,
        from: s.from,
        nft_address: s.nft_address,
        nft_name: s.nft_name,
        nft_symbol: s.nft_symbol,
        platform: s.platform,
        price: s.price,
        price_usd: s.price_usd,
        to: s.to,
        token_id: s.token_id,
    }));
}

/// An encoded `option_type` record lacks `token0_amount`, which the `swap` shape needs.
#[verifier::spinoff_prover]
proof fn lemma_option_type_not_swap(s: OptionTypeV)
    ensures
        spec_decode_swap(spec_encode_option_type(s)) is None,
{
    reveal_strlit("action");
    reveal_strlit("amount");
    reveal_strlit("asset");
    reveal_strlit("block");
    reveal_strlit("chain");
    reveal_strlit("dex");
    reveal_strlit("direction");
    reveal_strlit("expiry");
    reveal_strlit("from");
    reveal_strlit("index");
    reveal_strlit("option_price_usd");
    reveal_strlit("position_status");
    reveal_strlit("spot_price_usd");
    reveal_strlit("status");
    reveal_strlit("strike_price_usd");
    reveal_strlit("timestamp");
    reveal_strlit("to");
    reveal_strlit("token0_amount");
    reveal_strlit("tx_hash");
    reveal_strlit("tx_type");
    reveal_strlit("type");
    reveal_strlit("wallet");
    reveal_strlit("wallet_label");
    assert("action"@.len() == 6);
    assert("amount"@.len() == 6);
    assert("asset"@.len() == 5);
    assert("block"@.len() == 5);
    assert("chain"@.len() == 5);
    assert("dex"@.len() == 3);
    assert("direction"@.len() == 9);
    assert("expiry"@.len() == 6);
    assert("from"@.len() == 4);
    assert("index"@.len() == 5);
    assert("option_price_usd"@.len() == 16);
    assert("position_status"@.len() == 15);
    assert("spot_price_usd"@.len() == 14);
    assert("status"@.len() == 6);
    assert("strike_price_usd"@.len() == 16);
    assert("timestamp"@.len() == 9);
    assert("to"@.len() == 2);
    assert("token0_amount"@.len() == 13);
    assert("tx_hash"@.len() == 7);
    assert("tx_type"@.len() == 7);
    assert("type"@.len() == 4);
    assert("wallet"@.len() == 6);
    assert("wallet_label"@.len() == 12);
    let ms = spec_encode_option_type(s);
    let mand = ms;
    assert(mand.len() == 22);
    assert(mand[0].0 == "wallet"@);
    assert(mand[1].0 == "wallet_label"@);
    assert(mand[2].0 == "tx_hash"@);
    assert(mand[3].0 == "tx_type"@);
    assert(mand[4].0 == "chain"@);
    assert(mand[5].0 == "index"@);
    assert(mand[6].0 == "timestamp"@);
    assert(mand[7].0 == "block"@);
    assert(mand[8].0 == "action"@);
    assert(mand[9].0 == "amount"@);
    assert(mand[10].0 == "asset"@);
    assert(mand[11].0 == "dex"@);
    assert(mand[12].0 == "direction"@);
    assert(mand[13].0 == "expiry"@);
    assert(mand[14].0 == "from"@);
    assert(mand[15].0 == "option_price_usd"@);
    assert(mand[16].0 == "position_status"@);
    assert(mand[17].0 == "spot_price_usd"@);
    assert(mand[18].0 == "status"@);
    assert(mand[19].0 == "strike_price_usd"@);
    assert(mand[20].0 == "to"@);
    assert(mand[21].0 == "type"@);
    assert forall|j: int| 0 <= j < mand.len() implies mand[j].0 != "token0_amount"@ by {
        if j == 0 {
        } else if j == 1 {
        } else if j == 2 {
        } else if j == 3 {
        } else if j == 4 {
        } else if j == 5 {
        } else if j == 6 {
        } else if j == 7 {
        } else if j == 8 {
        } else if j == 9 {
        } else if j == 10 {
        } else if j == 11 {
        } else if j == 12 {
        } else if j == 13 {
        } else if j == 14 {
        } else if j == 15 {
        } else if j == 16 {
        } else if j == 17 {
        } else if j == 18 {
        } else if j == 19 {
        } else if j == 20 {
        } else if j == 21 {
        } else {
        }
    }
    lemma_lookup_absent(mand, "token0_amount"@);
    assert(spec_decode_swap(ms) is None);
}

/// An encoded `option_type` record lacks `token0_amount`, which the `lp` shape needs.
#[verifier::spinoff_prover]
proof fn lemma_option_type_not_lp(s: OptionTypeV)
    ensures
        spec_decode_lp(spec_encode_option_type(s)) is None,
{
    reveal_strlit("action");
    reveal_strlit("amount");
    reveal_strlit("asset");
    reveal_strlit("block");
    reveal_strlit("chain");
    reveal_strlit("dex");
    reveal_strlit("direction");
    reveal_strlit("expiry");
    reveal_strlit("from");
    reveal_strlit("index");
    reveal_strlit("option_price_usd");
    reveal_strlit("position_status");
    reveal_strlit("spot_price_usd");
    reveal_strlit("status");
    reveal_strlit("strike_price_usd");
    reveal_strlit("timestamp");
    reveal_strlit("to");
    reveal_strlit("token0_amount");
    reveal_strlit("tx_hash");
    reveal_strlit("tx_type");
    reveal_strlit("type");
    reveal_strlit("wallet");
    reveal_strlit("wallet_label");
    assert("action"@.len() == 6);
    assert("amount"@.len() == 6);
    assert("asset"@.len() == 5);
    assert("block"@.len() == 5);
    assert("chain"@.len() == 5);
    assert("dex"@.len() == 3);
    assert("direction"@.len() == 9);
    assert("expiry"@.len() == 6);
    assert("from"@.len() == 4);
    assert("index"@.len() == 5);
    assert("option_price_usd"@.len() == 16);
    assert("position_status"@.len() == 15);
    assert("spot_price_usd"@.len() == 14);
    assert("status"@.len() == 6);
    assert("strike_price_usd"@.len() == 16);
    assert("timestamp"@.len() == 9);
    assert("to"@.len() == 2);
    assert("token0_amount"@.len() == 13);
    assert("tx_hash"@.len() == 7);
    assert("tx_type"@.len() == 7);
    assert("type"@.len() == 4);
    assert("wallet"@.len() == 6);
    assert("wallet_label"@.len() == 12);
    let ms = spec_encode_option_type(s);
    let mand = ms;
    assert(mand.len() == 22);
    assert(mand[0].0 == "wallet"@);
    assert(mand[1].0 == "wallet_label"@);
    assert(mand[2].0 == "tx_hash"@);
    assert(mand[3].0 == "tx_type"@);
    assert(mand[4].0 == "chain"@);
    assert(mand[5].0 == "index"@);
    assert(mand[6].0 == "timestamp"@);
    assert(mand[7].0 == "block"@);
    assert(mand[8].0 == "action"@);
    assert(mand[9].0 == "amount"@);
    assert(mand[10].0 == "asset"@);
    assert(mand[11].0 == "dex"@);
    assert(mand[12].0 == "direction"@);
    assert(mand[13].0 == "expiry"@);
    assert(mand[14].0 == "from"@);
    assert(mand[15].0 == "option_price_usd"@);
    assert(mand[16].0 == "position_status"@);
    assert(mand[17].0 == "spot_price_usd"@);
    assert(mand[18].0 == "status"@);
    assert(mand[19].0 == "strike_price_usd"@);
    assert(mand[20].0 == "to"@);
    assert(mand[21].0 == "type"@);
    assert forall|j: int| 0 <= j < mand.len() implies mand[j].0 != "token0_amount"@ by {
        if j == 0 {
        } else if j == 1 {
        } else if j == 2 {
        } else if j == 3 {
        } else if j == 4 {
        } else if j == 5 {
        } else if j == 6 {
        } else if j == 7 {
        } else if j == 8 {
        } else if j == 9 {
        } else if j == 10 {
        } else if j == 11 {
        } else if j == 12 {
        } else if j == 13 {
        } else if j == 14 {
        } else if j == 15 {
        } else if j == 16 {
        } else if j == 17 {
        } else if j == 18 {
        } else if j == 19 {
        } else if j == 20 {
        } else if j == 21 {
        } else {
        }
    }
    lemma_lookup_absent(mand, "token0_amount"@);
    assert(spec_decode_lp(ms) is None);
}

/// An encoded `option_type` record lacks `from_label`, which the `transfer` shape needs.
#[verifier::spinoff_prover]
proof fn lemma_option_type_not_transfer(s: OptionTypeV)
    ensures
        spec_decode_transfer(spec_encode_option_type(s)) is None,
{
    reveal_strlit("action");
    reveal_strlit("amount");
    reveal_strlit("asset");
    reveal_strlit("block");
    reveal_strlit("chain");
    reveal_strlit("dex");
    reveal_strlit("direction");
    reveal_strlit("expiry");
    reveal_strlit("from");
    reveal_strlit("from_label");
    reveal_strlit("index");
    reveal_strlit("option_price_usd");
    reveal_strlit("position_status");
    reveal_strlit("spot_price_usd");
    reveal_strlit("status");
    reveal_strlit("strike_price_usd");
    reveal_strlit("timestamp");
    reveal_strlit("to");
    reveal_strlit("tx_hash");
    reveal_strlit("tx_type");
    reveal_strlit("type");
    reveal_strlit("wallet");
    reveal_strlit("wallet_label");
    assert("action"@.len() == 6);
    assert("amount"@.len() == 6);
    assert("asset"@.len() == 5);
    assert("block"@.len() == 5);
    assert("chain"@.len() == 5);
    assert("dex"@.len() == 3);
    assert("direction"@.len() == 9);
    assert("expiry"@.len() == 6);
    assert("from"@.len() == 4);
    assert("from_label"@.len() == 10);
    assert("index"@.len() == 5);
    assert("option_price_usd"@.len() == 16);
    assert("position_status"@.len() == 15);
    assert("spot_price_usd"@.len() == 14);
    assert("status"@.len() == 6);
    assert("strike_price_usd"@.len() == 16);
    assert("timestamp"@.len() == 9);
    assert("to"@.len() == 2);
    assert("tx_hash"@.len() == 7);
    assert("tx_type"@.len() == 7);
    assert("type"@.len() == 4);
    assert("wallet"@.len() == 6);
    assert("wallet_label"@.len() == 12);
    let ms = spec_encode_option_type(s);
    let mand = ms;
    assert(mand.len() == 22);
    assert(mand[0].0 == "wallet"@);
    assert(mand[1].0 == "wallet_label"@);
    assert(mand[2].0 == "tx_hash"@);
    assert(mand[3].0 == "tx_type"@);
    assert(mand[4].0 == "chain"@);
    assert(mand[5].0 == "index"@);
    assert(mand[6].0 == "timestamp"@);
    assert(mand[7].0 == "block"@);
    assert(mand[8].0 == "action"@);
    assert(mand[9].0 == "amount"@);
    assert(mand[10].0 == "asset"@);
    assert(mand[11].0 == "dex"@);
    assert(mand[12].0 == "direction"@);
    assert(mand[13].0 == "expiry"@);
    assert(mand[14].0 == "from"@);
    assert(mand[15].0 == "option_price_usd"@);
    assert(mand[16].0 == "position_status"@);
    assert(mand[17].0 == "spot_price_usd"@);
    assert(mand[18].0 == "status"@);
    assert(mand[19].0 == "strike_price_usd"@);
    assert(mand[20].0 == "to"@);
    assert(mand[21].0 == "type"@);
    assert forall|j: int| 0 <= j < mand.len() implies mand[j].0 != "from_label"@ by {
        if j == 0 {
        } else if j == 1 {
        } else if j == 2 {
        } else if j == 3 {
        } else if j == 4 {
        } else if j == 5 {
        } else if j == 6 {
        } else if j == 7 {
        } else if j == 8 {
        } else if j == 9 {
        } else if j == 10 {
        } else if j == 11 {
        } else if j == 12 {
        } else if j == 13 {
        } else if j == 14 {
        } else if j == 15 {
        } else if j == 16 {
        } else if j == 17 {
        } else if j == 18 {
        } else if j == 19 {
        } else if j == 20 {
        } else if j == 21 {
        } else {
        }
    }
    lemma_lookup_absent(mand, "from_label"@);
    assert(spec_decode_transfer(ms) is None);
}

/// An encoded `option_type` record lacks `from_label`, which the `lending` shape needs.
#[verifier::spinoff_prover]
proof fn lemma_option_type_not_lending(s: OptionTypeV)
    ensures
        spec_decode_lending(spec_encode_option_type(s)) is None,
{
    reveal_strlit("action");
    reveal_strlit("amount");
    reveal_strlit("asset");
    reveal_strlit("block");
    reveal_strlit("chain");
    reveal_strlit("dex");
    reveal_strlit("direction");
    reveal_strlit("expiry");
    reveal_strlit("from");
    reveal_strlit("from_label");
    reveal_strlit("index");
    reveal_strlit("option_price_usd");
    reveal_strlit("position_status");
    reveal_strlit("spot_price_usd");
    reveal_strlit("status");
    reveal_strlit("strike_price_usd");
    reveal_strlit("timestamp");
    reveal_strlit("to");
    reveal_strlit("tx_hash");
    reveal_strlit("tx_type");
    reveal_strlit("type");
    reveal_strlit("wallet");
    reveal_strlit("wallet_label");
    assert("action"@.len() == 6);
    assert("amount"@.len() == 6);
    assert("asset"@.len() == 5);
    assert("block"@.len() == 5);
    assert("chain"@.len() == 5);
    assert("dex"@.len() == 3);
    assert("direction"@.len() == 9);
    assert("expiry"@.len() == 6);
    assert("from"@.len() == 4);
    assert("from_label"@.len() == 10);
    assert("index"@.len() == 5);
    assert("option_price_usd"@.len() == 16);
    assert("position_status"@.len() == 15);
    assert("spot_price_usd"@.len() == 14);
    assert("status"@.len() == 6);
    assert("strike_price_usd"@.len() == 16);
    assert("timestamp"@.len() == 9);
    assert("to"@.len() == 2);
    assert("tx_hash"@.len() == 7);
    assert("tx_type"@.len() == 7);
    assert("type"@.len() == 4);
    assert("wallet"@.len() == 6);
    assert("wallet_label"@.len() == 12);
    let ms = spec_encode_option_type(s);
    let mand = ms;
    assert(mand.len() == 22);
    assert(mand[0].0 == "wallet"@);
    assert(mand[1].0 == "wallet_label"@);
    assert(mand[2].0 == "tx_hash"@);
    assert(mand[3].0 == "tx_type"@);
    assert(mand[4].0 == "chain"@);
    assert(mand[5].0 == "index"@);
    assert(mand[6].0 == "timestamp"@);
    assert(mand[7].0 == "block"@);
    assert(mand[8].0 == "action"@);
    assert(mand[9].0 == "amount"@);
    assert(mand[10].0 == "asset"@);
    assert(mand[11].0 == "dex"@);
    assert(mand[12].0 == "direction"@);
    assert(mand[13].0 == "expiry"@);
    assert(mand[14].0 == "from"@);
    assert(mand[15].0 == "option_price_usd"@);
    assert(mand[16].0 == "position_status"@);
    assert(mand[17].0 == "spot_price_usd"@);
    assert(mand[18].0 == "status"@);
    assert(mand[19].0 == "strike_price_usd"@);
    assert(mand[20].0 == "to"@);
    assert(mand[21].0 == "type"@);
    assert forall|j: int| 0 <= j < mand.len() implies mand[j].0 != "from_label"@ by {
        if j == 0 {
        } else if j == 1 {
        } else if j == 2 {
        } else if j == 3 {
        } else if j == 4 {
        } else if j == 5 {
        } else if j == 6 {
        } else if j == 7 {
        } else if j == 8 {
        } else if j == 9 {
        } else if j == 10 {
        } else if j == 11 {
        } else if j == 12 {
        } else if j == 13 {
        } else if j == 14 {
        } else if j == 15 {
        } else if j == 16 {
        } else if j == 17 {
        } else if j == 18 {
        } else if j == 19 {
        } else if j == 20 {
        } else if j == 21 {
        } else {
        }
    }
    lemma_lookup_absent(mand, "from_label"@);
    assert(spec_decode_lending(ms) is None);
}

/// An encoded `option_type` record lacks `from_label`, which the `nft_mint` shape needs.
#[verifier::spinoff_prover]
proof fn lemma_option_type_not_nft_mint(s: OptionTypeV)
    ensures
        spec_decode_nft_mint(spec_encode_option_type(s)) is None,
{
    reveal_strlit("action");
    reveal_strlit("amount");
    reveal_strlit("asset");
    reveal_strlit("block");
    reveal_strlit("chain");
    reveal_strlit("dex");
    reveal_strlit("direction");
    reveal_strlit("expiry");
    reveal_strlit("from");
    reveal_strlit("from_label");
    reveal_strlit("index");
    reveal_strlit("option_price_usd");
    reveal_strlit("position_status");
    reveal_strlit("spot_price_usd");
    reveal_strlit("status");
    reveal_strlit("strike_price_usd");
    reveal_strlit("timestamp");
    reveal_strlit("to");
    reveal_strlit("tx_hash");
    reveal_strlit("tx_type");
    reveal_strlit("type");
    reveal_strlit("wallet");
    reveal_strlit("wallet_label");
    assert("action"@.len() == 6);
    assert("amount"@.len() == 6);
    assert("asset"@.len() == 5);
    assert("block"@.len() == 5);
    assert("chain"@.len() == 5);
    assert("dex"@.len() == 3);
    assert("direction"@.len() == 9);
    assert("expiry"@.len() == 6);
    assert("from"@.len() == 4);
    assert("from_label"@.len() == 10);
    assert("index"@.len() == 5);
    assert("option_price_usd"@.len() == 16);
    assert("position_status"@.len() == 15);
    assert("spot_price_usd"@.len() == 14);
    assert("status"@.len() == 6);
    assert("strike_price_usd"@.len() == 16);
    assert("timestamp"@.len() == 9);
    assert("to"@.len() == 2);
    assert("tx_hash"@.len() == 7);
    assert("tx_type"@.len() == 7);
    assert("type"@.len() == 4);
    assert("wallet"@.len() == 6);
    assert("wallet_label"@.len() == 12);
    let ms = spec_encode_option_type(s);
    let mand = ms;
    assert(mand.len() == 22);
    assert(mand[0].0 == "wallet"@);
    assert(mand[1].0 == "wallet_label"@);
    assert(mand[2].0 == "tx_hash"@);
    assert(mand[3].0 == "tx_type"@);
    assert(mand[4].0 == "chain"@);
    assert(mand[5].0 == "index"@);
    assert(mand[6].0 == "timestamp"@);
    assert(mand[7].0 == "block"@);
    assert(mand[8].0 == "action"@);
    assert(mand[9].0 == "amount"@);
    assert(mand[10].0 == "asset"@);
    assert(mand[11].0 == "dex"@);
    assert(mand[12].0 == "direction"@);
    assert(mand[13].0 == "expiry"@);
    assert(mand[14].0 == "from"@);
    assert(mand[15].0 == "option_price_usd"@);
    assert(mand[16].0 == "position_status"@);
    assert(mand[17].0 == "spot_price_usd"@);
    assert(mand[18].0 == "status"@);
    assert(mand[19].0 == "strike_price_usd"@);
    assert(mand[20].0 == "to"@);
    assert(mand[21].0 == "type"@);
    assert forall|j: int| 0 <= j < mand.len() implies mand[j].0 != "from_label"@ by {
        if j == 0 {
        } else if j == 1 {
        } else if j == 2 {
        } else if j == 3 {
        } else if j == 4 {
        } else if j == 5 {
        } else if j == 6 {
        } else if j == 7 {
        } else if j == 8 {
        } else if j == 9 {
        } else if j == 10 {
        } else if j == 11 {
        } else if j == 12 {
        } else if j == 13 {
        } else if j == 14 {
        } else if j == 15 {
        } else if j == 16 {
        } else if j == 17 {
        } else if j == 18 {
        } else if j == 19 {
        } else if j == 20 {
        } else if j == 21 {
        } else {
        }
    }
    lemma_lookup_absent(mand, "from_label"@);
    assert(spec_decode_nft_mint(ms) is None);
}

/// An encoded `option_type` record lacks `contract`, which the `nft_trade` shape needs.
#[verifier::spinoff_prover]
proof fn lemma_option_type_not_nft_trade(s: OptionTypeV)
    ensures
        spec_decode_nft_trade(spec_encode_option_type(s)) is None,
{
    reveal_strlit("action");
    reveal_strlit("amount");
    reveal_strlit("asset");
    reveal_strlit("block");
    reveal_strlit("chain");
    reveal_strlit("contract");
    reveal_strlit("dex");
    reveal_strlit("direction");
    reveal_strlit("expiry");
    reveal_strlit("from");
    reveal_strlit("index");
    reveal_strlit("option_price_usd");
    reveal_strlit("position_status");
    reveal_strlit("spot_price_usd");
    reveal_strlit("status");
    reveal_strlit("strike_price_usd");
    reveal_strlit("timestamp");
    reveal_strlit("to");
    reveal_strlit("tx_hash");
    reveal_strlit("tx_type");
    reveal_strlit("type");
    reveal_strlit("wallet");
    reveal_strlit("wallet_label");
    assert("action"@.len() == 6);
    assert("amount"@.len() == 6);
    assert("asset"@.len() == 5);
    assert("block"@.len() == 5);
    assert("chain"@.len() == 5);
    assert("contract"@.len() == 8);
    assert("dex"@.len() == 3);
    assert("direction"@.len() == 9);
    assert("expiry"@.len() == 6);
    assert("from"@.len() == 4);
    assert("index"@.len() == 5);
    assert("option_price_usd"@.len() == 16);
    assert("position_status"@.len() == 15);
    assert("spot_price_usd"@.len() == 14);
    assert("status"@.len() == 6);
    assert("strike_price_usd"@.len() == 16);
    assert("timestamp"@.len() == 9);
    assert("to"@.len() == 2);
    assert("tx_hash"@.len() == 7);
    assert("tx_type"@.len() == 7);
    assert("type"@.len() == 4);
    assert("wallet"@.len() == 6);
    assert("wallet_label"@.len() == 12);
    let ms = spec_encode_option_type(s);
    let mand = ms;
    assert(mand.len() == 22);
    assert(mand[0].0 == "wallet"@);
    assert(mand[1].0 == "wallet_label"@);
    assert(mand[2].0 == "tx_hash"@);
    assert(mand[3].0 == "tx_type"@);
    assert(mand[4].0 == "chain"@);
    assert(mand[5].0 == "index"@);
    assert(mand[6].0 == "timestamp"@);
    assert(mand[7].0 == "block"@);
    assert(mand[8].0 == "action"@);
    assert(mand[9].0 == "amount"@);
    assert(mand[10].0 == "asset"@);
    assert(mand[11].0 == "dex"@);
    assert(mand[12].0 == "direction"@);
    assert(mand[13].0 == "expiry"@);
    assert(mand[14].0 == "from"@);
    assert(mand[15].0 == "option_price_usd"@);
    assert(mand[16].0 == "position_status"@);
    assert(mand[17].0 == "spot_price_usd"@);
    assert(mand[18].0 == "status"@);
    assert(mand[19].0 == "strike_price_usd"@);
    assert(mand[20].0 == "to"@);
    assert(mand[21].0 == "type"@);
    assert forall|j: int| 0 <= j < mand.len() implies mand[j].0 != "contract"@ by {
        if j == 0 {
        } else if j == 1 {
        } else if j == 2 {
        } else if j == 3 {
        } else if j == 4 {
        } else if j == 5 {
        } else if j == 6 {
        } else if j == 7 {
        } else if j == 8 {
        } else if j == 9 {
        } else if j == 10 {
        } else if j == 11 {
        } else if j == 12 {
        } else if j == 13 {
        } else if j == 14 {
        } else if j == 15 {
        } else if j == 16 {
        } else if j == 17 {
        } else if j == 18 {
        } else if j == 19 {
        } else if j == 20 {
        } else if j == 21 {
        } else {
        }
    }
    lemma_lookup_absent(mand, "contract"@);
    assert(spec_decode_nft_trade(ms) is None);
}

/// An encoded `option_type` record lacks `from_label`, which the `nft_transfer` shape needs.
#[verifier::spinoff_prover]
proof fn lemma_option_type_not_nft_transfer(s: OptionTypeV)
    ensures
        spec_decode_nft_transfer(spec_encode_option_type(s)) is None,
{
    reveal_strlit("action");
    reveal_strlit("amount");
    reveal_strlit("asset");
    reveal_strlit("block");
    reveal_strlit("chain");
    reveal_strlit("dex");
    reveal_strlit("direction");
    reveal_strlit("expiry");
    reveal_strlit("from");
    reveal_strlit("from_label");
    reveal_strlit("index");
    reveal_strlit("option_price_usd");
    reveal_strlit("position_status");
    reveal_strlit("spot_price_usd");
    reveal_strlit("status");
    reveal_strlit("strike_price_usd");
    reveal_strlit("timestamp");
    reveal_strlit("to");
    reveal_strlit("tx_hash");
    reveal_strlit("tx_type");
    reveal_strlit("type");
    reveal_strlit("wallet");
    reveal_strlit("wallet_label");
    assert("action"@.len() == 6);
    assert("amount"@.len() == 6);
    assert("asset"@.len() == 5);
    assert("block"@.len() == 5);
    assert("chain"@.len() == 5);
    assert("dex"@.len() == 3);
    assert("direction"@.len() == 9);
    assert("expiry"@.len() == 6);
    assert("from"@.len() == 4);
    assert("from_label"@.len() == 10);
    assert("index"@.len() == 5);
    assert("option_price_usd"@.len() == 16);
    assert("position_status"@.len() == 15);
    assert("spot_price_usd"@.len() == 14);
    assert("status"@.len() == 6);
    assert("strike_price_usd"@.len() == 16);
    assert("timestamp"@.len() == 9);
    assert("to"@.len() == 2);
    assert("tx_hash"@.len() == 7);
    assert("tx_type"@.len() == 7);
    assert("type"@.len() == 4);
    assert("wallet"@.len() == 6);
    assert("wallet_label"@.len() == 12);
    let ms = spec_encode_option_type(s);
    let mand = ms;
    assert(mand.len() == 22);
    assert(mand[0].0 == "wallet"@);
    assert(mand[1].0 == "wallet_label"@);
    assert(mand[2].0 == "tx_hash"@);
    assert(mand[3].0 == "tx_type"@);
    assert(mand[4].0 == "chain"@);
    assert(mand[5].0 == "index"@);
    assert(mand[6].0 == "timestamp"@);
    assert(mand[7].0 == "block"@);
    assert(mand[8].0 == "action"@);
    assert(mand[9].0 == "amount"@);
    assert(mand[10].0 == "asset"@);
    assert(mand[11].0 == "dex"@);
    assert(mand[12].0 == "direction"@);
    assert(mand[13].0 == "expiry"@);
    assert(mand[14].0 == "from"@);
    assert(mand[15].0 == "option_price_usd"@);
    assert(mand[16].0 == "position_status"@);
    assert(mand[17].0 == "spot_price_usd"@);
    assert(mand[18].0 == "status"@);
    assert(mand[19].0 == "strike_price_usd"@);
    assert(mand[20].0 == "to"@);
    assert(mand[21].0 == "type"@);
    assert forall|j: int| 0 <= j < mand.len() implies mand[j].0 != "from_label"@ by {
        if j == 0 {
        } else if j == 1 {
        } else if j == 2 {
        } else if j == 3 {
        } else if j == 4 {
        } else if j == 5 {
        } else if j == 6 {
        } else if j == 7 {
        } else if j == 8 {
        } else if j == 9 {
        } else if j == 10 {
        } else if j == 11 {
        } else if j == 12 {
        } else if j == 13 {
        } else if j == 14 {
        } else if j == 15 {
        } else if j == 16 {
        } else if j == 17 {
        } else if j == 18 {
        } else if j == 19 {
        } else if j == 20 {
        } else if j == 21 {
        } else {
        }
    }
    lemma_lookup_absent(mand, "from_label"@);
    assert(spec_decode_nft_transfer(ms) is None);
}

/// An encoded `option_type` record lacks `from_label`, which the `nft_lending` shape needs.
#[verifier::spinoff_prover]
proof fn lemma_option_type_not_nft_lending(s: OptionTypeV)
    ensures
        spec_decode_nft_lending(spec_encode_option_type(s)) is None,
{
    reveal_strlit("action");
    reveal_strlit("amount");
    reveal_strlit("asset");
    reveal_strlit("block");
    reveal_strlit("chain");
    reveal_strlit("dex");
    reveal_strlit("direction");
    reveal_strlit("expiry");
    reveal_strlit("from");
    reveal_strlit("from_label");
    reveal_strlit("index");
    reveal_strlit("option_price_usd");
    reveal_strlit("position_status");
    reveal_strlit("spot_price_usd");
    reveal_strlit("status");
    reveal_strlit("strike_price_usd");
    reveal_strlit("timestamp");
    reveal_strlit("to");
    reveal_strlit("tx_hash");
    reveal_strlit("tx_type");
    reveal_strlit("type");
    reveal_strlit("wallet");
    reveal_strlit("wallet_label");
    assert("action"@.len() == 6);
    assert("amount"@.len() == 6);
    assert("asset"@.len() == 5);
    assert("block"@.len() == 5);
    assert("chain"@.len() == 5);
    assert("dex"@.len() == 3);
    assert("direction"@.len() == 9);
    assert("expiry"@.len() == 6);
    assert("from"@.len() == 4);
    assert("from_label"@.len() == 10);
    assert("index"@.len() == 5);
    assert("option_price_usd"@.len() == 16);
    assert("position_status"@.len() == 15);
    assert("spot_price_usd"@.len() == 14);
    assert("status"@.len() == 6);
    assert("strike_price_usd"@.len() == 16);
    assert("timestamp"@.len() == 9);
    assert("to"@.len() == 2);
    assert("tx_hash"@.len() == 7);
    assert("tx_type"@.len() == 7);
    assert("type"@.len() == 4);
    assert("wallet"@.len() == 6);
    assert("wallet_label"@.len() == 12);
    let ms = spec_encode_option_type(s);
    let mand = ms;
    assert(mand.len() == 22);
    assert(mand[0].0 == "wallet"@);
    assert(mand[1].0 == "wallet_label"@);
    assert(mand[2].0 == "tx_hash"@);
    assert(mand[3].0 == "tx_type"@);
    assert(mand[4].0 == "chain"@);
    assert(mand[5].0 == "index"@);
    assert(mand[6].0 == "timestamp"@);
    assert(mand[7].0 == "block"@);
    assert(mand[8].0 == "action"@);
    assert(mand[9].0 == "amount"@);
    assert(mand[10].0 == "asset"@);
    assert(mand[11].0 == "dex"@);
    assert(mand[12].0 == "direction"@);
    assert(mand[13].0 == "expiry"@);
    assert(mand[14].0 == "from"@);
    assert(mand[15].0 == "option_price_usd"@);
    assert(mand[16].0 == "position_status"@);
    assert(mand[17].0 == "spot_price_usd"@);
    assert(mand[18].0 == "status"@);
    assert(mand[19].0 == "strike_price_usd"@);
    assert(mand[20].0 == "to"@);
    assert(mand[21].0 == "type"@);
    assert forall|j: int| 0 <= j < mand.len() implies mand[j].0 != "from_label"@ by {
        if j == 0 {
        } else if j == 1 {
        } else if j == 2 {
        } else if j == 3 {
        } else if j == 4 {
        } else if j == 5 {
        } else if j == 6 {
        } else if j == 7 {
        } else if j == 8 {
        } else if j == 9 {
        } else if j == 10 {
        } else if j == 11 {
        } else if j == 12 {
        } else if j == 13 {
        } else if j == 14 {
        } else if j == 15 {
        } else if j == 16 {
        } else if j == 17 {
        } else if j == 18 {
        } else if j == 19 {
        } else if j == 20 {
        } else if j == 21 {
        } else {
        }
    }
    lemma_lookup_absent(mand, "from_label"@);
    assert(spec_decode_nft_lending(ms) is None);
}

/// An encoded `option_type` record lacks `from_label`, which the `bridge` shape needs.
#[verifier::spinoff_prover]
proof fn lemma_option_type_not_bridge(s: OptionTypeV)
    ensures
        spec_decode_bridge(spec_encode_option_type(s)) is None,
{
    reveal_strlit("action");
    reveal_strlit("amount");
    reveal_strlit("asset");
    reveal_strlit("block");
    reveal_strlit("chain");
    reveal_strlit("dex");
    reveal_strlit("direction");
    reveal_strlit("expiry");
    reveal_strlit("from");
    reveal_strlit("from_label");
    reveal_strlit("index");
    reveal_strlit("option_price_usd");
    reveal_strlit("position_status");
    reveal_strlit("spot_price_usd");
    reveal_strlit("status");
    reveal_strlit("strike_price_usd");
    reveal_strlit("timestamp");
    reveal_strlit("to");
    reveal_strlit("tx_hash");
    reveal_strlit("tx_type");
    reveal_strlit("type");
    reveal_strlit("wallet");
    reveal_strlit("wallet_label");
    assert("action"@.len() == 6);
    assert("amount"@.len() == 6);
    assert("asset"@.len() == 5);
    assert("block"@.len() == 5);
    assert("chain"@.len() == 5);
    assert("dex"@.len() == 3);
    assert("direction"@.len() == 9);
    assert("expiry"@.len() == 6);
    assert("from"@.len() == 4);
    assert("from_label"@.len() == 10);
    assert("index"@.len() == 5);
    assert("option_price_usd"@.len() == 16);
    assert("position_status"@.len() == 15);
    assert("spot_price_usd"@.len() == 14);
    assert("status"@.len() == 6);
    assert("strike_price_usd"@.len() == 16);
    assert("timestamp"@.len() == 9);
    assert("to"@.len() == 2);
    assert("tx_hash"@.len() == 7);
    assert("tx_type"@.len() == 7);
    assert("type"@.len() == 4);
    assert("wallet"@.len() == 6);
    assert("wallet_label"@.len() == 12);
    let ms = spec_encode_option_type(s);
    let mand = ms;
    assert(mand.len() == 22);
    assert(mand[0].0 == "wallet"@);
    assert(mand[1].0 == "wallet_label"@);
    assert(mand[2].0 == "tx_hash"@);
    assert(mand[3].0 == "tx_type"@);
    assert(mand[4].0 == "chain"@);
    assert(mand[5].0 == "index"@);
    assert(mand[6].0 == "timestamp"@);
    assert(mand[7].0 == "block"@);
    assert(mand[8].0 == "action"@);
    assert(mand[9].0 == "amount"@);
    assert(mand[10].0 == "asset"@);
    assert(mand[11].0 == "dex"@);
    assert(mand[12].0 == "direction"@);
    assert(mand[13].0 == "expiry"@);
    assert(mand[14].0 == "from"@);
    assert(mand[15].0 == "option_price_usd"@);
    assert(mand[16].0 == "position_status"@);
    assert(mand[17].0 == "spot_price_usd"@);
    assert(mand[18].0 == "status"@);
    assert(mand[19].0 == "strike_price_usd"@);
    assert(mand[20].0 == "to"@);
    assert(mand[21].0 == "type"@);
    assert forall|j: int| 0 <= j < mand.len() implies mand[j].0 != "from_label"@ by {
        if j == 0 {
        } else if j == 1 {
        } else if j == 2 {
        } else if j == 3 {
        } else if j == 4 {
        } else if j == 5 {
        } else if j == 6 {
        } else if j == 7 {
        } else if j == 8 {
        } else if j == 9 {
        } else if j == 10 {
        } else if j == 11 {
        } else if j == 12 {
        } else if j == 13 {
        } else if j == 14 {
        } else if j == 15 {
        } else if j == 16 {
        } else if j == 17 {
        } else if j == 18 {
        } else if j == 19 {
        } else if j == 20 {
        } else if j == 21 {
        } else {
        }
    }
    lemma_lookup_absent(mand, "from_label"@);
    assert(spec_decode_bridge(ms) is None);
}

/// An encoded `option_type` record lacks `contract_address`, which the `contract_interaction` shape needs.
#[verifier::spinoff_prover]
proof fn lemma_option_type_not_contract_interaction(s: OptionTypeV)
    ensures
        spec_decode_contract_interaction(spec_encode_option_type(s)) is None,
{
    reveal_strlit("action");
    reveal_strlit("amount");
    reveal_strlit("asset");
    reveal_strlit("block");
    reveal_strlit("chain");
    reveal_strlit("contract_address");
    reveal_strlit("dex");
    reveal_strlit("direction");
    reveal_strlit("expiry");
    reveal_strlit("from");
    reveal_strlit("index");
    reveal_strlit("option_price_usd");
    reveal_strlit("position_status");
    reveal_strlit("spot_price_usd");
    reveal_strlit("status");
    reveal_strlit("strike_price_usd");
    reveal_strlit("timestamp");
    reveal_strlit("to");
    reveal_strlit("tx_hash");
    reveal_strlit("tx_type");
    reveal_strlit("type");
    reveal_strlit("wallet");
    reveal_strlit("wallet_label");
    assert("action"@.len() == 6);
    assert("amount"@.len() == 6);
    assert("asset"@.len() == 5);
    assert("block"@.len() == 5);
    assert("chain"@.len() == 5);
    assert("contract_address"@.len() == 16);
    assert("dex"@.len() == 3);
    assert("direction"@.len() == 9);
    assert("expiry"@.len() == 6);
    assert("from"@.len() == 4);
    assert("index"@.len() == 5);
    assert("option_price_usd"@.len() == 16);
    assert("position_status"@.len() == 15);
    assert("spot_price_usd"@.len() == 14);
    assert("status"@.len() == 6);
    assert("strike_price_usd"@.len() == 16);
    assert("timestamp"@.len() == 9);
    assert("to"@.len() == 2);
    assert("tx_hash"@.len() == 7);
    assert("tx_type"@.len() == 7);
    assert("type"@.len() == 4);
    assert("wallet"@.len() == 6);
    assert("wallet_label"@.len() == 12);
    assert("contract_address"@[0] == 'c');
    assert("option_price_usd"@[0] == 'o');
    assert("strike_price_usd"@[0] == 's');
    let ms = spec_encode_option_type(s);
    let mand = ms;
    assert(mand.len() == 22);
    assert(mand[0].0 == "wallet"@);
    assert(mand[1].0 == "wallet_label"@);
    assert(mand[2].0 == "tx_hash"@);
    assert(mand[3].0 == "tx_type"@);
    assert(mand[4].0 == "chain"@);
    assert(mand[5].0 == "index"@);
    assert(mand[6].0 == "timestamp"@);
    assert(mand[7].0 == "block"@);
    assert(mand[8].0 == "action"@);
    assert(mand[9].0 == "amount"@);
    assert(mand[10].0 == "asset"@);
    assert(mand[11].0 == "dex"@);
    assert(mand[12].0 == "direction"@);
    assert(mand[13].0 == "expiry"@);
    assert(mand[14].0 == "from"@);
    assert(mand[15].0 == "option_price_usd"@);
    assert(mand[16].0 == "position_status"@);
    assert(mand[17].0 == "spot_price_usd"@);
    assert(mand[18].0 == "status"@);
    assert(mand[19].0 == "strike_price_usd"@);
    assert(mand[20].0 == "to"@);
    assert(mand[21].0 == "type"@);
    assert forall|j: int| 0 <= j < mand.len() implies mand[j].0 != "contract_address"@ by {
        if j == 0 {
        } else if j == 1 {
        } else if j == 2 {
        } else if j == 3 {
        } else if j == 4 {
        } else if j == 5 {
        } else if j == 6 {
        } else if j == 7 {
        } else if j == 8 {
        } else if j == 9 {
        } else if j == 10 {
        } else if j == 11 {
        } else if j == 12 {
        } else if j == 13 {
        } else if j == 14 {
        } else if j == 15 {
        } else if j == 16 {
        } else if j == 17 {
        } else if j == 18 {
        } else if j == 19 {
        } else if j == 20 {
        } else if j == 21 {
        } else {
        }
    }
    lemma_lookup_absent(mand, "contract_address"@);
    assert(spec_decode_contract_interaction(ms) is None);
}

/// An encoded `option_type` record lacks `amount_usd`, which the `wrap` shape needs.
#[verifier::spinoff_prover]
proof fn lemma_option_type_not_wrap(s: OptionTypeV)
    ensures
        spec_decode_wrap(spec_encode_option_type(s)) is None,
{
    reveal_strlit("action");
    reveal_strlit("amount");
    reveal_strlit("amount_usd");
    reveal_strlit("asset");
    reveal_strlit("block");
    reveal_strlit("chain");
    reveal_strlit("dex");
    reveal_strlit("direction");
    reveal_strlit("expiry");
    reveal_strlit("from");
    reveal_strlit("index");
    reveal_strlit("option_price_usd");
    reveal_strlit("position_status");
    reveal_strlit("spot_price_usd");
    reveal_strlit("status");
    reveal_strlit("strike_price_usd");
    reveal_strlit("timestamp");
    reveal_strlit("to");
    reveal_strlit("tx_hash");
    reveal_strlit("tx_type");
    reveal_strlit("type");
    reveal_strlit("wallet");
    reveal_strlit("wallet_label");
    assert("action"@.len() == 6);
    assert("amount"@.len() == 6);
    assert("amount_usd"@.len() == 10);
    assert("asset"@.len() == 5);
    assert("block"@.len() == 5);
    assert("chain"@.len() == 5);
    assert("dex"@.len() == 3);
    assert("direction"@.len() == 9);
    assert("expiry"@.len() == 6);
    assert("from"@.len() == 4);
    assert("index"@.len() == 5);
    assert("option_price_usd"@.len() == 16);
    assert("position_status"@.len() == 15);
    assert("spot_price_usd"@.len() == 14);
    assert("status"@.len() == 6);
    assert("strike_price_usd"@.len() == 16);
    assert("timestamp"@.len() == 9);
    assert("to"@.len() == 2);
    assert("tx_hash"@.len() == 7);
    assert("tx_type"@.len() == 7);
    assert("type"@.len() == 4);
    assert("wallet"@.len() == 6);
    assert("wallet_label"@.len() == 12);
    let ms = spec_encode_option_type(s);
    let mand = ms;
    assert(mand.len() == 22);
    assert(mand[0].0 == "wallet"@);
    assert(mand[1].0 == "wallet_label"@);
    assert(mand[2].0 == "tx_hash"@);
    assert(mand[3].0 == "tx_type"@);
    assert(mand[4].0 == "chain"@);
    assert(mand[5].0 == "index"@);
    assert(mand[6].0 == "timestamp"@);
    assert(mand[7].0 == "block"@);
    assert(mand[8].0 == "action"@);
    assert(mand[9].0 == "amount"@);
    assert(mand[10].0 == "asset"@);
    assert(mand[11].0 == "dex"@);
    assert(mand[12].0 == "direction"@);
    assert(mand[13].0 == "expiry"@);
    assert(mand[14].0 == "from"@);
    assert(mand[15].0 == "option_price_usd"@);
    assert(mand[16].0 == "position_status"@);
    assert(mand[17].0 == "spot_price_usd"@);
    assert(mand[18].0 == "status"@);
    assert(mand[19].0 == "strike_price_usd"@);
    assert(mand[20].0 == "to"@);
    assert(mand[21].0 == "type"@);
    assert forall|j: int| 0 <= j < mand.len() implies mand[j].0 != "amount_usd"@ by {
        if j == 0 {
        } else if j == 1 {
        } else if j == 2 {
        } else if j == 3 {
        } else if j == 4 {
        } else if j == 5 {
        } else if j == 6 {
        } else if j == 7 {
        } else if j == 8 {
        } else if j == 9 {
        } else if j == 10 {
        } else if j == 11 {
        } else if j == 12 {
        } else if j == 13 {
        } else if j == 14 {
        } else if j == 15 {
        } else if j == 16 {
        } else if j == 17 {
        } else if j == 18 {
        } else if j == 19 {
        } else if j == 20 {
        } else if j == 21 {
        } else {
        }
    }
    lemma_lookup_absent(mand, "amount_usd"@);
    assert(spec_decode_wrap(ms) is None);
}

/// An encoded `option_type` record lacks `nft_address`, which the `sudo_pool` shape needs.
#[verifier::spinoff_prover]
proof fn lemma_option_type_not_sudo_pool(s: OptionTypeV)
    ensures
        spec_decode_sudo_pool(spec_encode_option_type(s)) is None,
{
    reveal_strlit("action");
    reveal_strlit("amount");
    reveal_strlit("asset");
    reveal_strlit("block");
    reveal_strlit("chain");
    reveal_strlit("dex");
    reveal_strlit("direction");
    reveal_strlit("expiry");
    reveal_strlit("from");
    reveal_strlit("index");
    reveal_strlit("nft_address");
    reveal_strlit("option_price_usd");
    reveal_strlit("position_status");
    reveal_strlit("spot_price_usd");
    reveal_strlit("status");
    reveal_strlit("strike_price_usd");
    reveal_strlit("timestamp");
    reveal_strlit("to");
    reveal_strlit("tx_hash");
    reveal_strlit("tx_type");
    reveal_strlit("type");
    reveal_strlit("wallet");
    reveal_strlit("wallet_label");
    assert("action"@.len() == 6);
    assert("amount"@.len() == 6);
    assert("asset"@.len() == 5);
    assert("block"@.len() == 5);
    assert("chain"@.len() == 5);
    assert("dex"@.len() == 3);
    assert("direction"@.len() == 9);
    assert("expiry"@.len() == 6);
    assert("from"@.len() == 4);
    assert("index"@.len() == 5);
    assert("nft_address"@.len() == 11);
    assert("option_price_usd"@.len() == 16);
    assert("position_status"@.len() == 15);
    assert("spot_price_usd"@.len() == 14);
    assert("status"@.len() == 6);
    assert("strike_price_usd"@.len() == 16);
    assert("timestamp"@.len() == 9);
    assert("to"@.len() == 2);
    assert("tx_hash"@.len() == 7);
    assert("tx_type"@.len() == 7);
    assert("type"@.len() == 4);
    assert("wallet"@.len() == 6);
    assert("wallet_label"@.len() == 12);
    let ms = spec_encode_option_type(s);
    let mand = ms;
    assert(mand.len() == 22);
    assert(mand[0].0 == "wallet"@);
    assert(mand[1].0 == "wallet_label"@);
    assert(mand[2].0 == "tx_hash"@);
    assert(mand[3].0 == "tx_type"@);
    assert(mand[4].0 == "chain"@);
    assert(mand[5].0 == "index"@);
    assert(mand[6].0 == "timestamp"@);
    assert(mand[7].0 == "block"@);
    assert(mand[8].0 == "action"@);
    assert(mand[9].0 == "amount"@);
    assert(mand[10].0 == "asset"@);
    assert(mand[11].0 == "dex"@);
    assert(mand[12].0 == "direction"@);
    assert(mand[13].0 == "expiry"@);
    assert(mand[14].0 == "from"@);
    assert(mand[15].0 == "option_price_usd"@);
    assert(mand[16].0 == "position_status"@);
    assert(mand[17].0 == "spot_price_usd"@);
    assert(mand[18].0 == "status"@);
    assert(mand[19].0 == "strike_price_usd"@);
    assert(mand[20].0 == "to"@);
    assert(mand[21].0 == "type"@);
    assert forall|j: int| 0 <= j < mand.len() implies mand[j].0 != "nft_address"@ by {
        if j == 0 {
        } else if j == 1 {
        } else if j == 2 {
        } else if j == 3 {
        } else if j == 4 {
        } else if j == 5 {
        } else if j == 6 {
        } else if j == 7 {
        } else if j == 8 {
        } else if j == 9 {
        } else if j == 10 {
        } else if j == 11 {
        } else if j == 12 {
        } else if j == 13 {
        } else if j == 14 {
        } else if j == 15 {
        } else if j == 16 {
        } else if j == 17 {
        } else if j == 18 {
        } else if j == 19 {
        } else if j == 20 {
        } else if j == 21 {
        } else {
        }
    }
    lemma_lookup_absent(mand, "nft_address"@);
    assert(spec_decode_sudo_pool(ms) is None);
}

/// An encoded `option_type` record lacks `amount_usd`, which the `flashloan` shape needs.
#[verifier::spinoff_prover]
proof fn lemma_option_type_not_flashloan(s: OptionTypeV)
    ensures
        spec_decode_flashloan(spec_encode_option_type(s)) is None,
{
    reveal_strlit("action");
    reveal_strlit("amount");
    reveal_strlit("amount_usd");
    reveal_strlit("asset");
    reveal_strlit("block");
    reveal_strlit("chain");
    reveal_strlit("dex");
    reveal_strlit("direction");
    reveal_strlit("expiry");
    reveal_strlit("from");
    reveal_strlit("index");
    reveal_strlit("option_price_usd");
    reveal_strlit("position_status");
    reveal_strlit("spot_price_usd");
    reveal_strlit("status");
    reveal_strlit("strike_price_usd");
    reveal_strlit("timestamp");
    reveal_strlit("to");
    reveal_strlit("tx_hash");
    reveal_strlit("tx_type");
    reveal_strlit("type");
    reveal_strlit("wallet");
    reveal_strlit("wallet_label");
    assert("action"@.len() == 6);
    assert("amount"@.len() == 6);
    assert("amount_usd"@.len() == 10);
    assert("asset"@.len() == 5);
    assert("block"@.len() == 5);
    assert("chain"@.len() == 5);
    assert("dex"@.len() == 3);
    assert("direction"@.len() == 9);
    assert("expiry"@.len() == 6);
    assert("from"@.len() == 4);
    assert("index"@.len() == 5);
    assert("option_price_usd"@.len() == 16);
    assert("position_status"@.len() == 15);
    assert("spot_price_usd"@.len() == 14);
    assert("status"@.len() == 6);
    assert("strike_price_usd"@.len() == 16);
    assert("timestamp"@.len() == 9);
    assert("to"@.len() == 2);
    assert("tx_hash"@.len() == 7);
    assert("tx_type"@.len() == 7);
    assert("type"@.len() == 4);
    assert("wallet"@.len() == 6);
    assert("wallet_label"@.len() == 12);
    let ms = spec_encode_option_type(s);
    let mand = ms;
    assert(mand.len() == 22);
    assert(mand[0].0 == "wallet"@);
    assert(mand[1].0 == "wallet_label"@);
    assert(mand[2].0 == "tx_hash"@);
    assert(mand[3].0 == "tx_type"@);
    assert(mand[4].0 == "chain"@);
    assert(mand[5].0 == "index"@);
    assert(mand[6].0 == "timestamp"@);
    assert(mand[7].0 == "block"@);
    assert(mand[8].0 == "action"@);
    assert(mand[9].0 == "amount"@);
    assert(mand[10].0 == "asset"@);
    assert(mand[11].0 == "dex"@);
    assert(mand[12].0 == "direction"@);
    assert(mand[13].0 == "expiry"@);
    assert(mand[14].0 == "from"@);
    assert(mand[15].0 == "option_price_usd"@);
    assert(mand[16].0 == "position_status"@);
    assert(mand[17].0 == "spot_price_usd"@);
    assert(mand[18].0 == "status"@);
    assert(mand[19].0 == "strike_price_usd"@);
    assert(mand[20].0 == "to"@);
    assert(mand[21].0 == "type"@);
    assert forall|j: int| 0 <= j < mand.len() implies mand[j].0 != "amount_usd"@ by {
        if j == 0 {
        } else if j == 1 {
        } else if j == 2 {
        } else if j == 3 {
        } else if j == 4 {
        } else if j == 5 {
        } else if j == 6 {
        } else if j == 7 {
        } else if j == 8 {
        } else if j == 9 {
        } else if j == 10 {
        } else if j == 11 {
        } else if j == 12 {
        } else if j == 13 {
        } else if j == 14 {
        } else if j == 15 {
        } else if j == 16 {
        } else if j == 17 {
        } else if j == 18 {
        } else if j == 19 {
        } else if j == 20 {
        } else if j == 21 {
        } else {
        }
    }
    lemma_lookup_absent(mand, "amount_usd"@);
    assert(spec_decode_flashloan(ms) is None);
}

/// An encoded `option_type` record lacks `amount_usd`, which the `reward` shape needs.
#[verifier::spinoff_prover]
proof fn lemma_option_type_not_reward(s: OptionTypeV)
    ensures
        spec_decode_reward(spec_encode_option_type(s)) is None,
{
    reveal_strlit("action");
    reveal_strlit("amount");
    reveal_strlit("amount_usd");
    reveal_strlit("asset");
    reveal_strlit("block");
    reveal_strlit("chain");
    reveal_strlit("dex");
    reveal_strlit("direction");
    reveal_strlit("expiry");
    reveal_strlit("from");
    reveal_strlit("index");
    reveal_strlit("option_price_usd");
    reveal_strlit("position_status");
    reveal_strlit("spot_price_usd");
    reveal_strlit("status");
    reveal_strlit("strike_price_usd");
    reveal_strlit("timestamp");
    reveal_strlit("to");
    reveal_strlit("tx_hash");
    reveal_strlit("tx_type");
    reveal_strlit("type");
    reveal_strlit("wallet");
    reveal_strlit("wallet_label");
    assert("action"@.len() == 6);
    assert("amount"@.len() == 6);
    assert("amount_usd"@.len() == 10);
    assert("asset"@.len() == 5);
    assert("block"@.len() == 5);
    assert("chain"@.len() == 5);
    assert("dex"@.len() == 3);
    assert("direction"@.len() == 9);
    assert("expiry"@.len() == 6);
    assert("from"@.len() == 4);
    assert("index"@.len() == 5);
    assert("option_price_usd"@.len() == 16);
    assert("position_status"@.len() == 15);
    assert("spot_price_usd"@.len() == 14);
    assert("status"@.len() == 6);
    assert("strike_price_usd"@.len() == 16);
    assert("timestamp"@.len() == 9);
    assert("to"@.len() == 2);
    assert("tx_hash"@.len() == 7);
    assert("tx_type"@.len() == 7);
    assert("type"@.len() == 4);
    assert("wallet"@.len() == 6);
    assert("wallet_label"@.len() == 12);
    let ms = spec_encode_option_type(s);
    let mand = ms;
    assert(mand.len() == 22);
    assert(mand[0].0 == "wallet"@);
    assert(mand[1].0 == "wallet_label"@);
    assert(mand[2].0 == "tx_hash"@);
    assert(mand[3].0 == "tx_type"@);
    assert(mand[4].0 == "chain"@);
    assert(mand[5].0 == "index"@);
    assert(mand[6].0 == "timestamp"@);
    assert(mand[7].0 == "block"@);
    assert(mand[8].0 == "action"@);
    assert(mand[9].0 == "amount"@);
    assert(mand[10].0 == "asset"@);
    assert(mand[11].0 == "dex"@);
    assert(mand[12].0 == "direction"@);
    assert(mand[13].0 == "expiry"@);
    assert(mand[14].0 == "from"@);
    assert(mand[15].0 == "option_price_usd"@);
    assert(mand[16].0 == "position_status"@);
    assert(mand[17].0 == "spot_price_usd"@);
    assert(mand[18].0 == "status"@);
    assert(mand[19].0 == "strike_price_usd"@);
    assert(mand[20].0 == "to"@);
    assert(mand[21].0 == "type"@);
    assert forall|j: int| 0 <= j < mand.len() implies mand[j].0 != "amount_usd"@ by {
        if j == 0 {
        } else if j == 1 {
        } else if j == 2 {
        } else if j == 3 {
        } else if j == 4 {
        } else if j == 5 {
        } else if j == 6 {
        } else if j == 7 {
        } else if j == 8 {
        } else if j == 9 {
        } else if j == 10 {
        } else if j == 11 {
        } else if j == 12 {
        } else if j == 13 {
        } else if j == 14 {
        } else if j == 15 {
        } else if j == 16 {
        } else if j == 17 {
        } else if j == 18 {
        } else if j == 19 {
        } else if j == 20 {
        } else if j == 21 {
        } else {
        }
    }
    lemma_lookup_absent(mand, "amount_usd"@);
    assert(spec_decode_reward(ms) is None);
}

/// An encoded `option_type` record lacks `from_label`, which the `staking` shape needs.
#[verifier::spinoff_prover]
proof fn lemma_option_type_not_staking(s: OptionTypeV)
    ensures
        spec_decode_staking(spec_encode_option_type(s)) is None,
{
    reveal_strlit("action");
    reveal_strlit("amount");
    reveal_strlit("asset");
    reveal_strlit("block");
    reveal_strlit("chain");
    reveal_strlit("dex");
    reveal_strlit("direction");
    reveal_strlit("expiry");
    reveal_strlit("from");
    reveal_strlit("from_label");
    reveal_strlit("index");
    reveal_strlit("option_price_usd");
    reveal_strlit("position_status");
    reveal_strlit("spot_price_usd");
    reveal_strlit("status");
    reveal_strlit("strike_price_usd");
    reveal_strlit("timestamp");
    reveal_strlit("to");
    reveal_strlit("tx_hash");
    reveal_strlit("tx_type");
    reveal_strlit("type");
    reveal_strlit("wallet");
    reveal_strlit("wallet_label");
    assert("action"@.len() == 6);
    assert("amount"@.len() == 6);
    assert("asset"@.len() == 5);
    assert("block"@.len() == 5);
    assert("chain"@.len() == 5);
    assert("dex"@.len() == 3);
    assert("direction"@.len() == 9);
    assert("expiry"@.len() == 6);
    assert("from"@.len() == 4);
    assert("from_label"@.len() == 10);
    assert("index"@.len() == 5);
    assert("option_price_usd"@.len() == 16);
    assert("position_status"@.len() == 15);
    assert("spot_price_usd"@.len() == 14);
    assert("status"@.len() == 6);
    assert("strike_price_usd"@.len() == 16);
    assert("timestamp"@.len() == 9);
    assert("to"@.len() == 2);
    assert("tx_hash"@.len() == 7);
    assert("tx_type"@.len() == 7);
    assert("type"@.len() == 4);
    assert("wallet"@.len() == 6);
    assert("wallet_label"@.len() == 12);
    let ms = spec_encode_option_type(s);
    let mand = ms;
    assert(mand.len() == 22);
    assert(mand[0].0 == "wallet"@);
    assert(mand[1].0 == "wallet_label"@);
    assert(mand[2].0 == "tx_hash"@);
    assert(mand[3].0 == "tx_type"@);
    assert(mand[4].0 == "chain"@);
    assert(mand[5].0 == "index"@);
    assert(mand[6].0 == "timestamp"@);
    assert(mand[7].0 == "block"@);
    assert(mand[8].0 == "action"@);
    assert(mand[9].0 == "amount"@);
    assert(mand[10].0 == "asset"@);
    assert(mand[11].0 == "dex"@);
    assert(mand[12].0 == "direction"@);
    assert(mand[13].0 == "expiry"@);
    assert(mand[14].0 == "from"@);
    assert(mand[15].0 == "option_price_usd"@);
    assert(mand[16].0 == "position_status"@);
    assert(mand[17].0 == "spot_price_usd"@);
    assert(mand[18].0 == "status"@);
    assert(mand[19].0 == "strike_price_usd"@);
    assert(mand[20].0 == "to"@);
    assert(mand[21].0 == "type"@);
    assert forall|j: int| 0 <= j < mand.len() implies mand[j].0 != "from_label"@ by {
        if j == 0 {
        } else if j == 1 {
        } else if j == 2 {
        } else if j == 3 {
        } else if j == 4 {
        } else if j == 5 {
        } else if j == 6 {
        } else if j == 7 {
        } else if j == 8 {
        } else if j == 9 {
        } else if j == 10 {
        } else if j == 11 {
        } else if j == 12 {
        } else if j == 13 {
        } else if j == 14 {
        } else if j == 15 {
        } else if j == 16 {
        } else if j == 17 {
        } else if j == 18 {
        } else if j == 19 {
        } else if j == 20 {
        } else if j == 21 {
        } else {
        }
    }
    lemma_lookup_absent(mand, "from_label"@);
    assert(spec_decode_staking(ms) is None);
}

/// An encoded `option_type` record lacks `amount_usd`, which the `perp` shape needs.
#[verifier::spinoff_prover]
proof fn lemma_option_type_not_perp(s: OptionTypeV)
    ensures
        spec_decode_perp(spec_encode_option_type(s)) is None,
{
    reveal_strlit("action");
    reveal_strlit("amount");
    reveal_strlit("amount_usd");
    reveal_strlit("asset");
    reveal_strlit("block");
    reveal_strlit("chain");
    reveal_strlit("dex");
    reveal_strlit("direction");
    reveal_strlit("expiry");
    reveal_strlit("from");
    reveal_strlit("index");
    reveal_strlit("option_price_usd");
    reveal_strlit("position_status");
    reveal_strlit("spot_price_usd");
    reveal_strlit("status");
    reveal_strlit("strike_price_usd");
    reveal_strlit("timestamp");
    reveal_strlit("to");
    reveal_strlit("tx_hash");
    reveal_strlit("tx_type");
    reveal_strlit("type");
    reveal_strlit("wallet");
    reveal_strlit("wallet_label");
    assert("action"@.len() == 6);
    assert("amount"@.len() == 6);
    assert("amount_usd"@.len() == 10);
    assert("asset"@.len() == 5);
    assert("block"@.len() == 5);
    assert("chain"@.len() == 5);
    assert("dex"@.len() == 3);
    assert("direction"@.len() == 9);
    assert("expiry"@.len() == 6);
    assert("from"@.len() == 4);
    assert("index"@.len() == 5);
    assert("option_price_usd"@.len() == 16);
    assert("position_status"@.len() == 15);
    assert("spot_price_usd"@.len() == 14);
    assert("status"@.len() == 6);
    assert("strike_price_usd"@.len() == 16);
    assert("timestamp"@.len() == 9);
    assert("to"@.len() == 2);
    assert("tx_hash"@.len() == 7);
    assert("tx_type"@.len() == 7);
    assert("type"@.len() == 4);
    assert("wallet"@.len() == 6);
    assert("wallet_label"@.len() == 12);
    let ms = spec_encode_option_type(s);
    let mand = ms;
    assert(mand.len() == 22);
    assert(mand[0].0 == "wallet"@);
    assert(mand[1].0 == "wallet_label"@);
    assert(mand[2].0 == "tx_hash"@);
    assert(mand[3].0 == "tx_type"@);
    assert(mand[4].0 == "chain"@);
    assert(mand[5].0 == "index"@);
    assert(mand[6].0 == "timestamp"@);
    assert(mand[7].0 == "block"@);
    assert(mand[8].0 == "action"@);
    assert(mand[9].0 == "amount"@);
    assert(mand[10].0 == "asset"@);
    assert(mand[11].0 == "dex"@);
    assert(mand[12].0 == "direction"@);
    assert(mand[13].0 == "expiry"@);
    assert(mand[14].0 == "from"@);
    assert(mand[15].0 == "option_price_usd"@);
    assert(mand[16].0 == "position_status"@);
    assert(mand[17].0 == "spot_price_usd"@);
    assert(mand[18].0 == "status"@);
    assert(mand[19].0 == "strike_price_usd"@);
    assert(mand[20].0 == "to"@);
    assert(mand[21].0 == "type"@);
    assert forall|j: int| 0 <= j < mand.len() implies mand[j].0 != "amount_usd"@ by {
        if j == 0 {
        } else if j == 1 {
        } else if j == 2 {
        } else if j == 3 {
        } else if j == 4 {
        } else if j == 5 {
        } else if j == 6 {
        } else if j == 7 {
        } else if j == 8 {
        } else if j == 9 {
        } else if j == 10 {
        } else if j == 11 {
        } else if j == 12 {
        } else if j == 13 {
        } else if j == 14 {
        } else if j == 15 {
        } else if j == 16 {
        } else if j == 17 {
        } else if j == 18 {
        } else if j == 19 {
        } else if j == 20 {
        } else if j == 21 {
        } else {
        }
    }
    lemma_lookup_absent(mand, "amount_usd"@);
    assert(spec_decode_perp(ms) is None);
}

/// An encoded `option_type` record lacks `amount_usd`, which the `contract_creation` shape needs.
#[verifier::spinoff_prover]
proof fn lemma_option_type_not_contract_creation(s: OptionTypeV)
    ensures
        spec_decode_contract_creation(spec_encode_option_type(s)) is None,
{
    reveal_strlit("action");
    reveal_strlit("amount");
    reveal_strlit("amount_usd");
    reveal_strlit("asset");
    reveal_strlit("block");
    reveal_strlit("chain");
    reveal_strlit("dex");
    reveal_strlit("direction");
    reveal_strlit("expiry");
    reveal_strlit("from");
    reveal_strlit("index");
    reveal_strlit("option_price_usd");
    reveal_strlit("position_status");
    reveal_strlit("spot_price_usd");
    reveal_strlit("status");
    reveal_strlit("strike_price_usd");
    reveal_strlit("timestamp");
    reveal_strlit("to");
    reveal_strlit("tx_hash");
    reveal_strlit("tx_type");
    reveal_strlit("type");
    reveal_strlit("wallet");
    reveal_strlit("wallet_label");
    assert("action"@.len() == 6);
    assert("amount"@.len() == 6);
    assert("amount_usd"@.len() == 10);
    assert("asset"@.len() == 5);
    assert("block"@.len() == 5);
    assert("chain"@.len() == 5);
    assert("dex"@.len() == 3);
    assert("direction"@.len() == 9);
    assert("expiry"@.len() == 6);
    assert("from"@.len() == 4);
    assert("index"@.len() == 5);
    assert("option_price_usd"@.len() == 16);
    assert("position_status"@.len() == 15);
    assert("spot_price_usd"@.len() == 14);
    assert("status"@.len() == 6);
    assert("strike_price_usd"@.len() == 16);
    assert("timestamp"@.len() == 9);
    assert("to"@.len() == 2);
    assert("tx_hash"@.len() == 7);
    assert("tx_type"@.len() == 7);
    assert("type"@.len() == 4);
    assert("wallet"@.len() == 6);
    assert("wallet_label"@.len() == 12);
    let ms = spec_encode_option_type(s);
    let mand = ms;
    assert(mand.len() == 22);
    assert(mand[0].0 == "wallet"@);
    assert(mand[1].0 == "wallet_label"@);
    assert(mand[2].0 == "tx_hash"@);
    assert(mand[3].0 == "tx_type"@);
    assert(mand[4].0 == "chain"@);
    assert(mand[5].0 == "index"@);
    assert(mand[6].0 == "timestamp"@);
    assert(mand[7].0 == "block"@);
    assert(mand[8].0 == "action"@);
    assert(mand[9].0 == "amount"@);
    assert(mand[10].0 == "asset"@);
    assert(mand[11].0 == "dex"@);
    assert(mand[12].0 == "direction"@);
    assert(mand[13].0 == "expiry"@);
    assert(mand[14].0 == "from"@);
    assert(mand[15].0 == "option_price_usd"@);
    assert(mand[16].0 == "position_status"@);
    assert(mand[17].0 == "spot_price_usd"@);
    assert(mand[18].0 == "status"@);
    assert(mand[19].0 == "strike_price_usd"@);
    assert(mand[20].0 == "to"@);
    assert(mand[21].0 == "type"@);
    assert forall|j: int| 0 <= j < mand.len() implies mand[j].0 != "amount_usd"@ by {
        if j == 0 {
        } else if j == 1 {
        } else if j == 2 {
        } else if j == 3 {
        } else if j == 4 {
        } else if j == 5 {
        } else if j == 6 {
        } else if j == 7 {
        } else if j == 8 {
        } else if j == 9 {
        } else if j == 10 {
        } else if j == 11 {
        } else if j == 12 {
        } else if j == 13 {
        } else if j == 14 {
        } else if j == 15 {
        } else if j == 16 {
        } else if j == 17 {
        } else if j == 18 {
        } else if j == 19 {
        } else if j == 20 {
        } else if j == 21 {
        } else {
        }
    }
    lemma_lookup_absent(mand, "amount_usd"@);
    assert(spec_decode_contract_creation(ms) is None);
}

/// An encoded `option_type` record lacks `nft_address`, which the `nft_liquidation` shape needs.
#[verifier::spinoff_prover]
proof fn lemma_option_type_not_nft_liquidation(s: OptionTypeV)
    ensures
        spec_decode_nft_liquidation(spec_encode_option_type(s)) is None,
{
    reveal_strlit("action");
    reveal_strlit("amount");
    reveal_strlit("asset");
    reveal_strlit("block");
    reveal_strlit("chain");
    reveal_strlit("dex");
    reveal_strlit("direction");
    reveal_strlit("expiry");
    reveal_strlit("from");
    reveal_strlit("index");
    reveal_strlit("nft_address");
    reveal_strlit("option_price_usd");
    reveal_strlit("position_status");
    reveal_strlit("spot_price_usd");
    reveal_strlit("status");
    reveal_strlit("strike_price_usd");
    reveal_strlit("timestamp");
    reveal_strlit("to");
    reveal_strlit("tx_hash");
    reveal_strlit("tx_type");
    reveal_strlit("type");
    reveal_strlit("wallet");
    reveal_strlit("wallet_label");
    assert("action"@.len() == 6);
    assert("amount"@.len() == 6);
    assert("asset"@.len() == 5);
    assert("block"@.len() == 5);
    assert("chain"@.len() == 5);
    assert("dex"@.len() == 3);
    assert("direction"@.len() == 9);
    assert("expiry"@.len() == 6);
    assert("from"@.len() == 4);
    assert("index"@.len() == 5);
    assert("nft_address"@.len() == 11);
    assert("option_price_usd"@.len() == 16);
    assert("position_status"@.len() == 15);
    assert("spot_price_usd"@.len() == 14);
    assert("status"@.len() == 6);
    assert("strike_price_usd"@.len() == 16);
    assert("timestamp"@.len() == 9);
    assert("to"@.len() == 2);
    assert("tx_hash"@.len() == 7);
    assert("tx_type"@.len() == 7);
    assert("type"@.len() == 4);
    assert("wallet"@.len() == 6);
    assert("wallet_label"@.len() == 12);
    let ms = spec_encode_option_type(s);
    let mand = ms;
    assert(mand.len() == 22);
    assert(mand[0].0 == "wallet"@);
    assert(mand[1].0 == "wallet_label"@);
    assert(mand[2].0 == "tx_hash"@);
    assert(mand[3].0 == "tx_type"@);
    assert(mand[4].0 == "chain"@);
    assert(mand[5].0 == "index"@);
    assert(mand[6].0 == "timestamp"@);
    assert(mand[7].0 == "block"@);
    assert(mand[8].0 == "action"@);
    assert(mand[9].0 == "amount"@);
    assert(mand[10].0 == "asset"@);
    assert(mand[11].0 == "dex"@);
    assert(mand[12].0 == "direction"@);
    assert(mand[13].0 == "expiry"@);
    assert(mand[14].0 == "from"@);
    assert(mand[15].0 == "option_price_usd"@);
    assert(mand[16].0 == "position_status"@);
    assert(mand[17].0 == "spot_price_usd"@);
    assert(mand[18].0 == "status"@);
    assert(mand[19].0 == "strike_price_usd"@);
    assert(mand[20].0 == "to"@);
    assert(mand[21].0 == "type"@);
    assert forall|j: int| 0 <= j < mand.len() implies mand[j].0 != "nft_address"@ by {
        if j == 0 {
        } else if j == 1 {
        } else if j == 2 {
        } else if j == 3 {
        } else if j == 4 {
        } else if j == 5 {
        } else if j == 6 {
        } else if j == 7 {
        } else if j == 8 {
        } else if j == 9 {
        } else if j == 10 {
        } else if j == 11 {
        } else if j == 12 {
        } else if j == 13 {
        } else if j == 14 {
        } else if j == 15 {
        } else if j == 16 {
        } else if j == 17 {
        } else if j == 18 {
        } else if j == 19 {
        } else if j == 20 {
        } else if j == 21 {
        } else {
        }
    }
    lemma_lookup_absent(mand, "nft_address"@);
    assert(spec_decode_nft_liquidation(ms) is None);
}

/// Decoding an encoded `option_type` record yields it back.
#[verifier::rlimit(50)]
#[verifier::spinoff_prover]
pub proof fn lemma_option_type_round_trip(s: OptionTypeV)
    ensures
        spec_decode_item(spec_encode_item(ItemV::OptionEvent(s))) == Some(ItemV::OptionEvent(s)),
{
    reveal_strlit("action");
    reveal_strlit("amount");
    reveal_strlit("asset");
    reveal_strlit("block");
    reveal_strlit("chain");
    reveal_strlit("dex");
    reveal_strlit("direction");
    reveal_strlit("expiry");
    reveal_strlit("from");
    reveal_strlit("index");
    reveal_strlit("option_price_usd");
    reveal_strlit("position_status");
    reveal_strlit("spot_price_usd");
    reveal_strlit("status");
    reveal_strlit("strike_price_usd");
    reveal_strlit("timestamp");
    reveal_strlit("to");
    reveal_strlit("tx_hash");
    reveal_strlit("tx_type");
    reveal_strlit("type");
    reveal_strlit("wallet");
    reveal_strlit("wallet_label");
    assert("action"@.len() == 6);
    assert("amount"@.len() == 6);
    assert("asset"@.len() == 5);
    assert("block"@.len() == 5);
    assert("chain"@.len() == 5);
    assert("dex"@.len() == 3);
    assert("direction"@.len() == 9);
    assert("expiry"@.len() == 6);
    assert("from"@.len() == 4);
    assert("index"@.len() == 5);
    assert("option_price_usd"@.len() == 16);
    assert("position_status"@.len() == 15);
    assert("spot_price_usd"@.len() == 14);
    assert("status"@.len() == 6);
    assert("strike_price_usd"@.len() == 16);
    assert("timestamp"@.len() == 9);
    assert("to"@.len() == 2);
    assert("tx_hash"@.len() == 7);
    assert("tx_type"@.len() == 7);
    assert("type"@.len() == 4);
    assert("wallet"@.len() == 6);
    assert("wallet_label"@.len() == 12);
    assert("action"@[0] == 'a');
    assert("action"@[1] == 'c');
    assert("amount"@[0] == 'a');
    assert("amount"@[1] == 'm');
    assert("asset"@[0] == 'a');
    assert("block"@[0] == 'b');
    assert("chain"@[0] == 'c');
    assert("direction"@[0] == 'd');
    assert("expiry"@[0] == 'e');
    assert("from"@[0] == 'f');
    assert("index"@[0] == 'i');
    assert("option_price_usd"@[0] == 'o');
    assert("status"@[0] == 's');
    assert("strike_price_usd"@[0] == 's');
    assert("timestamp"@[0] == 't');
    assert("tx_hash"@[3] == 'h');
    assert("tx_type"@[3] == 't');
    assert("type"@[0] == 't');
    assert("wallet"@[0] == 'w');
    let ms = spec_encode_option_type(s);
    let mand = ms;
    assert(mand.len() == 22);
    assert(mand[0].0 == "wallet"@);
    assert(mand[1].0 == "wallet_label"@);
    assert(mand[2].0 == "tx_hash"@);
    assert(mand[3].0 == "tx_type"@);
    assert(mand[4].0 == "chain"@);
    assert(mand[5].0 == "index"@);
    assert(mand[6].0 == "timestamp"@);
    assert(mand[7].0 == "block"@);
    assert(mand[8].0 == "action"@);
    assert(mand[9].0 == "amount"@);
    assert(mand[10].0 == "asset"@);
    assert(mand[11].0 == "dex"@);
    assert(mand[12].0 == "direction"@);
    assert(mand[13].0 == "expiry"@);
    assert(mand[14].0 == "from"@);
    assert(mand[15].0 == "option_price_usd"@);
    assert(mand[16].0 == "position_status"@);
    assert(mand[17].0 == "spot_price_usd"@);
    assert(mand[18].0 == "status"@);
    assert(mand[19].0 == "strike_price_usd"@);
    assert(mand[20].0 == "to"@);
    assert(mand[21].0 == "type"@);
    lemma_lookup_first(mand, 0);
    lemma_lookup_first(mand, 1);
    lemma_lookup_first(mand, 2);
    lemma_lookup_first(mand, 3);
    lemma_lookup_first(mand, 4);
    lemma_lookup_first(mand, 5);
    lemma_lookup_first(mand, 6);
    lemma_lookup_first(mand, 7);
    lemma_lookup_first(mand, 8);
    lemma_lookup_first(mand, 9);
    lemma_lookup_first(mand, 10);
    lemma_lookup_first(mand, 11);
    lemma_lookup_first(mand, 12);
    lemma_lookup_first(mand, 13);
    lemma_lookup_first(mand, 14);
    lemma_lookup_first(mand, 15);
    lemma_lookup_first(mand, 16);
    lemma_lookup_first(mand, 17);
    lemma_lookup_first(mand, 18);
    lemma_lookup_first(mand, 19);
    lemma_lookup_first(mand, 20);
    lemma_lookup_first(mand, 21);
    lemma_option_type_not_swap(s);
    lemma_option_type_not_lp(s);
    lemma_option_type_not_transfer(s);
    lemma_option_type_not_lending(s);
    lemma_option_type_not_nft_mint(s);
    lemma_option_type_not_nft_trade(s);
    lemma_option_type_not_nft_transfer(s);
    lemma_option_type_not_nft_lending(s);
    lemma_option_type_not_bridge(s);
    lemma_option_type_not_contract_interaction(s);
    lemma_option_type_not_wrap(s);
    lemma_option_type_not_sudo_pool(s);
    lemma_option_type_not_flashloan(s);
    lemma_option_type_not_reward(s);
    lemma_option_type_not_staking(s);
    lemma_option_type_not_perp(s);
    lemma_option_type_not_contract_creation(s);
    lemma_option_type_not_nft_liquidation(s);
    assert(spec_decode_option_type(ms) == Some(OptionTypeV {
        wallet: s.wallet,
        wallet_label: s.wallet_label,
        tx_hash: s.tx_hash,
        tx_type: s.tx_type,
        chain: s.chain,
        index: s.index,
        timestamp: s.timestamp,
        block: s.block,
        action: s.action,
        amount: s.amount,
        asset: s.asset,
        dex: s.dex,
        direction: s.direction,
        expiry: s.expiry,
        from: s.from,
        option_price_usd: s.option_price_usd,
        position_status: s.position_status,
        spot_price_usd: s.spot_price_usd,
        status: s.status,
        strike_price_usd: s.strike_price_usd,
        to: s.to,
        type_field: s.type_field,
    }));
}

/// An encoded `nft_sweep` record lacks `dex`, which the `swap` shape needs.
#[verifier::spinoff_prover]
proof fn lemma_nft_sweep_not_swap(s: NftSweepV)
    ensures
        spec_decode_swap(spec_encode_nft_sweep(s)) is None,
{
    reveal_strlit("action");
    reveal_strlit("bid_accepted");
    reveal_strlit("block");
    reveal_strlit("buyer");
    reveal_strlit("chain");
    reveal_strlit("contract");
    reveal_strlit("currency_symbol");
    reveal_strlit("dex");
    reveal_strlit("first_interaction");
    reveal_strlit("from");
    reveal_strlit("image");
    reveal_strlit("index");
    reveal_strlit("marketplace");
    reveal_strlit("nft_address");
    reveal_strlit("nft_name");
    reveal_strlit("nft_symbol");
    reveal_strlit("nft_token_id");
    reveal_strlit("price");
    reveal_strlit("price_usd");
    reveal_strlit("profit");
    reveal_strlit("seller");
    reveal_strlit("thumbnail");
    reveal_strlit("timestamp");
    reveal_strlit("to");
    reveal_strlit("token");
    reveal_strlit("tx_hash");
    reveal_strlit("tx_type");
    reveal_strlit("wallet");
    reveal_strlit("wallet_label");
    assert("action"@.len() == 6);
    assert("bid_accepted"@.len() == 12);
    assert("block"@.len() == 5);
    assert("buyer"@.len() == 5);
    assert("chain"@.len() == 5);
    assert("contract"@.len() == 8);
    assert("currency_symbol"@.len() == 15);
    assert("dex"@.len() == 3);
    assert("first_interaction"@.len() == 17);
    assert("from"@.len() == 4);
    assert("image"@.len() == 5);
    assert("index"@.len() == 5);
    assert("marketplace"@.len() == 11);
    assert("nft_address"@.len() == 11);
    assert("nft_name"@.len() == 8);
    assert("nft_symbol"@.len() == 10);
    assert("nft_token_id"@.len() == 12);
    assert("price"@.len() == 5);
    assert("price_usd"@.len() == 9);
    assert("profit"@.len() == 6);
    assert("seller"@.len() == 6);
    assert("thumbnail"@.len() == 9);
    assert("timestamp"@.len() == 9);
    assert("to"@.len() == 2);
    assert("token"@.len() == 5);
    assert("tx_hash"@.len() == 7);
    assert("tx_type"@.len() == 7);
    assert("wallet"@.len() == 6);
    assert("wallet_label"@.len() == 12);
    let ms = spec_encode_nft_sweep(s);
    let mand = ms;
    assert(mand.len() == 28);
    assert(mand[0].0 == "wallet"@);
    assert(mand[1].0 == "wallet_label"@);
    assert(mand[2].0 == "tx_hash"@);
    assert(mand[3].0 == "tx_type"@);
    assert(mand[4].0 == "chain"@);
    assert(mand[5].0 == "index"@);
    assert(mand[6].0 == "timestamp"@);
    assert(mand[7].0 == "block"@);
    assert(mand[8].0 == "from"@);
    assert(mand[9].0 == "to"@);
    assert(mand[10].0 == "thumbnail"@);
    assert(mand[11].0 == "image"@);
    assert(mand[12].0 == "action"@);
    assert(mand[13].0 == "contract"@);
    assert(mand[14].0 == "marketplace"@);
    assert(mand[15].0 == "nft_address"@);
    assert(mand[16].0 == "nft_name"@);
    assert(mand[17].0 == "nft_symbol"@);
    assert(mand[18].0 == "nft_token_id"@);
    assert(mand[19].0 == "price"@);
    assert(mand[20].0 == "price_usd"@);
    assert(mand[21].0 == "profit"@);
    assert(mand[22].0 == "currency_symbol"@);
    assert(mand[23].0 == "buyer"@);
    assert(mand[24].0 == "seller"@);
    assert(mand[25].0 == "token"@);
    assert(mand[26].0 == "first_interaction"@);
    assert(mand[27].0 == "bid_accepted"@);
    assert forall|j: int| 0 <= j < mand.len() implies mand[j].0 != "dex"@ by {
        if j == 0 {
        } else if j == 1 {
        } else if j == 2 {
        } else if j == 3 {
        } else if j == 4 {
        } else if j == 5 {
        } else if j == 6 {
        } else if j == 7 {
        } else if j == 8 {
        } else if j == 9 {
        } else if j == 10 {
        } else if j == 11 {
        } else if j == 12 {
        } else if j == 13 {
        } else if j == 14 {
        } else if j == 15 {
        } else if j == 16 {
        } else if j == 17 {
        } else if j == 18 {
        } else if j == 19 {
        } else if j == 20 {
        } else if j == 21 {
        } else if j == 22 {
        } else if j == 23 {
        } else if j == 24 {
        } else if j == 25 {
        } else if j == 26 {
        } else if j == 27 {
        } else {
        }
    }
    lemma_lookup_absent(mand, "dex"@);
    assert(spec_decode_swap(ms) is None);
}

/// An encoded `nft_sweep` record lacks `dex`, which the `lp` shape needs.
#[verifier::spinoff_prover]
proof fn lemma_nft_sweep_not_lp(s: NftSweepV)
    ensures
        spec_decode_lp(spec_encode_nft_sweep(s)) is None,
{
    reveal_strlit("action");
    reveal_strlit("bid_accepted");
    reveal_strlit("block");
    reveal_strlit("buyer");
    reveal_strlit("chain");
    reveal_strlit("contract");
    reveal_strlit("currency_symbol");
    reveal_strlit("dex");
    reveal_strlit("first_interaction");
    reveal_strlit("from");
    reveal_strlit("image");
    reveal_strlit("index");
    reveal_strlit("marketplace");
    reveal_strlit("nft_address");
    reveal_strlit("nft_name");
    reveal_strlit("nft_symbol");
    reveal_strlit("nft_token_id");
    reveal_strlit("price");
    reveal_strlit("price_usd");
    reveal_strlit("profit");
    reveal_strlit("seller");
    reveal_strlit("thumbnail");
    reveal_strlit("timestamp");
    reveal_strlit("to");
    reveal_strlit("token");
    reveal_strlit("tx_hash");
    reveal_strlit("tx_type");
    reveal_strlit("wallet");
    reveal_strlit("wallet_label");
    assert("action"@.len() == 6);
    assert("bid_accepted"@.len() == 12);
    assert("block"@.len() == 5);
    assert("buyer"@.len() == 5);
    assert("chain"@.len() == 5);
    assert("contract"@.len() == 8);
    assert("currency_symbol"@.len() == 15);
    assert("dex"@.len() == 3);
    assert("first_interaction"@.len() == 17);
    assert("from"@.len() == 4);
    assert("image"@.len() == 5);
    assert("index"@.len() == 5);
    assert("marketplace"@.len() == 11);
    assert("nft_address"@.len() == 11);
    assert("nft_name"@.len() == 8);
    assert("nft_symbol"@.len() == 10);
    assert("nft_token_id"@.len() == 12);
    assert("price"@.len() == 5);
    assert("price_usd"@.len() == 9);
    assert("profit"@.len() == 6);
    assert("seller"@.len() == 6);
    assert("thumbnail"@.len() == 9);
    assert("timestamp"@.len() == 9);
    assert("to"@.len() == 2);
    assert("token"@.len() == 5);
    assert("tx_hash"@.len() == 7);
    assert("tx_type"@.len() == 7);
    assert("wallet"@.len() == 6);
    assert("wallet_label"@.len() == 12);
    let ms = spec_encode_nft_sweep(s);
    let mand = ms;
    assert(mand.len() == 28);
    assert(mand[0].0 == "wallet"@);
    assert(mand[1].0 == "wallet_label"@);
    assert(mand[2].0 == "tx_hash"@);
    assert(mand[3].0 == "tx_type"@);
    assert(mand[4].0 == "chain"@);
    assert(mand[5].0 == "index"@);
    assert(mand[6].0 == "timestamp"@);
    assert(mand[7].0 == "block"@);
    assert(mand[8].0 == "from"@);
    assert(mand[9].0 == "to"@);
    assert(mand[10].0 == "thumbnail"@);
    assert(mand[11].0 == "image"@);
    assert(mand[12].0 == "action"@);
    assert(mand[13].0 == "contract"@);
    assert(mand[14].0 == "marketplace"@);
    assert(mand[15].0 == "nft_address"@);
    assert(mand[16].0 == "nft_name"@);
    assert(mand[17].0 == "nft_symbol"@);
    assert(mand[18].0 == "nft_token_id"@);
    assert(mand[19].0 == "price"@);
    assert(mand[20].0 == "price_usd"@);
    assert(mand[21].0 == "profit"@);
    assert(mand[22].0 == "currency_symbol"@);
    assert(mand[23].0 == "buyer"@);
    assert(mand[24].0 == "seller"@);
    assert(mand[25].0 == "token"@);
    assert(mand[26].0 == "first_interaction"@);
    assert(mand[27].0 == "bid_accepted"@);
    assert forall|j: int| 0 <= j < mand.len() implies mand[j].0 != "dex"@ by {
        if j == 0 {
        } else if j == 1 {
        } else if j == 2 {
        } else if j == 3 {
        } else if j == 4 {
        } else if j == 5 {
        } else if j == 6 {
        } else if j == 7 {
        } else if j == 8 {
        } else if j == 9 {
        } else if j == 10 {
        } else if j == 11 {
        } else if j == 12 {
        } else if j == 13 {
        } else if j == 14 {
        } else if j == 15 {
        } else if j == 16 {
        } else if j == 17 {
        } else if j == 18 {
        } else if j == 19 {
        } else if j == 20 {
        } else if j == 21 {
        } else if j == 22 {
        } else if j == 23 {
        } else if j == 24 {
        } else if j == 25 {
        } else if j == 26 {
        } else if j == 27 {
        } else {
        }
    }
    lemma_lookup_absent(mand, "dex"@);
    assert(spec_decode_lp(ms) is None);
}

/// An encoded `nft_sweep` record lacks `contract_address`, which the `transfer` shape needs.
#[verifier::spinoff_prover]
proof fn lemma_nft_sweep_not_transfer(s: NftSweepV)
    ensures
        spec_decode_transfer(spec_encode_nft_sweep(s)) is None,
{
    reveal_strlit("action");
    reveal_strlit("bid_accepted");
    reveal_strlit("block");
    reveal_strlit("buyer");
    reveal_strlit("chain");
    reveal_strlit("contract");
    reveal_strlit("contract_address");
    reveal_strlit("currency_symbol");
    reveal_strlit("first_interaction");
    reveal_strlit("from");
    reveal_strlit("image");
    reveal_strlit("index");
    reveal_strlit("marketplace");
    reveal_strlit("nft_address");
    reveal_strlit("nft_name");
    reveal_strlit("nft_symbol");
    reveal_strlit("nft_token_id");
    reveal_strlit("price");
    reveal_strlit("price_usd");
    reveal_strlit("profit");
    reveal_strlit("seller");
    reveal_strlit("thumbnail");
    reveal_strlit("timestamp");
    reveal_strlit("to");
    reveal_strlit("token");
    reveal_strlit("tx_hash");
    reveal_strlit("tx_type");
    reveal_strlit("wallet");
    reveal_strlit("wallet_label");
    assert("action"@.len() == 6);
    assert("bid_accepted"@.len() == 12);
    assert("block"@.len() == 5);
    assert("buyer"@.len() == 5);
    assert("chain"@.len() == 5);
    assert("contract"@.len() == 8);
    assert("contract_address"@.len() == 16);
    assert("currency_symbol"@.len() == 15);
    assert("first_interaction"@.len() == 17);
    assert("from"@.len() == 4);
    assert("image"@.len() == 5);
    assert("index"@.len() == 5);
    assert("marketplace"@.len() == 11);
    assert("nft_address"@.len() == 11);
    assert("nft_name"@.len() == 8);
    assert("nft_symbol"@.len() == 10);
    assert("nft_token_id"@.len() == 12);
    assert("price"@.len() == 5);
    assert("price_usd"@.len() == 9);
    assert("profit"@.len() == 6);
    assert("seller"@.len() == 6);
    assert("thumbnail"@.len() == 9);
    assert("timestamp"@.len() == 9);
    assert("to"@.len() == 2);
    assert("token"@.len() == 5);
    assert("tx_hash"@.len() == 7);
    assert("tx_type"@.len() == 7);
    assert("wallet"@.len() == 6);
    assert("wallet_label"@.len() == 12);
    let ms = spec_encode_nft_sweep(s);
    let mand = ms;
    assert(mand.len() == 28);
    assert(mand[0].0 == "wallet"@);
    assert(mand[1].0 == "wallet_label"@);
    assert(mand[2].0 == "tx_hash"@);
    assert(mand[3].0 == "tx_type"@);
    assert(mand[4].0 == "chain"@);
    assert(mand[5].0 == "index"@);
    assert(mand[6].0 == "timestamp"@);
    assert(mand[7].0 == "block"@);
    assert(mand[8].0 == "from"@);
    assert(mand[9].0 == "to"@);
    assert(mand[10].0 == "thumbnail"@);
    assert(mand[11].0 == "image"@);
    assert(mand[12].0 == "action"@);
    assert(mand[13].0 == "contract"@);
    assert(mand[14].0 == "marketplace"@);
    assert(mand[15].0 == "nft_address"@);
    assert(mand[16].0 == "nft_name"@);
    assert(mand[17].0 == "nft_symbol"@);
    assert(mand[18].0 == "nft_token_id"@);
    assert(mand[19].0 == "price"@);
    assert(mand[20].0 == "price_usd"@);
    assert(mand[21].0 == "profit"@);
    assert(mand[22].0 == "currency_symbol"@);
    assert(mand[23].0 == "buyer"@);
    assert(mand[24].0 == "seller"@);
    assert(mand[25].0 == "token"@);
    assert(mand[26].0 == "first_interaction"@);
    assert(mand[27].0 == "bid_accepted"@);
    assert forall|j: int| 0 <= j < mand.len() implies mand[j].0 != "contract_address"@ by {
        if j == 0 {
        } else if j == 1 {
        } else if j == 2 {
        } else if j == 3 {
        } else if j == 4 {
        } else if j == 5 {
        } else if j == 6 {
        } else if j == 7 {
        } else if j == 8 {
        } else if j == 9 {
        } else if j == 10 {
        } else if j == 11 {
        } else if j == 12 {
        } else if j == 13 {
        } else if j == 14 {
        } else if j == 15 {
        } else if j == 16 {
        } else if j == 17 {
        } else if j == 18 {
        } else if j == 19 {
        } else if j == 20 {
        } else if j == 21 {
        } else if j == 22 {
        } else if j == 23 {
        } else if j == 24 {
        } else if j == 25 {
        } else if j == 26 {
        } else if j == 27 {
        } else {
        }
    }
    lemma_lookup_absent(mand, "contract_address"@);
    assert(spec_decode_transfer(ms) is None);
}

/// An encoded `nft_sweep` record lacks `dex`, which the `lending` shape needs.
#[verifier::spinoff_prover]
proof fn lemma_nft_sweep_not_lending(s: NftSweepV)
    ensures
        spec_decode_lending(spec_encode_nft_sweep(s)) is None,
{
    reveal_strlit("action");
    reveal_strlit("bid_accepted");
    reveal_strlit("block");
    reveal_strlit("buyer");
    reveal_strlit("chain");
    reveal_strlit("contract");
    reveal_strlit("currency_symbol");
    reveal_strlit("dex");
    reveal_strlit("first_interaction");
    reveal_strlit("from");
    reveal_strlit("image");
    reveal_strlit("index");
    reveal_strlit("marketplace");
    reveal_strlit("nft_address");
    reveal_strlit("nft_name");
    reveal_strlit("nft_symbol");
    reveal_strlit("nft_token_id");
    reveal_strlit("price");
    reveal_strlit("price_usd");
    reveal_strlit("profit");
    reveal_strlit("seller");
    reveal_strlit("thumbnail");
    reveal_strlit("timestamp");
    reveal_strlit("to");
    reveal_strlit("token");
    reveal_strlit("tx_hash");
    reveal_strlit("tx_type");
    reveal_strlit("wallet");
    reveal_strlit("wallet_label");
    assert("action"@.len() == 6);
    assert("bid_accepted"@.len() == 12);
    assert("block"@.len() == 5);
    assert("buyer"@.len() == 5);
    assert("chain"@.len() == 5);
    assert("contract"@.len() == 8);
    assert("currency_symbol"@.len() == 15);
    assert("dex"@.len() == 3);
    assert("first_interaction"@.len() == 17);
    assert("from"@.len() == 4);
    assert("image"@.len() == 5);
    assert("index"@.len() == 5);
    assert("marketplace"@.len() == 11);
    assert("nft_address"@.len() == 11);
    assert("nft_name"@.len() == 8);
    assert("nft_symbol"@.len() == 10);
    assert("nft_token_id"@.len() == 12);
    assert("price"@.len() == 5);
    assert("price_usd"@.len() == 9);
    assert("profit"@.len() == 6);
    assert("seller"@.len() == 6);
    assert("thumbnail"@.len() == 9);
    assert("timestamp"@.len() == 9);
    assert("to"@.len() == 2);
    assert("token"@.len() == 5);
    assert("tx_hash"@.len() == 7);
    assert("tx_type"@.len() == 7);
    assert("wallet"@.len() == 6);
    assert("wallet_label"@.len() == 12);
    let ms = spec_encode_nft_sweep(s);
    let mand = ms;
    assert(mand.len() == 28);
    assert(mand[0].0 == "wallet"@);
    assert(mand[1].0 == "wallet_label"@);
    assert(mand[2].0 == "tx_hash"@);
    assert(mand[3].0 == "tx_type"@);
    assert(mand[4].0 == "chain"@);
    assert(mand[5].0 == "index"@);
    assert(mand[6].0 == "timestamp"@);
    assert(mand[7].0 == "block"@);
    assert(mand[8].0 == "from"@);
    assert(mand[9].0 == "to"@);
    assert(mand[10].0 == "thumbnail"@);
    assert(mand[11].0 == "image"@);
    assert(mand[12].0 == "action"@);
    assert(mand[13].0 == "contract"@);
    assert(mand[14].0 == "marketplace"@);
    assert(mand[15].0 == "nft_address"@);
    assert(mand[16].0 == "nft_name"@);
    assert(mand[17].0 == "nft_symbol"@);
    assert(mand[18].0 == "nft_token_id"@);
    assert(mand[19].0 == "price"@);
    assert(mand[20].0 == "price_usd"@);
    assert(mand[21].0 == "profit"@);
    assert(mand[22].0 == "currency_symbol"@);
    assert(mand[23].0 == "buyer"@);
    assert(mand[24].0 == "seller"@);
    assert(mand[25].0 == "token"@);
    assert(mand[26].0 == "first_interaction"@);
    assert(mand[27].0 == "bid_accepted"@);
    assert forall|j: int| 0 <= j < mand.len() implies mand[j].0 != "dex"@ by {
        if j == 0 {
        } else if j == 1 {
        } else if j == 2 {
        } else if j == 3 {
        } else if j == 4 {
        } else if j == 5 {
        } else if j == 6 {
        } else if j == 7 {
        } else if j == 8 {
        } else if j == 9 {
        } else if j == 10 {
        } else if j == 11 {
        } else if j == 12 {
        } else if j == 13 {
        } else if j == 14 {
        } else if j == 15 {
        } else if j == 16 {
        } else if j == 17 {
        } else if j == 18 {
        } else if j == 19 {
        } else if j == 20 {
        } else if j == 21 {
        } else if j == 22 {
        } else if j == 23 {
        } else if j == 24 {
        } else if j == 25 {
        } else if j == 26 {
        } else if j == 27 {
        } else {
        }
    }
    lemma_lookup_absent(mand, "dex"@);
    assert(spec_decode_lending(ms) is None);
}

/// An encoded `nft_sweep` record lacks `contract_address`, which the `nft_mint` shape needs.
#[verifier::spinoff_prover]
proof fn lemma_nft_sweep_not_nft_mint(s: NftSweepV)
    ensures
        spec_decode_nft_mint(spec_encode_nft_sweep(s)) is None,
{
    reveal_strlit("action");
    reveal_strlit("bid_accepted");
    reveal_strlit("block");
    reveal_strlit("buyer");
    reveal_strlit("chain");
    reveal_strlit("contract");
    reveal_strlit("contract_address");
    reveal_strlit("currency_symbol");
    reveal_strlit("first_interaction");
    reveal_strlit("from");
    reveal_strlit("image");
    reveal_strlit("index");
    reveal_strlit("marketplace");
    reveal_strlit("nft_address");
    reveal_strlit("nft_name");
    reveal_strlit("nft_symbol");
    reveal_strlit("nft_token_id");
    reveal_strlit("price");
    reveal_strlit("price_usd");
    reveal_strlit("profit");
    reveal_strlit("seller");
    reveal_strlit("thumbnail");
    reveal_strlit("timestamp");
    reveal_strlit("to");
    reveal_strlit("token");
    reveal_strlit("tx_hash");
    reveal_strlit("tx_type");
    reveal_strlit("wallet");
    reveal_strlit("wallet_label");
    assert("action"@.len() == 6);
    assert("bid_accepted"@.len() == 12);
    assert("block"@.len() == 5);
    assert("buyer"@.len() == 5);
    assert("chain"@.len() == 5);
    assert("contract"@.len() == 8);
    assert("contract_address"@.len() == 16);
    assert("currency_symbol"@.len() == 15);
    assert("first_interaction"@.len() == 17);
    assert("from"@.len() == 4);
    assert("image"@.len() == 5);
    assert("index"@.len() == 5);
    assert("marketplace"@.len() == 11);
    assert("nft_address"@.len() == 11);
    assert("nft_name"@.len() == 8);
    assert("nft_symbol"@.len() == 10);
    assert("nft_token_id"@.len() == 12);
    assert("price"@.len() == 5);
    assert("price_usd"@.len() == 9);
    assert("profit"@.len() == 6);
    assert("seller"@.len() == 6);
    assert("thumbnail"@.len() == 9);
    assert("timestamp"@.len() == 9);
    assert("to"@.len() == 2);
    assert("token"@.len() == 5);
    assert("tx_hash"@.len() == 7);
    assert("tx_type"@.len() == 7);
    assert("wallet"@.len() == 6);
    assert("wallet_label"@.len() == 12);
    let ms = spec_encode_nft_sweep(s);
    let mand = ms;
    assert(mand.len() == 28);
    assert(mand[0].0 == "wallet"@);
    assert(mand[1].0 == "wallet_label"@);
    assert(mand[2].0 == "tx_hash"@);
    assert(mand[3].0 == "tx_type"@);
    assert(mand[4].0 == "chain"@);
    assert(mand[5].0 == "index"@);
    assert(mand[6].0 == "timestamp"@);
    assert(mand[7].0 == "block"@);
    assert(mand[8].0 == "from"@);
    assert(mand[9].0 == "to"@);
    assert(mand[10].0 == "thumbnail"@);
    assert(mand[11].0 == "image"@);
    assert(mand[12].0 == "action"@);
    assert(mand[13].0 == "contract"@);
    assert(mand[14].0 == "marketplace"@);
    assert(mand[15].0 == "nft_address"@);
    assert(mand[16].0 == "nft_name"@);
    assert(mand[17].0 == "nft_symbol"@);
    assert(mand[18].0 == "nft_token_id"@);
    assert(mand[19].0 == "price"@);
    assert(mand[20].0 == "price_usd"@);
    assert(mand[21].0 == "profit"@);
    assert(mand[22].0 == "currency_symbol"@);
    assert(mand[23].0 == "buyer"@);
    assert(mand[24].0 == "seller"@);
    assert(mand[25].0 == "token"@);
    assert(mand[26].0 == "first_interaction"@);
    assert(mand[27].0 == "bid_accepted"@);
    assert forall|j: int| 0 <= j < mand.len() implies mand[j].0 != "contract_address"@ by {
        if j == 0 {
        } else if j == 1 {
        } else if j == 2 {
        } else if j == 3 {
        } else if j == 4 {
        } else if j == 5 {
        } else if j == 6 {
        } else if j == 7 {
        } else if j == 8 {
        } else if j == 9 {
        } else if j == 10 {
        } else if j == 11 {
        } else if j == 12 {
        } else if j == 13 {
        } else if j == 14 {
        } else if j == 15 {
        } else if j == 16 {
        } else if j == 17 {
        } else if j == 18 {
        } else if j == 19 {
        } else if j == 20 {
        } else if j == 21 {
        } else if j == 22 {
        } else if j == 23 {
        } else if j == 24 {
        } else if j == 25 {
        } else if j == 26 {
        } else if j == 27 {
        } else {
        }
    }
    lemma_lookup_absent(mand, "contract_address"@);
    assert(spec_decode_nft_mint(ms) is None);
}

/// An encoded `nft_sweep` record decodes as the `nft_trade` record
/// with the same members: the two shapes are indistinguishable.
#[verifier::rlimit(50)]
#[verifier::spinoff_prover]
pub proof fn lemma_nft_sweep_decodes_as_nft_trade(s: NftSweepV)
    ensures
        spec_decode_item(spec_encode_item(ItemV::NftSweep(s))) == Some(ItemV::NftTrade(NftTradeV { wallet: s.wallet, wallet_label: s.wallet_label, tx_hash: s.tx_hash, tx_type: s.tx_type, chain: s.chain, index: s.index, timestamp: s.timestamp, block: s.block, from: s.from, to: s.to, thumbnail: s.thumbnail, image: s.image, action: s.action, contract: s.contract, marketplace: s.marketplace, nft_address: s.nft_address, nft_name: s.nft_name, nft_symbol: s.nft_symbol, nft_token_id: s.nft_token_id, price: s.price, price_usd: s.price_usd, profit: s.profit, currency_symbol: s.currency_symbol, buyer: s.buyer, seller: s.seller, token: s.token, first_interaction: s.first_interaction, bid_accepted: s.bid_accepted })),
{
    reveal_strlit("action");
    reveal_strlit("bid_accepted");
    reveal_strlit("block");
    reveal_strlit("buyer");
    reveal_strlit("chain");
    reveal_strlit("contract");
    reveal_strlit("currency_symbol");
    reveal_strlit("first_interaction");
    reveal_strlit("from");
    reveal_strlit("image");
    reveal_strlit("index");
    reveal_strlit("marketplace");
    reveal_strlit("nft_address");
    reveal_strlit("nft_name");
    reveal_strlit("nft_symbol");
    reveal_strlit("nft_token_id");
    reveal_strlit("price");
    reveal_strlit("price_usd");
    reveal_strlit("profit");
    reveal_strlit("seller");
    reveal_strlit("thumbnail");
    reveal_strlit("timestamp");
    reveal_strlit("to");
    reveal_strlit("token");
    reveal_strlit("tx_hash");
    reveal_strlit("tx_type");
    reveal_strlit("wallet");
    reveal_strlit("wallet_label");
    assert("action"@.len() == 6);
    assert("bid_accepted"@.len() == 12);
    assert("block"@.len() == 5);
    assert("buyer"@.len() == 5);
    assert("chain"@.len() == 5);
    assert("contract"@.len() == 8);
    assert("currency_symbol"@.len() == 15);
    assert("first_interaction"@.len() == 17);
    assert("from"@.len() == 4);
    assert("image"@.len() == 5);
    assert("index"@.len() == 5);
    assert("marketplace"@.len() == 11);
    assert("nft_address"@.len() == 11);
    assert("nft_name"@.len() == 8);
    assert("nft_symbol"@.len() == 10);
    assert("nft_token_id"@.len() == 12);
    assert("price"@.len() == 5);
    assert("price_usd"@.len() == 9);
    assert("profit"@.len() == 6);
    assert("seller"@.len() == 6);
    assert("thumbnail"@.len() == 9);
    assert("timestamp"@.len() == 9);
    assert("to"@.len() == 2);
    assert("token"@.len() == 5);
    assert("tx_hash"@.len() == 7);
    assert("tx_type"@.len() == 7);
    assert("wallet"@.len() == 6);
    assert("wallet_label"@.len() == 12);
    assert("action"@[0] == 'a');
    assert("bid_accepted"@[0] == 'b');
    assert("block"@[0] == 'b');
    assert("block"@[1] == 'l');
    assert("buyer"@[0] == 'b');
    assert("buyer"@[1] == 'u');
    assert("chain"@[0] == 'c');
    assert("contract"@[0] == 'c');
    assert("image"@[0] == 'i');
    assert("image"@[1] == 'm');
    assert("index"@[0] == 'i');
    assert("index"@[1] == 'n');
    assert("marketplace"@[0] == 'm');
    assert("nft_address"@[0] == 'n');
    assert("nft_name"@[0] == 'n');
    assert("nft_token_id"@[0] == 'n');
    assert("price"@[0] == 'p');
    assert("price_usd"@[0] == 'p');
    assert("profit"@[0] == 'p');
    assert("seller"@[0] == 's');
    assert("thumbnail"@[0] == 't');
    assert("thumbnail"@[1] == 'h');
    assert("timestamp"@[0] == 't');
    assert("timestamp"@[1] == 'i');
    assert("token"@[0] == 't');
    assert("tx_hash"@[3] == 'h');
    assert("tx_type"@[3] == 't');
    assert("wallet"@[0] == 'w');
    assert("wallet_label"@[0] == 'w');
    let ms = spec_encode_nft_sweep(s);
    let mand = ms;
    assert(mand.len() == 28);
    assert(mand[0].0 == "wallet"@);
    assert(mand[1].0 == "wallet_label"@);
    assert(mand[2].0 == "tx_hash"@);
    assert(mand[3].0 == "tx_type"@);
    assert(mand[4].0 == "chain"@);
    assert(mand[5].0 == "index"@);
    assert(mand[6].0 == "timestamp"@);
    assert(mand[7].0 == "block"@);
    assert(mand[8].0 == "from"@);
    assert(mand[9].0 == "to"@);
    assert(mand[10].0 == "thumbnail"@);
    assert(mand[11].0 == "image"@);
    assert(mand[12].0 == "action"@);
    assert(mand[13].0 == "contract"@);
    assert(mand[14].0 == "marketplace"@);
    assert(mand[15].0 == "nft_address"@);
    assert(mand[16].0 == "nft_name"@);
    assert(mand[17].0 == "nft_symbol"@);
    assert(mand[18].0 == "nft_token_id"@);
    assert(mand[19].0 == "price"@);
    assert(mand[20].0 == "price_usd"@);
    assert(mand[21].0 == "profit"@);
    assert(mand[22].0 == "currency_symbol"@);
    assert(mand[23].0 == "buyer"@);
    assert(mand[24].0 == "seller"@);
    assert(mand[25].0 == "token"@);
    assert(mand[26].0 == "first_interaction"@);
    assert(mand[27].0 == "bid_accepted"@);
    lemma_lookup_first(mand, 0);
    lemma_lookup_first(mand, 1);
    lemma_lookup_first(mand, 2);
    lemma_lookup_first(mand, 3);
    lemma_lookup_first(mand, 4);
    lemma_lookup_first(mand, 5);
    lemma_lookup_first(mand, 6);
    lemma_lookup_first(mand, 7);
    lemma_lookup_first(mand, 8);
    lemma_lookup_first(mand, 9);
    lemma_lookup_first(mand, 10);
    lemma_lookup_first(mand, 11);
    lemma_lookup_first(mand, 12);
    lemma_lookup_first(mand, 13);
    lemma_lookup_first(mand, 14);
    lemma_lookup_first(mand, 15);
    lemma_lookup_first(mand, 16);
    lemma_lookup_first(mand, 17);
    lemma_lookup_first(mand, 18);
    lemma_lookup_first(mand, 19);
    lemma_lookup_first(mand, 20);
    lemma_lookup_first(mand, 21);
    lemma_lookup_first(mand, 22);
    lemma_lookup_first(mand, 23);
    lemma_lookup_first(mand, 24);
    lemma_lookup_first(mand, 25);
    lemma_lookup_first(mand, 26);
    lemma_lookup_first(mand, 27);
    lemma_nft_sweep_not_swap(s);
    lemma_nft_sweep_not_lp(s);
    lemma_nft_sweep_not_transfer(s);
    lemma_nft_sweep_not_lending(s);
    lemma_nft_sweep_not_nft_mint(s);
    assert(spec_decode_nft_trade(ms) == Some(NftTradeV {
        wallet: s.wallet,
        wallet_label: s.wallet_label,
        tx_hash: s.tx_hash,
        tx_type: s.tx_type,
        chain: s.chain,
        index: s.index,
        timestamp: s.timestamp,
        block: s.block,
        from: s.from,
        to: s.to,
        thumbnail: s.thumbnail,
        image: s.image,
        action: s.action,
        contract: s.contract,
        marketplace: s.marketplace,
        nft_address: s.nft_address,
        nft_name: s.nft_name,
        nft_symbol: s.nft_symbol,
        nft_token_id: s.nft_token_id,
        price: s.price,
        price_usd: s.price_usd,
        profit: s.profit,
        currency_symbol: s.currency_symbol,
        buyer: s.buyer,
        seller: s.seller,
        token: s.token,
        first_interaction: s.first_interaction,
        bid_accepted: s.bid_accepted,
    }));
}

/// Decoding an encoded item yields it back, for every shape that the
/// decoder can tell apart; only `nft_sweep` is excluded, whose member
/// set equals `nft_trade`'s.
pub proof fn lemma_item_round_trip(item: ItemV)
    requires
        !(item is NftSweep),
    ensures
        spec_decode_item(spec_encode_item(item)) == Some(item),
{
    match item {
        ItemV::Swap(s) => lemma_swap_round_trip(s),
        ItemV::Lp(s) => lemma_lp_round_trip(s),
        ItemV::Transfer(s) => lemma_transfer_round_trip(s),
        ItemV::Lending(s) => lemma_lending_round_trip(s),
        ItemV::NftMint(s) => lemma_nft_mint_round_trip(s),
        ItemV::NftTrade(s) => lemma_nft_trade_round_trip(s),
        ItemV::NftTransfer(s) => lemma_nft_transfer_round_trip(s),
        ItemV::NftLending(s) => lemma_nft_lending_round_trip(s),
        ItemV::Bridge(s) => lemma_bridge_round_trip(s),
        ItemV::ContractInteraction(s) => lemma_contract_interaction_round_trip(s),
        ItemV::Wrap(s) => lemma_wrap_round_trip(s),
        ItemV::SudoPool(s) => lemma_sudo_pool_round_trip(s),
        ItemV::Flashloan(s) => lemma_flashloan_round_trip(s),
        ItemV::Reward(s) => lemma_reward_round_trip(s),
        ItemV::Staking(s) => lemma_staking_round_trip(s),
        ItemV::Perp(s) => lemma_perp_round_trip(s),
        ItemV::ContractCreation(s) => lemma_contract_creation_round_trip(s),
        ItemV::NftLiquidation(s) => lemma_nft_liquidation_round_trip(s),
        ItemV::OptionEvent(s) => lemma_option_type_round_trip(s),
        ItemV::NftSweep(s) => {},
    }
}

} // verus!
