//! The ordered structural decoder for feed items.
//!
//! The wire format carries no tag that tells one record shape from another:
//! a record is recognised by which members it carries. Each shape names a
//! fixed set of mandatory members; an object is decoded as the first shape,
//! in a fixed order, whose mandatory members are all present with the right
//! types. The order is significant: a shape whose mandatory members include
//! another shape's full mandatory set must be tried first, or its records
//! would be claimed by the smaller shape. For that reason `flashloan` is
//! tried before `reward`, whose mandatory members it contains. The shapes of
//! `nft_trade` and `nft_sweep` name the same members, so a sweep record is
//! indistinguishable from a trade record and decodes as the latter.
//!
//! An object that matches no shape decodes to nothing; the caller treats
//! that as a failure of the whole response, never as a partial result.

use vstd::prelude::*;
use crate::json::{JsonNumber, JsonValue, JsonVal, view_pairs};
use crate::fields::{
    spec_str_field, spec_u64_field, spec_u32_field, spec_bool_field, spec_num_field,
    spec_opt_str_field, spec_opt_u64_field, spec_opt_num_field, spec_mc_field,
    str_field, u64_field, u32_field, bool_field, num_field,
    opt_str_field, opt_u64_field, opt_num_field, mc_field,
};
use crate::models::feed::{
    Swap, SwapV, Lp, LpV, Transfer, TransferV, Lending, LendingV, NftMint, NftMintV, NftTrade,
    NftTradeV, NftTransfer, NftTransferV, NftLending, NftLendingV, Bridge, BridgeV,
    ContractInteraction, ContractInteractionV, Wrap, WrapV, SudoPool, SudoPoolV, Reward,
    RewardV, Staking, StakingV, Perp, PerpV, Flashloan, FlashloanV, ContractCreation,
    ContractCreationV, NftLiquidation, NftLiquidationV, OptionType, OptionTypeV, NftSweep,
    NftSweepV, Item, ItemV, TokenMarketCap, TokenMarketCapV,
};

verus! {

/// Decode of a `swap` record from an object's members.
pub open spec fn spec_decode_swap(o: Seq<(Seq<char>, JsonVal)>) -> Option<
    SwapV,
> {
    let wallet = spec_str_field(o, "wallet"@);
    let wallet_label = spec_str_field(o, "wallet_label"@);
    let tx_hash = spec_str_field(o, "tx_hash"@);
    let tx_type = spec_str_field(o, "tx_type"@);
    let chain = spec_str_field(o, "chain"@);
    let index = spec_u32_field(o, "index"@);
    let timestamp = spec_u64_field(o, "timestamp"@);
    let block = spec_u64_field(o, "block"@);
    let dex = spec_str_field(o, "dex"@);
    let from = spec_str_field(o, "from"@);
    let to = spec_str_field(o, "to"@);
    let token0_address = spec_str_field(o, "token0_address"@);
    let token0_amount = spec_num_field(o, "token0_amount"@);
    let token0_amount_usd = spec_num_field(o, "token0_amount_usd"@);
    let token0_name = spec_str_field(o, "token0_name"@);
    let token0_price_usd = spec_num_field(o, "token0_price_usd"@);
    let token0_symbol = spec_str_field(o, "token0_symbol"@);
    let token0_icon_link = spec_str_field(o, "token0_icon_link"@);
    let token1_address = spec_str_field(o, "token1_address"@);
    let token1_amount = spec_num_field(o, "token1_amount"@);
    let token1_amount_usd = spec_num_field(o, "token1_amount_usd"@);
    let token1_name = spec_str_field(o, "token1_name"@);
    let token1_price_usd = spec_num_field(o, "token1_price_usd"@);
    let token1_symbol = spec_str_field(o, "token1_symbol"@);
    let token1_icon_link = spec_str_field(o, "token1_icon_link"@);
    let first_interaction = spec_bool_field(o, "first_interaction"@);
    let token_market_cap = spec_mc_field(o, "token_market_cap"@);
    if wallet is Some && wallet_label is Some && tx_hash is Some && tx_type is Some && chain is Some && index is Some && timestamp is Some && block is Some && dex is Some && from is Some && to is Some && token0_address is Some && token0_amount is Some && token0_amount_usd is Some && token0_name is Some && token0_price_usd is Some && token0_symbol is Some && token0_icon_link is Some && token1_address is Some && token1_amount is Some && token1_amount_usd is Some && token1_name is Some && token1_price_usd is Some && token1_symbol is Some && token1_icon_link is Some && first_interaction is Some && token_market_cap is Some {
        Some(SwapV {
            wallet: wallet->Some_0,
            wallet_label: wallet_label->Some_0,
            tx_hash: tx_hash->Some_0,
            tx_type: tx_type->Some_0,
            chain: chain->Some_0,
            index: index->Some_0,
            timestamp: timestamp->Some_0,
            block: block->Some_0,
            dex: dex->Some_0,
            from: from->Some_0,
            to: to->Some_0,
            token0_address: token0_address->Some_0,
            token0_amount: token0_amount->Some_0,
            token0_amount_usd: token0_amount_usd->Some_0,
            token0_name: token0_name->Some_0,
            token0_price_usd: token0_price_usd->Some_0,
            token0_symbol: token0_symbol->Some_0,
            token0_icon_link: token0_icon_link->Some_0,
            token1_address: token1_address->Some_0,
            token1_amount: token1_amount->Some_0,
            token1_amount_usd: token1_amount_usd->Some_0,
            token1_name: token1_name->Some_0,
            token1_price_usd: token1_price_usd->Some_0,
            token1_symbol: token1_symbol->Some_0,
            token1_icon_link: token1_icon_link->Some_0,
            first_interaction: first_interaction->Some_0,
            token_market_cap: token_market_cap->Some_0,
        })
    } else {
        None
    }
}

/// Decodes a `swap` record from an object's members.
pub fn decode_swap(members: &Vec<(String, JsonValue)>) -> (r: Option<Swap>)
    ensures
        match r {
            Some(x) => spec_decode_swap(view_pairs(*members, 0)) == Some(x@),
            None => spec_decode_swap(view_pairs(*members, 0)) is None,
        },
{
    let wallet = match str_field(members, "wallet") {
        Some(v) => v,
        None => {
            return None;
        },
    };
    let wallet_label = match str_field(members, "wallet_label") {
        Some(v) => v,
        None => {
            return None;
        },
    };
    let tx_hash = match str_field(members, "tx_hash") {
        Some(v) => v,
        None => {
            return None;
        },
    };
    let tx_type = match str_field(members, "tx_type") {
        Some(v) => v,
        None => {
            return None;
        },
    };
    let chain = match str_field(members, "chain") {
        Some(v) => v,
        None => {
            return None;
        },
    };
    let index = match u32_field(members, "index") {
        Some(v) => v,
        None => {
            return None;
        },
    };
    let timestamp = match u64_field(members, "timestamp") {
        Some(v) => v,
        None => {
            return None;
        },
    };
    let block = match u64_field(members, "block") {
        Some(v) => v,
        None => {
            return None;
        },
    };
    let dex = match str_field(members, "dex") {
        Some(v) => v,
        None => {
            return None;
        },
    };
    let from = match str_field(members, "from") {
        Some(v) => v,
        None => {
            return None;
        },
    };
    let to = match str_field(members, "to") {
        Some(v) => v,
        None => {
            return None;
        },
    };
    let token0_address = match str_field(members, "token0_address") {
        Some(v) => v,
        None => {
            return None;
        },
    };
    let token0_amount = match num_field(members, "token0_amount") {
        Some(v) => v,
        None => {
            return None;
        },
    };
    let token0_amount_usd = match num_field(members, "token0_amount_usd") {
        Some(v) => v,
        None => {
            return None;
        },
    };
    let token0_name = match str_field(members, "token0_name") {
        Some(v) => v,
        None => {
            return None;
        },
    };
    let token0_price_usd = match num_field(members, "token0_price_usd") {
        Some(v) => v,
        None => {
            return None;
        },
    };
    let token0_symbol = match str_field(members, "token0_symbol") {
        Some(v) => v,
        None => {
            return None;
        },
    };
    let token0_icon_link = match str_field(members, "token0_icon_link") {
        Some(v) => v,
        None => {
            return None;
        },
    };
    let token1_address = match str_field(members, "token1_address") {
        Some(v) => v,
        None => {
            return None;
        },
    };
    let token1_amount = match num_field(members, "token1_amount") {
        Some(v) => v,
        None => {
            return None;
        },
    };
    let token1_amount_usd = match num_field(members, "token1_amount_usd") {
        Some(v) => v,
        None => {
            return None;
        },
    };
    let token1_name = match str_field(members, "token1_name") {
        Some(v) => v,
        None => {
            return None;
        },
    };
    let token1_price_usd = match num_field(members, "token1_price_usd") {
        Some(v) => v,
        None => {
            return None;
        },
    };
    let token1_symbol = match str_field(members, "token1_symbol") {
        Some(v) => v,
        None => {
            return None;
        },
    };
    let token1_icon_link = match str_field(members, "token1_icon_link") {
        Some(v) => v,
        None => {
            return None;
        },
    };
    let first_interaction = match bool_field(members, "first_interaction") {
        Some(v) => v,
        None => {
            return None;
        },
    };
    let token_market_cap = match mc_field(members, "token_market_cap") {
        Some(v) => v,
        None => {
            return None;
        },
    };
    Some(Swap {
        wallet,
        wallet_label,
        tx_hash,
        tx_type,
        chain,
        index,
        timestamp,
        block,
        dex,
        from,
        to,
        token0_address,
        token0_amount,
        token0_amount_usd,
        token0_name,
        token0_price_usd,
        token0_symbol,
        token0_icon_link,
        token1_address,
        token1_amount,
        token1_amount_usd,
        token1_name,
        token1_price_usd,
        token1_symbol,
        token1_icon_link,
        first_interaction,
        token_market_cap,
    })
}

/// Decode of a `lp` record from an object's members.
pub open spec fn spec_decode_lp(o: Seq<(Seq<char>, JsonVal)>) -> Option<
    LpV,
> {
    let wallet = spec_str_field(o, "wallet"@);
    let wallet_label = spec_str_field(o, "wallet_label"@);
    let tx_hash = spec_str_field(o, "tx_hash"@);
    let tx_type = spec_str_field(o, "tx_type"@);
    let chain = spec_str_field(o, "chain"@);
    let index = spec_u32_field(o, "index"@);
    let timestamp = spec_u64_field(o, "timestamp"@);
    let block = spec_u64_field(o, "block"@);
    let dex = spec_str_field(o, "dex"@);
    let from = spec_str_field(o, "from"@);
    let type_field = spec_str_field(o, "type"@);
    let token0_address = spec_str_field(o, "token0_address"@);
    let token0_amount = spec_num_field(o, "token0_amount"@);
    let token0_amount_usd = spec_num_field(o, "token0_amount_usd"@);
    let token0_name = spec_str_field(o, "token0_name"@);
    let token0_price_usd = spec_num_field(o, "token0_price_usd"@);
    let token0_symbol = spec_str_field(o, "token0_symbol"@);
    let token0_icon_link = spec_str_field(o, "token0_icon_link"@);
    let token1_address = spec_str_field(o, "token1_address"@);
    let token1_amount = spec_num_field(o, "token1_amount"@);
    let token1_amount_usd = spec_num_field(o, "token1_amount_usd"@);
    let token1_name = spec_str_field(o, "token1_name"@);
    let token1_price_usd = spec_num_field(o, "token1_price_usd"@);
    let token1_symbol = spec_str_field(o, "token1_symbol"@);
    let token1_icon_link = spec_str_field(o, "token1_icon_link"@);
    let lower_bound = spec_num_field(o, "lower_bound"@);
    let upper_bound = spec_num_field(o, "upper_bound"@);
    if wallet is Some && wallet_label is Some && tx_hash is Some && tx_type is Some && chain is Some && index is Some && timestamp is Some && block is Some && dex is Some && from is Some && type_field is Some && token0_address is Some && token0_amount is Some && token0_amount_usd is Some && token0_name is Some && token0_price_usd is Some && token0_symbol is Some && token0_icon_link is Some && token1_address is Some && token1_amount is Some && token1_amount_usd is Some && token1_name is Some && token1_price_usd is Some && token1_symbol is Some && token1_icon_link is Some && lower_bound is Some && upper_bound is Some {
        Some(LpV {
            wallet: wallet->Some_0,
            wallet_label: wallet_label->Some_0,
            tx_hash: tx_hash->Some_0,
            tx_type: tx_type->Some_0,
            chain: chain->Some_0,
            index: index->Some_0,
            timestamp: timestamp->Some_0,
            block: block->Some_0,
            dex: dex->Some_0,
            from: from->Some_0,
            type_field: type_field->Some_0,
            token0_address: token0_address->Some_0,
            token0_amount: token0_amount->Some_0,
            token0_amount_usd: token0_amount_usd->Some_0,
            token0_name: token0_name->Some_0,
            token0_price_usd: token0_price_usd->Some_0,
            token0_symbol: token0_symbol->Some_0,
            token0_icon_link: token0_icon_link->Some_0,
            token1_address: token1_address->Some_0,
            token1_amount: token1_amount->Some_0,
            token1_amount_usd: token1_amount_usd->Some_0,
            token1_name: token1_name->Some_0,
            token1_price_usd: token1_price_usd->Some_0,
            token1_symbol: token1_symbol->Some_0,
            token1_icon_link: token1_icon_link->Some_0,
            lower_bound: lower_bound->Some_0,
            upper_bound: upper_bound->Some_0,
        })
    } else {
        None
    }
}

/// Decodes a `lp` record from an object's members.
pub fn decode_lp(members: &Vec<(String, JsonValue)>) -> (r: Option<Lp>)
    ensures
        match r {
            Some(x) => spec_decode_lp(view_pairs(*members, 0)) == Some(x@),
            None => spec_decode_lp(view_pairs(*members, 0)) is None,
        },
{
    let wallet = match str_field(members, "wallet") {
        Some(v) => v,
        None => {
            return None;
        },
    };
    let wallet_label = match str_field(members, "wallet_label") {
        Some(v) => v,
        None => {
            return None;
        },
    };
    let tx_hash = match str_field(members, "tx_hash") {
        Some(v) => v,
        None => {
            return None;
        },
    };
    let tx_type = match str_field(members, "tx_type") {
        Some(v) => v,
        None => {
            return None;
        },
    };
    let chain = match str_field(members, "chain") {
        Some(v) => v,
        None => {
            return None;
        },
    };
    let index = match u32_field(members, "index") {
        Some(v) => v,
        None => {
            return None;
        },
    };
    let timestamp = match u64_field(members, "timestamp") {
        Some(v) => v,
        None => {
            return None;
        },
    };
    let block = match u64_field(members, "block") {
        Some(v) => v,
        None => {
            return None;
        },
    };
    let dex = match str_field(members, "dex") {
        Some(v) => v,
        None => {
            return None;
        },
    };
    let from = match str_field(members, "from") {
        Some(v) => v,
        None => {
            return None;
        },
    };
    let type_field = match str_field(members, "type") {
        Some(v) => v,
        None => {
            return None;
        },
    };
    let token0_address = match str_field(members, "token0_address") {
        Some(v) => v,
        None => {
            return None;
        },
    };
    let token0_amount = match num_field(members, "token0_amount") {
        Some(v) => v,
        None => {
            return None;
        },
    };
    let token0_amount_usd = match num_field(members, "token0_amount_usd") {
        Some(v) => v,
        None => {
            return None;
        },
    };
    let token0_name = match str_field(members, "token0_name") {
        Some(v) => v,
        None => {
            return None;
        },
    };
    let token0_price_usd = match num_field(members, "token0_price_usd") {
        Some(v) => v,
        None => {
            return None;
        },
    };
    let token0_symbol = match str_field(members, "token0_symbol") {
        Some(v) => v,
        None => {
            return None;
        },
    };
    let token0_icon_link = match str_field(members, "token0_icon_link") {
        Some(v) => v,
        None => {
            return None;
        },
    };
    let token1_address = match str_field(members, "token1_address") {
        Some(v) => v,
        None => {
            return None;
        },
    };
    let token1_amount = match num_field(members, "token1_amount") {
        Some(v) => v,
        None => {
            return None;
        },
    };
    let token1_amount_usd = match num_field(members, "token1_amount_usd") {
        Some(v) => v,
        None => {
            return None;
        },
    };
    let token1_name = match str_field(members, "token1_name") {
        Some(v) => v,
        None => {
            return None;
        },
    };
    let token1_price_usd = match num_field(members, "token1_price_usd") {
        Some(v) => v,
        None => {
            return None;
        },
    };
    let token1_symbol = match str_field(members, "token1_symbol") {
        Some(v) => v,
        None => {
            return None;
        },
    };
    let token1_icon_link = match str_field(members, "token1_icon_link") {
        Some(v) => v,
        None => {
            return None;
        },
    };
    let lower_bound = match num_field(members, "lower_bound") {
        Some(v) => v,
        None => {
            return None;
        },
    };
    let upper_bound = match num_field(members, "upper_bound") {
        Some(v) => v,
        None => {
            return None;
        },
    };
    Some(Lp {
        wallet,
        wallet_label,
        tx_hash,
        tx_type,
        chain,
        index,
        timestamp,
        block,
        dex,
        from,
        type_field,
        token0_address,
        token0_amount,
        token0_amount_usd,
        token0_name,
        token0_price_usd,
        token0_symbol,
        token0_icon_link,
        token1_address,
        token1_amount,
        token1_amount_usd,
        token1_name,
        token1_price_usd,
        token1_symbol,
        token1_icon_link,
        lower_bound,
        upper_bound,
    })
}

/// Decode of a `transfer` record from an object's members.
pub open spec fn spec_decode_transfer(o: Seq<(Seq<char>, JsonVal)>) -> Option<
    TransferV,
> {
    let wallet = spec_str_field(o, "wallet"@);
    let wallet_label = spec_str_field(o, "wallet_label"@);
    let tx_hash = spec_str_field(o, "tx_hash"@);
    let tx_type = spec_str_field(o, "tx_type"@);
    let chain = spec_str_field(o, "chain"@);
    let index = spec_u32_field(o, "index"@);
    let timestamp = spec_u64_field(o, "timestamp"@);
    let block = spec_u64_field(o, "block"@);
    let from = spec_str_field(o, "from"@);
    let to = spec_str_field(o, "to"@);
    let from_label = spec_str_field(o, "from_label"@);
    let to_label = spec_str_field(o, "to_label"@);
    let amount_usd = spec_num_field(o, "amount_usd"@);
    let contract_address = spec_str_field(o, "contract_address"@);
    let name = spec_str_field(o, "name"@);
    let symbol = spec_str_field(o, "symbol"@);
    let token_price_usd = spec_num_field(o, "token_price_usd"@);
    let type_field = spec_str_field(o, "type"@);
    let token_icon_link = spec_str_field(o, "token_icon_link"@);
    let token_market_cap = spec_mc_field(o, "token_market_cap"@);
    if wallet is Some && wallet_label is Some && tx_hash is Some && tx_type is Some && chain is Some && index is Some && timestamp is Some && block is Some && from is Some && to is Some && from_label is Some && to_label is Some && amount_usd is Some && contract_address is Some && name is Some && symbol is Some && token_price_usd is Some && type_field is Some && token_icon_link is Some && token_market_cap is Some {
        Some(TransferV {
            wallet: wallet->Some_0,
            wallet_label: wallet_label->Some_0,
            tx_hash: tx_hash->Some_0,
            tx_type: tx_type->Some_0,
            chain: chain->Some_0,
            index: index->Some_0,
            timestamp: timestamp->Some_0,
            block: block->Some_0,
            from: from->Some_0,
            to: to->Some_0,
            from_label: from_label->Some_0,
            to_label: to_label->Some_0,
            amount_usd: amount_usd->Some_0,
            contract_address: contract_address->Some_0,
            name: name->Some_0,
            symbol: symbol->Some_0,
            token_price_usd: token_price_usd->Some_0,
            type_field: type_field->Some_0,
            token_icon_link: token_icon_link->Some_0,
            token_market_cap: token_market_cap->Some_0,
        })
    } else {
        None
    }
}

/// Decodes a `transfer` record from an object's members.
pub fn decode_transfer(members: &Vec<(String, JsonValue)>) -> (r: Option<Transfer>)
    ensures
        match r {
            Some(x) => spec_decode_transfer(view_pairs(*members, 0)) == Some(x@),
            None => spec_decode_transfer(view_pairs(*members, 0)) is None,
        },
{
    let wallet = match str_field(members, "wallet") {
        Some(v) => v,
        None => {
            return None;
        },
    };
    let wallet_label = match str_field(members, "wallet_label") {
        Some(v) => v,
        None => {
            return None;
        },
    };
    let tx_hash = match str_field(members, "tx_hash") {
        Some(v) => v,
        None => {
            return None;
        },
    };
    let tx_type = match str_field(members, "tx_type") {
        Some(v) => v,
        None => {
            return None;
        },
    };
    let chain = match str_field(members, "chain") {
        Some(v) => v,
        None => {
            return None;
        },
    };
    let index = match u32_field(members, "index") {
        Some(v) => v,
        None => {
            return None;
        },
    };
    let timestamp = match u64_field(members, "timestamp") {
        Some(v) => v,
        None => {
            return None;
        },
    };
    let block = match u64_field(members, "block") {
        Some(v) => v,
        None => {
            return None;
        },
    };
    let from = match str_field(members, "from") {
        Some(v) => v,
        None => {
            return None;
        },
    };
    let to = match str_field(members, "to") {
        Some(v) => v,
        None => {
            return None;
        },
    };
    let from_label = match str_field(members, "from_label") {
        Some(v) => v,
        None => {
            return None;
        },
    };
    let to_label = match str_field(members, "to_label") {
        Some(v) => v,
        None => {
            return None;
        },
    };
    let amount_usd = match num_field(members, "amount_usd") {
        Some(v) => v,
        None => {
            return None;
        },
    };
    let contract_address = match str_field(members, "contract_address") {
        Some(v) => v,
        None => {
            return None;
        },
    };
    let name = match str_field(members, "name") {
        Some(v) => v,
        None => {
            return None;
        },
    };
    let symbol = match str_field(members, "symbol") {
        Some(v) => v,
        None => {
            return None;
        },
    };
    let token_price_usd = match num_field(members, "token_price_usd") {
        Some(v) => v,
        None => {
            return None;
        },
    };
    let type_field = match str_field(members, "type") {
        Some(v) => v,
        None => {
            return None;
        },
    };
    let token_icon_link = match str_field(members, "token_icon_link") {
        Some(v) => v,
        None => {
            return None;
        },
    };
    let token_market_cap = match mc_field(members, "token_market_cap") {
        Some(v) => v,
        None => {
            return None;
        },
    };
    Some(Transfer {
        wallet,
        wallet_label,
        tx_hash,
        tx_type,
        chain,
        index,
        timestamp,
        block,
        from,
        to,
        from_label,
        to_label,
        amount_usd,
        contract_address,
        name,
        symbol,
        token_price_usd,
        type_field,
        token_icon_link,
        token_market_cap,
    })
}

/// Decode of a `lending` record from an object's members.
pub open spec fn spec_decode_lending(o: Seq<(Seq<char>, JsonVal)>) -> Option<
    LendingV,
> {
    let wallet = spec_str_field(o, "wallet"@);
    let wallet_label = spec_str_field(o, "wallet_label"@);
    let tx_hash = spec_str_field(o, "tx_hash"@);
    let tx_type = spec_str_field(o, "tx_type"@);
    let chain = spec_str_field(o, "chain"@);
    let index = spec_u32_field(o, "index"@);
    let timestamp = spec_u64_field(o, "timestamp"@);
    let block = spec_u64_field(o, "block"@);
    let from = spec_str_field(o, "from"@);
    let from_label = spec_str_field(o, "from_label"@);
    let action = spec_str_field(o, "action"@);
    let address = spec_str_field(o, "address"@);
    let amount = spec_num_field(o, "amount"@);
    let amount_usd = spec_num_field(o, "amount_usd"@);
    let dex = spec_str_field(o, "dex"@);
    let health_factor = spec_num_field(o, "health_factor"@);
    let name = spec_str_field(o, "name"@);
    let platform = spec_str_field(o, "platform"@);
    let price_usd = spec_num_field(o, "price_usd"@);
    let symbol = spec_str_field(o, "symbol"@);
    let token_icon_link = spec_str_field(o, "token_icon_link"@);
    if wallet is Some && wallet_label is Some && tx_hash is Some && tx_type is Some && chain is Some && index is Some && timestamp is Some && block is Some && from is Some && from_label is Some && action is Some && address is Some && amount is Some && amount_usd is Some && dex is Some && health_factor is Some && name is Some && platform is Some && price_usd is Some && symbol is Some && token_icon_link is Some {
        Some(LendingV {
            wallet: wallet->Some_0,
            wallet_label: wallet_label->Some_0,
            tx_hash: tx_hash->Some_0,
            tx_type: tx_type->Some_0,
            chain: chain->Some_0,
            index: index->Some_0,
            timestamp: timestamp->Some_0,
            block: block->Some_0,
            from: from->Some_0,
            from_label: from_label->Some_0,
            action: action->Some_0,
            address: address->Some_0,
            amount: amount->Some_0,
            amount_usd: amount_usd->Some_0,
            dex: dex->Some_0,
            health_factor: health_factor->Some_0,
            name: name->Some_0,
            platform: platform->Some_0,
            price_usd: price_usd->Some_0,
            symbol: symbol->Some_0,
            token_icon_link: token_icon_link->Some_0,
        })
    } else {
        None
    }
}

/// Decodes a `lending` record from an object's members.
pub fn decode_lending(members: &Vec<(String, JsonValue)>) -> (r: Option<Lending>)
    ensures
        match r {
            Some(x) => spec_decode_lending(view_pairs(*members, 0)) == Some(x@),
            None => spec_decode_lending(view_pairs(*members, 0)) is None,
        },
{
    let wallet = match str_field(members, "wallet") {
        Some(v) => v,
        None => {
            return None;
        },
    };
    let wallet_label = match str_field(members, "wallet_label") {
        Some(v) => v,
        None => {
            return None;
        },
    };
    let tx_hash = match str_field(members, "tx_hash") {
        Some(v) => v,
        None => {
            return None;
        },
    };
    let tx_type = match str_field(members, "tx_type") {
        Some(v) => v,
        None => {
            return None;
        },
    };
    let chain = match str_field(members, "chain") {
        Some(v) => v,
        None => {
            return None;
        },
    };
    let index = match u32_field(members, "index") {
        Some(v) => v,
        None => {
            return None;
        },
    };
    let timestamp = match u64_field(members, "timestamp") {
        Some(v) => v,
        None => {
            return None;
        },
    };
    let block = match u64_field(members, "block") {
        Some(v) => v,
        None => {
            return None;
        },
    };
    let from = match str_field(members, "from") {
        Some(v) => v,
        None => {
            return None;
        },
    };
    let from_label = match str_field(members, "from_label") {
        Some(v) => v,
        None => {
            return None;
        },
    };
    let action = match str_field(members, "action") {
        Some(v) => v,
        None => {
            return None;
        },
    };
    let address = match str_field(members, "address") {
        Some(v) => v,
        None => {
            return None;
        },
    };
    let amount = match num_field(members, "amount") {
        Some(v) => v,
        None => {
            return None;
        },
    };
    let amount_usd = match num_field(members, "amount_usd") {
        Some(v) => v,
        None => {
            return None;
        },
    };
    let dex = match str_field(members, "dex") {
        Some(v) => v,
        None => {
            return None;
        },
    };
    let health_factor = match num_field(members, "health_factor") {
        Some(v) => v,
        None => {
            return None;
        },
    };
    let name = match str_field(members, "name") {
        Some(v) => v,
        None => {
            return None;
        },
    };
    let platform = match str_field(members, "platform") {
        Some(v) => v,
        None => {
            return None;
        },
    };
    let price_usd = match num_field(members, "price_usd") {
        Some(v) => v,
        None => {
            return None;
        },
    };
    let symbol = match str_field(members, "symbol") {
        Some(v) => v,
        None => {
            return None;
        },
    };
    let token_icon_link = match str_field(members, "token_icon_link") {
        Some(v) => v,
        None => {
            return None;
        },
    };
    Some(Lending {
        wallet,
        wallet_label,
        tx_hash,
        tx_type,
        chain,
        index,
        timestamp,
        block,
        from,
        from_label,
        action,
        address,
        amount,
        amount_usd,
        dex,
        health_factor,
        name,
        platform,
        price_usd,
        symbol,
        token_icon_link,
    })
}

/// Decode of a `nft_mint` record from an object's members.
pub open spec fn spec_decode_nft_mint(o: Seq<(Seq<char>, JsonVal)>) -> Option<
    NftMintV,
> {
    let wallet = spec_str_field(o, "wallet"@);
    let wallet_label = spec_str_field(o, "wallet_label"@);
    let tx_hash = spec_str_field(o, "tx_hash"@);
    let tx_type = spec_str_field(o, "tx_type"@);
    let chain = spec_str_field(o, "chain"@);
    let index = spec_u32_field(o, "index"@);
    let timestamp = spec_u64_field(o, "timestamp"@);
    let block = spec_u64_field(o, "block"@);
    let from = spec_str_field(o, "from"@);
    let to = spec_str_field(o, "to"@);
    let from_label = spec_str_field(o, "from_label"@);
    let to_label = spec_str_field(o, "to_label"@);
    let thumbnail = spec_str_field(o, "thumbnail"@);
    let image = spec_str_field(o, "image"@);
    let amount = spec_num_field(o, "amount"@);
    let contract_address = spec_str_field(o, "contract_address"@);
    let contract_type = spec_str_field(o, "contract_type"@);
    let fee = spec_num_field(o, "fee"@);
    let nft_name = spec_str_field(o, "nft_name"@);
    let nft_symbol = spec_str_field(o, "nft_symbol"@);
    let nft_token_id = spec_str_field(o, "nft_token_id"@);
    let currency_symbol = spec_str_field(o, "currency_symbol"@);
    let type_field = spec_str_field(o, "type"@);
    let value = spec_num_field(o, "value"@);
    let value_usd = spec_num_field(o, "value_usd"@);
    if wallet is Some && wallet_label is Some && tx_hash is Some && tx_type is Some && chain is Some && index is Some && timestamp is Some && block is Some && from is Some && to is Some && from_label is Some && to_label is Some && thumbnail is Some && image is Some && amount is Some && contract_address is Some && contract_type is Some && fee is Some && nft_name is Some && nft_symbol is Some && nft_token_id is Some && currency_symbol is Some && type_field is Some && value is Some && value_usd is Some {
        Some(NftMintV {
            wallet: wallet->Some_0,
            wallet_label: wallet_label->Some_0,
            tx_hash: tx_hash->Some_0,
            tx_type: tx_type->Some_0,
            chain: chain->Some_0,
            index: index->Some_0,
            timestamp: timestamp->Some_0,
            block: block->Some_0,
            from: from->Some_0,
            to: to->Some_0,
            from_label: from_label->Some_0,
            to_label: to_label->Some_0,
            thumbnail: thumbnail->Some_0,
            image: image->Some_0,
            amount: amount->Some_0,
            contract_address: contract_address->Some_0,
            contract_type: contract_type->Some_0,
            fee: fee->Some_0,
            nft_name: nft_name->Some_0,
            nft_symbol: nft_symbol->Some_0,
            nft_token_id: nft_token_id->Some_0,
            currency_symbol: currency_symbol->Some_0,
            type_field: type_field->Some_0,
            value: value->Some_0,
            value_usd: value_usd->Some_0,
        })
    } else {
        None
    }
}

/// Decodes a `nft_mint` record from an object's members.
pub fn decode_nft_mint(members: &Vec<(String, JsonValue)>) -> (r: Option<NftMint>)
    ensures
        match r {
            Some(x) => spec_decode_nft_mint(view_pairs(*members, 0)) == Some(x@),
            None => spec_decode_nft_mint(view_pairs(*members, 0)) is None,
        },
{
    let wallet = match str_field(members, "wallet") {
        Some(v) => v,
        None => {
            return None;
        },
    };
    let wallet_label = match str_field(members, "wallet_label") {
        Some(v) => v,
        None => {
            return None;
        },
    };
    let tx_hash = match str_field(members, "tx_hash") {
        Some(v) => v,
        None => {
            return None;
        },
    };
    let tx_type = match str_field(members, "tx_type") {
        Some(v) => v,
        None => {
            return None;
        },
    };
    let chain = match str_field(members, "chain") {
        Some(v) => v,
        None => {
            return None;
        },
    };
    let index = match u32_field(members, "index") {
        Some(v) => v,
        None => {
            return None;
        },
    };
    let timestamp = match u64_field(members, "timestamp") {
        Some(v) => v,
        None => {
            return None;
        },
    };
    let block = match u64_field(members, "block") {
        Some(v) => v,
        None => {
            return None;
        },
    };
    let from = match str_field(members, "from") {
        Some(v) => v,
        None => {
            return None;
        },
    };
    let to = match str_field(members, "to") {
        Some(v) => v,
        None => {
            return None;
        },
    };
    let from_label = match str_field(members, "from_label") {
        Some(v) => v,
        None => {
            return None;
        },
    };
    let to_label = match str_field(members, "to_label") {
        Some(v) => v,
        None => {
            return None;
        },
    };
    let thumbnail = match str_field(members, "thumbnail") {
        Some(v) => v,
        None => {
            return None;
        },
    };
    let image = match str_field(members, "image") {
        Some(v) => v,
        None => {
            return None;
        },
    };
    let amount = match num_field(members, "amount") {
        Some(v) => v,
        None => {
            return None;
        },
    };
    let contract_address = match str_field(members, "contract_address") {
        Some(v) => v,
        None => {
            return None;
        },
    };
    let contract_type = match str_field(members, "contract_type") {
        Some(v) => v,
        None => {
            return None;
        },
    };
    let fee = match num_field(members, "fee") {
        Some(v) => v,
        None => {
            return None;
        },
    };
    let nft_name = match str_field(members, "nft_name") {
        Some(v) => v,
        None => {
            return None;
        },
    };
    let nft_symbol = match str_field(members, "nft_symbol") {
        Some(v) => v,
        None => {
            return None;
        },
    };
    let nft_token_id = match str_field(members, "nft_token_id") {
        Some(v) => v,
        None => {
            return None;
        },
    };
    let currency_symbol = match str_field(members, "currency_symbol") {
        Some(v) => v,
        None => {
            return None;
        },
    };
    let type_field = match str_field(members, "type") {
        Some(v) => v,
        None => {
            return None;
        },
    };
    let value = match num_field(members, "value") {
        Some(v) => v,
        None => {
            return None;
        },
    };
    let value_usd = match num_field(members, "value_usd") {
        Some(v) => v,
        None => {
            return None;
        },
    };
    Some(NftMint {
        wallet,
        wallet_label,
        tx_hash,
        tx_type,
        chain,
        index,
        timestamp,
        block,
        from,
        to,
        from_label,
        to_label,
        thumbnail,
        image,
        amount,
        contract_address,
        contract_type,
        fee,
        nft_name,
        nft_symbol,
        nft_token_id,
        currency_symbol,
        type_field,
        value,
        value_usd,
    })
}

/// Decode of a `nft_trade` record from an object's members.
pub open spec fn spec_decode_nft_trade(o: Seq<(Seq<char>, JsonVal)>) -> Option<
    NftTradeV,
> {
    let wallet = spec_str_field(o, "wallet"@);
    let wallet_label = spec_str_field(o, "wallet_label"@);
    let tx_hash = spec_str_field(o, "tx_hash"@);
    let tx_type = spec_str_field(o, "tx_type"@);
    let chain = spec_str_field(o, "chain"@);
    let index = spec_u32_field(o, "index"@);
    let timestamp = spec_u64_field(o, "timestamp"@);
    let block = spec_u64_field(o, "block"@);
    let from = spec_str_field(o, "from"@);
    let to = spec_str_field(o, "to"@);
    let thumbnail = spec_str_field(o, "thumbnail"@);
    let image = spec_str_field(o, "image"@);
    let action = spec_str_field(o, "action"@);
    let contract = spec_str_field(o, "contract"@);
    let marketplace = spec_str_field(o, "marketplace"@);
    let nft_address = spec_str_field(o, "nft_address"@);
    let nft_name = spec_str_field(o, "nft_name"@);
    let nft_symbol = spec_str_field(o, "nft_symbol"@);
    let nft_token_id = spec_str_field(o, "nft_token_id"@);
    let price = spec_num_field(o, "price"@);
    let price_usd = spec_num_field(o, "price_usd"@);
    let profit = spec_num_field(o, "profit"@);
    let currency_symbol = spec_str_field(o, "currency_symbol"@);
    let buyer = spec_str_field(o, "buyer"@);
    let seller = spec_str_field(o, "seller"@);
    let token = spec_str_field(o, "token"@);
    let first_interaction = spec_bool_field(o, "first_interaction"@);
    let bid_accepted = spec_bool_field(o, "bid_accepted"@);
    if wallet is Some && wallet_label is Some && tx_hash is Some && tx_type is Some && chain is Some && index is Some && timestamp is Some && block is Some && from is Some && to is Some && thumbnail is Some && image is Some && action is Some && contract is Some && marketplace is Some && nft_address is Some && nft_name is Some && nft_symbol is Some && nft_token_id is Some && price is Some && price_usd is Some && profit is Some && currency_symbol is Some && buyer is Some && seller is Some && token is Some && first_interaction is Some && bid_accepted is Some {
        Some(NftTradeV {
            wallet: wallet->Some_0,
            wallet_label: wallet_label->Some_0,
            tx_hash: tx_hash->Some_0,
            tx_type: tx_type->Some_0,
            chain: chain->Some_0,
            index: index->Some_0,
            timestamp: timestamp->Some_0,
            block: block->Some_0,
            from: from->Some_0,
            to: to->Some_0,
            thumbnail: thumbnail->Some_0,
            image: image->Some_0,
            action: action->Some_0,
            contract: contract->Some_0,
            marketplace: marketplace->Some_0,
            nft_address: nft_address->Some_0,
            nft_name: nft_name->Some_0,
            nft_symbol: nft_symbol->Some_0,
            nft_token_id: nft_token_id->Some_0,
            price: price->Some_0,
            price_usd: price_usd->Some_0,
            profit: profit->Some_0,
            currency_symbol: currency_symbol->Some_0,
            buyer: buyer->Some_0,
            seller: seller->Some_0,
            token: token->Some_0,
            first_interaction: first_interaction->Some_0,
            bid_accepted: bid_accepted->Some_0,
        })
    } else {
        None
    }
}

/// Decodes a `nft_trade` record from an object's members.
pub fn decode_nft_trade(members: &Vec<(String, JsonValue)>) -> (r: Option<NftTrade>)
    ensures
        match r {
            Some(x) => spec_decode_nft_trade(view_pairs(*members, 0)) == Some(x@),
            None => spec_decode_nft_trade(view_pairs(*members, 0)) is None,
        },
{
    let wallet = match str_field(members, "wallet") {
        Some(v) => v,
        None => {
            return None;
        },
    };
    let wallet_label = match str_field(members, "wallet_label") {
        Some(v) => v,
        None => {
            return None;
        },
    };
    let tx_hash = match str_field(members, "tx_hash") {
        Some(v) => v,
        None => {
            return None;
        },
    };
    let tx_type = match str_field(members, "tx_type") {
        Some(v) => v,
        None => {
            return None;
        },
    };
    let chain = match str_field(members, "chain") {
        Some(v) => v,
        None => {
            return None;
        },
    };
    let index = match u32_field(members, "index") {
        Some(v) => v,
        None => {
            return None;
        },
    };
    let timestamp = match u64_field(members, "timestamp") {
        Some(v) => v,
        None => {
            return None;
        },
    };
    let block = match u64_field(members, "block") {
        Some(v) => v,
        None => {
            return None;
        },
    };
    let from = match str_field(members, "from") {
        Some(v) => v,
        None => {
            return None;
        },
    };
    let to = match str_field(members, "to") {
        Some(v) => v,
        None => {
            return None;
        },
    };
    let thumbnail = match str_field(members, "thumbnail") {
        Some(v) => v,
        None => {
            return None;
        },
    };
    let image = match str_field(members, "image") {
        Some(v) => v,
        None => {
            return None;
        },
    };
    let action = match str_field(members, "action") {
        Some(v) => v,
        None => {
            return None;
        },
    };
    let contract = match str_field(members, "contract") {
        Some(v) => v,
        None => {
            return None;
        },
    };
    let marketplace = match str_field(members, "marketplace") {
        Some(v) => v,
        None => {
            return None;
        },
    };
    let nft_address = match str_field(members, "nft_address") {
        Some(v) => v,
        None => {
            return None;
        },
    };
    let nft_name = match str_field(members, "nft_name") {
        Some(v) => v,
        None => {
            return None;
        },
    };
    let nft_symbol = match str_field(members, "nft_symbol") {
        Some(v) => v,
        None => {
            return None;
        },
    };
    let nft_token_id = match str_field(members, "nft_token_id") {
        Some(v) => v,
        None => {
            return None;
        },
    };
    let price = match num_field(members, "price") {
        Some(v) => v,
        None => {
            return None;
        },
    };
    let price_usd = match num_field(members, "price_usd") {
        Some(v) => v,
        None => {
            return None;
        },
    };
    let profit = match num_field(members, "profit") {
        Some(v) => v,
        None => {
            return None;
        },
    };
    let currency_symbol = match str_field(members, "currency_symbol") {
        Some(v) => v,
        None => {
            return None;
        },
    };
    let buyer = match str_field(members, "buyer") {
        Some(v) => v,
        None => {
            return None;
        },
    };
    let seller = match str_field(members, "seller") {
        Some(v) => v,
        None => {
            return None;
        },
    };
    let token = match str_field(members, "token") {
        Some(v) => v,
        None => {
            return None;
        },
    };
    let first_interaction = match bool_field(members, "first_interaction") {
        Some(v) => v,
        None => {
            return None;
        },
    };
    let bid_accepted = match bool_field(members, "bid_accepted") {
        Some(v) => v,
        None => {
            return None;
        },
    };
    Some(NftTrade {
        wallet,
        wallet_label,
        tx_hash,
        tx_type,
        chain,
        index,
        timestamp,
        block,
        from,
        to,
        thumbnail,
        image,
        action,
        contract,
        marketplace,
        nft_address,
        nft_name,
        nft_symbol,
        nft_token_id,
        price,
        price_usd,
        profit,
        currency_symbol,
        buyer,
        seller,
        token,
        first_interaction,
        bid_accepted,
    })
}

/// Decode of a `nft_transfer` record from an object's members.
pub open spec fn spec_decode_nft_transfer(o: Seq<(Seq<char>, JsonVal)>) -> Option<
    NftTransferV,
> {
    let wallet = spec_str_field(o, "wallet"@);
    let wallet_label = spec_str_field(o, "wallet_label"@);
    let tx_hash = spec_str_field(o, "tx_hash"@);
    let tx_type = spec_str_field(o, "tx_type"@);
    let chain = spec_str_field(o, "chain"@);
    let index = spec_u32_field(o, "index"@);
    let timestamp = spec_u64_field(o, "timestamp"@);
    let block = spec_u64_field(o, "block"@);
    let from = spec_str_field(o, "from"@);
    let to = spec_str_field(o, "to"@);
    let from_label = spec_str_field(o, "from_label"@);
    let to_label = spec_str_field(o, "to_label"@);
    let thumbnail = spec_str_field(o, "thumbnail"@);
    let image = spec_str_field(o, "image"@);
    let contract_address = spec_str_field(o, "contract_address"@);
    let contract_type = spec_str_field(o, "contract_type"@);
    let fee = spec_num_field(o, "fee"@);
    let nft_name = spec_str_field(o, "nft_name"@);
    let nft_symbol = spec_str_field(o, "nft_symbol"@);
    let nft_token_id = spec_str_field(o, "nft_token_id"@);
    let type_field = spec_str_field(o, "type"@);
    let value = spec_num_field(o, "value"@);
    if wallet is Some && wallet_label is Some && tx_hash is Some && tx_type is Some && chain is Some && index is Some && timestamp is Some && block is Some && from is Some && to is Some && from_label is Some && to_label is Some && thumbnail is Some && image is Some && contract_address is Some && contract_type is Some && fee is Some && nft_name is Some && nft_symbol is Some && nft_token_id is Some && type_field is Some && value is Some {
        Some(NftTransferV {
            wallet: wallet->Some_0,
            wallet_label: wallet_label->Some_0,
            tx_hash: tx_hash->Some_0,
            tx_type: tx_type->Some_0,
            chain: chain->Some_0,
            index: index->Some_0,
            timestamp: timestamp->Some_0,
            block: block->Some_0,
            from: from->Some_0,
            to: to->Some_0,
            from_label: from_label->Some_0,
            to_label: to_label->Some_0,
            thumbnail: thumbnail->Some_0,
            image: image->Some_0,
            contract_address: contract_address->Some_0,
            contract_type: contract_type->Some_0,
            fee: fee->Some_0,
            nft_name: nft_name->Some_0,
            nft_symbol: nft_symbol->Some_0,
            nft_token_id: nft_token_id->Some_0,
            type_field: type_field->Some_0,
            value: value->Some_0,
        })
    } else {
        None
    }
}

/// Decodes a `nft_transfer` record from an object's members.
pub fn decode_nft_transfer(members: &Vec<(String, JsonValue)>) -> (r: Option<NftTransfer>)
    ensures
        match r {
            Some(x) => spec_decode_nft_transfer(view_pairs(*members, 0)) == Some(x@),
            None => spec_decode_nft_transfer(view_pairs(*members, 0)) is None,
        },
{
    let wallet = match str_field(members, "wallet") {
        Some(v) => v,
        None => {
            return None;
        },
    };
    let wallet_label = match str_field(members, "wallet_label") {
        Some(v) => v,
        None => {
            return None;
        },
    };
    let tx_hash = match str_field(members, "tx_hash") {
        Some(v) => v,
        None => {
            return None;
        },
    };
    let tx_type = match str_field(members, "tx_type") {
        Some(v) => v,
        None => {
            return None;
        },
    };
    let chain = match str_field(members, "chain") {
        Some(v) => v,
        None => {
            return None;
        },
    };
    let index = match u32_field(members, "index") {
        Some(v) => v,
        None => {
            return None;
        },
    };
    let timestamp = match u64_field(members, "timestamp") {
        Some(v) => v,
        None => {
            return None;
        },
    };
    let block = match u64_field(members, "block") {
        Some(v) => v,
        None => {
            return None;
        },
    };
    let from = match str_field(members, "from") {
        Some(v) => v,
        None => {
            return None;
        },
    };
    let to = match str_field(members, "to") {
        Some(v) => v,
        None => {
            return None;
        },
    };
    let from_label = match str_field(members, "from_label") {
        Some(v) => v,
        None => {
            return None;
        },
    };
    let to_label = match str_field(members, "to_label") {
        Some(v) => v,
        None => {
            return None;
        },
    };
    let thumbnail = match str_field(members, "thumbnail") {
        Some(v) => v,
        None => {
            return None;
        },
    };
    let image = match str_field(members, "image") {
        Some(v) => v,
        None => {
            return None;
        },
    };
    let contract_address = match str_field(members, "contract_address") {
        Some(v) => v,
        None => {
            return None;
        },
    };
    let contract_type = match str_field(members, "contract_type") {
        Some(v) => v,
        None => {
            return None;
        },
    };
    let fee = match num_field(members, "fee") {
        Some(v) => v,
        None => {
            return None;
        },
    };
    let nft_name = match str_field(members, "nft_name") {
        Some(v) => v,
        None => {
            return None;
        },
    };
    let nft_symbol = match str_field(members, "nft_symbol") {
        Some(v) => v,
        None => {
            return None;
        },
    };
    let nft_token_id = match str_field(members, "nft_token_id") {
        Some(v) => v,
        None => {
            return None;
        },
    };
    let type_field = match str_field(members, "type") {
        Some(v) => v,
        None => {
            return None;
        },
    };
    let value = match num_field(members, "value") {
        Some(v) => v,
        None => {
            return None;
        },
    };
    Some(NftTransfer {
        wallet,
        wallet_label,
        tx_hash,
        tx_type,
        chain,
        index,
        timestamp,
        block,
        from,
        to,
        from_label,
        to_label,
        thumbnail,
        image,
        contract_address,
        contract_type,
        fee,
        nft_name,
        nft_symbol,
        nft_token_id,
        type_field,
        value,
    })
}

/// Decode of a `nft_lending` record from an object's members.
pub open spec fn spec_decode_nft_lending(o: Seq<(Seq<char>, JsonVal)>) -> Option<
    NftLendingV,
> {
    let wallet = spec_str_field(o, "wallet"@);
    let wallet_label = spec_str_field(o, "wallet_label"@);
    let tx_hash = spec_str_field(o, "tx_hash"@);
    let tx_type = spec_str_field(o, "tx_type"@);
    let chain = spec_str_field(o, "chain"@);
    let index = spec_u32_field(o, "index"@);
    let timestamp = spec_u64_field(o, "timestamp"@);
    let block = spec_u64_field(o, "block"@);
    let from = spec_str_field(o, "from"@);
    let to = spec_str_field(o, "to"@);
    let from_label = spec_str_field(o, "from_label"@);
    let to_label = spec_str_field(o, "to_label"@);
    let thumbnail = spec_str_field(o, "thumbnail"@);
    let image = spec_str_field(o, "image"@);
    let action = spec_str_field(o, "action"@);
    let currency_address = spec_str_field(o, "currency_address"@);
    let currency_symbol = spec_str_field(o, "currency_symbol"@);
    let interest = spec_num_field(o, "interest"@);
    let nft_address = spec_str_field(o, "nft_address"@);
    let nft_name = spec_str_field(o, "nft_name"@);
    let nft_symbol = spec_str_field(o, "nft_symbol"@);
    let platform = spec_str_field(o, "platform"@);
    let nft_token_id = spec_str_field(o, "nft_token_id"@);
    let price = spec_num_field(o, "price"@);
    let price_usd = spec_num_field(o, "price_usd"@);
    let terms = spec_num_field(o, "terms"@);
    let refinance = spec_bool_field(o, "refinance"@);
    if wallet is Some && wallet_label is Some && tx_hash is Some && tx_type is Some && chain is Some && index is Some && timestamp is Some && block is Some && from is Some && to is Some && from_label is Some && to_label is Some && thumbnail is Some && image is Some && action is Some && currency_address is Some && currency_symbol is Some && interest is Some && nft_address is Some && nft_name is Some && nft_symbol is Some && platform is Some && nft_token_id is Some && price is Some && price_usd is Some && terms is Some && refinance is Some {
        Some(NftLendingV {
            wallet: wallet->Some_0,
            wallet_label: wallet_label->Some_0,
            tx_hash: tx_hash->Some_0,
            tx_type: tx_type->Some_0,
            chain: chain->Some_0,
            index: index->Some_0,
            timestamp: timestamp->Some_0,
            block: block->Some_0,
            from: from->Some_0,
            to: to->Some_0,
            from_label: from_label->Some_0,
            to_label: to_label->Some_0,
            thumbnail: thumbnail->Some_0,
            image: image->Some_0,
            action: action->Some_0,
            currency_address: currency_address->Some_0,
            currency_symbol: currency_symbol->Some_0,
            interest: interest->Some_0,
            nft_address: nft_address->Some_0,
            nft_name: nft_name->Some_0,
            nft_symbol: nft_symbol->Some_0,
            platform: platform->Some_0,
            nft_token_id: nft_token_id->Some_0,
            price: price->Some_0,
            price_usd: price_usd->Some_0,
            terms: terms->Some_0,
            refinance: refinance->Some_0,
        })
    } else {
        None
    }
}

/// Decodes a `nft_lending` record from an object's members.
pub fn decode_nft_lending(members: &Vec<(String, JsonValue)>) -> (r: Option<NftLending>)
    ensures
        match r {
            Some(x) => spec_decode_nft_lending(view_pairs(*members, 0)) == Some(x@),
            None => spec_decode_nft_lending(view_pairs(*members, 0)) is None,
        },
{
    let wallet = match str_field(members, "wallet") {
        Some(v) => v,
        None => {
            return None;
        },
    };
    let wallet_label = match str_field(members, "wallet_label") {
        Some(v) => v,
        None => {
            return None;
        },
    };
    let tx_hash = match str_field(members, "tx_hash") {
        Some(v) => v,
        None => {
            return None;
        },
    };
    let tx_type = match str_field(members, "tx_type") {
        Some(v) => v,
        None => {
            return None;
        },
    };
    let chain = match str_field(members, "chain") {
        Some(v) => v,
        None => {
            return None;
        },
    };
    let index = match u32_field(members, "index") {
        Some(v) => v,
        None => {
            return None;
        },
    };
    let timestamp = match u64_field(members, "timestamp") {
        Some(v) => v,
        None => {
            return None;
        },
    };
    let block = match u64_field(members, "block") {
        Some(v) => v,
        None => {
            return None;
        },
    };
    let from = match str_field(members, "from") {
        Some(v) => v,
        None => {
            return None;
        },
    };
    let to = match str_field(members, "to") {
        Some(v) => v,
        None => {
            return None;
        },
    };
    let from_label = match str_field(members, "from_label") {
        Some(v) => v,
        None => {
            return None;
        },
    };
    let to_label = match str_field(members, "to_label") {
        Some(v) => v,
        None => {
            return None;
        },
    };
    let thumbnail = match str_field(members, "thumbnail") {
        Some(v) => v,
        None => {
            return None;
        },
    };
    let image = match str_field(members, "image") {
        Some(v) => v,
        None => {
            return None;
        },
    };
    let action = match str_field(members, "action") {
        Some(v) => v,
        None => {
            return None;
        },
    };
    let currency_address = match str_field(members, "currency_address") {
        Some(v) => v,
        None => {
            return None;
        },
    };
    let currency_symbol = match str_field(members, "currency_symbol") {
        Some(v) => v,
        None => {
            return None;
        },
    };
    let interest = match num_field(members, "interest") {
        Some(v) => v,
        None => {
            return None;
        },
    };
    let nft_address = match str_field(members, "nft_address") {
        Some(v) => v,
        None => {
            return None;
        },
    };
    let nft_name = match str_field(members, "nft_name") {
        Some(v) => v,
        None => {
            return None;
        },
    };
    let nft_symbol = match str_field(members, "nft_symbol") {
        Some(v) => v,
        None => {
            return None;
        },
    };
    let platform = match str_field(members, "platform") {
        Some(v) => v,
        None => {
            return None;
        },
    };
    let nft_token_id = match str_field(members, "nft_token_id") {
        Some(v) => v,
        None => {
            return None;
        },
    };
    let price = match num_field(members, "price") {
        Some(v) => v,
        None => {
            return None;
        },
    };
    let price_usd = match num_field(members, "price_usd") {
        Some(v) => v,
        None => {
            return None;
        },
    };
    let terms = match num_field(members, "terms") {
        Some(v) => v,
        None => {
            return None;
        },
    };
    let refinance = match bool_field(members, "refinance") {
        Some(v) => v,
        None => {
            return None;
        },
    };
    Some(NftLending {
        wallet,
        wallet_label,
        tx_hash,
        tx_type,
        chain,
        index,
        timestamp,
        block,
        from,
        to,
        from_label,
        to_label,
        thumbnail,
        image,
        action,
        currency_address,
        currency_symbol,
        interest,
        nft_address,
        nft_name,
        nft_symbol,
        platform,
        nft_token_id,
        price,
        price_usd,
        terms,
        refinance,
    })
}

/// Decode of a `bridge` record from an object's members.
pub open spec fn spec_decode_bridge(o: Seq<(Seq<char>, JsonVal)>) -> Option<
    BridgeV,
> {
    let wallet = spec_str_field(o, "wallet"@);
    let wallet_label = spec_str_field(o, "wallet_label"@);
    let tx_hash = spec_str_field(o, "tx_hash"@);
    let tx_type = spec_str_field(o, "tx_type"@);
    let chain = spec_str_field(o, "chain"@);
    let index = spec_u32_field(o, "index"@);
    let timestamp = spec_u64_field(o, "timestamp"@);
    let block = spec_u64_field(o, "block"@);
    let from = spec_str_field(o, "from"@);
    let to = spec_str_field(o, "to"@);
    let from_label = spec_str_field(o, "from_label"@);
    let to_label = spec_str_field(o, "to_label"@);
    let token_address = spec_str_field(o, "token_address"@);
    let token_name = spec_str_field(o, "token_name"@);
    let token_symbol = spec_str_field(o, "token_symbol"@);
    let token_icon_link = spec_str_field(o, "token_icon_link"@);
    let amount = spec_num_field(o, "amount"@);
    let amount_usd = spec_num_field(o, "amount_usd"@);
    let from_chain = spec_str_field(o, "from_chain"@);
    let to_chain = spec_str_field(o, "to_chain"@);
    let platform = spec_str_field(o, "platform"@);
    let price = spec_num_field(o, "price"@);
    let type_field = spec_str_field(o, "type"@);
    if wallet is Some && wallet_label is Some && tx_hash is Some && tx_type is Some && chain is Some && index is Some && timestamp is Some && block is Some && from is Some && to is Some && from_label is Some && to_label is Some && token_address is Some && token_name is Some && token_symbol is Some && token_icon_link is Some && amount is Some && amount_usd is Some && from_chain is Some && to_chain is Some && platform is Some && price is Some && type_field is Some {
        Some(BridgeV {
            wallet: wallet->Some_0,
            wallet_label: wallet_label->Some_0,
            tx_hash: tx_hash->Some_0,
            tx_type: tx_type->Some_0,
            chain: chain->Some_0,
            index: index->Some_0,
            timestamp: timestamp->Some_0,
            block: block->Some_0,
            from: from->Some_0,
            to: to->Some_0,
            from_label: from_label->Some_0,
            to_label: to_label->Some_0,
            token_address: token_address->Some_0,
            token_name: token_name->Some_0,
            token_symbol: token_symbol->Some_0,
            token_icon_link: token_icon_link->Some_0,
            amount: amount->Some_0,
            amount_usd: amount_usd->Some_0,
            from_chain: from_chain->Some_0,
            to_chain: to_chain->Some_0,
            platform: platform->Some_0,
            price: price->Some_0,
            type_field: type_field->Some_0,
        })
    } else {
        None
    }
}

/// Decodes a `bridge` record from an object's members.
pub fn decode_bridge(members: &Vec<(String, JsonValue)>) -> (r: Option<Bridge>)
    ensures
        match r {
            Some(x) => spec_decode_bridge(view_pairs(*members, 0)) == Some(x@),
            None => spec_decode_bridge(view_pairs(*members, 0)) is None,
        },
{
    let wallet = match str_field(members, "wallet") {
        Some(v) => v,
        None => {
            return None;
        },
    };
    let wallet_label = match str_field(members, "wallet_label") {
        Some(v) => v,
        None => {
            return None;
        },
    };
    let tx_hash = match str_field(members, "tx_hash") {
        Some(v) => v,
        None => {
            return None;
        },
    };
    let tx_type = match str_field(members, "tx_type") {
        Some(v) => v,
        None => {
            return None;
        },
    };
    let chain = match str_field(members, "chain") {
        Some(v) => v,
        None => {
            return None;
        },
    };
    let index = match u32_field(members, "index") {
        Some(v) => v,
        None => {
            return None;
        },
    };
    let timestamp = match u64_field(members, "timestamp") {
        Some(v) => v,
        None => {
            return None;
        },
    };
    let block = match u64_field(members, "block") {
        Some(v) => v,
        None => {
            return None;
        },
    };
    let from = match str_field(members, "from") {
        Some(v) => v,
        None => {
            return None;
        },
    };
    let to = match str_field(members, "to") {
        Some(v) => v,
        None => {
            return None;
        },
    };
    let from_label = match str_field(members, "from_label") {
        Some(v) => v,
        None => {
            return None;
        },
    };
    let to_label = match str_field(members, "to_label") {
        Some(v) => v,
        None => {
            return None;
        },
    };
    let token_address = match str_field(members, "token_address") {
        Some(v) => v,
        None => {
            return None;
        },
    };
    let token_name = match str_field(members, "token_name") {
        Some(v) => v,
        None => {
            return None;
        },
    };
    let token_symbol = match str_field(members, "token_symbol") {
        Some(v) => v,
        None => {
            return None;
        },
    };
    let token_icon_link = match str_field(members, "token_icon_link") {
        Some(v) => v,
        None => {
            return None;
        },
    };
    let amount = match num_field(members, "amount") {
        Some(v) => v,
        None => {
            return None;
        },
    };
    let amount_usd = match num_field(members, "amount_usd") {
        Some(v) => v,
        None => {
            return None;
        },
    };
    let from_chain = match str_field(members, "from_chain") {
        Some(v) => v,
        None => {
            return None;
        },
    };
    let to_chain = match str_field(members, "to_chain") {
        Some(v) => v,
        None => {
            return None;
        },
    };
    let platform = match str_field(members, "platform") {
        Some(v) => v,
        None => {
            return None;
        },
    };
    let price = match num_field(members, "price") {
        Some(v) => v,
        None => {
            return None;
        },
    };
    let type_field = match str_field(members, "type") {
        Some(v) => v,
        None => {
            return None;
        },
    };
    Some(Bridge {
        wallet,
        wallet_label,
        tx_hash,
        tx_type,
        chain,
        index,
        timestamp,
        block,
        from,
        to,
        from_label,
        to_label,
        token_address,
        token_name,
        token_symbol,
        token_icon_link,
        amount,
        amount_usd,
        from_chain,
        to_chain,
        platform,
        price,
        type_field,
    })
}

/// Decode of a `contract_interaction` record from an object's members.
pub open spec fn spec_decode_contract_interaction(o: Seq<(Seq<char>, JsonVal)>) -> Option<
    ContractInteractionV,
> {
    let wallet = spec_str_field(o, "wallet"@);
    let wallet_label = spec_str_field(o, "wallet_label"@);
    let tx_hash = spec_str_field(o, "tx_hash"@);
    let tx_type = spec_str_field(o, "tx_type"@);
    let chain = spec_str_field(o, "chain"@);
    let index = spec_u32_field(o, "index"@);
    let timestamp = spec_u64_field(o, "timestamp"@);
    let block = spec_u64_field(o, "block"@);
    let from = spec_str_field(o, "from"@);
    let to = spec_str_field(o, "to"@);
    let contract_address = spec_str_field(o, "contract_address"@);
    let contract_label = spec_str_field(o, "contract_label"@);
    if wallet is Some && wallet_label is Some && tx_hash is Some && tx_type is Some && chain is Some && index is Some && timestamp is Some && block is Some && from is Some && to is Some && contract_address is Some && contract_label is Some {
        Some(ContractInteractionV {
            wallet: wallet->Some_0,
            wallet_label: wallet_label->Some_0,
            tx_hash: tx_hash->Some_0,
            tx_type: tx_type->Some_0,
            chain: chain->Some_0,
            index: index->Some_0,
            timestamp: timestamp->Some_0,
            block: block->Some_0,
            from: from->Some_0,
            to: to->Some_0,
            contract_address: contract_address->Some_0,
            contract_label: contract_label->Some_0,
        })
    } else {
        None
    }
}

/// Decodes a `contract_interaction` record from an object's members.
pub fn decode_contract_interaction(members: &Vec<(String, JsonValue)>) -> (r: Option<ContractInteraction>)
    ensures
        match r {
            Some(x) => spec_decode_contract_interaction(view_pairs(*members, 0)) == Some(x@),
            None => spec_decode_contract_interaction(view_pairs(*members, 0)) is None,
        },
{
    let wallet = match str_field(members, "wallet") {
        Some(v) => v,
        None => {
            return None;
        },
    };
    let wallet_label = match str_field(members, "wallet_label") {
        Some(v) => v,
        None => {
            return None;
        },
    };
    let tx_hash = match str_field(members, "tx_hash") {
        Some(v) => v,
        None => {
            return None;
        },
    };
    let tx_type = match str_field(members, "tx_type") {
        Some(v) => v,
        None => {
            return None;
        },
    };
    let chain = match str_field(members, "chain") {
        Some(v) => v,
        None => {
            return None;
        },
    };
    let index = match u32_field(members, "index") {
        Some(v) => v,
        None => {
            return None;
        },
    };
    let timestamp = match u64_field(members, "timestamp") {
        Some(v) => v,
        None => {
            return None;
        },
    };
    let block = match u64_field(members, "block") {
        Some(v) => v,
        None => {
            return None;
        },
    };
    let from = match str_field(members, "from") {
        Some(v) => v,
        None => {
            return None;
        },
    };
    let to = match str_field(members, "to") {
        Some(v) => v,
        None => {
            return None;
        },
    };
    let contract_address = match str_field(members, "contract_address") {
        Some(v) => v,
        None => {
            return None;
        },
    };
    let contract_label = match str_field(members, "contract_label") {
        Some(v) => v,
        None => {
            return None;
        },
    };
    Some(ContractInteraction {
        wallet,
        wallet_label,
        tx_hash,
        tx_type,
        chain,
        index,
        timestamp,
        block,
        from,
        to,
        contract_address,
        contract_label,
    })
}

/// Decode of a `wrap` record from an object's members.
pub open spec fn spec_decode_wrap(o: Seq<(Seq<char>, JsonVal)>) -> Option<
    WrapV,
> {
    let wallet = spec_str_field(o, "wallet"@);
    let wallet_label = spec_str_field(o, "wallet_label"@);
    let tx_hash = spec_str_field(o, "tx_hash"@);
    let tx_type = spec_str_field(o, "tx_type"@);
    let chain = spec_str_field(o, "chain"@);
    let index = spec_u32_field(o, "index"@);
    let timestamp = spec_u64_field(o, "timestamp"@);
    let block = spec_u64_field(o, "block"@);
    let dex = spec_str_field(o, "dex"@);
    let from = spec_str_field(o, "from"@);
    let to = spec_str_field(o, "to"@);
    let action = spec_str_field(o, "action"@);
    let amount = spec_num_field(o, "amount"@);
    let amount_usd = spec_num_field(o, "amount_usd"@);
    let contract_address = spec_str_field(o, "contract_address"@);
    let name = spec_str_field(o, "name"@);
    let symbol = spec_str_field(o, "symbol"@);
    let token_price_usd = spec_num_field(o, "token_price_usd"@);
    let token_type = spec_str_field(o, "token_type"@);
    let token_icon_link = spec_str_field(o, "token_icon_link"@);
    if wallet is Some && wallet_label is Some && tx_hash is Some && tx_type is Some && chain is Some && index is Some && timestamp is Some && block is Some && dex is Some && from is Some && to is Some && action is Some && amount is Some && amount_usd is Some && contract_address is Some && name is Some && symbol is Some && token_price_usd is Some && token_type is Some && token_icon_link is Some {
        Some(WrapV {
            wallet: wallet->Some_0,
            wallet_label: wallet_label->Some_0,
            tx_hash: tx_hash->Some_0,
            tx_type: tx_type->Some_0,
            chain: chain->Some_0,
            index: index->Some_0,
            timestamp: timestamp->Some_0,
            block: block->Some_0,
            dex: dex->Some_0,
            from: from->Some_0,
            to: to->Some_0,
            action: action->Some_0,
            amount: amount->Some_0,
            amount_usd: amount_usd->Some_0,
            contract_address: contract_address->Some_0,
            name: name->Some_0,
            symbol: symbol->Some_0,
            token_price_usd: token_price_usd->Some_0,
            token_type: token_type->Some_0,
            token_icon_link: token_icon_link->Some_0,
        })
    } else {
        None
    }
}

/// Decodes a `wrap` record from an object's members.
pub fn decode_wrap(members: &Vec<(String, JsonValue)>) -> (r: Option<Wrap>)
    ensures
        match r {
            Some(x) => spec_decode_wrap(view_pairs(*members, 0)) == Some(x@),
            None => spec_decode_wrap(view_pairs(*members, 0)) is None,
        },
{
    let wallet = match str_field(members, "wallet") {
        Some(v) => v,
        None => {
            return None;
        },
    };
    let wallet_label = match str_field(members, "wallet_label") {
        Some(v) => v,
        None => {
            return None;
        },
    };
    let tx_hash = match str_field(members, "tx_hash") {
        Some(v) => v,
        None => {
            return None;
        },
    };
    let tx_type = match str_field(members, "tx_type") {
        Some(v) => v,
        None => {
            return None;
        },
    };
    let chain = match str_field(members, "chain") {
        Some(v) => v,
        None => {
            return None;
        },
    };
    let index = match u32_field(members, "index") {
        Some(v) => v,
        None => {
            return None;
        },
    };
    let timestamp = match u64_field(members, "timestamp") {
        Some(v) => v,
        None => {
            return None;
        },
    };
    let block = match u64_field(members, "block") {
        Some(v) => v,
        None => {
            return None;
        },
    };
    let dex = match str_field(members, "dex") {
        Some(v) => v,
        None => {
            return None;
        },
    };
    let from = match str_field(members, "from") {
        Some(v) => v,
        None => {
            return None;
        },
    };
    let to = match str_field(members, "to") {
        Some(v) => v,
        None => {
            return None;
        },
    };
    let action = match str_field(members, "action") {
        Some(v) => v,
        None => {
            return None;
        },
    };
    let amount = match num_field(members, "amount") {
        Some(v) => v,
        None => {
            return None;
        },
    };
    let amount_usd = match num_field(members, "amount_usd") {
        Some(v) => v,
        None => {
            return None;
        },
    };
    let contract_address = match str_field(members, "contract_address") {
        Some(v) => v,
        None => {
            return None;
        },
    };
    let name = match str_field(members, "name") {
        Some(v) => v,
        None => {
            return None;
        },
    };
    let symbol = match str_field(members, "symbol") {
        Some(v) => v,
        None => {
            return None;
        },
    };
    let token_price_usd = match num_field(members, "token_price_usd") {
        Some(v) => v,
        None => {
            return None;
        },
    };
    let token_type = match str_field(members, "token_type") {
        Some(v) => v,
        None => {
            return None;
        },
    };
    let token_icon_link = match str_field(members, "token_icon_link") {
        Some(v) => v,
        None => {
            return None;
        },
    };
    Some(Wrap {
        wallet,
        wallet_label,
        tx_hash,
        tx_type,
        chain,
        index,
        timestamp,
        block,
        dex,
        from,
        to,
        action,
        amount,
        amount_usd,
        contract_address,
        name,
        symbol,
        token_price_usd,
        token_type,
        token_icon_link,
    })
}

/// Decode of a `sudo_pool` record from an object's members.
pub open spec fn spec_decode_sudo_pool(o: Seq<(Seq<char>, JsonVal)>) -> Option<
    SudoPoolV,
> {
    let wallet = spec_str_field(o, "wallet"@);
    let wallet_label = spec_str_field(o, "wallet_label"@);
    let tx_hash = spec_str_field(o, "tx_hash"@);
    let tx_type = spec_str_field(o, "tx_type"@);
    let chain = spec_str_field(o, "chain"@);
    let index = spec_u32_field(o, "index"@);
    let timestamp = spec_u64_field(o, "timestamp"@);
    let block = spec_opt_u64_field(o, "block"@);
    let dex = spec_opt_str_field(o, "dex"@);
    let from = spec_str_field(o, "from"@);
    let nft_address = spec_str_field(o, "nft_address"@);
    let nft_amount = spec_u32_field(o, "nft_amount"@);
    let nft_price = spec_num_field(o, "nft_price"@);
    let nft_symbol = spec_str_field(o, "nft_symbol"@);
    let to = spec_str_field(o, "to"@);
    let token0_address = spec_str_field(o, "token0_address"@);
    let token0_amount = spec_num_field(o, "token0_amount"@);
    let token0_amount_usd = spec_num_field(o, "token0_amount_usd"@);
    let token0_name = spec_str_field(o, "token0_name"@);
    let token0_price_usd = spec_num_field(o, "token0_price_usd"@);
    let token0_symbol = spec_str_field(o, "token0_symbol"@);
    let token0_icon_link = spec_str_field(o, "token0_icon_link"@);
    if wallet is Some && wallet_label is Some && tx_hash is Some && tx_type is Some && chain is Some && index is Some && timestamp is Some && block is Some && dex is Some && from is Some && nft_address is Some && nft_amount is Some && nft_price is Some && nft_symbol is Some && to is Some && token0_address is Some && token0_amount is Some && token0_amount_usd is Some && token0_name is Some && token0_price_usd is Some && token0_symbol is Some && token0_icon_link is Some {
        Some(SudoPoolV {
            wallet: wallet->Some_0,
            wallet_label: wallet_label->Some_0,
            tx_hash: tx_hash->Some_0,
            tx_type: tx_type->Some_0,
            chain: chain->Some_0,
            index: index->Some_0,
            timestamp: timestamp->Some_0,
            block: block->Some_0,
            dex: dex->Some_0,
            from: from->Some_0,
            nft_address: nft_address->Some_0,
            nft_amount: nft_amount->Some_0,
            nft_price: nft_price->Some_0,
            nft_symbol: nft_symbol->Some_0,
            to: to->Some_0,
            token0_address: token0_address->Some_0,
            token0_amount: token0_amount->Some_0,
            token0_amount_usd: token0_amount_usd->Some_0,
            token0_name: token0_name->Some_0,
            token0_price_usd: token0_price_usd->Some_0,
            token0_symbol: token0_symbol->Some_0,
            token0_icon_link: token0_icon_link->Some_0,
        })
    } else {
        None
    }
}

/// Decodes a `sudo_pool` record from an object's members.
pub fn decode_sudo_pool(members: &Vec<(String, JsonValue)>) -> (r: Option<SudoPool>)
    ensures
        match r {
            Some(x) => spec_decode_sudo_pool(view_pairs(*members, 0)) == Some(x@),
            None => spec_decode_sudo_pool(view_pairs(*members, 0)) is None,
        },
{
    let wallet = match str_field(members, "wallet") {
        Some(v) => v,
        None => {
            return None;
        },
    };
    let wallet_label = match str_field(members, "wallet_label") {
        Some(v) => v,
        None => {
            return None;
        },
    };
    let tx_hash = match str_field(members, "tx_hash") {
        Some(v) => v,
        None => {
            return None;
        },
    };
    let tx_type = match str_field(members, "tx_type") {
        Some(v) => v,
        None => {
            return None;
        },
    };
    let chain = match str_field(members, "chain") {
        Some(v) => v,
        None => {
            return None;
        },
    };
    let index = match u32_field(members, "index") {
        Some(v) => v,
        None => {
            return None;
        },
    };
    let timestamp = match u64_field(members, "timestamp") {
        Some(v) => v,
        None => {
            return None;
        },
    };
    let block = match opt_u64_field(members, "block") {
        Some(v) => v,
        None => {
            return None;
        },
    };
    let dex = match opt_str_field(members, "dex") {
        Some(v) => v,
        None => {
            return None;
        },
    };
    let from = match str_field(members, "from") {
        Some(v) => v,
        None => {
            return None;
        },
    };
    let nft_address = match str_field(members, "nft_address") {
        Some(v) => v,
        None => {
            return None;
        },
    };
    let nft_amount = match u32_field(members, "nft_amount") {
        Some(v) => v,
        None => {
            return None;
        },
    };
    let nft_price = match num_field(members, "nft_price") {
        Some(v) => v,
        None => {
            return None;
        },
    };
    let nft_symbol = match str_field(members, "nft_symbol") {
        Some(v) => v,
        None => {
            return None;
        },
    };
    let to = match str_field(members, "to") {
        Some(v) => v,
        None => {
            return None;
        },
    };
    let token0_address = match str_field(members, "token0_address") {
        Some(v) => v,
        None => {
            return None;
        },
    };
    let token0_amount = match num_field(members, "token0_amount") {
        Some(v) => v,
        None => {
            return None;
        },
    };
    let token0_amount_usd = match num_field(members, "token0_amount_usd") {
        Some(v) => v,
        None => {
            return None;
        },
    };
    let token0_name = match str_field(members, "token0_name") {
        Some(v) => v,
        None => {
            return None;
        },
    };
    let token0_price_usd = match num_field(members, "token0_price_usd") {
        Some(v) => v,
        None => {
            return None;
        },
    };
    let token0_symbol = match str_field(members, "token0_symbol") {
        Some(v) => v,
        None => {
            return None;
        },
    };
    let token0_icon_link = match str_field(members, "token0_icon_link") {
        Some(v) => v,
        None => {
            return None;
        },
    };
    Some(SudoPool {
        wallet,
        wallet_label,
        tx_hash,
        tx_type,
        chain,
        index,
        timestamp,
        block,
        dex,
        from,
        nft_address,
        nft_amount,
        nft_price,
        nft_symbol,
        to,
        token0_address,
        token0_amount,
        token0_amount_usd,
        token0_name,
        token0_price_usd,
        token0_symbol,
        token0_icon_link,
    })
}

/// Decode of a `reward` record from an object's members.
pub open spec fn spec_decode_reward(o: Seq<(Seq<char>, JsonVal)>) -> Option<
    RewardV,
> {
    let wallet = spec_str_field(o, "wallet"@);
    let wallet_label = spec_str_field(o, "wallet_label"@);
    let tx_hash = spec_str_field(o, "tx_hash"@);
    let tx_type = spec_str_field(o, "tx_type"@);
    let chain = spec_str_field(o, "chain"@);
    let index = spec_u32_field(o, "index"@);
    let timestamp = spec_u64_field(o, "timestamp"@);
    let block = spec_u64_field(o, "block"@);
    let address = spec_str_field(o, "address"@);
    let amount = spec_num_field(o, "amount"@);
    let amount_usd = spec_num_field(o, "amount_usd"@);
    let from = spec_str_field(o, "from"@);
    let name = spec_str_field(o, "name"@);
    let price_usd = spec_num_field(o, "price_usd"@);
    let symbol = spec_str_field(o, "symbol"@);
    if wallet is Some && wallet_label is Some && tx_hash is Some && tx_type is Some && chain is Some && index is Some && timestamp is Some && block is Some && address is Some && amount is Some && amount_usd is Some && from is Some && name is Some && price_usd is Some && symbol is Some {
        Some(RewardV {
            wallet: wallet->Some_0,
            wallet_label: wallet_label->Some_0,
            tx_hash: tx_hash->Some_0,
            tx_type: tx_type->Some_0,
            chain: chain->Some_0,
            index: index->Some_0,
            timestamp: timestamp->Some_0,
            block: block->Some_0,
            address: address->Some_0,
            amount: amount->Some_0,
            amount_usd: amount_usd->Some_0,
            from: from->Some_0,
            name: name->Some_0,
            price_usd: price_usd->Some_0,
            symbol: symbol->Some_0,
        })
    } else {
        None
    }
}

/// Decodes a `reward` record from an object's members.
pub fn decode_reward(members: &Vec<(String, JsonValue)>) -> (r: Option<Reward>)
    ensures
        match r {
            Some(x) => spec_decode_reward(view_pairs(*members, 0)) == Some(x@),
            None => spec_decode_reward(view_pairs(*members, 0)) is None,
        },
{
    let wallet = match str_field(members, "wallet") {
        Some(v) => v,
        None => {
            return None;
        },
    };
    let wallet_label = match str_field(members, "wallet_label") {
        Some(v) => v,
        None => {
            return None;
        },
    };
    let tx_hash = match str_field(members, "tx_hash") {
        Some(v) => v,
        None => {
            return None;
        },
    };
    let tx_type = match str_field(members, "tx_type") {
        Some(v) => v,
        None => {
            return None;
        },
    };
    let chain = match str_field(members, "chain") {
        Some(v) => v,
        None => {
            return None;
        },
    };
    let index = match u32_field(members, "index") {
        Some(v) => v,
        None => {
            return None;
        },
    };
    let timestamp = match u64_field(members, "timestamp") {
        Some(v) => v,
        None => {
            return None;
        },
    };
    let block = match u64_field(members, "block") {
        Some(v) => v,
        None => {
            return None;
        },
    };
    let address = match str_field(members, "address") {
        Some(v) => v,
        None => {
            return None;
        },
    };
    let amount = match num_field(members, "amount") {
        Some(v) => v,
        None => {
            return None;
        },
    };
    let amount_usd = match num_field(members, "amount_usd") {
        Some(v) => v,
        None => {
            return None;
        },
    };
    let from = match str_field(members, "from") {
        Some(v) => v,
        None => {
            return None;
        },
    };
    let name = match str_field(members, "name") {
        Some(v) => v,
        None => {
            return None;
        },
    };
    let price_usd = match num_field(members, "price_usd") {
        Some(v) => v,
        None => {
            return None;
        },
    };
    let symbol = match str_field(members, "symbol") {
        Some(v) => v,
        None => {
            return None;
        },
    };
    Some(Reward {
        wallet,
        wallet_label,
        tx_hash,
        tx_type,
        chain,
        index,
        timestamp,
        block,
        address,
        amount,
        amount_usd,
        from,
        name,
        price_usd,
        symbol,
    })
}

/// Decode of a `staking` record from an object's members.
pub open spec fn spec_decode_staking(o: Seq<(Seq<char>, JsonVal)>) -> Option<
    StakingV,
> {
    let wallet = spec_str_field(o, "wallet"@);
    let wallet_label = spec_str_field(o, "wallet_label"@);
    let tx_hash = spec_str_field(o, "tx_hash"@);
    let tx_type = spec_str_field(o, "tx_type"@);
    let chain = spec_str_field(o, "chain"@);
    let index = spec_u32_field(o, "index"@);
    let timestamp = spec_u64_field(o, "timestamp"@);
    let block = spec_u64_field(o, "block"@);
    let from = spec_str_field(o, "from"@);
    let to = spec_str_field(o, "to"@);
    let from_label = spec_str_field(o, "from_label"@);
    let to_label = spec_str_field(o, "to_label"@);
    let amount = spec_num_field(o, "amount"@);
    let amount_usd = spec_num_field(o, "amount_usd"@);
    let token_price_usd = spec_num_field(o, "token_price_usd"@);
    let contract_address = spec_str_field(o, "contract_address"@);
    let symbol = spec_str_field(o, "symbol"@);
    let name = spec_str_field(o, "name"@);
    let action = spec_str_field(o, "action"@);
    if wallet is Some && wallet_label is Some && tx_hash is Some && tx_type is Some && chain is Some && index is Some && timestamp is Some && block is Some && from is Some && to is Some && from_label is Some && to_label is Some && amount is Some && amount_usd is Some && token_price_usd is Some && contract_address is Some && symbol is Some && name is Some && action is Some {
        Some(StakingV {
            wallet: wallet->Some_0,
            wallet_label: wallet_label->Some_0,
            tx_hash: tx_hash->Some_0,
            tx_type: tx_type->Some_0,
            chain: chain->Some_0,
            index: index->Some_0,
            timestamp: timestamp->Some_0,
            block: block->Some_0,
            from: from->Some_0,
            to: to->Some_0,
            from_label: from_label->Some_0,
            to_label: to_label->Some_0,
            amount: amount->Some_0,
            amount_usd: amount_usd->Some_0,
            token_price_usd: token_price_usd->Some_0,
            contract_address: contract_address->Some_0,
            symbol: symbol->Some_0,
            name: name->Some_0,
            action: action->Some_0,
        })
    } else {
        None
    }
}

/// Decodes a `staking` record from an object's members.
pub fn decode_staking(members: &Vec<(String, JsonValue)>) -> (r: Option<Staking>)
    ensures
        match r {
            Some(x) => spec_decode_staking(view_pairs(*members, 0)) == Some(x@),
            None => spec_decode_staking(view_pairs(*members, 0)) is None,
        },
{
    let wallet = match str_field(members, "wallet") {
        Some(v) => v,
        None => {
            return None;
        },
    };
    let wallet_label = match str_field(members, "wallet_label") {
        Some(v) => v,
        None => {
            return None;
        },
    };
    let tx_hash = match str_field(members, "tx_hash") {
        Some(v) => v,
        None => {
            return None;
        },
    };
    let tx_type = match str_field(members, "tx_type") {
        Some(v) => v,
        None => {
            return None;
        },
    };
    let chain = match str_field(members, "chain") {
        Some(v) => v,
        None => {
            return None;
        },
    };
    let index = match u32_field(members, "index") {
        Some(v) => v,
        None => {
            return None;
        },
    };
    let timestamp = match u64_field(members, "timestamp") {
        Some(v) => v,
        None => {
            return None;
        },
    };
    let block = match u64_field(members, "block") {
        Some(v) => v,
        None => {
            return None;
        },
    };
    let from = match str_field(members, "from") {
        Some(v) => v,
        None => {
            return None;
        },
    };
    let to = match str_field(members, "to") {
        Some(v) => v,
        None => {
            return None;
        },
    };
    let from_label = match str_field(members, "from_label") {
        Some(v) => v,
        None => {
            return None;
        },
    };
    let to_label = match str_field(members, "to_label") {
        Some(v) => v,
        None => {
            return None;
        },
    };
    let amount = match num_field(members, "amount") {
        Some(v) => v,
        None => {
            return None;
        },
    };
    let amount_usd = match num_field(members, "amount_usd") {
        Some(v) => v,
        None => {
            return None;
        },
    };
    let token_price_usd = match num_field(members, "token_price_usd") {
        Some(v) => v,
        None => {
            return None;
        },
    };
    let contract_address = match str_field(members, "contract_address") {
        Some(v) => v,
        None => {
            return None;
        },
    };
    let symbol = match str_field(members, "symbol") {
        Some(v) => v,
        None => {
            return None;
        },
    };
    let name = match str_field(members, "name") {
        Some(v) => v,
        None => {
            return None;
        },
    };
    let action = match str_field(members, "action") {
        Some(v) => v,
        None => {
            return None;
        },
    };
    Some(Staking {
        wallet,
        wallet_label,
        tx_hash,
        tx_type,
        chain,
        index,
        timestamp,
        block,
        from,
        to,
        from_label,
        to_label,
        amount,
        amount_usd,
        token_price_usd,
        contract_address,
        symbol,
        name,
        action,
    })
}

/// Decode of a `perp` record from an object's members.
pub open spec fn spec_decode_perp(o: Seq<(Seq<char>, JsonVal)>) -> Option<
    PerpV,
> {
    let wallet = spec_str_field(o, "wallet"@);
    let wallet_label = spec_str_field(o, "wallet_label"@);
    let tx_hash = spec_str_field(o, "tx_hash"@);
    let tx_type = spec_str_field(o, "tx_type"@);
    let chain = spec_str_field(o, "chain"@);
    let index = spec_u32_field(o, "index"@);
    let timestamp = spec_u64_field(o, "timestamp"@);
    let block = spec_u64_field(o, "block"@);
    let action = spec_str_field(o, "action"@);
    let amount_usd = spec_num_field(o, "amount_usd"@);
    let average_price = spec_num_field(o, "average_price"@);
    let base_token_address = spec_str_field(o, "base_token_address"@);
    let base_token_amount = spec_num_field(o, "base_token_amount"@);
    let base_token_symbol = spec_str_field(o, "base_token_symbol"@);
    let dex = spec_str_field(o, "dex"@);
    let from = spec_str_field(o, "from"@);
    let liquidation = spec_bool_field(o, "liquidation"@);
    let liquidation_price = spec_num_field(o, "liquidation_price"@);
    let to = spec_str_field(o, "to"@);
    let trade_direction = spec_str_field(o, "trade_direction"@);
    let perp_details = spec_str_field(o, "perp_details"@);
    let token0_address = spec_str_field(o, "token0_address"@);
    let token0_amount = spec_num_field(o, "token0_amount"@);
    let token0_amount_usd = spec_num_field(o, "token0_amount_usd"@);
    let token0_name = spec_str_field(o, "token0_name"@);
    let token0_price_usd = spec_num_field(o, "token0_price_usd"@);
    let token0_symbol = spec_str_field(o, "token0_symbol"@);
    let token0_icon_link = spec_str_field(o, "token0_icon_link"@);
    let token1_address = spec_str_field(o, "token1_address"@);
    let token1_amount = spec_num_field(o, "token1_amount"@);
    let token1_amount_usd = spec_num_field(o, "token1_amount_usd"@);
    let token1_name = spec_str_field(o, "token1_name"@);
    let token1_price_usd = spec_num_field(o, "token1_price_usd"@);
    let token1_symbol = spec_str_field(o, "token1_symbol"@);
    let token1_icon_link = spec_str_field(o, "token1_icon_link"@);
    let realized_pnl = spec_num_field(o, "realized_pnl"@);
    let is_nft_perp = spec_bool_field(o, "is_nft_perp"@);
    let position_size = spec_opt_num_field(o, "position_size"@);
    let position_size_usd = spec_opt_num_field(o, "position_size_usd"@);
    let leverage = spec_opt_num_field(o, "leverage"@);
    let unrealized_pnl = spec_opt_num_field(o, "unrealized_pnl"@);
    if wallet is Some && wallet_label is Some && tx_hash is Some && tx_type is Some && chain is Some && index is Some && timestamp is Some && block is Some && action is Some && amount_usd is Some && average_price is Some && base_token_address is Some && base_token_amount is Some && base_token_symbol is Some && dex is Some && from is Some && liquidation is Some && liquidation_price is Some && to is Some && trade_direction is Some && perp_details is Some && token0_address is Some && token0_amount is Some && token0_amount_usd is Some && token0_name is Some && token0_price_usd is Some && token0_symbol is Some && token0_icon_link is Some && token1_address is Some && token1_amount is Some && token1_amount_usd is Some && token1_name is Some && token1_price_usd is Some && token1_symbol is Some && token1_icon_link is Some && realized_pnl is Some && is_nft_perp is Some && position_size is Some && position_size_usd is Some && leverage is Some && unrealized_pnl is Some {
        Some(PerpV {
            wallet: wallet->Some_0,
            wallet_label: wallet_label->Some_0,
            tx_hash: tx_hash->Some_0,
            tx_type: tx_type->Some_0,
            chain: chain->Some_0,
            index: index->Some_0,
            timestamp: timestamp->Some_0,
            block: block->Some_0,
            action: action->Some_0,
            amount_usd: amount_usd->Some_0,
            average_price: average_price->Some_0,
            base_token_address: base_token_address->Some_0,
            base_token_amount: base_token_amount->Some_0,
            base_token_symbol: base_token_symbol->Some_0,
            dex: dex->Some_0,
            from: from->Some_0,
            liquidation: liquidation->Some_0,
            liquidation_price: liquidation_price->Some_0,
            to: to->Some_0,
            trade_direction: trade_direction->Some_0,
            perp_details: perp_details->Some_0,
            token0_address: token0_address->Some_0,
            token0_amount: token0_amount->Some_0,
            token0_amount_usd: token0_amount_usd->Some_0,
            token0_name: token0_name->Some_0,
            token0_price_usd: token0_price_usd->Some_0,
            token0_symbol: token0_symbol->Some_0,
            token0_icon_link: token0_icon_link->Some_0,
            token1_address: token1_address->Some_0,
            token1_amount: token1_amount->Some_0,
            token1_amount_usd: token1_amount_usd->Some_0,
            token1_name: token1_name->Some_0,
            token1_price_usd: token1_price_usd->Some_0,
            token1_symbol: token1_symbol->Some_0,
            token1_icon_link: token1_icon_link->Some_0,
            realized_pnl: realized_pnl->Some_0,
            is_nft_perp: is_nft_perp->Some_0,
            position_size: position_size->Some_0,
            position_size_usd: position_size_usd->Some_0,
            leverage: leverage->Some_0,
            unrealized_pnl: unrealized_pnl->Some_0,
        })
    } else {
        None
    }
}

/// Decodes a `perp` record from an object's members.
pub fn decode_perp(members: &Vec<(String, JsonValue)>) -> (r: Option<Perp>)
    ensures
        match r {
            Some(x) => spec_decode_perp(view_pairs(*members, 0)) == Some(x@),
            None => spec_decode_perp(view_pairs(*members, 0)) is None,
        },
{
    let wallet = match str_field(members, "wallet") {
        Some(v) => v,
        None => {
            return None;
        },
    };
    let wallet_label = match str_field(members, "wallet_label") {
        Some(v) => v,
        None => {
            return None;
        },
    };
    let tx_hash = match str_field(members, "tx_hash") {
        Some(v) => v,
        None => {
            return None;
        },
    };
    let tx_type = match str_field(members, "tx_type") {
        Some(v) => v,
        None => {
            return None;
        },
    };
    let chain = match str_field(members, "chain") {
        Some(v) => v,
        None => {
            return None;
        },
    };
    let index = match u32_field(members, "index") {
        Some(v) => v,
        None => {
            return None;
        },
    };
    let timestamp = match u64_field(members, "timestamp") {
        Some(v) => v,
        None => {
            return None;
        },
    };
    let block = match u64_field(members, "block") {
        Some(v) => v,
        None => {
            return None;
        },
    };
    let action = match str_field(members, "action") {
        Some(v) => v,
        None => {
            return None;
        },
    };
    let amount_usd = match num_field(members, "amount_usd") {
        Some(v) => v,
        None => {
            return None;
        },
    };
    let average_price = match num_field(members, "average_price") {
        Some(v) => v,
        None => {
            return None;
        },
    };
    let base_token_address = match str_field(members, "base_token_address") {
        Some(v) => v,
        None => {
            return None;
        },
    };
    let base_token_amount = match num_field(members, "base_token_amount") {
        Some(v) => v,
        None => {
            return None;
        },
    };
    let base_token_symbol = match str_field(members, "base_token_symbol") {
        Some(v) => v,
        None => {
            return None;
        },
    };
    let dex = match str_field(members, "dex") {
        Some(v) => v,
        None => {
            return None;
        },
    };
    let from = match str_field(members, "from") {
        Some(v) => v,
        None => {
            return None;
        },
    };
    let liquidation = match bool_field(members, "liquidation") {
        Some(v) => v,
        None => {
            return None;
        },
    };
    let liquidation_price = match num_field(members, "liquidation_price") {
        Some(v) => v,
        None => {
            return None;
        },
    };
    let to = match str_field(members, "to") {
        Some(v) => v,
        None => {
            return None;
        },
    };
    let trade_direction = match str_field(members, "trade_direction") {
        Some(v) => v,
        None => {
            return None;
        },
    };
    let perp_details = match str_field(members, "perp_details") {
        Some(v) => v,
        None => {
            return None;
        },
    };
    let token0_address = match str_field(members, "token0_address") {
        Some(v) => v,
        None => {
            return None;
        },
    };
    let token0_amount = match num_field(members, "token0_amount") {
        Some(v) => v,
        None => {
            return None;
        },
    };
    let token0_amount_usd = match num_field(members, "token0_amount_usd") {
        Some(v) => v,
        None => {
            return None;
        },
    };
    let token0_name = match str_field(members, "token0_name") {
        Some(v) => v,
        None => {
            return None;
        },
    };
    let token0_price_usd = match num_field(members, "token0_price_usd") {
        Some(v) => v,
        None => {
            return None;
        },
    };
    let token0_symbol = match str_field(members, "token0_symbol") {
        Some(v) => v,
        None => {
            return None;
        },
    };
    let token0_icon_link = match str_field(members, "token0_icon_link") {
        Some(v) => v,
        None => {
            return None;
        },
    };
    let token1_address = match str_field(members, "token1_address") {
        Some(v) => v,
        None => {
            return None;
        },
    };
    let token1_amount = match num_field(members, "token1_amount") {
        Some(v) => v,
        None => {
            return None;
        },
    };
    let token1_amount_usd = match num_field(members, "token1_amount_usd") {
        Some(v) => v,
        None => {
            return None;
        },
    };
    let token1_name = match str_field(members, "token1_name") {
        Some(v) => v,
        None => {
            return None;
        },
    };
    let token1_price_usd = match num_field(members, "token1_price_usd") {
        Some(v) => v,
        None => {
            return None;
        },
    };
    let token1_symbol = match str_field(members, "token1_symbol") {
        Some(v) => v,
        None => {
            return None;
        },
    };
    let token1_icon_link = match str_field(members, "token1_icon_link") {
        Some(v) => v,
        None => {
            return None;
        },
    };
    let realized_pnl = match num_field(members, "realized_pnl") {
        Some(v) => v,
        None => {
            return None;
        },
    };
    let is_nft_perp = match bool_field(members, "is_nft_perp") {
        Some(v) => v,
        None => {
            return None;
        },
    };
    let position_size = match opt_num_field(members, "position_size") {
        Some(v) => v,
        None => {
            return None;
        },
    };
    let position_size_usd = match opt_num_field(members, "position_size_usd") {
        Some(v) => v,
        None => {
            return None;
        },
    };
    let leverage = match opt_num_field(members, "leverage") {
        Some(v) => v,
        None => {
            return None;
        },
    };
    let unrealized_pnl = match opt_num_field(members, "unrealized_pnl") {
        Some(v) => v,
        None => {
            return None;
        },
    };
    Some(Perp {
        wallet,
        wallet_label,
        tx_hash,
        tx_type,
        chain,
        index,
        timestamp,
        block,
        action,
        amount_usd,
        average_price,
        base_token_address,
        base_token_amount,
        base_token_symbol,
        dex,
        from,
        liquidation,
        liquidation_price,
        to,
        trade_direction,
        perp_details,
        token0_address,
        token0_amount,
        token0_amount_usd,
        token0_name,
        token0_price_usd,
        token0_symbol,
        token0_icon_link,
        token1_address,
        token1_amount,
        token1_amount_usd,
        token1_name,
        token1_price_usd,
        token1_symbol,
        token1_icon_link,
        realized_pnl,
        is_nft_perp,
        position_size,
        position_size_usd,
        leverage,
        unrealized_pnl,
    })
}

/// Decode of a `flashloan` record from an object's members.
pub open spec fn spec_decode_flashloan(o: Seq<(Seq<char>, JsonVal)>) -> Option<
    FlashloanV,
> {
    let wallet = spec_str_field(o, "wallet"@);
    let wallet_label = spec_str_field(o, "wallet_label"@);
    let tx_hash = spec_str_field(o, "tx_hash"@);
    let tx_type = spec_str_field(o, "tx_type"@);
    let chain = spec_str_field(o, "chain"@);
    let index = spec_u32_field(o, "index"@);
    let timestamp = spec_u64_field(o, "timestamp"@);
    let block = spec_u64_field(o, "block"@);
    let address = spec_str_field(o, "address"@);
    let amount = spec_num_field(o, "amount"@);
    let amount_usd = spec_num_field(o, "amount_usd"@);
    let dex = spec_str_field(o, "dex"@);
    let from = spec_str_field(o, "from"@);
    let health_factor = spec_num_field(o, "health_factor"@);
    let name = spec_str_field(o, "name"@);
    let platform = spec_str_field(o, "platform"@);
    let price_usd = spec_num_field(o, "price_usd"@);
    let symbol = spec_str_field(o, "symbol"@);
    let token_icon_link = spec_str_field(o, "token_icon_link"@);
    if wallet is Some && wallet_label is Some && tx_hash is Some && tx_type is Some && chain is Some && index is Some && timestamp is Some && block is Some && address is Some && amount is Some && amount_usd is Some && dex is Some && from is Some && health_factor is Some && name is Some && platform is Some && price_usd is Some && symbol is Some && token_icon_link is Some {
        Some(FlashloanV {
            wallet: wallet->Some_0,
            wallet_label: wallet_label->Some_0,
            tx_hash: tx_hash->Some_0,
            tx_type: tx_type->Some_0,
            chain: chain->Some_0,
            index: index->Some_0,
            timestamp: timestamp->Some_0,
            block: block->Some_0,
            address: address->Some_0,
            amount: amount->Some_0,
            amount_usd: amount_usd->Some_0,
            dex: dex->Some_0,
            from: from->Some_0,
            health_factor: health_factor->Some_0,
            name: name->Some_0,
            platform: platform->Some_0,
            price_usd: price_usd->Some_0,
            symbol: symbol->Some_0,
            token_icon_link: token_icon_link->Some_0,
        })
    } else {
        None
    }
}

/// Decodes a `flashloan` record from an object's members.
pub fn decode_flashloan(members: &Vec<(String, JsonValue)>) -> (r: Option<Flashloan>)
    ensures
        match r {
            Some(x) => spec_decode_flashloan(view_pairs(*members, 0)) == Some(x@),
            None => spec_decode_flashloan(view_pairs(*members, 0)) is None,
        },
{
    let wallet = match str_field(members, "wallet") {
        Some(v) => v,
        None => {
            return None;
        },
    };
    let wallet_label = match str_field(members, "wallet_label") {
        Some(v) => v,
        None => {
            return None;
        },
    };
    let tx_hash = match str_field(members, "tx_hash") {
        Some(v) => v,
        None => {
            return None;
        },
    };
    let tx_type = match str_field(members, "tx_type") {
        Some(v) => v,
        None => {
            return None;
        },
    };
    let chain = match str_field(members, "chain") {
        Some(v) => v,
        None => {
            return None;
        },
    };
    let index = match u32_field(members, "index") {
        Some(v) => v,
        None => {
            return None;
        },
    };
    let timestamp = match u64_field(members, "timestamp") {
        Some(v) => v,
        None => {
            return None;
        },
    };
    let block = match u64_field(members, "block") {
        Some(v) => v,
        None => {
            return None;
        },
    };
    let address = match str_field(members, "address") {
        Some(v) => v,
        None => {
            return None;
        },
    };
    let amount = match num_field(members, "amount") {
        Some(v) => v,
        None => {
            return None;
        },
    };
    let amount_usd = match num_field(members, "amount_usd") {
        Some(v) => v,
        None => {
            return None;
        },
    };
    let dex = match str_field(members, "dex") {
        Some(v) => v,
        None => {
            return None;
        },
    };
    let from = match str_field(members, "from") {
        Some(v) => v,
        None => {
            return None;
        },
    };
    let health_factor = match num_field(members, "health_factor") {
        Some(v) => v,
        None => {
            return None;
        },
    };
    let name = match str_field(members, "name") {
        Some(v) => v,
        None => {
            return None;
        },
    };
    let platform = match str_field(members, "platform") {
        Some(v) => v,
        None => {
            return None;
        },
    };
    let price_usd = match num_field(members, "price_usd") {
        Some(v) => v,
        None => {
            return None;
        },
    };
    let symbol = match str_field(members, "symbol") {
        Some(v) => v,
        None => {
            return None;
        },
    };
    let token_icon_link = match str_field(members, "token_icon_link") {
        Some(v) => v,
        None => {
            return None;
        },
    };
    Some(Flashloan {
        wallet,
        wallet_label,
        tx_hash,
        tx_type,
        chain,
        index,
        timestamp,
        block,
        address,
        amount,
        amount_usd,
        dex,
        from,
        health_factor,
        name,
        platform,
        price_usd,
        symbol,
        token_icon_link,
    })
}

/// Decode of a `contract_creation` record from an object's members.
pub open spec fn spec_decode_contract_creation(o: Seq<(Seq<char>, JsonVal)>) -> Option<
    ContractCreationV,
> {
    let wallet = spec_str_field(o, "wallet"@);
    let wallet_label = spec_str_field(o, "wallet_label"@);
    let tx_hash = spec_str_field(o, "tx_hash"@);
    let tx_type = spec_str_field(o, "tx_type"@);
    let chain = spec_str_field(o, "chain"@);
    let index = spec_u32_field(o, "index"@);
    let timestamp = spec_u64_field(o, "timestamp"@);
    let block = spec_u64_field(o, "block"@);
    let amount_usd = spec_num_field(o, "amount_usd"@);
    let contract_address = spec_str_field(o, "contract_address"@);
    let from = spec_str_field(o, "from"@);
    let from_label = spec_str_field(o, "from_label"@);
    if wallet is Some && wallet_label is Some && tx_hash is Some && tx_type is Some && chain is Some && index is Some && timestamp is Some && block is Some && amount_usd is Some && contract_address is Some && from is Some && from_label is Some {
        Some(ContractCreationV {
            wallet: wallet->Some_0,
            wallet_label: wallet_label->Some_0,
            tx_hash: tx_hash->Some_0,
            tx_type: tx_type->Some_0,
            chain: chain->Some_0,
            index: index->Some_0,
            timestamp: timestamp->Some_0,
            block: block->Some_0,
            amount_usd: amount_usd->Some_0,
            contract_address: contract_address->Some_0,
            from: from->Some_0,
            from_label: from_label->Some_0,
        })
    } else {
        None
    }
}

/// Decodes a `contract_creation` record from an object's members.
pub fn decode_contract_creation(members: &Vec<(String, JsonValue)>) -> (r: Option<ContractCreation>)
    ensures
        match r {
            Some(x) => spec_decode_contract_creation(view_pairs(*members, 0)) == Some(x@),
            None => spec_decode_contract_creation(view_pairs(*members, 0)) is None,
        },
{
    let wallet = match str_field(members, "wallet") {
        Some(v) => v,
        None => {
            return None;
        },
    };
    let wallet_label = match str_field(members, "wallet_label") {
        Some(v) => v,
        None => {
            return None;
        },
    };
    let tx_hash = match str_field(members, "tx_hash") {
        Some(v) => v,
        None => {
            return None;
        },
    };
    let tx_type = match str_field(members, "tx_type") {
        Some(v) => v,
        None => {
            return None;
        },
    };
    let chain = match str_field(members, "chain") {
        Some(v) => v,
        None => {
            return None;
        },
    };
    let index = match u32_field(members, "index") {
        Some(v) => v,
        None => {
            return None;
        },
    };
    let timestamp = match u64_field(members, "timestamp") {
        Some(v) => v,
        None => {
            return None;
        },
    };
    let block = match u64_field(members, "block") {
        Some(v) => v,
        None => {
            return None;
        },
    };
    let amount_usd = match num_field(members, "amount_usd") {
        Some(v) => v,
        None => {
            return None;
        },
    };
    let contract_address = match str_field(members, "contract_address") {
        Some(v) => v,
        None => {
            return None;
        },
    };
    let from = match str_field(members, "from") {
        Some(v) => v,
        None => {
            return None;
        },
    };
    let from_label = match str_field(members, "from_label") {
        Some(v) => v,
        None => {
            return None;
        },
    };
    Some(ContractCreation {
        wallet,
        wallet_label,
        tx_hash,
        tx_type,
        chain,
        index,
        timestamp,
        block,
        amount_usd,
        contract_address,
        from,
        from_label,
    })
}

/// Decode of a `nft_liquidation` record from an object's members.
pub open spec fn spec_decode_nft_liquidation(o: Seq<(Seq<char>, JsonVal)>) -> Option<
    NftLiquidationV,
> {
    let wallet = spec_str_field(o, "wallet"@);
    let wallet_label = spec_str_field(o, "wallet_label"@);
    let tx_hash = spec_str_field(o, "tx_hash"@);
    let tx_type = spec_str_field(o, "tx_type"@);
    let chain = spec_str_field(o, "chain"@);
    let index = spec_u32_field(o, "index"@);
    let timestamp = spec_u64_field(o, "timestamp"@);
    let block = spec_u64_field(o, "block"@);
    let contract_address = spec_str_field(o, "contract_address"@);
    let currency_address = spec_str_field(o, "currency_address"@);
    let currency_symbol = spec_str_field(o, "currency_symbol"@);
    let dex = spec_str_field(o, "dex"@);
    let from = spec_str_field(o, "from"@);
    let nft_address = spec_str_field(o, "nft_address"@);
    let nft_name = spec_str_field(o, "nft_name"@);
    let nft_symbol = spec_str_field(o, "nft_symbol"@);
    let platform = spec_str_field(o, "platform"@);
    let price = spec_num_field(o, "price"@);
    let price_usd = spec_num_field(o, "price_usd"@);
    let to = spec_str_field(o, "to"@);
    let token_id = spec_str_field(o, "token_id"@);
    if wallet is Some && wallet_label is Some && tx_hash is Some && tx_type is Some && chain is Some && index is Some && timestamp is Some && block is Some && contract_address is Some && currency_address is Some && currency_symbol is Some && dex is Some && from is Some && nft_address is Some && nft_name is Some && nft_symbol is Some && platform is Some && price is Some && price_usd is Some && to is Some && token_id is Some {
        Some(NftLiquidationV {
            wallet: wallet->Some_0,
            wallet_label: wallet_label->Some_0,
            tx_hash: tx_hash->Some_0,
            tx_type: tx_type->Some_0,
            chain: chain->Some_0,
            index: index->Some_0,
            timestamp: timestamp->Some_0,
            block: block->Some_0,
            contract_address: contract_address->Some_0,
            currency_address: currency_address->Some_0,
            currency_symbol: currency_symbol->Some_0,
            dex: dex->Some_0,
            from: from->Some_0,
            nft_address: nft_address->Some_0,
            nft_name: nft_name->Some_0,
            nft_symbol: nft_symbol->Some_0,
            platform: platform->Some_0,
            price: price->Some_0,
            price_usd: price_usd->Some_0,
            to: to->Some_0,
            token_id: token_id->Some_0,
        })
    } else {
        None
    }
}

/// Decodes a `nft_liquidation` record from an object's members.
pub fn decode_nft_liquidation(members: &Vec<(String, JsonValue)>) -> (r: Option<NftLiquidation>)
    ensures
        match r {
            Some(x) => spec_decode_nft_liquidation(view_pairs(*members, 0)) == Some(x@),
            None => spec_decode_nft_liquidation(view_pairs(*members, 0)) is None,
        },
{
    let wallet = match str_field(members, "wallet") {
        Some(v) => v,
        None => {
            return None;
        },
    };
    let wallet_label = match str_field(members, "wallet_label") {
        Some(v) => v,
        None => {
            return None;
        },
    };
    let tx_hash = match str_field(members, "tx_hash") {
        Some(v) => v,
        None => {
            return None;
        },
    };
    let tx_type = match str_field(members, "tx_type") {
        Some(v) => v,
        None => {
            return None;
        },
    };
    let chain = match str_field(members, "chain") {
        Some(v) => v,
        None => {
            return None;
        },
    };
    let index = match u32_field(members, "index") {
        Some(v) => v,
        None => {
            return None;
        },
    };
    let timestamp = match u64_field(members, "timestamp") {
        Some(v) => v,
        None => {
            return None;
        },
    };
    let block = match u64_field(members, "block") {
        Some(v) => v,
        None => {
            return None;
        },
    };
    let contract_address = match str_field(members, "contract_address") {
        Some(v) => v,
        None => {
            return None;
        },
    };
    let currency_address = match str_field(members, "currency_address") {
        Some(v) => v,
        None => {
            return None;
        },
    };
    let currency_symbol = match str_field(members, "currency_symbol") {
        Some(v) => v,
        None => {
            return None;
        },
    };
    let dex = match str_field(members, "dex") {
        Some(v) => v,
        None => {
            return None;
        },
    };
    let from = match str_field(members, "from") {
        Some(v) => v,
        None => {
            return None;
        },
    };
    let nft_address = match str_field(members, "nft_address") {
        Some(v) => v,
        None => {
            return None;
        },
    };
    let nft_name = match str_field(members, "nft_name") {
        Some(v) => v,
        None => {
            return None;
        },
    };
    let nft_symbol = match str_field(members, "nft_symbol") {
        Some(v) => v,
        None => {
            return None;
        },
    };
    let platform = match str_field(members, "platform") {
        Some(v) => v,
        None => {
            return None;
        },
    };
    let price = match num_field(members, "price") {
        Some(v) => v,
        None => {
            return None;
        },
    };
    let price_usd = match num_field(members, "price_usd") {
        Some(v) => v,
        None => {
            return None;
        },
    };
    let to = match str_field(members, "to") {
        Some(v) => v,
        None => {
            return None;
        },
    };
    let token_id = match str_field(members, "token_id") {
        Some(v) => v,
        None => {
            return None;
        },
    };
    Some(NftLiquidation {
        wallet,
        wallet_label,
        tx_hash,
        tx_type,
        chain,
        index,
        timestamp,
        block,
        contract_address,
        currency_address,
        currency_symbol,
        dex,
        from,
        nft_address,
        nft_name,
        nft_symbol,
        platform,
        price,
        price_usd,
        to,
        token_id,
    })
}

/// Decode of a `option_type` record from an object's members.
pub open spec fn spec_decode_option_type(o: Seq<(Seq<char>, JsonVal)>) -> Option<
    OptionTypeV,
> {
    let wallet = spec_str_field(o, "wallet"@);
    let wallet_label = spec_str_field(o, "wallet_label"@);
    let tx_hash = spec_str_field(o, "tx_hash"@);
    let tx_type = spec_str_field(o, "tx_type"@);
    let chain = spec_str_field(o, "chain"@);
    let index = spec_u32_field(o, "index"@);
    let timestamp = spec_u64_field(o, "timestamp"@);
    let block = spec_u64_field(o, "block"@);
    let action = spec_str_field(o, "action"@);
    let amount = spec_num_field(o, "amount"@);
    let asset = spec_str_field(o, "asset"@);
    let dex = spec_str_field(o, "dex"@);
    let direction = spec_str_field(o, "direction"@);
    let expiry = spec_str_field(o, "expiry"@);
    let from = spec_str_field(o, "from"@);
    let option_price_usd = spec_num_field(o, "option_price_usd"@);
    let position_status = spec_str_field(o, "position_status"@);
    let spot_price_usd = spec_num_field(o, "spot_price_usd"@);
    let status = spec_str_field(o, "status"@);
    let strike_price_usd = spec_num_field(o, "strike_price_usd"@);
    let to = spec_str_field(o, "to"@);
    let type_field = spec_str_field(o, "type"@);
    if wallet is Some && wallet_label is Some && tx_hash is Some && tx_type is Some && chain is Some && index is Some && timestamp is Some && block is Some && action is Some && amount is Some && asset is Some && dex is Some && direction is Some && expiry is Some && from is Some && option_price_usd is Some && position_status is Some && spot_price_usd is Some && status is Some && strike_price_usd is Some && to is Some && type_field is Some {
        Some(OptionTypeV {
            wallet: wallet->Some_0,
            wallet_label: wallet_label->Some_0,
            tx_hash: tx_hash->Some_0,
            tx_type: tx_type->Some_0,
            chain: chain->Some_0,
            index: index->Some_0,
            timestamp: timestamp->Some_0,
            block: block->Some_0,
            action: action->Some_0,
            amount: amount->Some_0,
            asset: asset->Some_0,
            dex: dex->Some_0,
            direction: direction->Some_0,
            expiry: expiry->Some_0,
            from: from->Some_0,
            option_price_usd: option_price_usd->Some_0,
            position_status: position_status->Some_0,
            spot_price_usd: spot_price_usd->Some_0,
            status: status->Some_0,
            strike_price_usd: strike_price_usd->Some_0,
            to: to->Some_0,
            type_field: type_field->Some_0,
        })
    } else {
        None
    }
}

/// Decodes a `option_type` record from an object's members.
pub fn decode_option_type(members: &Vec<(String, JsonValue)>) -> (r: Option<OptionType>)
    ensures
        match r {
            Some(x) => spec_decode_option_type(view_pairs(*members, 0)) == Some(x@),
            None => spec_decode_option_type(view_pairs(*members, 0)) is None,
        },
{
    let wallet = match str_field(members, "wallet") {
        Some(v) => v,
        None => {
            return None;
        },
    };
    let wallet_label = match str_field(members, "wallet_label") {
        Some(v) => v,
        None => {
            return None;
        },
    };
    let tx_hash = match str_field(members, "tx_hash") {
        Some(v) => v,
        None => {
            return None;
        },
    };
    let tx_type = match str_field(members, "tx_type") {
        Some(v) => v,
        None => {
            return None;
        },
    };
    let chain = match str_field(members, "chain") {
        Some(v) => v,
        None => {
            return None;
        },
    };
    let index = match u32_field(members, "index") {
        Some(v) => v,
        None => {
            return None;
        },
    };
    let timestamp = match u64_field(members, "timestamp") {
        Some(v) => v,
        None => {
            return None;
        },
    };
    let block = match u64_field(members, "block") {
        Some(v) => v,
        None => {
            return None;
        },
    };
    let action = match str_field(members, "action") {
        Some(v) => v,
        None => {
            return None;
        },
    };
    let amount = match num_field(members, "amount") {
        Some(v) => v,
        None => {
            return None;
        },
    };
    let asset = match str_field(members, "asset") {
        Some(v) => v,
        None => {
            return None;
        },
    };
    let dex = match str_field(members, "dex") {
        Some(v) => v,
        None => {
            return None;
        },
    };
    let direction = match str_field(members, "direction") {
        Some(v) => v,
        None => {
            return None;
        },
    };
    let expiry = match str_field(members, "expiry") {
        Some(v) => v,
        None => {
            return None;
        },
    };
    let from = match str_field(members, "from") {
        Some(v) => v,
        None => {
            return None;
        },
    };
    let option_price_usd = match num_field(members, "option_price_usd") {
        Some(v) => v,
        None => {
            return None;
        },
    };
    let position_status = match str_field(members, "position_status") {
        Some(v) => v,
        None => {
            return None;
        },
    };
    let spot_price_usd = match num_field(members, "spot_price_usd") {
        Some(v) => v,
        None => {
            return None;
        },
    };
    let status = match str_field(members, "status") {
        Some(v) => v,
        None => {
            return None;
        },
    };
    let strike_price_usd = match num_field(members, "strike_price_usd") {
        Some(v) => v,
        None => {
            return None;
        },
    };
    let to = match str_field(members, "to") {
        Some(v) => v,
        None => {
            return None;
        },
    };
    let type_field = match str_field(members, "type") {
        Some(v) => v,
        None => {
            return None;
        },
    };
    Some(OptionType {
        wallet,
        wallet_label,
        tx_hash,
        tx_type,
        chain,
        index,
        timestamp,
        block,
        action,
        amount,
        asset,
        dex,
        direction,
        expiry,
        from,
        option_price_usd,
        position_status,
        spot_price_usd,
        status,
        strike_price_usd,
        to,
        type_field,
    })
}

/// Decode of a `nft_sweep` record from an object's members.
pub open spec fn spec_decode_nft_sweep(o: Seq<(Seq<char>, JsonVal)>) -> Option<
    NftSweepV,
> {
    let wallet = spec_str_field(o, "wallet"@);
    let wallet_label = spec_str_field(o, "wallet_label"@);
    let tx_hash = spec_str_field(o, "tx_hash"@);
    let tx_type = spec_str_field(o, "tx_type"@);
    let chain = spec_str_field(o, "chain"@);
    let index = spec_u32_field(o, "index"@);
    let timestamp = spec_u64_field(o, "timestamp"@);
    let block = spec_u64_field(o, "block"@);
    let from = spec_str_field(o, "from"@);
    let to = spec_str_field(o, "to"@);
    let thumbnail = spec_str_field(o, "thumbnail"@);
    let image = spec_str_field(o, "image"@);
    let action = spec_str_field(o, "action"@);
    let contract = spec_str_field(o, "contract"@);
    let marketplace = spec_str_field(o, "marketplace"@);
    let nft_address = spec_str_field(o, "nft_address"@);
    let nft_name = spec_str_field(o, "nft_name"@);
    let nft_symbol = spec_str_field(o, "nft_symbol"@);
    let nft_token_id = spec_str_field(o, "nft_token_id"@);
    let price = spec_num_field(o, "price"@);
    let price_usd = spec_num_field(o, "price_usd"@);
    let profit = spec_num_field(o, "profit"@);
    let currency_symbol = spec_str_field(o, "currency_symbol"@);
    let buyer = spec_str_field(o, "buyer"@);
    let seller = spec_str_field(o, "seller"@);
    let token = spec_str_field(o, "token"@);
    let first_interaction = spec_bool_field(o, "first_interaction"@);
    let bid_accepted = spec_bool_field(o, "bid_accepted"@);
    if wallet is Some && wallet_label is Some && tx_hash is Some && tx_type is Some && chain is Some && index is Some && timestamp is Some && block is Some && from is Some && to is Some && thumbnail is Some && image is Some && action is Some && contract is Some && marketplace is Some && nft_address is Some && nft_name is Some && nft_symbol is Some && nft_token_id is Some && price is Some && price_usd is Some && profit is Some && currency_symbol is Some && buyer is Some && seller is Some && token is Some && first_interaction is Some && bid_accepted is Some {
        Some(NftSweepV {
            wallet: wallet->Some_0,
            wallet_label: wallet_label->Some_0,
            tx_hash: tx_hash->Some_0,
            tx_type: tx_type->Some_0,
            chain: chain->Some_0,
            index: index->Some_0,
            timestamp: timestamp->Some_0,
            block: block->Some_0,
            from: from->Some_0,
            to: to->Some_0,
            thumbnail: thumbnail->Some_0,
            image: image->Some_0,
            action: action->Some_0,
            contract: contract->Some_0,
            marketplace: marketplace->Some_0,
            nft_address: nft_address->Some_0,
            nft_name: nft_name->Some_0,
            nft_symbol: nft_symbol->Some_0,
            nft_token_id: nft_token_id->Some_0,
            price: price->Some_0,
            price_usd: price_usd->Some_0,
            profit: profit->Some_0,
            currency_symbol: currency_symbol->Some_0,
            buyer: buyer->Some_0,
            seller: seller->Some_0,
            token: token->Some_0,
            first_interaction: first_interaction->Some_0,
            bid_accepted: bid_accepted->Some_0,
        })
    } else {
        None
    }
}

/// Decodes a `nft_sweep` record from an object's members.
pub fn decode_nft_sweep(members: &Vec<(String, JsonValue)>) -> (r: Option<NftSweep>)
    ensures
        match r {
            Some(x) => spec_decode_nft_sweep(view_pairs(*members, 0)) == Some(x@),
            None => spec_decode_nft_sweep(view_pairs(*members, 0)) is None,
        },
{
    let wallet = match str_field(members, "wallet") {
        Some(v) => v,
        None => {
            return None;
        },
    };
    let wallet_label = match str_field(members, "wallet_label") {
        Some(v) => v,
        None => {
            return None;
        },
    };
    let tx_hash = match str_field(members, "tx_hash") {
        Some(v) => v,
        None => {
            return None;
        },
    };
    let tx_type = match str_field(members, "tx_type") {
        Some(v) => v,
        None => {
            return None;
        },
    };
    let chain = match str_field(members, "chain") {
        Some(v) => v,
        None => {
            return None;
        },
    };
    let index = match u32_field(members, "index") {
        Some(v) => v,
        None => {
            return None;
        },
    };
    let timestamp = match u64_field(members, "timestamp") {
        Some(v) => v,
        None => {
            return None;
        },
    };
    let block = match u64_field(members, "block") {
        Some(v) => v,
        None => {
            return None;
        },
    };
    let from = match str_field(members, "from") {
        Some(v) => v,
        None => {
            return None;
        },
    };
    let to = match str_field(members, "to") {
        Some(v) => v,
        None => {
            return None;
        },
    };
    let thumbnail = match str_field(members, "thumbnail") {
        Some(v) => v,
        None => {
            return None;
        },
    };
    let image = match str_field(members, "image") {
        Some(v) => v,
        None => {
            return None;
        },
    };
    let action = match str_field(members, "action") {
        Some(v) => v,
        None => {
            return None;
        },
    };
    let contract = match str_field(members, "contract") {
        Some(v) => v,
        None => {
            return None;
        },
    };
    let marketplace = match str_field(members, "marketplace") {
        Some(v) => v,
        None => {
            return None;
        },
    };
    let nft_address = match str_field(members, "nft_address") {
        Some(v) => v,
        None => {
            return None;
        },
    };
    let nft_name = match str_field(members, "nft_name") {
        Some(v) => v,
        None => {
            return None;
        },
    };
    let nft_symbol = match str_field(members, "nft_symbol") {
        Some(v) => v,
        None => {
            return None;
        },
    };
    let nft_token_id = match str_field(members, "nft_token_id") {
        Some(v) => v,
        None => {
            return None;
        },
    };
    let price = match num_field(members, "price") {
        Some(v) => v,
        None => {
            return None;
        },
    };
    let price_usd = match num_field(members, "price_usd") {
        Some(v) => v,
        None => {
            return None;
        },
    };
    let profit = match num_field(members, "profit") {
        Some(v) => v,
        None => {
            return None;
        },
    };
    let currency_symbol = match str_field(members, "currency_symbol") {
        Some(v) => v,
        None => {
            return None;
        },
    };
    let buyer = match str_field(members, "buyer") {
        Some(v) => v,
        None => {
            return None;
        },
    };
    let seller = match str_field(members, "seller") {
        Some(v) => v,
        None => {
            return None;
        },
    };
    let token = match str_field(members, "token") {
        Some(v) => v,
        None => {
            return None;
        },
    };
    let first_interaction = match bool_field(members, "first_interaction") {
        Some(v) => v,
        None => {
            return None;
        },
    };
    let bid_accepted = match bool_field(members, "bid_accepted") {
        Some(v) => v,
        None => {
            return None;
        },
    };
    Some(NftSweep {
        wallet,
        wallet_label,
        tx_hash,
        tx_type,
        chain,
        index,
        timestamp,
        block,
        from,
        to,
        thumbnail,
        image,
        action,
        contract,
        marketplace,
        nft_address,
        nft_name,
        nft_symbol,
        nft_token_id,
        price,
        price_usd,
        profit,
        currency_symbol,
        buyer,
        seller,
        token,
        first_interaction,
        bid_accepted,
    })
}

/// Decode of one feed item: the first shape whose members fit, in the
/// decoder's fixed order.
pub open spec fn spec_decode_item(v: JsonVal) -> Option<ItemV> {
    match v {
        JsonVal::Obj(o) => {
            if spec_decode_swap(o) is Some {
                Some(ItemV::Swap(spec_decode_swap(o)->Some_0))
            } else if spec_decode_lp(o) is Some {
                Some(ItemV::Lp(spec_decode_lp(o)->Some_0))
            } else if spec_decode_transfer(o) is Some {
                Some(ItemV::Transfer(spec_decode_transfer(o)->Some_0))
            } else if spec_decode_lending(o) is Some {
                Some(ItemV::Lending(spec_decode_lending(o)->Some_0))
            } else if spec_decode_nft_mint(o) is Some {
                Some(ItemV::NftMint(spec_decode_nft_mint(o)->Some_0))
            } else if spec_decode_nft_trade(o) is Some {
                Some(ItemV::NftTrade(spec_decode_nft_trade(o)->Some_0))
            } else if spec_decode_nft_transfer(o) is Some {
                Some(ItemV::NftTransfer(spec_decode_nft_transfer(o)->Some_0))
            } else if spec_decode_nft_lending(o) is Some {
                Some(ItemV::NftLending(spec_decode_nft_lending(o)->Some_0))
            } else if spec_decode_bridge(o) is Some {
                Some(ItemV::Bridge(spec_decode_bridge(o)->Some_0))
            } else if spec_decode_contract_interaction(o) is Some {
                Some(ItemV::ContractInteraction(spec_decode_contract_interaction(o)->Some_0))
            } else if spec_decode_wrap(o) is Some {
                Some(ItemV::Wrap(spec_decode_wrap(o)->Some_0))
            } else if spec_decode_sudo_pool(o) is Some {
                Some(ItemV::SudoPool(spec_decode_sudo_pool(o)->Some_0))
            } else if spec_decode_flashloan(o) is Some {
                Some(ItemV::Flashloan(spec_decode_flashloan(o)->Some_0))
            } else if spec_decode_reward(o) is Some {
                Some(ItemV::Reward(spec_decode_reward(o)->Some_0))
            } else if spec_decode_staking(o) is Some {
                Some(ItemV::Staking(spec_decode_staking(o)->Some_0))
            } else if spec_decode_perp(o) is Some {
                Some(ItemV::Perp(spec_decode_perp(o)->Some_0))
            } else if spec_decode_contract_creation(o) is Some {
                Some(ItemV::ContractCreation(spec_decode_contract_creation(o)->Some_0))
            } else if spec_decode_nft_liquidation(o) is Some {
                Some(ItemV::NftLiquidation(spec_decode_nft_liquidation(o)->Some_0))
            } else if spec_decode_option_type(o) is Some {
                Some(ItemV::OptionEvent(spec_decode_option_type(o)->Some_0))
            } else if spec_decode_nft_sweep(o) is Some {
                Some(ItemV::NftSweep(spec_decode_nft_sweep(o)->Some_0))
            } else {
                None
            }
        },
        _ => None,
    }
}

/// Decodes one feed item by trying each shape in the decoder's order.
pub fn decode_item(v: &JsonValue) -> (r: Option<Item>)
    ensures
        match r {
            Some(x) => spec_decode_item(v@) == Some(x@),
            None => spec_decode_item(v@) is None,
        },
{
    match v {
        JsonValue::Obj(members) => {
            if let Some(x) = decode_swap(members) {
                return Some(Item::Swap(x));
            }
            if let Some(x) = decode_lp(members) {
                return Some(Item::Lp(x));
            }
            if let Some(x) = decode_transfer(members) {
                return Some(Item::Transfer(x));
            }
            if let Some(x) = decode_lending(members) {
                return Some(Item::Lending(x));
            }
            if let Some(x) = decode_nft_mint(members) {
                return Some(Item::NftMint(x));
            }
            if let Some(x) = decode_nft_trade(members) {
                return Some(Item::NftTrade(x));
            }
            if let Some(x) = decode_nft_transfer(members) {
                return Some(Item::NftTransfer(x));
            }
            if let Some(x) = decode_nft_lending(members) {
                return Some(Item::NftLending(x));
            }
            if let Some(x) = decode_bridge(members) {
                return Some(Item::Bridge(x));
            }
            if let Some(x) = decode_contract_interaction(members) {
                return Some(Item::ContractInteraction(x));
            }
            if let Some(x) = decode_wrap(members) {
                return Some(Item::Wrap(x));
            }
            if let Some(x) = decode_sudo_pool(members) {
                return Some(Item::SudoPool(x));
            }
            if let Some(x) = decode_flashloan(members) {
                return Some(Item::Flashloan(x));
            }
            if let Some(x) = decode_reward(members) {
                return Some(Item::Reward(x));
            }
            if let Some(x) = decode_staking(members) {
                return Some(Item::Staking(x));
            }
            if let Some(x) = decode_perp(members) {
                return Some(Item::Perp(x));
            }
            if let Some(x) = decode_contract_creation(members) {
                return Some(Item::ContractCreation(x));
            }
            if let Some(x) = decode_nft_liquidation(members) {
                return Some(Item::NftLiquidation(x));
            }
            if let Some(x) = decode_option_type(members) {
                return Some(Item::OptionEvent(x));
            }
            if let Some(x) = decode_nft_sweep(members) {
                return Some(Item::NftSweep(x));
            }
            None
        },
        _ => None,
    }
}

} // verus!
