//! The typed feed-item records and their mathematical views.
//!
//! Each record mirrors one transaction shape of the wire format: a flat set
//! of mandatory members plus a handful of optional ones. Amounts and prices
//! are carried as [`JsonNumber`] values, so that a decoded record holds the
//! wire value exactly and the crate never computes on floating point.

use vstd::prelude::*;
use crate::json::JsonNumber;

verus! {

/// Market-capitalisation details attached to some records.
#[derive(Debug, Clone, PartialEq)]
pub struct TokenMarketCap {
    /// The address of the token.
    pub token_address: String,
    /// The market capitalisation of the token.
    pub market_cap: JsonNumber,
    /// The liquidity of the token.
    pub liquidity: JsonNumber,
}

/// The view of a [`TokenMarketCap`].
pub struct TokenMarketCapV {
    /// The address of the token.
    pub token_address: Seq<char>,
    /// The market capitalisation of the token.
    pub market_cap: JsonNumber,
    /// The liquidity of the token.
    pub liquidity: JsonNumber,
}

impl View for TokenMarketCap {
    type V = TokenMarketCapV;

    open spec fn view(&self) -> TokenMarketCapV {
        TokenMarketCapV {
            token_address: self.token_address@,
            market_cap: self.market_cap,
            liquidity: self.liquidity,
        }
    }
}

/// One `swap`-shaped record of the feed.
#[derive(Debug, Clone, PartialEq)]
pub struct Swap {
    /// The `wallet` member.
    pub wallet: String,
    /// The `wallet_label` member.
    pub wallet_label: String,
    /// The `tx_hash` member.
    pub tx_hash: String,
    /// The `tx_type` member.
    pub tx_type: String,
    /// The `chain` member.
    pub chain: String,
    /// The `index` member.
    pub index: u32,
    /// The `timestamp` member.
    pub timestamp: u64,
    /// The `block` member.
    pub block: u64,
    /// The `dex` member.
    pub dex: String,
    /// The `from` member.
    pub from: String,
    /// The `to` member.
    pub to: String,
    /// The `token0_address` member.
    pub token0_address: String,
    /// The `token0_amount` member.
    pub token0_amount: JsonNumber,
    /// The `token0_amount_usd` member.
    pub token0_amount_usd: JsonNumber,
    /// The `token0_name` member.
    pub token0_name: String,
    /// The `token0_price_usd` member.
    pub token0_price_usd: JsonNumber,
    /// The `token0_symbol` member.
    pub token0_symbol: String,
    /// The `token0_icon_link` member.
    pub token0_icon_link: String,
    /// The `token1_address` member.
    pub token1_address: String,
    /// The `token1_amount` member.
    pub token1_amount: JsonNumber,
    /// The `token1_amount_usd` member.
    pub token1_amount_usd: JsonNumber,
    /// The `token1_name` member.
    pub token1_name: String,
    /// The `token1_price_usd` member.
    pub token1_price_usd: JsonNumber,
    /// The `token1_symbol` member.
    pub token1_symbol: String,
    /// The `token1_icon_link` member.
    pub token1_icon_link: String,
    /// The `first_interaction` member.
    pub first_interaction: bool,
    /// The `token_market_cap` member.
    pub token_market_cap: Option<TokenMarketCap>,
}

/// The view of a [`Swap`] record.
pub struct SwapV {
    /// The `wallet` member.
    pub wallet: Seq<char>,
    /// The `wallet_label` member.
    pub wallet_label: Seq<char>,
    /// The `tx_hash` member.
    pub tx_hash: Seq<char>,
    /// The `tx_type` member.
    pub tx_type: Seq<char>,
    /// The `chain` member.
    pub chain: Seq<char>,
    /// The `index` member.
    pub index: u32,
    /// The `timestamp` member.
    pub timestamp: u64,
    /// The `block` member.
    pub block: u64,
    /// The `dex` member.
    pub dex: Seq<char>,
    /// The `from` member.
    pub from: Seq<char>,
    /// The `to` member.
    pub to: Seq<char>,
    /// The `token0_address` member.
    pub token0_address: Seq<char>,
    /// The `token0_amount` member.
    pub token0_amount: JsonNumber,
    /// The `token0_amount_usd` member.
    pub token0_amount_usd: JsonNumber,
    /// The `token0_name` member.
    pub token0_name: Seq<char>,
    /// The `token0_price_usd` member.
    pub token0_price_usd: JsonNumber,
    /// The `token0_symbol` member.
    pub token0_symbol: Seq<char>,
    /// The `token0_icon_link` member.
    pub token0_icon_link: Seq<char>,
    /// The `token1_address` member.
    pub token1_address: Seq<char>,
    /// The `token1_amount` member.
    pub token1_amount: JsonNumber,
    /// The `token1_amount_usd` member.
    pub token1_amount_usd: JsonNumber,
    /// The `token1_name` member.
    pub token1_name: Seq<char>,
    /// The `token1_price_usd` member.
    pub token1_price_usd: JsonNumber,
    /// The `token1_symbol` member.
    pub token1_symbol: Seq<char>,
    /// The `token1_icon_link` member.
    pub token1_icon_link: Seq<char>,
    /// The `first_interaction` member.
    pub first_interaction: bool,
    /// The `token_market_cap` member.
    pub token_market_cap: Option<TokenMarketCapV>,
}

impl View for Swap {
    type V = SwapV;

    open spec fn view(&self) -> SwapV {
        SwapV {
            wallet: self.wallet@,
            wallet_label: self.wallet_label@,
            tx_hash: self.tx_hash@,
            tx_type: self.tx_type@,
            chain: self.chain@,
            index: self.index,
            timestamp: self.timestamp,
            block: self.block,
            dex: self.dex@,
            from: self.from@,
            to: self.to@,
            token0_address: self.token0_address@,
            token0_amount: self.token0_amount,
            token0_amount_usd: self.token0_amount_usd,
            token0_name: self.token0_name@,
            token0_price_usd: self.token0_price_usd,
            token0_symbol: self.token0_symbol@,
            token0_icon_link: self.token0_icon_link@,
            token1_address: self.token1_address@,
            token1_amount: self.token1_amount,
            token1_amount_usd: self.token1_amount_usd,
            token1_name: self.token1_name@,
            token1_price_usd: self.token1_price_usd,
            token1_symbol: self.token1_symbol@,
            token1_icon_link: self.token1_icon_link@,
            first_interaction: self.first_interaction,
            token_market_cap: match self.token_market_cap { Option::Some(m) => Option::Some(m@), Option::None => Option::None },
        }
    }
}

/// One `lp`-shaped record of the feed.
#[derive(Debug, Clone, PartialEq)]
pub struct Lp {
    /// The `wallet` member.
    pub wallet: String,
    /// The `wallet_label` member.
    pub wallet_label: String,
    /// The `tx_hash` member.
    pub tx_hash: String,
    /// The `tx_type` member.
    pub tx_type: String,
    /// The `chain` member.
    pub chain: String,
    /// The `index` member.
    pub index: u32,
    /// The `timestamp` member.
    pub timestamp: u64,
    /// The `block` member.
    pub block: u64,
    /// The `dex` member.
    pub dex: String,
    /// The `from` member.
    pub from: String,
    /// The `type` member.
    pub type_field: String,
    /// The `token0_address` member.
    pub token0_address: String,
    /// The `token0_amount` member.
    pub token0_amount: JsonNumber,
    /// The `token0_amount_usd` member.
    pub token0_amount_usd: JsonNumber,
    /// The `token0_name` member.
    pub token0_name: String,
    /// The `token0_price_usd` member.
    pub token0_price_usd: JsonNumber,
    /// The `token0_symbol` member.
    pub token0_symbol: String,
    /// The `token0_icon_link` member.
    pub token0_icon_link: String,
    /// The `token1_address` member.
    pub token1_address: String,
    /// The `token1_amount` member.
    pub token1_amount: JsonNumber,
    /// The `token1_amount_usd` member.
    pub token1_amount_usd: JsonNumber,
    /// The `token1_name` member.
    pub token1_name: String,
    /// The `token1_price_usd` member.
    pub token1_price_usd: JsonNumber,
    /// The `token1_symbol` member.
    pub token1_symbol: String,
    /// The `token1_icon_link` member.
    pub token1_icon_link: String,
    /// The `lower_bound` member.
    pub lower_bound: JsonNumber,
    /// The `upper_bound` member.
    pub upper_bound: JsonNumber,
}

/// The view of a [`Lp`] record.
pub struct LpV {
    /// The `wallet` member.
    pub wallet: Seq<char>,
    /// The `wallet_label` member.
    pub wallet_label: Seq<char>,
    /// The `tx_hash` member.
    pub tx_hash: Seq<char>,
    /// The `tx_type` member.
    pub tx_type: Seq<char>,
    /// The `chain` member.
    pub chain: Seq<char>,
    /// The `index` member.
    pub index: u32,
    /// The `timestamp` member.
    pub timestamp: u64,
    /// The `block` member.
    pub block: u64,
    /// The `dex` member.
    pub dex: Seq<char>,
    /// The `from` member.
    pub from: Seq<char>,
    /// The `type` member.
    pub type_field: Seq<char>,
    /// The `token0_address` member.
    pub token0_address: Seq<char>,
    /// The `token0_amount` member.
    pub token0_amount: JsonNumber,
    /// The `token0_amount_usd` member.
    pub token0_amount_usd: JsonNumber,
    /// The `token0_name` member.
    pub token0_name: Seq<char>,
    /// The `token0_price_usd` member.
    pub token0_price_usd: JsonNumber,
    /// The `token0_symbol` member.
    pub token0_symbol: Seq<char>,
    /// The `token0_icon_link` member.
    pub token0_icon_link: Seq<char>,
    /// The `token1_address` member.
    pub token1_address: Seq<char>,
    /// The `token1_amount` member.
    pub token1_amount: JsonNumber,
    /// The `token1_amount_usd` member.
    pub token1_amount_usd: JsonNumber,
    /// The `token1_name` member.
    pub token1_name: Seq<char>,
    /// The `token1_price_usd` member.
    pub token1_price_usd: JsonNumber,
    /// The `token1_symbol` member.
    pub token1_symbol: Seq<char>,
    /// The `token1_icon_link` member.
    pub token1_icon_link: Seq<char>,
    /// The `lower_bound` member.
    pub lower_bound: JsonNumber,
    /// The `upper_bound` member.
    pub upper_bound: JsonNumber,
}

impl View for Lp {
    type V = LpV;

    open spec fn view(&self) -> LpV {
        LpV {
            wallet: self.wallet@,
            wallet_label: self.wallet_label@,
            tx_hash: self.tx_hash@,
            tx_type: self.tx_type@,
            chain: self.chain@,
            index: self.index,
            timestamp: self.timestamp,
            block: self.block,
            dex: self.dex@,
            from: self.from@,
            type_field: self.type_field@,
            token0_address: self.token0_address@,
            token0_amount: self.token0_amount,
            token0_amount_usd: self.token0_amount_usd,
            token0_name: self.token0_name@,
            token0_price_usd: self.token0_price_usd,
            token0_symbol: self.token0_symbol@,
            token0_icon_link: self.token0_icon_link@,
            token1_address: self.token1_address@,
            token1_amount: self.token1_amount,
            token1_amount_usd: self.token1_amount_usd,
            token1_name: self.token1_name@,
            token1_price_usd: self.token1_price_usd,
            token1_symbol: self.token1_symbol@,
            token1_icon_link: self.token1_icon_link@,
            lower_bound: self.lower_bound,
            upper_bound: self.upper_bound,
        }
    }
}

/// One `transfer`-shaped record of the feed.
#[derive(Debug, Clone, PartialEq)]
pub struct Transfer {
    /// The `wallet` member.
    pub wallet: String,
    /// The `wallet_label` member.
    pub wallet_label: String,
    /// The `tx_hash` member.
    pub tx_hash: String,
    /// The `tx_type` member.
    pub tx_type: String,
    /// The `chain` member.
    pub chain: String,
    /// The `index` member.
    pub index: u32,
    /// The `timestamp` member.
    pub timestamp: u64,
    /// The `block` member.
    pub block: u64,
    /// The `from` member.
    pub from: String,
    /// The `to` member.
    pub to: String,
    /// The `from_label` member.
    pub from_label: String,
    /// The `to_label` member.
    pub to_label: String,
    /// The `amount_usd` member.
    pub amount_usd: JsonNumber,
    /// The `contract_address` member.
    pub contract_address: String,
    /// The `name` member.
    pub name: String,
    /// The `symbol` member.
    pub symbol: String,
    /// The `token_price_usd` member.
    pub token_price_usd: JsonNumber,
    /// The `type` member.
    pub type_field: String,
    /// The `token_icon_link` member.
    pub token_icon_link: String,
    /// The `token_market_cap` member.
    pub token_market_cap: Option<TokenMarketCap>,
}

/// The view of a [`Transfer`] record.
pub struct TransferV {
    /// The `wallet` member.
    pub wallet: Seq<char>,
    /// The `wallet_label` member.
    pub wallet_label: Seq<char>,
    /// The `tx_hash` member.
    pub tx_hash: Seq<char>,
    /// The `tx_type` member.
    pub tx_type: Seq<char>,
    /// The `chain` member.
    pub chain: Seq<char>,
    /// The `index` member.
    pub index: u32,
    /// The `timestamp` member.
    pub timestamp: u64,
    /// The `block` member.
    pub block: u64,
    /// The `from` member.
    pub from: Seq<char>,
    /// The `to` member.
    pub to: Seq<char>,
    /// The `from_label` member.
    pub from_label: Seq<char>,
    /// The `to_label` member.
    pub to_label: Seq<char>,
    /// The `amount_usd` member.
    pub amount_usd: JsonNumber,
    /// The `contract_address` member.
    pub contract_address: Seq<char>,
    /// The `name` member.
    pub name: Seq<char>,
    /// The `symbol` member.
    pub symbol: Seq<char>,
    /// The `token_price_usd` member.
    pub token_price_usd: JsonNumber,
    /// The `type` member.
    pub type_field: Seq<char>,
    /// The `token_icon_link` member.
    pub token_icon_link: Seq<char>,
    /// The `token_market_cap` member.
    pub token_market_cap: Option<TokenMarketCapV>,
}

impl View for Transfer {
    type V = TransferV;

    open spec fn view(&self) -> TransferV {
        TransferV {
            wallet: self.wallet@,
            wallet_label: self.wallet_label@,
            tx_hash: self.tx_hash@,
            tx_type: self.tx_type@,
            chain: self.chain@,
            index: self.index,
            timestamp: self.timestamp,
            block: self.block,
            from: self.from@,
            to: self.to@,
            from_label: self.from_label@,
            to_label: self.to_label@,
            amount_usd: self.amount_usd,
            contract_address: self.contract_address@,
            name: self.name@,
            symbol: self.symbol@,
            token_price_usd: self.token_price_usd,
            type_field: self.type_field@,
            token_icon_link: self.token_icon_link@,
            token_market_cap: match self.token_market_cap { Option::Some(m) => Option::Some(m@), Option::None => Option::None },
        }
    }
}

/// One `lending`-shaped record of the feed.
#[derive(Debug, Clone, PartialEq)]
pub struct Lending {
    /// The `wallet` member.
    pub wallet: String,
    /// The `wallet_label` member.
    pub wallet_label: String,
    /// The `tx_hash` member.
    pub tx_hash: String,
    /// The `tx_type` member.
    pub tx_type: String,
    /// The `chain` member.
    pub chain: String,
    /// The `index` member.
    pub index: u32,
    /// The `timestamp` member.
    pub timestamp: u64,
    /// The `block` member.
    pub block: u64,
    /// The `from` member.
    pub from: String,
    /// The `from_label` member.
    pub from_label: String,
    /// The `action` member.
    pub action: String,
    /// The `address` member.
    pub address: String,
    /// The `amount` member.
    pub amount: JsonNumber,
    /// The `amount_usd` member.
    pub amount_usd: JsonNumber,
    /// The `dex` member.
    pub dex: String,
    /// The `health_factor` member.
    pub health_factor: JsonNumber,
    /// The `name` member.
    pub name: String,
    /// The `platform` member.
    pub platform: String,
    /// The `price_usd` member.
    pub price_usd: JsonNumber,
    /// The `symbol` member.
    pub symbol: String,
    /// The `token_icon_link` member.
    pub token_icon_link: String,
}

/// The view of a [`Lending`] record.
pub struct LendingV {
    /// The `wallet` member.
    pub wallet: Seq<char>,
    /// The `wallet_label` member.
    pub wallet_label: Seq<char>,
    /// The `tx_hash` member.
    pub tx_hash: Seq<char>,
    /// The `tx_type` member.
    pub tx_type: Seq<char>,
    /// The `chain` member.
    pub chain: Seq<char>,
    /// The `index` member.
    pub index: u32,
    /// The `timestamp` member.
    pub timestamp: u64,
    /// The `block` member.
    pub block: u64,
    /// The `from` member.
    pub from: Seq<char>,
    /// The `from_label` member.
    pub from_label: Seq<char>,
    /// The `action` member.
    pub action: Seq<char>,
    /// The `address` member.
    pub address: Seq<char>,
    /// The `amount` member.
    pub amount: JsonNumber,
    /// The `amount_usd` member.
    pub amount_usd: JsonNumber,
    /// The `dex` member.
    pub dex: Seq<char>,
    /// The `health_factor` member.
    pub health_factor: JsonNumber,
    /// The `name` member.
    pub name: Seq<char>,
    /// The `platform` member.
    pub platform: Seq<char>,
    /// The `price_usd` member.
    pub price_usd: JsonNumber,
    /// The `symbol` member.
    pub symbol: Seq<char>,
    /// The `token_icon_link` member.
    pub token_icon_link: Seq<char>,
}

impl View for Lending {
    type V = LendingV;

    open spec fn view(&self) -> LendingV {
        LendingV {
            wallet: self.wallet@,
            wallet_label: self.wallet_label@,
            tx_hash: self.tx_hash@,
            tx_type: self.tx_type@,
            chain: self.chain@,
            index: self.index,
            timestamp: self.timestamp,
            block: self.block,
            from: self.from@,
            from_label: self.from_label@,
            action: self.action@,
            address: self.address@,
            amount: self.amount,
            amount_usd: self.amount_usd,
            dex: self.dex@,
            health_factor: self.health_factor,
            name: self.name@,
            platform: self.platform@,
            price_usd: self.price_usd,
            symbol: self.symbol@,
            token_icon_link: self.token_icon_link@,
        }
    }
}

/// One `nft_mint`-shaped record of the feed.
#[derive(Debug, Clone, PartialEq)]
pub struct NftMint {
    /// The `wallet` member.
    pub wallet: String,
    /// The `wallet_label` member.
    pub wallet_label: String,
    /// The `tx_hash` member.
    pub tx_hash: String,
    /// The `tx_type` member.
    pub tx_type: String,
    /// The `chain` member.
    pub chain: String,
    /// The `index` member.
    pub index: u32,
    /// The `timestamp` member.
    pub timestamp: u64,
    /// The `block` member.
    pub block: u64,
    /// The `from` member.
    pub from: String,
    /// The `to` member.
    pub to: String,
    /// The `from_label` member.
    pub from_label: String,
    /// The `to_label` member.
    pub to_label: String,
    /// The `thumbnail` member.
    pub thumbnail: String,
    /// The `image` member.
    pub image: String,
    /// The `amount` member.
    pub amount: JsonNumber,
    /// The `contract_address` member.
    pub contract_address: String,
    /// The `contract_type` member.
    pub contract_type: String,
    /// The `fee` member.
    pub fee: JsonNumber,
    /// The `nft_name` member.
    pub nft_name: String,
    /// The `nft_symbol` member.
    pub nft_symbol: String,
    /// The `nft_token_id` member.
    pub nft_token_id: String,
    /// The `currency_symbol` member.
    pub currency_symbol: String,
    /// The `type` member.
    pub type_field: String,
    /// The `value` member.
    pub value: JsonNumber,
    /// The `value_usd` member.
    pub value_usd: JsonNumber,
}

/// The view of a [`NftMint`] record.
pub struct NftMintV {
    /// The `wallet` member.
    pub wallet: Seq<char>,
    /// The `wallet_label` member.
    pub wallet_label: Seq<char>,
    /// The `tx_hash` member.
    pub tx_hash: Seq<char>,
    /// The `tx_type` member.
    pub tx_type: Seq<char>,
    /// The `chain` member.
    pub chain: Seq<char>,
    /// The `index` member.
    pub index: u32,
    /// The `timestamp` member.
    pub timestamp: u64,
    /// The `block` member.
    pub block: u64,
    /// The `from` member.
    pub from: Seq<char>,
    /// The `to` member.
    pub to: Seq<char>,
    /// The `from_label` member.
    pub from_label: Seq<char>,
    /// The `to_label` member.
    pub to_label: Seq<char>,
    /// The `thumbnail` member.
    pub thumbnail: Seq<char>,
    /// The `image` member.
    pub image: Seq<char>,
    /// The `amount` member.
    pub amount: JsonNumber,
    /// The `contract_address` member.
    pub contract_address: Seq<char>,
    /// The `contract_type` member.
    pub contract_type: Seq<char>,
    /// The `fee` member.
    pub fee: JsonNumber,
    /// The `nft_name` member.
    pub nft_name: Seq<char>,
    /// The `nft_symbol` member.
    pub nft_symbol: Seq<char>,
    /// The `nft_token_id` member.
    pub nft_token_id: Seq<char>,
    /// The `currency_symbol` member.
    pub currency_symbol: Seq<char>,
    /// The `type` member.
    pub type_field: Seq<char>,
    /// The `value` member.
    pub value: JsonNumber,
    /// The `value_usd` member.
    pub value_usd: JsonNumber,
}

impl View for NftMint {
    type V = NftMintV;

    open spec fn view(&self) -> NftMintV {
        NftMintV {
            wallet: self.wallet@,
            wallet_label: self.wallet_label@,
            tx_hash: self.tx_hash@,
            tx_type: self.tx_type@,
            chain: self.chain@,
            index: self.index,
            timestamp: self.timestamp,
            block: self.block,
            from: self.from@,
            to: self.to@,
            from_label: self.from_label@,
            to_label: self.to_label@,
            thumbnail: self.thumbnail@,
            image: self.image@,
            amount: self.amount,
            contract_address: self.contract_address@,
            contract_type: self.contract_type@,
            fee: self.fee,
            nft_name: self.nft_name@,
            nft_symbol: self.nft_symbol@,
            nft_token_id: self.nft_token_id@,
            currency_symbol: self.currency_symbol@,
            type_field: self.type_field@,
            value: self.value,
            value_usd: self.value_usd,
        }
    }
}

/// One `nft_trade`-shaped record of the feed.
#[derive(Debug, Clone, PartialEq)]
pub struct NftTrade {
    /// The `wallet` member.
    pub wallet: String,
    /// The `wallet_label` member.
    pub wallet_label: String,
    /// The `tx_hash` member.
    pub tx_hash: String,
    /// The `tx_type` member.
    pub tx_type: String,
    /// The `chain` member.
    pub chain: String,
    /// The `index` member.
    pub index: u32,
    /// The `timestamp` member.
    pub timestamp: u64,
    /// The `block` member.
    pub block: u64,
    /// The `from` member.
    pub from: String,
    /// The `to` member.
    pub to: String,
    /// The `thumbnail` member.
    pub thumbnail: String,
    /// The `image` member.
    pub image: String,
    /// The `action` member.
    pub action: String,
    /// The `contract` member.
    pub contract: String,
    /// The `marketplace` member.
    pub marketplace: String,
    /// The `nft_address` member.
    pub nft_address: String,
    /// The `nft_name` member.
    pub nft_name: String,
    /// The `nft_symbol` member.
    pub nft_symbol: String,
    /// The `nft_token_id` member.
    pub nft_token_id: String,
    /// The `price` member.
    pub price: JsonNumber,
    /// The `price_usd` member.
    pub price_usd: JsonNumber,
    /// The `profit` member.
    pub profit: JsonNumber,
    /// The `currency_symbol` member.
    pub currency_symbol: String,
    /// The `buyer` member.
    pub buyer: String,
    /// The `seller` member.
    pub seller: String,
    /// The `token` member.
    pub token: String,
    /// The `first_interaction` member.
    pub first_interaction: bool,
    /// The `bid_accepted` member.
    pub bid_accepted: bool,
}

/// The view of a [`NftTrade`] record.
pub struct NftTradeV {
    /// The `wallet` member.
    pub wallet: Seq<char>,
    /// The `wallet_label` member.
    pub wallet_label: Seq<char>,
    /// The `tx_hash` member.
    pub tx_hash: Seq<char>,
    /// The `tx_type` member.
    pub tx_type: Seq<char>,
    /// The `chain` member.
    pub chain: Seq<char>,
    /// The `index` member.
    pub index: u32,
    /// The `timestamp` member.
    pub timestamp: u64,
    /// The `block` member.
    pub block: u64,
    /// The `from` member.
    pub from: Seq<char>,
    /// The `to` member.
    pub to: Seq<char>,
    /// The `thumbnail` member.
    pub thumbnail: Seq<char>,
    /// The `image` member.
    pub image: Seq<char>,
    /// The `action` member.
    pub action: Seq<char>,
    /// The `contract` member.
    pub contract: Seq<char>,
    /// The `marketplace` member.
    pub marketplace: Seq<char>,
    /// The `nft_address` member.
    pub nft_address: Seq<char>,
    /// The `nft_name` member.
    pub nft_name: Seq<char>,
    /// The `nft_symbol` member.
    pub nft_symbol: Seq<char>,
    /// The `nft_token_id` member.
    pub nft_token_id: Seq<char>,
    /// The `price` member.
    pub price: JsonNumber,
    /// The `price_usd` member.
    pub price_usd: JsonNumber,
    /// The `profit` member.
    pub profit: JsonNumber,
    /// The `currency_symbol` member.
    pub currency_symbol: Seq<char>,
    /// The `buyer` member.
    pub buyer: Seq<char>,
    /// The `seller` member.
    pub seller: Seq<char>,
    /// The `token` member.
    pub token: Seq<char>,
    /// The `first_interaction` member.
    pub first_interaction: bool,
    /// The `bid_accepted` member.
    pub bid_accepted: bool,
}

impl View for NftTrade {
    type V = NftTradeV;

    open spec fn view(&self) -> NftTradeV {
        NftTradeV {
            wallet: self.wallet@,
            wallet_label: self.wallet_label@,
            tx_hash: self.tx_hash@,
            tx_type: self.tx_type@,
            chain: self.chain@,
            index: self.index,
            timestamp: self.timestamp,
            block: self.block,
            from: self.from@,
            to: self.to@,
            thumbnail: self.thumbnail@,
            image: self.image@,
            action: self.action@,
            contract: self.contract@,
            marketplace: self.marketplace@,
            nft_address: self.nft_address@,
            nft_name: self.nft_name@,
            nft_symbol: self.nft_symbol@,
            nft_token_id: self.nft_token_id@,
            price: self.price,
            price_usd: self.price_usd,
            profit: self.profit,
            currency_symbol: self.currency_symbol@,
            buyer: self.buyer@,
            seller: self.seller@,
            token: self.token@,
            first_interaction: self.first_interaction,
            bid_accepted: self.bid_accepted,
        }
    }
}

/// One `nft_transfer`-shaped record of the feed.
#[derive(Debug, Clone, PartialEq)]
pub struct NftTransfer {
    /// The `wallet` member.
    pub wallet: String,
    /// The `wallet_label` member.
    pub wallet_label: String,
    /// The `tx_hash` member.
    pub tx_hash: String,
    /// The `tx_type` member.
    pub tx_type: String,
    /// The `chain` member.
    pub chain: String,
    /// The `index` member.
    pub index: u32,
    /// The `timestamp` member.
    pub timestamp: u64,
    /// The `block` member.
    pub block: u64,
    /// The `from` member.
    pub from: String,
    /// The `to` member.
    pub to: String,
    /// The `from_label` member.
    pub from_label: String,
    /// The `to_label` member.
    pub to_label: String,
    /// The `thumbnail` member.
    pub thumbnail: String,
    /// The `image` member.
    pub image: String,
    /// The `contract_address` member.
    pub contract_address: String,
    /// The `contract_type` member.
    pub contract_type: String,
    /// The `fee` member.
    pub fee: JsonNumber,
    /// The `nft_name` member.
    pub nft_name: String,
    /// The `nft_symbol` member.
    pub nft_symbol: String,
    /// The `nft_token_id` member.
    pub nft_token_id: String,
    /// The `type` member.
    pub type_field: String,
    /// The `value` member.
    pub value: JsonNumber,
}

/// The view of a [`NftTransfer`] record.
pub struct NftTransferV {
    /// The `wallet` member.
    pub wallet: Seq<char>,
    /// The `wallet_label` member.
    pub wallet_label: Seq<char>,
    /// The `tx_hash` member.
    pub tx_hash: Seq<char>,
    /// The `tx_type` member.
    pub tx_type: Seq<char>,
    /// The `chain` member.
    pub chain: Seq<char>,
    /// The `index` member.
    pub index: u32,
    /// The `timestamp` member.
    pub timestamp: u64,
    /// The `block` member.
    pub block: u64,
    /// The `from` member.
    pub from: Seq<char>,
    /// The `to` member.
    pub to: Seq<char>,
    /// The `from_label` member.
    pub from_label: Seq<char>,
    /// The `to_label` member.
    pub to_label: Seq<char>,
    /// The `thumbnail` member.
    pub thumbnail: Seq<char>,
    /// The `image` member.
    pub image: Seq<char>,
    /// The `contract_address` member.
    pub contract_address: Seq<char>,
    /// The `contract_type` member.
    pub contract_type: Seq<char>,
    /// The `fee` member.
    pub fee: JsonNumber,
    /// The `nft_name` member.
    pub nft_name: Seq<char>,
    /// The `nft_symbol` member.
    pub nft_symbol: Seq<char>,
    /// The `nft_token_id` member.
    pub nft_token_id: Seq<char>,
    /// The `type` member.
    pub type_field: Seq<char>,
    /// The `value` member.
    pub value: JsonNumber,
}

impl View for NftTransfer {
    type V = NftTransferV;

    open spec fn view(&self) -> NftTransferV {
        NftTransferV {
            wallet: self.wallet@,
            wallet_label: self.wallet_label@,
            tx_hash: self.tx_hash@,
            tx_type: self.tx_type@,
            chain: self.chain@,
            index: self.index,
            timestamp: self.timestamp,
            block: self.block,
            from: self.from@,
            to: self.to@,
            from_label: self.from_label@,
            to_label: self.to_label@,
            thumbnail: self.thumbnail@,
            image: self.image@,
            contract_address: self.contract_address@,
            contract_type: self.contract_type@,
            fee: self.fee,
            nft_name: self.nft_name@,
            nft_symbol: self.nft_symbol@,
            nft_token_id: self.nft_token_id@,
            type_field: self.type_field@,
            value: self.value,
        }
    }
}

/// One `nft_lending`-shaped record of the feed.
#[derive(Debug, Clone, PartialEq)]
pub struct NftLending {
    /// The `wallet` member.
    pub wallet: String,
    /// The `wallet_label` member.
    pub wallet_label: String,
    /// The `tx_hash` member.
    pub tx_hash: String,
    /// The `tx_type` member.
    pub tx_type: String,
    /// The `chain` member.
    pub chain: String,
    /// The `index` member.
    pub index: u32,
    /// The `timestamp` member.
    pub timestamp: u64,
    /// The `block` member.
    pub block: u64,
    /// The `from` member.
    pub from: String,
    /// The `to` member.
    pub to: String,
    /// The `from_label` member.
    pub from_label: String,
    /// The `to_label` member.
    pub to_label: String,
    /// The `thumbnail` member.
    pub thumbnail: String,
    /// The `image` member.
    pub image: String,
    /// The `action` member.
    pub action: String,
    /// The `currency_address` member.
    pub currency_address: String,
    /// The `currency_symbol` member.
    pub currency_symbol: String,
    /// The `interest` member.
    pub interest: JsonNumber,
    /// The `nft_address` member.
    pub nft_address: String,
    /// The `nft_name` member.
    pub nft_name: String,
    /// The `nft_symbol` member.
    pub nft_symbol: String,
    /// The `platform` member.
    pub platform: String,
    /// The `nft_token_id` member.
    pub nft_token_id: String,
    /// The `price` member.
    pub price: JsonNumber,
    /// The `price_usd` member.
    pub price_usd: JsonNumber,
    /// The `terms` member.
    pub terms: JsonNumber,
    /// The `refinance` member.
    pub refinance: bool,
}

/// The view of a [`NftLending`] record.
pub struct NftLendingV {
    /// The `wallet` member.
    pub wallet: Seq<char>,
    /// The `wallet_label` member.
    pub wallet_label: Seq<char>,
    /// The `tx_hash` member.
    pub tx_hash: Seq<char>,
    /// The `tx_type` member.
    pub tx_type: Seq<char>,
    /// The `chain` member.
    pub chain: Seq<char>,
    /// The `index` member.
    pub index: u32,
    /// The `timestamp` member.
    pub timestamp: u64,
    /// The `block` member.
    pub block: u64,
    /// The `from` member.
    pub from: Seq<char>,
    /// The `to` member.
    pub to: Seq<char>,
    /// The `from_label` member.
    pub from_label: Seq<char>,
    /// The `to_label` member.
    pub to_label: Seq<char>,
    /// The `thumbnail` member.
    pub thumbnail: Seq<char>,
    /// The `image` member.
    pub image: Seq<char>,
    /// The `action` member.
    pub action: Seq<char>,
    /// The `currency_address` member.
    pub currency_address: Seq<char>,
    /// The `currency_symbol` member.
    pub currency_symbol: Seq<char>,
    /// The `interest` member.
    pub interest: JsonNumber,
    /// The `nft_address` member.
    pub nft_address: Seq<char>,
    /// The `nft_name` member.
    pub nft_name: Seq<char>,
    /// The `nft_symbol` member.
    pub nft_symbol: Seq<char>,
    /// The `platform` member.
    pub platform: Seq<char>,
    /// The `nft_token_id` member.
    pub nft_token_id: Seq<char>,
    /// The `price` member.
    pub price: JsonNumber,
    /// The `price_usd` member.
    pub price_usd: JsonNumber,
    /// The `terms` member.
    pub terms: JsonNumber,
    /// The `refinance` member.
    pub refinance: bool,
}

impl View for NftLending {
    type V = NftLendingV;

    open spec fn view(&self) -> NftLendingV {
        NftLendingV {
            wallet: self.wallet@,
            wallet_label: self.wallet_label@,
            tx_hash: self.tx_hash@,
            tx_type: self.tx_type@,
            chain: self.chain@,
            index: self.index,
            timestamp: self.timestamp,
            block: self.block,
            from: self.from@,
            to: self.to@,
            from_label: self.from_label@,
            to_label: self.to_label@,
            thumbnail: self.thumbnail@,
            image: self.image@,
            action: self.action@,
            currency_address: self.currency_address@,
            currency_symbol: self.currency_symbol@,
            interest: self.interest,
            nft_address: self.nft_address@,
            nft_name: self.nft_name@,
            nft_symbol: self.nft_symbol@,
            platform: self.platform@,
            nft_token_id: self.nft_token_id@,
            price: self.price,
            price_usd: self.price_usd,
            terms: self.terms,
            refinance: self.refinance,
        }
    }
}

/// One `bridge`-shaped record of the feed.
#[derive(Debug, Clone, PartialEq)]
pub struct Bridge {
    /// The `wallet` member.
    pub wallet: String,
    /// The `wallet_label` member.
    pub wallet_label: String,
    /// The `tx_hash` member.
    pub tx_hash: String,
    /// The `tx_type` member.
    pub tx_type: String,
    /// The `chain` member.
    pub chain: String,
    /// The `index` member.
    pub index: u32,
    /// The `timestamp` member.
    pub timestamp: u64,
    /// The `block` member.
    pub block: u64,
    /// The `from` member.
    pub from: String,
    /// The `to` member.
    pub to: String,
    /// The `from_label` member.
    pub from_label: String,
    /// The `to_label` member.
    pub to_label: String,
    /// The `token_address` member.
    pub token_address: String,
    /// The `token_name` member.
    pub token_name: String,
    /// The `token_symbol` member.
    pub token_symbol: String,
    /// The `token_icon_link` member.
    pub token_icon_link: String,
    /// The `amount` member.
    pub amount: JsonNumber,
    /// The `amount_usd` member.
    pub amount_usd: JsonNumber,
    /// The `from_chain` member.
    pub from_chain: String,
    /// The `to_chain` member.
    pub to_chain: String,
    /// The `platform` member.
    pub platform: String,
    /// The `price` member.
    pub price: JsonNumber,
    /// The `type` member.
    pub type_field: String,
}

/// The view of a [`Bridge`] record.
pub struct BridgeV {
    /// The `wallet` member.
    pub wallet: Seq<char>,
    /// The `wallet_label` member.
    pub wallet_label: Seq<char>,
    /// The `tx_hash` member.
    pub tx_hash: Seq<char>,
    /// The `tx_type` member.
    pub tx_type: Seq<char>,
    /// The `chain` member.
    pub chain: Seq<char>,
    /// The `index` member.
    pub index: u32,
    /// The `timestamp` member.
    pub timestamp: u64,
    /// The `block` member.
    pub block: u64,
    /// The `from` member.
    pub from: Seq<char>,
    /// The `to` member.
    pub to: Seq<char>,
    /// The `from_label` member.
    pub from_label: Seq<char>,
    /// The `to_label` member.
    pub to_label: Seq<char>,
    /// The `token_address` member.
    pub token_address: Seq<char>,
    /// The `token_name` member.
    pub token_name: Seq<char>,
    /// The `token_symbol` member.
    pub token_symbol: Seq<char>,
    /// The `token_icon_link` member.
    pub token_icon_link: Seq<char>,
    /// The `amount` member.
    pub amount: JsonNumber,
    /// The `amount_usd` member.
    pub amount_usd: JsonNumber,
    /// The `from_chain` member.
    pub from_chain: Seq<char>,
    /// The `to_chain` member.
    pub to_chain: Seq<char>,
    /// The `platform` member.
    pub platform: Seq<char>,
    /// The `price` member.
    pub price: JsonNumber,
    /// The `type` member.
    pub type_field: Seq<char>,
}

impl View for Bridge {
    type V = BridgeV;

    open spec fn view(&self) -> BridgeV {
        BridgeV {
            wallet: self.wallet@,
            wallet_label: self.wallet_label@,
            tx_hash: self.tx_hash@,
            tx_type: self.tx_type@,
            chain: self.chain@,
            index: self.index,
            timestamp: self.timestamp,
            block: self.block,
            from: self.from@,
            to: self.to@,
            from_label: self.from_label@,
            to_label: self.to_label@,
            token_address: self.token_address@,
            token_name: self.token_name@,
            token_symbol: self.token_symbol@,
            token_icon_link: self.token_icon_link@,
            amount: self.amount,
            amount_usd: self.amount_usd,
            from_chain: self.from_chain@,
            to_chain: self.to_chain@,
            platform: self.platform@,
            price: self.price,
            type_field: self.type_field@,
        }
    }
}

/// One `contract_interaction`-shaped record of the feed.
#[derive(Debug, Clone, PartialEq)]
pub struct ContractInteraction {
    /// The `wallet` member.
    pub wallet: String,
    /// The `wallet_label` member.
    pub wallet_label: String,
    /// The `tx_hash` member.
    pub tx_hash: String,
    /// The `tx_type` member.
    pub tx_type: String,
    /// The `chain` member.
    pub chain: String,
    /// The `index` member.
    pub index: u32,
    /// The `timestamp` member.
    pub timestamp: u64,
    /// The `block` member.
    pub block: u64,
    /// The `from` member.
    pub from: String,
    /// The `to` member.
    pub to: String,
    /// The `contract_address` member.
    pub contract_address: String,
    /// The `contract_label` member.
    pub contract_label: String,
}

/// The view of a [`ContractInteraction`] record.
pub struct ContractInteractionV {
    /// The `wallet` member.
    pub wallet: Seq<char>,
    /// The `wallet_label` member.
    pub wallet_label: Seq<char>,
    /// The `tx_hash` member.
    pub tx_hash: Seq<char>,
    /// The `tx_type` member.
    pub tx_type: Seq<char>,
    /// The `chain` member.
    pub chain: Seq<char>,
    /// The `index` member.
    pub index: u32,
    /// The `timestamp` member.
    pub timestamp: u64,
    /// The `block` member.
    pub block: u64,
    /// The `from` member.
    pub from: Seq<char>,
    /// The `to` member.
    pub to: Seq<char>,
    /// The `contract_address` member.
    pub contract_address: Seq<char>,
    /// The `contract_label` member.
    pub contract_label: Seq<char>,
}

impl View for ContractInteraction {
    type V = ContractInteractionV;

    open spec fn view(&self) -> ContractInteractionV {
        ContractInteractionV {
            wallet: self.wallet@,
            wallet_label: self.wallet_label@,
            tx_hash: self.tx_hash@,
            tx_type: self.tx_type@,
            chain: self.chain@,
            index: self.index,
            timestamp: self.timestamp,
            block: self.block,
            from: self.from@,
            to: self.to@,
            contract_address: self.contract_address@,
            contract_label: self.contract_label@,
        }
    }
}

/// One `wrap`-shaped record of the feed.
#[derive(Debug, Clone, PartialEq)]
pub struct Wrap {
    /// The `wallet` member.
    pub wallet: String,
    /// The `wallet_label` member.
    pub wallet_label: String,
    /// The `tx_hash` member.
    pub tx_hash: String,
    /// The `tx_type` member.
    pub tx_type: String,
    /// The `chain` member.
    pub chain: String,
    /// The `index` member.
    pub index: u32,
    /// The `timestamp` member.
    pub timestamp: u64,
    /// The `block` member.
    pub block: u64,
    /// The `dex` member.
    pub dex: String,
    /// The `from` member.
    pub from: String,
    /// The `to` member.
    pub to: String,
    /// The `action` member.
    pub action: String,
    /// The `amount` member.
    pub amount: JsonNumber,
    /// The `amount_usd` member.
    pub amount_usd: JsonNumber,
    /// The `contract_address` member.
    pub contract_address: String,
    /// The `name` member.
    pub name: String,
    /// The `symbol` member.
    pub symbol: String,
    /// The `token_price_usd` member.
    pub token_price_usd: JsonNumber,
    /// The `token_type` member.
    pub token_type: String,
    /// The `token_icon_link` member.
    pub token_icon_link: String,
}

/// The view of a [`Wrap`] record.
pub struct WrapV {
    /// The `wallet` member.
    pub wallet: Seq<char>,
    /// The `wallet_label` member.
    pub wallet_label: Seq<char>,
    /// The `tx_hash` member.
    pub tx_hash: Seq<char>,
    /// The `tx_type` member.
    pub tx_type: Seq<char>,
    /// The `chain` member.
    pub chain: Seq<char>,
    /// The `index` member.
    pub index: u32,
    /// The `timestamp` member.
    pub timestamp: u64,
    /// The `block` member.
    pub block: u64,
    /// The `dex` member.
    pub dex: Seq<char>,
    /// The `from` member.
    pub from: Seq<char>,
    /// The `to` member.
    pub to: Seq<char>,
    /// The `action` member.
    pub action: Seq<char>,
    /// The `amount` member.
    pub amount: JsonNumber,
    /// The `amount_usd` member.
    pub amount_usd: JsonNumber,
    /// The `contract_address` member.
    pub contract_address: Seq<char>,
    /// The `name` member.
    pub name: Seq<char>,
    /// The `symbol` member.
    pub symbol: Seq<char>,
    /// The `token_price_usd` member.
    pub token_price_usd: JsonNumber,
    /// The `token_type` member.
    pub token_type: Seq<char>,
    /// The `token_icon_link` member.
    pub token_icon_link: Seq<char>,
}

impl View for Wrap {
    type V = WrapV;

    open spec fn view(&self) -> WrapV {
        WrapV {
            wallet: self.wallet@,
            wallet_label: self.wallet_label@,
            tx_hash: self.tx_hash@,
            tx_type: self.tx_type@,
            chain: self.chain@,
            index: self.index,
            timestamp: self.timestamp,
            block: self.block,
            dex: self.dex@,
            from: self.from@,
            to: self.to@,
            action: self.action@,
            amount: self.amount,
            amount_usd: self.amount_usd,
            contract_address: self.contract_address@,
            name: self.name@,
            symbol: self.symbol@,
            token_price_usd: self.token_price_usd,
            token_type: self.token_type@,
            token_icon_link: self.token_icon_link@,
        }
    }
}

/// One `sudo_pool`-shaped record of the feed.
#[derive(Debug, Clone, PartialEq)]
pub struct SudoPool {
    /// The `wallet` member.
    pub wallet: String,
    /// The `wallet_label` member.
    pub wallet_label: String,
    /// The `tx_hash` member.
    pub tx_hash: String,
    /// The `tx_type` member.
    pub tx_type: String,
    /// The `chain` member.
    pub chain: String,
    /// The `index` member.
    pub index: u32,
    /// The `timestamp` member.
    pub timestamp: u64,
    /// The `block` member.
    pub block: Option<u64>,
    /// The `dex` member.
    pub dex: Option<String>,
    /// The `from` member.
    pub from: String,
    /// The `nft_address` member.
    pub nft_address: String,
    /// The `nft_amount` member.
    pub nft_amount: u32,
    /// The `nft_price` member.
    pub nft_price: JsonNumber,
    /// The `nft_symbol` member.
    pub nft_symbol: String,
    /// The `to` member.
    pub to: String,
    /// The `token0_address` member.
    pub token0_address: String,
    /// The `token0_amount` member.
    pub token0_amount: JsonNumber,
    /// The `token0_amount_usd` member.
    pub token0_amount_usd: JsonNumber,
    /// The `token0_name` member.
    pub token0_name: String,
    /// The `token0_price_usd` member.
    pub token0_price_usd: JsonNumber,
    /// The `token0_symbol` member.
    pub token0_symbol: String,
    /// The `token0_icon_link` member.
    pub token0_icon_link: String,
}

/// The view of a [`SudoPool`] record.
pub struct SudoPoolV {
    /// The `wallet` member.
    pub wallet: Seq<char>,
    /// The `wallet_label` member.
    pub wallet_label: Seq<char>,
    /// The `tx_hash` member.
    pub tx_hash: Seq<char>,
    /// The `tx_type` member.
    pub tx_type: Seq<char>,
    /// The `chain` member.
    pub chain: Seq<char>,
    /// The `index` member.
    pub index: u32,
    /// The `timestamp` member.
    pub timestamp: u64,
    /// The `block` member.
    pub block: Option<u64>,
    /// The `dex` member.
    pub dex: Option<Seq<char>>,
    /// The `from` member.
    pub from: Seq<char>,
    /// The `nft_address` member.
    pub nft_address: Seq<char>,
    /// The `nft_amount` member.
    pub nft_amount: u32,
    /// The `nft_price` member.
    pub nft_price: JsonNumber,
    /// The `nft_symbol` member.
    pub nft_symbol: Seq<char>,
    /// The `to` member.
    pub to: Seq<char>,
    /// The `token0_address` member.
    pub token0_address: Seq<char>,
    /// The `token0_amount` member.
    pub token0_amount: JsonNumber,
    /// The `token0_amount_usd` member.
    pub token0_amount_usd: JsonNumber,
    /// The `token0_name` member.
    pub token0_name: Seq<char>,
    /// The `token0_price_usd` member.
    pub token0_price_usd: JsonNumber,
    /// The `token0_symbol` member.
    pub token0_symbol: Seq<char>,
    /// The `token0_icon_link` member.
    pub token0_icon_link: Seq<char>,
}

impl View for SudoPool {
    type V = SudoPoolV;

    open spec fn view(&self) -> SudoPoolV {
        SudoPoolV {
            wallet: self.wallet@,
            wallet_label: self.wallet_label@,
            tx_hash: self.tx_hash@,
            tx_type: self.tx_type@,
            chain: self.chain@,
            index: self.index,
            timestamp: self.timestamp,
            block: self.block,
            dex: match self.dex { Option::Some(s) => Option::Some(s@), Option::None => Option::None },
            from: self.from@,
            nft_address: self.nft_address@,
            nft_amount: self.nft_amount,
            nft_price: self.nft_price,
            nft_symbol: self.nft_symbol@,
            to: self.to@,
            token0_address: self.token0_address@,
            token0_amount: self.token0_amount,
            token0_amount_usd: self.token0_amount_usd,
            token0_name: self.token0_name@,
            token0_price_usd: self.token0_price_usd,
            token0_symbol: self.token0_symbol@,
            token0_icon_link: self.token0_icon_link@,
        }
    }
}

/// One `reward`-shaped record of the feed.
#[derive(Debug, Clone, PartialEq)]
pub struct Reward {
    /// The `wallet` member.
    pub wallet: String,
    /// The `wallet_label` member.
    pub wallet_label: String,
    /// The `tx_hash` member.
    pub tx_hash: String,
    /// The `tx_type` member.
    pub tx_type: String,
    /// The `chain` member.
    pub chain: String,
    /// The `index` member.
    pub index: u32,
    /// The `timestamp` member.
    pub timestamp: u64,
    /// The `block` member.
    pub block: u64,
    /// The `address` member.
    pub address: String,
    /// The `amount` member.
    pub amount: JsonNumber,
    /// The `amount_usd` member.
    pub amount_usd: JsonNumber,
    /// The `from` member.
    pub from: String,
    /// The `name` member.
    pub name: String,
    /// The `price_usd` member.
    pub price_usd: JsonNumber,
    /// The `symbol` member.
    pub symbol: String,
}

/// The view of a [`Reward`] record.
pub struct RewardV {
    /// The `wallet` member.
    pub wallet: Seq<char>,
    /// The `wallet_label` member.
    pub wallet_label: Seq<char>,
    /// The `tx_hash` member.
    pub tx_hash: Seq<char>,
    /// The `tx_type` member.
    pub tx_type: Seq<char>,
    /// The `chain` member.
    pub chain: Seq<char>,
    /// The `index` member.
    pub index: u32,
    /// The `timestamp` member.
    pub timestamp: u64,
    /// The `block` member.
    pub block: u64,
    /// The `address` member.
    pub address: Seq<char>,
    /// The `amount` member.
    pub amount: JsonNumber,
    /// The `amount_usd` member.
    pub amount_usd: JsonNumber,
    /// The `from` member.
    pub from: Seq<char>,
    /// The `name` member.
    pub name: Seq<char>,
    /// The `price_usd` member.
    pub price_usd: JsonNumber,
    /// The `symbol` member.
    pub symbol: Seq<char>,
}

impl View for Reward {
    type V = RewardV;

    open spec fn view(&self) -> RewardV {
        RewardV {
            wallet: self.wallet@,
            wallet_label: self.wallet_label@,
            tx_hash: self.tx_hash@,
            tx_type: self.tx_type@,
            chain: self.chain@,
            index: self.index,
            timestamp: self.timestamp,
            block: self.block,
            address: self.address@,
            amount: self.amount,
            amount_usd: self.amount_usd,
            from: self.from@,
            name: self.name@,
            price_usd: self.price_usd,
            symbol: self.symbol@,
        }
    }
}

/// One `staking`-shaped record of the feed.
#[derive(Debug, Clone, PartialEq)]
pub struct Staking {
    /// The `wallet` member.
    pub wallet: String,
    /// The `wallet_label` member.
    pub wallet_label: String,
    /// The `tx_hash` member.
    pub tx_hash: String,
    /// The `tx_type` member.
    pub tx_type: String,
    /// The `chain` member.
    pub chain: String,
    /// The `index` member.
    pub index: u32,
    /// The `timestamp` member.
    pub timestamp: u64,
    /// The `block` member.
    pub block: u64,
    /// The `from` member.
    pub from: String,
    /// The `to` member.
    pub to: String,
    /// The `from_label` member.
    pub from_label: String,
    /// The `to_label` member.
    pub to_label: String,
    /// The `amount` member.
    pub amount: JsonNumber,
    /// The `amount_usd` member.
    pub amount_usd: JsonNumber,
    /// The `token_price_usd` member.
    pub token_price_usd: JsonNumber,
    /// The `contract_address` member.
    pub contract_address: String,
    /// The `symbol` member.
    pub symbol: String,
    /// The `name` member.
    pub name: String,
    /// The `action` member.
    pub action: String,
}

/// The view of a [`Staking`] record.
pub struct StakingV {
    /// The `wallet` member.
    pub wallet: Seq<char>,
    /// The `wallet_label` member.
    pub wallet_label: Seq<char>,
    /// The `tx_hash` member.
    pub tx_hash: Seq<char>,
    /// The `tx_type` member.
    pub tx_type: Seq<char>,
    /// The `chain` member.
    pub chain: Seq<char>,
    /// The `index` member.
    pub index: u32,
    /// The `timestamp` member.
    pub timestamp: u64,
    /// The `block` member.
    pub block: u64,
    /// The `from` member.
    pub from: Seq<char>,
    /// The `to` member.
    pub to: Seq<char>,
    /// The `from_label` member.
    pub from_label: Seq<char>,
    /// The `to_label` member.
    pub to_label: Seq<char>,
    /// The `amount` member.
    pub amount: JsonNumber,
    /// The `amount_usd` member.
    pub amount_usd: JsonNumber,
    /// The `token_price_usd` member.
    pub token_price_usd: JsonNumber,
    /// The `contract_address` member.
    pub contract_address: Seq<char>,
    /// The `symbol` member.
    pub symbol: Seq<char>,
    /// The `name` member.
    pub name: Seq<char>,
    /// The `action` member.
    pub action: Seq<char>,
}

impl View for Staking {
    type V = StakingV;

    open spec fn view(&self) -> StakingV {
        StakingV {
            wallet: self.wallet@,
            wallet_label: self.wallet_label@,
            tx_hash: self.tx_hash@,
            tx_type: self.tx_type@,
            chain: self.chain@,
            index: self.index,
            timestamp: self.timestamp,
            block: self.block,
            from: self.from@,
            to: self.to@,
            from_label: self.from_label@,
            to_label: self.to_label@,
            amount: self.amount,
            amount_usd: self.amount_usd,
            token_price_usd: self.token_price_usd,
            contract_address: self.contract_address@,
            symbol: self.symbol@,
            name: self.name@,
            action: self.action@,
        }
    }
}

/// One `perp`-shaped record of the feed.
#[derive(Debug, Clone, PartialEq)]
pub struct Perp {
    /// The `wallet` member.
    pub wallet: String,
    /// The `wallet_label` member.
    pub wallet_label: String,
    /// The `tx_hash` member.
    pub tx_hash: String,
    /// The `tx_type` member.
    pub tx_type: String,
    /// The `chain` member.
    pub chain: String,
    /// The `index` member.
    pub index: u32,
    /// The `timestamp` member.
    pub timestamp: u64,
    /// The `block` member.
    pub block: u64,
    /// The `action` member.
    pub action: String,
    /// The `amount_usd` member.
    pub amount_usd: JsonNumber,
    /// The `average_price` member.
    pub average_price: JsonNumber,
    /// The `base_token_address` member.
    pub base_token_address: String,
    /// The `base_token_amount` member.
    pub base_token_amount: JsonNumber,
    /// The `base_token_symbol` member.
    pub base_token_symbol: String,
    /// The `dex` member.
    pub dex: String,
    /// The `from` member.
    pub from: String,
    /// The `liquidation` member.
    pub liquidation: bool,
    /// The `liquidation_price` member.
    pub liquidation_price: JsonNumber,
    /// The `to` member.
    pub to: String,
    /// The `trade_direction` member.
    pub trade_direction: String,
    /// The `perp_details` member.
    pub perp_details: String,
    /// The `token0_address` member.
    pub token0_address: String,
    /// The `token0_amount` member.
    pub token0_amount: JsonNumber,
    /// The `token0_amount_usd` member.
    pub token0_amount_usd: JsonNumber,
    /// The `token0_name` member.
    pub token0_name: String,
    /// The `token0_price_usd` member.
    pub token0_price_usd: JsonNumber,
    /// The `token0_symbol` member.
    pub token0_symbol: String,
    /// The `token0_icon_link` member.
    pub token0_icon_link: String,
    /// The `token1_address` member.
    pub token1_address: String,
    /// The `token1_amount` member.
    pub token1_amount: JsonNumber,
    /// The `token1_amount_usd` member.
    pub token1_amount_usd: JsonNumber,
    /// The `token1_name` member.
    pub token1_name: String,
    /// The `token1_price_usd` member.
    pub token1_price_usd: JsonNumber,
    /// The `token1_symbol` member.
    pub token1_symbol: String,
    /// The `token1_icon_link` member.
    pub token1_icon_link: String,
    /// The `realized_pnl` member.
    pub realized_pnl: JsonNumber,
    /// The `is_nft_perp` member.
    pub is_nft_perp: bool,
    /// The `position_size` member.
    pub position_size: Option<JsonNumber>,
    /// The `position_size_usd` member.
    pub position_size_usd: Option<JsonNumber>,
    /// The `leverage` member.
    pub leverage: Option<JsonNumber>,
    /// The `unrealized_pnl` member.
    pub unrealized_pnl: Option<JsonNumber>,
}

/// The view of a [`Perp`] record.
pub struct PerpV {
    /// The `wallet` member.
    pub wallet: Seq<char>,
    /// The `wallet_label` member.
    pub wallet_label: Seq<char>,
    /// The `tx_hash` member.
    pub tx_hash: Seq<char>,
    /// The `tx_type` member.
    pub tx_type: Seq<char>,
    /// The `chain` member.
    pub chain: Seq<char>,
    /// The `index` member.
    pub index: u32,
    /// The `timestamp` member.
    pub timestamp: u64,
    /// The `block` member.
    pub block: u64,
    /// The `action` member.
    pub action: Seq<char>,
    /// The `amount_usd` member.
    pub amount_usd: JsonNumber,
    /// The `average_price` member.
    pub average_price: JsonNumber,
    /// The `base_token_address` member.
    pub base_token_address: Seq<char>,
    /// The `base_token_amount` member.
    pub base_token_amount: JsonNumber,
    /// The `base_token_symbol` member.
    pub base_token_symbol: Seq<char>,
    /// The `dex` member.
    pub dex: Seq<char>,
    /// The `from` member.
    pub from: Seq<char>,
    /// The `liquidation` member.
    pub liquidation: bool,
    /// The `liquidation_price` member.
    pub liquidation_price: JsonNumber,
    /// The `to` member.
    pub to: Seq<char>,
    /// The `trade_direction` member.
    pub trade_direction: Seq<char>,
    /// The `perp_details` member.
    pub perp_details: Seq<char>,
    /// The `token0_address` member.
    pub token0_address: Seq<char>,
    /// The `token0_amount` member.
    pub token0_amount: JsonNumber,
    /// The `token0_amount_usd` member.
    pub token0_amount_usd: JsonNumber,
    /// The `token0_name` member.
    pub token0_name: Seq<char>,
    /// The `token0_price_usd` member.
    pub token0_price_usd: JsonNumber,
    /// The `token0_symbol` member.
    pub token0_symbol: Seq<char>,
    /// The `token0_icon_link` member.
    pub token0_icon_link: Seq<char>,
    /// The `token1_address` member.
    pub token1_address: Seq<char>,
    /// The `token1_amount` member.
    pub token1_amount: JsonNumber,
    /// The `token1_amount_usd` member.
    pub token1_amount_usd: JsonNumber,
    /// The `token1_name` member.
    pub token1_name: Seq<char>,
    /// The `token1_price_usd` member.
    pub token1_price_usd: JsonNumber,
    /// The `token1_symbol` member.
    pub token1_symbol: Seq<char>,
    /// The `token1_icon_link` member.
    pub token1_icon_link: Seq<char>,
    /// The `realized_pnl` member.
    pub realized_pnl: JsonNumber,
    /// The `is_nft_perp` member.
    pub is_nft_perp: bool,
    /// The `position_size` member.
    pub position_size: Option<JsonNumber>,
    /// The `position_size_usd` member.
    pub position_size_usd: Option<JsonNumber>,
    /// The `leverage` member.
    pub leverage: Option<JsonNumber>,
    /// The `unrealized_pnl` member.
    pub unrealized_pnl: Option<JsonNumber>,
}

impl View for Perp {
    type V = PerpV;

    open spec fn view(&self) -> PerpV {
        PerpV {
            wallet: self.wallet@,
            wallet_label: self.wallet_label@,
            tx_hash: self.tx_hash@,
            tx_type: self.tx_type@,
            chain: self.chain@,
            index: self.index,
            timestamp: self.timestamp,
            block: self.block,
            action: self.action@,
            amount_usd: self.amount_usd,
            average_price: self.average_price,
            base_token_address: self.base_token_address@,
            base_token_amount: self.base_token_amount,
            base_token_symbol: self.base_token_symbol@,
            dex: self.dex@,
            from: self.from@,
            liquidation: self.liquidation,
            liquidation_price: self.liquidation_price,
            to: self.to@,
            trade_direction: self.trade_direction@,
            perp_details: self.perp_details@,
            token0_address: self.token0_address@,
            token0_amount: self.token0_amount,
            token0_amount_usd: self.token0_amount_usd,
            token0_name: self.token0_name@,
            token0_price_usd: self.token0_price_usd,
            token0_symbol: self.token0_symbol@,
            token0_icon_link: self.token0_icon_link@,
            token1_address: self.token1_address@,
            token1_amount: self.token1_amount,
            token1_amount_usd: self.token1_amount_usd,
            token1_name: self.token1_name@,
            token1_price_usd: self.token1_price_usd,
            token1_symbol: self.token1_symbol@,
            token1_icon_link: self.token1_icon_link@,
            realized_pnl: self.realized_pnl,
            is_nft_perp: self.is_nft_perp,
            position_size: self.position_size,
            position_size_usd: self.position_size_usd,
            leverage: self.leverage,
            unrealized_pnl: self.unrealized_pnl,
        }
    }
}

/// One `flashloan`-shaped record of the feed.
#[derive(Debug, Clone, PartialEq)]
pub struct Flashloan {
    /// The `wallet` member.
    pub wallet: String,
    /// The `wallet_label` member.
    pub wallet_label: String,
    /// The `tx_hash` member.
    pub tx_hash: String,
    /// The `tx_type` member.
    pub tx_type: String,
    /// The `chain` member.
    pub chain: String,
    /// The `index` member.
    pub index: u32,
    /// The `timestamp` member.
    pub timestamp: u64,
    /// The `block` member.
    pub block: u64,
    /// The `address` member.
    pub address: String,
    /// The `amount` member.
    pub amount: JsonNumber,
    /// The `amount_usd` member.
    pub amount_usd: JsonNumber,
    /// The `dex` member.
    pub dex: String,
    /// The `from` member.
    pub from: String,
    /// The `health_factor` member.
    pub health_factor: JsonNumber,
    /// The `name` member.
    pub name: String,
    /// The `platform` member.
    pub platform: String,
    /// The `price_usd` member.
    pub price_usd: JsonNumber,
    /// The `symbol` member.
    pub symbol: String,
    /// The `token_icon_link` member.
    pub token_icon_link: String,
}

/// The view of a [`Flashloan`] record.
pub struct FlashloanV {
    /// The `wallet` member.
    pub wallet: Seq<char>,
    /// The `wallet_label` member.
    pub wallet_label: Seq<char>,
    /// The `tx_hash` member.
    pub tx_hash: Seq<char>,
    /// The `tx_type` member.
    pub tx_type: Seq<char>,
    /// The `chain` member.
    pub chain: Seq<char>,
    /// The `index` member.
    pub index: u32,
    /// The `timestamp` member.
    pub timestamp: u64,
    /// The `block` member.
    pub block: u64,
    /// The `address` member.
    pub address: Seq<char>,
    /// The `amount` member.
    pub amount: JsonNumber,
    /// The `amount_usd` member.
    pub amount_usd: JsonNumber,
    /// The `dex` member.
    pub dex: Seq<char>,
    /// The `from` member.
    pub from: Seq<char>,
    /// The `health_factor` member.
    pub health_factor: JsonNumber,
    /// The `name` member.
    pub name: Seq<char>,
    /// The `platform` member.
    pub platform: Seq<char>,
    /// The `price_usd` member.
    pub price_usd: JsonNumber,
    /// The `symbol` member.
    pub symbol: Seq<char>,
    /// The `token_icon_link` member.
    pub token_icon_link: Seq<char>,
}

impl View for Flashloan {
    type V = FlashloanV;

    open spec fn view(&self) -> FlashloanV {
        FlashloanV {
            wallet: self.wallet@,
            wallet_label: self.wallet_label@,
            tx_hash: self.tx_hash@,
            tx_type: self.tx_type@,
            chain: self.chain@,
            index: self.index,
            timestamp: self.timestamp,
            block: self.block,
            address: self.address@,
            amount: self.amount,
            amount_usd: self.amount_usd,
            dex: self.dex@,
            from: self.from@,
            health_factor: self.health_factor,
            name: self.name@,
            platform: self.platform@,
            price_usd: self.price_usd,
            symbol: self.symbol@,
            token_icon_link: self.token_icon_link@,
        }
    }
}

/// One `contract_creation`-shaped record of the feed.
#[derive(Debug, Clone, PartialEq)]
pub struct ContractCreation {
    /// The `wallet` member.
    pub wallet: String,
    /// The `wallet_label` member.
    pub wallet_label: String,
    /// The `tx_hash` member.
    pub tx_hash: String,
    /// The `tx_type` member.
    pub tx_type: String,
    /// The `chain` member.
    pub chain: String,
    /// The `index` member.
    pub index: u32,
    /// The `timestamp` member.
    pub timestamp: u64,
    /// The `block` member.
    pub block: u64,
    /// The `amount_usd` member.
    pub amount_usd: JsonNumber,
    /// The `contract_address` member.
    pub contract_address: String,
    /// The `from` member.
    pub from: String,
    /// The `from_label` member.
    pub from_label: String,
}

/// The view of a [`ContractCreation`] record.
pub struct ContractCreationV {
    /// The `wallet` member.
    pub wallet: Seq<char>,
    /// The `wallet_label` member.
    pub wallet_label: Seq<char>,
    /// The `tx_hash` member.
    pub tx_hash: Seq<char>,
    /// The `tx_type` member.
    pub tx_type: Seq<char>,
    /// The `chain` member.
    pub chain: Seq<char>,
    /// The `index` member.
    pub index: u32,
    /// The `timestamp` member.
    pub timestamp: u64,
    /// The `block` member.
    pub block: u64,
    /// The `amount_usd` member.
    pub amount_usd: JsonNumber,
    /// The `contract_address` member.
    pub contract_address: Seq<char>,
    /// The `from` member.
    pub from: Seq<char>,
    /// The `from_label` member.
    pub from_label: Seq<char>,
}

impl View for ContractCreation {
    type V = ContractCreationV;

    open spec fn view(&self) -> ContractCreationV {
        ContractCreationV {
            wallet: self.wallet@,
            wallet_label: self.wallet_label@,
            tx_hash: self.tx_hash@,
            tx_type: self.tx_type@,
            chain: self.chain@,
            index: self.index,
            timestamp: self.timestamp,
            block: self.block,
            amount_usd: self.amount_usd,
            contract_address: self.contract_address@,
            from: self.from@,
            from_label: self.from_label@,
        }
    }
}

/// One `nft_liquidation`-shaped record of the feed.
#[derive(Debug, Clone, PartialEq)]
pub struct NftLiquidation {
    /// The `wallet` member.
    pub wallet: String,
    /// The `wallet_label` member.
    pub wallet_label: String,
    /// The `tx_hash` member.
    pub tx_hash: String,
    /// The `tx_type` member.
    pub tx_type: String,
    /// The `chain` member.
    pub chain: String,
    /// The `index` member.
    pub index: u32,
    /// The `timestamp` member.
    pub timestamp: u64,
    /// The `block` member.
    pub block: u64,
    /// The `contract_address` member.
    pub contract_address: String,
    /// The `currency_address` member.
    pub currency_address: String,
    /// The `currency_symbol` member.
    pub currency_symbol: String,
    /// The `dex` member.
    pub dex: String,
    /// The `from` member.
    pub from: String,
    /// The `nft_address` member.
    pub nft_address: String,
    /// The `nft_name` member.
    pub nft_name: String,
    /// The `nft_symbol` member.
    pub nft_symbol: String,
    /// The `platform` member.
    pub platform: String,
    /// The `price` member.
    pub price: JsonNumber,
    /// The `price_usd` member.
    pub price_usd: JsonNumber,
    /// The `to` member.
    pub to: String,
    /// The `token_id` member.
    pub token_id: String,
}

/// The view of a [`NftLiquidation`] record.
pub struct NftLiquidationV {
    /// The `wallet` member.
    pub wallet: Seq<char>,
    /// The `wallet_label` member.
    pub wallet_label: Seq<char>,
    /// The `tx_hash` member.
    pub tx_hash: Seq<char>,
    /// The `tx_type` member.
    pub tx_type: Seq<char>,
    /// The `chain` member.
    pub chain: Seq<char>,
    /// The `index` member.
    pub index: u32,
    /// The `timestamp` member.
    pub timestamp: u64,
    /// The `block` member.
    pub block: u64,
    /// The `contract_address` member.
    pub contract_address: Seq<char>,
    /// The `currency_address` member.
    pub currency_address: Seq<char>,
    /// The `currency_symbol` member.
    pub currency_symbol: Seq<char>,
    /// The `dex` member.
    pub dex: Seq<char>,
    /// The `from` member.
    pub from: Seq<char>,
    /// The `nft_address` member.
    pub nft_address: Seq<char>,
    /// The `nft_name` member.
    pub nft_name: Seq<char>,
    /// The `nft_symbol` member.
    pub nft_symbol: Seq<char>,
    /// The `platform` member.
    pub platform: Seq<char>,
    /// The `price` member.
    pub price: JsonNumber,
    /// The `price_usd` member.
    pub price_usd: JsonNumber,
    /// The `to` member.
    pub to: Seq<char>,
    /// The `token_id` member.
    pub token_id: Seq<char>,
}

impl View for NftLiquidation {
    type V = NftLiquidationV;

    open spec fn view(&self) -> NftLiquidationV {
        NftLiquidationV {
            wallet: self.wallet@,
            wallet_label: self.wallet_label@,
            tx_hash: self.tx_hash@,
            tx_type: self.tx_type@,
            chain: self.chain@,
            index: self.index,
            timestamp: self.timestamp,
            block: self.block,
            contract_address: self.contract_address@,
            currency_address: self.currency_address@,
            currency_symbol: self.currency_symbol@,
            dex: self.dex@,
            from: self.from@,
            nft_address: self.nft_address@,
            nft_name: self.nft_name@,
            nft_symbol: self.nft_symbol@,
            platform: self.platform@,
            price: self.price,
            price_usd: self.price_usd,
            to: self.to@,
            token_id: self.token_id@,
        }
    }
}

/// One `option_type`-shaped record of the feed.
#[derive(Debug, Clone, PartialEq)]
pub struct OptionType {
    /// The `wallet` member.
    pub wallet: String,
    /// The `wallet_label` member.
    pub wallet_label: String,
    /// The `tx_hash` member.
    pub tx_hash: String,
    /// The `tx_type` member.
    pub tx_type: String,
    /// The `chain` member.
    pub chain: String,
    /// The `index` member.
    pub index: u32,
    /// The `timestamp` member.
    pub timestamp: u64,
    /// The `block` member.
    pub block: u64,
    /// The `action` member.
    pub action: String,
    /// The `amount` member.
    pub amount: JsonNumber,
    /// The `asset` member.
    pub asset: String,
    /// The `dex` member.
    pub dex: String,
    /// The `direction` member.
    pub direction: String,
    /// The `expiry` member.
    pub expiry: String,
    /// The `from` member.
    pub from: String,
    /// The `option_price_usd` member.
    pub option_price_usd: JsonNumber,
    /// The `position_status` member.
    pub position_status: String,
    /// The `spot_price_usd` member.
    pub spot_price_usd: JsonNumber,
    /// The `status` member.
    pub status: String,
    /// The `strike_price_usd` member.
    pub strike_price_usd: JsonNumber,
    /// The `to` member.
    pub to: String,
    /// The `type` member.
    pub type_field: String,
}

/// The view of a [`OptionType`] record.
pub struct OptionTypeV {
    /// The `wallet` member.
    pub wallet: Seq<char>,
    /// The `wallet_label` member.
    pub wallet_label: Seq<char>,
    /// The `tx_hash` member.
    pub tx_hash: Seq<char>,
    /// The `tx_type` member.
    pub tx_type: Seq<char>,
    /// The `chain` member.
    pub chain: Seq<char>,
    /// The `index` member.
    pub index: u32,
    /// The `timestamp` member.
    pub timestamp: u64,
    /// The `block` member.
    pub block: u64,
    /// The `action` member.
    pub action: Seq<char>,
    /// The `amount` member.
    pub amount: JsonNumber,
    /// The `asset` member.
    pub asset: Seq<char>,
    /// The `dex` member.
    pub dex: Seq<char>,
    /// The `direction` member.
    pub direction: Seq<char>,
    /// The `expiry` member.
    pub expiry: Seq<char>,
    /// The `from` member.
    pub from: Seq<char>,
    /// The `option_price_usd` member.
    pub option_price_usd: JsonNumber,
    /// The `position_status` member.
    pub position_status: Seq<char>,
    /// The `spot_price_usd` member.
    pub spot_price_usd: JsonNumber,
    /// The `status` member.
    pub status: Seq<char>,
    /// The `strike_price_usd` member.
    pub strike_price_usd: JsonNumber,
    /// The `to` member.
    pub to: Seq<char>,
    /// The `type` member.
    pub type_field: Seq<char>,
}

impl View for OptionType {
    type V = OptionTypeV;

    open spec fn view(&self) -> OptionTypeV {
        OptionTypeV {
            wallet: self.wallet@,
            wallet_label: self.wallet_label@,
            tx_hash: self.tx_hash@,
            tx_type: self.tx_type@,
            chain: self.chain@,
            index: self.index,
            timestamp: self.timestamp,
            block: self.block,
            action: self.action@,
            amount: self.amount,
            asset: self.asset@,
            dex: self.dex@,
            direction: self.direction@,
            expiry: self.expiry@,
            from: self.from@,
            option_price_usd: self.option_price_usd,
            position_status: self.position_status@,
            spot_price_usd: self.spot_price_usd,
            status: self.status@,
            strike_price_usd: self.strike_price_usd,
            to: self.to@,
            type_field: self.type_field@,
        }
    }
}

/// One `nft_sweep`-shaped record of the feed.
#[derive(Debug, Clone, PartialEq)]
pub struct NftSweep {
    /// The `wallet` member.
    pub wallet: String,
    /// The `wallet_label` member.
    pub wallet_label: String,
    /// The `tx_hash` member.
    pub tx_hash: String,
    /// The `tx_type` member.
    pub tx_type: String,
    /// The `chain` member.
    pub chain: String,
    /// The `index` member.
    pub index: u32,
    /// The `timestamp` member.
    pub timestamp: u64,
    /// The `block` member.
    pub block: u64,
    /// The `from` member.
    pub from: String,
    /// The `to` member.
    pub to: String,
    /// The `thumbnail` member.
    pub thumbnail: String,
    /// The `image` member.
    pub image: String,
    /// The `action` member.
    pub action: String,
    /// The `contract` member.
    pub contract: String,
    /// The `marketplace` member.
    pub marketplace: String,
    /// The `nft_address` member.
    pub nft_address: String,
    /// The `nft_name` member.
    pub nft_name: String,
    /// The `nft_symbol` member.
    pub nft_symbol: String,
    /// The `nft_token_id` member.
    pub nft_token_id: String,
    /// The `price` member.
    pub price: JsonNumber,
    /// The `price_usd` member.
    pub price_usd: JsonNumber,
    /// The `profit` member.
    pub profit: JsonNumber,
    /// The `currency_symbol` member.
    pub currency_symbol: String,
    /// The `buyer` member.
    pub buyer: String,
    /// The `seller` member.
    pub seller: String,
    /// The `token` member.
    pub token: String,
    /// The `first_interaction` member.
    pub first_interaction: bool,
    /// The `bid_accepted` member.
    pub bid_accepted: bool,
}

/// The view of a [`NftSweep`] record.
pub struct NftSweepV {
    /// The `wallet` member.
    pub wallet: Seq<char>,
    /// The `wallet_label` member.
    pub wallet_label: Seq<char>,
    /// The `tx_hash` member.
    pub tx_hash: Seq<char>,
    /// The `tx_type` member.
    pub tx_type: Seq<char>,
    /// The `chain` member.
    pub chain: Seq<char>,
    /// The `index` member.
    pub index: u32,
    /// The `timestamp` member.
    pub timestamp: u64,
    /// The `block` member.
    pub block: u64,
    /// The `from` member.
    pub from: Seq<char>,
    /// The `to` member.
    pub to: Seq<char>,
    /// The `thumbnail` member.
    pub thumbnail: Seq<char>,
    /// The `image` member.
    pub image: Seq<char>,
    /// The `action` member.
    pub action: Seq<char>,
    /// The `contract` member.
    pub contract: Seq<char>,
    /// The `marketplace` member.
    pub marketplace: Seq<char>,
    /// The `nft_address` member.
    pub nft_address: Seq<char>,
    /// The `nft_name` member.
    pub nft_name: Seq<char>,
    /// The `nft_symbol` member.
    pub nft_symbol: Seq<char>,
    /// The `nft_token_id` member.
    pub nft_token_id: Seq<char>,
    /// The `price` member.
    pub price: JsonNumber,
    /// The `price_usd` member.
    pub price_usd: JsonNumber,
    /// The `profit` member.
    pub profit: JsonNumber,
    /// The `currency_symbol` member.
    pub currency_symbol: Seq<char>,
    /// The `buyer` member.
    pub buyer: Seq<char>,
    /// The `seller` member.
    pub seller: Seq<char>,
    /// The `token` member.
    pub token: Seq<char>,
    /// The `first_interaction` member.
    pub first_interaction: bool,
    /// The `bid_accepted` member.
    pub bid_accepted: bool,
}

impl View for NftSweep {
    type V = NftSweepV;

    open spec fn view(&self) -> NftSweepV {
        NftSweepV {
            wallet: self.wallet@,
            wallet_label: self.wallet_label@,
            tx_hash: self.tx_hash@,
            tx_type: self.tx_type@,
            chain: self.chain@,
            index: self.index,
            timestamp: self.timestamp,
            block: self.block,
            from: self.from@,
            to: self.to@,
            thumbnail: self.thumbnail@,
            image: self.image@,
            action: self.action@,
            contract: self.contract@,
            marketplace: self.marketplace@,
            nft_address: self.nft_address@,
            nft_name: self.nft_name@,
            nft_symbol: self.nft_symbol@,
            nft_token_id: self.nft_token_id@,
            price: self.price,
            price_usd: self.price_usd,
            profit: self.profit,
            currency_symbol: self.currency_symbol@,
            buyer: self.buyer@,
            seller: self.seller@,
            token: self.token@,
            first_interaction: self.first_interaction,
            bid_accepted: self.bid_accepted,
        }
    }
}

/// One decoded item of the feed: a closed sum over the record shapes.
#[derive(Debug, Clone, PartialEq)]
pub enum Item {
    /// A `swap` record.
    Swap(Swap),
    /// A `lp` record.
    Lp(Lp),
    /// A `transfer` record.
    Transfer(Transfer),
    /// A `lending` record.
    Lending(Lending),
    /// A `nft_mint` record.
    NftMint(NftMint),
    /// A `nft_trade` record.
    NftTrade(NftTrade),
    /// A `nft_transfer` record.
    NftTransfer(NftTransfer),
    /// A `nft_lending` record.
    NftLending(NftLending),
    /// A `bridge` record.
    Bridge(Bridge),
    /// A `contract_interaction` record.
    ContractInteraction(ContractInteraction),
    /// A `wrap` record.
    Wrap(Wrap),
    /// A `sudo_pool` record.
    SudoPool(SudoPool),
    /// A `reward` record.
    Reward(Reward),
    /// A `staking` record.
    Staking(Staking),
    /// A `perp` record.
    Perp(Perp),
    /// A `flashloan` record.
    Flashloan(Flashloan),
    /// A `contract_creation` record.
    ContractCreation(ContractCreation),
    /// A `nft_liquidation` record.
    NftLiquidation(NftLiquidation),
    /// A `option_type` record.
    OptionEvent(OptionType),
    /// A `nft_sweep` record.
    NftSweep(NftSweep),
}

/// The view of an [`Item`].
pub enum ItemV {
    /// A `swap` record.
    Swap(SwapV),
    /// A `lp` record.
    Lp(LpV),
    /// A `transfer` record.
    Transfer(TransferV),
    /// A `lending` record.
    Lending(LendingV),
    /// A `nft_mint` record.
    NftMint(NftMintV),
    /// A `nft_trade` record.
    NftTrade(NftTradeV),
    /// A `nft_transfer` record.
    NftTransfer(NftTransferV),
    /// A `nft_lending` record.
    NftLending(NftLendingV),
    /// A `bridge` record.
    Bridge(BridgeV),
    /// A `contract_interaction` record.
    ContractInteraction(ContractInteractionV),
    /// A `wrap` record.
    Wrap(WrapV),
    /// A `sudo_pool` record.
    SudoPool(SudoPoolV),
    /// A `reward` record.
    Reward(RewardV),
    /// A `staking` record.
    Staking(StakingV),
    /// A `perp` record.
    Perp(PerpV),
    /// A `flashloan` record.
    Flashloan(FlashloanV),
    /// A `contract_creation` record.
    ContractCreation(ContractCreationV),
    /// A `nft_liquidation` record.
    NftLiquidation(NftLiquidationV),
    /// A `option_type` record.
    OptionEvent(OptionTypeV),
    /// A `nft_sweep` record.
    NftSweep(NftSweepV),
}

impl View for Item {
    type V = ItemV;

    open spec fn view(&self) -> ItemV {
        match self {
            Item::Swap(x) => ItemV::Swap(x@),
            Item::Lp(x) => ItemV::Lp(x@),
            Item::Transfer(x) => ItemV::Transfer(x@),
            Item::Lending(x) => ItemV::Lending(x@),
            Item::NftMint(x) => ItemV::NftMint(x@),
            Item::NftTrade(x) => ItemV::NftTrade(x@),
            Item::NftTransfer(x) => ItemV::NftTransfer(x@),
            Item::NftLending(x) => ItemV::NftLending(x@),
            Item::Bridge(x) => ItemV::Bridge(x@),
            Item::ContractInteraction(x) => ItemV::ContractInteraction(x@),
            Item::Wrap(x) => ItemV::Wrap(x@),
            Item::SudoPool(x) => ItemV::SudoPool(x@),
            Item::Reward(x) => ItemV::Reward(x@),
            Item::Staking(x) => ItemV::Staking(x@),
            Item::Perp(x) => ItemV::Perp(x@),
            Item::Flashloan(x) => ItemV::Flashloan(x@),
            Item::ContractCreation(x) => ItemV::ContractCreation(x@),
            Item::NftLiquidation(x) => ItemV::NftLiquidation(x@),
            Item::OptionEvent(x) => ItemV::OptionEvent(x@),
            Item::NftSweep(x) => ItemV::NftSweep(x@),
        }
    }
}

} // verus!
