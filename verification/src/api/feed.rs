//! Filters for querying the feed, and their translation to query pairs.
//!
//! Every filter field is optional. A field that holds a value contributes
//! exactly one query pair under its fixed key; a field left unset
//! contributes nothing. The market-cap-inclusion flag travels in no query
//! pair at all. List-valued fields are joined with commas, numbers are
//! written in decimal, and the transaction-type list uses each type's
//! snake-case wire name.

use vstd::prelude::*;

verus! {

/// Transaction types for filtering the feed, one per record shape plus the
/// broader categories the service accepts.
#[derive(Debug, Clone, Copy, PartialEq, Eq, Structural)]
pub enum TxType {
    /// A bridge transaction between chains.
    Bridge,
    /// Creation of a new smart contract.
    ContractCreation,
    /// Interaction with an existing smart contract.
    ContractInteraction,
    /// A flash loan transaction.
    Flashloan,
    /// A lending or borrowing transaction.
    Lending,
    /// A liquidity-pool transaction.
    Lp,
    /// An NFT lending transaction.
    NftLending,
    /// An NFT liquidation transaction.
    NftLiquidation,
    /// Minting of a new NFT.
    NftMint,
    /// An NFT sweep (bulk purchase) transaction.
    NftSweep,
    /// An NFT trade transaction.
    NftTrade,
    /// An NFT transfer transaction.
    NftTransfer,
    /// An option-event transaction, named `option` on the wire.
    OptionEvent,
    /// A perpetual-contract transaction.
    Perp,
    /// A reward or yield-farming transaction.
    Reward,
    /// A staking transaction.
    Staking,
    /// A SudoPool transaction.
    SudoPool,
    /// A token swap transaction.
    Swap,
    /// A plain transfer of tokens.
    Transfer,
    /// Wrapping or unwrapping of tokens.
    Wrap,
}

/// The snake-case wire name of a transaction type.
pub open spec fn spec_tx_type_name(t: TxType) -> Seq<char> {
    match t {
        TxType::Bridge => "bridge"@,
        TxType::ContractCreation => "contract_creation"@,
        TxType::ContractInteraction => "contract_interaction"@,
        TxType::Flashloan => "flashloan"@,
        TxType::Lending => "lending"@,
        TxType::Lp => "lp"@,
        TxType::NftLending => "nft_lending"@,
        TxType::NftLiquidation => "nft_liquidation"@,
        TxType::NftMint => "nft_mint"@,
        TxType::NftSweep => "nft_sweep"@,
        TxType::NftTrade => "nft_trade"@,
        TxType::NftTransfer => "nft_transfer"@,
        TxType::OptionEvent => "option"@,
        TxType::Perp => "perp"@,
        TxType::Reward => "reward"@,
        TxType::Staking => "staking"@,
        TxType::SudoPool => "sudo_pool"@,
        TxType::Swap => "swap"@,
        TxType::Transfer => "transfer"@,
        TxType::Wrap => "wrap"@,
    }
}

impl TxType {
    /// The snake-case wire name of this transaction type.
    pub fn name(&self) -> (r: String)
        ensures
            r@ == spec_tx_type_name(*self),
    {
        match self {
            TxType::Bridge => "bridge".to_owned(),
            TxType::ContractCreation => "contract_creation".to_owned(),
            TxType::ContractInteraction => "contract_interaction".to_owned(),
            TxType::Flashloan => "flashloan".to_owned(),
            TxType::Lending => "lending".to_owned(),
            TxType::Lp => "lp".to_owned(),
            TxType::NftLending => "nft_lending".to_owned(),
            TxType::NftLiquidation => "nft_liquidation".to_owned(),
            TxType::NftMint => "nft_mint".to_owned(),
            TxType::NftSweep => "nft_sweep".to_owned(),
            TxType::NftTrade => "nft_trade".to_owned(),
            TxType::NftTransfer => "nft_transfer".to_owned(),
            TxType::OptionEvent => "option".to_owned(),
            TxType::Perp => "perp".to_owned(),
            TxType::Reward => "reward".to_owned(),
            TxType::Staking => "staking".to_owned(),
            TxType::SudoPool => "sudo_pool".to_owned(),
            TxType::Swap => "swap".to_owned(),
            TxType::Transfer => "transfer".to_owned(),
            TxType::Wrap => "wrap".to_owned(),
        }
    }
}

/// Filters for querying the feed. Every field is optional; a set field
/// narrows the feed, an unset one leaves it alone.
#[derive(Debug, Clone, PartialEq)]
pub struct Filters {
    /// Filter the feed by a specific wallet address.
    pub wallet: Option<String>,
    /// Limit the number of transactions returned; the service caps it at
    /// one hundred.
    pub limit: Option<u32>,
    /// Filter transactions by a specific list.
    pub list_id: Option<u64>,
    /// Filter transactions by blockchain chains.
    pub chains: Option<Vec<String>>,
    /// Filter transactions by transaction types.
    pub tx_types: Option<Vec<TxType>>,
    /// Filter transactions by tokens, by address or symbol.
    pub tokens: Option<Vec<String>>,
    /// The smallest USD value a transaction must reach.
    pub min_usd: Option<u64>,
    /// Filter transactions by new trades only.
    pub new_trades: Option<bool>,
    /// An opaque cursor taken from a prior response's paging block.
    pub start_from: Option<String>,
    /// Only transactions from this UNIX timestamp on.
    pub from_timestamp: Option<u64>,
    /// Only transactions up to this UNIX timestamp.
    pub to_timestamp: Option<u64>,
    /// Whether the response should include market-cap details. Travels in
    /// no query pair.
    pub include_market_cap: Option<bool>,
}

/// The view of a [`Filters`] value.
pub struct FiltersV {
    /// Filter the feed by a specific wallet address.
    pub wallet: Option<Seq<char>>,
    /// Limit the number of transactions returned.
    pub limit: Option<u32>,
    /// Filter transactions by a specific list.
    pub list_id: Option<u64>,
    /// Filter transactions by blockchain chains.
    pub chains: Option<Seq<Seq<char>>>,
    /// Filter transactions by transaction types.
    pub tx_types: Option<Seq<TxType>>,
    /// Filter transactions by tokens.
    pub tokens: Option<Seq<Seq<char>>>,
    /// The smallest USD value a transaction must reach.
    pub min_usd: Option<u64>,
    /// Filter transactions by new trades only.
    pub new_trades: Option<bool>,
    /// An opaque cursor taken from a prior response's paging block.
    pub start_from: Option<Seq<char>>,
    /// Only transactions from this UNIX timestamp on.
    pub from_timestamp: Option<u64>,
    /// Only transactions up to this UNIX timestamp.
    pub to_timestamp: Option<u64>,
    /// Whether the response should include market-cap details.
    pub include_market_cap: Option<bool>,
}

impl View for Filters {
    type V = FiltersV;

    open spec fn view(&self) -> FiltersV {
        FiltersV {
            wallet: match self.wallet {
                Option::Some(s) => Option::Some(s@),
                Option::None => Option::None,
            },
            limit: self.limit,
            list_id: self.list_id,
            chains: match self.chains {
                Option::Some(v) => Option::Some(Seq::new(v@.len(), |i: int| v@[i]@)),
                Option::None => Option::None,
            },
            tx_types: match self.tx_types {
                Option::Some(v) => Option::Some(v@),
                Option::None => Option::None,
            },
            tokens: match self.tokens {
                Option::Some(v) => Option::Some(Seq::new(v@.len(), |i: int| v@[i]@)),
                Option::None => Option::None,
            },
            min_usd: self.min_usd,
            new_trades: self.new_trades,
            start_from: match self.start_from {
                Option::Some(s) => Option::Some(s@),
                Option::None => Option::None,
            },
            from_timestamp: self.from_timestamp,
            to_timestamp: self.to_timestamp,
            include_market_cap: self.include_market_cap,
        }
    }
}

impl Default for Filters {
    /// Filters with every field unset.
    fn default() -> (r: Filters)
        ensures
            r@.wallet is None,
            r@.limit is None,
            r@.list_id is None,
            r@.chains is None,
            r@.tx_types is None,
            r@.tokens is None,
            r@.min_usd is None,
            r@.new_trades is None,
            r@.start_from is None,
            r@.from_timestamp is None,
            r@.to_timestamp is None,
            r@.include_market_cap is None,
    {
        Filters {
            wallet: None,
            limit: None,
            list_id: None,
            chains: None,
            tx_types: None,
            tokens: None,
            min_usd: None,
            new_trades: None,
            start_from: None,
            from_timestamp: None,
            to_timestamp: None,
            include_market_cap: None,
        }
    }
}

/// The decimal digit character of a value below ten.
pub open spec fn spec_digit(d: nat) -> char {
    if d == 0 {
        '0'
    } else if d == 1 {
        '1'
    } else if d == 2 {
        '2'
    } else if d == 3 {
        '3'
    } else if d == 4 {
        '4'
    } else if d == 5 {
        '5'
    } else if d == 6 {
        '6'
    } else if d == 7 {
        '7'
    } else if d == 8 {
        '8'
    } else {
        '9'
    }
}

/// The decimal digits of a number, most significant first, without sign,
/// padding or leading zeroes.
pub open spec fn spec_u64_digits(n: nat) -> Seq<char>
    decreases n,
{
    if n < 10 {
        seq![spec_digit(n)]
    } else {
        spec_u64_digits(n / 10).push(spec_digit(n % 10))
    }
}

/// Relies on the standard decimal formatting of unsigned integers: the
/// digits of the value, most significant first, with no sign, padding or
/// leading zeroes.
#[verifier::external_body]
fn u64_to_string(n: u64) -> (s: String)
    ensures
        s@ == spec_u64_digits(n as nat),
{
    n.to_string()
}

/// Relies on `String::push_str`: appends the given slice to the string.
#[verifier::external_body]
fn append_str(s: &mut String, t: &str)
    ensures
        final(s)@ == old(s)@ + t@,
{
    s.push_str(t);
}

/// The comma-joined form of a list of values.
pub open spec fn spec_join_comma(items: Seq<Seq<char>>) -> Seq<char>
    decreases items.len(),
{
    if items.len() == 0 {
        Seq::empty()
    } else if items.len() == 1 {
        items[0]
    } else {
        spec_join_comma(items.drop_last()) + ","@ + items.last()
    }
}

/// Joins the items with commas.
pub fn join_comma(items: &Vec<String>) -> (r: String)
    ensures
        r@ == spec_join_comma(Seq::new(items@.len(), |i: int| items@[i]@)),
{
    let ghost views = Seq::new(items@.len(), |i: int| items@[i]@);
    let mut out = String::new();
    let n = items.len();
    #[verifier::loop_isolation(false)]
    for i in 0..n
        invariant
            n == items@.len(),
            out@ == spec_join_comma(views.take(i as int)),
    {
        if i > 0 {
            append_str(&mut out, ",");
        }
        append_str(&mut out, items[i].as_str());
        proof {
            assert(views.take(i + 1).drop_last() =~= views.take(i as int));
            assert(views.take(i + 1).last() == views[i as int]);
            if i == 0 {
                assert(out@ =~= views.take(1)[0]);
            }
        }
    }
    proof {
        assert(views.take(n as int) =~= views);
    }
    out
}

/// One optional query pair: a single pair when the field holds a value, no
/// pair when it does not.
pub open spec fn opt_query_pair(key: Seq<char>, v: Option<Seq<char>>) -> Seq<
    (Seq<char>, Seq<char>),
> {
    match v {
        Some(x) => seq![(key, x)],
        None => Seq::empty(),
    }
}

/// The wire names of a list of transaction types, in order.
pub open spec fn spec_tx_type_names(ts: Seq<TxType>) -> Seq<Seq<char>> {
    Seq::new(ts.len(), |i: int| spec_tx_type_name(ts[i]))
}

/// The query pairs of a filter set: for each set field exactly one pair
/// under its fixed key, in a fixed order; unset fields contribute nothing,
/// and the market-cap-inclusion flag never travels as a query pair.
pub open spec fn spec_query_pairs(f: FiltersV) -> Seq<(Seq<char>, Seq<char>)> {
    opt_query_pair("wallet"@, f.wallet) + opt_query_pair(
        "limit"@,
        match f.limit {
            Some(n) => Some(spec_u64_digits(n as nat)),
            None => None,
        },
    ) + opt_query_pair(
        "list"@,
        match f.list_id {
            Some(n) => Some(spec_u64_digits(n as nat)),
            None => None,
        },
    ) + opt_query_pair(
        "chains"@,
        match f.chains {
            Some(cs) => Some(spec_join_comma(cs)),
            None => None,
        },
    ) + opt_query_pair(
        "txTypes"@,
        match f.tx_types {
            Some(ts) => Some(spec_join_comma(spec_tx_type_names(ts))),
            None => None,
        },
    ) + opt_query_pair(
        "tokens"@,
        match f.tokens {
            Some(ts) => Some(spec_join_comma(ts)),
            None => None,
        },
    ) + opt_query_pair(
        "minUSD"@,
        match f.min_usd {
            Some(n) => Some(spec_u64_digits(n as nat)),
            None => None,
        },
    ) + opt_query_pair(
        "newTrades"@,
        match f.new_trades {
            Some(b) => Some(if b { "true"@ } else { "false"@ }),
            None => None,
        },
    ) + opt_query_pair("startFrom"@, f.start_from) + opt_query_pair(
        "fromTimestamp"@,
        match f.from_timestamp {
            Some(n) => Some(spec_u64_digits(n as nat)),
            None => None,
        },
    ) + opt_query_pair(
        "toTimestamp"@,
        match f.to_timestamp {
            Some(n) => Some(spec_u64_digits(n as nat)),
            None => None,
        },
    )
}

/// The view of a built pair list.
pub open spec fn view_query_pairs(ps: Seq<(String, String)>) -> Seq<(Seq<char>, Seq<char>)> {
    Seq::new(ps.len(), |i: int| (ps[i].0@, ps[i].1@))
}

/// Appends one optional query pair: nothing when the value is absent.
fn push_opt_pair(out: &mut Vec<(String, String)>, key: &str, v: Option<String>)
    ensures
        view_query_pairs(final(out)@) == view_query_pairs(old(out)@) + opt_query_pair(
            key@,
            match v {
                Some(s) => Some(s@),
                None => None,
            },
        ),
{
    let ghost before = view_query_pairs(out@);
    match v {
        Some(s) => {
            let ghost sv = s@;
            out.push((key.to_owned(), s));
            proof {
                assert(view_query_pairs(out@) =~= before + seq![(key@, sv)]);
            }
        },
        None => {
            proof {
                assert(view_query_pairs(out@) =~= before + Seq::<(Seq<char>, Seq<char>)>::empty());
            }
        },
    }
}

/// The encoded query value of the `wallet` filter field, when set.
fn wallet_query_value(filters: &Filters) -> (r: Option<String>)
    ensures
        (match r {
            Some(s) => Some(s@),
            None => None::<Seq<char>>,
        }) == (filters@.wallet),
{
    match &filters.wallet {
        Some(w) => Some(w.clone()),
        None => None,
    }
}

/// The encoded query value of the `limit` filter field, when set.
fn limit_query_value(filters: &Filters) -> (r: Option<String>)
    ensures
        (match r {
            Some(s) => Some(s@),
            None => None::<Seq<char>>,
        }) == (match filters@.limit { Some(n) => Some(spec_u64_digits(n as nat)), None => None }),
{
    match &filters.limit {
        Some(n) => Some(u64_to_string(*n as u64)),
        None => None,
    }
}

/// The encoded query value of the `list_id` filter field, when set.
fn list_query_value(filters: &Filters) -> (r: Option<String>)
    ensures
        (match r {
            Some(s) => Some(s@),
            None => None::<Seq<char>>,
        }) == (match filters@.list_id { Some(n) => Some(spec_u64_digits(n as nat)), None => None }),
{
    match &filters.list_id {
        Some(n) => Some(u64_to_string(*n)),
        None => None,
    }
}

/// The encoded query value of the `chains` filter field, when set.
fn chains_query_value(filters: &Filters) -> (r: Option<String>)
    ensures
        (match r {
            Some(s) => Some(s@),
            None => None::<Seq<char>>,
        }) == (match filters@.chains { Some(cs) => Some(spec_join_comma(cs)), None => None }),
{
    match &filters.chains {
        Some(cs) => Some(join_comma(cs)),
        None => None,
    }
}

/// The encoded query value of the `tx_types` filter field, when set.
fn tx_types_query_value(filters: &Filters) -> (r: Option<String>)
    ensures
        (match r {
            Some(s) => Some(s@),
            None => None::<Seq<char>>,
        }) == (match filters@.tx_types { Some(ts) => Some(spec_join_comma(spec_tx_type_names(ts))), None => None }),
{
    match &filters.tx_types {
        Some(tx_types) => {
            let mut names: Vec<String> = Vec::new();
            let n = tx_types.len();
            #[verifier::loop_isolation(false)]
            for i in 0..n
                invariant
                    n == tx_types@.len(),
                    names@.len() == i,
                    forall|j: int| 0 <= j < i ==> #[trigger] names@[j]@ == spec_tx_type_name(
                        tx_types@[j],
                    ),
            {
                names.push(tx_types[i].name());
            }
            proof {
                assert(Seq::new(names@.len(), |i: int| names@[i]@) =~= spec_tx_type_names(
                    tx_types@,
                ));
            }
            Some(join_comma(&names))
        },
        None => None,
    }
}

/// The encoded query value of the `tokens` filter field, when set.
fn tokens_query_value(filters: &Filters) -> (r: Option<String>)
    ensures
        (match r {
            Some(s) => Some(s@),
            None => None::<Seq<char>>,
        }) == (match filters@.tokens { Some(ts) => Some(spec_join_comma(ts)), None => None }),
{
    match &filters.tokens {
        Some(ts) => Some(join_comma(ts)),
        None => None,
    }
}

/// The encoded query value of the `min_usd` filter field, when set.
fn min_usd_query_value(filters: &Filters) -> (r: Option<String>)
    ensures
        (match r {
            Some(s) => Some(s@),
            None => None::<Seq<char>>,
        }) == (match filters@.min_usd { Some(n) => Some(spec_u64_digits(n as nat)), None => None }),
{
    match &filters.min_usd {
        Some(n) => Some(u64_to_string(*n)),
        None => None,
    }
}

/// The encoded query value of the `new_trades` filter field, when set.
fn new_trades_query_value(filters: &Filters) -> (r: Option<String>)
    ensures
        (match r {
            Some(s) => Some(s@),
            None => None::<Seq<char>>,
        }) == (match filters@.new_trades { Some(b) => Some(if b { "true"@ } else { "false"@ }), None => None }),
{
    match &filters.new_trades {
        Some(b) => Some(
            if *b {
                "true".to_owned()
            } else {
                "false".to_owned()
            },
        ),
        None => None,
    }
}

/// The encoded query value of the `start_from` filter field, when set.
fn start_from_query_value(filters: &Filters) -> (r: Option<String>)
    ensures
        (match r {
            Some(s) => Some(s@),
            None => None::<Seq<char>>,
        }) == (filters@.start_from),
{
    match &filters.start_from {
        Some(c) => Some(c.clone()),
        None => None,
    }
}

/// The encoded query value of the `from_timestamp` filter field, when set.
fn from_timestamp_query_value(filters: &Filters) -> (r: Option<String>)
    ensures
        (match r {
            Some(s) => Some(s@),
            None => None::<Seq<char>>,
        }) == (match filters@.from_timestamp { Some(n) => Some(spec_u64_digits(n as nat)), None => None }),
{
    match &filters.from_timestamp {
        Some(n) => Some(u64_to_string(*n)),
        None => None,
    }
}

/// The encoded query value of the `to_timestamp` filter field, when set.
fn to_timestamp_query_value(filters: &Filters) -> (r: Option<String>)
    ensures
        (match r {
            Some(s) => Some(s@),
            None => None::<Seq<char>>,
        }) == (match filters@.to_timestamp { Some(n) => Some(spec_u64_digits(n as nat)), None => None }),
{
    match &filters.to_timestamp {
        Some(n) => Some(u64_to_string(*n)),
        None => None,
    }
}

/// Builds the query pairs for a filter set, in the fixed key order.
pub fn query_pairs(filters: &Filters) -> (r: Vec<(String, String)>)
    ensures
        view_query_pairs(r@) == spec_query_pairs(filters@),
{
    broadcast use vstd::seq_lib::group_seq_lib_default;

    let mut out: Vec<(String, String)> = Vec::new();
    let ghost mut done: Seq<(Seq<char>, Seq<char>)> = Seq::empty();
    proof {
        assert(view_query_pairs(out@) =~= done);
    }
    let v = wallet_query_value(filters);
    push_opt_pair(&mut out, "wallet", v);
    proof {
        done = done + opt_query_pair("wallet"@, filters@.wallet);
        assert(view_query_pairs(out@) == done);
    }
    let v = limit_query_value(filters);
    push_opt_pair(&mut out, "limit", v);
    proof {
        done = done + opt_query_pair("limit"@, match filters@.limit { Some(n) => Some(spec_u64_digits(n as nat)), None => None });
        assert(view_query_pairs(out@) == done);
    }
    let v = list_query_value(filters);
    push_opt_pair(&mut out, "list", v);
    proof {
        done = done + opt_query_pair("list"@, match filters@.list_id { Some(n) => Some(spec_u64_digits(n as nat)), None => None });
        assert(view_query_pairs(out@) == done);
    }
    let v = chains_query_value(filters);
    push_opt_pair(&mut out, "chains", v);
    proof {
        done = done + opt_query_pair("chains"@, match filters@.chains { Some(cs) => Some(spec_join_comma(cs)), None => None });
        assert(view_query_pairs(out@) == done);
    }
    let v = tx_types_query_value(filters);
    push_opt_pair(&mut out, "txTypes", v);
    proof {
        done = done + opt_query_pair("txTypes"@, match filters@.tx_types { Some(ts) => Some(spec_join_comma(spec_tx_type_names(ts))), None => None });
        assert(view_query_pairs(out@) == done);
    }
    let v = tokens_query_value(filters);
    push_opt_pair(&mut out, "tokens", v);
    proof {
        done = done + opt_query_pair("tokens"@, match filters@.tokens { Some(ts) => Some(spec_join_comma(ts)), None => None });
        assert(view_query_pairs(out@) == done);
    }
    let v = min_usd_query_value(filters);
    push_opt_pair(&mut out, "minUSD", v);
    proof {
        done = done + opt_query_pair("minUSD"@, match filters@.min_usd { Some(n) => Some(spec_u64_digits(n as nat)), None => None });
        assert(view_query_pairs(out@) == done);
    }
    let v = new_trades_query_value(filters);
    push_opt_pair(&mut out, "newTrades", v);
    proof {
        done = done + opt_query_pair("newTrades"@, match filters@.new_trades { Some(b) => Some(if b { "true"@ } else { "false"@ }), None => None });
        assert(view_query_pairs(out@) == done);
    }
    let v = start_from_query_value(filters);
    push_opt_pair(&mut out, "startFrom", v);
    proof {
        done = done + opt_query_pair("startFrom"@, filters@.start_from);
        assert(view_query_pairs(out@) == done);
    }
    let v = from_timestamp_query_value(filters);
    push_opt_pair(&mut out, "fromTimestamp", v);
    proof {
        done = done + opt_query_pair("fromTimestamp"@, match filters@.from_timestamp { Some(n) => Some(spec_u64_digits(n as nat)), None => None });
        assert(view_query_pairs(out@) == done);
    }
    let v = to_timestamp_query_value(filters);
    push_opt_pair(&mut out, "toTimestamp", v);
    proof {
        done = done + opt_query_pair("toTimestamp"@, match filters@.to_timestamp { Some(n) => Some(spec_u64_digits(n as nat)), None => None });
        assert(view_query_pairs(out@) == done);
    }
    proof {
        assert(done == spec_query_pairs(filters@));
    }
    out
}

/// With every field unset, the built query is empty.
pub proof fn lemma_unset_filters_empty_query(f: FiltersV)
    requires
        f.wallet is None,
        f.limit is None,
        f.list_id is None,
        f.chains is None,
        f.tx_types is None,
        f.tokens is None,
        f.min_usd is None,
        f.new_trades is None,
        f.start_from is None,
        f.from_timestamp is None,
        f.to_timestamp is None,
    ensures
        spec_query_pairs(f) == Seq::<(Seq<char>, Seq<char>)>::empty(),
{
    assert(spec_query_pairs(f) =~= Seq::<(Seq<char>, Seq<char>)>::empty());
}

/// The pairs of a pair list that carry the given key.
pub open spec fn pairs_with_key(ps: Seq<(Seq<char>, Seq<char>)>, key: Seq<char>) -> Seq<
    (Seq<char>, Seq<char>),
> {
    ps.filter(|p: (Seq<char>, Seq<char>)| p.0 == key)
}

/// Filtering one optional pair keeps it exactly under its own key and
/// drops it under any other.
proof fn lemma_filter_opt_query_pair(key: Seq<char>, v: Option<Seq<char>>, k: Seq<char>)
    ensures
        k == key ==> pairs_with_key(opt_query_pair(key, v), k) == opt_query_pair(key, v),
        k != key ==> pairs_with_key(opt_query_pair(key, v), k) == Seq::<
            (Seq<char>, Seq<char>),
        >::empty(),
{
    reveal_with_fuel(Seq::<(Seq<char>, Seq<char>)>::filter, 3);
    match v {
        Some(x) => {
            let one = seq![(key, x)];
            assert(one.drop_last() =~= Seq::<(Seq<char>, Seq<char>)>::empty());
            assert(pairs_with_key(one, k) =~= if k == key {
                one
            } else {
                Seq::<(Seq<char>, Seq<char>)>::empty()
            });
        },
        None => {
            assert(opt_query_pair(key, v) =~= Seq::<(Seq<char>, Seq<char>)>::empty());
        },
    }
}

/// For each filter field, the built query holds exactly one pair under the
/// field's key when the field is set — carrying the field's encoded value —
/// and none when it is unset.
pub proof fn lemma_query_pairs_exact(f: FiltersV)
    ensures
        pairs_with_key(spec_query_pairs(f), "wallet"@) == opt_query_pair("wallet"@, f.wallet),
        pairs_with_key(spec_query_pairs(f), "limit"@) == opt_query_pair(
            "limit"@,
            match f.limit {
                Some(n) => Some(spec_u64_digits(n as nat)),
                None => None,
            },
        ),
        pairs_with_key(spec_query_pairs(f), "list"@) == opt_query_pair(
            "list"@,
            match f.list_id {
                Some(n) => Some(spec_u64_digits(n as nat)),
                None => None,
            },
        ),
        pairs_with_key(spec_query_pairs(f), "chains"@) == opt_query_pair(
            "chains"@,
            match f.chains {
                Some(cs) => Some(spec_join_comma(cs)),
                None => None,
            },
        ),
        pairs_with_key(spec_query_pairs(f), "txTypes"@) == opt_query_pair(
            "txTypes"@,
            match f.tx_types {
                Some(ts) => Some(spec_join_comma(spec_tx_type_names(ts))),
                None => None,
            },
        ),
        pairs_with_key(spec_query_pairs(f), "tokens"@) == opt_query_pair(
            "tokens"@,
            match f.tokens {
                Some(ts) => Some(spec_join_comma(ts)),
                None => None,
            },
        ),
        pairs_with_key(spec_query_pairs(f), "minUSD"@) == opt_query_pair(
            "minUSD"@,
            match f.min_usd {
                Some(n) => Some(spec_u64_digits(n as nat)),
                None => None,
            },
        ),
        pairs_with_key(spec_query_pairs(f), "newTrades"@) == opt_query_pair(
            "newTrades"@,
            match f.new_trades {
                Some(b) => Some(if b { "true"@ } else { "false"@ }),
                None => None,
            },
        ),
        pairs_with_key(spec_query_pairs(f), "startFrom"@) == opt_query_pair(
            "startFrom"@,
            f.start_from,
        ),
        pairs_with_key(spec_query_pairs(f), "fromTimestamp"@) == opt_query_pair(
            "fromTimestamp"@,
            match f.from_timestamp {
                Some(n) => Some(spec_u64_digits(n as nat)),
                None => None,
            },
        ),
        pairs_with_key(spec_query_pairs(f), "toTimestamp"@) == opt_query_pair(
            "toTimestamp"@,
            match f.to_timestamp {
                Some(n) => Some(spec_u64_digits(n as nat)),
                None => None,
            },
        ),
{
    broadcast use vstd::seq_lib::group_seq_lib_default;

    reveal_strlit("wallet");
    reveal_strlit("limit");
    reveal_strlit("list");
    reveal_strlit("chains");
    reveal_strlit("txTypes");
    reveal_strlit("tokens");
    reveal_strlit("minUSD");
    reveal_strlit("newTrades");
    reveal_strlit("startFrom");
    reveal_strlit("fromTimestamp");
    reveal_strlit("toTimestamp");
    assert("wallet"@.len() == 6);
    assert("limit"@.len() == 5);
    assert("list"@.len() == 4);
    assert("chains"@.len() == 6);
    assert("txTypes"@.len() == 7);
    assert("tokens"@.len() == 6);
    assert("minUSD"@.len() == 6);
    assert("newTrades"@.len() == 9);
    assert("startFrom"@.len() == 9);
    assert("fromTimestamp"@.len() == 13);
    assert("toTimestamp"@.len() == 11);
    assert("wallet"@[0] == 'w');
    assert("chains"@[0] == 'c');
    assert("tokens"@[0] == 't');
    assert("minUSD"@[0] == 'm');
    assert("newTrades"@[0] == 'n');
    assert("startFrom"@[0] == 's');
    lemma_query_key_split(f, "wallet"@);
    lemma_filter_opt_query_pair("wallet"@, (f.wallet), "wallet"@);
    lemma_filter_opt_query_pair("limit"@, (match f.limit { Some(n) => Some(spec_u64_digits(n as nat)), None => None }), "wallet"@);
    lemma_filter_opt_query_pair("list"@, (match f.list_id { Some(n) => Some(spec_u64_digits(n as nat)), None => None }), "wallet"@);
    lemma_filter_opt_query_pair("chains"@, (match f.chains { Some(cs) => Some(spec_join_comma(cs)), None => None }), "wallet"@);
    lemma_filter_opt_query_pair("txTypes"@, (match f.tx_types { Some(ts) => Some(spec_join_comma(spec_tx_type_names(ts))), None => None }), "wallet"@);
    lemma_filter_opt_query_pair("tokens"@, (match f.tokens { Some(ts) => Some(spec_join_comma(ts)), None => None }), "wallet"@);
    lemma_filter_opt_query_pair("minUSD"@, (match f.min_usd { Some(n) => Some(spec_u64_digits(n as nat)), None => None }), "wallet"@);
    lemma_filter_opt_query_pair("newTrades"@, (match f.new_trades { Some(b) => Some(if b { "true"@ } else { "false"@ }), None => None }), "wallet"@);
    lemma_filter_opt_query_pair("startFrom"@, (f.start_from), "wallet"@);
    lemma_filter_opt_query_pair("fromTimestamp"@, (match f.from_timestamp { Some(n) => Some(spec_u64_digits(n as nat)), None => None }), "wallet"@);
    lemma_filter_opt_query_pair("toTimestamp"@, (match f.to_timestamp { Some(n) => Some(spec_u64_digits(n as nat)), None => None }), "wallet"@);
    lemma_query_key_split(f, "limit"@);
    lemma_filter_opt_query_pair("wallet"@, (f.wallet), "limit"@);
    lemma_filter_opt_query_pair("limit"@, (match f.limit { Some(n) => Some(spec_u64_digits(n as nat)), None => None }), "limit"@);
    lemma_filter_opt_query_pair("list"@, (match f.list_id { Some(n) => Some(spec_u64_digits(n as nat)), None => None }), "limit"@);
    lemma_filter_opt_query_pair("chains"@, (match f.chains { Some(cs) => Some(spec_join_comma(cs)), None => None }), "limit"@);
    lemma_filter_opt_query_pair("txTypes"@, (match f.tx_types { Some(ts) => Some(spec_join_comma(spec_tx_type_names(ts))), None => None }), "limit"@);
    lemma_filter_opt_query_pair("tokens"@, (match f.tokens { Some(ts) => Some(spec_join_comma(ts)), None => None }), "limit"@);
    lemma_filter_opt_query_pair("minUSD"@, (match f.min_usd { Some(n) => Some(spec_u64_digits(n as nat)), None => None }), "limit"@);
    lemma_filter_opt_query_pair("newTrades"@, (match f.new_trades { Some(b) => Some(if b { "true"@ } else { "false"@ }), None => None }), "limit"@);
    lemma_filter_opt_query_pair("startFrom"@, (f.start_from), "limit"@);
    lemma_filter_opt_query_pair("fromTimestamp"@, (match f.from_timestamp { Some(n) => Some(spec_u64_digits(n as nat)), None => None }), "limit"@);
    lemma_filter_opt_query_pair("toTimestamp"@, (match f.to_timestamp { Some(n) => Some(spec_u64_digits(n as nat)), None => None }), "limit"@);
    lemma_query_key_split(f, "list"@);
    lemma_filter_opt_query_pair("wallet"@, (f.wallet), "list"@);
    lemma_filter_opt_query_pair("limit"@, (match f.limit { Some(n) => Some(spec_u64_digits(n as nat)), None => None }), "list"@);
    lemma_filter_opt_query_pair("list"@, (match f.list_id { Some(n) => Some(spec_u64_digits(n as nat)), None => None }), "list"@);
    lemma_filter_opt_query_pair("chains"@, (match f.chains { Some(cs) => Some(spec_join_comma(cs)), None => None }), "list"@);
    lemma_filter_opt_query_pair("txTypes"@, (match f.tx_types { Some(ts) => Some(spec_join_comma(spec_tx_type_names(ts))), None => None }), "list"@);
    lemma_filter_opt_query_pair("tokens"@, (match f.tokens { Some(ts) => Some(spec_join_comma(ts)), None => None }), "list"@);
    lemma_filter_opt_query_pair("minUSD"@, (match f.min_usd { Some(n) => Some(spec_u64_digits(n as nat)), None => None }), "list"@);
    lemma_filter_opt_query_pair("newTrades"@, (match f.new_trades { Some(b) => Some(if b { "true"@ } else { "false"@ }), None => None }), "list"@);
    lemma_filter_opt_query_pair("startFrom"@, (f.start_from), "list"@);
    lemma_filter_opt_query_pair("fromTimestamp"@, (match f.from_timestamp { Some(n) => Some(spec_u64_digits(n as nat)), None => None }), "list"@);
    lemma_filter_opt_query_pair("toTimestamp"@, (match f.to_timestamp { Some(n) => Some(spec_u64_digits(n as nat)), None => None }), "list"@);
    lemma_query_key_split(f, "chains"@);
    lemma_filter_opt_query_pair("wallet"@, (f.wallet), "chains"@);
    lemma_filter_opt_query_pair("limit"@, (match f.limit { Some(n) => Some(spec_u64_digits(n as nat)), None => None }), "chains"@);
    lemma_filter_opt_query_pair("list"@, (match f.list_id { Some(n) => Some(spec_u64_digits(n as nat)), None => None }), "chains"@);
    lemma_filter_opt_query_pair("chains"@, (match f.chains { Some(cs) => Some(spec_join_comma(cs)), None => None }), "chains"@);
    lemma_filter_opt_query_pair("txTypes"@, (match f.tx_types { Some(ts) => Some(spec_join_comma(spec_tx_type_names(ts))), None => None }), "chains"@);
    lemma_filter_opt_query_pair("tokens"@, (match f.tokens { Some(ts) => Some(spec_join_comma(ts)), None => None }), "chains"@);
    lemma_filter_opt_query_pair("minUSD"@, (match f.min_usd { Some(n) => Some(spec_u64_digits(n as nat)), None => None }), "chains"@);
    lemma_filter_opt_query_pair("newTrades"@, (match f.new_trades { Some(b) => Some(if b { "true"@ } else { "false"@ }), None => None }), "chains"@);
    lemma_filter_opt_query_pair("startFrom"@, (f.start_from), "chains"@);
    lemma_filter_opt_query_pair("fromTimestamp"@, (match f.from_timestamp { Some(n) => Some(spec_u64_digits(n as nat)), None => None }), "chains"@);
    lemma_filter_opt_query_pair("toTimestamp"@, (match f.to_timestamp { Some(n) => Some(spec_u64_digits(n as nat)), None => None }), "chains"@);
    lemma_query_key_split(f, "txTypes"@);
    lemma_filter_opt_query_pair("wallet"@, (f.wallet), "txTypes"@);
    lemma_filter_opt_query_pair("limit"@, (match f.limit { Some(n) => Some(spec_u64_digits(n as nat)), None => None }), "txTypes"@);
    lemma_filter_opt_query_pair("list"@, (match f.list_id { Some(n) => Some(spec_u64_digits(n as nat)), None => None }), "txTypes"@);
    lemma_filter_opt_query_pair("chains"@, (match f.chains { Some(cs) => Some(spec_join_comma(cs)), None => None }), "txTypes"@);
    lemma_filter_opt_query_pair("txTypes"@, (match f.tx_types { Some(ts) => Some(spec_join_comma(spec_tx_type_names(ts))), None => None }), "txTypes"@);
    lemma_filter_opt_query_pair("tokens"@, (match f.tokens { Some(ts) => Some(spec_join_comma(ts)), None => None }), "txTypes"@);
    lemma_filter_opt_query_pair("minUSD"@, (match f.min_usd { Some(n) => Some(spec_u64_digits(n as nat)), None => None }), "txTypes"@);
    lemma_filter_opt_query_pair("newTrades"@, (match f.new_trades { Some(b) => Some(if b { "true"@ } else { "false"@ }), None => None }), "txTypes"@);
    lemma_filter_opt_query_pair("startFrom"@, (f.start_from), "txTypes"@);
    lemma_filter_opt_query_pair("fromTimestamp"@, (match f.from_timestamp { Some(n) => Some(spec_u64_digits(n as nat)), None => None }), "txTypes"@);
    lemma_filter_opt_query_pair("toTimestamp"@, (match f.to_timestamp { Some(n) => Some(spec_u64_digits(n as nat)), None => None }), "txTypes"@);
    lemma_query_key_split(f, "tokens"@);
    lemma_filter_opt_query_pair("wallet"@, (f.wallet), "tokens"@);
    lemma_filter_opt_query_pair("limit"@, (match f.limit { Some(n) => Some(spec_u64_digits(n as nat)), None => None }), "tokens"@);
    lemma_filter_opt_query_pair("list"@, (match f.list_id { Some(n) => Some(spec_u64_digits(n as nat)), None => None }), "tokens"@);
    lemma_filter_opt_query_pair("chains"@, (match f.chains { Some(cs) => Some(spec_join_comma(cs)), None => None }), "tokens"@);
    lemma_filter_opt_query_pair("txTypes"@, (match f.tx_types { Some(ts) => Some(spec_join_comma(spec_tx_type_names(ts))), None => None }), "tokens"@);
    lemma_filter_opt_query_pair("tokens"@, (match f.tokens { Some(ts) => Some(spec_join_comma(ts)), None => None }), "tokens"@);
    lemma_filter_opt_query_pair("minUSD"@, (match f.min_usd { Some(n) => Some(spec_u64_digits(n as nat)), None => None }), "tokens"@);
    lemma_filter_opt_query_pair("newTrades"@, (match f.new_trades { Some(b) => Some(if b { "true"@ } else { "false"@ }), None => None }), "tokens"@);
    lemma_filter_opt_query_pair("startFrom"@, (f.start_from), "tokens"@);
    lemma_filter_opt_query_pair("fromTimestamp"@, (match f.from_timestamp { Some(n) => Some(spec_u64_digits(n as nat)), None => None }), "tokens"@);
    lemma_filter_opt_query_pair("toTimestamp"@, (match f.to_timestamp { Some(n) => Some(spec_u64_digits(n as nat)), None => None }), "tokens"@);
    lemma_query_key_split(f, "minUSD"@);
    lemma_filter_opt_query_pair("wallet"@, (f.wallet), "minUSD"@);
    lemma_filter_opt_query_pair("limit"@, (match f.limit { Some(n) => Some(spec_u64_digits(n as nat)), None => None }), "minUSD"@);
    lemma_filter_opt_query_pair("list"@, (match f.list_id { Some(n) => Some(spec_u64_digits(n as nat)), None => None }), "minUSD"@);
    lemma_filter_opt_query_pair("chains"@, (match f.chains { Some(cs) => Some(spec_join_comma(cs)), None => None }), "minUSD"@);
    lemma_filter_opt_query_pair("txTypes"@, (match f.tx_types { Some(ts) => Some(spec_join_comma(spec_tx_type_names(ts))), None => None }), "minUSD"@);
    lemma_filter_opt_query_pair("tokens"@, (match f.tokens { Some(ts) => Some(spec_join_comma(ts)), None => None }), "minUSD"@);
    lemma_filter_opt_query_pair("minUSD"@, (match f.min_usd { Some(n) => Some(spec_u64_digits(n as nat)), None => None }), "minUSD"@);
    lemma_filter_opt_query_pair("newTrades"@, (match f.new_trades { Some(b) => Some(if b { "true"@ } else { "false"@ }), None => None }), "minUSD"@);
    lemma_filter_opt_query_pair("startFrom"@, (f.start_from), "minUSD"@);
    lemma_filter_opt_query_pair("fromTimestamp"@, (match f.from_timestamp { Some(n) => Some(spec_u64_digits(n as nat)), None => None }), "minUSD"@);
    lemma_filter_opt_query_pair("toTimestamp"@, (match f.to_timestamp { Some(n) => Some(spec_u64_digits(n as nat)), None => None }), "minUSD"@);
    lemma_query_key_split(f, "newTrades"@);
    lemma_filter_opt_query_pair("wallet"@, (f.wallet), "newTrades"@);
    lemma_filter_opt_query_pair("limit"@, (match f.limit { Some(n) => Some(spec_u64_digits(n as nat)), None => None }), "newTrades"@);
    lemma_filter_opt_query_pair("list"@, (match f.list_id { Some(n) => Some(spec_u64_digits(n as nat)), None => None }), "newTrades"@);
    lemma_filter_opt_query_pair("chains"@, (match f.chains { Some(cs) => Some(spec_join_comma(cs)), None => None }), "newTrades"@);
    lemma_filter_opt_query_pair("txTypes"@, (match f.tx_types { Some(ts) => Some(spec_join_comma(spec_tx_type_names(ts))), None => None }), "newTrades"@);
    lemma_filter_opt_query_pair("tokens"@, (match f.tokens { Some(ts) => Some(spec_join_comma(ts)), None => None }), "newTrades"@);
    lemma_filter_opt_query_pair("minUSD"@, (match f.min_usd { Some(n) => Some(spec_u64_digits(n as nat)), None => None }), "newTrades"@);
    lemma_filter_opt_query_pair("newTrades"@, (match f.new_trades { Some(b) => Some(if b { "true"@ } else { "false"@ }), None => None }), "newTrades"@);
    lemma_filter_opt_query_pair("startFrom"@, (f.start_from), "newTrades"@);
    lemma_filter_opt_query_pair("fromTimestamp"@, (match f.from_timestamp { Some(n) => Some(spec_u64_digits(n as nat)), None => None }), "newTrades"@);
    lemma_filter_opt_query_pair("toTimestamp"@, (match f.to_timestamp { Some(n) => Some(spec_u64_digits(n as nat)), None => None }), "newTrades"@);
    lemma_query_key_split(f, "startFrom"@);
    lemma_filter_opt_query_pair("wallet"@, (f.wallet), "startFrom"@);
    lemma_filter_opt_query_pair("limit"@, (match f.limit { Some(n) => Some(spec_u64_digits(n as nat)), None => None }), "startFrom"@);
    lemma_filter_opt_query_pair("list"@, (match f.list_id { Some(n) => Some(spec_u64_digits(n as nat)), None => None }), "startFrom"@);
    lemma_filter_opt_query_pair("chains"@, (match f.chains { Some(cs) => Some(spec_join_comma(cs)), None => None }), "startFrom"@);
    lemma_filter_opt_query_pair("txTypes"@, (match f.tx_types { Some(ts) => Some(spec_join_comma(spec_tx_type_names(ts))), None => None }), "startFrom"@);
    lemma_filter_opt_query_pair("tokens"@, (match f.tokens { Some(ts) => Some(spec_join_comma(ts)), None => None }), "startFrom"@);
    lemma_filter_opt_query_pair("minUSD"@, (match f.min_usd { Some(n) => Some(spec_u64_digits(n as nat)), None => None }), "startFrom"@);
    lemma_filter_opt_query_pair("newTrades"@, (match f.new_trades { Some(b) => Some(if b { "true"@ } else { "false"@ }), None => None }), "startFrom"@);
    lemma_filter_opt_query_pair("startFrom"@, (f.start_from), "startFrom"@);
    lemma_filter_opt_query_pair("fromTimestamp"@, (match f.from_timestamp { Some(n) => Some(spec_u64_digits(n as nat)), None => None }), "startFrom"@);
    lemma_filter_opt_query_pair("toTimestamp"@, (match f.to_timestamp { Some(n) => Some(spec_u64_digits(n as nat)), None => None }), "startFrom"@);
    lemma_query_key_split(f, "fromTimestamp"@);
    lemma_filter_opt_query_pair("wallet"@, (f.wallet), "fromTimestamp"@);
    lemma_filter_opt_query_pair("limit"@, (match f.limit { Some(n) => Some(spec_u64_digits(n as nat)), None => None }), "fromTimestamp"@);
    lemma_filter_opt_query_pair("list"@, (match f.list_id { Some(n) => Some(spec_u64_digits(n as nat)), None => None }), "fromTimestamp"@);
    lemma_filter_opt_query_pair("chains"@, (match f.chains { Some(cs) => Some(spec_join_comma(cs)), None => None }), "fromTimestamp"@);
    lemma_filter_opt_query_pair("txTypes"@, (match f.tx_types { Some(ts) => Some(spec_join_comma(spec_tx_type_names(ts))), None => None }), "fromTimestamp"@);
    lemma_filter_opt_query_pair("tokens"@, (match f.tokens { Some(ts) => Some(spec_join_comma(ts)), None => None }), "fromTimestamp"@);
    lemma_filter_opt_query_pair("minUSD"@, (match f.min_usd { Some(n) => Some(spec_u64_digits(n as nat)), None => None }), "fromTimestamp"@);
    lemma_filter_opt_query_pair("newTrades"@, (match f.new_trades { Some(b) => Some(if b { "true"@ } else { "false"@ }), None => None }), "fromTimestamp"@);
    lemma_filter_opt_query_pair("startFrom"@, (f.start_from), "fromTimestamp"@);
    lemma_filter_opt_query_pair("fromTimestamp"@, (match f.from_timestamp { Some(n) => Some(spec_u64_digits(n as nat)), None => None }), "fromTimestamp"@);
    lemma_filter_opt_query_pair("toTimestamp"@, (match f.to_timestamp { Some(n) => Some(spec_u64_digits(n as nat)), None => None }), "fromTimestamp"@);
    lemma_query_key_split(f, "toTimestamp"@);
    lemma_filter_opt_query_pair("wallet"@, (f.wallet), "toTimestamp"@);
    lemma_filter_opt_query_pair("limit"@, (match f.limit { Some(n) => Some(spec_u64_digits(n as nat)), None => None }), "toTimestamp"@);
    lemma_filter_opt_query_pair("list"@, (match f.list_id { Some(n) => Some(spec_u64_digits(n as nat)), None => None }), "toTimestamp"@);
    lemma_filter_opt_query_pair("chains"@, (match f.chains { Some(cs) => Some(spec_join_comma(cs)), None => None }), "toTimestamp"@);
    lemma_filter_opt_query_pair("txTypes"@, (match f.tx_types { Some(ts) => Some(spec_join_comma(spec_tx_type_names(ts))), None => None }), "toTimestamp"@);
    lemma_filter_opt_query_pair("tokens"@, (match f.tokens { Some(ts) => Some(spec_join_comma(ts)), None => None }), "toTimestamp"@);
    lemma_filter_opt_query_pair("minUSD"@, (match f.min_usd { Some(n) => Some(spec_u64_digits(n as nat)), None => None }), "toTimestamp"@);
    lemma_filter_opt_query_pair("newTrades"@, (match f.new_trades { Some(b) => Some(if b { "true"@ } else { "false"@ }), None => None }), "toTimestamp"@);
    lemma_filter_opt_query_pair("startFrom"@, (f.start_from), "toTimestamp"@);
    lemma_filter_opt_query_pair("fromTimestamp"@, (match f.from_timestamp { Some(n) => Some(spec_u64_digits(n as nat)), None => None }), "toTimestamp"@);
    lemma_filter_opt_query_pair("toTimestamp"@, (match f.to_timestamp { Some(n) => Some(spec_u64_digits(n as nat)), None => None }), "toTimestamp"@);
}

/// Filtering the built query pairs by a key filters each field's segment.
proof fn lemma_query_key_split(f: FiltersV, k: Seq<char>)
    ensures
        pairs_with_key(spec_query_pairs(f), k) == pairs_with_key(
            opt_query_pair("wallet"@, f.wallet),
            k,
        ) + pairs_with_key(
            opt_query_pair(
                "limit"@,
                match f.limit {
                    Some(n) => Some(spec_u64_digits(n as nat)),
                    None => None,
                },
            ),
            k,
        ) + pairs_with_key(
            opt_query_pair(
                "list"@,
                match f.list_id {
                    Some(n) => Some(spec_u64_digits(n as nat)),
                    None => None,
                },
            ),
            k,
        ) + pairs_with_key(
            opt_query_pair(
                "chains"@,
                match f.chains {
                    Some(cs) => Some(spec_join_comma(cs)),
                    None => None,
                },
            ),
            k,
        ) + pairs_with_key(
            opt_query_pair(
                "txTypes"@,
                match f.tx_types {
                    Some(ts) => Some(spec_join_comma(spec_tx_type_names(ts))),
                    None => None,
                },
            ),
            k,
        ) + pairs_with_key(
            opt_query_pair(
                "tokens"@,
                match f.tokens {
                    Some(ts) => Some(spec_join_comma(ts)),
                    None => None,
                },
            ),
            k,
        ) + pairs_with_key(
            opt_query_pair(
                "minUSD"@,
                match f.min_usd {
                    Some(n) => Some(spec_u64_digits(n as nat)),
                    None => None,
                },
            ),
            k,
        ) + pairs_with_key(
            opt_query_pair(
                "newTrades"@,
                match f.new_trades {
                    Some(b) => Some(if b { "true"@ } else { "false"@ }),
                    None => None,
                },
            ),
            k,
        ) + pairs_with_key(opt_query_pair("startFrom"@, f.start_from), k) + pairs_with_key(
            opt_query_pair(
                "fromTimestamp"@,
                match f.from_timestamp {
                    Some(n) => Some(spec_u64_digits(n as nat)),
                    None => None,
                },
            ),
            k,
        ) + pairs_with_key(
            opt_query_pair(
                "toTimestamp"@,
                match f.to_timestamp {
                    Some(n) => Some(spec_u64_digits(n as nat)),
                    None => None,
                },
            ),
            k,
        ),
{
    broadcast use vstd::seq_lib::group_seq_lib_default;

}

} // verus!
