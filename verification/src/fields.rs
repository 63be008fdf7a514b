//! Typed member extraction from JSON objects.
//!
//! Each extractor reads one named member of an object and checks its type.
//! A mandatory extractor yields nothing when the member is missing or of the
//! wrong type; an optional extractor tells a missing or `null` member (the
//! field has no value) apart from one of the wrong type (the record does not
//! fit the shape at all). Unsigned members accept only non-negative integer
//! numbers; numeric members accept any JSON number and keep it exactly.

use vstd::prelude::*;
use crate::json::{
    JsonNumber, JsonValue, JsonVal, view_pairs, spec_lookup, lookup, lemma_lookup_first,
    lemma_view_pairs_index,
};
use crate::models::feed::{TokenMarketCap, TokenMarketCapV};

verus! {

/// The named member as a string, if present with that type.
pub open spec fn spec_str_field(o: Seq<(Seq<char>, JsonVal)>, name: Seq<char>) -> Option<
    Seq<char>,
> {
    match spec_lookup(o, name) {
        Some(JsonVal::Str(s)) => Some(s),
        _ => None,
    }
}

/// The named member as a number, if present with that type.
pub open spec fn spec_num_field(o: Seq<(Seq<char>, JsonVal)>, name: Seq<char>) -> Option<
    JsonNumber,
> {
    match spec_lookup(o, name) {
        Some(JsonVal::Num(n)) => Some(n),
        _ => None,
    }
}

/// The named member as an unsigned 64-bit integer: a negative or fractional
/// number does not qualify.
pub open spec fn spec_u64_field(o: Seq<(Seq<char>, JsonVal)>, name: Seq<char>) -> Option<u64> {
    match spec_lookup(o, name) {
        Some(JsonVal::Num(JsonNumber::PosInt(n))) => Some(n),
        _ => None,
    }
}

/// The named member as an unsigned 32-bit integer.
pub open spec fn spec_u32_field(o: Seq<(Seq<char>, JsonVal)>, name: Seq<char>) -> Option<u32> {
    match spec_lookup(o, name) {
        Some(JsonVal::Num(JsonNumber::PosInt(n))) => if n <= u32::MAX as u64 {
            Some(n as u32)
        } else {
            None
        },
        _ => None,
    }
}

/// The named member as a boolean, if present with that type.
pub open spec fn spec_bool_field(o: Seq<(Seq<char>, JsonVal)>, name: Seq<char>) -> Option<bool> {
    match spec_lookup(o, name) {
        Some(JsonVal::Bool(b)) => Some(b),
        _ => None,
    }
}

/// The named optional string member: missing or `null` is an accepted
/// absence, any other non-string value refuses the record.
pub open spec fn spec_opt_str_field(o: Seq<(Seq<char>, JsonVal)>, name: Seq<char>) -> Option<
    Option<Seq<char>>,
> {
    match spec_lookup(o, name) {
        None => Some(None),
        Some(JsonVal::Null) => Some(None),
        Some(JsonVal::Str(s)) => Some(Some(s)),
        Some(_) => None,
    }
}

/// The named optional unsigned member.
pub open spec fn spec_opt_u64_field(o: Seq<(Seq<char>, JsonVal)>, name: Seq<char>) -> Option<
    Option<u64>,
> {
    match spec_lookup(o, name) {
        None => Some(None),
        Some(JsonVal::Null) => Some(None),
        Some(JsonVal::Num(JsonNumber::PosInt(n))) => Some(Some(n)),
        Some(_) => None,
    }
}

/// The named optional numeric member.
pub open spec fn spec_opt_num_field(o: Seq<(Seq<char>, JsonVal)>, name: Seq<char>) -> Option<
    Option<JsonNumber>,
> {
    match spec_lookup(o, name) {
        None => Some(None),
        Some(JsonVal::Null) => Some(None),
        Some(JsonVal::Num(n)) => Some(Some(n)),
        Some(_) => None,
    }
}

/// Decode of a market-capitalisation object.
pub open spec fn spec_decode_token_market_cap(v: JsonVal) -> Option<TokenMarketCapV> {
    match v {
        JsonVal::Obj(o) => {
            let token_address = spec_str_field(o, "token_address"@);
            let market_cap = spec_num_field(o, "market_cap"@);
            let liquidity = spec_num_field(o, "liquidity"@);
            if token_address is Some && market_cap is Some && liquidity is Some {
                Some(
                    TokenMarketCapV {
                        token_address: token_address->Some_0,
                        market_cap: market_cap->Some_0,
                        liquidity: liquidity->Some_0,
                    },
                )
            } else {
                None
            }
        },
        _ => None,
    }
}

/// The named optional market-capitalisation member.
pub open spec fn spec_mc_field(o: Seq<(Seq<char>, JsonVal)>, name: Seq<char>) -> Option<
    Option<TokenMarketCapV>,
> {
    match spec_lookup(o, name) {
        None => Some(None),
        Some(JsonVal::Null) => Some(None),
        Some(v) => match spec_decode_token_market_cap(v) {
            Some(m) => Some(Some(m)),
            None => None,
        },
    }
}

/// Reads the named string member.
pub fn str_field(members: &Vec<(String, JsonValue)>, name: &str) -> (r: Option<String>)
    ensures
        match r {
            Some(s) => spec_str_field(view_pairs(*members, 0), name@) == Some(s@),
            None => spec_str_field(view_pairs(*members, 0), name@) is None,
        },
{
    match lookup(members, name) {
        Some(v) => match v {
            JsonValue::Str(s) => Some(s.clone()),
            _ => None,
        },
        None => None,
    }
}

/// Reads the named numeric member.
pub fn num_field(members: &Vec<(String, JsonValue)>, name: &str) -> (r: Option<JsonNumber>)
    ensures
        r == spec_num_field(view_pairs(*members, 0), name@),
{
    match lookup(members, name) {
        Some(v) => match v {
            JsonValue::Num(n) => Some(*n),
            _ => None,
        },
        None => None,
    }
}

/// Reads the named unsigned 64-bit member.
pub fn u64_field(members: &Vec<(String, JsonValue)>, name: &str) -> (r: Option<u64>)
    ensures
        r == spec_u64_field(view_pairs(*members, 0), name@),
{
    match lookup(members, name) {
        Some(v) => match v {
            JsonValue::Num(n) => n.as_u64(),
            _ => None,
        },
        None => None,
    }
}

/// Reads the named unsigned 32-bit member.
pub fn u32_field(members: &Vec<(String, JsonValue)>, name: &str) -> (r: Option<u32>)
    ensures
        r == spec_u32_field(view_pairs(*members, 0), name@),
{
    match lookup(members, name) {
        Some(v) => match v {
            JsonValue::Num(n) => match n {
                JsonNumber::PosInt(p) => if *p <= u32::MAX as u64 {
                    Some(*p as u32)
                } else {
                    None
                },
                _ => None,
            },
            _ => None,
        },
        None => None,
    }
}

/// Reads the named boolean member.
pub fn bool_field(members: &Vec<(String, JsonValue)>, name: &str) -> (r: Option<bool>)
    ensures
        r == spec_bool_field(view_pairs(*members, 0), name@),
{
    match lookup(members, name) {
        Some(v) => match v {
            JsonValue::Bool(b) => Some(*b),
            _ => None,
        },
        None => None,
    }
}

/// Reads the named optional string member.
pub fn opt_str_field(members: &Vec<(String, JsonValue)>, name: &str) -> (r: Option<
    Option<String>,
>)
    ensures
        match r {
            Some(Some(s)) => spec_opt_str_field(view_pairs(*members, 0), name@) == Some(
                Some(s@),
            ),
            Some(None) => spec_opt_str_field(view_pairs(*members, 0), name@) == Some(
                None::<Seq<char>>,
            ),
            None => spec_opt_str_field(view_pairs(*members, 0), name@) is None,
        },
{
    match lookup(members, name) {
        None => Some(None),
        Some(v) => match v {
            JsonValue::Null => Some(None),
            JsonValue::Str(s) => Some(Some(s.clone())),
            _ => None,
        },
    }
}

/// Reads the named optional unsigned member.
pub fn opt_u64_field(members: &Vec<(String, JsonValue)>, name: &str) -> (r: Option<Option<u64>>)
    ensures
        r == spec_opt_u64_field(view_pairs(*members, 0), name@),
{
    match lookup(members, name) {
        None => Some(None),
        Some(v) => match v {
            JsonValue::Null => Some(None),
            JsonValue::Num(n) => match n.as_u64() {
                Some(u) => Some(Some(u)),
                None => None,
            },
            _ => None,
        },
    }
}

/// Reads the named optional numeric member.
pub fn opt_num_field(members: &Vec<(String, JsonValue)>, name: &str) -> (r: Option<
    Option<JsonNumber>,
>)
    ensures
        r == spec_opt_num_field(view_pairs(*members, 0), name@),
{
    match lookup(members, name) {
        None => Some(None),
        Some(v) => match v {
            JsonValue::Null => Some(None),
            JsonValue::Num(n) => Some(Some(*n)),
            _ => None,
        },
    }
}

/// Decodes a market-capitalisation object.
pub fn decode_token_market_cap(v: &JsonValue) -> (r: Option<TokenMarketCap>)
    ensures
        match r {
            Some(m) => spec_decode_token_market_cap(v@) == Some(m@),
            None => spec_decode_token_market_cap(v@) is None,
        },
{
    match v {
        JsonValue::Obj(members) => {
            let token_address = match str_field(members, "token_address") {
                Some(s) => s,
                None => {
                    return None;
                },
            };
            let market_cap = match num_field(members, "market_cap") {
                Some(n) => n,
                None => {
                    return None;
                },
            };
            let liquidity = match num_field(members, "liquidity") {
                Some(n) => n,
                None => {
                    return None;
                },
            };
            Some(TokenMarketCap { token_address, market_cap, liquidity })
        },
        _ => None,
    }
}

/// Reads the named optional market-capitalisation member.
pub fn mc_field(members: &Vec<(String, JsonValue)>, name: &str) -> (r: Option<
    Option<TokenMarketCap>,
>)
    ensures
        match r {
            Some(Some(m)) => spec_mc_field(view_pairs(*members, 0), name@) == Some(Some(m@)),
            Some(None) => spec_mc_field(view_pairs(*members, 0), name@) == Some(
                None::<TokenMarketCapV>,
            ),
            None => spec_mc_field(view_pairs(*members, 0), name@) is None,
        },
{
    match lookup(members, name) {
        None => Some(None),
        Some(v) => match v {
            JsonValue::Null => Some(None),
            _ => match decode_token_market_cap(v) {
                Some(m) => Some(Some(m)),
                None => None,
            },
        },
    }
}

/// The members of an encoded market-capitalisation object.
pub open spec fn spec_encode_token_market_cap(m: TokenMarketCapV) -> Seq<(Seq<char>, JsonVal)> {
    seq![
        ("token_address"@, JsonVal::Str(m.token_address)),
        ("market_cap"@, JsonVal::Num(m.market_cap)),
        ("liquidity"@, JsonVal::Num(m.liquidity)),
    ]
}

/// Encodes a market-capitalisation record as a JSON object.
pub fn encode_token_market_cap(m: &TokenMarketCap) -> (r: JsonValue)
    ensures
        r@ == JsonVal::Obj(spec_encode_token_market_cap(m@)),
{
    let mut ms: Vec<(String, JsonValue)> = Vec::new();
    ms.push(("token_address".to_owned(), JsonValue::Str(m.token_address.clone())));
    ms.push(("market_cap".to_owned(), JsonValue::Num(m.market_cap)));
    ms.push(("liquidity".to_owned(), JsonValue::Num(m.liquidity)));
    proof {
        lemma_view_pairs_index(ms, 0);
        assert(view_pairs(ms, 0) =~~= spec_encode_token_market_cap(m@));
    }
    JsonValue::Obj(ms)
}

/// Decoding an encoded market-capitalisation record yields it back.
pub proof fn lemma_token_market_cap_round_trip(m: TokenMarketCapV)
    ensures
        spec_decode_token_market_cap(JsonVal::Obj(spec_encode_token_market_cap(m))) == Some(m),
{
    reveal_strlit("token_address");
    reveal_strlit("market_cap");
    reveal_strlit("liquidity");
    let ms = spec_encode_token_market_cap(m);
    assert(ms.len() == 3);
    assert(ms[0].0 == "token_address"@);
    assert(ms[1].0 == "market_cap"@);
    assert(ms[2].0 == "liquidity"@);
    lemma_lookup_first(ms, 0);
    lemma_lookup_first(ms, 1);
    lemma_lookup_first(ms, 2);
}

} // verus!
