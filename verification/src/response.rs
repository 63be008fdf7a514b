//! Decoding of the response envelope.
//!
//! A response body is one object `{status, data: {items, paging},
//! message?}`. Decoding extracts the envelope parts, decodes every item in
//! order, and fails as a whole on the first item that matches no shape: a
//! malformed or unknown record refuses the response rather than vanishing
//! from it.

use vstd::prelude::*;
use crate::json::{
    JsonValue, JsonVal, view_pairs, view_elems, view_json, spec_lookup, lookup,
    lemma_view_elems_index,
};
use crate::fields::{
    spec_u64_field, spec_bool_field, spec_str_field, spec_opt_str_field, u64_field, bool_field,
    str_field, opt_str_field,
};
use crate::models::{Paging, PagingV, Response, ResponseData, ResponseV};
use crate::models::feed::{Item, ItemV};
use crate::decode::{spec_decode_item, decode_item};
use crate::error::DecodeError;

verus! {

/// Decode of a paging block.
pub open spec fn spec_decode_paging(v: JsonVal) -> Option<PagingV> {
    match v {
        JsonVal::Obj(o) => {
            let total_rows_in_page = spec_u64_field(o, "total_rows_in_page"@);
            let has_next_page = spec_bool_field(o, "has_next_page"@);
            let next_object = spec_opt_str_field(o, "next_object"@);
            if total_rows_in_page is Some && has_next_page is Some && next_object is Some {
                Some(
                    PagingV {
                        total_rows_in_page: total_rows_in_page->Some_0,
                        has_next_page: has_next_page->Some_0,
                        next_object: next_object->Some_0,
                    },
                )
            } else {
                None
            }
        },
        _ => None,
    }
}

/// Decodes a paging block.
pub fn decode_paging(v: &JsonValue) -> (r: Option<Paging>)
    ensures
        match r {
            Some(p) => spec_decode_paging(v@) == Some(p@),
            None => spec_decode_paging(v@) is None,
        },
{
    match v {
        JsonValue::Obj(members) => {
            let total_rows_in_page = match u64_field(members, "total_rows_in_page") {
                Some(n) => n,
                None => {
                    return None;
                },
            };
            let has_next_page = match bool_field(members, "has_next_page") {
                Some(b) => b,
                None => {
                    return None;
                },
            };
            let next_object = match opt_str_field(members, "next_object") {
                Some(c) => c,
                None => {
                    return None;
                },
            };
            Some(Paging { total_rows_in_page, has_next_page, next_object })
        },
        _ => None,
    }
}

/// Decode of an item array: the decoded items in order, or the position of
/// the first element that matches no shape.
pub open spec fn spec_decode_items(elems: Seq<JsonVal>) -> Result<Seq<ItemV>, int>
    decreases elems.len(),
{
    if elems.len() == 0 {
        Ok(Seq::empty())
    } else {
        match spec_decode_item(elems[0]) {
            None => Err(0),
            Some(x) => match spec_decode_items(elems.drop_first()) {
                Ok(t) => Ok(seq![x] + t),
                Err(i) => Err(i + 1),
            },
        }
    }
}

/// Items that all decode give the decoded sequence.
proof fn lemma_decode_items_ok(s: Seq<JsonVal>, r: Seq<ItemV>)
    requires
        r.len() == s.len(),
        forall|j: int| 0 <= j < s.len() ==> #[trigger] spec_decode_item(s[j]) == Some(r[j]),
    ensures
        spec_decode_items(s) == Ok::<Seq<ItemV>, int>(r),
    decreases s.len(),
{
    if s.len() == 0 {
        assert(r =~= Seq::<ItemV>::empty());
    } else {
        assert(forall|j: int|
            0 <= j < s.drop_first().len() ==> #[trigger] spec_decode_item(s.drop_first()[j])
                == Some(r.drop_first()[j]));
        lemma_decode_items_ok(s.drop_first(), r.drop_first());
        assert(seq![r[0]] + r.drop_first() =~= r);
    }
}

/// A first element that decodes to nothing fails the whole array at its
/// position.
proof fn lemma_decode_items_err(s: Seq<JsonVal>, i: int)
    requires
        0 <= i < s.len(),
        forall|j: int| 0 <= j < i ==> spec_decode_item(#[trigger] s[j]) is Some,
        spec_decode_item(s[i]) is None,
    ensures
        spec_decode_items(s) == Err::<Seq<ItemV>, int>(i),
    decreases i,
{
    if i > 0 {
        assert(forall|j: int|
            0 <= j < i - 1 ==> spec_decode_item(#[trigger] s.drop_first()[j]) is Some);
        lemma_decode_items_err(s.drop_first(), i - 1);
    }
}

/// Decodes every element of an item array, in order, failing on the first
/// element that matches no shape.
pub fn decode_items(elems: &Vec<JsonValue>) -> (r: Result<Vec<Item>, usize>)
    ensures
        match r {
            Ok(out) => spec_decode_items(view_elems(*elems, 0)) == Ok::<_, int>(
                Seq::new(out@.len(), |i: int| out@[i]@),
            ) && out@.len() == elems@.len(),
            Err(i) => spec_decode_items(view_elems(*elems, 0)) == Err::<Seq<ItemV>, int>(
                i as int,
            ) && i < elems@.len(),
        },
{
    let ghost ev = view_elems(*elems, 0);
    proof {
        lemma_view_elems_index(*elems, 0);
    }
    let mut out: Vec<Item> = Vec::new();
    let n = elems.len();
    for i in 0..n
        invariant
            n == elems.len(),
            ev == view_elems(*elems, 0),
            ev.len() == n,
            forall|j: int| 0 <= j < n ==> ev[j] == view_json(elems@[j]),
            out@.len() == i,
            forall|j: int| 0 <= j < i ==> #[trigger] spec_decode_item(ev[j]) == Some(out@[j]@),
    {
        match decode_item(&elems[i]) {
            Some(x) => {
                out.push(x);
            },
            None => {
                proof {
                    lemma_decode_items_err(ev, i as int);
                }
                return Err(i);
            },
        }
    }
    proof {
        lemma_decode_items_ok(ev, Seq::new(out@.len(), |i: int| out@[i]@));
    }
    Ok(out)
}

/// One element that matches no shape fails the whole array: no partial
/// item list is ever produced.
pub proof fn lemma_bad_item_fails_decode(s: Seq<JsonVal>, i: int)
    requires
        0 <= i < s.len(),
        spec_decode_item(s[i]) is None,
    ensures
        spec_decode_items(s) is Err,
    decreases s.len(),
{
    if i > 0 {
        match spec_decode_item(s[0]) {
            None => {},
            Some(_) => {
                lemma_bad_item_fails_decode(s.drop_first(), i - 1);
            },
        }
    }
}

/// Decode of a response envelope: the decoded response, or where it failed.
pub open spec fn spec_decode_response(v: JsonVal) -> Result<ResponseV, DecodeError> {
    match v {
        JsonVal::Obj(o) => {
            let status = spec_str_field(o, "status"@);
            let message = spec_opt_str_field(o, "message"@);
            if status is Some && message is Some {
                match spec_lookup(o, "data"@) {
                    Some(JsonVal::Obj(d)) => match spec_lookup(d, "paging"@) {
                        Some(pv) => match spec_decode_paging(pv) {
                            Some(pg) => match spec_lookup(d, "items"@) {
                                Some(JsonVal::Arr(elems)) => match spec_decode_items(elems) {
                                    Ok(its) => Ok(
                                        ResponseV {
                                            status: status->Some_0,
                                            items: its,
                                            paging: pg,
                                            message: message->Some_0,
                                        },
                                    ),
                                    Err(i) => Err(DecodeError::Item { index: i as usize }),
                                },
                                _ => Err(DecodeError::Envelope),
                            },
                            None => Err(DecodeError::Envelope),
                        },
                        None => Err(DecodeError::Envelope),
                    },
                    _ => Err(DecodeError::Envelope),
                }
            } else {
                Err(DecodeError::Envelope)
            }
        },
        _ => Err(DecodeError::Envelope),
    }
}

/// Decodes a response envelope.
pub fn decode_response(v: &JsonValue) -> (r: Result<Response<Item>, DecodeError>)
    ensures
        match r {
            Ok(resp) => spec_decode_response(v@) == Ok::<_, DecodeError>(resp@),
            Err(e) => spec_decode_response(v@) == Err::<ResponseV, _>(e),
        },
{
    match v {
        JsonValue::Obj(members) => {
            let status = match str_field(members, "status") {
                Some(s) => s,
                None => {
                    return Err(DecodeError::Envelope);
                },
            };
            let message = match opt_str_field(members, "message") {
                Some(m) => m,
                None => {
                    return Err(DecodeError::Envelope);
                },
            };
            let data = match lookup(members, "data") {
                Some(d) => d,
                None => {
                    return Err(DecodeError::Envelope);
                },
            };
            match data {
                JsonValue::Obj(dm) => {
                    let items_value = match lookup(dm, "items") {
                        Some(iv) => iv,
                        None => {
                            return Err(DecodeError::Envelope);
                        },
                    };
                    let paging_value = match lookup(dm, "paging") {
                        Some(pv) => pv,
                        None => {
                            return Err(DecodeError::Envelope);
                        },
                    };
                    let paging = match decode_paging(paging_value) {
                        Some(p) => p,
                        None => {
                            return Err(DecodeError::Envelope);
                        },
                    };
                    match items_value {
                        JsonValue::Arr(elems) => {
                            match decode_items(elems) {
                                Ok(items) => Ok(
                                    Response {
                                        status,
                                        data: ResponseData { items, paging },
                                        message,
                                    },
                                ),
                                Err(i) => Err(DecodeError::Item { index: i }),
                            }
                        },
                        _ => Err(DecodeError::Envelope),
                    }
                },
                _ => Err(DecodeError::Envelope),
            }
        },
        _ => Err(DecodeError::Envelope),
    }
}

} // verus!
