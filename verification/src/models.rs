//! The response envelope of the feed endpoint.
//!
//! A successful response is an object `{status, data: {items, paging},
//! message?}`; its `items` are decoded one by one and its `paging` block is
//! handed to the caller, who drives the next page from the cursor it holds.

pub mod feed;

use vstd::prelude::*;
use crate::models::feed::{Item, ItemV};

verus! {

/// The paging block of a response page.
#[derive(Debug, Clone, PartialEq)]
pub struct Paging {
    /// The number of rows in the current page.
    pub total_rows_in_page: u64,
    /// Whether a further page exists.
    pub has_next_page: bool,
    /// The opaque cursor of the next page, when one exists.
    pub next_object: Option<String>,
}

/// The view of a [`Paging`] block.
pub struct PagingV {
    /// The number of rows in the current page.
    pub total_rows_in_page: u64,
    /// Whether a further page exists.
    pub has_next_page: bool,
    /// The opaque cursor of the next page, when one exists.
    pub next_object: Option<Seq<char>>,
}

impl View for Paging {
    type V = PagingV;

    open spec fn view(&self) -> PagingV {
        PagingV {
            total_rows_in_page: self.total_rows_in_page,
            has_next_page: self.has_next_page,
            next_object: match self.next_object {
                Option::Some(s) => Option::Some(s@),
                Option::None => Option::None,
            },
        }
    }
}

/// The data block of a response: the decoded items and the paging block.
#[derive(Debug, Clone, PartialEq)]
pub struct ResponseData<T> {
    /// The decoded items, in the order the response carried them.
    pub items: Vec<T>,
    /// The paging block of this page.
    pub paging: Paging,
}

/// A decoded response envelope.
#[derive(Debug, Clone, PartialEq)]
pub struct Response<T> {
    /// The status line of the response.
    pub status: String,
    /// The data block of the response.
    pub data: ResponseData<T>,
    /// An optional message with further context.
    pub message: Option<String>,
}

/// The view of a feed [`Response`]: the envelope's parts, with the items as
/// a sequence of item views.
pub struct ResponseV {
    /// The status line of the response.
    pub status: Seq<char>,
    /// The decoded items, in order.
    pub items: Seq<ItemV>,
    /// The paging block of this page.
    pub paging: PagingV,
    /// An optional message with further context.
    pub message: Option<Seq<char>>,
}

impl View for Response<Item> {
    type V = ResponseV;

    open spec fn view(&self) -> ResponseV {
        ResponseV {
            status: self.status@,
            items: Seq::new(self.data.items@.len(), |i: int| self.data.items@[i]@),
            paging: self.data.paging@,
            message: match self.message {
                Option::Some(s) => Option::Some(s@),
                Option::None => Option::None,
            },
        }
    }
}

} // verus!
