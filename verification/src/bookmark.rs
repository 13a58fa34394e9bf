//! The bookmark model and the order and filter inputs of its queries.
//! Turning these inputs into database expressions belongs to the query
//! layer; here they are plain data with their accessors.

use vstd::prelude::*;

use crate::generics::{I16Filtering, I32Filtering, Ordering, ID};

verus! {

/// Available orders for the bookmark query.
#[derive(Clone, Copy, Debug, PartialEq, Eq, Structural)]
pub struct BookmarkOrder {
    pub id: Option<Ordering>,
    pub value: Option<Ordering>,
    pub puzzle_id: Option<Ordering>,
    pub user_id: Option<Ordering>,
}

/// Helper object carrying the orders to apply to the query.
#[derive(Clone, Debug, PartialEq, Eq)]
pub struct BookmarkOrders(pub Vec<BookmarkOrder>);

impl Default for BookmarkOrders {
    /// No order at all.
    fn default() -> (r: Self)
        ensures
            r.0@ == Seq::<BookmarkOrder>::empty(),
    {
        BookmarkOrders(Vec::new())
    }
}

impl BookmarkOrders {
    /// The given orders, applied first to last.
    pub fn new(orders: Vec<BookmarkOrder>) -> (r: Self)
        ensures
            r.0@ == orders@,
    {
        BookmarkOrders(orders)
    }
}

/// Available filters for the bookmark query.
#[derive(Clone, Debug, PartialEq, Eq)]
pub struct BookmarkFilter {
    pub id: Option<I32Filtering>,
    pub value: Option<I16Filtering>,
    pub user_id: Option<I32Filtering>,
    pub puzzle_id: Option<I32Filtering>,
}

/// A bookmark a user put on a puzzle, with its value.
#[derive(Clone, Copy, Debug, PartialEq, Eq, Structural)]
pub struct Bookmark {
    pub id: ID,
    pub value: i16,
    pub puzzle_id: ID,
    pub user_id: ID,
}

impl Bookmark {
    /// The bookmark's identifier.
    pub fn id(&self) -> (r: ID)
        ensures
            r == self.id,
    {
        self.id
    }

    /// The value the user bookmarked with.
    pub fn value(&self) -> (r: i16)
        ensures
            r == self.value,
    {
        self.value
    }

    /// The bookmarked puzzle.
    pub fn puzzle_id(&self) -> (r: ID)
        ensures
            r == self.puzzle_id,
    {
        self.puzzle_id
    }

    /// The bookmarking user.
    pub fn user_id(&self) -> (r: ID)
        ensures
            r == self.user_id,
    {
        self.user_id
    }
}

} // verus!
