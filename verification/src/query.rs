//! Search parameters of the on-demand index: sort settings, the immutable
//! query snapshot taken at dispatch time, and the page a search returns.

use vstd::prelude::*;

use crate::shows::MediathekShow;
use crate::text::str_eq;

verus! {

/// Fixed page size of every search request.
pub const PAGE_SIZE: usize = 15;

/// The field the search backend sorts by.
#[derive(Clone, Copy, Debug, PartialEq, Eq, Structural)]
pub enum SortField {
    Channel,
    Timestamp,
    Duration,
}

/// The direction the search backend sorts in.
#[derive(Clone, Copy, Debug, PartialEq, Eq, Structural)]
pub enum SortOrder {
    Ascending,
    Descending,
}

/// The sort field a persisted key selects; unknown keys fall back to
/// sorting by timestamp.
pub open spec fn spec_sort_field_of(s: Seq<char>) -> SortField {
    if s == "channel"@ {
        SortField::Channel
    } else if s == "duration"@ {
        SortField::Duration
    } else {
        SortField::Timestamp
    }
}

/// The sort order a persisted key selects; unknown keys fall back to
/// descending.
pub open spec fn spec_sort_order_of(s: Seq<char>) -> SortOrder {
    if s == "asc"@ || s == "ascending"@ {
        SortOrder::Ascending
    } else {
        SortOrder::Descending
    }
}

impl SortField {
    /// Parses a persisted sort-field key, accepting `"date"` as the older
    /// spelling of `"timestamp"`; anything unknown falls back to timestamp.
    pub fn from_key(s: &str) -> (r: SortField)
        ensures
            r == spec_sort_field_of(s@),
    {
        if str_eq(s, "channel") {
            SortField::Channel
        } else if str_eq(s, "duration") {
            SortField::Duration
        } else {
            SortField::Timestamp
        }
    }

    /// The persisted key of this sort field.
    pub fn as_str(&self) -> (r: &'static str)
        ensures
            *self is Channel ==> r@ == "channel"@,
            *self is Timestamp ==> r@ == "timestamp"@,
            *self is Duration ==> r@ == "duration"@,
    {
        match self {
            SortField::Channel => "channel",
            SortField::Timestamp => "timestamp",
            SortField::Duration => "duration",
        }
    }
}

impl SortOrder {
    /// Parses a persisted sort-order key, accepting both the short and the
    /// long spelling; anything unknown falls back to descending.
    pub fn from_key(s: &str) -> (r: SortOrder)
        ensures
            r == spec_sort_order_of(s@),
    {
        if str_eq(s, "asc") || str_eq(s, "ascending") {
            SortOrder::Ascending
        } else {
            SortOrder::Descending
        }
    }

    /// The persisted key of this sort order.
    pub fn as_str(&self) -> (r: &'static str)
        ensures
            *self is Ascending ==> r@ == "asc"@,
            *self is Descending ==> r@ == "desc"@,
    {
        match self {
            SortOrder::Ascending => "asc",
            SortOrder::Descending => "desc",
        }
    }
}

/// An immutable snapshot of the search parameters at dispatch time.
#[derive(Debug)]
pub struct Query {
    pub text: String,
    pub search_everywhere: bool,
    pub include_future: bool,
    pub sort_by: SortField,
    pub sort_order: SortOrder,
    pub offset: usize,
    pub size: usize,
}

impl Clone for Query {
    fn clone(&self) -> (r: Self)
        ensures
            r == *self,
    {
        Query {
            text: self.text.clone(),
            search_everywhere: self.search_everywhere,
            include_future: self.include_future,
            sort_by: self.sort_by,
            sort_order: self.sort_order,
            offset: self.offset,
            size: self.size,
        }
    }
}

/// One page of search results together with the server-reported total
/// number of hits for the query.
#[derive(Debug)]
pub struct ResultPage {
    pub items: Vec<MediathekShow>,
    pub total_results: u64,
}

} // verus!
