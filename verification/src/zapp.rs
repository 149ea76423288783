//! Data model of the live-channel directory backend: channel identifiers,
//! channel metadata, and per-channel schedule responses.
//!
//! Timestamps are unix seconds; the transport and JSON layers that produce
//! these values live outside this crate.

use vstd::prelude::*;

verus! {

/// Identifier of a live channel, as used by the channel directory backend.
#[derive(Debug)]
pub struct ChannelId {
    id: String,
}

impl View for ChannelId {
    type V = Seq<char>;

    closed spec fn view(&self) -> Seq<char> {
        self.id@
    }
}

impl ChannelId {
    pub fn new(id: String) -> (r: ChannelId)
        ensures
            r@ == id@,
    {
        ChannelId { id }
    }

    /// The identifier as a plain string slice.
    pub fn as_ref(&self) -> (r: &str)
        ensures
            r@ == self@,
    {
        self.id.as_str()
    }
}

impl Clone for ChannelId {
    fn clone(&self) -> (r: Self)
        ensures
            r@ == self@,
    {
        ChannelId { id: self.id.clone() }
    }
}

impl PartialEq for ChannelId {
    fn eq(&self, other: &Self) -> bool {
        self.id == other.id
    }
}

impl vstd::std_specs::cmp::PartialEqSpecImpl for ChannelId {
    open spec fn obeys_eq_spec() -> bool {
        true
    }

    open spec fn eq_spec(&self, other: &ChannelId) -> bool {
        self@ == other@
    }
}

/// Display metadata of a live channel: its name and the URL of its stream.
#[derive(Debug)]
pub struct ChannelInfo {
    pub name: String,
    pub stream_url: String,
}

impl Clone for ChannelInfo {
    fn clone(&self) -> (r: Self)
        ensures
            r == *self,
    {
        ChannelInfo { name: self.name.clone(), stream_url: self.stream_url.clone() }
    }
}

/// One show of a channel's schedule, with start and end as unix seconds.
#[derive(Debug)]
pub struct Show {
    pub title: String,
    pub subtitle: Option<String>,
    pub description: Option<String>,
    pub channel: ChannelId,
    pub start_time: i64,
    pub end_time: i64,
}

/// A per-channel schedule response. The backend reports some failures
/// in-band, inside a successful transport response; those surface here as
/// `Error` (the "soft" failure of the schedule endpoint), so that one
/// channel's outage never aborts its siblings.
#[derive(Debug)]
pub enum ShowsResult {
    Shows(Vec<Show>),
    Error(String),
}

/// The length in seconds of a scheduled show, zero when either endpoint of
/// the timespan is missing (reported as 0).
pub fn schedule_duration(start_time: i64, end_time: i64) -> (r: i64)
    requires
        i64::MIN <= end_time - start_time <= i64::MAX,
    ensures
        r == spec_schedule_duration(start_time, end_time),
{
    if start_time == 0 || end_time == 0 {
        0
    } else {
        end_time - start_time
    }
}

pub open spec fn spec_schedule_duration(start_time: i64, end_time: i64) -> int {
    if start_time == 0 || end_time == 0 {
        0
    } else {
        end_time - start_time
    }
}

} // verus!
