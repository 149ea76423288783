//! The live view's data assembly: which channels are shown, in what order,
//! and each channel's "now playing" overlay built from its schedule fetch.
//!
//! Schedule fetches happen per channel, outside this crate; their outcomes
//! are handed in as plain values. A failed fetch — whether a transport
//! failure or the backend's in-band per-channel error — only flags that one
//! channel as having no schedule; the channel stays in the list and its
//! siblings are untouched.

use vstd::prelude::*;

use crate::catalog::{has_key, index_of_key, ChannelCatalog};
use crate::error::RemoteError;
use crate::zapp::{schedule_duration, spec_schedule_duration, ChannelId, ChannelInfo, Show,
    ShowsResult};

verus! {

/// What `html2pango::markup` returns for a text: its Pango-markup form.
pub uninterp spec fn markup_of(s: Seq<char>) -> Seq<char>;

/// Relies on html2pango::markup: converts a text with HTML-style markup
/// and links into Pango markup; the result depends on the input characters
/// alone.
#[verifier::external_body]
fn markup(s: &str) -> (r: String)
    ensures
        r@ == markup_of(s@),
{
    html2pango::markup(s)
}

/// The views of a list of selected channels: each pair as the id's
/// characters and the metadata.
pub open spec fn entry_views(rs: Seq<(ChannelId, ChannelInfo)>) -> Seq<(Seq<char>, ChannelInfo)> {
    rs.map_values(|p: (ChannelId, ChannelInfo)| (p.0@, p.1))
}

/// The id views of a list of channel ids.
pub open spec fn id_views(ids: Seq<ChannelId>) -> Seq<Seq<char>> {
    ids.map_values(|c: ChannelId| c@)
}

/// The channels picked by a visibility list, in the list's order: each id
/// the catalog knows contributes its entry, unknown ids are skipped.
pub open spec fn selected(
    es: Seq<(Seq<char>, ChannelInfo)>,
    ids: Seq<Seq<char>>,
) -> Seq<(Seq<char>, ChannelInfo)>
    decreases ids.len(),
{
    if ids.len() == 0 {
        Seq::empty()
    } else {
        selected(es, ids.drop_last()) + (if has_key(es, ids.last()) {
            seq![(ids.last(), es[index_of_key(es, ids.last())].1)]
        } else {
            Seq::empty()
        })
    }
}

/// The channels the live view shows, in order: every channel of the
/// catalog when the visibility list is empty, else the listed channels
/// that the catalog knows, in the list's order.
pub fn select_visible(catalog: &ChannelCatalog, visible: &Vec<ChannelId>) -> (r: Vec<
    (ChannelId, ChannelInfo),
>)
    requires
        catalog.well_formed(),
    ensures
        visible@.len() == 0 ==> entry_views(r@) == catalog@,
        visible@.len() > 0 ==> entry_views(r@) == selected(catalog@, id_views(visible@)),
{
    let mut r: Vec<(ChannelId, ChannelInfo)> = Vec::new();
    if visible.len() == 0 {
        let n = catalog.len();
        let mut i: usize = 0;
        while i < n
            invariant
                i <= n,
                n == catalog@.len(),
                catalog.well_formed(),
                r@.len() == i,
                entry_views(r@) == catalog@.take(i as int),
            decreases n - i,
        {
            let ghost prev = r@;
            let entry = catalog.entry_at(i);
            match entry {
                Some((id, info)) => {
                    let ghost pushed = (id, info);
                    r.push((id, info));
                    proof {
                        assert(r@ == prev.push(pushed));
                        assert forall|j: int| 0 <= j < r@.len() implies #[trigger] entry_views(
                            r@,
                        )[j] == catalog@.take(i + 1)[j] by {
                            if j < i {
                                assert(r@[j] == prev[j]);
                                assert(entry_views(prev)[j] == catalog@.take(i as int)[j]);
                            } else {
                                assert(r@[j] == pushed);
                                assert(entry_views(r@)[j] == (pushed.0@, pushed.1));
                                assert(catalog@.take(i + 1)[j] == catalog@[j]);
                            }
                        }
                        assert(entry_views(r@) =~= catalog@.take(i + 1));
                    }
                },
                None => {
                    // entry_at returns an entry for every index below len
                    assert(false);
                },
            }
            i += 1;
        }
        proof {
            assert(catalog@.take(n as int) =~= catalog@);
        }
    } else {
        let n = visible.len();
        let mut i: usize = 0;
        while i < n
            invariant
                i <= n,
                n == visible@.len(),
                catalog.well_formed(),
                entry_views(r@) == selected(catalog@, id_views(visible@.take(i as int))),
            decreases n - i,
        {
            let ghost prefix = id_views(visible@.take(i as int));
            let ghost step = id_views(visible@.take(i + 1));
            proof {
                assert(step.drop_last() =~= prefix);
                assert(step.last() == visible@[i as int]@);
            }
            let id = &visible[i];
            match catalog.get(id) {
                Some(info) => {
                    r.push((id.clone(), info.clone()));
                    proof {
                        assert(entry_views(r@) =~= selected(catalog@, step));
                    }
                },
                None => {
                    proof {
                        assert(entry_views(r@) =~= selected(catalog@, step));
                    }
                },
            }
            i += 1;
        }
        proof {
            assert(id_views(visible@.take(n as int)) =~= id_views(visible@));
        }
    }
    r
}

/// The show a channel is playing now (or next): the overlay the live card
/// renders. The description is already converted to Pango markup.
#[derive(Debug)]
pub struct NowPlaying {
    pub title: String,
    pub subtitle: Option<String>,
    pub description: Option<String>,
    pub start_time: i64,
    pub end_time: i64,
}

impl NowPlaying {
    /// The show's length in seconds, zero when either endpoint of the
    /// timespan is missing.
    pub fn duration(&self) -> (r: i64)
        requires
            i64::MIN <= self.end_time - self.start_time <= i64::MAX,
        ensures
            r == spec_schedule_duration(self.start_time, self.end_time),
    {
        schedule_duration(self.start_time, self.end_time)
    }
}

/// One channel of the live view: its catalog entry, whether its schedule
/// could be fetched, and the "now playing" overlay when it could and the
/// schedule was not empty.
#[derive(Debug)]
pub struct ChannelRecord {
    pub id: ChannelId,
    pub name: String,
    pub stream_url: String,
    pub schedule_ok: bool,
    pub now_playing: Option<NowPlaying>,
}

/// The view of an optional text.
pub open spec fn opt_text(o: Option<String>) -> Option<Seq<char>> {
    match o {
        Some(s) => Some(s@),
        None => None,
    }
}

/// Whether `np` is the overlay built from a fetched schedule: absent for
/// an empty schedule, else the schedule's first show with its description
/// rendered to markup.
pub open spec fn now_playing_matches(np: Option<NowPlaying>, shows: Seq<Show>) -> bool {
    if shows.len() == 0 {
        np is None
    } else {
        &&& np matches Some(p)
        &&& np matches Some(p) ==> {
            &&& p.title@ == shows[0].title@
            &&& opt_text(p.subtitle) == opt_text(shows[0].subtitle)
            &&& match (p.description, shows[0].description) {
                (Some(d), Some(s)) => d@ == markup_of(s@),
                (None, None) => true,
                _ => false,
            }
            &&& p.start_time == shows[0].start_time
            &&& p.end_time == shows[0].end_time
        }
    }
}

/// Whether `rec` is the record assembled for one selected channel and its
/// schedule fetch outcome: the channel's entry is always kept; only a
/// fetched schedule yields an overlay, and a failure — transport or the
/// backend's in-band error — only clears this channel's overlay.
pub open spec fn record_matches(
    rec: ChannelRecord,
    channel: (ChannelId, ChannelInfo),
    outcome: Result<ShowsResult, RemoteError>,
) -> bool {
    &&& rec.id@ == channel.0@
    &&& rec.name@ == channel.1.name@
    &&& rec.stream_url@ == channel.1.stream_url@
    &&& match outcome {
        Ok(ShowsResult::Shows(shows)) => rec.schedule_ok && now_playing_matches(
            rec.now_playing,
            shows@,
        ),
        Ok(ShowsResult::Error(_)) => !rec.schedule_ok && rec.now_playing is None,
        Err(_) => !rec.schedule_ok && rec.now_playing is None,
    }
}

/// Assembles the live view's records from the selected channels and their
/// per-channel schedule fetch outcomes, pairwise: every channel stays in
/// place, and one channel's failed fetch never disturbs another's record.
pub fn assemble_records(
    channels: Vec<(ChannelId, ChannelInfo)>,
    outcomes: Vec<Result<ShowsResult, RemoteError>>,
) -> (r: Vec<ChannelRecord>)
    requires
        channels@.len() == outcomes@.len(),
    ensures
        r@.len() == channels@.len(),
        forall|i: int|
            0 <= i < r@.len() ==> record_matches(r@[i], channels@[i], outcomes@[i]),
{
    let ghost cs0 = channels@;
    let ghost os0 = outcomes@;
    let total = channels.len();
    let mut channels = channels;
    let mut outcomes = outcomes;
    let mut r: Vec<ChannelRecord> = Vec::new();
    let mut i: usize = 0;
    while channels.len() > 0
        invariant
            total == cs0.len(),
            i + channels@.len() == cs0.len(),
            channels@ == cs0.skip(i as int),
            outcomes@ == os0.skip(i as int),
            cs0.len() == os0.len(),
            r@.len() == i,
            forall|j: int| 0 <= j < i ==> record_matches(r@[j], cs0[j], os0[j]),
        decreases channels@.len(),
    {
        let (id, info) = channels.remove(0);
        let outcome = outcomes.remove(0);
        proof {
            assert(channels@ =~= cs0.skip(i + 1));
            assert(outcomes@ =~= os0.skip(i + 1));
        }
        let record = match outcome {
            Ok(ShowsResult::Shows(mut shows)) => {
                let now_playing = if shows.len() > 0 {
                    let s = shows.remove(0);
                    let description = match s.description {
                        Some(d) => Some(markup(d.as_str())),
                        None => None,
                    };
                    Some(
                        NowPlaying {
                            title: s.title,
                            subtitle: s.subtitle,
                            description,
                            start_time: s.start_time,
                            end_time: s.end_time,
                        },
                    )
                } else {
                    None
                };
                ChannelRecord {
                    id,
                    name: info.name,
                    stream_url: info.stream_url,
                    schedule_ok: true,
                    now_playing,
                }
            },
            Ok(ShowsResult::Error(_)) => ChannelRecord {
                id,
                name: info.name,
                stream_url: info.stream_url,
                schedule_ok: false,
                now_playing: None,
            },
            Err(_) => ChannelRecord {
                id,
                name: info.name,
                stream_url: info.stream_url,
                schedule_ok: false,
                now_playing: None,
            },
        };
        r.push(record);
        i += 1;
    }
    proof {
        assert(r@.len() == cs0.len());
    }
    r
}

} // verus!
