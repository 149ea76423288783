//! Data model of the on-demand search results: one show record per search
//! hit, the video quality tiers, and the information handed to a player.

use vstd::prelude::*;

use crate::text::str_eq;

verus! {

/// A preferred video quality tier.
#[derive(Clone, Copy, Debug, PartialEq, Eq, Structural)]
pub enum VideoQuality {
    High,
    Medium,
    Low,
}

impl VideoQuality {
    /// Parses the persisted key of a quality tier.
    pub fn from_str(s: &str) -> (r: Option<VideoQuality>)
        ensures
            s@ == "high"@ ==> r == Some(VideoQuality::High),
            s@ == "medium"@ ==> r == Some(VideoQuality::Medium),
            s@ == "low"@ ==> r == Some(VideoQuality::Low),
            s@ != "high"@ && s@ != "medium"@ && s@ != "low"@ ==> r is None,
    {
        proof {
            reveal_strlit("high");
            reveal_strlit("medium");
            reveal_strlit("low");
            // Unequal lengths witness that the three keys are distinct.
            assert("high"@.len() == 4 && "medium"@.len() == 6 && "low"@.len() == 3);
        }
        if str_eq(s, "high") {
            Some(VideoQuality::High)
        } else if str_eq(s, "medium") {
            Some(VideoQuality::Medium)
        } else if str_eq(s, "low") {
            Some(VideoQuality::Low)
        } else {
            None
        }
    }

    /// The persisted key of this quality tier.
    pub fn as_str(&self) -> (r: &'static str)
        ensures
            *self is High ==> r@ == "high"@,
            *self is Medium ==> r@ == "medium"@,
            *self is Low ==> r@ == "low"@,
    {
        match self {
            VideoQuality::High => "high",
            VideoQuality::Medium => "medium",
            VideoQuality::Low => "low",
        }
    }
}

/// One show record of the on-demand search index. Optional URLs are absent
/// when the index has no video at that tier, no subtitle track, or no
/// website link for the entry; `timestamp` is unix seconds and
/// `duration_seconds` is absent for livestream entries.
#[derive(Debug)]
pub struct MediathekShow {
    pub channel: String,
    pub topic: String,
    pub title: String,
    pub description: Option<String>,
    pub timestamp: i64,
    pub duration_seconds: Option<u64>,
    pub url_website: Option<String>,
    pub url_subtitle: Option<String>,
    pub url_video: Option<String>,
    pub url_video_low: Option<String>,
    pub url_video_hd: Option<String>,
}

impl MediathekShow {
    /// The video URL of the given quality tier, if the index carries one.
    pub fn video_url(&self, quality: VideoQuality) -> (r: &Option<String>)
        ensures
            quality is High ==> r == &self.url_video_hd,
            quality is Medium ==> r == &self.url_video,
            quality is Low ==> r == &self.url_video_low,
    {
        match quality {
            VideoQuality::High => &self.url_video_hd,
            VideoQuality::Medium => &self.url_video,
            VideoQuality::Low => &self.url_video_low,
        }
    }
}

/// What a player needs to start playback: either a live stream or an
/// on-demand show with its quality tiers.
#[derive(Debug)]
pub enum VideoInfo {
    Live { title: String, uri: String, channel_id: String },
    Mediathek {
        title: String,
        preferred_quality: VideoQuality,
        subtitle_uri: Option<String>,
        uri_high: Option<String>,
        uri_medium: Option<String>,
        uri_low: Option<String>,
        channel_id: String,
    },
}

/// The URI that playback of `v` uses: a live stream's URI, or the
/// on-demand URI of the preferred quality tier, absent when the show
/// carries no video at that tier.
pub open spec fn spec_playback_uri(v: VideoInfo) -> Option<String> {
    match v {
        VideoInfo::Live { uri, .. } => Some(uri),
        VideoInfo::Mediathek { preferred_quality, uri_high, uri_medium, uri_low, .. } => {
            match preferred_quality {
                VideoQuality::High => uri_high,
                VideoQuality::Medium => uri_medium,
                VideoQuality::Low => uri_low,
            }
        },
    }
}

impl VideoInfo {
    /// The URI playback would use, per [`spec_playback_uri`].
    pub fn playback_uri(&self) -> (r: Option<&String>)
        ensures
            match spec_playback_uri(*self) {
                Some(u) => r matches Some(x) && *x == u,
                None => r is None,
            },
    {
        match self {
            VideoInfo::Live { uri, .. } => Some(uri),
            VideoInfo::Mediathek { preferred_quality, uri_high, uri_medium, uri_low, .. } => {
                match preferred_quality {
                    VideoQuality::High => uri_high.as_ref(),
                    VideoQuality::Medium => uri_medium.as_ref(),
                    VideoQuality::Low => uri_low.as_ref(),
                }
            },
        }
    }
}

} // verus!
