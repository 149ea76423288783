use televido::cache::SingleFlightCache;
use televido::catalog::ChannelCatalog;
use televido::error::RemoteError;
use televido::launcher::{known_downloaders, known_players, object_path, ExternalProgram};
use televido::live::{assemble_records, select_visible};
use televido::shows::{MediathekShow, VideoInfo, VideoQuality};
use televido::text::{format_duration, str_eq};
use televido::zapp::{schedule_duration, ChannelId, ChannelInfo, Show, ShowsResult};

fn info(name: &str, url: &str) -> ChannelInfo {
    ChannelInfo {
        name: String::from(name),
        stream_url: String::from(url),
    }
}

fn live_show(title: &str, description: Option<&str>) -> Show {
    Show {
        title: String::from(title),
        subtitle: Some(String::from("subtitle")),
        description: description.map(String::from),
        channel: ChannelId::new(String::from("das_erste")),
        start_time: 1_700_000_000,
        end_time: 1_700_003_600,
    }
}

#[test]
fn single_flight_starts_exactly_one_load() {
    let mut cache: SingleFlightCache<u64> = SingleFlightCache::new();
    // Several requesters arrive while nothing is loaded: only the first
    // one is told to run the load.
    assert!(cache.get_or_trigger_load());
    assert!(!cache.get_or_trigger_load());
    assert!(!cache.get_or_trigger_load());
    assert!(cache.is_loading());

    cache.on_load_complete(7);
    // Every awaiter observes the same resolved value.
    assert_eq!(cache.try_get(), Some(&7));
    assert_eq!(cache.try_get(), Some(&7));
    // A ready cache triggers nothing.
    assert!(!cache.get_or_trigger_load());
}

#[test]
fn failed_load_does_not_poison_the_cache() {
    let mut cache: SingleFlightCache<u64> = SingleFlightCache::new();
    assert!(cache.get_or_trigger_load());
    cache.on_load_failed();
    assert_eq!(cache.try_get(), None);
    // A later requester may retry.
    assert!(cache.get_or_trigger_load());
    cache.on_load_complete(1);
    assert_eq!(cache.try_get(), Some(&1));
}

#[test]
fn reload_keeps_stale_value_on_failure() {
    let mut cache: SingleFlightCache<u64> = SingleFlightCache::new();
    assert!(cache.get_or_trigger_load());
    cache.on_load_complete(1);

    assert!(cache.reload());
    assert!(cache.is_loading());
    assert_eq!(cache.try_get(), None);
    // A reload requested while one is in flight joins it.
    assert!(!cache.reload());

    cache.on_load_failed();
    assert_eq!(cache.try_get(), Some(&1));

    assert!(cache.reload());
    cache.on_load_complete(2);
    assert_eq!(cache.try_get(), Some(&2));
}

#[test]
fn catalog_keeps_insertion_order_and_unique_keys() {
    let entries = vec![
        (ChannelId::new(String::from("das_erste")), info("Das Erste", "https://a")),
        (ChannelId::new(String::from("zdf")), info("ZDF", "https://b")),
    ];
    let mut catalog = ChannelCatalog::from_entries(&entries);
    assert_eq!(catalog.len(), 2);

    let first = catalog.entry_at(0).unwrap();
    assert_eq!(first.0.as_ref(), "das_erste");
    assert_eq!(first.1.name, "Das Erste");
    assert!(catalog.entry_at(2).is_none());

    let zdf = catalog.get(&ChannelId::new(String::from("zdf"))).unwrap();
    assert_eq!(zdf.stream_url, "https://b");
    assert!(catalog.get(&ChannelId::new(String::from("orf"))).is_none());

    // A repeated id keeps its place and takes the new metadata.
    catalog.insert(
        &ChannelId::new(String::from("das_erste")),
        info("Das Erste HD", "https://a2"),
    );
    assert_eq!(catalog.len(), 2);
    let first = catalog.entry_at(0).unwrap();
    assert_eq!(first.0.as_ref(), "das_erste");
    assert_eq!(first.1.name, "Das Erste HD");
}

#[test]
fn empty_visibility_list_selects_all_channels() {
    let entries = vec![
        (ChannelId::new(String::from("das_erste")), info("Das Erste", "https://a")),
        (ChannelId::new(String::from("zdf")), info("ZDF", "https://b")),
    ];
    let catalog = ChannelCatalog::from_entries(&entries);
    let selected = select_visible(&catalog, &Vec::new());
    assert_eq!(selected.len(), 2);
    assert_eq!(selected[0].0.as_ref(), "das_erste");
    assert_eq!(selected[1].0.as_ref(), "zdf");
}

#[test]
fn visibility_list_orders_and_filters_channels() {
    let entries = vec![
        (ChannelId::new(String::from("das_erste")), info("Das Erste", "https://a")),
        (ChannelId::new(String::from("zdf")), info("ZDF", "https://b")),
    ];
    let catalog = ChannelCatalog::from_entries(&entries);
    let visible = vec![
        ChannelId::new(String::from("zdf")),
        ChannelId::new(String::from("unknown")),
        ChannelId::new(String::from("das_erste")),
    ];
    let selected = select_visible(&catalog, &visible);
    assert_eq!(selected.len(), 2);
    assert_eq!(selected[0].0.as_ref(), "zdf");
    assert_eq!(selected[1].0.as_ref(), "das_erste");
}

#[test]
fn soft_error_is_isolated_per_channel() {
    let channels = vec![
        (ChannelId::new(String::from("a")), info("Channel A", "https://a")),
        (ChannelId::new(String::from("b")), info("Channel B", "https://b")),
    ];
    let outcomes = vec![
        Ok(ShowsResult::Error(String::from("schedule backend down"))),
        Ok(ShowsResult::Shows(vec![live_show("News", None)])),
    ];
    let records = assemble_records(channels, outcomes);
    assert_eq!(records.len(), 2);

    // The failed channel is present, flagged, and has no overlay.
    assert_eq!(records[0].id.as_ref(), "a");
    assert_eq!(records[0].name, "Channel A");
    assert!(!records[0].schedule_ok);
    assert!(records[0].now_playing.is_none());

    // Its sibling is untouched.
    assert_eq!(records[1].id.as_ref(), "b");
    assert!(records[1].schedule_ok);
    let playing = records[1].now_playing.as_ref().unwrap();
    assert_eq!(playing.title, "News");
    assert_eq!(playing.subtitle.as_deref(), Some("subtitle"));
    assert_eq!(playing.duration(), 3600);
}

#[test]
fn transport_error_is_isolated_per_channel() {
    let channels = vec![
        (ChannelId::new(String::from("a")), info("Channel A", "https://a")),
        (ChannelId::new(String::from("b")), info("Channel B", "https://b")),
    ];
    let outcomes = vec![
        Err(RemoteError::Network),
        Ok(ShowsResult::Shows(Vec::new())),
    ];
    let records = assemble_records(channels, outcomes);
    assert!(!records[0].schedule_ok);
    // An empty schedule is a success without an overlay.
    assert!(records[1].schedule_ok);
    assert!(records[1].now_playing.is_none());
}

#[test]
fn description_is_rendered_to_pango_markup() {
    let channels = vec![(ChannelId::new(String::from("a")), info("Channel A", "https://a"))];
    let outcomes = vec![Ok(ShowsResult::Shows(vec![live_show(
        "News",
        Some("this is <span>parsed</span>"),
    )]))];
    let records = assemble_records(channels, outcomes);
    let playing = records[0].now_playing.as_ref().unwrap();
    assert_eq!(
        playing.description.as_deref(),
        Some("this is &lt;span&gt;parsed&lt;/span&gt;")
    );
}

#[test]
fn find_resolves_program_by_activatable_name() {
    let activatable = vec![
        String::from("org.gnome.Nautilus"),
        String::from("io.mpv.Mpv"),
    ];
    let found = ExternalProgram::find("mpv", "io.mpv.Mpv", &activatable).unwrap();
    assert_eq!(found.name, "mpv");
    assert_eq!(found.id, "io.mpv.Mpv");
    assert!(ExternalProgram::find("VLC", "org.videolan.VLC", &activatable).is_none());
}

#[test]
fn find_known_keeps_bus_name_order() {
    let known = known_players();
    let activatable = vec![
        String::from("com.github.rafostar.Clapper"),
        String::from("org.example.Unrelated"),
        String::from("org.gnome.Totem"),
    ];
    let found = ExternalProgram::find_known(&known, &activatable);
    assert_eq!(found.len(), 2);
    assert_eq!(found[0].name, "Clapper");
    assert_eq!(found[1].name, "Videos");
}

#[test]
fn known_program_lists_are_fixed() {
    let players = known_players();
    assert_eq!(players.len(), 4);
    assert_eq!(players[0].name, "Videos");
    assert_eq!(players[0].id, "org.gnome.Totem");
    let downloaders = known_downloaders();
    assert_eq!(downloaders.len(), 1);
    assert_eq!(downloaders[0].id, "org.nickvision.tubeconverter");
}

#[test]
fn object_path_replaces_dots() {
    assert_eq!(object_path("org.gnome.Totem"), "/org/gnome/Totem");
    assert_eq!(object_path(""), "/");
}

#[test]
fn video_quality_keys_round_trip() {
    assert_eq!(VideoQuality::from_str("high"), Some(VideoQuality::High));
    assert_eq!(VideoQuality::from_str("medium"), Some(VideoQuality::Medium));
    assert_eq!(VideoQuality::from_str("low"), Some(VideoQuality::Low));
    assert_eq!(VideoQuality::from_str("ultra"), None);
    assert_eq!(VideoQuality::from_str(VideoQuality::High.as_str()), Some(VideoQuality::High));
}

#[test]
fn video_url_picks_the_requested_tier() {
    let show = MediathekShow {
        channel: String::from("ARD"),
        topic: String::from("Tatort"),
        title: String::from("Episode"),
        description: None,
        timestamp: 0,
        duration_seconds: None,
        url_website: None,
        url_subtitle: None,
        url_video: Some(String::from("medium.mp4")),
        url_video_low: None,
        url_video_hd: Some(String::from("hd.mp4")),
    };
    assert_eq!(show.video_url(VideoQuality::High).as_deref(), Some("hd.mp4"));
    assert_eq!(show.video_url(VideoQuality::Medium).as_deref(), Some("medium.mp4"));
    assert_eq!(show.video_url(VideoQuality::Low).as_deref(), None);
}

#[test]
fn playback_uri_follows_preferred_quality() {
    let live = VideoInfo::Live {
        title: String::from("Live"),
        uri: String::from("stream.m3u8"),
        channel_id: String::from("zdf"),
    };
    assert_eq!(live.playback_uri().map(String::as_str), Some("stream.m3u8"));

    let mediathek = VideoInfo::Mediathek {
        title: String::from("Episode"),
        preferred_quality: VideoQuality::Low,
        subtitle_uri: None,
        uri_high: Some(String::from("hd.mp4")),
        uri_medium: None,
        uri_low: None,
        channel_id: String::from("ard"),
    };
    // The preferred tier is missing: no playback URI.
    assert_eq!(mediathek.playback_uri(), None);
}

#[test]
fn duration_formatting_matches_card_layout() {
    assert_eq!(format_duration(0), "00m00s");
    assert_eq!(format_duration(59), "00m59s");
    assert_eq!(format_duration(3600), " 1h00m00s");
    assert_eq!(format_duration(3723), " 1h02m03s");
    assert_eq!(format_duration(45296), "12h34m56s");
    assert_eq!(format_duration(360000), "100h00m00s");
}

#[test]
fn schedule_duration_requires_both_endpoints() {
    assert_eq!(schedule_duration(0, 1_700_003_600), 0);
    assert_eq!(schedule_duration(1_700_000_000, 0), 0);
    assert_eq!(schedule_duration(1_700_000_000, 1_700_003_600), 3600);
}

#[test]
fn channel_ids_compare_by_content() {
    let a = ChannelId::new(String::from("zdf"));
    let b = a.clone();
    assert_eq!(a.as_ref(), "zdf");
    assert!(a == b);
    assert!(a != ChannelId::new(String::from("ard")));
}

#[test]
fn string_equality_is_character_wise() {
    assert!(str_eq("tatort", "tatort"));
    assert!(!str_eq("tatort", "tatort "));
    assert!(str_eq("straße", "straße"));
    assert!(!str_eq("straße", "strasse"));
}

#[test]
fn remote_errors_describe_themselves() {
    assert_eq!(RemoteError::Network.describe(), "network request failed");
    assert_eq!(
        RemoteError::Protocol.describe(),
        "unexpected response from the server"
    );
    assert_eq!(
        RemoteError::RateLimited.describe(),
        "the server is rate-limiting requests"
    );
}
