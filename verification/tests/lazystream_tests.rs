use lazystream::client::{content_result, epg_list, is_tv_epg, schedule_result, Fetched};
use lazystream::clock::{local_day_context, local_today};
use lazystream::error::StreamError;
use lazystream::manifest::{quality_link, resolve_link, resolve_uri};
use lazystream::playlist::{build_playlist, CutPair, Entry};
use lazystream::select::{feed_menu_line, game_menu_line, select_from, validate_choice};
use lazystream::stream::{master_link, stream_id_of};
use lazystream::types::{
    fmt_date_compact, fmt_date_dash, fmt_offset, Cdn, Cut, Date, Game, GameContent, MediaItem,
    Quality, Sport, TzOffset,
};
use lazystream::xmltv::build_xmltv;

fn entry(
    kick_hour: u64,
    kick_minute: u64,
    away: &str,
    home: &str,
    feed_type: &str,
    link: Option<&str>,
) -> Entry {
    Entry {
        kick_hour,
        kick_minute,
        away: away.to_string(),
        home: home.to_string(),
        feed_type: feed_type.to_string(),
        link: link.map(|l| l.to_string()),
        description: None,
        cuts: None,
    }
}

const MANIFEST: &str = "#EXTM3U\n\
#EXT-X-STREAM-INF:PROGRAM-ID=1,BANDWIDTH=5000000,RESOLUTION=1280x720,CODECS=\"avc1\"\n\
720p/stream.m3u8\n\
#EXT-X-STREAM-INF:PROGRAM-ID=1,BANDWIDTH=2000000,RESOLUTION=960x540\n\
540p/stream.m3u8\n";

const MASTER: &str = "http://example.com/path/master.m3u8";

#[test]
fn formats_numbers_and_dates() {
    assert_eq!(lazystream::fmt::fmt_u64(0), "0");
    assert_eq!(lazystream::fmt::fmt_u64(907), "907");
    assert_eq!(lazystream::fmt::fmt_pad2(7), "07");
    assert_eq!(lazystream::fmt::fmt_pad2(42), "42");
    assert_eq!(lazystream::fmt::fmt_pad4(7), "0007");
    assert_eq!(lazystream::fmt::fmt_pad4(2024), "2024");
    let d = Date { year: 2024, month: 4, day: 1 };
    assert_eq!(fmt_date_dash(&d), "2024-04-01");
    assert_eq!(fmt_date_compact(&d), "20240401");
}

#[test]
fn formats_twelve_hour_times() {
    assert_eq!(lazystream::fmt::fmt_time12(0, 5), "12:05 AM");
    assert_eq!(lazystream::fmt::fmt_time12(12, 0), "12:00 PM");
    assert_eq!(lazystream::fmt::fmt_time12(19, 5), "7:05 PM");
    assert_eq!(lazystream::fmt::fmt_time12(9, 30), "9:30 AM");
}

#[test]
fn formats_offsets() {
    assert_eq!(fmt_offset(&TzOffset { west: true, minutes: 240 }), "-0400");
    assert_eq!(fmt_offset(&TzOffset { west: false, minutes: 330 }), "+0530");
    assert_eq!(fmt_offset(&TzOffset { west: false, minutes: 0 }), "+0000");
}

#[test]
fn validates_choices() {
    assert_eq!(validate_choice(1, 3), Ok(0));
    assert_eq!(validate_choice(3, 3), Ok(2));
    assert_eq!(validate_choice(0, 3), Err(StreamError::InvalidSelection));
    assert_eq!(validate_choice(4, 3), Err(StreamError::InvalidSelection));
}

#[test]
fn reprompts_until_valid_selection() {
    // Two out-of-range entries, then the valid `2`: index 1, two re-prompts.
    let typed: Vec<usize> = vec![0, 999, 2];
    assert_eq!(select_from(&typed, 3), Some((1, 2)));
    let never: Vec<usize> = vec![0, 4, 1000];
    assert_eq!(select_from(&never, 3), None);
}

#[test]
fn renders_menu_lines() {
    let g = Game {
        game_pk: 2024020001,
        kick_hour: 19,
        kick_minute: 5,
        away: "Rangers".to_string(),
        home: "Bruins".to_string(),
    };
    assert_eq!(game_menu_line(1, &g), "1) 7:05 PM - Rangers @ Bruins");
    assert_eq!(feed_menu_line(2, "AWAY"), "2) AWAY");
}

#[test]
fn schedule_result_keeps_order_and_errors() {
    let date = Date { year: 2024, month: 4, day: 1 };
    let games = vec![
        Game {
            game_pk: 1,
            kick_hour: 13,
            kick_minute: 0,
            away: "A".to_string(),
            home: "B".to_string(),
        },
        Game {
            game_pk: 2,
            kick_hour: 19,
            kick_minute: 30,
            away: "C".to_string(),
            home: "D".to_string(),
        },
    ];
    let s = schedule_result(date, Fetched::Value(games)).unwrap();
    assert_eq!(s.games.len(), 2);
    assert_eq!(s.games[0].game_pk, 1);
    assert_eq!(s.games[1].game_pk, 2);
    assert_eq!(s.date, date);
    match schedule_result(date, Fetched::Unreachable) {
        Err(StreamError::NetworkError) => {}
        _ => panic!("unreachable endpoint must be a network error"),
    }
    match schedule_result(date, Fetched::Undecodable) {
        Err(StreamError::ParseError) => {}
        _ => panic!("malformed body must be a parse error"),
    }
}

#[test]
fn content_errors_are_distinct() {
    match content_result(Fetched::Unreachable) {
        Err(StreamError::NetworkError) => {}
        _ => panic!("unreachable endpoint must be a network error"),
    }
    let c = content_result(Fetched::Value(GameContent { epg: None })).unwrap();
    match epg_list(c) {
        Err(StreamError::NoStreamsAvailable) => {}
        _ => panic!("an absent listing means no streams yet"),
    }
    let with = GameContent {
        epg: Some(vec![lazystream::types::Epg { title: "NHLTV".to_string(), items: None }]),
    };
    let epgs = epg_list(with).unwrap();
    assert_eq!(epgs.len(), 1);
    assert!(is_tv_epg(&epgs[0].title));
    assert!(is_tv_epg("MLBTV"));
    assert!(!is_tv_epg("Audio"));
}

#[test]
fn picks_stream_ids_per_league() {
    let nhl_item = MediaItem {
        media_feed_type: Some("HOME".to_string()),
        media_playback_id: Some("221-1004688".to_string()),
        id: None,
    };
    assert_eq!(stream_id_of(Sport::Nhl, &nhl_item).unwrap(), "221-1004688");
    let mlb_item =
        MediaItem { media_feed_type: Some("AWAY".to_string()), media_playback_id: None, id: Some(661043) };
    assert_eq!(stream_id_of(Sport::Mlb, &mlb_item).unwrap(), "661043");
    let broken = MediaItem { media_feed_type: None, media_playback_id: None, id: None };
    match stream_id_of(Sport::Nhl, &broken) {
        Err(StreamError::ParseError) => {}
        _ => panic!("a missing playback id must be a parse error"),
    }
}

#[test]
fn builds_master_link() {
    let date = Date { year: 2024, month: 4, day: 1 };
    let url = master_link("http://freegamez.ga", Sport::Nhl, &date, "221-1004688", Cdn::Akamai);
    assert_eq!(
        url,
        "http://freegamez.ga/getM3U8.php?league=nhl&date=2024-04-01&id=221-1004688&cdn=akc"
    );
    let url = master_link("http://freegamez.ga", Sport::Mlb, &date, "661043", Cdn::Level3);
    assert_eq!(
        url,
        "http://freegamez.ga/getM3U8.php?league=mlb&date=2024-04-01&id=661043&cdn=l3c"
    );
}

#[test]
fn quality_link_is_deterministic() {
    let first = quality_link(MASTER, MANIFEST, Quality::Q720).unwrap();
    let second = quality_link(MASTER, MANIFEST, Quality::Q720).unwrap();
    assert_eq!(first, "http://example.com/path/720p/stream.m3u8");
    assert_eq!(first, second);
    let other = quality_link(MASTER, MANIFEST, Quality::Q540).unwrap();
    assert_eq!(other, "http://example.com/path/540p/stream.m3u8");
}

#[test]
fn absent_quality_never_falls_back() {
    match quality_link(MASTER, MANIFEST, Quality::Q216) {
        Err(StreamError::QualityNotFound) => {}
        _ => panic!("an absent tier must fail, not fall back to the master"),
    }
    match quality_link(MASTER, "", Quality::Q720) {
        Err(StreamError::QualityNotFound) => {}
        _ => panic!("an empty manifest holds no tier"),
    }
}

#[test]
fn resolves_absolute_and_relative_uris() {
    assert_eq!(
        resolve_uri("http://example.com/a/master.m3u8", "low/index.m3u8"),
        "http://example.com/a/low/index.m3u8"
    );
    assert_eq!(
        resolve_uri("http://example.com/a/master.m3u8", "https://cdn.example.com/abs.m3u8"),
        "https://cdn.example.com/abs.m3u8"
    );
    assert_eq!(resolve_uri("no-slash-base", "rel.m3u8"), "rel.m3u8");
}

#[test]
fn resolve_link_uses_master_without_quality() {
    let link = resolve_link(MASTER, &None, &None).unwrap();
    assert_eq!(link, MASTER);
    match resolve_link(MASTER, &Some(Quality::Q720), &None) {
        Err(StreamError::NetworkError) => {}
        _ => panic!("a failed manifest fetch must be a network error"),
    }
    let link = resolve_link(MASTER, &Some(Quality::Q720), &Some(MANIFEST.to_string())).unwrap();
    assert_eq!(link, "http://example.com/path/720p/stream.m3u8");
}

#[test]
fn playlist_single_record_text() {
    let entries = vec![entry(19, 5, "Rangers", "Bruins", "HOME", Some("http://x/1.m3u8"))];
    let m3u = build_playlist(&entries, false, 1000);
    assert_eq!(
        m3u,
        "#EXTM3U\n#EXTINF:-1 CUID=\"1000\" tvg-id=\"1000\" tvg-name=\"Lazyman 1\",7:05 PM Rangers @ Bruins HOME\nhttp://x/1.m3u8\n"
    );
}

#[test]
fn playlist_tolerates_one_failure_in_five() {
    let entries = vec![
        entry(13, 0, "A", "B", "HOME", Some("http://x/1")),
        entry(13, 0, "A", "B", "AWAY", Some("http://x/2")),
        entry(16, 30, "C", "D", "HOME", None),
        entry(16, 30, "C", "D", "AWAY", Some("http://x/4")),
        entry(19, 0, "E", "F", "NATIONAL", Some("http://x/5")),
    ];
    let m3u = build_playlist(&entries, false, 1000);
    assert_eq!(m3u.matches("#EXTINF").count(), 4);
    // Channel numbers stay contiguous from the starting channel: no gap
    // where the failed stream would have been.
    for chan in 1000..1004 {
        assert!(m3u.contains(&format!("CUID=\"{}\"", chan)));
    }
    assert!(!m3u.contains("CUID=\"1004\""));
    assert!(!m3u.contains("http://x/3"));
}

#[test]
fn guide_always_has_hundred_channels() {
    let date = Date { year: 2024, month: 4, day: 1 };
    let off = TzOffset { west: true, minutes: 240 };
    let none: Vec<Entry> = vec![];
    let empty_guide = build_xmltv(&none, 1000, "1.5.0", &date, &off);
    assert_eq!(empty_guide.matches("<channel id=").count(), 100);
    assert_eq!(empty_guide.matches("<programme ").count(), 0);
    let entries = vec![
        entry(19, 5, "Rangers", "Bruins", "HOME", Some("http://x/1")),
        entry(19, 5, "Rangers", "Bruins", "AWAY", None),
    ];
    let guide = build_xmltv(&entries, 1000, "1.5.0", &date, &off);
    assert_eq!(guide.matches("<channel id=").count(), 100);
    assert_eq!(guide.matches("<programme ").count(), 1);
    assert!(guide.starts_with(
        "<?xml version=\"1.0\" encoding=\"UTF-8\"?>\n<!DOCTYPE tv SYSTEM \"xmltv.dd\">\n\n  <tv generator-info-name=\"lazystream\" source-info-name=\"lazystream - 1.5.0\">"
    ));
    assert!(guide.ends_with("\n  </tv>"));
}

#[test]
fn guide_programme_window_spans_the_day() {
    let date = Date { year: 2024, month: 4, day: 1 };
    let off = TzOffset { west: true, minutes: 240 };
    let entries = vec![entry(19, 5, "Rangers", "Bruins", "HOME", Some("http://x/1"))];
    let guide = build_xmltv(&entries, 1000, "1.5.0", &date, &off);
    assert!(guide.contains(
        "<programme channel=\"1000\" start=\"20240401000000 -0400\" stop=\"20240401235959 -0400\">"
    ));
    assert!(guide.contains("<title lang=\"en\">7:05 PM HOME Rangers @ Bruins</title>"));
    assert!(guide.contains("<desc lang=\"en\"></desc>"));
    assert!(guide.contains("<icon src=\"\"></icon>"));
}

#[test]
fn guide_renders_fetched_description_and_cuts() {
    let date = Date { year: 2024, month: 4, day: 1 };
    let off = TzOffset { west: false, minutes: 0 };
    let mut e = entry(19, 5, "Rangers", "Bruins", "HOME", Some("http://x/1"));
    e.description = Some("Game recap".to_string());
    e.cuts = Some(CutPair {
        small: Cut { src: "http://img/s.jpg".to_string(), width: 320, height: 180 },
        large: Cut { src: "http://img/l.jpg".to_string(), width: 2048, height: 1152 },
    });
    let guide = build_xmltv(&vec![e], 1000, "1.5.0", &date, &off);
    assert!(guide.contains("<desc lang=\"en\">Game recap</desc>"));
    assert!(guide.contains("<icon src=\"http://img/s.jpg\" width=\"320\" height=\"180\"></icon>"));
    assert!(guide.contains("<icon src=\"http://img/l.jpg\" width=\"2048\" height=\"1152\"></icon>"));
}

fn channel_numbers(text: &str, marker: &str) -> Vec<String> {
    let mut out = Vec::new();
    let mut rest = text;
    while let Some(pos) = rest.find(marker) {
        let tail = &rest[pos + marker.len()..];
        let end = tail.find('"').unwrap();
        out.push(tail[..end].to_string());
        rest = &tail[end..];
    }
    out
}

#[test]
fn playlist_and_guide_numbering_match() {
    let date = Date { year: 2024, month: 4, day: 1 };
    let off = TzOffset { west: true, minutes: 240 };
    let entries = vec![
        entry(13, 0, "A", "B", "HOME", Some("http://x/1")),
        entry(13, 0, "A", "B", "AWAY", None),
        entry(19, 5, "C", "D", "HOME", Some("http://x/3")),
    ];
    let m3u = build_playlist(&entries, true, 1000);
    let guide = build_xmltv(&entries, 1000, "1.5.0", &date, &off);
    let playlist_ids = channel_numbers(&m3u, "tvg-id=\"");
    let programme_ids = channel_numbers(&guide, "<programme channel=\"");
    assert_eq!(playlist_ids, vec!["1000", "1001"]);
    assert_eq!(playlist_ids, programme_ids);
}

#[test]
fn end_to_end_two_feeds_at_720p() {
    let date = Date { year: 2024, month: 4, day: 1 };
    let off = TzOffset { west: true, minutes: 240 };
    let feeds = ["HOME", "AWAY"];
    let mut entries = Vec::new();
    for feed in feeds {
        let master = master_link("http://freegamez.ga", Sport::Nhl, &date, "221-1", Cdn::Akamai);
        let link =
            resolve_link(&master, &Some(Quality::Q720), &Some(MANIFEST.to_string())).unwrap();
        entries.push(entry(19, 5, "Rangers", "Bruins", feed, Some(&link)));
    }
    let m3u = build_playlist(&entries, false, 1000);
    assert_eq!(m3u.matches("#EXTINF").count(), 2);
    assert!(m3u.contains("7:05 PM Rangers @ Bruins HOME"));
    assert!(m3u.contains("7:05 PM Rangers @ Bruins AWAY"));
    let guide = build_xmltv(&entries, 1000, "1.5.0", &date, &off);
    assert_eq!(guide.matches("<channel id=").count(), 100);
    assert_eq!(guide.matches("<programme ").count(), 2);
    let m3u_paired = build_playlist(&entries, true, 1000);
    assert_eq!(
        channel_numbers(&m3u_paired, "tvg-id=\""),
        channel_numbers(&guide, "<programme channel=\"")
    );
}

#[test]
fn errors_describe_themselves() {
    assert_eq!(StreamError::NetworkError.describe(), "network error");
    assert_eq!(StreamError::ParseError.describe(), "malformed response");
    assert_eq!(StreamError::NoStreamsAvailable.describe(), "no streams available yet");
    assert_eq!(StreamError::QualityNotFound.describe(), "quality not found in manifest");
    assert_eq!(StreamError::InvalidSelection.describe(), "invalid selection");
}

#[test]
fn local_clock_yields_calendar_values() {
    let today = local_today();
    assert!((1..=12).contains(&today.month));
    assert!((1..=31).contains(&today.day));
    let (date, off) = local_day_context();
    assert!((1..=12).contains(&date.month));
    assert!((1..=31).contains(&date.day));
    assert!(off.minutes < 1440);
}

#[test]
fn empty_batch_yields_bare_playlist() {
    let none: Vec<Entry> = vec![];
    assert_eq!(build_playlist(&none, false, 1000), "#EXTM3U\n");
}

#[test]
fn empty_menu_accepts_nothing() {
    assert_eq!(validate_choice(1, 0), Err(StreamError::InvalidSelection));
    let typed: Vec<usize> = vec![1, 2, 3];
    assert_eq!(select_from(&typed, 0), None);
}

#[test]
fn padding_keeps_wide_values() {
    assert_eq!(lazystream::fmt::fmt_pad4(9999), "9999");
    assert_eq!(lazystream::fmt::fmt_pad4(10000), "10000");
    assert_eq!(lazystream::fmt::fmt_pad2(99), "99");
}
