use lastfm_rpc::presence::{fallback_image_url, lastfm_logo_url, map_track, placeholder_art_url, select_large_image, Presence};
use lastfm_rpc::track::{Album, Artist, Attr, CurrentTrack, Image, RecentTracks, Track, TrackAttr};

fn sample_track(now_playing: bool, image_url: &str) -> CurrentTrack {
    let track = Track {
        artist: Artist { mbid: String::new(), text: "Muse".to_string() },
        streamable: "0".to_string(),
        image: vec![
            Image { size: "small".to_string(), text: "https://example.com/small.png".to_string() },
            Image { size: "extralarge".to_string(), text: image_url.to_string() },
        ],
        mbid: String::new(),
        album: Album { mbid: String::new(), text: "Absolution".to_string() },
        name: "Hysteria".to_string(),
        attr: if now_playing { Some(TrackAttr { nowplaying: "true".to_string() }) } else { None },
        url: "https://www.last.fm/music/Muse/_/Hysteria".to_string(),
        date: None,
    };
    CurrentTrack {
        recenttracks: RecentTracks {
            track: vec![track],
            attr: Attr {
                user: "alice".to_string(),
                totalpages: "1".to_string(),
                page: "1".to_string(),
                perpage: "50".to_string(),
                total: "1".to_string(),
            },
        },
    }
}

#[test]
fn map_now_playing_maps_fields() {
    let current = sample_track(true, "https://lastfm.freetls.fastly.net/i/u/300x300/abcdef.png");
    let presence = map_track(&current, "alice").expect("a playing track must map to a presence");
    assert_eq!(presence.state, "Muse");
    assert_eq!(presence.details, "Hysteria");
    assert_eq!(presence.large_text, "Absolution");
    assert_eq!(presence.large_image, "https://lastfm.freetls.fastly.net/i/u/300x300/abcdef.png");
    assert_eq!(presence.small_image, lastfm_logo_url());
    assert_eq!(presence.small_text, "last.fm");
    assert_eq!(presence.buttons.len(), 2);
    assert_eq!(presence.buttons[0].0, "View on last.fm");
    assert_eq!(presence.buttons[0].1, "https://www.last.fm/music/Muse/_/Hysteria");
    assert_eq!(presence.buttons[1].0, "alice on last.fm");
    assert_eq!(presence.buttons[1].1, "https://last.fm/user/alice");
}

#[test]
fn map_absent_when_no_marker() {
    let current = sample_track(false, "https://lastfm.freetls.fastly.net/i/u/300x300/abcdef.png");
    assert!(map_track(&current, "alice").is_none());
}

#[test]
fn map_placeholder_artwork_falls_back() {
    let current = sample_track(true, placeholder_art_url());
    let presence = map_track(&current, "alice").unwrap();
    assert_eq!(presence.large_image, fallback_image_url());
    assert_ne!(presence.large_image, placeholder_art_url());
}

#[test]
fn map_invalid_artwork_falls_back() {
    let current = sample_track(true, "not an absolute url");
    let presence = map_track(&current, "alice").unwrap();
    assert_eq!(presence.large_image, fallback_image_url());
}

#[test]
fn map_twice_yields_equal_presences() {
    let current = sample_track(true, "https://lastfm.freetls.fastly.net/i/u/300x300/abcdef.png");
    let first = map_track(&current, "alice").unwrap();
    let second = map_track(&current, "alice").unwrap();
    assert!(first == second);
}

#[test]
fn select_large_image_keeps_valid_url() {
    let chosen = select_large_image("https://example.com/cover.png", true);
    assert_eq!(chosen, "https://example.com/cover.png");
}

#[test]
fn select_large_image_rejects_invalid_url() {
    let chosen = select_large_image("cover.png", false);
    assert_eq!(chosen, fallback_image_url());
}

#[test]
fn select_large_image_rejects_placeholder() {
    let chosen = select_large_image(placeholder_art_url(), true);
    assert_eq!(chosen, fallback_image_url());
}

#[test]
fn presence_default_fields() {
    let presence = Presence::default();
    assert_eq!(presence.state, "state");
    assert_eq!(presence.details, "details");
    assert_eq!(presence.large_image, fallback_image_url());
    assert_eq!(presence.large_text, "large_text");
    assert_eq!(presence.small_image, lastfm_logo_url());
    assert_eq!(presence.small_text, "last.fm");
    assert_eq!(
        presence.buttons,
        vec![
            ("Button 1".to_string(), "https://example.com".to_string()),
            ("Button 2".to_string(), "https://example.com".to_string()),
        ]
    );
}

#[test]
fn presence_equality_is_structural() {
    let current = sample_track(true, "https://lastfm.freetls.fastly.net/i/u/300x300/abcdef.png");
    let left = map_track(&current, "alice").unwrap();
    let mut right = map_track(&current, "alice").unwrap();
    assert!(left == right);
    right.details = "Uprising".to_string();
    assert!(left != right);
}
