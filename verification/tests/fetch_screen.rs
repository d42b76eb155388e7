use lastfm_rpc::config::Config;
use lastfm_rpc::fetch::{request_url, REQUEST_TIMEOUT_SECS};
use lastfm_rpc::presence::Presence;
use lastfm_rpc::screen::{center_padding, status_lines};

#[test]
fn request_url_exact() {
    let config = Config {
        username: "alice".to_string(),
        api_key: "0123456789abcdef".to_string(),
        client_id: "42".to_string(),
    };
    assert_eq!(
        request_url(&config),
        "http://ws.audioscrobbler.com/2.0/?method=user.getrecenttracks&user=alice&api_key=0123456789abcdef&format=json"
    );
}

#[test]
fn request_timeout_is_five_seconds() {
    assert_eq!(REQUEST_TIMEOUT_SECS, 5);
}

#[test]
fn status_lines_order() {
    let mut presence = Presence::default();
    presence.details = "Hysteria".to_string();
    presence.state = "Muse".to_string();
    presence.large_text = "Absolution".to_string();
    let lines = status_lines(&presence);
    assert_eq!(lines, vec!["Hysteria".to_string(), "Muse".to_string(), "Absolution".to_string()]);
}

#[test]
fn center_padding_values() {
    assert_eq!(center_padding(24, 3), 10);
    assert_eq!(center_padding(25, 3), 11);
    assert_eq!(center_padding(3, 3), 0);
    assert_eq!(center_padding(2, 3), 0);
    assert_eq!(center_padding(4, 3), 0);
}
