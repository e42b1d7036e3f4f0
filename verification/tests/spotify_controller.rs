use audio::spotify_controller::{find_subslice, parse_paused, SpotifyController};

#[test]
fn parses_paused_true() {
    assert!(parse_paused("{\"ok\":true,\"paused\":true}"));
    assert!(parse_paused("{ \"paused\" : true }"));
}

#[test]
fn parses_paused_false() {
    assert!(!parse_paused("{\"ok\":true,\"paused\":false}"));
    assert!(!parse_paused("{\"ok\":false}"));
    assert!(!parse_paused(""));
}

#[test]
fn parse_paused_skips_keys_without_a_colon() {
    assert!(parse_paused("[\"paused\", {\"paused\":\ttrue}]"));
    assert!(!parse_paused("{\"paused\":tru"));
}

#[test]
fn find_subslice_first_occurrence() {
    assert_eq!(find_subslice(b"abcabc", b"bc"), Some(1));
    assert_eq!(find_subslice(b"abc", b""), None);
    assert_eq!(find_subslice(b"ab", b"abc"), None);
    assert_eq!(find_subslice(b"abc", b"cb"), None);
}

#[test]
fn pause_request_names_the_host() {
    let c = SpotifyController::new("127.0.0.1:3001".to_string());
    assert_eq!(
        c.pause_request(),
        "POST /api/spotify/pause HTTP/1.1\r\nHost: 127.0.0.1:3001\r\nContent-Type: application/json\r\nContent-Length: 0\r\nConnection: close\r\n\r\n"
    );
    assert!(SpotifyController::paused_from_response(b"HTTP/1.1 200 OK\r\n\r\n{\"paused\": true}"));
    assert!(!SpotifyController::paused_from_response(b"HTTP/1.1 500\r\n\r\n"));
}
