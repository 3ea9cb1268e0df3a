use quicklist::backend::{auth_response_code, token_step, token_step_with, TokenStep};
use quicklist::client::{storage_key, tracks_key, Client, Effect, Stored};
use quicklist::model::{AuthData, AuthResponseData, DownMsg, Track, UpMsg};
use quicklist::playlist::{playlist_duration_format, sum_durations, track_count_text, Playlist};
use quicklist::router::router;
use quicklist::search::{track_from_hit, Search, TrackHit};
use quicklist::text::{decimal_string, str_contains, trimmed};

fn track(id: &str, secs: i64) -> Track {
    Track {
        format: format!("title {id} - artist"),
        track_id: id.to_string(),
        title: format!("title {id}"),
        artist: "artist".to_string(),
        duration_sec: secs,
    }
}

fn hit(id: &str, secs: i64) -> TrackHit {
    TrackHit {
        title: format!("title {id}"),
        artist: "artist".to_string(),
        uri: id.to_string(),
        duration_sec: secs,
    }
}

fn client() -> Client {
    Client::new(
        rspotify::Token::default(),
        rspotify::Token::default(),
        "state-1".to_string(),
        "My list".to_string(),
    )
}

fn ids(tracks: &[Track]) -> Vec<&str> {
    tracks.iter().map(|t| t.track_id.as_str()).collect()
}

#[test]
fn duration_under_an_hour_shows_minutes_and_seconds() {
    assert_eq!(playlist_duration_format(65), "1 min 5 sec");
    assert_eq!(playlist_duration_format(0), "0 min 0 sec");
    assert_eq!(playlist_duration_format(3599), "59 min 59 sec");
}

#[test]
fn duration_from_an_hour_shows_hours_and_minutes() {
    assert_eq!(playlist_duration_format(3600), "1 hr 0 min");
    assert_eq!(playlist_duration_format(3725), "1 hr 2 min");
    // Hours are taken modulo 60.
    assert_eq!(playlist_duration_format(61 * 3600 + 60), "1 hr 1 min");
}

#[test]
fn negative_duration_truncates_toward_zero() {
    assert_eq!(playlist_duration_format(-65), "-1 min -5 sec");
    assert_eq!(playlist_duration_format(-5), "0 min -5 sec");
}

#[test]
fn track_count_line_is_singular_for_one_song() {
    assert_eq!(track_count_text(1, "3 min 0 sec"), "1 song, 3 min 0 sec");
    assert_eq!(track_count_text(0, "0 min 0 sec"), "0 songs, 0 min 0 sec");
    assert_eq!(track_count_text(12, "1 hr 2 min"), "12 songs, 1 hr 2 min");
}

#[test]
fn decimal_matches_display() {
    for n in [0i64, 7, 10, 99, 100, -1, -42, 1234567890, i64::MAX, i64::MIN] {
        assert_eq!(decimal_string(n), n.to_string());
    }
}

#[test]
fn trim_matches_std() {
    for s in ["  hi there \t", "", "   ", "\u{3000}x\u{85}", "a b", "\u{2028}\u{200A}q\u{A0}"] {
        assert_eq!(trimmed(s), s.trim());
    }
}

#[test]
fn contains_finds_runs() {
    assert!(str_contains("http://host/?code=abc", "code"));
    assert!(!str_contains("http://host/?cod=abc", "code"));
    assert!(str_contains("abc", ""));
    assert!(!str_contains("ab", "abc"));
}

#[test]
fn storage_keys_share_the_prefix() {
    assert_eq!(tracks_key(), "quicklist-spotify");
    assert_eq!(storage_key("state"), "quicklist-spotify-state");
    assert_eq!(storage_key("auth-token"), "quicklist-spotify-auth-token");
    assert_eq!(storage_key("playlist-name"), "quicklist-spotify-playlist-name");
}

#[test]
fn search_hit_becomes_track() {
    let t = track_from_hit(TrackHit {
        title: "Song".to_string(),
        artist: "Band".to_string(),
        uri: "spotify:track:abc".to_string(),
        duration_sec: 200,
    });
    assert_eq!(t.format, "Song - Band");
    assert_eq!(t.track_id, "spotify:track:abc");
    assert_eq!(t.title, "Song");
    assert_eq!(t.artist, "Band");
    assert_eq!(t.duration_sec, 200);
}

#[test]
fn next_and_prev_wrap_round() {
    let mut s = Search::new();
    s.set_results(vec![hit("a", 1), hit("b", 2), hit("c", 3)]);
    assert_eq!(s.selected, "a");
    s.next_track();
    assert_eq!(s.selected, "b");
    s.next_track();
    s.next_track();
    assert_eq!(s.selected, "a");
    s.prev_track();
    assert_eq!(s.selected, "c");
    s.prev_track();
    assert_eq!(s.selected, "b");
}

#[test]
fn prev_undoes_next() {
    let mut s = Search::new();
    s.set_results(vec![hit("a", 1), hit("b", 2), hit("c", 3)]);
    for id in ["a", "b", "c"] {
        s.select_track(id.to_string());
        s.next_track();
        s.prev_track();
        assert_eq!(s.selected, id);
        s.prev_track();
        s.next_track();
        assert_eq!(s.selected, id);
    }
}

#[test]
fn navigation_keeps_unknown_selection() {
    let mut s = Search::new();
    s.set_results(vec![hit("a", 1), hit("b", 2)]);
    s.select_track("zzz".to_string());
    s.next_track();
    assert_eq!(s.selected, "zzz");
    s.prev_track();
    assert_eq!(s.selected, "zzz");
}

#[test]
fn empty_results_keep_the_selection() {
    let mut s = Search::new();
    s.select_track("x".to_string());
    s.set_results(vec![]);
    assert_eq!(s.selected, "x");
    assert!(s.results.is_empty());
}

#[test]
fn begin_search_trims_or_clears() {
    let mut s = Search::new();
    s.set_results(vec![hit("a", 1)]);
    s.set_new_query("  lo fi \n".to_string());
    assert_eq!(s.begin_search(), Some("lo fi".to_string()));
    assert_eq!(s.results.len(), 1);
    s.set_new_query(" \t ".to_string());
    assert_eq!(s.begin_search(), None);
    assert!(s.results.is_empty());
}

#[test]
fn search_refreshes_an_expired_token_first() {
    let mut c = client();
    c.search.set_new_query(" abba ".to_string());
    let effects = c.search_with(true);
    assert_eq!(effects.len(), 2);
    assert!(matches!(effects[0], Effect::Send(UpMsg::RequestToken)));
    assert!(matches!(&effects[1], Effect::Search(q) if q == "abba"));
    let effects = c.search_with(false);
    assert_eq!(effects.len(), 1);
    assert!(matches!(&effects[0], Effect::Search(q) if q == "abba"));
}

#[test]
fn search_with_default_token_refreshes() {
    // A default token has no expiry, which rspotify counts as expired.
    let mut c = client();
    c.search.set_new_query("abba".to_string());
    let effects = c.search();
    assert_eq!(effects.len(), 2);
    assert!(matches!(effects[0], Effect::Send(UpMsg::RequestToken)));
}

#[test]
fn add_without_results_does_nothing() {
    let mut c = client();
    let effects = c.add_track(Some(track("a", 10)));
    assert!(effects.is_empty());
    assert!(c.playlist.tracks.is_empty());
    assert_eq!(c.playlist.duration, None);
}

#[test]
fn add_highlighted_result() {
    let mut c = client();
    c.search.set_new_query("q".to_string());
    c.search_results_arrived(vec![hit("a", 100), hit("b", 200)]);
    c.search.next_track();
    assert!(c.add_track_allowed(&None));
    let effects = c.add_track(None);
    assert_eq!(ids(&c.playlist.tracks), vec!["b"]);
    assert_eq!(c.playlist.duration, Some(200));
    assert!(c.search.results.is_empty());
    assert_eq!(c.search.query, "");
    assert_eq!(effects.len(), 1);
    assert!(matches!(&effects[0], Effect::Store { key, item: Stored::Tracks } if key == "quicklist-spotify"));
}

#[test]
fn add_given_track() {
    let mut c = client();
    c.search_results_arrived(vec![hit("a", 100)]);
    c.add_track(Some(track("z", 7)));
    assert_eq!(ids(&c.playlist.tracks), vec!["z"]);
    assert_eq!(c.playlist.duration, Some(7));
}

#[test]
fn add_refused_when_highlight_is_missing_or_overflows() {
    let mut c = client();
    c.search_results_arrived(vec![hit("a", 100)]);
    c.search.select_track("gone".to_string());
    assert!(!c.add_track_allowed(&None));
    assert!(c.add_track_allowed(&Some(track("x", 1))));
    c.replace_tracks(vec![track("big", i64::MAX)]);
    assert!(!c.add_track_allowed(&Some(track("x", 1))));
    assert!(c.add_track_allowed(&Some(track("x", -1))));
}

#[test]
fn remove_takes_every_copy_and_its_duration() {
    let mut c = client();
    c.replace_tracks(vec![track("a", 10), track("b", 20), track("a", 30), track("c", 40)]);
    assert_eq!(c.playlist.duration, None);
    assert_eq!(c.playlist.current_duration(), 100);
    let effects = c.remove_track("a");
    assert_eq!(ids(&c.playlist.tracks), vec!["b", "c"]);
    assert_eq!(c.playlist.duration, Some(60));
    assert!(matches!(&effects[0], Effect::Store { key, item: Stored::Tracks } if key == "quicklist-spotify"));
    c.remove_track("nope");
    assert_eq!(ids(&c.playlist.tracks), vec!["b", "c"]);
    assert_eq!(c.playlist.duration, Some(60));
}

#[test]
fn remove_undoes_add() {
    let mut c = client();
    c.replace_tracks(vec![track("a", 10), track("b", 20)]);
    c.search_results_arrived(vec![hit("n", 33)]);
    c.add_track(None);
    assert_eq!(c.playlist.duration, Some(63));
    c.remove_track("n");
    assert_eq!(ids(&c.playlist.tracks), vec!["a", "b"]);
    assert_eq!(c.playlist.duration, Some(30));
}

#[test]
fn duration_stays_the_sum() {
    let mut c = client();
    c.replace_tracks(vec![track("a", 5)]);
    c.search_results_arrived(vec![hit("b", 7)]);
    c.add_track(None);
    c.search_results_arrived(vec![hit("c", 11)]);
    c.add_track(None);
    c.remove_track("b");
    let sum: i64 = c.playlist.tracks.iter().map(|t| t.duration_sec).sum();
    assert_eq!(c.playlist.duration, Some(sum));
    assert_eq!(c.playlist_duration(), 16);
}

#[test]
fn sums_that_overflow_are_refused() {
    assert_eq!(sum_durations(&vec![track("a", i64::MAX), track("b", 1)]), None);
    assert_eq!(sum_durations(&vec![track("a", i64::MAX), track("b", 1), track("c", -1)]), Some(i64::MAX));
    assert_eq!(sum_durations(&vec![]), Some(0));
    let p = Playlist::from_tracks(vec![track("a", i64::MIN), track("b", -1)]);
    assert_eq!(p.duration, None);
    let mut c = client();
    c.replace_tracks(vec![track("a", i64::MIN), track("b", -1)]);
    assert!(!c.duration_readable());
    c.search_results_arrived(vec![hit("h", 1)]);
    assert!(!c.add_track_allowed(&Some(track("x", 1))));
    assert!(!c.remove_track_allowed("a"));
    assert!(c.remove_track_allowed("zzz"));
}

#[test]
fn load_tracks_replaces_the_playlist() {
    let mut c = client();
    c.load_tracks(None);
    assert!(c.playlist.tracks.is_empty());
    c.load_tracks(Some(vec![track("a", 3), track("b", 4)]));
    assert_eq!(ids(&c.playlist.tracks), vec!["a", "b"]);
    assert_eq!(c.playlist.duration, None);
    assert_eq!(c.playlist_duration(), 7);
}

#[test]
fn duration_once_read_is_kept_when_tracks_are_replaced() {
    let mut c = client();
    c.load_tracks(Some(vec![track("a", 3), track("b", 4)]));
    assert_eq!(c.playlist_duration(), 7);
    c.replace_tracks(vec![track("c", 100)]);
    assert_eq!(c.playlist_duration(), 7);
    c.load_tracks(Some(vec![]));
    assert_eq!(c.playlist_duration(), 7);
    // Adding and removing still move it.
    c.search_results_arrived(vec![hit("d", 10)]);
    c.add_track(None);
    assert_eq!(c.playlist_duration(), 17);
    c.remove_track("d");
    assert_eq!(c.playlist_duration(), 7);
}

#[test]
fn duration_is_worked_out_on_first_change() {
    let mut c = client();
    c.replace_tracks(vec![track("a", 3)]);
    c.search_results_arrived(vec![hit("b", 4)]);
    c.add_track(None);
    assert_eq!(c.playlist.duration, Some(7));
    let mut d = client();
    d.replace_tracks(vec![track("a", 3)]);
    d.remove_track("zzz");
    assert_eq!(d.playlist.duration, None);
}

#[test]
fn router_takes_the_callback() {
    let mut c = client();
    let effects = router(&mut c, "http://host/?state=state-1&code=xyz".to_string());
    assert_eq!(c.response_url, "http://host/?state=state-1&code=xyz");
    assert_eq!(effects.len(), 2);
    match &effects[0] {
        Effect::Send(UpMsg::RequestAuthToken(data)) => {
            assert_eq!(data.response_url, "http://host/?state=state-1&code=xyz");
            assert_eq!(data.state, "state-1");
        },
        other => panic!("unexpected {other:?}"),
    }
    assert!(matches!(&effects[1], Effect::ReplaceRoute(r) if r == "/"));
}

#[test]
fn router_ignores_other_urls() {
    let mut c = client();
    let effects = router(&mut c, "http://host/".to_string());
    assert!(effects.is_empty());
    assert_eq!(c.response_url, "");
}

#[test]
fn auth_data_reply_stores_state_and_leaves() {
    let mut c = client();
    let effects = c.handle_down_msg(DownMsg::AuthData(AuthData {
        url: "https://accounts.spotify.com/authorize?x".to_string(),
        state: "s2".to_string(),
    }));
    assert_eq!(c.auth_state, "s2");
    assert_eq!(c.auth_url, "https://accounts.spotify.com/authorize?x");
    assert_eq!(effects.len(), 2);
    assert!(matches!(&effects[0], Effect::Store { key, item: Stored::AuthState } if key == "quicklist-spotify-state"));
    assert!(matches!(&effects[1], Effect::Navigate(u) if u == "https://accounts.spotify.com/authorize?x"));
}

#[test]
fn token_replies_rebuild_clients() {
    let mut c = client();
    let effects = c.handle_down_msg(DownMsg::Token(rspotify::Token::default()));
    assert_eq!(effects.len(), 1);
    assert!(matches!(effects[0], Effect::RebuildClient));
    let effects = c.handle_down_msg(DownMsg::AuthToken(rspotify::Token::default()));
    assert_eq!(effects.len(), 2);
    assert!(matches!(effects[0], Effect::RebuildAuthClient));
    assert!(matches!(&effects[1], Effect::Store { key, item: Stored::AuthToken } if key == "quicklist-spotify-auth-token"));
}

#[test]
fn login_and_refresh_messages() {
    let c = client();
    assert!(matches!(c.login(), Effect::Send(UpMsg::RequestAuthData)));
    assert!(matches!(c.refresh_token(), Effect::Send(UpMsg::RequestToken)));
    let data = c.auth_data();
    assert_eq!(data.state, "state-1");
    assert_eq!(data.response_url, "");
}

#[test]
fn playlist_name_store_and_reload() {
    let mut c = client();
    assert!(matches!(c.store_playlist_name(), Effect::Store { key, item: Stored::PlaylistName } if key == "quicklist-spotify-playlist-name"));
    c.set_playlist_name("Other".to_string());
    c.reload_playlist_name(None);
    assert_eq!(c.playlist_name, "Other");
    c.reload_playlist_name(Some("My list".to_string()));
    assert_eq!(c.playlist_name, "My list");
}

#[test]
fn create_playlist_request_lists_track_uris() {
    let mut c = client();
    c.replace_tracks(vec![
        track("spotify:track:4iV5W9uYEdYUVa79Axb7Rh", 1),
        track("spotify/track/5iKndSu1XI74U2OZePzP8L", 2),
    ]);
    let r = c.create_playlist().expect("valid uris");
    assert_eq!(r.name, "My list");
    assert!(!r.public);
    assert!(!r.collaborative);
    assert_eq!(r.description, "Playlist created by QuickList");
    assert_eq!(r.track_uris, vec!["spotify:track:4iV5W9uYEdYUVa79Axb7Rh", "spotify/track/5iKndSu1XI74U2OZePzP8L"]);
    assert!(matches!(c.press_create(), Some(Effect::CreatePlaylist(_))));
    c.playlist_created_ok();
    assert!(c.press_create().is_none());
}

#[test]
fn create_playlist_refuses_bad_uris() {
    for bad in [
        "spotify:album:4iV5W9uYEdYUVa79Axb7Rh",
        "4iV5W9uYEdYUVa79Axb7Rh",
        "spotify:track/abc",
        "spotify:track:ab-c",
        "spotify:track:abc:def",
        "SPOTIFY:track:abc",
        "spotify:Track:abc",
    ] {
        let mut c = client();
        c.replace_tracks(vec![track(bad, 1)]);
        assert!(c.create_playlist().is_none(), "{bad}");
        assert!(c.press_create().is_none());
    }
}

#[test]
fn token_steps() {
    assert!(matches!(token_step_with(None, false), TokenStep::Fail));
    assert!(matches!(token_step_with(Some(rspotify::Token::default()), true), TokenStep::Refresh));
    assert!(matches!(token_step_with(Some(rspotify::Token::default()), false), TokenStep::Ready(_)));
    assert!(matches!(token_step(None), TokenStep::Fail));
    assert!(matches!(token_step(Some(rspotify::Token::default())), TokenStep::Refresh));
}

#[test]
fn response_code_needs_matching_state() {
    let ok = AuthResponseData {
        response_url: "http://192.168.1.2:8080/?code=AQB42&state=abc".to_string(),
        state: "abc".to_string(),
    };
    assert_eq!(auth_response_code(&ok), Some("AQB42".to_string()));
    let wrong = AuthResponseData { state: "xyz".to_string(), ..ok.clone() };
    assert_eq!(auth_response_code(&wrong), None);
    let none = AuthResponseData { response_url: "not a url".to_string(), state: "abc".to_string() };
    assert_eq!(auth_response_code(&none), None);
}

#[test]
fn empty_track_id_is_accepted_by_rspotify() {
    let mut c = client();
    c.replace_tracks(vec![track("spotify:track:", 1)]);
    assert!(c.create_playlist().is_some());
}

#[test]
fn focusing_search_refreshes_expired_token() {
    let c = client();
    let effects = c.focus_search_with(true);
    assert_eq!(effects.len(), 1);
    assert!(matches!(effects[0], Effect::Send(UpMsg::RequestToken)));
    assert!(c.focus_search_with(false).is_empty());
    // A default token counts as expired.
    assert_eq!(c.focus_search().len(), 1);
}

#[test]
fn remove_allowed_checks_what_is_left() {
    let mut c = client();
    c.replace_tracks(vec![track("a", i64::MAX), track("b", 5), track("c", -5)]);
    assert!(!c.remove_track_allowed("c"));
    assert!(c.remove_track_allowed("b"));
    assert!(c.remove_track_allowed("a"));
    assert!(c.remove_track_allowed("zzz"));
}

#[test]
fn callback_echoes_the_issued_state() {
    let mut c = client();
    c.handle_down_msg(DownMsg::AuthData(AuthData { url: "https://a".to_string(), state: "fresh".to_string() }));
    let effects = router(&mut c, "http://192.168.1.2:8080/?code=c0de&state=fresh".to_string());
    match &effects[0] {
        Effect::Send(UpMsg::RequestAuthToken(data)) => assert_eq!(data.state, "fresh"),
        other => panic!("unexpected {other:?}"),
    }
}

#[test]
fn trimming_twice_changes_nothing() {
    for s in ["  a b  ", "\u{2000}x", "", " "] {
        let once = trimmed(s);
        assert_eq!(trimmed(&once), once);
    }
}

#[test]
fn moving_down_once_per_result_comes_back() {
    let mut s = Search::new();
    s.set_results(vec![hit("a", 1), hit("b", 2), hit("c", 3), hit("d", 4)]);
    s.select_track("c".to_string());
    for _ in 0..4 {
        s.next_track();
    }
    assert_eq!(s.selected, "c");
}
