use quicklist::backend::{auth_data_scopes, auth_token_scopes, redirect_uri, request_auth_data};
use quicklist::client::Client;
use quicklist::elements::{
    Action, Attr, Button, Color, Column, DotcomShell, Event, Input, Key, Kind, Node, Prop, Search,
    Setting, Style, Tag,
};
use quicklist::login_window::login_window;
use quicklist::model::Track;
use quicklist::search::TrackHit;
use quicklist::view::{playlist_create_button, playlist_panel, root, root_with, search_info};

fn client() -> Client {
    Client::new(
        rspotify::Token::default(),
        rspotify::Token::default(),
        "st".to_string(),
        "Mix".to_string(),
    )
}

fn text_of(n: &Node) -> &str {
    assert_eq!(n.kind, Kind::Text);
    n.text.as_deref().unwrap()
}

fn track(id: &str, secs: i64) -> Track {
    Track {
        format: format!("{id} - x"),
        track_id: id.to_string(),
        title: id.to_string(),
        artist: "x".to_string(),
        duration_sec: secs,
    }
}

#[test]
fn auth_data_carries_a_fresh_state() {
    let d = request_auth_data("client123").unwrap();
    assert_eq!(d.state.len(), 16);
    assert!(d.state.chars().all(|c| c.is_ascii_alphanumeric()));
    assert!(d.url.starts_with("https://accounts.spotify.com/authorize?"));
    assert!(d.url.contains(&format!("state={}", d.state)));
    assert!(d.url.contains("client_id=client123"));
    assert!(d.url.contains("response_type=code"));
    assert!(d.url.contains("redirect_uri=http%3A%2F%2F192.168.1.2%3A8080"));
    assert!(
        d.url.contains("scope=playlist-modify-private+playlist-read-private")
            || d.url.contains("scope=playlist-read-private+playlist-modify-private")
    );
    let e = request_auth_data("client123").unwrap();
    assert_ne!(d.state, e.state);
}

#[test]
fn backend_settings() {
    assert_eq!(redirect_uri(), "http://192.168.1.2:8080");
    assert_eq!(auth_data_scopes(), vec!["playlist-modify-private", "playlist-read-private"]);
    assert_eq!(auth_token_scopes(), vec!["playlist-modify-private"]);
}

#[test]
fn root_has_header_panels_footer() {
    let c = client();
    let n = root_with(&c, true);
    assert_eq!(n.kind, Kind::Grid);
    assert_eq!(n.children.len(), 3);
    let header = &n.children[0].children[0];
    assert_eq!(header.tag, Some(Tag::Header));
    assert_eq!(text_of(&header.children[0].children[0]), "QuickList for Spotify");
    assert_eq!(n.children[2].tag, Some(Tag::Footer));
    let p = &n.children[2].children[0];
    assert_eq!(text_of(&p.children[0]), "Created by ");
    assert_eq!(text_of(&p.children[1].children[0]), "Alan Roe");
    let r = root(&c);
    assert_eq!(r.children.len(), 3);
}

#[test]
fn empty_playlist_panel_has_only_the_name_row() {
    let c = client();
    let n = playlist_panel(&c, true);
    assert_eq!(n.tag, Some(Tag::Section));
    assert_eq!(n.children.len(), 1);
    let right = &n.children[0].children[1];
    let button = &right.children[0];
    assert_eq!(button.tag, Some(Tag::BxBtn));
    assert_eq!(text_of(&button.children[0]), "Log in");
    assert!(matches!(button.settings[1], Setting::On(Event::Press, Action::Login)));
}

#[test]
fn playlist_panel_lists_tracks_and_footer() {
    let mut c = client();
    c.replace_tracks(vec![track("a", 61), track("b", 60)]);
    let n = playlist_panel(&c, false);
    assert_eq!(n.children.len(), 3);
    let list = &n.children[1];
    assert_eq!(list.children.len(), 2);
    let info = &list.children[1].children[0];
    assert_eq!(info.kind, Kind::Tile);
    assert_eq!(text_of(&info.children[0]), "b - x");
    let remove = info.right_on_hover.as_ref().unwrap();
    assert!(matches!(&remove.settings[7], Setting::On(Event::Press, Action::RemoveTrack(id)) if id == "b"));
    assert_eq!(text_of(&n.children[2].children[0]), "2 songs, 2 min 1 sec");
    let button = &n.children[0].children[1].children[0];
    assert_eq!(text_of(&button.children[0]), "Create");
}

#[test]
fn create_button_label_follows_creation() {
    assert_eq!(text_of(&playlist_create_button(false).children[0]), "Create");
    assert_eq!(text_of(&playlist_create_button(true).children[0]), "Created");
}

#[test]
fn search_panel_shows_results_with_highlight() {
    let mut c = client();
    c.search.set_new_query("ab".to_string());
    c.search_results_arrived(vec![
        TrackHit { title: "A".to_string(), artist: "B".to_string(), uri: "u1".to_string(), duration_sec: 1 },
        TrackHit { title: "C".to_string(), artist: "D".to_string(), uri: "u2".to_string(), duration_sec: 2 },
    ]);
    let n = root_with(&c, false);
    let search_panel = &n.children[1].children[0].children[0].children[0];
    assert_eq!(search_panel.children.len(), 2);
    let sbox = &search_panel.children[0];
    assert_eq!(sbox.tag, Some(Tag::BxSearch));
    assert!(matches!(&sbox.settings[9], Setting::Prop(Prop::Value, v) if v == "ab"));
    assert!(matches!(&sbox.settings[3], Setting::Attr(Attr::Placeholder, v) if v == "Start typing a song title/artist"));
    assert!(matches!(sbox.settings[5], Setting::On(Event::KeyDown(Key::Enter), Action::AddHighlighted)));
    let rows = &search_panel.children[1].children;
    assert_eq!(rows.len(), 2);
    let first = &rows[0].children[0];
    assert!(matches!(first.settings[2], Setting::Style(Style::Background(Color::Hsluv { h: 0, s: 0, l: 846 }))));
    let second = &rows[1].children[0];
    assert!(matches!(second.settings[2], Setting::Style(Style::Background(Color::Hsluv { h: 0, s: 0, l: 962 }))));
    assert_eq!(text_of(&second.children[0]), "C - D");
    assert!(matches!(&second.settings[4], Setting::On(Event::Click, Action::AddTrack(t)) if t.track_id == "u2"));
}

#[test]
fn search_info_highlight() {
    let t = track("z", 3);
    let lit = search_info(&t, &"z".to_string());
    assert!(matches!(lit.settings[2], Setting::Style(Style::Background(Color::Hsluv { l: 846, .. }))));
    let dim = search_info(&t, &"y".to_string());
    assert!(matches!(dim.settings[2], Setting::Style(Style::Background(Color::Hsluv { l: 962, .. }))));
}

#[test]
fn login_window_shows_error_and_button() {
    let mut c = client();
    let n = login_window(&c);
    let card = &n.children[0];
    assert_eq!(card.children.len(), 2);
    assert!(card.children[0].children.is_empty());
    c.login_error = Some("Wrong password".to_string());
    let n = login_window(&c);
    let card = &n.children[0];
    assert_eq!(text_of(&card.children[0].children[0]), "Wrong password");
    let b = &card.children[1].children[0];
    assert_eq!(b.kind, Kind::Button);
    assert_eq!(text_of(&b.children[0]), "Log in");
}

#[test]
fn custom_elements() {
    assert!(!Button::new().on_press_set);
    let b = Button::new().size("md").value_signal("v").label(Node::text("L")).on_press(Action::Login);
    assert_eq!(b.node.tag, Some(Tag::BxBtn));
    assert!(matches!(&b.node.settings[0], Setting::Prop(Prop::Size, v) if v == "md"));
    assert!(matches!(&b.node.settings[1], Setting::Prop(Prop::Value, v) if v == "v"));
    assert!(matches!(b.node.settings[2], Setting::On(Event::Press, Action::Login)));
    assert!(b.on_press_set);
    let col = Column::new().child(Node::text("a")).child_signal(None).children(vec![Node::text("b")]).children_signal_vec(vec![Node::text("c")]);
    assert_eq!(col.node.tag, Some(Tag::Div));
    assert_eq!(col.node.children.len(), 3);
    let sec = Column::with_tag(Tag::Section);
    assert_eq!(sec.node.tag, Some(Tag::Section));
    let d = DotcomShell::new().child(Node::text("a")).child_signal(Some(Node::text("b")));
    assert_eq!(d.node.tag, Some(Tag::DdsContentItem));
    assert_eq!(d.node.children.len(), 2);
    let i = Input::new().placeholder("p").on_change(Action::SetPlaylistName).value_signal("x");
    assert_eq!(i.node.tag, Some(Tag::BxInput));
    assert!(matches!(&i.node.settings[0], Setting::Prop(Prop::Placeholder, v) if v == "p"));
    let s = Search::new().placeholder("p").size("lg").label("L").on_change(Action::SetQuery);
    assert!(matches!(&s.node.settings[0], Setting::Attr(Attr::Placeholder, v) if v == "p"));
    assert!(matches!(&s.node.settings[2], Setting::Prop(Prop::LabelText, v) if v == "L"));
}
