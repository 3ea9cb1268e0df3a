//! The main page: header, search panel, playlist panel, footer.
use vstd::prelude::*;
use crate::client::Client;
use crate::elements::{
    is_css, is_prop, is_attr, is_text, Action, Attr, Button, Color, Column, Event, Input, Key, Kind,
    Node, Prop, Search, Setting, Sides, Style, Tag, Weight,
};
use crate::model::Track;
use crate::playlist::{duration_text, track_count_line};
use crate::spotify::token_is_expired;

verus! {

/// An HSLuv colour given in tenths.
pub open spec fn hs(h: u32, s: u32, l: u32) -> Color {
    Color::Hsluv { h, s, l }
}

/// Padding on the left and right (`x`) and top and bottom (`y`).
pub open spec fn pad_xy(x: Option<u32>, y: Option<u32>) -> Sides {
    Sides { top: y, right: x, bottom: y, left: x }
}

/// Padding on every side, with another value on the right.
pub open spec fn pad_all_right(all: u32, right: u32) -> Sides {
    Sides { top: Some(all), right: Some(right), bottom: Some(all), left: Some(all) }
}

/// The style setting `st`.
pub open spec fn st(style: Style) -> Setting {
    Setting::Style(style)
}

/// `n` has no text and nothing shown on hover.
pub open spec fn plain(n: Node) -> bool {
    n.text is None && n.right_on_hover is None
}

// ------ Header ------

/// The page title.
pub open spec fn is_title(n: Node) -> bool {
    &&& n.kind == Kind::El && n.tag == Some(Tag::H1) && plain(n)
    &&& n.settings@.len() == 0
    &&& n.children@.len() == 1
    &&& is_text(n.children@[0], "QuickList for Spotify"@)
}

/// The header: the title, large, green and centred.
pub open spec fn is_header(n: Node) -> bool {
    &&& n.kind == Kind::El && n.tag == Some(Tag::Header) && plain(n)
    &&& n.settings@ == seq![
        st(Style::Padding(pad_xy(None, Some(10)))),
        st(Style::AlignCenterX),
        st(Style::FontSize(48)),
        st(Style::FontColor(Color::Green7)),
        st(Style::FontWeight(Weight::Heavy)),
    ]
    &&& n.children@.len() == 1
    &&& is_title(n.children@[0])
}

/// The header of the page.
pub fn header() -> (n: Node)
    ensures
        is_header(n),
{
    let title = Node::new(Kind::El, Some(Tag::H1)).child(Node::text("QuickList for Spotify"));
    let n = Node::new(Kind::El, Some(Tag::Header))
        .s(Style::Padding(Sides { top: Some(10), right: None, bottom: Some(10), left: None }))
        .s(Style::AlignCenterX)
        .s(Style::FontSize(48))
        .s(Style::FontColor(Color::Green7))
        .s(Style::FontWeight(Weight::Heavy))
        .child(title);
    proof {
        assert(n.settings@ =~= seq![
            st(Style::Padding(pad_xy(None, Some(10)))),
            st(Style::AlignCenterX),
            st(Style::FontSize(48)),
            st(Style::FontColor(Color::Green7)),
            st(Style::FontWeight(Weight::Heavy)),
        ]);
    }
    n
}

// ------ Footer ------

/// The link to the author's page, underlined under the pointer, opening in
/// a new tab.
pub open spec fn is_author_link(n: Node) -> bool {
    &&& n.kind == Kind::Link && n.tag is None && plain(n)
    &&& n.settings@.len() == 3
    &&& n.settings@[0] == st(Style::FontUnderlineHover)
    &&& n.settings@[1] matches Setting::Href(u) && u@ == "https://github.com/alan-roe"@
    &&& n.settings@[2] == Setting::NewTab
    &&& n.children@.len() == 1
    &&& is_text(n.children@[0], "Alan Roe"@)
}

/// The link to the author.
pub fn author_link() -> (n: Node)
    ensures
        is_author_link(n),
{
    Node::new(Kind::Link, None)
        .s(Style::FontUnderlineHover)
        .child(Node::text("Alan Roe"))
        .set(Setting::Href(String::from_str("https://github.com/alan-roe")))
        .set(Setting::NewTab)
}

/// The page footer: `Created by` and the author link, small and grey.
pub open spec fn is_footer(n: Node) -> bool {
    &&& n.kind == Kind::Row && n.tag == Some(Tag::Footer) && plain(n)
    &&& n.settings@ == seq![
        st(Style::Gap(9)),
        st(Style::Padding(pad_xy(Some(15), Some(8)))),
        st(Style::FontSize(10)),
        st(Style::FontColor(hs(0, 0, 773))),
        st(Style::FontCenter),
        st(Style::BorderTop(hs(0, 0, 913))),
    ]
    &&& n.children@.len() == 1
    &&& {
        let p = n.children@[0];
        &&& p.kind == Kind::Paragraph && p.tag is None && plain(p)
        &&& p.settings@.len() == 0
        &&& p.children@.len() == 2
        &&& is_text(p.children@[0], "Created by "@)
        &&& is_author_link(p.children@[1])
    }
}

/// The footer of the page.
pub fn footer() -> (n: Node)
    ensures
        is_footer(n),
{
    let p = Node::new(Kind::Paragraph, None).child(Node::text("Created by ")).child(author_link());
    let n = Node::new(Kind::Row, Some(Tag::Footer))
        .s(Style::Gap(9))
        .s(Style::Padding(Sides { top: Some(8), right: Some(15), bottom: Some(8), left: Some(15) }))
        .s(Style::FontSize(10))
        .s(Style::FontColor(Color::Hsluv { h: 0, s: 0, l: 773 }))
        .s(Style::FontCenter)
        .s(Style::BorderTop(Color::Hsluv { h: 0, s: 0, l: 913 }))
        .child(p);
    proof {
        assert(n.settings@ =~= seq![
            st(Style::Gap(9)),
            st(Style::Padding(pad_xy(Some(15), Some(8)))),
            st(Style::FontSize(10)),
            st(Style::FontColor(hs(0, 0, 773))),
            st(Style::FontCenter),
            st(Style::BorderTop(hs(0, 0, 913))),
        ]);
    }
    n
}

// ------ Playlist buttons ------

/// The button that starts signing in.
pub open spec fn is_login_button(n: Node) -> bool {
    &&& n.kind == Kind::Raw && n.tag == Some(Tag::BxBtn) && plain(n)
    &&& n.settings@.len() == 2
    &&& is_prop(n.settings@[0], Prop::Size, "md"@)
    &&& n.settings@[1] == Setting::On(Event::Press, Action::Login)
    &&& n.children@.len() == 1
    &&& is_text(n.children@[0], "Log in"@)
}

/// The button that starts signing in.
pub fn login_button() -> (n: Node)
    ensures
        is_login_button(n),
{
    Button::new().size("md").on_press(Action::Login).label(Node::text("Log in")).node
}

/// The button that creates the playlist, labelled by whether that was done.
pub open spec fn is_create_button(n: Node, created: bool) -> bool {
    &&& n.kind == Kind::Raw && n.tag == Some(Tag::BxBtn) && plain(n)
    &&& n.settings@ == seq![Setting::On(Event::Press, Action::CreatePlaylist)]
    &&& n.children@.len() == 1
    &&& is_text(n.children@[0], if created { "Created"@ } else { "Create"@ })
}

/// The button that creates the playlist.
pub fn playlist_create_button(created: bool) -> (n: Node)
    ensures
        is_create_button(n, created),
{
    let label = if created { Node::text("Created") } else { Node::text("Create") };
    let n = Button::new().on_press(Action::CreatePlaylist).label_signal(label).node;
    proof { assert(n.settings@ =~= seq![Setting::On(Event::Press, Action::CreatePlaylist)]); }
    n
}

/// The input that names the playlist: it shows the name, renames on each
/// change, stores the name when it loses the focus or on Enter, and reloads
/// the stored name on Escape.
pub open spec fn is_playlist_name_input(n: Node, name: Seq<char>) -> bool {
    &&& n.kind == Kind::Raw && n.tag == Some(Tag::BxInput) && plain(n)
    &&& n.children@.len() == 0
    &&& n.settings@.len() == 11
    &&& is_prop(n.settings@[0], Prop::Placeholder, "Playlist Name"@)
    &&& n.settings@[1] == st(Style::AlignTop)
    &&& n.settings@[2] == st(Style::AlignContentTop)
    &&& is_prop(n.settings@[3], Prop::Size, "md"@)
    &&& is_prop(n.settings@[4], Prop::LabelText, "Playlist Name"@)
    &&& is_css(n.settings@[5], "white-space"@, "normal"@)
    &&& n.settings@[6] == Setting::On(Event::Blur, Action::StorePlaylistName)
    &&& n.settings@[7] == Setting::On(Event::Change, Action::SetPlaylistName)
    &&& n.settings@[8] == Setting::On(Event::KeyDown(Key::Escape), Action::ReloadPlaylistName)
    &&& n.settings@[9] == Setting::On(Event::KeyDown(Key::Enter), Action::StorePlaylistName)
    &&& is_prop(n.settings@[10], Prop::Value, name)
}

/// The input that names the playlist.
pub fn playlist_name_input(name: &str) -> (n: Node)
    ensures
        is_playlist_name_input(n, name@),
{
    let i = Input::new().placeholder("Playlist Name");
    let node = i.node.s(Style::AlignTop).s(Style::AlignContentTop);
    let i = Input { node }.size("md").label("Playlist Name");
    let node = i.node
        .css("white-space", "normal")
        .on(Event::Blur, Action::StorePlaylistName);
    let i = Input { node }.on_change(Action::SetPlaylistName);
    let node = i.node
        .on(Event::KeyDown(Key::Escape), Action::ReloadPlaylistName)
        .on(Event::KeyDown(Key::Enter), Action::StorePlaylistName);
    Input { node }.value_signal(name).node
}

/// The row that names the playlist: the name input, and at its right the
/// sign-in button where the user's token has expired, or else the create
/// button.
pub open spec fn is_playlist_name(n: Node, name: Seq<char>, expired: bool, created: bool) -> bool {
    &&& n.kind == Kind::Row && n.tag is None && plain(n)
    &&& n.settings@ == seq![st(Style::WidthFill)]
    &&& n.children@.len() == 2
    &&& {
        let left = n.children@[0];
        &&& is_column_with(left, Tag::Div)
        &&& left.settings@.len() == 1
        &&& left.children@.len() == 1
        &&& is_playlist_name_input(left.children@[0], name)
    }
    &&& {
        let right = n.children@[1];
        &&& is_column_with(right, Tag::Div)
        &&& right.settings@.len() == 2
        &&& is_css(right.settings@[1], "align-self"@, "flex-end"@)
        &&& right.children@.len() == 1
        &&& if expired {
            is_login_button(right.children@[0])
        } else {
            is_create_button(right.children@[0], created)
        }
    }
}

/// `n` is a Carbon column with the given tag, whatever its children and
/// further settings.
pub open spec fn is_column_with(n: Node, tag: Tag) -> bool {
    &&& n.kind == Kind::Raw && n.tag == Some(tag) && plain(n)
    &&& n.settings@.len() >= 1
    &&& n.settings@[0] == Setting::Class(crate::elements::Class::BxCol)
}

/// The row that names the playlist, given whether the user's token has
/// expired.
pub fn playlist_name(client: &Client, expired: bool) -> (n: Node)
    ensures
        is_playlist_name(n, client.playlist_name@, expired, client.playlist_created),
{
    let left = Column::new().child(playlist_name_input(client.playlist_name.as_str())).node;
    let button = if expired { login_button() } else { playlist_create_button(client.playlist_created) };
    let right = Column::new().child_signal(Some(button)).node.css("align-self", "flex-end");
    let n = Node::new(Kind::Row, None).s(Style::WidthFill).child(left).child(right);
    proof {
        assert(n.settings@ =~= seq![st(Style::WidthFill)]);
    }
    n
}

// ------ Playlist ------

/// The button that removes a track: a cross that darkens under the pointer.
pub open spec fn is_remove_track_button(n: Node, t: Track) -> bool {
    &&& n.kind == Kind::Button && n.tag is None && plain(n)
    &&& n.settings@ == seq![
        st(Style::WidthExact(40)),
        st(Style::HeightExact(40)),
        st(Style::MoveLeft(50)),
        st(Style::MoveDown(14)),
        st(Style::FontSize(30)),
        st(Style::FontCenter),
        st(Style::FontColorHover { idle: hs(122, 347, 682), hovered: hs(105, 377, 488) }),
        Setting::On(Event::Press, Action::RemoveTrack(t.track_id)),
    ]
    &&& n.children@.len() == 1
    &&& is_text(n.children@[0], "×"@)
}

/// The button that removes the track `t` from the playlist.
pub fn remove_track_button(t: &Track) -> (n: Node)
    ensures
        is_remove_track_button(n, *t),
{
    let id = t.track_id.clone();
    let n = Node::new(Kind::Button, None)
        .s(Style::WidthExact(40))
        .s(Style::HeightExact(40))
        .s(Style::MoveLeft(50))
        .s(Style::MoveDown(14))
        .s(Style::FontSize(30))
        .s(Style::FontCenter)
        .s(Style::FontColorHover {
            idle: Color::Hsluv { h: 122, s: 347, l: 682 },
            hovered: Color::Hsluv { h: 105, s: 377, l: 488 },
        })
        .on(Event::Press, Action::RemoveTrack(id))
        .child(Node::text("×"));
    proof {
        assert(n.settings@ =~= seq![
            st(Style::WidthExact(40)),
            st(Style::HeightExact(40)),
            st(Style::MoveLeft(50)),
            st(Style::MoveDown(14)),
            st(Style::FontSize(30)),
            st(Style::FontCenter),
            st(Style::FontColorHover { idle: hs(122, 347, 682), hovered: hs(105, 377, 488) }),
            Setting::On(Event::Press, Action::RemoveTrack(t.track_id)),
        ]);
    }
    n
}

/// The tile of a playlist track: its line, and its remove button at the
/// right while the pointer is over it.
pub open spec fn is_track_info(n: Node, t: Track) -> bool {
    &&& n.kind == Kind::Tile && n.tag is None && n.text is None
    &&& n.settings@ == seq![st(Style::WidthFill), st(Style::Padding(pad_all_right(15, 60)))]
    &&& n.children@.len() == 1
    &&& is_text(n.children@[0], t.format@)
    &&& n.right_on_hover matches Some(b) && is_remove_track_button(*b, t)
}

/// The tile of a playlist track.
pub fn track_info(t: &Track) -> (n: Node)
    ensures
        is_track_info(n, *t),
{
    let mut n = Node::new(Kind::Tile, None)
        .s(Style::WidthFill)
        .s(Style::Padding(Sides { top: Some(15), right: Some(60), bottom: Some(15), left: Some(15) }))
        .child(Node::text(t.format.as_str()));
    n.right_on_hover = Some(Box::new(remove_track_button(t)));
    proof {
        assert(n.settings@ =~= seq![st(Style::WidthFill), st(Style::Padding(pad_all_right(15, 60)))]);
    }
    n
}

/// The row of a playlist track.
pub open spec fn is_track_row(n: Node, t: Track) -> bool {
    &&& n.kind == Kind::Row && n.tag is None && plain(n)
    &&& n.settings@ == seq![st(Style::WidthFill), st(Style::Gap(5))]
    &&& n.children@.len() == 1
    &&& is_track_info(n.children@[0], t)
}

/// The row of a playlist track.
pub fn track(t: &Track) -> (n: Node)
    ensures
        is_track_row(n, *t),
{
    let n = Node::new(Kind::Row, None).s(Style::WidthFill).s(Style::Gap(5)).child(track_info(t));
    proof {
        assert(n.settings@ =~= seq![st(Style::WidthFill), st(Style::Gap(5))]);
    }
    n
}

/// The list of the playlist's tracks, one row each, in order.
pub open spec fn is_tracks(n: Node, tracks: Seq<Track>) -> bool {
    &&& is_column_with(n, Tag::Div)
    &&& n.settings@.len() == 2
    &&& n.settings@[1] == st(Style::Gap(1))
    &&& n.children@.len() == tracks.len()
    &&& forall|i: int| 0 <= i < tracks.len() ==> is_track_row(#[trigger] n.children@[i], tracks[i])
}

/// The list of the playlist's tracks.
pub fn tracks(client: &Client) -> (n: Node)
    ensures
        is_tracks(n, client.playlist.tracks@),
{
    let ts = &client.playlist.tracks;
    let mut rows: Vec<Node> = Vec::new();
    let mut i: usize = 0;
    while i < ts.len()
        invariant
            i <= ts@.len(),
            rows@.len() == i,
            forall|k: int| 0 <= k < i ==> is_track_row(#[trigger] rows@[k], ts@[k]),
        decreases ts@.len() - i,
    {
        rows.push(track(&ts[i]));
        i = i + 1;
    }
    let n = Column::new().node.s(Style::Gap(1)).children(rows);
    proof {
        assert(n.children@ =~= rows@);
    }
    n
}

/// The footer line of the playlist: how many songs, and how long.
pub open spec fn is_track_count(n: Node, client: Client) -> bool {
    is_text(
        n,
        track_count_line(
            client.playlist.tracks@.len(),
            duration_text(client.playlist.duration_of()),
        ),
    )
}

/// The footer line of the playlist.
pub fn track_count(client: &Client) -> (n: Node)
    requires
        client.playlist.duration_readable(),
    ensures
        is_track_count(n, *client),
{
    let duration = client.playlist.duration_format();
    Node::text_of(
        crate::playlist::track_count_text(client.playlist.tracks.len(), duration.as_str()),
    )
}

/// The footer of the playlist panel.
pub open spec fn is_panel_footer(n: Node, client: Client) -> bool {
    &&& n.kind == Kind::Row && n.tag == Some(Tag::Footer) && plain(n)
    &&& n.settings@ == seq![
        st(Style::FontColor(hs(0, 0, 500))),
        st(Style::Padding(pad_xy(Some(15), Some(5)))),
    ]
    &&& n.children@.len() == 1
    &&& is_track_count(n.children@[0], client)
}

/// The footer of the playlist panel.
pub fn panel_footer(client: &Client) -> (n: Node)
    requires
        client.playlist.duration_readable(),
    ensures
        is_panel_footer(n, *client),
{
    let n = Node::new(Kind::Row, Some(Tag::Footer))
        .s(Style::FontColor(Color::Hsluv { h: 0, s: 0, l: 500 }))
        .s(Style::Padding(Sides { top: Some(5), right: Some(15), bottom: Some(5), left: Some(15) }))
        .child(track_count(client));
    proof {
        assert(n.settings@ =~= seq![
            st(Style::FontColor(hs(0, 0, 500))),
            st(Style::Padding(pad_xy(Some(15), Some(5)))),
        ]);
    }
    n
}

/// The playlist panel: the name row, then, where the playlist has tracks,
/// their list and the footer.
pub open spec fn is_playlist_panel(n: Node, client: Client, expired: bool) -> bool {
    &&& is_column_with(n, Tag::Section)
    &&& n.settings@.len() == 1
    &&& is_playlist_name(n.children@[0], client.playlist_name@, expired, client.playlist_created)
    &&& if client.playlist.tracks@.len() == 0 {
        n.children@.len() == 1
    } else {
        &&& n.children@.len() == 3
        &&& is_tracks(n.children@[1], client.playlist.tracks@)
        &&& is_panel_footer(n.children@[2], client)
    }
}

/// The playlist panel, given whether the user's token has expired.
pub fn playlist_panel(client: &Client, expired: bool) -> (n: Node)
    requires
        client.playlist.duration_readable(),
    ensures
        is_playlist_panel(n, *client, expired),
{
    let exist = client.playlist.tracks.len() != 0;
    let list = if exist { Some(tracks(client)) } else { None };
    let foot = if exist { Some(panel_footer(client)) } else { None };
    Column::with_tag(Tag::Section)
        .child(playlist_name(client, expired))
        .child_signal(list)
        .child_signal(foot)
        .node
}

// ------ Search ------

/// The search box: it takes the focus, refreshes the token and schedules a
/// search when focused, sets the query and schedules a search on each
/// change; Enter adds the highlighted result, the arrows move the highlight,
/// the space bar searches at once. It shows the query.
pub open spec fn is_search_track(n: Node, query: Seq<char>) -> bool {
    &&& n.kind == Kind::Raw && n.tag == Some(Tag::BxSearch) && plain(n)
    &&& n.children@.len() == 0
    &&& n.settings@.len() == 11
    &&& n.settings@[0] == Setting::Focused
    &&& n.settings@[1] == Setting::On(Event::Focus, Action::FocusSearch)
    &&& n.settings@[2] == Setting::On(Event::Change, Action::SetQuery)
    &&& is_attr(n.settings@[3], Attr::Placeholder, "Start typing a song title/artist"@)
    &&& is_prop(n.settings@[4], Prop::LabelText, "Search for track"@)
    &&& n.settings@[5] == Setting::On(Event::KeyDown(Key::Enter), Action::AddHighlighted)
    &&& n.settings@[6] == Setting::On(Event::KeyDown(Key::ArrowDown), Action::NextTrack)
    &&& n.settings@[7] == Setting::On(Event::KeyDown(Key::ArrowUp), Action::PrevTrack)
    &&& n.settings@[8] == Setting::On(Event::KeyDown(Key::Space), Action::Search)
    &&& is_prop(n.settings@[9], Prop::Value, query)
    &&& is_prop(n.settings@[10], Prop::Size, "lg"@)
}

/// The search box showing `query`.
pub fn search_track(query: &str) -> (n: Node)
    ensures
        is_search_track(n, query@),
{
    let node = Search::new().node.set(Setting::Focused).on(Event::Focus, Action::FocusSearch);
    let sb = Search { node }
        .on_change(Action::SetQuery)
        .placeholder("Start typing a song title/artist")
        .label("Search for track");
    let node = sb.node
        .on(Event::KeyDown(Key::Enter), Action::AddHighlighted)
        .on(Event::KeyDown(Key::ArrowDown), Action::NextTrack)
        .on(Event::KeyDown(Key::ArrowUp), Action::PrevTrack)
        .on(Event::KeyDown(Key::Space), Action::Search);
    Search { node }.value_signal(query).size("lg").node
}

/// The tile of a search result: its line, darker while it is highlighted;
/// the pointer highlights it, a click adds it.
pub open spec fn is_search_info(n: Node, t: Track, selected: Seq<char>) -> bool {
    &&& n.kind == Kind::Tile && n.tag is None && plain(n)
    &&& n.settings@ == seq![
        st(Style::WidthFill),
        st(Style::Padding(pad_all_right(15, 60))),
        st(Style::Background(if selected == t.track_id@ { hs(0, 0, 846) } else { hs(0, 0, 962) })),
        Setting::On(Event::Hover, Action::SelectTrack(t.track_id)),
        Setting::On(Event::Click, Action::AddTrack(t)),
    ]
    &&& n.children@.len() == 1
    &&& is_text(n.children@[0], t.format@)
}

/// The tile of the search result `t`, with `selected` the highlighted id.
pub fn search_info(t: &Track, selected: &String) -> (n: Node)
    ensures
        is_search_info(n, *t, selected@),
{
    let color = if *selected == t.track_id {
        Color::Hsluv { h: 0, s: 0, l: 846 }
    } else {
        Color::Hsluv { h: 0, s: 0, l: 962 }
    };
    let n = Node::new(Kind::Tile, None)
        .s(Style::WidthFill)
        .s(Style::Padding(Sides { top: Some(15), right: Some(60), bottom: Some(15), left: Some(15) }))
        .s(Style::Background(color))
        .on(Event::Hover, Action::SelectTrack(t.track_id.clone()))
        .on(Event::Click, Action::AddTrack(t.clone()))
        .child(Node::text(t.format.as_str()));
    proof {
        assert(n.settings@ =~= seq![
            st(Style::WidthFill),
            st(Style::Padding(pad_all_right(15, 60))),
            st(Style::Background(if selected@ == t.track_id@ { hs(0, 0, 846) } else { hs(0, 0, 962) })),
            Setting::On(Event::Hover, Action::SelectTrack(t.track_id)),
            Setting::On(Event::Click, Action::AddTrack(*t)),
        ]);
    }
    n
}

/// The row of a search result.
pub open spec fn is_search_result(n: Node, t: Track, selected: Seq<char>) -> bool {
    &&& n.kind == Kind::Row && n.tag is None && plain(n)
    &&& n.settings@.len() == 0
    &&& n.children@.len() == 1
    &&& is_search_info(n.children@[0], t, selected)
}

/// The row of a search result.
pub fn search_result(t: &Track, selected: &String) -> (n: Node)
    ensures
        is_search_result(n, *t, selected@),
{
    Node::new(Kind::Row, None).child(search_info(t, selected))
}

/// The list of the search results, one row each, in order.
pub open spec fn is_search_results(n: Node, results: Seq<Track>, selected: Seq<char>) -> bool {
    &&& is_column_with(n, Tag::Div)
    &&& n.settings@.len() == 1
    &&& n.children@.len() == results.len()
    &&& forall|i: int|
        0 <= i < results.len() ==> is_search_result(#[trigger] n.children@[i], results[i], selected)
}

/// The list of the search results.
pub fn search_results(client: &Client) -> (n: Node)
    ensures
        is_search_results(n, client.search.results@, client.search.selected@),
{
    let rs = &client.search.results;
    let mut rows: Vec<Node> = Vec::new();
    let mut i: usize = 0;
    while i < rs.len()
        invariant
            i <= rs@.len(),
            rows@.len() == i,
            forall|k: int|
                0 <= k < i ==> is_search_result(#[trigger] rows@[k], rs@[k], client.search.selected@),
        decreases rs@.len() - i,
    {
        rows.push(search_result(&rs[i], &client.search.selected));
        i = i + 1;
    }
    let n = Column::new().children_signal_vec(rows).node;
    proof {
        assert(n.children@ =~= rows@);
    }
    n
}

/// The search panel: the search box, then, where there are results, their
/// list.
pub open spec fn is_search_results_panel(n: Node, client: Client) -> bool {
    &&& is_column_with(n, Tag::Div)
    &&& n.settings@.len() == 1
    &&& is_search_track(n.children@[0], client.search.query@)
    &&& if client.search.results@.len() == 0 {
        n.children@.len() == 1
    } else {
        &&& n.children@.len() == 2
        &&& is_search_results(n.children@[1], client.search.results@, client.search.selected@)
    }
}

/// The search panel.
pub fn search_results_panel(client: &Client) -> (n: Node)
    ensures
        is_search_results_panel(n, *client),
{
    let list = if client.search.results.len() != 0 { Some(search_results(client)) } else { None };
    Column::new().child(search_track(client.search.query.as_str())).child_signal(list).node
}

// ------ Page ------

/// A row holding one element.
pub open spec fn is_row_of(n: Node, inner: spec_fn(Node) -> bool) -> bool {
    &&& n.kind == Kind::Row && n.tag is None && plain(n)
    &&& n.settings@.len() == 0
    &&& n.children@.len() == 1
    &&& inner(n.children@[0])
}

/// The two panels, one above the other: search, then playlist.
pub open spec fn is_panels(n: Node, client: Client, expired: bool) -> bool {
    &&& is_column_with(n, Tag::Div)
    &&& n.settings@.len() == 1
    &&& n.children@.len() == 2
    &&& is_row_of(n.children@[0], |c: Node| is_search_results_panel(c, client))
    &&& is_row_of(n.children@[1], |c: Node| is_playlist_panel(c, client, expired))
}

/// The two panels, given whether the user's token has expired.
pub fn panels(client: &Client, expired: bool) -> (n: Node)
    requires
        client.playlist.duration_readable(),
    ensures
        is_panels(n, *client, expired),
{
    Column::new()
        .child(Node::new(Kind::Row, None).child(search_results_panel(client)))
        .child(Node::new(Kind::Row, None).child(playlist_panel(client, expired)))
        .node
}

/// The page: header, panels and footer in a grid as wide as the window, up
/// to 640 pixels.
pub open spec fn is_root(n: Node, client: Client, expired: bool) -> bool {
    &&& n.kind == Kind::Grid && n.tag is None && plain(n)
    &&& n.settings@.len() == 2
    &&& n.settings@[0] == st(Style::WidthFill)
    &&& is_css(n.settings@[1], "max-width"@, "640px"@)
    &&& n.children@.len() == 3
    &&& is_row_of(n.children@[0], |c: Node| is_header(c))
    &&& is_row_of(n.children@[1], |c: Node| is_panels(c, client, expired))
    &&& is_footer(n.children@[2])
}

/// The page, given whether the user's token has expired.
pub fn root_with(client: &Client, expired: bool) -> (n: Node)
    requires
        client.playlist.duration_readable(),
    ensures
        is_root(n, *client, expired),
{
    Node::new(Kind::Grid, None)
        .s(Style::WidthFill)
        .css("max-width", "640px")
        .child(Node::new(Kind::Row, None).child(header()))
        .child(Node::new(Kind::Row, None).child(panels(client, expired)))
        .child(footer())
}

/// The page. Whether the user's token has expired is read from the clock,
/// which decides between the sign-in and the create button; the rest is the
/// same either way.
pub fn root(client: &Client) -> (n: Node)
    requires
        client.playlist.duration_readable(),
    ensures
        is_root(n, *client, true) || is_root(n, *client, false),
{
    let expired = token_is_expired(&client.auth_token);
    root_with(client, expired)
}

} // verus!
