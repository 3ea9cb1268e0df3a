//! The state of the client and what it does on each event: commands of the
//! user, replies of the backend, a change of URL.
use vstd::prelude::*;
use crate::model::{AuthResponseData, DownMsg, Track, UpMsg};
use crate::playlist::{fits_i64, total_duration, with_id, without_id, Playlist};
use crate::search::{has_match, is_first_match, is_track_of, lemma_first_match_unique, Search, TrackHit};
use crate::spotify::{is_track_uri, token_is_expired, track_uri_is_valid};
use crate::text::trim;

verus! {

/// The prefix of every key that the client uses in local storage.
pub open spec fn storage_prefix() -> Seq<char> {
    "quicklist-spotify"@
}

/// The local-storage key of the named item: the prefix, a dash, the name.
pub open spec fn storage_key_of(name: Seq<char>) -> Seq<char> {
    storage_prefix() + seq!['-'] + name
}

/// The key under which the tracks of the playlist are stored.
pub fn tracks_key() -> (key: String)
    ensures
        key@ == storage_prefix(),
{
    String::from_str("quicklist-spotify")
}

/// The local-storage key of the named item.
pub fn storage_key(name: &str) -> (key: String)
    ensures
        key@ == storage_key_of(name@),
{
    let mut key = String::from_str("quicklist-spotify");
    proof { reveal_strlit("-"); }
    key.append("-");
    key.append(name);
    proof { assert(key@ =~= storage_key_of(name@)); }
    key
}

/// What is written to local storage.
#[derive(Debug, Clone, Copy, PartialEq, Eq)]
pub enum Stored {
    /// The tracks of the playlist.
    Tracks,
    /// The token of the signed-in user.
    AuthToken,
    /// The state of the pending authorisation.
    AuthState,
    /// The name given to the playlist.
    PlaylistName,
}

/// A request to create a playlist on Spotify and fill it.
#[derive(Debug)]
pub struct PlaylistRequest {
    pub name: String,
    pub public: bool,
    pub collaborative: bool,
    pub description: String,
    /// The URIs of the tracks to add, in playlist order.
    pub track_uris: Vec<String>,
}

/// Work that the client hands to its surroundings.
#[derive(Debug)]
pub enum Effect {
    /// Write the item to local storage under `key`.
    Store { key: String, item: Stored },
    /// Send a message to the backend.
    Send(UpMsg),
    /// Leave for another page.
    Navigate(String),
    /// Replace the current route without a new history entry.
    ReplaceRoute(String),
    /// Build a new search client from the current token.
    RebuildClient,
    /// Build a new user client from the current user token.
    RebuildAuthClient,
    /// Ask Spotify for up to five tracks matching the query.
    Search(String),
    /// Create and fill a playlist.
    CreatePlaylist(PlaylistRequest),
}

/// The description given to playlists created by the client.
pub open spec fn playlist_description() -> Seq<char> {
    "Playlist created by QuickList"@
}

/// The characters of `code`.
pub open spec fn code_word() -> Seq<char> {
    "code"@
}

/// The track that adding picks: the one given, or else the first search
/// result with the highlighted id.
pub open spec fn chosen_track(results: Seq<Track>, selected: Seq<char>, track: Option<Track>) -> Track {
    match track {
        Some(t) => t,
        None => results[choose|i: int| is_first_match(results, selected, i)],
    }
}

/// The state of the client.
pub struct Client {
    pub playlist: Playlist,
    pub search: Search,
    pub playlist_name: String,
    /// The playlist has been created on Spotify.
    pub playlist_created: bool,
    pub login_error: Option<String>,
    /// The token used for searching.
    pub token: rspotify::Token,
    /// The token of the signed-in user, used to create playlists.
    pub auth_token: rspotify::Token,
    /// The authorisation page.
    pub auth_url: String,
    /// The state that the authorisation callback must echo.
    pub auth_state: String,
    /// The URL that the authorisation page redirected back to.
    pub response_url: String,
}

/// The effects of a search on the query `query`: a token refresh first
/// where the token has expired, then a search for the trimmed query where
/// anything is left of it.
pub open spec fn is_search_plan(effects: Seq<Effect>, expired: bool, query: Seq<char>) -> bool {
    let has_query = trim(query).len() > 0;
    &&& effects.len() == (if expired { 1int } else { 0int }) + (if has_query { 1int } else { 0int })
    &&& expired ==> effects[0] == Effect::Send(UpMsg::RequestToken)
    &&& has_query ==> (effects.last() matches Effect::Search(q) && q@ == trim(query))
}

/// `a` and `b` agree on the tokens, the sign-in error and the
/// authorisation data.
pub open spec fn same_auth(a: Client, b: Client) -> bool {
    &&& a.login_error == b.login_error
    &&& a.token == b.token
    &&& a.auth_token == b.auth_token
    &&& a.auth_url == b.auth_url
    &&& a.auth_state == b.auth_state
    &&& a.response_url == b.response_url
}

/// `a` and `b` agree on everything but the playlist's tracks and duration
/// and the search box.
pub open spec fn same_session(a: Client, b: Client) -> bool {
    &&& a.playlist_name == b.playlist_name
    &&& a.playlist_created == b.playlist_created
    &&& a.login_error == b.login_error
    &&& a.token == b.token
    &&& a.auth_token == b.auth_token
    &&& a.auth_url == b.auth_url
    &&& a.auth_state == b.auth_state
    &&& a.response_url == b.response_url
}

impl Client {
    /// A client with an empty playlist and search, the given tokens, the
    /// stored authorisation state and the stored playlist name.
    pub fn new(
        token: rspotify::Token,
        auth_token: rspotify::Token,
        auth_state: String,
        playlist_name: String,
    ) -> (c: Client)
        ensures
            c.playlist.tracks@.len() == 0,
            c.playlist.duration is None,
            c.search.query@.len() == 0,
            c.search.results@.len() == 0,
            c.search.selected@.len() == 0,
            c.playlist_name == playlist_name,
            !c.playlist_created,
            c.login_error is None,
            c.token == token,
            c.auth_token == auth_token,
            c.auth_url@.len() == 0,
            c.auth_state == auth_state,
            c.response_url@.len() == 0,
    {
        Client {
            playlist: Playlist::new(),
            search: Search::new(),
            playlist_name,
            playlist_created: false,
            login_error: None,
            token,
            auth_token,
            auth_url: String::new(),
            auth_state,
            response_url: String::new(),
        }
    }

    /// The tracks read from storage, where some were: they become the
    /// playlist's tracks, and its duration stays as it was.
    pub fn load_tracks(&mut self, stored: Option<Vec<Track>>)
        ensures
            stored matches Some(ts) ==> final(self).playlist.tracks@ == ts@,
            final(self).playlist.duration == old(self).playlist.duration,
            stored is None ==> final(self).playlist == old(self).playlist,
            final(self).search == old(self).search,
            same_session(*final(self), *old(self)),
    {
        match stored {
            Some(ts) => self.replace_tracks(ts),
            None => {},
        }
    }

    /// The id of the highlighted search result.
    pub fn selected_track(&self) -> (id: &String)
        ensures
            *id == self.search.selected,
    {
        &self.search.selected
    }

    /// The URL that the authorisation page redirected back to.
    pub fn response_url(&self) -> (url: &String)
        ensures
            *url == self.response_url,
    {
        &self.response_url
    }

    /// Replaces the tracks of the playlist, as when they are loaded from
    /// storage; the duration stays as it was.
    pub fn replace_tracks(&mut self, tracks: Vec<Track>)
        ensures
            final(self).playlist.tracks@ == tracks@,
            final(self).playlist.duration == old(self).playlist.duration,
            final(self).search == old(self).search,
            same_session(*final(self), *old(self)),
    {
        self.playlist.replace_tracks(tracks);
    }

    /// Reads the playlist's duration, working it out from the tracks where
    /// this is the first read; it is kept from then on.
    pub fn playlist_duration(&mut self) -> (d: i64)
        requires
            old(self).playlist.duration_readable(),
        ensures
            d == old(self).playlist.duration_of(),
            final(self).playlist.duration == Some(d),
            final(self).playlist.tracks@ == old(self).playlist.tracks@,
            final(self).search == old(self).search,
            same_session(*final(self), *old(self)),
    {
        self.playlist.playlist_duration()
    }

    /// Whether the playlist's duration can be read.
    pub fn duration_readable(&self) -> (ok: bool)
        ensures
            ok == self.playlist.duration_readable(),
    {
        match self.playlist.duration {
            Some(_) => true,
            None => crate::playlist::sum_durations(&self.playlist.tracks).is_some(),
        }
    }

    /// Adding is allowed: with search results shown, the track to add is
    /// known and the total duration stays within an `i64`.
    pub open spec fn can_add_track(&self, track: Option<Track>) -> bool {
        self.search.results@.len() > 0 ==> {
            &&& (track is Some || has_match(self.search.results@, self.search.selected@))
            &&& self.playlist.duration_readable()
            &&& fits_i64(
                self.playlist.duration_of() + chosen_track(
                    self.search.results@,
                    self.search.selected@,
                    track,
                ).duration_sec,
            )
        }
    }

    /// Whether `add_track` may be called with `track`.
    pub fn add_track_allowed(&self, track: &Option<Track>) -> (ok: bool)
        ensures
            ok == self.can_add_track(*track),
    {
        let n = self.search.results.len();
        if n == 0 {
            return true;
        }
        let d: i64 = match track {
            Some(t) => t.duration_sec,
            None => {
                match self.find_selected() {
                    Some(i) => self.search.results[i].duration_sec,
                    None => { return false; },
                }
            },
        };
        if !self.duration_readable() {
            return false;
        }
        let sum: i128 = self.playlist.current_duration() as i128 + d as i128;
        i64::MIN as i128 <= sum && sum <= i64::MAX as i128
    }

    fn find_selected(&self) -> (i: Option<usize>)
        ensures
            i matches Some(i) ==> is_first_match(self.search.results@, self.search.selected@, i as int)
                && (choose|k: int| is_first_match(self.search.results@, self.search.selected@, k)) == i,
            i is None <==> !has_match(self.search.results@, self.search.selected@),
    {
        let n = self.search.results.len();
        let mut i: usize = 0;
        while i < n
            invariant
                n == self.search.results@.len(),
                i <= n,
                forall|j: int|
                    0 <= j < i ==> (#[trigger] self.search.results@[j]).track_id@
                        != self.search.selected@,
            decreases n - i,
        {
            if self.search.results[i].track_id == self.search.selected {
                proof {
                    lemma_first_match_unique(self.search.results@, self.search.selected@, i as int);
                }
                return Some(i);
            }
            i = i + 1;
        }
        None
    }

    /// Adds a track to the playlist where search results are shown: the
    /// given one, or else the highlighted result. The track joins the end of
    /// the playlist, its duration is added, the playlist is stored, and the
    /// results and the search box are cleared. Without results nothing
    /// changes.
    pub fn add_track(&mut self, track: Option<Track>) -> (effects: Vec<Effect>)
        requires
            old(self).can_add_track(track),
        ensures
            old(self).search.results@.len() == 0 ==> {
                &&& final(self).playlist == old(self).playlist
                &&& final(self).search == old(self).search
                &&& effects@.len() == 0
            },
            old(self).search.results@.len() > 0 ==> {
                let t = chosen_track(old(self).search.results@, old(self).search.selected@, track);
                &&& final(self).playlist.tracks@ == old(self).playlist.tracks@.push(t)
                &&& final(self).playlist.duration == Some(
                    (old(self).playlist.duration_of() + t.duration_sec) as i64,
                )
                &&& final(self).search.results@.len() == 0
                &&& final(self).search.query@.len() == 0
                &&& final(self).search.selected == old(self).search.selected
                &&& effects@.len() == 1
                &&& effects@[0] matches Effect::Store { key, item }
                &&& key@ == storage_prefix() && item == Stored::Tracks
            },
            old(self).playlist.duration_is_total() ==> final(self).playlist.duration_is_total(),
            same_session(*final(self), *old(self)),
    {
        if self.search.results.len() == 0 {
            return Vec::new();
        }
        let t = match track {
            Some(t) => t,
            None => {
                let i = self.find_selected().unwrap();
                self.search.results[i].clone()
            },
        };
        self.playlist.push_track(t);
        self.search.results = Vec::new();
        self.search.query = String::new();
        vec![Effect::Store { key: tracks_key(), item: Stored::Tracks }]
    }

    /// Removing `id` is allowed: where a track has that id, the duration
    /// can be read and stays within an `i64` once theirs is taken off.
    pub open spec fn can_remove_track(&self, id: Seq<char>) -> bool {
        with_id(self.playlist.tracks@, id).len() > 0 ==> self.playlist.duration_readable()
            && fits_i64(
            self.playlist.duration_of() - total_duration(with_id(self.playlist.tracks@, id)),
        )
    }

    /// Removes every playlist track with the given id, takes their
    /// durations off the playlist's, and stores the playlist. Where no track
    /// has the id, the duration is left as it was.
    pub fn remove_track(&mut self, id: &str) -> (effects: Vec<Effect>)
        requires
            old(self).can_remove_track(id@),
        ensures
            final(self).playlist.tracks@ == without_id(old(self).playlist.tracks@, id@),
            with_id(old(self).playlist.tracks@, id@).len() > 0 ==> final(self).playlist.duration
                == Some(
                (old(self).playlist.duration_of() - total_duration(
                    with_id(old(self).playlist.tracks@, id@),
                )) as i64,
            ),
            with_id(old(self).playlist.tracks@, id@).len() == 0 ==> final(self).playlist.duration
                == old(self).playlist.duration,
            old(self).playlist.duration_is_total() ==> final(self).playlist.duration_is_total(),
            final(self).search == old(self).search,
            same_session(*final(self), *old(self)),
            effects@.len() == 1,
            effects@[0] matches Effect::Store { key, item } && key@ == storage_prefix() && item
                == Stored::Tracks,
    {
        self.playlist.remove_track(id);
        vec![Effect::Store { key: tracks_key(), item: Stored::Tracks }]
    }

    /// The search to run now: a token refresh first where the search token
    /// has expired, then the query where one is left after trimming; with
    /// nothing left the results are cleared. Whether the token has expired
    /// is `expired`.
    pub fn search_with(&mut self, expired: bool) -> (effects: Vec<Effect>)
        ensures
            final(self).playlist == old(self).playlist,
            same_session(*final(self), *old(self)),
            final(self).search.query == old(self).search.query,
            final(self).search.selected == old(self).search.selected,
            trim(old(self).search.query@).len() == 0 ==> final(self).search.results@.len() == 0,
            trim(old(self).search.query@).len() > 0 ==> final(self).search.results@
                == old(self).search.results@,
            is_search_plan(effects@, expired, old(self).search.query@),
    {
        let mut effects: Vec<Effect> = Vec::new();
        if expired {
            effects.push(Effect::Send(UpMsg::RequestToken));
        }
        match self.search.begin_search() {
            Some(q) => effects.push(Effect::Search(q)),
            None => {},
        }
        effects
    }

    /// The search to run now, refreshing the token first where it has
    /// expired; the clock decides that, so only what holds either way is
    /// stated here (see `search_with`).
    pub fn search(&mut self) -> (effects: Vec<Effect>)
        ensures
            final(self).playlist == old(self).playlist,
            same_session(*final(self), *old(self)),
            final(self).search.query == old(self).search.query,
            final(self).search.selected == old(self).search.selected,
            trim(old(self).search.query@).len() == 0 ==> final(self).search.results@.len() == 0,
            trim(old(self).search.query@).len() > 0 ==> final(self).search.results@
                == old(self).search.results@,
            is_search_plan(effects@, true, old(self).search.query@) || is_search_plan(
                effects@,
                false,
                old(self).search.query@,
            ),
    {
        let expired = token_is_expired(&self.token);
        self.search_with(expired)
    }

    /// The search box took the focus: a token refresh where the search
    /// token has expired, as `expired` says.
    pub fn focus_search_with(&self, expired: bool) -> (effects: Vec<Effect>)
        ensures
            expired ==> effects@ == seq![Effect::Send(UpMsg::RequestToken)],
            !expired ==> effects@.len() == 0,
    {
        if expired {
            vec![Effect::Send(UpMsg::RequestToken)]
        } else {
            Vec::new()
        }
    }

    /// The search box took the focus: a token refresh where the search
    /// token has expired by the clock, and nothing else.
    pub fn focus_search(&self) -> (effects: Vec<Effect>)
        ensures
            effects@ == seq![Effect::Send(UpMsg::RequestToken)] || effects@.len() == 0,
    {
        let expired = token_is_expired(&self.token);
        self.focus_search_with(expired)
    }

    /// Whether `remove_track` may be called with `id`.
    pub fn remove_track_allowed(&self, id: &str) -> (ok: bool)
        ensures
            ok == self.can_remove_track(id@),
    {
        let target = String::from_str(id);
        let ts = &self.playlist.tracks;
        let n = ts.len();
        let mut removed: i128 = 0;
        let mut count: usize = 0;
        let mut i: usize = 0;
        while i < n
            invariant
                n == ts@.len(),
                target@ == id@,
                i <= n,
                count <= i,
                count == with_id(ts@.take(i as int), id@).len(),
                removed == total_duration(with_id(ts@.take(i as int), id@)),
                count * i64::MIN <= removed <= count * i64::MAX,
            decreases n - i,
        {
            proof {
                assert(ts@.take(i + 1).drop_last() =~= ts@.take(i as int));
                assert(ts@.take(i + 1).last() == ts@[i as int]);
                assert(i < u64::MAX);
            }
            if ts[i].track_id == target {
                proof {
                    crate::playlist::lemma_total_push(with_id(ts@.take(i as int), id@), ts@[i as int]);
                }
                removed = removed + ts[i].duration_sec as i128;
                count = count + 1;
            }
            i = i + 1;
        }
        proof { assert(ts@.take(n as int) =~= ts@); }
        if count == 0 {
            return true;
        }
        if !self.duration_readable() {
            return false;
        }
        let left: i128 = self.playlist.current_duration() as i128 - removed;
        i64::MIN as i128 <= left && left <= i64::MAX as i128
    }

    /// Shows what a search returned and highlights its first track.
    pub fn search_results_arrived(&mut self, hits: Vec<TrackHit>)
        ensures
            final(self).playlist == old(self).playlist,
            same_session(*final(self), *old(self)),
            final(self).search.query == old(self).search.query,
            final(self).search.results@.len() == hits@.len(),
            forall|i: int|
                0 <= i < hits@.len() ==> is_track_of(
                    #[trigger] final(self).search.results@[i],
                    hits@[i],
                ),
            hits@.len() > 0 ==> final(self).search.selected@ == hits@[0].uri@,
            hits@.len() > 0 ==> has_match(final(self).search.results@, final(self).search.selected@),
            hits@.len() == 0 ==> final(self).search.selected == old(self).search.selected,
    {
        self.search.set_results(hits);
    }

    /// The message that asks the backend for a fresh search token.
    pub fn refresh_token(&self) -> (effect: Effect)
        ensures
            effect == Effect::Send(UpMsg::RequestToken),
    {
        Effect::Send(UpMsg::RequestToken)
    }

    /// The message that starts signing in: the backend answers with the
    /// authorisation page.
    pub fn login(&self) -> (effect: Effect)
        ensures
            effect == Effect::Send(UpMsg::RequestAuthData),
    {
        Effect::Send(UpMsg::RequestAuthData)
    }

    /// The callback URL with the state that the client expects in it.
    pub fn auth_data(&self) -> (data: AuthResponseData)
        ensures
            data.response_url == self.response_url,
            data.state == self.auth_state,
    {
        AuthResponseData { response_url: self.response_url.clone(), state: self.auth_state.clone() }
    }

    /// The message that asks the backend for the user's token.
    pub fn authorize_client(&self) -> (effect: Effect)
        ensures
            effect == Effect::Send(UpMsg::RequestAuthToken(AuthResponseData {
                response_url: self.response_url,
                state: self.auth_state,
            })),
    {
        Effect::Send(UpMsg::RequestAuthToken(self.auth_data()))
    }

    /// A reply of the backend. A search token replaces the current one and
    /// the search client is rebuilt. A user token replaces the current one,
    /// the user client is rebuilt and the token is stored. Authorisation data
    /// sets the page and the state, stores the state and leaves for the page.
    pub fn handle_down_msg(&mut self, msg: DownMsg) -> (effects: Vec<Effect>)
        ensures
            final(self).playlist == old(self).playlist,
            final(self).search == old(self).search,
            final(self).playlist_name == old(self).playlist_name,
            final(self).playlist_created == old(self).playlist_created,
            final(self).login_error == old(self).login_error,
            final(self).response_url == old(self).response_url,
            match msg {
                DownMsg::Token(t) => {
                    &&& final(self).token == t
                    &&& final(self).auth_token == old(self).auth_token
                    &&& final(self).auth_url == old(self).auth_url
                    &&& final(self).auth_state == old(self).auth_state
                    &&& effects@ == seq![Effect::RebuildClient]
                },
                DownMsg::AuthToken(t) => {
                    &&& final(self).auth_token == t
                    &&& final(self).token == old(self).token
                    &&& final(self).auth_url == old(self).auth_url
                    &&& final(self).auth_state == old(self).auth_state
                    &&& effects@.len() == 2
                    &&& effects@[0] == Effect::RebuildAuthClient
                    &&& effects@[1] matches Effect::Store { key, item }
                    &&& key@ == storage_key_of("auth-token"@) && item == Stored::AuthToken
                },
                DownMsg::AuthData(data) => {
                    &&& final(self).auth_url == data.url
                    &&& final(self).auth_state == data.state
                    &&& final(self).token == old(self).token
                    &&& final(self).auth_token == old(self).auth_token
                    &&& effects@.len() == 2
                    &&& effects@[0] matches Effect::Store { key, item }
                    &&& key@ == storage_key_of("state"@) && item == Stored::AuthState
                    &&& effects@[1] == Effect::Navigate(data.url)
                },
            },
    {
        match msg {
            DownMsg::Token(t) => {
                self.token = t;
                vec![Effect::RebuildClient]
            },
            DownMsg::AuthToken(t) => {
                self.auth_token = t;
                let key = storage_key("auth-token");
                vec![Effect::RebuildAuthClient, Effect::Store { key, item: Stored::AuthToken }]
            },
            DownMsg::AuthData(data) => {
                self.auth_url = data.url;
                self.auth_state = data.state;
                let key = storage_key("state");
                vec![
                    Effect::Store { key, item: Stored::AuthState },
                    Effect::Navigate(self.auth_url.clone()),
                ]
            },
        }
    }

    /// Renames the playlist.
    pub fn set_playlist_name(&mut self, name: String)
        ensures
            final(self).playlist_name == name,
            final(self).playlist == old(self).playlist,
            final(self).search == old(self).search,
            final(self).playlist_created == old(self).playlist_created,
            same_auth(*final(self), *old(self)),
    {
        self.playlist_name = name;
    }

    /// Stores the name of the playlist.
    pub fn store_playlist_name(&self) -> (effect: Effect)
        ensures
            effect matches Effect::Store { key, item } && key@ == storage_key_of(
                "playlist-name"@,
            ) && item == Stored::PlaylistName,
    {
        Effect::Store { key: storage_key("playlist-name"), item: Stored::PlaylistName }
    }

    /// Restores the stored name of the playlist, where one was read.
    pub fn reload_playlist_name(&mut self, stored: Option<String>)
        ensures
            stored matches Some(n) ==> final(self).playlist_name == n,
            stored is None ==> final(self).playlist_name == old(self).playlist_name,
            final(self).playlist == old(self).playlist,
            final(self).search == old(self).search,
            final(self).playlist_created == old(self).playlist_created,
            same_auth(*final(self), *old(self)),
    {
        match stored {
            Some(n) => { self.playlist_name = n; },
            None => {},
        }
    }

    /// The request that creates the playlist on Spotify: the playlist's
    /// name, private, not collaborative, with the client's description, and
    /// its tracks in order. `None` where a track's id is not a track URI.
    pub fn create_playlist(&self) -> (request: Option<PlaylistRequest>)
        ensures
            request is Some <==> forall|i: int|
                0 <= i < self.playlist.tracks@.len() ==> is_track_uri(
                    (#[trigger] self.playlist.tracks@[i]).track_id@,
                ),
            request matches Some(r) ==> self.is_playlist_request(r),
    {
        let n = self.playlist.tracks.len();
        let mut uris: Vec<String> = Vec::new();
        let mut i: usize = 0;
        while i < n
            invariant
                n == self.playlist.tracks@.len(),
                i <= n,
                uris@.len() == i,
                forall|k: int| 0 <= k < i ==> (#[trigger] uris@[k]) == self.playlist.tracks@[k].track_id,
                forall|k: int|
                    0 <= k < i ==> is_track_uri((#[trigger] self.playlist.tracks@[k]).track_id@),
            decreases n - i,
        {
            if !track_uri_is_valid(self.playlist.tracks[i].track_id.as_str()) {
                return None;
            }
            uris.push(self.playlist.tracks[i].track_id.clone());
            i = i + 1;
        }
        proof { reveal_strlit("Playlist created by QuickList"); }
        Some(
            PlaylistRequest {
                name: self.playlist_name.clone(),
                public: false,
                collaborative: false,
                description: String::from_str("Playlist created by QuickList"),
                track_uris: uris,
            },
        )
    }

    /// The create button was pressed: the playlist is created unless that
    /// has been done already.
    pub fn press_create(&self) -> (effect: Option<Effect>)
        ensures
            self.playlist_created ==> effect is None,
            !self.playlist_created ==> (effect is Some <==> self.create_playlist_allowed()),
            effect matches Some(e) ==> e matches Effect::CreatePlaylist(r) && self.is_playlist_request(
                r,
            ),
    {
        if self.playlist_created {
            None
        } else {
            match self.create_playlist() {
                Some(r) => Some(Effect::CreatePlaylist(r)),
                None => None,
            }
        }
    }

    /// `r` creates this client's playlist: its name, private, not
    /// collaborative, with the client's description, and the ids of its
    /// tracks in order.
    pub open spec fn is_playlist_request(&self, r: PlaylistRequest) -> bool {
        &&& r.name == self.playlist_name
        &&& !r.public
        &&& !r.collaborative
        &&& r.description@ == playlist_description()
        &&& r.track_uris@.len() == self.playlist.tracks@.len()
        &&& forall|i: int|
            0 <= i < r.track_uris@.len() ==> (#[trigger] r.track_uris@[i])
                == self.playlist.tracks@[i].track_id
    }

    /// Every track of the playlist has a track URI.
    pub open spec fn create_playlist_allowed(&self) -> bool {
        forall|i: int|
            0 <= i < self.playlist.tracks@.len() ==> is_track_uri(
                (#[trigger] self.playlist.tracks@[i]).track_id@,
            )
    }

    /// Spotify created and filled the playlist.
    pub fn playlist_created_ok(&mut self)
        ensures
            final(self).playlist_created,
            final(self).playlist == old(self).playlist,
            final(self).search == old(self).search,
            final(self).playlist_name == old(self).playlist_name,
            same_auth(*final(self), *old(self)),
    {
        self.playlist_created = true;
    }

    /// Whether the user's token has expired, by the clock; nothing is stated
    /// of the answer.
    pub fn auth_token_expired(&self) -> bool {
        token_is_expired(&self.auth_token)
    }
}

} // verus!
