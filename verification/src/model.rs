use vstd::prelude::*;

verus! {

/// A track of the playlist or of the search results.
#[derive(Debug)]
pub struct Track {
    /// The line shown for the track: title and artist.
    pub format: String,
    /// The Spotify URI of the track, `spotify:track:<id>`.
    pub track_id: String,
    pub title: String,
    pub artist: String,
    pub duration_sec: i64,
}

impl Clone for Track {
    fn clone(&self) -> (r: Self)
        ensures
            r == *self,
    {
        Track {
            format: self.format.clone(),
            track_id: self.track_id.clone(),
            title: self.title.clone(),
            artist: self.artist.clone(),
            duration_sec: self.duration_sec,
        }
    }
}

/// The authorisation page to open, with the state that the callback must echo.
#[derive(Debug)]
pub struct AuthData {
    pub url: String,
    pub state: String,
}

/// The URL that the authorisation page redirected back to, with the state
/// that the client expects in it.
#[derive(Debug)]
pub struct AuthResponseData {
    pub response_url: String,
    pub state: String,
}

impl Clone for AuthResponseData {
    fn clone(&self) -> (r: Self)
        ensures
            r == *self,
    {
        AuthResponseData { response_url: self.response_url.clone(), state: self.state.clone() }
    }
}

/// A message from the client to the backend.
#[derive(Debug)]
pub enum UpMsg {
    RequestToken,
    RequestAuthData,
    RequestAuthToken(AuthResponseData),
}

/// A message from the backend to the client.
#[derive(Debug)]
pub enum DownMsg {
    Token(rspotify::Token),
    AuthData(AuthData),
    AuthToken(rspotify::Token),
}

} // verus!
