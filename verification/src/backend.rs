//! The decisions of the backend that brokers Spotify tokens.
use vstd::prelude::*;
use crate::model::{AuthData, AuthResponseData};
use crate::text::contains_seq;
use crate::spotify::{
    all_ascii, authorize_prefix, authorize_url, form_encode, fresh_oauth_state, join_spaces,
    has_param, lemma_form_encode_alnum, lemma_param_contains, lemma_param_value_unique,
    lists_scopes, no_amp, starts_with, views, is_ascii_alnum, oauth_response_code, opt_view,
    parse_response_code, token_is_expired,
};

verus! {

/// What the backend does with the token that its client holds.
#[derive(Debug)]
pub enum TokenStep {
    /// Hand this token to the client.
    Ready(rspotify::Token),
    /// Refresh the token and look again.
    Refresh,
    /// The client holds no token: answer with an error.
    Fail,
}

/// The step for the token `token`, which has expired where `expired` holds:
/// a missing token fails, an expired one is refreshed, any other is handed
/// out.
pub fn token_step_with(token: Option<rspotify::Token>, expired: bool) -> (step: TokenStep)
    ensures
        token is None ==> step is Fail,
        token is Some && expired ==> step is Refresh,
        !expired ==> (token matches Some(t) ==> step == TokenStep::Ready(t)),
{
    match token {
        None => TokenStep::Fail,
        Some(t) => if expired {
            TokenStep::Refresh
        } else {
            TokenStep::Ready(t)
        },
    }
}

/// The step for the token that the backend's client holds; whether it has
/// expired is read from the clock, so only what holds either way is stated.
pub fn token_step(token: Option<rspotify::Token>) -> (step: TokenStep)
    ensures
        token is None ==> step is Fail,
        token matches Some(t) ==> step is Refresh || step == TokenStep::Ready(t),
{
    let expired = match &token {
        Some(t) => token_is_expired(t),
        None => false,
    };
    token_step_with(token, expired)
}

/// The authorisation code in the callback URL, accepted only with the state
/// that the client expected; `None` where rspotify finds none.
pub fn auth_response_code(data: &AuthResponseData) -> (code: Option<String>)
    ensures
        opt_view(code) == oauth_response_code(data.response_url@, data.state@),
{
    parse_response_code(data.response_url.as_str(), data.state.as_str())
}

/// The address that Spotify sends the user back to after authorisation.
pub fn redirect_uri() -> (uri: String)
    ensures
        uri@ == "http://192.168.1.2:8080"@,
{
    String::from_str("http://192.168.1.2:8080")
}

/// The scopes asked for when the authorisation page is built: to change
/// and to read the user's private playlists.
pub fn auth_data_scopes() -> (scopes: Vec<String>)
    ensures
        scopes@.len() == 2,
        scopes@[0]@ == "playlist-modify-private"@,
        scopes@[1]@ == "playlist-read-private"@,
{
    vec![String::from_str("playlist-modify-private"), String::from_str("playlist-read-private")]
}

/// The scopes asked for when the user's token is requested: to change the
/// user's private playlists.
pub fn auth_token_scopes() -> (scopes: Vec<String>)
    ensures
        scopes@.len() == 1,
        scopes@[0]@ == "playlist-modify-private"@,
{
    vec![String::from_str("playlist-modify-private")]
}

/// The state that a callback must echo is the one the authorisation URL
/// carries: any value of the URL's `state` parameter without an `&` is the
/// state handed back with it.
pub proof fn lemma_auth_url_state_exact(d: AuthData, v: Seq<char>)
    requires
        forall|i: int| 0 <= i < d.state@.len() ==> is_ascii_alnum(#[trigger] d.state@[i]),
        has_param(d.url@, "state"@, d.state@),
        has_param(d.url@, "state"@, v),
        no_amp(v),
    ensures
        v == d.state@,
{
    assert forall|i: int| 0 <= i < d.state@.len() implies d.state@[i] != '&' by {
        assert(is_ascii_alnum(d.state@[i]));
    }
    lemma_param_value_unique(d.url@, "state"@, d.state@, v);
}

/// The authorisation page for the client `client_id`, with a fresh random
/// state that the callback must echo. The URL asks for `auth_data_scopes`,
/// leads back to `redirect_uri` and carries the state.
pub fn request_auth_data(client_id: &str) -> (data: Option<AuthData>)
    ensures
        data is Some,
        data matches Some(d) ==> {
            &&& d.state@.len() == 16
            &&& forall|i: int| 0 <= i < 16 ==> is_ascii_alnum(#[trigger] d.state@[i])
            &&& starts_with(d.url@, authorize_prefix())
            &&& contains_seq(d.url@, "state="@ + d.state@)
            &&& contains_seq(d.url@, "response_type=code"@)
            &&& all_ascii(client_id@) ==> contains_seq(d.url@, "client_id="@ + form_encode(client_id@))
            &&& contains_seq(d.url@, "redirect_uri="@ + form_encode("http://192.168.1.2:8080"@))
            &&& exists|order: Seq<Seq<char>>|
                lists_scopes(order, seq!["playlist-modify-private"@, "playlist-read-private"@])
                    && contains_seq(d.url@, "scope="@ + form_encode(join_spaces(order)))
            &&& has_param(d.url@, "state"@, d.state@)
            &&& has_param(d.url@, "response_type"@, "code"@)
            &&& all_ascii(client_id@) ==> has_param(d.url@, "client_id"@, form_encode(client_id@))
            &&& has_param(d.url@, "redirect_uri"@, form_encode("http://192.168.1.2:8080"@))
            &&& exists|order: Seq<Seq<char>>|
                lists_scopes(order, seq!["playlist-modify-private"@, "playlist-read-private"@])
                    && has_param(d.url@, "scope"@, form_encode(join_spaces(order)))
        },
{
    let state = fresh_oauth_state();
    let scopes = auth_data_scopes();
    let redirect = redirect_uri();
    let ghost scope_views = seq!["playlist-modify-private"@, "playlist-read-private"@];
    proof {
        lemma_form_encode_alnum(state@);
        assert(views(scopes@) =~= scope_views);
        reveal_strlit("http://192.168.1.2:8080");
        reveal_strlit("playlist-modify-private");
        reveal_strlit("playlist-read-private");
        assert(all_ascii(redirect@));
        assert(all_ascii(scope_views[0]));
        assert(all_ascii(scope_views[1]));
        assert forall|i: int| 0 <= i < scope_views.len() implies all_ascii(#[trigger] scope_views[i]) by {}
    }
    match authorize_url(client_id, redirect.as_str(), &scopes, state.as_str()) {
        Some(url) => {
            proof {
                let u = url@;
                reveal_strlit("state=");
                reveal_strlit("state");
                reveal_strlit("response_type=code");
                reveal_strlit("response_type");
                reveal_strlit("code");
                reveal_strlit("client_id=");
                reveal_strlit("client_id");
                reveal_strlit("redirect_uri=");
                reveal_strlit("redirect_uri");
                reveal_strlit("scope=");
                reveal_strlit("scope");
                lemma_param_contains(u, "state"@, state@);
                assert("state"@ + seq!['='] + state@ =~= "state="@ + state@);
                lemma_param_contains(u, "response_type"@, "code"@);
                assert("response_type"@ + seq!['='] + "code"@ =~= "response_type=code"@);
                if all_ascii(client_id@) {
                    lemma_param_contains(u, "client_id"@, form_encode(client_id@));
                    assert("client_id"@ + seq!['='] + form_encode(client_id@) =~= "client_id="@
                        + form_encode(client_id@));
                }
                lemma_param_contains(u, "redirect_uri"@, form_encode(redirect@));
                assert("redirect_uri"@ + seq!['='] + form_encode(redirect@) =~= "redirect_uri="@
                    + form_encode(redirect@));
                let order = choose|order: Seq<Seq<char>>|
                    lists_scopes(order, views(scopes@)) && has_param(
                        u,
                        "scope"@,
                        form_encode(join_spaces(order)),
                    );
                lemma_param_contains(u, "scope"@, form_encode(join_spaces(order)));
                assert("scope"@ + seq!['='] + form_encode(join_spaces(order)) =~= "scope="@
                    + form_encode(join_spaces(order)));
            }
            Some(AuthData { url, state })
        },
        None => None,
    }
}

} // verus!
