//! What the library takes from rspotify.
use rspotify::prelude::OAuthClient;
use vstd::prelude::*;

verus! {

/// rspotify's access token; the library carries it and never looks inside.
#[verifier::external_type_specification]
#[verifier::external_body]
pub struct ExToken(rspotify::Token);

/// Calls `rspotify::Token::is_expired`, which compares the token's expiry,
/// less ten seconds, with the current time. The answer depends on the clock,
/// so nothing is stated of it.
#[verifier::external_body]
pub(crate) fn token_is_expired(token: &rspotify::Token) -> bool {
    token.is_expired()
}

/// An ASCII letter or digit.
pub open spec fn is_ascii_alnum(c: char) -> bool {
    ('0' <= c && c <= '9') || ('a' <= c && c <= 'z') || ('A' <= c && c <= 'Z')
}

/// The characters of `spotify`.
pub open spec fn spotify_word() -> Seq<char> {
    seq!['s', 'p', 'o', 't', 'i', 'f', 'y']
}

/// The characters of `track`.
pub open spec fn track_word() -> Seq<char> {
    seq!['t', 'r', 'a', 'c', 'k']
}

/// A URI that rspotify reads as a track id: `spotify:track:<id>` or
/// `spotify/track/<id>`, with an id of ASCII letters and digits only.
pub open spec fn is_track_uri(uri: Seq<char>) -> bool {
    &&& uri.len() >= 14
    &&& uri.subrange(0, 7) == spotify_word()
    &&& (uri[7] == ':' || uri[7] == '/')
    &&& uri.subrange(8, 13) == track_word()
    &&& uri[13] == uri[7]
    &&& forall|i: int| 14 <= i < uri.len() ==> is_ascii_alnum(#[trigger] uri[i])
}

/// Calls `rspotify::model::TrackId::from_uri` and tells whether it accepted
/// the URI. The contract restates the parser of rspotify 0.12: the prefix
/// `spotify`, a separator `:` or `/`, the type `track`, the same separator
/// again, and an id whose characters are all ASCII alphanumeric.
#[verifier::external_body]
pub(crate) fn track_uri_is_valid(uri: &str) -> (valid: bool)
    ensures
        valid == is_track_uri(uri@),
{
    rspotify::model::TrackId::from_uri(uri).is_ok()
}

/// The authorisation code that rspotify's `OAuthClient::parse_response_code`
/// finds in a callback URL when the client expects the given state.
pub uninterp spec fn oauth_response_code(url: Seq<char>, state: Seq<char>) -> Option<Seq<char>>;

/// The view of an optional string.
pub open spec fn opt_view(s: Option<String>) -> Option<Seq<char>> {
    match s {
        Some(v) => Some(v@),
        None => None,
    }
}

/// Calls `OAuthClient::parse_response_code` on an authorisation-code client
/// whose OAuth state is `state`. rspotify parses `url`, takes its `code` query
/// parameter and returns it only when the `state` parameter equals `state`.
/// The result is a function of the two strings, named `oauth_response_code`;
/// URL parsing and percent-decoding are not restated.
#[verifier::external_body]
pub(crate) fn parse_response_code(url: &str, state: &str) -> (code: Option<String>)
    ensures
        opt_view(code) == oauth_response_code(url@, state@),
{
    let oauth = rspotify::OAuth {
        redirect_uri: String::new(),
        state: state.to_string(),
        scopes: std::collections::HashSet::new(),
        proxies: None,
    };
    rspotify::AuthCodeSpotify::new(rspotify::Credentials::default(), oauth).parse_response_code(url)
}

/// Takes the state of a fresh `rspotify::OAuth::default()`, which rspotify
/// draws from the system's random source as 16 characters of
/// `a-zA-Z0-9` (it panics where the random source fails). What holds of
/// every draw is stated: the length and the alphabet.
#[verifier::external_body]
pub(crate) fn fresh_oauth_state() -> (state: String)
    ensures
        state@.len() == 16,
        forall|i: int| 0 <= i < 16 ==> is_ascii_alnum(#[trigger] state@[i]),
{
    rspotify::OAuth::default().state
}

/// The address of Spotify's authorisation page and the start of its query.
pub open spec fn authorize_prefix() -> Seq<char> {
    "https://accounts.spotify.com/authorize?"@
}

/// `p` starts `s`.
pub open spec fn starts_with(s: Seq<char>, p: Seq<char>) -> bool {
    p.len() <= s.len() && s.subrange(0, p.len() as int) == p
}

/// Every character of `s` is ASCII, so its UTF-8 bytes are its characters.
pub open spec fn all_ascii(s: Seq<char>) -> bool {
    forall|i: int| 0 <= i < s.len() ==> (#[trigger] s[i] as int) < 128
}

/// A character that form encoding leaves as it is.
pub open spec fn form_unchanged(c: char) -> bool {
    c == '*' || c == '-' || c == '.' || c == '_' || is_ascii_alnum(c)
}

/// An upper-case hexadecimal digit.
pub open spec fn hex_upper(d: int) -> char {
    if d < 10 { (48 + d) as char } else { (55 + d) as char }
}

/// How form encoding writes an ASCII character: letters, digits and
/// `*-._` as they are, a space as `+`, anything else as `%` and two
/// upper-case hexadecimal digits.
pub open spec fn form_char(c: char) -> Seq<char> {
    if form_unchanged(c) {
        seq![c]
    } else if c == ' ' {
        seq!['+']
    } else {
        seq!['%', hex_upper(c as int / 16), hex_upper(c as int % 16)]
    }
}

/// The form encoding of an ASCII string (`application/x-www-form-urlencoded`).
pub open spec fn form_encode(s: Seq<char>) -> Seq<char>
    decreases s.len(),
{
    if s.len() == 0 {
        seq![]
    } else {
        form_encode(s.drop_last()) + form_char(s.last())
    }
}

/// Form encoding leaves a string of letters and digits as it is.
pub proof fn lemma_form_encode_alnum(s: Seq<char>)
    requires
        forall|i: int| 0 <= i < s.len() ==> is_ascii_alnum(#[trigger] s[i]),
    ensures
        form_encode(s) == s,
        all_ascii(s),
    decreases s.len(),
{
    if s.len() > 0 {
        let r = s.drop_last();
        assert forall|i: int| 0 <= i < r.len() implies is_ascii_alnum(#[trigger] r[i]) by {
            assert(r[i] == s[i]);
        }
        lemma_form_encode_alnum(r);
        assert(is_ascii_alnum(s[s.len() - 1]));
        assert(r.push(s.last()) =~= s);
    }
}

/// The parts joined with single spaces.
pub open spec fn join_spaces(parts: Seq<Seq<char>>) -> Seq<char>
    decreases parts.len(),
{
    if parts.len() == 0 {
        seq![]
    } else if parts.len() == 1 {
        parts[0]
    } else {
        join_spaces(parts.drop_last()) + seq![' '] + parts.last()
    }
}

/// `order` lists each of `scopes` once, in some order.
pub open spec fn lists_scopes(order: Seq<Seq<char>>, scopes: Seq<Seq<char>>) -> bool {
    &&& order.no_duplicates()
    &&& forall|x: Seq<char>| order.contains(x) <==> scopes.contains(x)
}

/// A query pair named `name` starts at `i` of the URL `u`: right after
/// the `?` or an `&`, the name and `=`.
pub open spec fn pair_at(u: Seq<char>, i: int, name: Seq<char>) -> bool {
    &&& 0 < i && i + name.len() + 1 <= u.len()
    &&& (u[i - 1] == '?' || u[i - 1] == '&')
    &&& u.subrange(i, i + name.len() + 1) == name + seq!['=']
}

/// The query pair named `name` at `i` of `u` has the value `value`
/// exactly: the value ends at the end of the URL or at an `&`.
pub open spec fn value_at(u: Seq<char>, i: int, name: Seq<char>, value: Seq<char>) -> bool {
    let j = i + name.len() + 1;
    &&& pair_at(u, i, name)
    &&& j + value.len() <= u.len()
    &&& u.subrange(j, j + value.len()) == value
    &&& (j + value.len() == u.len() || u[j + value.len()] == '&')
}

/// The URL's query has a pair named `name`, and every pair of that name
/// has the value `value` exactly.
pub open spec fn has_param(u: Seq<char>, name: Seq<char>, value: Seq<char>) -> bool {
    &&& exists|i: int| #[trigger] value_at(u, i, name, value)
    &&& forall|i: int| #[trigger] pair_at(u, i, name) ==> value_at(u, i, name, value)
}

/// `s` holds no `&`.
pub open spec fn no_amp(s: Seq<char>) -> bool {
    forall|i: int| 0 <= i < s.len() ==> s[i] != '&'
}

/// A query parameter has one value: two values of the same parameter, if
/// neither holds an `&`, are equal.
pub proof fn lemma_param_value_unique(u: Seq<char>, name: Seq<char>, v1: Seq<char>, v2: Seq<char>)
    requires
        has_param(u, name, v1),
        has_param(u, name, v2),
        no_amp(v1),
        no_amp(v2),
    ensures
        v1 == v2,
{
    let i = choose|i: int| #[trigger] value_at(u, i, name, v1);
    assert(pair_at(u, i, name));
    assert(value_at(u, i, name, v2));
    let j = i + name.len() + 1;
    if v1.len() < v2.len() {
        assert(u[j + v1.len()] == '&');
        assert(u.subrange(j, j + v2.len())[v1.len() as int] == v2[v1.len() as int]);
    } else if v2.len() < v1.len() {
        assert(u[j + v2.len()] == '&');
        assert(u.subrange(j, j + v1.len())[v2.len() as int] == v1[v2.len() as int]);
    } else {
        assert(v1 =~= v2);
    }
}

/// A parameter with a value is in the URL as `name=value`.
pub proof fn lemma_param_contains(u: Seq<char>, name: Seq<char>, value: Seq<char>)
    requires
        has_param(u, name, value),
    ensures
        crate::text::contains_seq(u, name + seq!['='] + value),
{
    let i = choose|i: int| #[trigger] value_at(u, i, name, value);
    let j = i + name.len() + 1;
    let p = name + seq!['='] + value;
    assert(u.subrange(i, i + p.len()) =~= u.subrange(i, j) + u.subrange(j, j + value.len()));
    assert(u.subrange(i, i + p.len()) =~= p);
}

/// A URL came back and it is Spotify's authorisation page. Its query has
/// the parameter `response_type` with the value `code`, and, where they are
/// ASCII, `client_id`, `redirect_uri` and `state` with the form-encoded
/// values given, and `scope` with the scopes, each once, joined by spaces
/// in some order and form-encoded.
pub open spec fn is_authorize_url(
    url: Option<String>,
    client_id: Seq<char>,
    redirect_uri: Seq<char>,
    scopes: Seq<Seq<char>>,
    state: Seq<char>,
) -> bool {
    &&& url matches Some(u) && starts_with(u@, authorize_prefix())
    &&& url matches Some(u) ==> {
        &&& has_param(u@, "response_type"@, "code"@)
        &&& all_ascii(client_id) ==> has_param(u@, "client_id"@, form_encode(client_id))
        &&& all_ascii(redirect_uri) ==> has_param(u@, "redirect_uri"@, form_encode(redirect_uri))
        &&& all_ascii(state) ==> has_param(u@, "state"@, form_encode(state))
        &&& (forall|i: int| 0 <= i < scopes.len() ==> all_ascii(#[trigger] scopes[i])) ==> exists|
            order: Seq<Seq<char>>,
        |
            lists_scopes(order, scopes) && has_param(
                u@,
                "scope"@,
                form_encode(join_spaces(order)),
            )
    }
}

/// The views of some strings.
pub open spec fn views(v: Seq<String>) -> Seq<Seq<char>> {
    v.map_values(|s: String| s@)
}

/// Calls `AuthCodeSpotify::get_authorize_url(false)` on a client with the
/// given client id, redirect URI, scopes and state. rspotify appends the
/// parameters `client_id`, `response_type=code`, `redirect_uri`, `scope`
/// (the scopes joined by spaces) and `state` to its default authorisation
/// address, which always parses, so a URL always comes back; the url crate
/// form-encodes each name and value and writes the pairs as `name=value`
/// after the `?`, separated by `&`. The address has no fragment, and an
/// encoded value holds no `&`, `=` or `?`, so each pair's value ends at the
/// next `&` or at the end, and the keys of the hash map are distinct. rspotify keeps the parameters in a
/// hash map and the scopes in a hash set, so the order of the parameters
/// and of the scopes varies from process to process and is not stated;
/// values with non-ASCII characters, whose encoding goes by UTF-8 bytes,
/// are not stated either.
#[verifier::external_body]
pub(crate) fn authorize_url(
    client_id: &str,
    redirect_uri: &str,
    scopes: &Vec<String>,
    state: &str,
) -> (url: Option<String>)
    ensures
        is_authorize_url(url, client_id@, redirect_uri@, views(scopes@), state@),
{
    let creds = rspotify::Credentials { id: client_id.to_string(), secret: None };
    let oauth = rspotify::OAuth {
        redirect_uri: redirect_uri.to_string(),
        state: state.to_string(),
        scopes: scopes.iter().cloned().collect(),
        proxies: None,
    };
    rspotify::AuthCodeSpotify::new(creds, oauth).get_authorize_url(false).ok()
}

} // verus!
