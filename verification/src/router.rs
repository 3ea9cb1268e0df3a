//! What the client does when the page's URL changes.
use vstd::prelude::*;
use crate::client::{code_word, Client, Effect};
use crate::model::{AuthResponseData, UpMsg};
use crate::text::{contains_seq, str_contains};

verus! {

/// The routes of the client: there is one page.
#[derive(Debug, Clone, Copy, PartialEq, Eq)]
pub enum Route {
    Root,
}

/// A new URL was reached. One that contains `code` is the authorisation
/// callback: it is kept as the response URL, the user's token is requested
/// with it, and the route is replaced by `/`. Any other URL changes nothing.
pub fn router(client: &mut Client, url: String) -> (effects: Vec<Effect>)
    ensures
        contains_seq(url@, code_word()) ==> {
            &&& final(client).response_url == url
            &&& effects@.len() == 2
            &&& effects@[0] == Effect::Send(UpMsg::RequestAuthToken(AuthResponseData {
                response_url: url,
                state: old(client).auth_state,
            }))
            &&& effects@[1] matches Effect::ReplaceRoute(r) && r@ == seq!['/']
        },
        !contains_seq(url@, code_word()) ==> final(client).response_url == old(client).response_url
            && effects@.len() == 0,
        final(client).playlist == old(client).playlist,
        final(client).search == old(client).search,
        final(client).auth_state == old(client).auth_state,
        final(client).playlist_name == old(client).playlist_name,
        final(client).playlist_created == old(client).playlist_created,
        final(client).login_error == old(client).login_error,
        final(client).token == old(client).token,
        final(client).auth_token == old(client).auth_token,
        final(client).auth_url == old(client).auth_url,
{
    proof { reveal_strlit("code"); }
    if str_contains(url.as_str(), "code") {
        client.response_url = url;
        let send = client.authorize_client();
        proof { reveal_strlit("/"); }
        vec![send, Effect::ReplaceRoute(String::from_str("/"))]
    } else {
        Vec::new()
    }
}

} // verus!
