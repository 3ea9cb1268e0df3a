//! The sign-in window: the last sign-in error, if any, and a button.
use vstd::prelude::*;
use crate::client::Client;
use crate::elements::{is_text, Action, Color, Event, Kind, Node, Setting, Sides, Style, Weight};
use crate::view::{hs, pad_xy, plain, st};

verus! {

/// The sign-in error, where there is one.
pub open spec fn is_error(n: Node, error: Option<String>) -> bool {
    &&& n.kind == Kind::El && n.tag is None && plain(n)
    &&& n.settings@.len() == 0
    &&& match error {
        Some(e) => n.children@.len() == 1 && is_text(n.children@[0], e@),
        None => n.children@.len() == 0,
    }
}

/// The element that shows the sign-in error.
pub fn error(client: &Client) -> (n: Node)
    ensures
        is_error(n, client.login_error),
{
    let shown = match &client.login_error {
        Some(e) => Some(Node::text(e.as_str())),
        None => None,
    };
    Node::new(Kind::El, None).child_opt(shown)
}

/// The sign-in button of the window: bold, lighter under the pointer.
pub open spec fn is_login_button(n: Node) -> bool {
    &&& n.kind == Kind::Column && n.tag is None && plain(n)
    &&& n.settings@.len() == 0
    &&& n.children@.len() == 1
    &&& {
        let b = n.children@[0];
        &&& b.kind == Kind::Button && b.tag is None && plain(b)
        &&& b.settings@ == seq![
            st(Style::BackgroundHover { idle: hs(0, 0, 400), hovered: hs(0, 0, 800) }),
            st(Style::FontColor(hs(0, 0, 51))),
            st(Style::FontWeight(Weight::Bold)),
            st(Style::Padding(pad_xy(Some(15), Some(10)))),
            st(Style::RoundedCorners(4)),
            Setting::On(Event::Press, Action::Login),
        ]
        &&& b.children@.len() == 1
        &&& is_text(b.children@[0], "Log in"@)
    }
}

/// The sign-in button of the window.
pub fn login_button() -> (n: Node)
    ensures
        is_login_button(n),
{
    let b = Node::new(Kind::Button, None)
        .s(Style::BackgroundHover {
            idle: Color::Hsluv { h: 0, s: 0, l: 400 },
            hovered: Color::Hsluv { h: 0, s: 0, l: 800 },
        })
        .s(Style::FontColor(Color::Hsluv { h: 0, s: 0, l: 51 }))
        .s(Style::FontWeight(Weight::Bold))
        .s(Style::Padding(Sides { top: Some(10), right: Some(15), bottom: Some(10), left: Some(15) }))
        .s(Style::RoundedCorners(4))
        .on(Event::Press, Action::Login)
        .child(Node::text("Log in"));
    proof {
        assert(b.settings@ =~= seq![
            st(Style::BackgroundHover { idle: hs(0, 0, 400), hovered: hs(0, 0, 800) }),
            st(Style::FontColor(hs(0, 0, 51))),
            st(Style::FontWeight(Weight::Bold)),
            st(Style::Padding(pad_xy(Some(15), Some(10)))),
            st(Style::RoundedCorners(4)),
            Setting::On(Event::Press, Action::Login),
        ]);
    }
    Node::new(Kind::Column, None).child(b)
}

/// The sign-in window: a grey rounded card, centred, with the error and the
/// button.
pub open spec fn is_login_window(n: Node, client: Client) -> bool {
    &&& n.kind == Kind::Column && n.tag is None && plain(n)
    &&& n.settings@ == seq![
        st(Style::HeightFillMax(500)),
        st(Style::Padding(pad_xy(None, Some(10)))),
    ]
    &&& n.children@.len() == 1
    &&& {
        let card = n.children@[0];
        &&& card.kind == Kind::Column && card.tag is None && plain(card)
        &&& card.settings@ == seq![
            st(Style::Background(hs(0, 0, 800))),
            st(Style::AlignCenter),
            st(Style::FontColor(hs(0, 0, 51))),
            st(Style::Gap(10)),
            st(Style::Padding(Sides { top: Some(30), right: Some(30), bottom: Some(30), left: Some(30) })),
            st(Style::Gap(20)),
            st(Style::RoundedCorners(25)),
        ]
        &&& card.children@.len() == 2
        &&& is_error(card.children@[0], client.login_error)
        &&& is_login_button(card.children@[1])
    }
}

/// The sign-in window.
pub fn login_window(client: &Client) -> (n: Node)
    ensures
        is_login_window(n, *client),
{
    let card = Node::new(Kind::Column, None)
        .s(Style::Background(Color::Hsluv { h: 0, s: 0, l: 800 }))
        .s(Style::AlignCenter)
        .s(Style::FontColor(Color::Hsluv { h: 0, s: 0, l: 51 }))
        .s(Style::Gap(10))
        .s(Style::Padding(Sides { top: Some(30), right: Some(30), bottom: Some(30), left: Some(30) }))
        .s(Style::Gap(20))
        .s(Style::RoundedCorners(25))
        .child(error(client))
        .child(login_button());
    let n = Node::new(Kind::Column, None)
        .s(Style::HeightFillMax(500))
        .s(Style::Padding(Sides { top: Some(10), right: None, bottom: Some(10), left: None }))
        .child(card);
    proof {
        assert(card.settings@ =~= seq![
            st(Style::Background(hs(0, 0, 800))),
            st(Style::AlignCenter),
            st(Style::FontColor(hs(0, 0, 51))),
            st(Style::Gap(10)),
            st(Style::Padding(Sides { top: Some(30), right: Some(30), bottom: Some(30), left: Some(30) })),
            st(Style::Gap(20)),
            st(Style::RoundedCorners(25)),
        ]);
        assert(n.settings@ =~= seq![
            st(Style::HeightFillMax(500)),
            st(Style::Padding(pad_xy(None, Some(10)))),
        ]);
    }
    n
}

} // verus!
