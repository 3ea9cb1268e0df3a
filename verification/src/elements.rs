//! A declarative description of the interface: a tree of elements, each with
//! its settings (classes, properties, styles, event handlers) and children.
//! The surroundings render it and turn the events into actions of the client.
use vstd::prelude::*;
use crate::model::Track;

verus! {

/// The kind of an element: a layout element of the UI toolkit, or a raw
/// HTML element named by its tag.
#[derive(Debug, Clone, Copy, PartialEq, Eq)]
pub enum Kind {
    Grid,
    Row,
    Column,
    El,
    Tile,
    Link,
    Paragraph,
    Text,
    Button,
    Raw,
}

/// An HTML tag: the one chosen for a layout element, or the element name
/// of a raw element.
#[derive(Debug, Clone, Copy, PartialEq, Eq)]
pub enum Tag {
    Div,
    Header,
    H1,
    Section,
    Footer,
    /// The Carbon button `bx-btn`.
    BxBtn,
    /// The Carbon search box `bx-search`.
    BxSearch,
    /// The Carbon text input `bx-input`.
    BxInput,
    /// The Carbon content item `dds-content-item`.
    DdsContentItem,
}

/// A CSS class.
#[derive(Debug, Clone, Copy, PartialEq, Eq)]
pub enum Class {
    /// `bx--col`, the Carbon grid column.
    BxCol,
}

/// A DOM property.
#[derive(Debug, Clone, Copy, PartialEq, Eq)]
pub enum Prop {
    Value,
    Size,
    /// `labelText`.
    LabelText,
    Placeholder,
}

/// An HTML attribute.
#[derive(Debug, Clone, Copy, PartialEq, Eq)]
pub enum Attr {
    Placeholder,
}

/// A font weight.
#[derive(Debug, Clone, Copy, PartialEq, Eq)]
pub enum Weight {
    Heavy,
    Bold,
}

/// A colour: the named green of the palette, or an HSLuv colour whose hue,
/// saturation and lightness are given in tenths.
#[derive(Debug, Clone, Copy, PartialEq, Eq)]
pub enum Color {
    Green7,
    Hsluv { h: u32, s: u32, l: u32 },
}

/// Padding on each side, in pixels; `None` leaves a side unset.
#[derive(Debug, Clone, Copy, PartialEq, Eq)]
pub struct Sides {
    pub top: Option<u32>,
    pub right: Option<u32>,
    pub bottom: Option<u32>,
    pub left: Option<u32>,
}

/// A style of an element.
#[derive(Debug)]
pub enum Style {
    WidthFill,
    WidthExact(u32),
    HeightExact(u32),
    /// Fill the height, up to a maximum in pixels.
    HeightFillMax(u32),
    /// A raw CSS declaration.
    Css(String, String),
    Padding(Sides),
    AlignCenterX,
    AlignCenter,
    AlignTop,
    AlignContentTop,
    FontSize(u32),
    FontColor(Color),
    /// A font colour that changes while the pointer is over the element.
    FontColorHover { idle: Color, hovered: Color },
    FontWeight(Weight),
    FontCenter,
    /// Underline the text while the pointer is over the element.
    FontUnderlineHover,
    Background(Color),
    /// A background that changes while the pointer is over the element.
    BackgroundHover { idle: Color, hovered: Color },
    Gap(u32),
    RoundedCorners(u32),
    MoveLeft(u32),
    MoveDown(u32),
    BorderTop(Color),
}

/// A key of the keyboard.
#[derive(Debug, Clone, Copy, PartialEq, Eq)]
pub enum Key {
    Enter,
    Escape,
    ArrowDown,
    ArrowUp,
    Space,
}

/// An event of an element. A press is a click or the Enter key.
#[derive(Debug, Clone, Copy, PartialEq, Eq)]
pub enum Event {
    Press,
    Click,
    Focus,
    Blur,
    /// The value changed; the action receives the new value.
    Change,
    /// The pointer moved onto the element.
    Hover,
    KeyDown(Key),
}

/// What the client does on an event.
#[derive(Debug)]
pub enum Action {
    /// Start signing in.
    Login,
    /// Create the playlist on Spotify unless that was done.
    CreatePlaylist,
    StorePlaylistName,
    ReloadPlaylistName,
    /// Rename the playlist to the value of the event.
    SetPlaylistName,
    /// Refresh the search token where it expired, then search after a pause.
    FocusSearch,
    /// Set the query to the value of the event, then search after a pause.
    SetQuery,
    /// Add the highlighted search result.
    AddHighlighted,
    /// Add this track and give the focus back to the search box.
    AddTrack(Track),
    NextTrack,
    PrevTrack,
    Search,
    SelectTrack(String),
    RemoveTrack(String),
}

/// A setting of an element.
#[derive(Debug)]
pub enum Setting {
    Class(Class),
    Prop(Prop, String),
    Attr(Attr, String),
    Style(Style),
    On(Event, Action),
    /// The element takes the focus when shown.
    Focused,
    /// The target of a link.
    Href(String),
    /// A link opens in a new tab.
    NewTab,
}

/// An element of the interface.
#[derive(Debug)]
pub struct Node {
    pub kind: Kind,
    pub tag: Option<Tag>,
    pub settings: Vec<Setting>,
    /// The text of a text element.
    pub text: Option<String>,
    pub children: Vec<Node>,
    /// An element shown at the right while the pointer is over this one.
    pub right_on_hover: Option<Box<Node>>,
}

/// `n` is an element of the given kind and tag with nothing set yet.
pub open spec fn is_bare(n: Node, kind: Kind, tag: Option<Tag>) -> bool {
    &&& n.kind == kind
    &&& n.tag == tag
    &&& n.settings@.len() == 0
    &&& n.text is None
    &&& n.children@.len() == 0
    &&& n.right_on_hover is None
}

/// `n` is a text element showing `s`.
pub open spec fn is_text(n: Node, s: Seq<char>) -> bool {
    &&& n.kind == Kind::Text
    &&& n.tag is None
    &&& n.settings@.len() == 0
    &&& n.text matches Some(t) && t@ == s
    &&& n.children@.len() == 0
    &&& n.right_on_hover is None
}

/// `s` sets property `p` to `v`.
pub open spec fn is_prop(s: Setting, p: Prop, v: Seq<char>) -> bool {
    s matches Setting::Prop(q, w) && q == p && w@ == v
}

/// `s` sets attribute `a` to `v`.
pub open spec fn is_attr(s: Setting, a: Attr, v: Seq<char>) -> bool {
    s matches Setting::Attr(b, w) && b == a && w@ == v
}

/// `s` is the raw CSS declaration `name: value`.
pub open spec fn is_css(s: Setting, name: Seq<char>, value: Seq<char>) -> bool {
    s matches Setting::Style(Style::Css(n, v)) && n@ == name && v@ == value
}

/// `n` is `old` with one more setting, `s`.
pub open spec fn adds_setting(n: Node, old: Node, s: Setting) -> bool {
    &&& n.kind == old.kind
    &&& n.tag == old.tag
    &&& n.settings@ == old.settings@.push(s)
    &&& n.text == old.text
    &&& n.children@ == old.children@
    &&& n.right_on_hover == old.right_on_hover
}

/// `n` is `old` with one more child, `c`.
pub open spec fn adds_child(n: Node, old: Node, c: Node) -> bool {
    &&& n.kind == old.kind
    &&& n.tag == old.tag
    &&& n.settings@ == old.settings@
    &&& n.text == old.text
    &&& n.children@ == old.children@.push(c)
    &&& n.right_on_hover == old.right_on_hover
}

/// `n` is `old` with the children `cs` appended.
pub open spec fn adds_children(n: Node, old: Node, cs: Seq<Node>) -> bool {
    &&& n.kind == old.kind
    &&& n.tag == old.tag
    &&& n.settings@ == old.settings@
    &&& n.text == old.text
    &&& n.children@ == old.children@ + cs
    &&& n.right_on_hover == old.right_on_hover
}

/// `n` is `old` with one more setting, which sets property `p` to `v`.
pub open spec fn adds_prop(n: Node, old: Node, p: Prop, v: Seq<char>) -> bool {
    adds_setting(n, old, n.settings@.last()) && is_prop(n.settings@.last(), p, v)
}

/// `n` is `old` with one more setting, which sets attribute `a` to `v`.
pub open spec fn adds_attr(n: Node, old: Node, a: Attr, v: Seq<char>) -> bool {
    adds_setting(n, old, n.settings@.last()) && is_attr(n.settings@.last(), a, v)
}

/// `n` is `old` with one more setting, the CSS declaration `name: value`.
pub open spec fn adds_css(n: Node, old: Node, name: Seq<char>, value: Seq<char>) -> bool {
    adds_setting(n, old, n.settings@.last()) && is_css(n.settings@.last(), name, value)
}

impl Node {
    /// An element of the given kind and tag with nothing set.
    pub fn new(kind: Kind, tag: Option<Tag>) -> (n: Node)
        ensures
            is_bare(n, kind, tag),
    {
        Node { kind, tag, settings: Vec::new(), text: None, children: Vec::new(), right_on_hover: None }
    }

    /// A text element.
    pub fn text(s: &str) -> (n: Node)
        ensures
            is_text(n, s@),
    {
        Node {
            kind: Kind::Text,
            tag: None,
            settings: Vec::new(),
            text: Some(String::from_str(s)),
            children: Vec::new(),
            right_on_hover: None,
        }
    }

    /// A text element showing a string of its own.
    pub fn text_of(s: String) -> (n: Node)
        ensures
            is_text(n, s@),
    {
        Node {
            kind: Kind::Text,
            tag: None,
            settings: Vec::new(),
            text: Some(s),
            children: Vec::new(),
            right_on_hover: None,
        }
    }

    /// Adds a setting.
    pub fn set(self, s: Setting) -> (n: Node)
        ensures
            adds_setting(n, self, s),
    {
        let mut n = self;
        n.settings.push(s);
        n
    }

    /// Adds a style.
    pub fn s(self, style: Style) -> (n: Node)
        ensures
            adds_setting(n, self, Setting::Style(style)),
    {
        self.set(Setting::Style(style))
    }

    /// Adds a property.
    pub fn prop(self, p: Prop, v: &str) -> (n: Node)
        ensures
            adds_prop(n, self, p, v@),
    {
        self.set(Setting::Prop(p, String::from_str(v)))
    }

    /// Adds a raw CSS declaration.
    pub fn css(self, name: &str, value: &str) -> (n: Node)
        ensures
            adds_css(n, self, name@, value@),
    {
        self.s(Style::Css(String::from_str(name), String::from_str(value)))
    }

    /// Adds a handler.
    pub fn on(self, e: Event, a: Action) -> (n: Node)
        ensures
            adds_setting(n, self, Setting::On(e, a)),
    {
        self.set(Setting::On(e, a))
    }

    /// Adds a child.
    pub fn child(self, c: Node) -> (n: Node)
        ensures
            adds_child(n, self, c),
    {
        let mut n = self;
        n.children.push(c);
        n
    }

    /// Adds a child where there is one.
    pub fn child_opt(self, c: Option<Node>) -> (n: Node)
        ensures
            c matches Some(c) ==> adds_child(n, self, c),
            c is None ==> n == self,
    {
        match c {
            Some(c) => self.child(c),
            None => self,
        }
    }

    /// Appends children, in their order.
    pub fn children(self, cs: Vec<Node>) -> (n: Node)
        ensures
            adds_children(n, self, cs@),
    {
        let mut n = self;
        let mut cs = cs;
        n.children.append(&mut cs);
        n
    }
}

/// The button `bx-btn`.
#[derive(Debug)]
pub struct Button {
    pub node: Node,
    /// A press action has been set; a button takes one.
    pub on_press_set: bool,
}

impl Button {
    /// A bare `bx-btn`.
    pub fn new() -> (b: Button)
        ensures
            is_bare(b.node, Kind::Raw, Some(Tag::BxBtn)),
            !b.on_press_set,
    {
        Button { node: Node::new(Kind::Raw, Some(Tag::BxBtn)), on_press_set: false }
    }

    /// Sets the `value` property to the current value.
    pub fn value_signal(self, value: &str) -> (b: Button)
        ensures
            adds_prop(b.node, self.node, Prop::Value, value@),
            b.on_press_set == self.on_press_set,
    {
        Button { node: self.node.prop(Prop::Value, value), on_press_set: self.on_press_set }
    }

    /// Sets the `size` property.
    pub fn size(self, size: &str) -> (b: Button)
        ensures
            adds_prop(b.node, self.node, Prop::Size, size@),
            b.on_press_set == self.on_press_set,
    {
        Button { node: self.node.prop(Prop::Size, size), on_press_set: self.on_press_set }
    }

    /// Adds a label.
    pub fn label(self, label: Node) -> (b: Button)
        ensures
            adds_child(b.node, self.node, label),
            b.on_press_set == self.on_press_set,
    {
        Button { node: self.node.child(label), on_press_set: self.on_press_set }
    }

    /// Adds the current label.
    pub fn label_signal(self, label: Node) -> (b: Button)
        ensures
            adds_child(b.node, self.node, label),
            b.on_press_set == self.on_press_set,
    {
        Button { node: self.node.child(label), on_press_set: self.on_press_set }
    }

    /// Runs `action` on a click or on the Enter key; a button takes one
    /// press action.
    pub fn on_press(self, action: Action) -> (b: Button)
        requires
            !self.on_press_set,
        ensures
            adds_setting(b.node, self.node, Setting::On(Event::Press, action)),
            b.on_press_set,
    {
        Button { node: self.node.on(Event::Press, action), on_press_set: true }
    }
}

/// The Carbon grid column: a `div` (or another tag) of class `bx--col`.
#[derive(Debug)]
pub struct Column {
    pub node: Node,
}

/// `n` is a bare Carbon column with the given tag.
pub open spec fn is_bare_column(n: Node, tag: Tag) -> bool {
    &&& n.kind == Kind::Raw
    &&& n.tag == Some(tag)
    &&& n.settings@ == seq![Setting::Class(Class::BxCol)]
    &&& n.text is None
    &&& n.children@.len() == 0
    &&& n.right_on_hover is None
}

impl Column {
    /// A bare column.
    pub fn new() -> (c: Column)
        ensures
            is_bare_column(c.node, Tag::Div),
    {
        Column::with_tag(Tag::Div)
    }

    /// A bare column with another tag.
    pub fn with_tag(tag: Tag) -> (c: Column)
        ensures
            is_bare_column(c.node, tag),
    {
        let n = Node::new(Kind::Raw, Some(tag)).set(Setting::Class(Class::BxCol));
        proof { assert(n.settings@ =~= seq![Setting::Class(Class::BxCol)]); }
        Column { node: n }
    }

    /// Adds a child.
    pub fn child(self, child: Node) -> (c: Column)
        ensures
            adds_child(c.node, self.node, child),
    {
        Column { node: self.node.child(child) }
    }

    /// Adds the current child, where there is one.
    pub fn child_signal(self, child: Option<Node>) -> (c: Column)
        ensures
            child matches Some(ch) ==> adds_child(c.node, self.node, ch),
            child is None ==> c.node == self.node,
    {
        Column { node: self.node.child_opt(child) }
    }

    /// Appends children.
    pub fn children(self, children: Vec<Node>) -> (c: Column)
        ensures
            adds_children(c.node, self.node, children@),
    {
        Column { node: self.node.children(children) }
    }

    /// Appends the current children.
    pub fn children_signal_vec(self, children: Vec<Node>) -> (c: Column)
        ensures
            adds_children(c.node, self.node, children@),
    {
        Column { node: self.node.children(children) }
    }
}

/// The Carbon content item `dds-content-item`.
#[derive(Debug)]
pub struct DotcomShell {
    pub node: Node,
}

impl DotcomShell {
    /// A bare content item.
    pub fn new() -> (d: DotcomShell)
        ensures
            is_bare(d.node, Kind::Raw, Some(Tag::DdsContentItem)),
    {
        DotcomShell { node: Node::new(Kind::Raw, Some(Tag::DdsContentItem)) }
    }

    /// Adds a child.
    pub fn child(self, child: Node) -> (d: DotcomShell)
        ensures
            adds_child(d.node, self.node, child),
    {
        DotcomShell { node: self.node.child(child) }
    }

    /// Adds the current child, where there is one.
    pub fn child_signal(self, child: Option<Node>) -> (d: DotcomShell)
        ensures
            child matches Some(ch) ==> adds_child(d.node, self.node, ch),
            child is None ==> d.node == self.node,
    {
        DotcomShell { node: self.node.child_opt(child) }
    }

    /// Appends children.
    pub fn children(self, children: Vec<Node>) -> (d: DotcomShell)
        ensures
            adds_children(d.node, self.node, children@),
    {
        DotcomShell { node: self.node.children(children) }
    }

    /// Appends the current children.
    pub fn children_signal_vec(self, children: Vec<Node>) -> (d: DotcomShell)
        ensures
            adds_children(d.node, self.node, children@),
    {
        DotcomShell { node: self.node.children(children) }
    }
}

/// The Carbon text input `bx-input`.
#[derive(Debug)]
pub struct Input {
    pub node: Node,
}

impl Input {
    /// A bare text input.
    pub fn new() -> (i: Input)
        ensures
            is_bare(i.node, Kind::Raw, Some(Tag::BxInput)),
    {
        Input { node: Node::new(Kind::Raw, Some(Tag::BxInput)) }
    }

    /// Sets the `placeholder` property.
    pub fn placeholder(self, placeholder: &str) -> (i: Input)
        ensures
            adds_prop(i.node, self.node, Prop::Placeholder, placeholder@),
    {
        Input { node: self.node.prop(Prop::Placeholder, placeholder) }
    }

    /// Sets the `value` property to the current value.
    pub fn value_signal(self, value: &str) -> (i: Input)
        ensures
            adds_prop(i.node, self.node, Prop::Value, value@),
    {
        Input { node: self.node.prop(Prop::Value, value) }
    }

    /// Sets the `size` property, as the search box has it.
    pub fn size(self, size: &str) -> (i: Input)
        ensures
            adds_prop(i.node, self.node, Prop::Size, size@),
    {
        Input { node: self.node.prop(Prop::Size, size) }
    }

    /// Sets the `labelText` property, as the search box has it.
    pub fn label(self, label: &str) -> (i: Input)
        ensures
            adds_prop(i.node, self.node, Prop::LabelText, label@),
    {
        Input { node: self.node.prop(Prop::LabelText, label) }
    }

    /// Runs `action` with the new value whenever it changes.
    pub fn on_change(self, action: Action) -> (i: Input)
        ensures
            adds_setting(i.node, self.node, Setting::On(Event::Change, action)),
    {
        Input { node: self.node.on(Event::Change, action) }
    }
}

/// The Carbon search box `bx-search`.
#[derive(Debug)]
pub struct Search {
    pub node: Node,
}

impl Search {
    /// A bare search box.
    pub fn new() -> (s: Search)
        ensures
            is_bare(s.node, Kind::Raw, Some(Tag::BxSearch)),
    {
        Search { node: Node::new(Kind::Raw, Some(Tag::BxSearch)) }
    }

    /// Sets the `placeholder` attribute.
    pub fn placeholder(self, placeholder: &str) -> (s: Search)
        ensures
            adds_attr(s.node, self.node, Attr::Placeholder, placeholder@),
    {
        Search { node: self.node.set(Setting::Attr(Attr::Placeholder, String::from_str(placeholder))) }
    }

    /// Sets the `size` property.
    pub fn size(self, size: &str) -> (s: Search)
        ensures
            adds_prop(s.node, self.node, Prop::Size, size@),
    {
        Search { node: self.node.prop(Prop::Size, size) }
    }

    /// Sets the `labelText` property.
    pub fn label(self, label: &str) -> (s: Search)
        ensures
            adds_prop(s.node, self.node, Prop::LabelText, label@),
    {
        Search { node: self.node.prop(Prop::LabelText, label) }
    }

    /// Sets the `value` property to the current value.
    pub fn value_signal(self, value: &str) -> (s: Search)
        ensures
            adds_prop(s.node, self.node, Prop::Value, value@),
    {
        Search { node: self.node.prop(Prop::Value, value) }
    }

    /// Runs `action` with the new value whenever it changes.
    pub fn on_change(self, action: Action) -> (s: Search)
        ensures
            adds_setting(s.node, self.node, Setting::On(Event::Change, action)),
    {
        Search { node: self.node.on(Event::Change, action) }
    }
}

} // verus!
