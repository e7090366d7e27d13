//! The menu event router: a pure, total mapping from a menu item identifier
//! to the action the shell performs for it.
//!
//! The `version` item and its about dialog are a deliberate part of the
//! target behavior: the menu carries the item, and the router maps it to
//! `ShowAbout`.
use vstd::prelude::*;
use vstd::string::StringExecFns;
use crate::text::str_eq;

verus! {

/// The channel on which a navigation event is delivered to the front end.
#[derive(Clone, Copy, PartialEq, Eq, Structural, Debug)]
pub enum Channel {
    Page,
    ImportBook,
}

impl Channel {
    /// The event name used on the wire for this channel.
    pub open spec fn spec_name(self) -> Seq<char> {
        match self {
            Channel::Page => "page"@,
            Channel::ImportBook => "import_book"@,
        }
    }

    /// Returns the event name used on the wire for this channel.
    pub fn name(&self) -> (r: String)
        ensures
            r@ == self.spec_name(),
    {
        match self {
            Channel::Page => "page".to_owned(),
            Channel::ImportBook => "import_book".to_owned(),
        }
    }
}

/// A one-way message toward the front end: a channel and, on the `Page`
/// channel, the path of the page to show. `ImportBook` events carry no
/// payload.
pub struct NavigationEvent {
    pub channel: Channel,
    pub payload: Option<String>,
}

/// Mathematical image of a `NavigationEvent`.
pub ghost struct EventView {
    pub channel: Channel,
    pub payload: Option<Seq<char>>,
}

impl View for NavigationEvent {
    type V = EventView;

    open spec fn view(&self) -> EventView {
        EventView {
            channel: self.channel,
            payload: match self.payload {
                Some(p) => Some(p@),
                None => None,
            },
        }
    }
}

/// What the shell does in reaction to one menu selection: emit exactly one
/// navigation event, show the about dialog, or nothing at all. Quit and the
/// separators are handled natively and never reach the router.
pub enum MenuAction {
    Emit(NavigationEvent),
    ShowAbout,
    Ignore,
}

/// Mathematical image of a `MenuAction`.
pub ghost enum ActionView {
    Emit(EventView),
    ShowAbout,
    Ignore,
}

impl View for MenuAction {
    type V = ActionView;

    open spec fn view(&self) -> ActionView {
        match self {
            MenuAction::Emit(e) => ActionView::Emit(e@),
            MenuAction::ShowAbout => ActionView::ShowAbout,
            MenuAction::Ignore => ActionView::Ignore,
        }
    }
}

/// The action that emits one event on the `page` channel carrying `path`.
pub open spec fn page_event(path: Seq<char>) -> ActionView {
    ActionView::Emit(EventView { channel: Channel::Page, payload: Some(path) })
}

/// The action that emits the one payload-free event on the `import_book`
/// channel.
pub open spec fn import_book_event() -> ActionView {
    ActionView::Emit(EventView { channel: Channel::ImportBook, payload: None })
}

/// The routing table: which action each menu item identifier stands for.
/// Every identifier outside the table routes to `Ignore`.
pub open spec fn spec_route(id: Seq<char>) -> ActionView {
    if id == "page_root"@ {
        page_event("/"@)
    } else if id == "page_footprints"@ {
        page_event("/footprints"@)
    } else if id == "page_books"@ {
        page_event("/books"@)
    } else if id == "import_book"@ {
        import_book_event()
    } else if id == "version"@ {
        ActionView::ShowAbout
    } else {
        ActionView::Ignore
    }
}

/// The identifiers the router recognizes.
pub open spec fn recognized(id: Seq<char>) -> bool {
    ||| id == "page_root"@
    ||| id == "page_footprints"@
    ||| id == "page_books"@
    ||| id == "import_book"@
    ||| id == "version"@
}

/// Routes one menu item identifier. Total: an unrecognized identifier is a
/// no-op, never a failure.
pub fn menu_handler(item_id: &str) -> (action: MenuAction)
    ensures
        action@ == spec_route(item_id@),
{
    if str_eq(item_id, "page_root") {
        MenuAction::Emit(NavigationEvent { channel: Channel::Page, payload: Some("/".to_owned()) })
    } else if str_eq(item_id, "page_footprints") {
        MenuAction::Emit(
            NavigationEvent { channel: Channel::Page, payload: Some("/footprints".to_owned()) },
        )
    } else if str_eq(item_id, "page_books") {
        MenuAction::Emit(
            NavigationEvent { channel: Channel::Page, payload: Some("/books".to_owned()) },
        )
    } else if str_eq(item_id, "import_book") {
        MenuAction::Emit(NavigationEvent { channel: Channel::ImportBook, payload: None })
    } else if str_eq(item_id, "version") {
        MenuAction::ShowAbout
    } else {
        MenuAction::Ignore
    }
}

/// Law: every recognized identifier routes to exactly one action — the four
/// navigation identifiers to exactly one event, each on its documented
/// channel with its documented payload, and `version` to the about dialog,
/// which emits no event — while every unrecognized identifier routes to no
/// action and no event at all.
pub proof fn lemma_router_dispatch(id: Seq<char>)
    ensures
        id == "page_root"@ ==> spec_route(id) == page_event("/"@),
        id == "page_footprints"@ ==> spec_route(id) == page_event("/footprints"@),
        id == "page_books"@ ==> spec_route(id) == page_event("/books"@),
        id == "import_book"@ ==> spec_route(id) == import_book_event(),
        id == "version"@ ==> spec_route(id) == ActionView::ShowAbout,
        !recognized(id) ==> spec_route(id) == ActionView::Ignore,
        (spec_route(id) is Emit) <==> (recognized(id) && id != "version"@),
{
    reveal_strlit("page_root");
    reveal_strlit("page_footprints");
    reveal_strlit("page_books");
    reveal_strlit("import_book");
    reveal_strlit("version");
    assert("page_root"@.len() == 9);
    assert("page_footprints"@.len() == 15);
    assert("page_books"@.len() == 10);
    assert("import_book"@.len() == 11);
    assert("version"@.len() == 7);
}

/// The text of the about dialog: the application name and version, separated
/// by a single space.
pub fn about_message(name: &str, version: &str) -> (r: String)
    ensures
        r@ == name@ + " "@ + version@,
{
    let mut s: String = name.to_owned();
    s.append(" ");
    s.append(version);
    s
}

/// The fixed caption shown under the about message.
pub fn about_caption() -> (r: String)
    ensures
        r@ == "詰碁練習アプリ\nDeveloped by Hiroki Takizawa"@,
{
    "詰碁練習アプリ\nDeveloped by Hiroki Takizawa".to_owned()
}

} // verus!
