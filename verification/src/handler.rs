//! The key bindings: which command each key gives in each mode.

use crate::app::{App, AppView, Focus, Status};
use crate::tcp::{Action, ActionView};
use vstd::prelude::*;

verus! {

/// The keys that the bindings tell apart.
#[derive(Debug, Clone, Copy, PartialEq, Eq)]
pub enum KeyCode {
    Char(char),
    Esc,
    Enter,
    Tab,
    /// Any other key.
    Other,
}

/// A key press: the key, and whether Control, and nothing else, was held
/// with it.
#[derive(Debug, Clone, Copy, PartialEq, Eq)]
pub struct Key {
    pub code: KeyCode,
    pub control: bool,
}

/// An input area of the page.
#[derive(Debug, Clone, Copy, PartialEq, Eq, Structural)]
pub enum Area {
    Login,
    Account,
    Name,
    Password,
    Url,
    Note,
    Search,
}

/// What is left to do outside the session after a key has been handled.
#[derive(Debug, PartialEq)]
pub enum Effect {
    Nothing,
    /// Send the request, and hand what comes back to `App::reply`.
    Send(Action),
    /// Let the input area take the key, and hand its text back to the
    /// session.
    Type(Area),
    /// Open the URL in the browser.
    Open(String),
}

/// An effect over character sequences.
pub enum EffectView {
    Nothing,
    Send(ActionView),
    Type(Area),
    Open(Seq<char>),
}

impl View for Effect {
    type V = EffectView;

    open spec fn view(&self) -> EffectView {
        match *self {
            Effect::Nothing => EffectView::Nothing,
            Effect::Send(action) => EffectView::Send(action@),
            Effect::Type(area) => EffectView::Type(area),
            Effect::Open(url) => EffectView::Open(url@),
        }
    }
}

/// The edit area that has the focus. Outside the ring it is the account
/// area.
pub open spec fn area_of(focus: Focus) -> Area {
    match focus {
        Focus::Name => Area::Name,
        Focus::Password => Area::Password,
        Focus::Url => Area::Url,
        Focus::Note => Area::Note,
        Focus::Account => Area::Account,
        Focus::List => Area::Account,
    }
}

/// A key at the login: Esc and Control-C end the program, Enter submits the
/// password, every other key is typed into the login area.
pub open spec fn login_key(v: AppView, key: Key) -> (AppView, EffectView) {
    match key.code {
        KeyCode::Char(c) => if (c == 'c' || c == 'C') && key.control {
            (v.quit(), EffectView::Nothing)
        } else {
            (v, EffectView::Type(Area::Login))
        },
        KeyCode::Esc => (v.quit(), EffectView::Nothing),
        KeyCode::Enter => (v.login(), EffectView::Send(v.login_action())),
        _ => (v, EffectView::Type(Area::Login)),
    }
}

/// A key at the question whether to delete: `y` deletes the selected item,
/// or just returns to the list where no item with an id is selected; `n` and
/// Esc return to the list; other keys do nothing.
pub open spec fn delete_key(v: AppView, key: Key) -> (AppView, EffectView) {
    match key.code {
        KeyCode::Char(c) => if c == 'y' || c == 'Y' {
            if v.has_selected_id() {
                (v.delete(), EffectView::Send(v.delete_action()))
            } else {
                (v.cancel_delete(), EffectView::Nothing)
            }
        } else if c == 'n' || c == 'N' {
            (v.cancel_delete(), EffectView::Nothing)
        } else {
            (v, EffectView::Nothing)
        },
        KeyCode::Esc => (v.cancel_delete(), EffectView::Nothing),
        _ => (v, EffectView::Nothing),
    }
}

/// A key in the search: Esc and Tab leave it, every other key is typed into
/// the search area.
pub open spec fn search_key(v: AppView, key: Key) -> (AppView, EffectView) {
    match key.code {
        KeyCode::Esc => (v.search(), EffectView::Nothing),
        KeyCode::Tab => (v.search(), EffectView::Nothing),
        _ => (v, EffectView::Type(Area::Search)),
    }
}

/// A key on the list: `/` and Tab search, Esc, `q` and Control-C end the
/// program, `e` edits and Enter visits the selected item if there is one,
/// `n` starts a new item, `j` and `k` move the cursor, `d` asks whether to
/// delete; other keys do nothing.
pub open spec fn list_key(v: AppView, key: Key) -> (AppView, EffectView) {
    match key.code {
        KeyCode::Char(c) => if c == '/' {
            (v.search(), EffectView::Nothing)
        } else if c == 'q' {
            (v.quit(), EffectView::Nothing)
        } else if c == 'c' || c == 'C' {
            if key.control {
                (v.quit(), EffectView::Nothing)
            } else {
                (v, EffectView::Nothing)
            }
        } else if c == 'e' {
            if v.has_selected() {
                (v.edit(), EffectView::Nothing)
            } else {
                (v, EffectView::Nothing)
            }
        } else if c == 'n' {
            (v.new_item(), EffectView::Nothing)
        } else if c == 'j' {
            (v.list_select_next_item(), EffectView::Nothing)
        } else if c == 'k' {
            (v.list_select_before_item(), EffectView::Nothing)
        } else if c == 'd' {
            (v.try_delete(), EffectView::Nothing)
        } else {
            (v, EffectView::Nothing)
        },
        KeyCode::Tab => (v.search(), EffectView::Nothing),
        KeyCode::Esc => (v.quit(), EffectView::Nothing),
        KeyCode::Enter => if v.has_selected() {
            (v, EffectView::Open(v.list[v.selected].site_url))
        } else {
            (v, EffectView::Nothing)
        },
        KeyCode::Other => (v, EffectView::Nothing),
    }
}

/// A key in an edit area: Esc confirms the edit, or just leaves it where a
/// change has no selected item with an id to go to; Tab moves the focus;
/// every other key is typed into the area that has the focus.
pub open spec fn edit_key(v: AppView, key: Key) -> (AppView, EffectView) {
    match key.code {
        KeyCode::Esc => if v.edit ==> v.has_selected_id() {
            (v.quit_edit(), EffectView::Send(v.quit_edit_action()))
        } else {
            (v.cancel_edit(), EffectView::Nothing)
        },
        KeyCode::Tab => (v.focus_next(), EffectView::Nothing),
        _ => (v, EffectView::Type(area_of(v.focus))),
    }
}

/// The state after a key, and what is left to do outside the session. The
/// mode selects the bindings; in the list and the edit mode the focus does.
pub open spec fn key_step(v: AppView, key: Key) -> (AppView, EffectView) {
    match v.status {
        Status::Login => login_key(v, key),
        Status::Delete => delete_key(v, key),
        Status::Search => search_key(v, key),
        Status::List | Status::Edit => if v.focus == Focus::List {
            list_key(v, key)
        } else {
            edit_key(v, key)
        },
    }
}

/// The edit area that has the focus.
fn focused_area(focus: Focus) -> (area: Area)
    ensures
        area == area_of(focus),
{
    match focus {
        Focus::Name => Area::Name,
        Focus::Password => Area::Password,
        Focus::Url => Area::Url,
        Focus::Note => Area::Note,
        Focus::Account => Area::Account,
        Focus::List => Area::Account,
    }
}

/// Handles a key at the login.
fn handle_login_key(key: Key, app: &mut App) -> (effect: Effect)
    ensures
        (final(app)@, effect@) == login_key(old(app)@, key),
{
    match key.code {
        KeyCode::Char(c) => {
            if (c == 'c' || c == 'C') && key.control {
                app.quit();
                Effect::Nothing
            } else {
                Effect::Type(Area::Login)
            }
        },
        KeyCode::Esc => {
            app.quit();
            Effect::Nothing
        },
        KeyCode::Enter => Effect::Send(app.login()),
        _ => Effect::Type(Area::Login),
    }
}

/// Handles a key at the question whether to delete.
fn handle_delete_key(key: Key, app: &mut App) -> (effect: Effect)
    ensures
        (final(app)@, effect@) == delete_key(old(app)@, key),
{
    match key.code {
        KeyCode::Char(c) => {
            if c == 'y' || c == 'Y' {
                if app.has_selected_id() {
                    Effect::Send(app.delete())
                } else {
                    app.cancel_delete();
                    Effect::Nothing
                }
            } else if c == 'n' || c == 'N' {
                app.cancel_delete();
                Effect::Nothing
            } else {
                Effect::Nothing
            }
        },
        KeyCode::Esc => {
            app.cancel_delete();
            Effect::Nothing
        },
        _ => Effect::Nothing,
    }
}

/// Handles a key in the search.
fn handle_search_key(key: Key, app: &mut App) -> (effect: Effect)
    ensures
        (final(app)@, effect@) == search_key(old(app)@, key),
{
    match key.code {
        KeyCode::Esc => {
            app.search();
            Effect::Nothing
        },
        KeyCode::Tab => {
            app.search();
            Effect::Nothing
        },
        _ => Effect::Type(Area::Search),
    }
}

/// Handles a key on the list.
fn handle_list_key(key: Key, app: &mut App) -> (effect: Effect)
    ensures
        (final(app)@, effect@) == list_key(old(app)@, key),
{
    match key.code {
        KeyCode::Char(c) => {
            if c == '/' {
                app.search();
            } else if c == 'q' {
                app.quit();
            } else if c == 'c' || c == 'C' {
                if key.control {
                    app.quit();
                }
            } else if c == 'e' {
                if app.has_selected() {
                    app.edit();
                }
            } else if c == 'n' {
                app.new_item();
            } else if c == 'j' {
                app.list_select_next_item();
            } else if c == 'k' {
                app.list_select_before_item();
            } else if c == 'd' {
                app.try_delete();
            }
            Effect::Nothing
        },
        KeyCode::Tab => {
            app.search();
            Effect::Nothing
        },
        KeyCode::Esc => {
            app.quit();
            Effect::Nothing
        },
        KeyCode::Enter => {
            if app.has_selected() {
                Effect::Open(app.visit())
            } else {
                Effect::Nothing
            }
        },
        KeyCode::Other => Effect::Nothing,
    }
}

/// Handles a key in an edit area.
fn handle_edit_key(key: Key, app: &mut App) -> (effect: Effect)
    ensures
        (final(app)@, effect@) == edit_key(old(app)@, key),
{
    match key.code {
        KeyCode::Esc => {
            if app.can_quit_edit() {
                Effect::Send(app.quit_edit())
            } else {
                app.cancel_edit();
                Effect::Nothing
            }
        },
        KeyCode::Tab => {
            app.focus_next();
            Effect::Nothing
        },
        _ => Effect::Type(focused_area(app.focus)),
    }
}

/// Handles one key: changes the session as the bindings of its mode say,
/// and returns what is left to do outside it. Every key is handled in every
/// state.
pub fn handle_key_events(key_event: Key, app: &mut App) -> (effect: Effect)
    ensures
        (final(app)@, effect@) == key_step(old(app)@, key_event),
        old(app)@.wf() ==> final(app)@.wf(),
{
    match app.status {
        Status::Login => handle_login_key(key_event, app),
        Status::Delete => handle_delete_key(key_event, app),
        Status::Search => handle_search_key(key_event, app),
        Status::List | Status::Edit => {
            match app.focus {
                Focus::List => handle_list_key(key_event, app),
                _ => handle_edit_key(key_event, app),
            }
        },
    }
}

} // verus!
