//! The session: what the client knows and shows, and how each command and
//! each reply of the server changes it.
//!
//! No function here talks to the server. A command that needs the server
//! returns the request to send and notes in `pending` which reply it waits
//! for; `reply` then folds the reply into the state and may return a request
//! to follow.

use crate::armor::{lowercase_text, to_lowercase};
use crate::tcp::{
    items_view, opt_view, AccountList, AccountListItem, Ack, AckView, Action, ActionView, ItemView,
    TransportError,
};
use crate::text::{
    chars_of, contains_text, is_substring, lemma_split_pieces, split, split_str, views,
};
use vstd::prelude::*;
use vstd::string::*;

verus! {

/// Which input area takes the keystrokes while an item is edited. `List`
/// means none of them.
#[derive(Debug, Clone, Copy, PartialEq, Eq, Structural)]
pub enum Focus {
    List,
    Account,
    Name,
    Url,
    Note,
    Password,
}

/// The mode of the interaction.
#[derive(Debug, Clone, Copy, PartialEq, Eq, Structural)]
pub enum Status {
    Login,
    List,
    Search,
    Edit,
    Delete,
}

/// The reply that the session waits for.
#[derive(Debug, Clone, Copy, PartialEq, Eq, Structural)]
pub enum Pending {
    /// No request is under way.
    Idle,
    /// The answer to `CheckIdentity`.
    Identity,
    /// The answer to an added or changed account; its content is not read.
    Change,
    /// The answer to a deleted account.
    Removal,
    /// The answer to `GetInfo`.
    Listing,
}

/// The texts of the page's input areas.
#[derive(Debug)]
pub struct RunningPage {
    pub login: String,
    pub account: String,
    pub password: String,
    pub site_name: String,
    pub site_url: String,
    pub note: String,
    pub search: String,
}

/// The session.
#[derive(Debug)]
pub struct App {
    /// Whether the server has accepted the password.
    pub login: bool,
    pub status: Status,
    pub focus: Focus,
    /// Whether the item under edit exists already, or is a new one.
    pub edit: bool,
    /// Whether the program goes on.
    pub running: bool,
    pub pending: Pending,
    pub account_list: AccountList,
    pub page: RunningPage,
}

/// The texts of the input areas as character sequences.
pub struct PageView {
    pub login: Seq<char>,
    pub account: Seq<char>,
    pub password: Seq<char>,
    pub site_name: Seq<char>,
    pub site_url: Seq<char>,
    pub note: Seq<char>,
    pub search: Seq<char>,
}

/// The session over character sequences.
pub struct AppView {
    pub login: bool,
    pub status: Status,
    pub focus: Focus,
    pub edit: bool,
    pub running: bool,
    pub pending: Pending,
    pub list: Seq<ItemView>,
    pub selected: int,
    pub page: PageView,
}

impl View for RunningPage {
    type V = PageView;

    open spec fn view(&self) -> PageView {
        PageView {
            login: self.login@,
            account: self.account@,
            password: self.password@,
            site_name: self.site_name@,
            site_url: self.site_url@,
            note: self.note@,
            search: self.search@,
        }
    }
}

impl View for App {
    type V = AppView;

    open spec fn view(&self) -> AppView {
        AppView {
            login: self.login,
            status: self.status,
            focus: self.focus,
            edit: self.edit,
            running: self.running,
            pending: self.pending,
            list: items_view(self.account_list.list@),
            selected: self.account_list.selected as int,
            page: self.page@,
        }
    }
}

/// The first line of a text: what stands before its first newline.
pub open spec fn first_line(s: Seq<char>) -> Seq<char> {
    split(s, '\n')[0]
}

/// A text, or none where it is empty.
pub open spec fn non_empty(s: Seq<char>) -> Option<Seq<char>> {
    if s.len() == 0 {
        None
    } else {
        Some(s)
    }
}

/// The index after `selected` in a list of `len` items, going round from the
/// last to the first. An empty list leaves the index as it is.
pub open spec fn next_index(selected: int, len: int) -> int {
    if len <= 0 {
        selected
    } else {
        (selected + 1) % len
    }
}

/// The index before `selected` in a list of `len` items, going round from the
/// first to the last. An empty list leaves the index as it is.
pub open spec fn before_index(selected: int, len: int) -> int {
    if len <= 0 {
        selected
    } else if selected <= 0 {
        len - 1
    } else {
        (selected - 1) % len
    }
}

/// The index brought into a list of `len` items: unchanged where it points
/// at an item, the last item where it points past the end, 0 in an empty
/// list.
pub open spec fn clamp_index(selected: int, len: int) -> int {
    if len <= 0 {
        0
    } else if selected >= len {
        len - 1
    } else {
        selected
    }
}

/// The focus that follows `focus` in the ring of input areas. From outside
/// the ring the first area is entered.
pub open spec fn next_focus(focus: Focus) -> Focus {
    match focus {
        Focus::Account => Focus::Name,
        Focus::Name => Focus::Password,
        Focus::Password => Focus::Url,
        Focus::Url => Focus::Note,
        Focus::Note => Focus::Account,
        Focus::List => Focus::Account,
    }
}

impl PageView {
    /// The page with its five edit areas emptied; the login and the search
    /// area stay.
    pub open spec fn cleared(self) -> PageView {
        PageView {
            account: Seq::empty(),
            password: Seq::empty(),
            site_name: Seq::empty(),
            site_url: Seq::empty(),
            note: Seq::empty(),
            ..self
        }
    }

    /// The page with its edit areas filled from a credential; an absent name
    /// or note gives an empty area.
    pub open spec fn filled(self, item: ItemView) -> PageView {
        PageView {
            account: item.account,
            password: item.password,
            site_name: crate::tcp::or_empty(item.site_name),
            site_url: item.site_url,
            note: crate::tcp::or_empty(item.note),
            ..self
        }
    }

    /// The page with `text` in the edit area that has the focus. Outside the
    /// ring the account area takes it.
    pub open spec fn typed(self, focus: Focus, text: Seq<char>) -> PageView {
        match focus {
            Focus::Name => PageView { site_name: text, ..self },
            Focus::Password => PageView { password: text, ..self },
            Focus::Url => PageView { site_url: text, ..self },
            Focus::Note => PageView { note: text, ..self },
            Focus::Account => PageView { account: text, ..self },
            Focus::List => PageView { account: text, ..self },
        }
    }
}

impl AppView {
    /// The cursor points at an item whenever there is one.
    pub open spec fn wf(self) -> bool {
        self.list.len() > 0 ==> 0 <= self.selected < self.list.len()
    }

    /// The cursor points at an item.
    pub open spec fn has_selected(self) -> bool {
        0 <= self.selected < self.list.len()
    }

    /// The cursor points at an item that the server has given an id.
    pub open spec fn has_selected_id(self) -> bool {
        self.has_selected() && self.list[self.selected].id is Some
    }

    /// The state at the start: not logged in, nothing listed, nothing
    /// typed.
    pub open spec fn initial() -> AppView {
        AppView {
            login: false,
            status: Status::Login,
            focus: Focus::List,
            edit: false,
            running: true,
            pending: Pending::Idle,
            list: Seq::empty(),
            selected: 0,
            page: PageView {
                login: Seq::empty(),
                account: Seq::empty(),
                password: Seq::empty(),
                site_name: Seq::empty(),
                site_url: Seq::empty(),
                note: Seq::empty(),
                search: Seq::empty(),
            },
        }
    }

    /// The program ends.
    pub open spec fn quit(self) -> AppView {
        AppView { running: false, ..self }
    }

    /// The login area holds `text`.
    pub open spec fn login_input(self, text: Seq<char>) -> AppView {
        AppView { page: PageView { login: text, ..self.page }, ..self }
    }

    /// The search area holds `text`.
    pub open spec fn search_input(self, text: Seq<char>) -> AppView {
        AppView { page: PageView { search: text, ..self.page }, ..self }
    }

    /// The edit area that has the focus holds `text`.
    pub open spec fn edit_input(self, text: Seq<char>) -> AppView {
        AppView { page: self.page.typed(self.focus, text), ..self }
    }

    /// The request that `login` sends: the first line of the login area as
    /// the password.
    pub open spec fn login_action(self) -> ActionView {
        ActionView::CheckIdentity { password: first_line(self.page.login) }
    }

    /// The identity check is under way.
    pub open spec fn login(self) -> AppView {
        AppView { pending: Pending::Identity, ..self }
    }

    /// The fetch of the list is under way.
    pub open spec fn sync(self) -> AppView {
        AppView { pending: Pending::Listing, ..self }
    }

    /// The cursor is on the next item.
    pub open spec fn list_select_next_item(self) -> AppView {
        AppView { selected: next_index(self.selected, self.list.len() as int), ..self }
    }

    /// The cursor is on the item before.
    pub open spec fn list_select_before_item(self) -> AppView {
        AppView { selected: before_index(self.selected, self.list.len() as int), ..self }
    }

    /// The focus is on the next input area.
    pub open spec fn focus_next(self) -> AppView {
        AppView { focus: next_focus(self.focus), ..self }
    }

    /// Switches between the list and the search; other modes stay.
    pub open spec fn search(self) -> AppView {
        match self.status {
            Status::List => AppView { status: Status::Search, ..self },
            Status::Search => AppView { status: Status::List, ..self },
            _ => self,
        }
    }

    /// A new item is under edit: empty areas, focus on the account.
    pub open spec fn new_item(self) -> AppView {
        AppView {
            edit: false,
            status: Status::Edit,
            focus: Focus::Account,
            page: self.page.cleared(),
            ..self
        }
    }

    /// The selected item is under edit: its texts in the areas, focus on
    /// the account.
    pub open spec fn edit(self) -> AppView
        recommends
            self.has_selected(),
    {
        AppView {
            edit: true,
            status: Status::Edit,
            focus: Focus::Account,
            page: self.page.filled(self.list[self.selected]),
            ..self
        }
    }

    /// The request that `quit_edit` sends: a change of the selected item
    /// where an existing item was edited, else a new item. The one-line
    /// areas give their first line, the note area its whole text; an empty
    /// name or note is sent as none.
    pub open spec fn quit_edit_action(self) -> ActionView
        recommends
            self.edit ==> self.has_selected_id(),
    {
        let account = first_line(self.page.account);
        let password = first_line(self.page.password);
        let site_name = non_empty(first_line(self.page.site_name));
        let site_url = first_line(self.page.site_url);
        let note = non_empty(self.page.note);
        if self.edit {
            ActionView::ChangeWebsiteAccount {
                id: self.list[self.selected].id->0,
                new_account: account,
                new_password: password,
                new_site_name: site_name,
                new_site_url: site_url,
                new_note: note,
            }
        } else {
            ActionView::AddWebsiteAccount { account, password, site_url, site_name, note }
        }
    }

    /// The edit is confirmed: the areas are emptied, the list is shown, and
    /// the change is under way.
    pub open spec fn quit_edit(self) -> AppView {
        AppView {
            status: Status::List,
            focus: Focus::List,
            pending: Pending::Change,
            page: self.page.cleared(),
            ..self
        }
    }

    /// Leaves the edit without a request: the areas are emptied and the list
    /// is shown.
    pub open spec fn cancel_edit(self) -> AppView {
        AppView {
            status: Status::List,
            focus: Focus::List,
            page: self.page.cleared(),
            ..self
        }
    }

    /// The question whether to delete is shown.
    pub open spec fn try_delete(self) -> AppView {
        AppView { status: Status::Delete, ..self }
    }

    /// The question is answered with no: the list is shown.
    pub open spec fn cancel_delete(self) -> AppView {
        AppView { status: Status::List, ..self }
    }

    /// The request that `delete` sends: the id of the selected item.
    pub open spec fn delete_action(self) -> ActionView
        recommends
            self.has_selected_id(),
    {
        ActionView::DeleteWebsiteAccount { website_id: self.list[self.selected].id->0 }
    }

    /// The question is answered with yes: the list is shown, and the
    /// removal is under way.
    pub open spec fn delete(self) -> AppView {
        AppView { status: Status::List, pending: Pending::Removal, ..self }
    }

    /// The state after a reply has come, or has failed to come.
    ///
    /// Waiting for the identity check: `Ack` logs in, shows the list and
    /// goes on to fetch it; anything else changes nothing. Waiting for a
    /// change: whatever came, the list is fetched. Waiting for a removal:
    /// the list is fetched if any reply came. Waiting for the list: `Info`
    /// replaces the list, and the cursor is brought into it; anything else
    /// changes nothing. Not waiting: the reply is dropped.
    pub open spec fn reply(self, result: Result<AckView, TransportError>) -> AppView {
        match self.pending {
            Pending::Idle => self,
            Pending::Identity => match result {
                Ok(AckView::Ack) => AppView {
                    login: true,
                    status: Status::List,
                    pending: Pending::Listing,
                    ..self
                },
                _ => AppView { pending: Pending::Idle, ..self },
            },
            Pending::Change => AppView { pending: Pending::Listing, ..self },
            Pending::Removal => match result {
                Ok(_) => AppView { pending: Pending::Listing, ..self },
                Err(_) => AppView { pending: Pending::Idle, ..self },
            },
            Pending::Listing => match result {
                Ok(AckView::Info { list }) => AppView {
                    pending: Pending::Idle,
                    list,
                    selected: clamp_index(self.selected, list.len() as int),
                    ..self
                },
                _ => AppView { pending: Pending::Idle, ..self },
            },
        }
    }

    /// Whether the reply is followed by a request for the list.
    pub open spec fn reply_fetches(self, result: Result<AckView, TransportError>) -> bool {
        self.reply(result).pending == Pending::Listing
    }
}

/// The name under which a credential is shown: its site name, or its URL
/// where it has no name.
pub open spec fn display_name(item: ItemView) -> Seq<char> {
    match item.site_name {
        Some(name) => name,
        None => item.site_url,
    }
}

/// The line that stands for a credential in the list: account, ` - `, name.
pub open spec fn label(item: ItemView) -> Seq<char> {
    item.account + seq![' ', '-', ' '] + display_name(item)
}

/// Whether a credential is shown under a search text: always under the
/// empty text, else when the lowercase label holds the lowercase text.
pub open spec fn is_shown(item: ItemView, query: Seq<char>) -> bool {
    query.len() == 0 || is_substring(lowercase_text(label(item)), lowercase_text(query))
}

/// A reply over views.
pub open spec fn result_view(r: Result<Ack, TransportError>) -> Result<AckView, TransportError> {
    match r {
        Ok(ack) => Ok(ack@),
        Err(e) => Err(e),
    }
}

/// An optional request over views.
pub open spec fn opt_action_view(a: Option<Action>) -> Option<ActionView> {
    match a {
        Some(a) => Some(a@),
        None => None,
    }
}

/// The first line of `s` as a string of its own.
pub fn first_line_of(s: &str) -> (line: String)
    ensures
        line@ == first_line(s@),
{
    let parts = split_str(s, '\n');
    proof {
        lemma_split_pieces(s@, '\n');
        assert(views(parts@)[0] == parts@[0]@);
    }
    String::from_str(parts[0])
}

/// The string, or none where it is empty.
pub fn non_empty_string(s: String) -> (o: Option<String>)
    ensures
        opt_view(o) == non_empty(s@),
{
    if s.as_str().is_empty() {
        None
    } else {
        Some(s)
    }
}

/// The name under which a credential is shown.
pub fn display_name_of(item: &AccountListItem) -> (name: String)
    ensures
        name@ == display_name(item@),
{
    match &item.site_name {
        Some(name) => name.clone(),
        None => item.site_url.clone(),
    }
}

/// The line that stands for a credential in the list.
pub fn label_of(item: &AccountListItem) -> (text: String)
    ensures
        text@ == label(item@),
{
    proof {
        reveal_strlit(" - ");
    }
    let mut text = item.account.clone();
    text.append(" - ");
    let name = display_name_of(item);
    text.append(name.as_str());
    assert(" - "@ =~= seq![' ', '-', ' ']);
    text
}

/// Whether a credential is shown under a search text.
pub fn shown(item: &AccountListItem, query: &str) -> (b: bool)
    ensures
        b == is_shown(item@, query@),
{
    if query.is_empty() {
        return true;
    }
    let text = label_of(item);
    let low_text = to_lowercase(text.as_str());
    let low_query = to_lowercase(query);
    let hay = chars_of(low_text.as_str());
    let needle = chars_of(low_query.as_str());
    contains_text(&hay, &needle)
}

impl RunningPage {
    /// A page with nothing typed.
    pub fn new() -> (page: Self)
        ensures
            page@ == AppView::initial().page,
    {
        RunningPage {
            login: String::new(),
            account: String::new(),
            password: String::new(),
            site_name: String::new(),
            site_url: String::new(),
            note: String::new(),
            search: String::new(),
        }
    }

    /// Empties the five edit areas.
    pub fn clear(&mut self)
        ensures
            final(self)@ == old(self)@.cleared(),
    {
        self.account = String::new();
        self.password = String::new();
        self.site_name = String::new();
        self.site_url = String::new();
        self.note = String::new();
    }
}

impl Default for RunningPage {
    fn default() -> (page: Self)
        ensures
            page@ == AppView::initial().page,
    {
        RunningPage::new()
    }
}

impl Default for App {
    fn default() -> (app: Self)
        ensures
            app@ == AppView::initial(),
            app@.wf(),
    {
        let app = App {
            login: false,
            status: Status::Login,
            focus: Focus::List,
            edit: false,
            running: true,
            pending: Pending::Idle,
            account_list: AccountList { list: Vec::new(), selected: 0 },
            page: RunningPage::new(),
        };
        assert(app@.list =~= Seq::<ItemView>::empty());
        app
    }
}

impl App {
    /// The session at the start: not logged in, nothing listed, nothing
    /// typed.
    pub fn new() -> (app: Self)
        ensures
            app@ == AppView::initial(),
            app@.wf(),
    {
        let app = App {
            login: false,
            status: Status::Login,
            focus: Focus::List,
            edit: false,
            running: true,
            pending: Pending::Idle,
            account_list: AccountList { list: Vec::new(), selected: 0 },
            page: RunningPage::new(),
        };
        assert(app@.list =~= Seq::<ItemView>::empty());
        app
    }

    /// A tick of the clock changes nothing.
    pub fn tick(&self) {
    }

    /// Ends the program.
    pub fn quit(&mut self)
        ensures
            final(self)@ == old(self)@.quit(),
    {
        self.running = false;
    }

    /// Takes over the text of the login area.
    pub fn login_input(&mut self, text: String)
        ensures
            final(self)@ == old(self)@.login_input(text@),
    {
        self.page.login = text;
    }

    /// Takes over the text of the search area.
    pub fn search_input(&mut self, text: String)
        ensures
            final(self)@ == old(self)@.search_input(text@),
    {
        self.page.search = text;
    }

    /// Takes over the text of the edit area that has the focus.
    pub fn edit_input(&mut self, text: String)
        ensures
            final(self)@ == old(self)@.edit_input(text@),
    {
        match self.focus {
            Focus::Name => {
                self.page.site_name = text;
            },
            Focus::Password => {
                self.page.password = text;
            },
            Focus::Url => {
                self.page.site_url = text;
            },
            Focus::Note => {
                self.page.note = text;
            },
            Focus::Account => {
                self.page.account = text;
            },
            Focus::List => {
                self.page.account = text;
            },
        }
    }

    /// Asks for the list: returns `GetInfo` and waits for its reply.
    pub fn sync(&mut self) -> (action: Action)
        ensures
            final(self)@ == old(self)@.sync(),
            action@ == ActionView::GetInfo,
    {
        self.pending = Pending::Listing;
        Action::GetInfo
    }

    /// Submits the password: returns `CheckIdentity` with the first line of
    /// the login area and waits for its reply.
    pub fn login(&mut self) -> (action: Action)
        ensures
            final(self)@ == old(self)@.login(),
            action@ == old(self)@.login_action(),
    {
        let password = first_line_of(self.page.login.as_str());
        self.pending = Pending::Identity;
        Action::CheckIdentity { password }
    }

    /// Folds a reply, or the failure to get one, into the state, and
    /// returns `GetInfo` where the list is to be fetched next.
    pub fn reply(&mut self, result: Result<Ack, TransportError>) -> (next: Option<Action>)
        ensures
            final(self)@ == old(self)@.reply(result_view(result)),
            opt_action_view(next) == (if old(self)@.reply_fetches(result_view(result)) {
                Some(ActionView::GetInfo)
            } else {
                None
            }),
            old(self)@.wf() ==> final(self)@.wf(),
    {
        match self.pending {
            Pending::Idle => None,
            Pending::Identity => match result {
                Ok(Ack::Ack) => {
                    self.login = true;
                    self.status = Status::List;
                    self.pending = Pending::Listing;
                    Some(Action::GetInfo)
                },
                _ => {
                    self.pending = Pending::Idle;
                    None
                },
            },
            Pending::Change => {
                self.pending = Pending::Listing;
                Some(Action::GetInfo)
            },
            Pending::Removal => match result {
                Ok(_) => {
                    self.pending = Pending::Listing;
                    Some(Action::GetInfo)
                },
                Err(_) => {
                    self.pending = Pending::Idle;
                    None
                },
            },
            Pending::Listing => match result {
                Ok(Ack::Info { list }) => {
                    let len = list.len();
                    self.account_list.list = list;
                    if len == 0 {
                        self.account_list.selected = 0;
                    } else if self.account_list.selected >= len {
                        self.account_list.selected = len - 1;
                    }
                    self.pending = Pending::Idle;
                    None
                },
                _ => {
                    self.pending = Pending::Idle;
                    None
                },
            },
        }
    }

    /// Moves the cursor to the next item, from the last to the first.
    pub fn list_select_next_item(&mut self)
        ensures
            final(self)@ == old(self)@.list_select_next_item(),
            final(self)@.list.len() > 0 ==> final(self)@.has_selected(),
    {
        let len = self.account_list.list.len();
        if len == 0 {
            return ;
        }
        let at = self.account_list.selected % len;
        assert((self.account_list.selected + 1) % (len as int) == if at + 1 == len {
            0
        } else {
            at + 1
        }) by (nonlinear_arith)
            requires
                len > 0,
                at == self.account_list.selected % len,
        ;
        self.account_list.selected = if at + 1 == len {
            0
        } else {
            at + 1
        };
    }

    /// Moves the cursor to the item before, from the first to the last.
    pub fn list_select_before_item(&mut self)
        ensures
            final(self)@ == old(self)@.list_select_before_item(),
            final(self)@.list.len() > 0 ==> final(self)@.has_selected(),
    {
        let len = self.account_list.list.len();
        if len == 0 {
            return ;
        }
        if self.account_list.selected == 0 {
            self.account_list.selected = len - 1;
        } else {
            self.account_list.selected = (self.account_list.selected - 1) % len;
        }
    }

    /// Gives the focus to the next input area of the ring.
    pub fn focus_next(&mut self)
        ensures
            final(self)@ == old(self)@.focus_next(),
    {
        self.focus = match self.focus {
            Focus::Account => Focus::Name,
            Focus::Name => Focus::Password,
            Focus::Password => Focus::Url,
            Focus::Url => Focus::Note,
            Focus::Note => Focus::Account,
            Focus::List => Focus::Account,
        };
    }

    /// Switches between the list and the search. The list itself is not
    /// touched.
    pub fn search(&mut self)
        ensures
            final(self)@ == old(self)@.search(),
    {
        match self.status {
            Status::List => {
                self.status = Status::Search;
            },
            Status::Search => {
                self.status = Status::List;
            },
            _ => {},
        }
    }

    /// Starts a new item: empty edit areas, focus on the account.
    pub fn new_item(&mut self)
        ensures
            final(self)@ == old(self)@.new_item(),
    {
        self.page.clear();
        self.edit = false;
        self.status = Status::Edit;
        self.focus = Focus::Account;
    }

    /// Starts the edit of the selected item: its texts in the edit areas,
    /// focus on the account.
    pub fn edit(&mut self)
        requires
            old(self)@.has_selected(),
        ensures
            final(self)@ == old(self)@.edit(),
    {
        let selected = self.account_list.selected;
        let account = self.account_list.list[selected].account.clone();
        let password = self.account_list.list[selected].password.clone();
        let site_url = self.account_list.list[selected].site_url.clone();
        let site_name = match &self.account_list.list[selected].site_name {
            Some(name) => name.clone(),
            None => String::new(),
        };
        let note = match &self.account_list.list[selected].note {
            Some(note) => note.clone(),
            None => String::new(),
        };
        self.page.account = account;
        self.page.password = password;
        self.page.site_url = site_url;
        self.page.site_name = site_name;
        self.page.note = note;
        self.edit = true;
        self.status = Status::Edit;
        self.focus = Focus::Account;
    }

    /// Whether `quit_edit` can build its request: a new item always can, a
    /// change needs a selected item with an id.
    pub fn can_quit_edit(&self) -> (b: bool)
        ensures
            b == (self@.edit ==> self@.has_selected_id()),
    {
        !self.edit || self.has_selected_id()
    }

    /// Whether the cursor points at an item.
    pub fn has_selected(&self) -> (b: bool)
        ensures
            b == self@.has_selected(),
    {
        self.account_list.selected < self.account_list.list.len()
    }

    /// The item that the cursor points at, if it points at one.
    pub fn selected_item(&self) -> (item: Option<&AccountListItem>)
        ensures
            item is Some == self@.has_selected(),
            item matches Some(it) ==> *it == self.account_list.list@[self@.selected],
    {
        if self.account_list.selected < self.account_list.list.len() {
            Some(&self.account_list.list[self.account_list.selected])
        } else {
            None
        }
    }

    /// Whether the cursor points at an item that has an id.
    pub fn has_selected_id(&self) -> (b: bool)
        ensures
            b == self@.has_selected_id(),
    {
        self.account_list.selected < self.account_list.list.len()
            && self.account_list.list[self.account_list.selected].id.is_some()
    }

    /// Confirms the edit: returns the request built from the edit areas,
    /// empties them, shows the list and waits for the reply.
    pub fn quit_edit(&mut self) -> (action: Action)
        requires
            old(self)@.edit ==> old(self)@.has_selected_id(),
        ensures
            final(self)@ == old(self)@.quit_edit(),
            action@ == old(self)@.quit_edit_action(),
    {
        let account = first_line_of(self.page.account.as_str());
        let password = first_line_of(self.page.password.as_str());
        let site_name = non_empty_string(first_line_of(self.page.site_name.as_str()));
        let site_url = first_line_of(self.page.site_url.as_str());
        let note = non_empty_string(self.page.note.clone());
        let action = if self.edit {
            let id = self.account_list.list[self.account_list.selected].id.unwrap();
            Action::ChangeWebsiteAccount {
                id,
                new_account: account,
                new_password: password,
                new_site_name: site_name,
                new_site_url: site_url,
                new_note: note,
            }
        } else {
            Action::AddWebsiteAccount { account, password, site_url, site_name, note }
        };
        self.page.clear();
        self.status = Status::List;
        self.focus = Focus::List;
        self.pending = Pending::Change;
        action
    }

    /// Leaves the edit without a request.
    pub fn cancel_edit(&mut self)
        ensures
            final(self)@ == old(self)@.cancel_edit(),
    {
        self.page.clear();
        self.status = Status::List;
        self.focus = Focus::List;
    }

    /// The URL of the selected item, for the browser to open.
    pub fn visit(&self) -> (url: String)
        requires
            self@.has_selected(),
        ensures
            url@ == self@.list[self@.selected].site_url,
    {
        self.account_list.list[self.account_list.selected].site_url.clone()
    }

    /// Asks whether the selected item is to be deleted.
    pub fn try_delete(&mut self)
        ensures
            final(self)@ == old(self)@.try_delete(),
    {
        self.status = Status::Delete;
    }

    /// Answers no: back to the list.
    pub fn cancel_delete(&mut self)
        ensures
            final(self)@ == old(self)@.cancel_delete(),
    {
        self.status = Status::List;
    }

    /// Answers yes: returns the request that deletes the selected item,
    /// shows the list and waits for the reply.
    pub fn delete(&mut self) -> (action: Action)
        requires
            old(self)@.has_selected_id(),
        ensures
            final(self)@ == old(self)@.delete(),
            action@ == old(self)@.delete_action(),
    {
        let id = self.account_list.list[self.account_list.selected].id.unwrap();
        self.status = Status::List;
        self.pending = Pending::Removal;
        Action::DeleteWebsiteAccount { website_id: id }
    }

    /// The positions of the items that are shown under the text of the
    /// search area, in the order of the list: every item that matches, and
    /// no other. The list itself is not touched.
    pub fn visible_items(&self) -> (shown_at: Vec<usize>)
        ensures
            forall|k: int|
                0 <= k < shown_at.len() ==> (#[trigger] shown_at[k]) < self@.list.len() && is_shown(
                    self@.list[shown_at[k] as int],
                    self@.page.search,
                ),
            forall|j: int, k: int|
                0 <= j < k < shown_at.len() ==> (#[trigger] shown_at[j]) < (#[trigger] shown_at[k]),
            forall|i: int|
                0 <= i < self@.list.len() && is_shown(#[trigger] self@.list[i], self@.page.search)
                    ==> shown_at@.contains(i as usize),
    {
        let mut shown_at: Vec<usize> = Vec::new();
        let n = self.account_list.list.len();
        let mut i: usize = 0;
        while i < n
            invariant
                n == self.account_list.list.len(),
                i <= n,
                forall|k: int|
                    0 <= k < shown_at.len() ==> (#[trigger] shown_at[k]) < i && is_shown(
                        self@.list[shown_at[k] as int],
                        self@.page.search,
                    ),
                forall|j: int, k: int|
                    0 <= j < k < shown_at.len() ==> (#[trigger] shown_at[j]) < (
                    #[trigger] shown_at[k]),
                forall|m: int|
                    0 <= m < i && is_shown(#[trigger] self@.list[m], self@.page.search)
                        ==> shown_at@.contains(m as usize),
            decreases n - i,
        {
            if shown(&self.account_list.list[i], self.page.search.as_str()) {
                let ghost before = shown_at@;
                shown_at.push(i);
                proof {
                    assert(shown_at@[before.len() as int] == i);
                    assert forall|m: int|
                        0 <= m < i + 1 && is_shown(
                            #[trigger] self@.list[m],
                            self@.page.search,
                        ) implies shown_at@.contains(m as usize) by {
                        if m < i {
                            let k = choose|k: int| 0 <= k < before.len() && before[k] == m as usize;
                            assert(shown_at@[k] == m as usize);
                        }
                    }
                }
            }
            i += 1;
        }
        shown_at
    }
}

} // verus!
