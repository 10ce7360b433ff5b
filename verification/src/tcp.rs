//! The wire protocol: requests as tab-separated text, replies as records
//! separated by newlines.

use crate::armor::{
    base64_data, base64_decode, base64_encode, base64_text, is_base64_char, string_from_utf8,
    string_from_utf8_lossy, utf8_lossy_text,
};
use crate::number::{i32_to_string, int_text, parse_i32, parse_i32_str};
use crate::text::{join, join_tabs, split, split_str, texts, trim_end, trim_end_str, views};
use vstd::prelude::*;
use vstd::string::*;
use vstd::utf8::*;

verus! {

/// A request of the client.
#[derive(Debug, PartialEq)]
pub enum Action {
    CheckIdentity { password: String },
    GetInfo,
    AddWebsiteAccount {
        account: String,
        password: String,
        site_url: String,
        site_name: Option<String>,
        note: Option<String>,
    },
    ChangeWebsiteAccount {
        id: i32,
        new_account: String,
        new_password: String,
        new_site_name: Option<String>,
        new_site_url: String,
        new_note: Option<String>,
    },
    DeleteWebsiteAccount { website_id: i32 },
    CheckDeadLink,
}

/// One stored credential as the client knows it.
#[derive(Debug, PartialEq)]
pub struct AccountListItem {
    pub id: Option<i32>,
    pub account: String,
    pub password: String,
    pub site_url: String,
    pub site_name: Option<String>,
    pub note: Option<String>,
    pub is_dead: bool,
}

/// The credentials in the server's order, and the cursor into them.
#[derive(Debug)]
pub struct AccountList {
    pub list: Vec<AccountListItem>,
    pub selected: usize,
}

/// A reply of the server.
#[derive(Debug)]
#[allow(inconsistent_fields)]
pub enum Ack {
    Ack,
    Info { list: Vec<AccountListItem> },
    DeadLink { list: Vec<(i32, bool)> },
    IdentityError,
    DbError,
}

/// Why a reply could not be read.
#[derive(Debug, Clone, Copy, PartialEq, Eq, Structural)]
pub enum DecodeError {
    /// The leading code is a number, but none of the five known ones.
    UnknownCode,
    /// A number does not parse, or a note is not base64 of UTF-8 text.
    MalformedField,
    /// A record has fewer fields than its code asks for, or there is no
    /// record at all.
    Truncated,
}

/// Why a request got no reply.
#[derive(Debug, Clone, Copy, PartialEq, Eq, Structural)]
pub enum TransportError {
    ConnectFailed,
    WouldBlock,
    ClosedByPeer,
    Protocol(DecodeError),
}

/// A request with its texts as character sequences.
pub enum ActionView {
    CheckIdentity { password: Seq<char> },
    GetInfo,
    AddWebsiteAccount {
        account: Seq<char>,
        password: Seq<char>,
        site_url: Seq<char>,
        site_name: Option<Seq<char>>,
        note: Option<Seq<char>>,
    },
    ChangeWebsiteAccount {
        id: i32,
        new_account: Seq<char>,
        new_password: Seq<char>,
        new_site_name: Option<Seq<char>>,
        new_site_url: Seq<char>,
        new_note: Option<Seq<char>>,
    },
    DeleteWebsiteAccount { website_id: i32 },
    CheckDeadLink,
}

/// A credential with its texts as character sequences.
pub struct ItemView {
    pub id: Option<i32>,
    pub account: Seq<char>,
    pub password: Seq<char>,
    pub site_url: Seq<char>,
    pub site_name: Option<Seq<char>>,
    pub note: Option<Seq<char>>,
    pub is_dead: bool,
}

/// A reply with its texts as character sequences.
#[allow(inconsistent_fields)]
pub enum AckView {
    Ack,
    Info { list: Seq<ItemView> },
    DeadLink { list: Seq<(i32, bool)> },
    IdentityError,
    DbError,
}

/// The text of an optional string, if there is one.
pub open spec fn opt_view(o: Option<String>) -> Option<Seq<char>> {
    match o {
        Some(s) => Some(s@),
        None => None,
    }
}

/// An absent text counts as the empty text.
pub open spec fn or_empty(o: Option<Seq<char>>) -> Seq<char> {
    match o {
        Some(s) => s,
        None => Seq::empty(),
    }
}

/// The views of a list of credentials.
pub open spec fn items_view(list: Seq<AccountListItem>) -> Seq<ItemView> {
    Seq::new(list.len(), |i: int| list[i]@)
}

impl View for Action {
    type V = ActionView;

    open spec fn view(&self) -> ActionView {
        match *self {
            Action::CheckIdentity { password } => ActionView::CheckIdentity { password: password@ },
            Action::GetInfo => ActionView::GetInfo,
            Action::AddWebsiteAccount { account, password, site_url, site_name, note } => {
                ActionView::AddWebsiteAccount {
                    account: account@,
                    password: password@,
                    site_url: site_url@,
                    site_name: opt_view(site_name),
                    note: opt_view(note),
                }
            },
            Action::ChangeWebsiteAccount {
                id,
                new_account,
                new_password,
                new_site_name,
                new_site_url,
                new_note,
            } => ActionView::ChangeWebsiteAccount {
                id,
                new_account: new_account@,
                new_password: new_password@,
                new_site_name: opt_view(new_site_name),
                new_site_url: new_site_url@,
                new_note: opt_view(new_note),
            },
            Action::DeleteWebsiteAccount { website_id } => ActionView::DeleteWebsiteAccount {
                website_id,
            },
            Action::CheckDeadLink => ActionView::CheckDeadLink,
        }
    }
}

impl View for AccountListItem {
    type V = ItemView;

    open spec fn view(&self) -> ItemView {
        ItemView {
            id: self.id,
            account: self.account@,
            password: self.password@,
            site_url: self.site_url@,
            site_name: opt_view(self.site_name),
            note: opt_view(self.note),
            is_dead: self.is_dead,
        }
    }
}

impl View for Ack {
    type V = AckView;

    open spec fn view(&self) -> AckView {
        match *self {
            Ack::Ack => AckView::Ack,
            Ack::Info { list } => AckView::Info { list: items_view(list@) },
            Ack::DeadLink { list } => AckView::DeadLink { list: list@ },
            Ack::IdentityError => AckView::IdentityError,
            Ack::DbError => AckView::DbError,
        }
    }
}

impl AccountList {
    /// The cursor points at an item whenever there is one.
    pub open spec fn wf(&self) -> bool {
        self.list.len() > 0 ==> self.selected < self.list.len()
    }
}

impl Default for AccountList {
    fn default() -> (r: Self)
        ensures
            r.list@.len() == 0,
            r.selected == 0,
            r.wf(),
    {
        AccountList { list: Vec::new(), selected: 0 }
    }
}

/// The text that stands on the wire for a note: the base64 of its UTF-8
/// bytes.
pub open spec fn note_field(note: Seq<char>) -> Seq<char> {
    base64_text(encode_utf8(note))
}

/// The note that a wire field stands for: the field must be base64 of valid
/// UTF-8.
pub open spec fn field_note(field: Seq<char>) -> Result<Seq<char>, DecodeError> {
    match base64_data(field) {
        Some(bytes) => if valid_utf8(bytes) {
            Ok(decode_utf8(bytes))
        } else {
            Err(DecodeError::MalformedField)
        },
        None => Err(DecodeError::MalformedField),
    }
}

/// A character that frames the wire text, which no field may hold: the tab
/// between fields, the newline between records, the NUL of the padding.
pub open spec fn is_framing(c: char) -> bool {
    c == '\t' || c == '\n' || c == '\0'
}

/// Puts a note into its wire form. The result holds no framing character, is
/// empty only for the empty note, and `decode` reads the note back from it.
pub fn encode(data: String) -> (field: String)
    ensures
        field@ == note_field(data@),
        field_note(field@) == Ok::<Seq<char>, DecodeError>(data@),
        forall|i: int| 0 <= i < field@.len() ==> !is_framing(#[trigger] field@[i]),
        field@.len() == 0 <==> data@.len() == 0,
{
    let field = base64_encode(data.as_str().as_bytes());
    proof {
        encode_utf8_valid_utf8(data@);
        encode_utf8_decode_utf8(data@);
        assert forall|i: int| 0 <= i < field@.len() implies !is_framing(#[trigger] field@[i]) by {
            assert(is_base64_char(field@[i]));
        }
        if data@.len() > 0 {
            assert(encode_utf8(data@).len() > 0);
        }
    }
    field
}

/// Reads a note from the bytes that its wire form stands for. Fails with
/// `MalformedField` unless the bytes are valid UTF-8.
pub fn note_from_bytes(bytes: Vec<u8>) -> (r: Result<String, DecodeError>)
    ensures
        match r {
            Ok(note) => valid_utf8(bytes@) && note@ == decode_utf8(bytes@),
            Err(e) => !valid_utf8(bytes@) && e == DecodeError::MalformedField,
        },
{
    match string_from_utf8(bytes) {
        Ok(note) => {
            proof {
                encode_utf8_decode_utf8(note@);
            }
            Ok(note)
        },
        Err(_) => Err(DecodeError::MalformedField),
    }
}

/// Reads a note from its wire form. Fails with `MalformedField` unless the
/// field is base64 of valid UTF-8.
pub fn decode(data: String) -> (r: Result<String, DecodeError>)
    ensures
        match r {
            Ok(note) => field_note(data@) == Ok::<Seq<char>, DecodeError>(note@),
            Err(e) => field_note(data@) == Err::<Seq<char>, DecodeError>(e),
        },
{
    match base64_decode(data.as_str()) {
        Some(bytes) => note_from_bytes(bytes),
        None => Err(DecodeError::MalformedField),
    }
}

/// The fields of a request in the order they are sent: the code of the
/// variant, then its texts and numbers. An absent name or note is sent as the
/// empty text, and a note goes as base64.
pub open spec fn action_fields(a: ActionView) -> Seq<Seq<char>> {
    match a {
        ActionView::CheckIdentity { password } => seq![seq!['0'], password],
        ActionView::GetInfo => seq![seq!['1']],
        ActionView::AddWebsiteAccount { account, password, site_url, site_name, note } => seq![
            seq!['2'],
            account,
            password,
            site_url,
            or_empty(site_name),
            note_field(or_empty(note)),
        ],
        ActionView::ChangeWebsiteAccount {
            id,
            new_account,
            new_password,
            new_site_name,
            new_site_url,
            new_note,
        } => seq![
            seq!['3'],
            int_text(id as int),
            new_account,
            new_password,
            or_empty(new_site_name),
            new_site_url,
            note_field(or_empty(new_note)),
        ],
        ActionView::DeleteWebsiteAccount { website_id } => seq![
            seq!['4'],
            int_text(website_id as int),
        ],
        ActionView::CheckDeadLink => seq![seq!['5']],
    }
}

/// The text of a request on the wire: its fields with tabs between them, and
/// no newline at the end.
pub open spec fn action_wire(a: ActionView) -> Seq<char> {
    join(action_fields(a), '\t')
}

/// The string, or the empty string where there is none.
fn unwrap_or_empty(o: Option<String>) -> (s: String)
    ensures
        s@ == or_empty(opt_view(o)),
{
    match o {
        Some(s) => s,
        None => String::new(),
    }
}

/// The one-digit text of a code.
fn code_string(code: &'static str) -> (s: String)
    ensures
        s@ == code@,
{
    String::from_str(code)
}

/// Writes a request as the text that is sent for it.
pub fn depack_action(action: Action) -> (wire: String)
    ensures
        wire@ == action_wire(action@),
{
    proof {
        reveal_strlit("0");
        reveal_strlit("1");
        reveal_strlit("2");
        reveal_strlit("3");
        reveal_strlit("4");
        reveal_strlit("5");
    }
    let mut fields: Vec<String> = Vec::new();
    match action {
        Action::CheckIdentity { password } => {
            fields.push(code_string("0"));
            fields.push(password);
            assert("0"@ =~= seq!['0']);
        },
        Action::GetInfo => {
            fields.push(code_string("1"));
            assert("1"@ =~= seq!['1']);
        },
        Action::AddWebsiteAccount { account, password, site_url, site_name, note } => {
            fields.push(code_string("2"));
            fields.push(account);
            fields.push(password);
            fields.push(site_url);
            fields.push(unwrap_or_empty(site_name));
            fields.push(encode(unwrap_or_empty(note)));
            assert("2"@ =~= seq!['2']);
        },
        Action::ChangeWebsiteAccount {
            id,
            new_account,
            new_password,
            new_site_name,
            new_site_url,
            new_note,
        } => {
            fields.push(code_string("3"));
            fields.push(i32_to_string(id));
            fields.push(new_account);
            fields.push(new_password);
            fields.push(unwrap_or_empty(new_site_name));
            fields.push(new_site_url);
            fields.push(encode(unwrap_or_empty(new_note)));
            assert("3"@ =~= seq!['3']);
        },
        Action::DeleteWebsiteAccount { website_id } => {
            fields.push(code_string("4"));
            fields.push(i32_to_string(website_id));
            assert("4"@ =~= seq!['4']);
        },
        Action::CheckDeadLink => {
            fields.push(code_string("5"));
            assert("5"@ =~= seq!['5']);
        },
    }
    assert(texts(fields@) =~= action_fields(action@));
    join_tabs(&fields)
}

/// The note of a record's note field: none where the field is empty, else
/// the text that the field stands for.
pub open spec fn record_note(field: Seq<char>) -> Result<Option<Seq<char>>, DecodeError> {
    if field.len() == 0 {
        Ok(None)
    } else {
        match field_note(field) {
            Ok(note) => Ok(Some(note)),
            Err(e) => Err(e),
        }
    }
}

/// The credential that the fields of a record stand for, once its note has
/// been read: id, account, password, site URL, site name (empty for none),
/// the note's field, and a flag that is `0` for a living link. Fields after
/// the seventh are not read.
pub open spec fn item_of_fields(f: Seq<Seq<char>>, note: Option<Seq<char>>) -> Result<
    ItemView,
    DecodeError,
> {
    if f.len() < 7 {
        Err(DecodeError::Truncated)
    } else {
        match (parse_i32(f[0]), parse_i32(f[6])) {
            (Some(id), Some(flag)) => Ok(
                ItemView {
                    id: Some(id),
                    account: f[1],
                    password: f[2],
                    site_url: f[3],
                    site_name: if f[4].len() == 0 {
                        None
                    } else {
                        Some(f[4])
                    },
                    note,
                    is_dead: flag != 0,
                },
            ),
            _ => Err(DecodeError::MalformedField),
        }
    }
}

/// The credential that one record of an `Info` reply stands for. Its seven
/// fields, separated by tabs, are: id, account, password, site URL, site name
/// (empty for none), note (base64, empty for none), and a flag that is `0`
/// for a living link. Fields after the seventh are not read. A record that
/// is short of fields is `Truncated` whatever its fields hold.
pub open spec fn decode_item(record: Seq<char>) -> Result<ItemView, DecodeError> {
    let f = split(record, '\t');
    if f.len() < 7 {
        Err(DecodeError::Truncated)
    } else {
        match record_note(f[5]) {
            Ok(note) => item_of_fields(f, note),
            Err(e) => Err(e),
        }
    }
}

/// The pair that one record of a `DeadLink` reply stands for: an id and
/// whether its flag is `1`, which means dead. Fields after the second are not
/// read.
pub open spec fn decode_dead_link(record: Seq<char>) -> Result<(i32, bool), DecodeError> {
    let f = split(record, '\t');
    if f.len() < 2 {
        Err(DecodeError::Truncated)
    } else {
        match (parse_i32(f[0]), parse_i32(f[1])) {
            (Some(id), Some(flag)) => Ok((id, flag == 1)),
            _ => Err(DecodeError::MalformedField),
        }
    }
}

/// The credentials of a run of records, in their order; the error of the
/// first record that has one.
pub open spec fn decode_items(records: Seq<Seq<char>>) -> Result<Seq<ItemView>, DecodeError>
    decreases records.len(),
{
    if records.len() == 0 {
        Ok(Seq::empty())
    } else {
        match decode_items(records.drop_last()) {
            Err(e) => Err(e),
            Ok(items) => match decode_item(records.last()) {
                Err(e) => Err(e),
                Ok(item) => Ok(items.push(item)),
            },
        }
    }
}

/// The pairs of a run of `DeadLink` records, in their order; the error of the
/// first record that has one.
pub open spec fn decode_dead_links(records: Seq<Seq<char>>) -> Result<
    Seq<(i32, bool)>,
    DecodeError,
>
    decreases records.len(),
{
    if records.len() == 0 {
        Ok(Seq::empty())
    } else {
        match decode_dead_links(records.drop_last()) {
            Err(e) => Err(e),
            Ok(links) => match decode_dead_link(records.last()) {
                Err(e) => Err(e),
                Ok(link) => Ok(links.push(link)),
            },
        }
    }
}

/// The code of a reply: the first tab-separated token of its first record,
/// NUL padding at the record's end aside.
pub open spec fn reply_code(first: Seq<char>) -> Option<i32> {
    parse_i32(split(trim_end(first, '\0'), '\t')[0])
}

/// The reply that a run of records stands for. The first record carries the
/// code: 0 `Ack`, 1 `Info`, 2 `DeadLink`, 3 `IdentityError`, 4 `DbError`. The
/// records after it are the items of an `Info` or `DeadLink` reply, and are
/// not read for the other codes.
pub open spec fn decode_records(records: Seq<Seq<char>>) -> Result<AckView, DecodeError> {
    if records.len() == 0 {
        Err(DecodeError::Truncated)
    } else {
        match reply_code(records[0]) {
            None => Err(DecodeError::MalformedField),
            Some(code) => if code == 0 {
                Ok(AckView::Ack)
            } else if code == 1 {
                match decode_items(records.skip(1)) {
                    Ok(list) => Ok(AckView::Info { list }),
                    Err(e) => Err(e),
                }
            } else if code == 2 {
                match decode_dead_links(records.skip(1)) {
                    Ok(list) => Ok(AckView::DeadLink { list }),
                    Err(e) => Err(e),
                }
            } else if code == 3 {
                Ok(AckView::IdentityError)
            } else if code == 4 {
                Ok(AckView::DbError)
            } else {
                Err(DecodeError::UnknownCode)
            },
        }
    }
}

/// The reply that a received text stands for: the NUL padding at its end is
/// dropped, and what is left is cut into records at the newlines.
pub open spec fn decode_text(received: Seq<char>) -> Result<AckView, DecodeError> {
    decode_records(split(trim_end(received, '\0'), '\n'))
}

/// Whether an executable result is the given result over views.
pub open spec fn ack_is(r: Result<Ack, DecodeError>, v: Result<AckView, DecodeError>) -> bool {
    match r {
        Ok(ack) => v == Ok::<AckView, DecodeError>(ack@),
        Err(e) => v == Err::<AckView, DecodeError>(e),
    }
}

/// Builds the credential of a record from its fields and its note, which
/// has been read from the sixth field already. Fails with `Truncated` on
/// fewer than seven fields, and with `MalformedField` where the id or the
/// flag is no number.
pub fn item_from_fields(f: &Vec<&str>, note: Option<String>) -> (r: Result<
    AccountListItem,
    DecodeError,
>)
    ensures
        match r {
            Ok(item) => item_of_fields(views(f@), opt_view(note)) == Ok::<ItemView, DecodeError>(
                item@,
            ),
            Err(e) => item_of_fields(views(f@), opt_view(note)) == Err::<ItemView, DecodeError>(e),
        },
{
    if f.len() < 7 {
        return Err(DecodeError::Truncated);
    }
    assert(forall|i: int| 0 <= i < f.len() ==> f@[i]@ == #[trigger] views(f@)[i]);
    let id = match parse_i32_str(f[0]) {
        Some(id) => id,
        None => {
            return Err(DecodeError::MalformedField);
        },
    };
    let flag = match parse_i32_str(f[6]) {
        Some(flag) => flag,
        None => {
            return Err(DecodeError::MalformedField);
        },
    };
    let site_name = if f[4].is_empty() {
        None
    } else {
        Some(String::from_str(f[4]))
    };
    Ok(
        AccountListItem {
            id: Some(id),
            account: String::from_str(f[1]),
            password: String::from_str(f[2]),
            site_url: String::from_str(f[3]),
            site_name,
            note,
            is_dead: flag != 0,
        },
    )
}

/// Reads one record of an `Info` reply.
pub fn unpack_item(record: &str) -> (r: Result<AccountListItem, DecodeError>)
    ensures
        match r {
            Ok(item) => decode_item(record@) == Ok::<ItemView, DecodeError>(item@),
            Err(e) => decode_item(record@) == Err::<ItemView, DecodeError>(e),
        },
{
    let f = split_str(record, '\t');
    if f.len() < 7 {
        return Err(DecodeError::Truncated);
    }
    assert(f@[5]@ == views(f@)[5]);
    let note = if f[5].is_empty() {
        None
    } else {
        match decode(String::from_str(f[5])) {
            Ok(note) => Some(note),
            Err(e) => {
                return Err(e);
            },
        }
    };
    item_from_fields(&f, note)
}

/// Reads one record of a `DeadLink` reply.
pub fn unpack_dead_link(record: &str) -> (r: Result<(i32, bool), DecodeError>)
    ensures
        r == decode_dead_link(record@),
{
    let f = split_str(record, '\t');
    if f.len() < 2 {
        return Err(DecodeError::Truncated);
    }
    assert(forall|i: int| 0 <= i < f.len() ==> f@[i]@ == #[trigger] views(f@)[i]);
    let id = match parse_i32_str(f[0]) {
        Some(id) => id,
        None => {
            return Err(DecodeError::MalformedField);
        },
    };
    let flag = match parse_i32_str(f[1]) {
        Some(flag) => flag,
        None => {
            return Err(DecodeError::MalformedField);
        },
    };
    Ok((id, flag == 1))
}

/// Reads the code of a reply from its first record.
fn unpack_code(first: &str) -> (r: Option<i32>)
    ensures
        r == reply_code(first@),
{
    let trimmed = trim_end_str(first, '\0');
    let tokens = split_str(trimmed, '\t');
    proof {
        crate::text::lemma_split_pieces(trimmed@, '\t');
        assert(tokens@[0]@ == views(tokens@)[0]);
    }
    parse_i32_str(tokens[0])
}

/// Reads a reply from its records: the first holds the code, the others the
/// items. Fails with `Truncated` where there is no record or a record is
/// short of fields, with `MalformedField` where a number or a note does not
/// parse, and with `UnknownCode` where the code is a number other than 0 to 4.
pub fn pack_ack(parts: Vec<&str>) -> (r: Result<Ack, DecodeError>)
    ensures
        ack_is(r, decode_records(views(parts@))),
{
    let n = parts.len();
    if n == 0 {
        return Err(DecodeError::Truncated);
    }
    let ghost records = views(parts@);
    assert(records[0] == parts@[0]@);
    let code = match unpack_code(parts[0]) {
        Some(code) => code,
        None => {
            return Err(DecodeError::MalformedField);
        },
    };
    if code == 0 {
        Ok(Ack::Ack)
    } else if code == 1 {
        let mut list: Vec<AccountListItem> = Vec::new();
        let mut i: usize = 1;
        assert(records.skip(1).take(0) =~= Seq::<Seq<char>>::empty());
        assert(items_view(list@) =~= Seq::<ItemView>::empty());
        while i < n
            invariant
                n == parts.len(),
                records == views(parts@),
                reply_code(records[0]) == Some(code),
                code == 1,
                1 <= i <= n,
                decode_items(records.skip(1).take(i - 1)) == Ok::<Seq<ItemView>, DecodeError>(
                    items_view(list@),
                ),
            decreases n - i,
        {
            let ghost done = records.skip(1).take(i - 1);
            let ghost more = records.skip(1).take(i as int);
            proof {
                assert(more.drop_last() =~= done);
                assert(more.last() == parts@[i as int]@);
            }
            match unpack_item(parts[i]) {
                Ok(item) => {
                    proof {
                        assert(items_view(list@.push(item)) =~= items_view(list@).push(item@));
                    }
                    list.push(item);
                },
                Err(e) => {
                    proof {
                        lemma_decode_items_error(records.skip(1), i as int);
                    }
                    return Err(e);
                },
            }
            i += 1;
        }
        assert(records.skip(1).take(n - 1) =~= records.skip(1));
        Ok(Ack::Info { list })
    } else if code == 2 {
        let mut list: Vec<(i32, bool)> = Vec::new();
        let mut i: usize = 1;
        assert(records.skip(1).take(0) =~= Seq::<Seq<char>>::empty());
        while i < n
            invariant
                n == parts.len(),
                records == views(parts@),
                reply_code(records[0]) == Some(code),
                code == 2,
                1 <= i <= n,
                decode_dead_links(records.skip(1).take(i - 1)) == Ok::<
                    Seq<(i32, bool)>,
                    DecodeError,
                >(list@),
            decreases n - i,
        {
            let ghost done = records.skip(1).take(i - 1);
            let ghost more = records.skip(1).take(i as int);
            proof {
                assert(more.drop_last() =~= done);
                assert(more.last() == parts@[i as int]@);
            }
            match unpack_dead_link(parts[i]) {
                Ok(link) => {
                    list.push(link);
                },
                Err(e) => {
                    proof {
                        lemma_decode_dead_links_error(records.skip(1), i as int);
                    }
                    return Err(e);
                },
            }
            i += 1;
        }
        assert(records.skip(1).take(n - 1) =~= records.skip(1));
        Ok(Ack::DeadLink { list })
    } else if code == 3 {
        Ok(Ack::IdentityError)
    } else if code == 4 {
        Ok(Ack::DbError)
    } else {
        Err(DecodeError::UnknownCode)
    }
}

/// Once a prefix of the records fails, the whole run fails with the same
/// error.
pub proof fn lemma_decode_items_error(records: Seq<Seq<char>>, k: int)
    requires
        0 <= k <= records.len(),
        decode_items(records.take(k)) is Err,
    ensures
        decode_items(records) == decode_items(records.take(k)),
    decreases records.len(),
{
    if k == records.len() {
        assert(records.take(k) =~= records);
    } else {
        assert(records.drop_last().take(k) =~= records.take(k));
        lemma_decode_items_error(records.drop_last(), k);
    }
}

/// Once a prefix of the records fails, the whole run fails with the same
/// error.
pub proof fn lemma_decode_dead_links_error(records: Seq<Seq<char>>, k: int)
    requires
        0 <= k <= records.len(),
        decode_dead_links(records.take(k)) is Err,
    ensures
        decode_dead_links(records) == decode_dead_links(records.take(k)),
    decreases records.len(),
{
    if k == records.len() {
        assert(records.take(k) =~= records);
    } else {
        assert(records.drop_last().take(k) =~= records.take(k));
        lemma_decode_dead_links_error(records.drop_last(), k);
    }
}

/// Reads a reply from the text that was received: drops the NUL padding at
/// its end, cuts it into records at the newlines, and reads the records.
pub fn decode_response(received: &str) -> (r: Result<Ack, DecodeError>)
    ensures
        ack_is(r, decode_text(received@)),
{
    let trimmed = trim_end_str(received, '\0');
    let parts = split_str(trimmed, '\n');
    pack_ack(parts)
}

/// A decoding failure as the transport reports it.
pub open spec fn protocol(r: Result<AckView, DecodeError>) -> Result<AckView, TransportError> {
    match r {
        Ok(ack) => Ok(ack),
        Err(e) => Err(TransportError::Protocol(e)),
    }
}

/// What one read of a reply amounts to: a read of no bytes means that the
/// peer has closed; otherwise the text in the buffer is decoded.
pub open spec fn reply_of_read(count: usize, received: Seq<char>) -> Result<
    AckView,
    TransportError,
> {
    if count == 0 {
        Err(TransportError::ClosedByPeer)
    } else {
        protocol(decode_text(received))
    }
}

/// Whether an executable reply is the given reply over views.
pub open spec fn reply_is(
    r: Result<Ack, TransportError>,
    v: Result<AckView, TransportError>,
) -> bool {
    match r {
        Ok(ack) => v == Ok::<AckView, TransportError>(ack@),
        Err(e) => v == Err::<AckView, TransportError>(e),
    }
}

/// Turns the outcome of decoding into the outcome of a request.
pub fn reply_of_text(count: usize, received: &str) -> (r: Result<Ack, TransportError>)
    ensures
        reply_is(r, reply_of_read(count, received@)),
{
    if count == 0 {
        return Err(TransportError::ClosedByPeer);
    }
    match decode_response(received) {
        Ok(ack) => Ok(ack),
        Err(e) => Err(TransportError::Protocol(e)),
    }
}

/// Reads the reply out of a receive buffer of which `count` bytes were
/// filled by one read. The whole buffer is taken as text, malformed UTF-8
/// replaced, so the unfilled rest must be NUL.
pub fn read_response(count: usize, buffer: &[u8]) -> (r: Result<Ack, TransportError>)
    ensures
        reply_is(r, reply_of_read(count, utf8_lossy_text(buffer@))),
{
    let received = string_from_utf8_lossy(buffer);
    reply_of_text(count, received.as_str())
}

} // verus!
