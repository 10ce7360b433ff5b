//! What holds of the wire format as a whole: the text of each request
//! written out, replies of well-formed records, and notes that come back as
//! they went.

use crate::number::{int_text, lemma_parse_int_text, parse_i32};
use crate::tcp::{
    action_fields, action_wire, decode_item, decode_items, decode_records, decode_text, encode,
    is_framing, item_of_fields, note_field, or_empty, record_note, reply_code, AckView, ActionView, DecodeError,
    ItemView,
};
use crate::text::{
    join, join_tabs, lemma_join_contains, lemma_join_push, lemma_split_cons, lemma_split_join,
    lemma_split_single, lemma_trim_end_unique, split, texts, trim_end,
};
use vstd::prelude::*;
use vstd::string::*;

verus! {

/// A tab as a text.
pub open spec fn tab() -> Seq<char> {
    seq!['\t']
}

/// The text of every request, written out: the code of its variant, then
/// each field behind a tab, in the order of the protocol, with the empty text
/// for an absent name or note, and the note as base64.
pub proof fn lemma_action_wire(a: ActionView)
    ensures
        match a {
            ActionView::CheckIdentity { password } => action_wire(a) == seq!['0'] + tab()
                + password,
            ActionView::GetInfo => action_wire(a) == seq!['1'],
            ActionView::AddWebsiteAccount { account, password, site_url, site_name, note } => {
                action_wire(a) == seq!['2'] + tab() + account + tab() + password + tab() + site_url
                    + tab() + or_empty(site_name) + tab() + note_field(or_empty(note))
            },
            ActionView::ChangeWebsiteAccount {
                id,
                new_account,
                new_password,
                new_site_name,
                new_site_url,
                new_note,
            } => action_wire(a) == seq!['3'] + tab() + int_text(id as int) + tab() + new_account
                + tab() + new_password + tab() + or_empty(new_site_name) + tab() + new_site_url
                + tab() + note_field(or_empty(new_note)),
            ActionView::DeleteWebsiteAccount { website_id } => action_wire(a) == seq!['4'] + tab()
                + int_text(website_id as int),
            ActionView::CheckDeadLink => action_wire(a) == seq!['5'],
        },
{
    let f = action_fields(a);
    let f1 = f.take(1);
    let f2 = f.take(2);
    let f3 = f.take(3);
    let f4 = f.take(4);
    let f5 = f.take(5);
    let f6 = f.take(6);
    let f7 = f.take(7);
    assert(join(f1, '\t') == f[0]);
    if f.len() >= 2 {
        assert(f2 =~= f1.push(f[1]));
        lemma_join_push(f1, '\t', f[1]);
    }
    if f.len() >= 3 {
        assert(f3 =~= f2.push(f[2]));
        lemma_join_push(f2, '\t', f[2]);
    }
    if f.len() >= 4 {
        assert(f4 =~= f3.push(f[3]));
        lemma_join_push(f3, '\t', f[3]);
    }
    if f.len() >= 5 {
        assert(f5 =~= f4.push(f[4]));
        lemma_join_push(f4, '\t', f[4]);
    }
    if f.len() >= 6 {
        assert(f6 =~= f5.push(f[5]));
        lemma_join_push(f5, '\t', f[5]);
    }
    if f.len() >= 7 {
        assert(f7 =~= f6.push(f[6]));
        lemma_join_push(f6, '\t', f[6]);
    }
    assert(f.take(f.len() as int) =~= f);
}

/// A run of records that each decode gives as many credentials, in the
/// records' order, each the credential of its record.
pub proof fn lemma_decode_items_all(records: Seq<Seq<char>>)
    requires
        forall|i: int| 0 <= i < records.len() ==> (#[trigger] decode_item(records[i])) is Ok,
    ensures
        decode_items(records) is Ok,
        decode_items(records)->Ok_0.len() == records.len(),
        forall|i: int|
            0 <= i < records.len() ==> (#[trigger] decode_item(records[i]))
                == Ok::<ItemView, DecodeError>(decode_items(records)->Ok_0[i]),
    decreases records.len(),
{
    if records.len() > 0 {
        let init = records.drop_last();
        assert forall|i: int| 0 <= i < init.len() implies (#[trigger] decode_item(init[i])) is Ok by {
            assert(init[i] == records[i]);
        }
        lemma_decode_items_all(init);
        assert(decode_item(records.last()) is Ok);
        let items = decode_items(records)->Ok_0;
        assert forall|i: int| 0 <= i < records.len() implies (#[trigger] decode_item(records[i]))
            == Ok::<ItemView, DecodeError>(items[i]) by {
            if i < init.len() {
                assert(init[i] == records[i]);
                assert(decode_item(init[i]) == Ok::<ItemView, DecodeError>(
                    decode_items(init)->Ok_0[i],
                ));
            }
        }
    }
}

/// A reply whose first record carries the code 1 and whose other records
/// each decode is an `Info` of exactly that many credentials, in the records'
/// order, each the credential of its record.
pub proof fn lemma_info_reply(records: Seq<Seq<char>>)
    requires
        records.len() >= 1,
        reply_code(records[0]) == Some(1i32),
        forall|i: int| 1 <= i < records.len() ==> (#[trigger] decode_item(records[i])) is Ok,
    ensures
        decode_records(records) matches Ok(AckView::Info { list }) && list.len() == records.len()
            - 1 && forall|i: int|
            1 <= i < records.len() ==> (#[trigger] decode_item(records[i])) == Ok::<
                ItemView,
                DecodeError,
            >(list[i - 1]),
{
    let rest = records.skip(1);
    assert forall|i: int| 0 <= i < rest.len() implies (#[trigger] decode_item(rest[i])) is Ok by {
        assert(rest[i] == records[i + 1]);
    }
    lemma_decode_items_all(rest);
    let list = decode_items(rest)->Ok_0;
    assert forall|i: int| 1 <= i < records.len() implies (#[trigger] decode_item(records[i]))
        == Ok::<ItemView, DecodeError>(list[i - 1]) by {
        assert(rest[i - 1] == records[i]);
        assert(decode_item(rest[i - 1]) == Ok::<ItemView, DecodeError>(list[i - 1]));
    }
}

/// What a decoded record says of each of its fields: the id and the flag are
/// the numbers that the first and the seventh field spell, the link is dead
/// exactly when the flag is not 0, the texts are the fields as they stand,
/// and an empty name or note field means none.
pub proof fn lemma_decode_item_fields(record: Seq<char>)
    requires
        decode_item(record) is Ok,
    ensures
        ({
            let f = split(record, '\t');
            let item = decode_item(record)->Ok_0;
            &&& f.len() >= 7
            &&& item.id == parse_i32(f[0])
            &&& item.id is Some
            &&& item.account == f[1]
            &&& item.password == f[2]
            &&& item.site_url == f[3]
            &&& item.site_name == (if f[4].len() == 0 {
                None
            } else {
                Some(f[4])
            })
            &&& record_note(f[5]) == Ok::<Option<Seq<char>>, DecodeError>(item.note)
            &&& (f[5].len() == 0 ==> item.note is None)
            &&& parse_i32(f[6]) is Some
            &&& item.is_dead == (parse_i32(f[6]) != Some(0i32))
        }),
{
}

/// The credential that carries nothing but a note: id 0, empty texts, no
/// name, a living link. The empty note counts as none.
pub open spec fn note_item(note: Seq<char>) -> ItemView {
    ItemView {
        id: Some(0i32),
        account: Seq::empty(),
        password: Seq::empty(),
        site_url: Seq::empty(),
        site_name: None,
        note: if note.len() == 0 {
            None
        } else {
            Some(note)
        },
        is_dead: false,
    }
}

/// Writes the `Info` reply of one credential that carries the given note and
/// nothing else. Whatever the note holds, tabs and newlines too, decoding
/// the reply gives the note back; the empty note comes back as none.
pub fn encode_note_as_item(note: String) -> (reply: String)
    ensures
        decode_text(reply@) == Ok::<AckView, DecodeError>(
            AckView::Info { list: seq![note_item(note@)] },
        ),
{
    proof {
        reveal_strlit("0");
        reveal_strlit("1\n");
    }
    let field = encode(note);
    let mut fields: Vec<String> = Vec::new();
    fields.push(String::from_str("0"));
    fields.push(String::new());
    fields.push(String::new());
    fields.push(String::new());
    fields.push(String::new());
    fields.push(field);
    fields.push(String::from_str("0"));
    let record = join_tabs(&fields);
    let mut reply = String::from_str("1\n");
    reply.append(record.as_str());
    proof {
        let zero = seq!['0'];
        let one = seq!['1'];
        let f = texts(fields@);
        assert("0"@ =~= zero);
        assert("1\n"@ =~= one + seq!['\n']);
        assert(f =~= seq![
            zero,
            Seq::empty(),
            Seq::empty(),
            Seq::empty(),
            Seq::empty(),
            fields@[5]@,
            zero,
        ]);
        assert forall|i: int| 0 <= i < f.len() implies !(#[trigger] f[i]).contains('\t') && !f[
            i
        ].contains('\n') by {
            if f[i].contains('\t') {
                let k = choose|k: int| 0 <= k < f[i].len() && f[i][k] == '\t';
                assert(is_framing(f[i][k]));
            }
            if f[i].contains('\n') {
                let k = choose|k: int| 0 <= k < f[i].len() && f[i][k] == '\n';
                assert(is_framing(f[i][k]));
            }
        }
        lemma_split_join(f, '\t');
        lemma_join_contains(f, '\t', '\n');
        // The record ends in the flag, so no padding is cut from the reply.
        assert(f.drop_last().push(zero) =~= f);
        lemma_join_push(f.drop_last(), '\t', zero);
        assert(record@.last() == '0');
        assert(reply@ =~= one + seq!['\n'] + record@);
        assert(reply@.last() == '0');
        lemma_trim_end_unique(reply@, '\0', reply@.len() as int);
        assert(reply@.take(reply@.len() as int) =~= reply@);
        // The reply is the code record and the one item record.
        assert(!one.contains('\n'));
        lemma_split_cons(one, '\n', record@);
        lemma_split_single(record@, '\n');
        let records = split(reply@, '\n');
        assert(records =~= seq![one, record@]);
        // The code record reads as 1.
        lemma_trim_end_unique(one, '\0', 1);
        assert(one.take(1) =~= one);
        assert(!one.contains('\t'));
        lemma_split_single(one, '\t');
        assert(int_text(1) =~= one) by {
            reveal_with_fuel(crate::number::digits, 2);
        }
        lemma_parse_int_text(1);
        assert(reply_code(records[0]) == Some(1i32));
        // The item record reads as the credential of the note.
        assert(int_text(0) =~= zero) by {
            reveal_with_fuel(crate::number::digits, 2);
        }
        lemma_parse_int_text(0);
        assert(parse_i32(zero) == Some(0i32));
        assert(record_note(f[5]) == Ok::<Option<Seq<char>>, DecodeError>(note_item(note@).note));
        assert(item_of_fields(f, note_item(note@).note) == Ok::<ItemView, DecodeError>(
            note_item(note@),
        ));
        assert(decode_item(record@) == Ok::<ItemView, DecodeError>(note_item(note@)));
        assert(records.skip(1) =~= seq![record@]);
        assert(records.skip(1).drop_last() =~= Seq::<Seq<char>>::empty());
        assert(records.skip(1).last() == record@);
        assert(decode_items(Seq::<Seq<char>>::empty()) == Ok::<Seq<ItemView>, DecodeError>(
            Seq::<ItemView>::empty(),
        ));
        assert(decode_items(records.skip(1)) == Ok::<Seq<ItemView>, DecodeError>(
            Seq::<ItemView>::empty().push(note_item(note@)),
        ));
        assert(Seq::<ItemView>::empty().push(note_item(note@)) =~= seq![note_item(note@)]);
    }
    reply
}

} // verus!
