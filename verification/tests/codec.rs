use you_should_not_pass_client::tcp::{
    decode, decode_response, depack_action, encode, item_from_fields, note_from_bytes, pack_ack,
    read_response, reply_of_text, unpack_dead_link, unpack_item, AccountList, AccountListItem, Ack,
    Action, DecodeError, TransportError,
};
use you_should_not_pass_client::wire_laws::encode_note_as_item;

fn item(id: i32, site_name: Option<&str>, note: Option<&str>, is_dead: bool) -> AccountListItem {
    AccountListItem {
        id: Some(id),
        account: "my_account".to_string(),
        password: "my_password".to_string(),
        site_url: "my_site_url".to_string(),
        site_name: site_name.map(|s| s.to_string()),
        note: note.map(|s| s.to_string()),
        is_dead,
    }
}

#[test]
fn test_depack_action() {
    assert_eq!(
        depack_action(Action::CheckIdentity {
            password: "my_password".to_string()
        }),
        "0\tmy_password"
    );
    assert_eq!(depack_action(Action::GetInfo), "1");
    assert_eq!(
        depack_action(Action::AddWebsiteAccount {
            account: "my_account".to_string(),
            password: "my_password".to_string(),
            site_url: "my_site_url".to_string(),
            site_name: Some("my_site_name".to_string()),
            note: Some("my_note".to_string())
        }),
        "2\tmy_account\tmy_password\tmy_site_url\tmy_site_name\tbXlfbm90ZQ=="
    );
    assert_eq!(
        depack_action(Action::ChangeWebsiteAccount {
            id: 1,
            new_account: "my_account".to_string(),
            new_password: "my_password".to_string(),
            new_site_name: Some("my_site_name".to_string()),
            new_site_url: "my_site_url".to_string(),
            new_note: Some("my_note".to_string())
        }),
        "3\t1\tmy_account\tmy_password\tmy_site_name\tmy_site_url\tbXlfbm90ZQ=="
    );
    assert_eq!(
        depack_action(Action::DeleteWebsiteAccount { website_id: 1 }),
        "4\t1"
    );
    assert_eq!(depack_action(Action::CheckDeadLink), "5");

    // The code on the wire is the number of the variant, never its name,
    // and a note never travels as plain text.
    assert_ne!(
        depack_action(Action::CheckIdentity {
            password: "my_password".to_string()
        }),
        "CheckIdentity\tmy_password"
    );
    assert_ne!(depack_action(Action::GetInfo), "Login");
    assert_ne!(
        depack_action(Action::AddWebsiteAccount {
            account: "my_account".to_string(),
            password: "my_password".to_string(),
            site_url: "my_site_url".to_string(),
            site_name: Some("my_site_name".to_string()),
            note: Some("my_note".to_string())
        }),
        "AddWebsiteAccount\tmy_account\tmy_password\tmy_site_url\tmy_site_name\tmy_note"
    );
    assert_ne!(
        depack_action(Action::DeleteWebsiteAccount { website_id: 1 }),
        "DeleteWebsiteAccount\t1"
    );
    assert_ne!(depack_action(Action::CheckDeadLink), "CheckDeadLink");
}

#[test]
fn test_pack_ack() {
    let parts = vec!["0"];
    let ack = pack_ack(parts).unwrap();
    if let Ack::Ack = ack {
    } else {
        panic!("Ack error");
    }

    let parts = vec![
        "1",
        "1\tmy_account\tmy_password\tmy_site_url\tmy_site_name\tbXlfbm90ZQ==\t1",
        "2\tmy_account\tmy_password\tmy_site_url\tmy_site_name\tbXlfbm90ZQ==\t1",
        "3\tmy_account\tmy_password\tmy_site_url\t\t\t0",
    ];
    let ack = pack_ack(parts).unwrap();
    if let Ack::Info { list } = ack {
        assert_eq!(list.len(), 3);
        assert_eq!(list[0].id, Some(1));
        assert_eq!(list[0].account, "my_account");
        assert_eq!(list[0].password, "my_password");
        assert_eq!(list[0].site_url, "my_site_url");
        assert_eq!(list[0].site_name, Some("my_site_name".to_string()));
        assert_eq!(list[0].note, Some("my_note".to_string()));
        assert!(list[0].is_dead);
        assert_eq!(list[1].id, Some(2));
        assert_eq!(list[1].account, "my_account");
        assert_eq!(list[1].password, "my_password");
        assert_eq!(list[1].site_url, "my_site_url");
        assert_eq!(list[1].site_name, Some("my_site_name".to_string()));
        assert_eq!(list[1].note, Some("my_note".to_string()));
        assert!(list[1].is_dead);
        assert_eq!(list[2].id, Some(3));
        assert_eq!(list[2].account, "my_account");
        assert_eq!(list[2].password, "my_password");
        assert_eq!(list[2].site_url, "my_site_url");
        assert_eq!(list[2].site_name, None);
        assert_eq!(list[2].note, None);
        assert!(!list[2].is_dead);
    } else {
        panic!("Info error");
    }

    let parts = vec!["2"];
    let ack = pack_ack(parts).unwrap();
    if let Ack::DeadLink { list } = ack {
        assert!(list.is_empty());
    } else {
        panic!("DeadLink error");
    }

    let parts = vec!["3"];
    let ack = pack_ack(parts).unwrap();
    if let Ack::IdentityError = ack {
    } else {
        panic!("IdentityError error");
    }

    let parts = vec!["4"];
    let ack = pack_ack(parts).unwrap();
    if let Ack::DbError = ack {
    } else {
        panic!("DbError error");
    }

    // A code must be a number: the names of the replies do not parse.
    for name in ["Ack", "Info", "DeadLink", "IdentityError", "DbError"] {
        assert_eq!(pack_ack(vec![name]).unwrap_err(), DecodeError::MalformedField);
    }
    // A note must be base64: plain text in the note field does not decode.
    assert_eq!(
        pack_ack(vec![
            "1",
            "1\tmy_account\tmy_password\tmy_site_url\tmy_site_name\tmy_note\t1",
        ])
        .unwrap_err(),
        DecodeError::MalformedField
    );
    assert_eq!(
        pack_ack(vec![
            "1",
            "3\tmy_account\tmy_password\tmy_site_url\t\t\t0",
            "2\tmy_account\tmy_password\tmy_site_url\tmy_site_name\tmy_note\t1",
        ])
        .unwrap_err(),
        DecodeError::MalformedField
    );
}

#[test]
fn pack_ack_of_no_record_is_truncated() {
    assert_eq!(pack_ack(Vec::new()).unwrap_err(), DecodeError::Truncated);
}

#[test]
fn info_reply_with_one_bare_item() {
    let ack = decode_response("1\n3\tacc\tpwd\turl\t\t\t0").unwrap();
    match ack {
        Ack::Info { list } => {
            assert_eq!(
                list,
                vec![AccountListItem {
                    id: Some(3),
                    account: "acc".to_string(),
                    password: "pwd".to_string(),
                    site_url: "url".to_string(),
                    site_name: None,
                    note: None,
                    is_dead: false,
                }]
            );
        }
        other => panic!("not an Info: {:?}", other),
    }
}

#[test]
fn info_items_keep_their_order() {
    let mut text = String::from("1");
    for id in 0..20 {
        text.push_str(&format!("\n{}\ta{}\tp{}\tu{}\tn{}\t\t{}", id, id, id, id, id, id % 3));
    }
    match decode_response(&text).unwrap() {
        Ack::Info { list } => {
            assert_eq!(list.len(), 20);
            for (i, it) in list.iter().enumerate() {
                assert_eq!(it.id, Some(i as i32));
                assert_eq!(it.account, format!("a{}", i));
                assert_eq!(it.password, format!("p{}", i));
                assert_eq!(it.site_url, format!("u{}", i));
                assert_eq!(it.site_name, Some(format!("n{}", i)));
                assert_eq!(it.note, None);
                assert_eq!(it.is_dead, i % 3 != 0);
            }
        }
        other => panic!("not an Info: {:?}", other),
    }
}

#[test]
fn dead_flag_is_anything_but_zero() {
    assert!(!unpack_item("1\ta\tp\tu\t\t\t0").unwrap().is_dead);
    assert!(unpack_item("1\ta\tp\tu\t\t\t1").unwrap().is_dead);
    assert!(unpack_item("1\ta\tp\tu\t\t\t2").unwrap().is_dead);
    assert!(unpack_item("1\ta\tp\tu\t\t\t-1").unwrap().is_dead);
    assert!(!unpack_item("1\ta\tp\tu\t\t\t+0").unwrap().is_dead);
}

#[test]
fn item_fields_after_the_seventh_are_not_read() {
    assert_eq!(
        unpack_item("1\tmy_account\tmy_password\tmy_site_url\t\t\t0\textra\tmore").unwrap(),
        item(1, None, None, false)
    );
}

#[test]
fn short_item_is_truncated() {
    assert_eq!(unpack_item("").unwrap_err(), DecodeError::Truncated);
    assert_eq!(unpack_item("1\ta\tp\tu\t\t").unwrap_err(), DecodeError::Truncated);
    // The count of fields is looked at before any field is.
    assert_eq!(unpack_item("x\ta\tp").unwrap_err(), DecodeError::Truncated);
    assert_eq!(decode_response("1\n3\tacc").unwrap_err(), DecodeError::Truncated);
    assert_eq!(decode_response("1\n").unwrap_err(), DecodeError::Truncated);
}

#[test]
fn bad_numbers_are_malformed() {
    assert_eq!(unpack_item("x\ta\tp\tu\t\t\t0").unwrap_err(), DecodeError::MalformedField);
    assert_eq!(unpack_item("\ta\tp\tu\t\t\t0").unwrap_err(), DecodeError::MalformedField);
    assert_eq!(unpack_item("1\ta\tp\tu\t\t\t").unwrap_err(), DecodeError::MalformedField);
    assert_eq!(unpack_item("1\ta\tp\tu\t\t\tno").unwrap_err(), DecodeError::MalformedField);
    assert_eq!(unpack_item("2147483648\ta\tp\tu\t\t\t0").unwrap_err(), DecodeError::MalformedField);
    assert_eq!(decode_response("").unwrap_err(), DecodeError::MalformedField);
    assert_eq!(decode_response("one").unwrap_err(), DecodeError::MalformedField);
    assert_eq!(decode_response(" 1").unwrap_err(), DecodeError::MalformedField);
}

#[test]
fn bad_notes_are_malformed() {
    // Not base64 at all, base64 without its padding, and base64 of bytes
    // that are no UTF-8.
    assert_eq!(unpack_item("1\ta\tp\tu\t\t!\t0").unwrap_err(), DecodeError::MalformedField);
    assert_eq!(unpack_item("1\ta\tp\tu\t\tYQ\t0").unwrap_err(), DecodeError::MalformedField);
    assert_eq!(unpack_item("1\ta\tp\tu\t\t/w==\t0").unwrap_err(), DecodeError::MalformedField);
    assert_eq!(unpack_item("1\ta\tp\tu\t\tYQ==\t0").unwrap().note, Some("a".to_string()));
}

#[test]
fn unknown_codes() {
    assert_eq!(decode_response("5").unwrap_err(), DecodeError::UnknownCode);
    assert_eq!(decode_response("-1").unwrap_err(), DecodeError::UnknownCode);
    assert_eq!(decode_response("2147483647").unwrap_err(), DecodeError::UnknownCode);
    assert_eq!(decode_response("2147483648").unwrap_err(), DecodeError::MalformedField);
}

#[test]
fn code_is_the_first_token_of_the_first_record() {
    assert!(matches!(decode_response("0\tanything").unwrap(), Ack::Ack));
    assert!(matches!(decode_response("+3").unwrap(), Ack::IdentityError));
    assert!(matches!(decode_response("004").unwrap(), Ack::DbError));
    // Records after the code are not read where the code has no items.
    assert!(matches!(decode_response("0\nrubbish\n\n").unwrap(), Ack::Ack));
    assert!(matches!(decode_response("3\nrubbish").unwrap(), Ack::IdentityError));
}

#[test]
fn dead_link_reply() {
    match decode_response("2\n7\t1\n8\t0\n9\t2").unwrap() {
        Ack::DeadLink { list } => assert_eq!(list, vec![(7, true), (8, false), (9, false)]),
        other => panic!("not a DeadLink: {:?}", other),
    }
    assert_eq!(unpack_dead_link("7\t1\tmore"), Ok((7, true)));
    assert_eq!(unpack_dead_link("7"), Err(DecodeError::Truncated));
    assert_eq!(unpack_dead_link("7\t"), Err(DecodeError::MalformedField));
    assert_eq!(unpack_dead_link("a\t1"), Err(DecodeError::MalformedField));
    assert_eq!(decode_response("2\n7\t1\n8").unwrap_err(), DecodeError::Truncated);
}

#[test]
fn nul_padding_is_dropped() {
    assert!(matches!(decode_response("0\0\0\0").unwrap(), Ack::Ack));
    match decode_response("1\n3\tacc\tpwd\turl\t\t\t0\0\0\0\0").unwrap() {
        Ack::Info { list } => {
            assert_eq!(list.len(), 1);
            assert!(!list[0].is_dead);
        }
        other => panic!("not an Info: {:?}", other),
    }
    // Only the padding at the end goes: a NUL inside stays where it is.
    assert_eq!(decode_response("\0" ).unwrap_err(), DecodeError::MalformedField);
    assert_eq!(decode_response("0\0x").unwrap_err(), DecodeError::MalformedField);
    assert!(matches!(pack_ack(vec!["4\0\0"]).unwrap(), Ack::DbError));
}

#[test]
fn read_response_of_a_padded_buffer() {
    let mut buffer = [0u8; 4096];
    let body = "1\n3\tacc\tpwd\turl\tname\tbGluZTEKbGluZTI=\t1";
    buffer[..body.len()].copy_from_slice(body.as_bytes());
    match read_response(body.len(), &buffer).unwrap() {
        Ack::Info { list } => {
            assert_eq!(list.len(), 1);
            assert_eq!(list[0].id, Some(3));
            assert_eq!(list[0].site_name, Some("name".to_string()));
            assert_eq!(list[0].note, Some("line1\nline2".to_string()));
            assert!(list[0].is_dead);
        }
        other => panic!("not an Info: {:?}", other),
    }
}

#[test]
fn read_response_failures() {
    let buffer = [0u8; 4096];
    assert_eq!(read_response(0, &buffer).unwrap_err(), TransportError::ClosedByPeer);
    assert_eq!(
        read_response(1, &buffer).unwrap_err(),
        TransportError::Protocol(DecodeError::MalformedField)
    );
    assert_eq!(
        read_response(1, b"7").unwrap_err(),
        TransportError::Protocol(DecodeError::UnknownCode)
    );
    assert_eq!(
        read_response(3, b"1\n3").unwrap_err(),
        TransportError::Protocol(DecodeError::Truncated)
    );
    assert_eq!(reply_of_text(0, "0").unwrap_err(), TransportError::ClosedByPeer);
    assert!(matches!(reply_of_text(1, "0").unwrap(), Ack::Ack));
}

#[test]
fn read_response_replaces_malformed_utf8() {
    // The byte 0xff is no UTF-8; what it is replaced by is no digit.
    assert_eq!(
        read_response(2, &[b'0', 0xff]).unwrap_err(),
        TransportError::Protocol(DecodeError::MalformedField)
    );
    match read_response(13, b"1\n3\t\xff\tp\tu\t\t\t0").unwrap() {
        Ack::Info { list } => assert_eq!(list[0].account, "\u{fffd}"),
        other => panic!("not an Info: {:?}", other),
    }
}

#[test]
fn note_field_is_base64() {
    assert_eq!(encode(String::new()), "");
    assert_eq!(encode("a".to_string()), "YQ==");
    assert_eq!(encode("my_note".to_string()), "bXlfbm90ZQ==");
    assert_eq!(encode("line1\nline2".to_string()), "bGluZTEKbGluZTI=");
    assert_eq!(encode("\t".to_string()), "CQ==");
    assert_eq!(decode("YQ==".to_string()), Ok("a".to_string()));
    assert_eq!(decode("bGluZTEKbGluZTI=".to_string()), Ok("line1\nline2".to_string()));
    assert_eq!(decode(String::new()), Ok(String::new()));
    assert_eq!(decode("YQ=".to_string()), Err(DecodeError::MalformedField));
    assert_eq!(decode("Y Q==".to_string()), Err(DecodeError::MalformedField));
    assert_eq!(decode("/w==".to_string()), Err(DecodeError::MalformedField));
}

#[test]
fn notes_come_back_as_they_went() {
    for note in [
        "a",
        "plain",
        "one\ttab",
        "two\nlines",
        "\t\n\t\n",
        "tab\tand\nnewline\tand\0nul",
        "ümlaut • bullet 鍵",
        "ends in newline\n",
    ] {
        let field = encode(note.to_string());
        assert!(!field.is_empty());
        assert!(!field.contains(['\t', '\n', '\0']));
        assert_eq!(decode(field), Ok(note.to_string()));

        match decode_response(&encode_note_as_item(note.to_string())).unwrap() {
            Ack::Info { list } => {
                assert_eq!(list.len(), 1);
                assert_eq!(list[0].id, Some(0));
                assert_eq!(list[0].account, "");
                assert_eq!(list[0].site_name, None);
                assert_eq!(list[0].note, Some(note.to_string()));
                assert!(!list[0].is_dead);
            }
            other => panic!("not an Info: {:?}", other),
        }
    }
}

#[test]
fn the_empty_note_comes_back_as_none() {
    assert_eq!(encode_note_as_item(String::new()), "1\n0\t\t\t\t\t\t0");
    assert_eq!(encode_note_as_item("a".to_string()), "1\n0\t\t\t\t\tYQ==\t0");
    match decode_response(&encode_note_as_item(String::new())).unwrap() {
        Ack::Info { list } => assert_eq!(list[0].note, None),
        other => panic!("not an Info: {:?}", other),
    }
}

#[test]
fn absent_fields_are_sent_empty() {
    assert_eq!(
        depack_action(Action::AddWebsiteAccount {
            account: "a".to_string(),
            password: "p".to_string(),
            site_url: "u".to_string(),
            site_name: None,
            note: None,
        }),
        "2\ta\tp\tu\t\t"
    );
    assert_eq!(
        depack_action(Action::ChangeWebsiteAccount {
            id: -12,
            new_account: "a".to_string(),
            new_password: "p".to_string(),
            new_site_name: None,
            new_site_url: "u".to_string(),
            new_note: None,
        }),
        "3\t-12\ta\tp\t\tu\t"
    );
    assert_eq!(
        depack_action(Action::ChangeWebsiteAccount {
            id: i32::MIN,
            new_account: String::new(),
            new_password: String::new(),
            new_site_name: Some("n".to_string()),
            new_site_url: String::new(),
            new_note: Some("two\nlines".to_string()),
        }),
        "3\t-2147483648\t\t\tn\t\tdHdvCmxpbmVz"
    );
    assert_eq!(depack_action(Action::CheckIdentity { password: String::new() }), "0\t");
    assert_eq!(
        depack_action(Action::DeleteWebsiteAccount { website_id: i32::MAX }),
        "4\t2147483647"
    );
}

#[test]
fn item_from_its_fields_and_note() {
    let fields = vec!["1", "my_account", "my_password", "my_site_url", "", "ignored", "0"];
    assert_eq!(
        item_from_fields(&fields, Some("a note".to_string())),
        Ok(item(1, None, Some("a note"), false))
    );
    let fields = vec!["1", "my_account", "my_password", "my_site_url", "n", "", "5", "more"];
    assert_eq!(item_from_fields(&fields, None), Ok(item(1, Some("n"), None, true)));
    let fields = vec!["1", "my_account", "my_password", "my_site_url", "n", ""];
    assert_eq!(item_from_fields(&fields, None), Err(DecodeError::Truncated));
    assert_eq!(item_from_fields(&Vec::new(), None), Err(DecodeError::Truncated));
    let fields = vec!["", "a", "p", "u", "", "", "0"];
    assert_eq!(item_from_fields(&fields, None), Err(DecodeError::MalformedField));
    let fields = vec!["1", "a", "p", "u", "", "", "zero"];
    assert_eq!(item_from_fields(&fields, None), Err(DecodeError::MalformedField));
}

#[test]
fn note_from_its_bytes() {
    assert_eq!(note_from_bytes(Vec::new()), Ok(String::new()));
    assert_eq!(note_from_bytes(b"two\nlines".to_vec()), Ok("two\nlines".to_string()));
    assert_eq!(note_from_bytes("鍵".as_bytes().to_vec()), Ok("鍵".to_string()));
    assert_eq!(note_from_bytes(vec![0xff]), Err(DecodeError::MalformedField));
    assert_eq!(note_from_bytes(vec![0xe9, 0x8d]), Err(DecodeError::MalformedField));
    assert_eq!(note_from_bytes(vec![0xed, 0xa0, 0x80]), Err(DecodeError::MalformedField));
}

#[test]
fn an_empty_account_list() {
    let list = AccountList::default();
    assert!(list.list.is_empty());
    assert_eq!(list.selected, 0);
}
