use pop3_rs::errors::Error;
use pop3_rs::pop3result::{EmailMetadata, POP3List, POP3Retr, POP3Stat, POP3Uidl};

fn lines(texts: &[&str]) -> Vec<String> {
    texts.iter().map(|t| t.to_string()).collect()
}

fn uidl(texts: &[&str]) -> Result<POP3Uidl, Error> {
    POP3Uidl::parse(&lines(texts))
}

fn uidl_error(texts: &[&str]) -> Error {
    match uidl(texts) {
        Ok(_) => panic!("the listing was accepted"),
        Err(e) => e,
    }
}

#[test]
fn stat_reads_count_and_size() {
    let stat = POP3Stat::parse("+OK 2 320\r\n").unwrap();
    assert_eq!(stat.num_mails, 2);
    assert_eq!(stat.mbox_size, 320);
}

#[test]
fn stat_reads_a_line_without_line_ending() {
    assert_eq!(POP3Stat::parse("+OK 0 0"), Ok(POP3Stat { mbox_size: 0, num_mails: 0 }));
}

#[test]
fn stat_reads_leading_zeros_and_the_largest_number() {
    assert_eq!(
        POP3Stat::parse("+OK 007 4294967295\r\n"),
        Ok(POP3Stat { mbox_size: 4294967295, num_mails: 7 })
    );
}

#[test]
fn stat_refuses_a_number_that_does_not_fit() {
    assert_eq!(POP3Stat::parse("+OK 1 4294967296\r\n"), Err(Error::Malformed));
    assert_eq!(POP3Stat::parse("+OK 99999999999999999999999 1\r\n"), Err(Error::Malformed));
}

#[test]
fn stat_refuses_text_after_the_size() {
    assert_eq!(POP3Stat::parse("+OK 2 320 octets\r\n"), Err(Error::Malformed));
    assert_eq!(POP3Stat::parse("+OK 2 320 \r\n"), Err(Error::Malformed));
}

#[test]
fn stat_refuses_what_is_not_two_numbers() {
    for line in [
        "",
        "\r\n",
        "+OK\r\n",
        "+OK \r\n",
        "+OK 2\r\n",
        "+OK 2 \r\n",
        "+OK  2 320\r\n",
        "+OK 2  320\r\n",
        "+OK two 320\r\n",
        "+OK -2 320\r\n",
        "+OK +2 320\r\n",
        "+OK 2 320\n",
        "+OK 2 320\r",
        "+OK 2\t320\r\n",
        "+OK ٢ ٣\r\n",
    ] {
        assert_eq!(POP3Stat::parse(line), Err(Error::Malformed), "{:?}", line);
    }
}

#[test]
fn stat_refuses_a_line_that_is_not_positive() {
    assert_eq!(POP3Stat::parse("2 320\r\n"), Err(Error::Malformed));
    assert_eq!(POP3Stat::parse("-ERR 2 320\r\n"), Err(Error::Malformed));
    assert_eq!(POP3Stat::parse("+ok 2 320\r\n"), Err(Error::Malformed));
    assert_eq!(POP3Stat::parse(" +OK 2 320\r\n"), Err(Error::Malformed));
}

#[test]
fn list_reads_the_body_in_order() {
    let list = POP3List::parse(&lines(&["+OK 2 messages\r\n", "1 200\r\n", "2 120\r\n"])).unwrap();
    assert_eq!(
        list.mailbox,
        vec![
            EmailMetadata { msg_id: 1, msg_size: 200 },
            EmailMetadata { msg_id: 2, msg_size: 120 },
        ]
    );
}

#[test]
fn list_keeps_the_order_of_the_lines() {
    let list = POP3List::parse(&lines(&["+OK\r\n", "9 1\r\n", "3 2\r\n", "9 3\r\n"])).unwrap();
    let ids: Vec<u32> = list.mailbox.iter().map(|m| m.msg_id).collect();
    let sizes: Vec<u32> = list.mailbox.iter().map(|m| m.msg_size).collect();
    assert_eq!(ids, vec![9, 3, 9]);
    assert_eq!(sizes, vec![1, 2, 3]);
}

#[test]
fn list_does_not_read_the_status_line_of_a_reply_with_a_body() {
    let list = POP3List::parse(&lines(&["+OK 5 500\r\n", "1 200\r\n"])).unwrap();
    assert_eq!(list.mailbox, vec![EmailMetadata { msg_id: 1, msg_size: 200 }]);
    let list = POP3List::parse(&lines(&["anything at all", "1 200\r\n"])).unwrap();
    assert_eq!(list.mailbox.len(), 1);
}

#[test]
fn list_never_reads_the_status_line_as_an_entry() {
    for status in ["+OK 0 messages\r\n", "+OK 2 200\r\n", "+OK\r\n", "anything", ""] {
        assert_eq!(POP3List::parse(&lines(&[status])), Ok(POP3List { mailbox: vec![] }));
    }
}

#[test]
fn list_of_one_message_is_in_the_status_line() {
    let list = POP3List::parse_one("+OK 2 200\r\n").unwrap();
    assert_eq!(list.mailbox, vec![EmailMetadata { msg_id: 2, msg_size: 200 }]);
    let list = POP3List::parse_one("+OK 7 0").unwrap();
    assert_eq!(list.mailbox, vec![EmailMetadata { msg_id: 7, msg_size: 0 }]);
}

#[test]
fn list_of_no_line_is_empty() {
    assert_eq!(POP3List::parse(&[]), Ok(POP3List { mailbox: vec![] }));
}

#[test]
fn list_of_one_message_needs_its_entry() {
    for status in ["+OK 2 messages\r\n", "2 200\r\n", "+OK 2 200 octets\r\n", "-ERR 2 200\r\n", ""] {
        assert_eq!(POP3List::parse_one(status), Err(Error::Malformed), "{:?}", status);
    }
}

#[test]
fn list_returns_nothing_of_a_reply_with_a_bad_line() {
    for bad in ["1 200 extra\r\n", "1\r\n", "", "x 1\r\n", "1 200\n", " 1 200\r\n", "+OK 1 200\r\n"] {
        let reply = lines(&["+OK 3 messages\r\n", "1 200\r\n", bad, "3 100\r\n"]);
        assert_eq!(POP3List::parse(&reply), Err(Error::Malformed), "{:?}", bad);
    }
}

#[test]
fn retr_joins_the_body_lines() {
    let retr = POP3Retr::parse(&lines(&[
        "+OK 120 octets\r\n",
        "Subject: hello\r\n",
        "\r\n",
        "first\r\n",
        "second\r\n",
    ]));
    assert_eq!(retr.msg_data, "Subject: hello\r\n\r\nfirst\r\nsecond\r\n");
}

#[test]
fn retr_changes_no_line() {
    let retr = POP3Retr::parse(&lines(&["+OK\r\n", "..stuffed\r\n", "no ending", "\n", "é\r\n"]));
    assert_eq!(retr.msg_data, "..stuffed\r\nno ending\né\r\n");
}

#[test]
fn retr_of_a_status_line_alone_is_empty() {
    assert_eq!(POP3Retr::parse(&lines(&["+OK 0 octets\r\n"])).msg_data, "");
    assert_eq!(POP3Retr::parse(&[]).msg_data, "");
}

#[test]
fn uidl_reads_both_directions() {
    let listing = uidl(&["+OK\r\n", "1 whqtswO00WBw418f9t5JxYwZ\r\n", "2 QhdPYR:00WBw1Ph7x7\r\n"])
        .ok()
        .unwrap();
    assert_eq!(listing.mailbox.len(), 2);
    assert_eq!(listing.mailbox.get(&1).unwrap(), "whqtswO00WBw418f9t5JxYwZ");
    assert_eq!(listing.mailbox.get(&2).unwrap(), "QhdPYR:00WBw1Ph7x7");
    assert_eq!(listing.reverse_map.len(), 2);
    assert_eq!(listing.reverse_map.get("whqtswO00WBw418f9t5JxYwZ"), Some(&1));
    assert_eq!(listing.reverse_map.get("QhdPYR:00WBw1Ph7x7"), Some(&2));
    assert_eq!(listing.uid_of(2).unwrap(), "QhdPYR:00WBw1Ph7x7");
    assert_eq!(listing.uid_of(3), None);
    assert_eq!(listing.msg_id_of("QhdPYR:00WBw1Ph7x7"), Some(2));
    assert_eq!(listing.msg_id_of("QhdPYR"), None);
}

#[test]
fn uidl_never_reads_the_status_line_as_an_entry() {
    for status in ["+OK 1 abc\r\n", "+OK 2 QhdPYR:00WBw1Ph7x7\r\n", "+OK\r\n", "anything", ""] {
        let listing = uidl(&[status]).ok().unwrap();
        assert!(listing.mailbox.is_empty());
        assert!(listing.reverse_map.is_empty());
    }
}

#[test]
fn uidl_of_one_message_is_in_the_status_line() {
    let listing = POP3Uidl::parse_one("+OK 2 QhdPYR:00WBw1Ph7x7\r\n").ok().unwrap();
    assert_eq!(listing.mailbox.len(), 1);
    assert_eq!(listing.reverse_map.len(), 1);
    assert_eq!(listing.uid_of(2).unwrap(), "QhdPYR:00WBw1Ph7x7");
    assert_eq!(listing.msg_id_of("QhdPYR:00WBw1Ph7x7"), Some(2));
}

#[test]
fn uidl_of_one_message_needs_its_entry() {
    let long = format!("+OK 1 {}\r\n", "a".repeat(71));
    for status in ["+OK\r\n", "+OK 1\r\n", "+OK 1 a b\r\n", "1 abc\r\n", "-ERR 1 abc\r\n", long.as_str()] {
        match POP3Uidl::parse_one(status) {
            Err(e) => assert_eq!(e, Error::Malformed, "{:?}", status),
            Ok(_) => panic!("accepted {:?}", status),
        }
    }
}

#[test]
fn uidl_has_one_entry_for_each_body_line() {
    let listing = uidl(&["+OK 9 zzz\r\n", "1 a\r\n", "2 b\r\n", "3 c\r\n"]).ok().unwrap();
    assert_eq!(listing.mailbox.len(), 3);
    assert_eq!(listing.reverse_map.len(), 3);
    assert_eq!(listing.uid_of(9), None);
    for uid in listing.mailbox.values() {
        assert!((1..=70).contains(&uid.len()));
        assert!(uid.bytes().all(|b| (0x21..=0x7e).contains(&b)));
    }
}

#[test]
fn uidl_of_no_line_is_empty() {
    let listing = uidl(&[]).ok().unwrap();
    assert!(listing.mailbox.is_empty());
    assert!(listing.reverse_map.is_empty());
}

#[test]
fn uidl_takes_a_unique_id_of_70_characters_and_refuses_71() {
    let seventy = "a".repeat(70);
    let line = format!("1 {}\r\n", seventy);
    let listing = uidl(&["+OK\r\n", &line]).ok().unwrap();
    assert_eq!(listing.uid_of(1).unwrap(), &seventy);
    let line = format!("1 {}\r\n", "a".repeat(71));
    assert_eq!(uidl_error(&["+OK\r\n", &line]), Error::Malformed);
}

#[test]
fn uidl_takes_every_printable_character() {
    let listing = uidl(&["+OK\r\n", "1 !\"#$%&'()*+,-./:;<=>?@[\\]^_`{|}~\r\n"]).ok().unwrap();
    assert_eq!(listing.uid_of(1).unwrap(), "!\"#$%&'()*+,-./:;<=>?@[\\]^_`{|}~");
}

#[test]
fn uidl_refuses_a_space_or_a_control_character_in_a_unique_id() {
    for bad in [
        "1 ab cd\r\n",
        "1 abcd \r\n",
        "1  abcd\r\n",
        "1 ab\tcd\r\n",
        "1 ab\u{7f}cd\r\n",
        "1 ab\u{0}cd\r\n",
        "1 abcd\r\r\n",
        "1 abcd\n",
        "1 abcdé\r\n",
        "1 \r\n",
        "1\r\n",
        "abcd\r\n",
        "",
    ] {
        assert_eq!(uidl_error(&["+OK\r\n", "7 fine\r\n", bad]), Error::Malformed, "{:?}", bad);
    }
}

#[test]
fn uidl_refuses_a_repeated_message_number() {
    assert_eq!(uidl_error(&["+OK\r\n", "1 abc\r\n", "2 def\r\n", "1 ghi\r\n"]), Error::Duplicate);
    assert_eq!(uidl_error(&["+OK\r\n", "1 abc\r\n", "01 ghi\r\n"]), Error::Duplicate);
}

#[test]
fn uidl_refuses_a_repeated_unique_id() {
    assert_eq!(uidl_error(&["+OK\r\n", "1 abc\r\n", "2 def\r\n", "3 abc\r\n"]), Error::Duplicate);
}

#[test]
fn uidl_reports_a_bad_line_before_a_repeat() {
    assert_eq!(uidl_error(&["+OK\r\n", "1 abc\r\n", "1 abc\r\n", "oops\r\n"]), Error::Malformed);
}

#[test]
fn error_messages_name_the_failure() {
    assert_eq!(Error::Unparseable.message(), "un-parseable response");
    assert_eq!(Error::Config.message(), "unknown auth type");
    assert_eq!(
        Error::Server("mailbox locked".to_string()).message(),
        "the server refused the command: mailbox locked"
    );
    for e in [Error::Utf8, Error::Malformed, Error::Duplicate, Error::Precondition] {
        assert!(!e.message().is_empty());
    }
}

#[test]
fn uidl_maps_are_each_other_turned_round() {
    let listing = uidl(&["+OK\r\n", "3 c\r\n", "1 a\r\n", "2 b\r\n", "10 <x@y>\r\n"]).ok().unwrap();
    assert_eq!(listing.mailbox.len(), 4);
    assert_eq!(listing.reverse_map.len(), 4);
    for (id, uid) in listing.mailbox.iter() {
        assert_eq!(listing.reverse_map.get(uid), Some(id));
        assert_eq!(listing.msg_id_of(uid), Some(*id));
        assert_eq!(listing.uid_of(*id), Some(uid));
    }
}
