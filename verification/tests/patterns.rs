use pop3_rs::framing::session_token;
use pop3_rs::pop3result::{POP3List, POP3Stat, POP3Uidl};
use regex::Regex;

fn pair_pattern() -> Regex {
    Regex::new(r"(?P<nmsg>\d+) (?P<size>\d+)").unwrap()
}

fn uid_pattern() -> Regex {
    Regex::new(r"(?P<msgid>\d+) (?P<uidl>[\x21-\x7E]{1,70})").unwrap()
}

fn token_pattern() -> Regex {
    Regex::new(r"(<.*>)\r\n$").unwrap()
}

#[test]
fn stat_agrees_with_the_pattern_on_well_formed_lines() {
    let pattern = pair_pattern();
    for line in ["+OK 2 320\r\n", "+OK 0 0\r\n", "+OK 15 4294967295\r\n", "+OK 0010 7\r\n"] {
        let found = pattern.captures(line).unwrap();
        let stat = POP3Stat::parse(line).unwrap();
        assert_eq!(stat.num_mails, found["nmsg"].parse::<u32>().unwrap());
        assert_eq!(stat.mbox_size, found["size"].parse::<u32>().unwrap());
    }
}

#[test]
fn list_agrees_with_the_pattern_on_well_formed_lines() {
    let pattern = pair_pattern();
    let reply: Vec<String> = ["+OK 3 messages\r\n", "1 200\r\n", "2 120\r\n", "30 4000000\r\n"]
        .iter()
        .map(|l| l.to_string())
        .collect();
    let list = POP3List::parse(&reply).unwrap();
    assert_eq!(list.mailbox.len(), reply.len() - 1);
    for (entry, line) in list.mailbox.iter().zip(reply[1..].iter()) {
        let found = pattern.captures(line).unwrap();
        assert_eq!(entry.msg_id, found["nmsg"].parse::<u32>().unwrap());
        assert_eq!(entry.msg_size, found["size"].parse::<u32>().unwrap());
    }
}

#[test]
fn uidl_agrees_with_the_pattern_on_well_formed_lines() {
    let pattern = uid_pattern();
    let reply: Vec<String> = ["+OK\r\n", "1 whqtswO00WBw418f9t5JxYwZ\r\n", "2 QhdPYR:00WBw1Ph7x7\r\n", "3 <a@b>\r\n"]
        .iter()
        .map(|l| l.to_string())
        .collect();
    let listing = POP3Uidl::parse(&reply).ok().unwrap();
    assert_eq!(listing.mailbox.len(), reply.len() - 1);
    for line in reply[1..].iter() {
        let found = pattern.captures(line).unwrap();
        let id = found["msgid"].parse::<u32>().unwrap();
        assert_eq!(listing.uid_of(id).unwrap(), &found["uidl"]);
        assert_eq!(listing.msg_id_of(&found["uidl"]), Some(id));
    }
}

#[test]
fn uidl_refuses_what_the_pattern_would_cut_short() {
    let pattern = uid_pattern();
    let long = format!("1 {}\r\n", "u".repeat(71));
    assert_eq!(pattern.captures(&long).unwrap()["uidl"].len(), 70);
    assert!(POP3Uidl::parse(&["+OK\r\n".to_string(), long]).is_err());
    let spaced = "1 ab cd\r\n".to_string();
    assert_eq!(&pattern.captures(&spaced).unwrap()["uidl"], "ab");
    assert!(POP3Uidl::parse(&["+OK\r\n".to_string(), spaced]).is_err());
}

#[test]
fn token_agrees_with_the_pattern() {
    let pattern = token_pattern();
    for greeting in [
        "+OK POP3 server ready <1896.697170952@dbc.mtview.ca.us>\r\n",
        "+OK <a> and <b>\r\n",
        "+OK <<x>>\r\n",
        "+OK <>\r\n",
        "+OK ready\r\n",
        "+OK <a> ready\r\n",
        "+OK a>\r\n",
        "+OK <a\r\n",
    ] {
        let expected = match pattern.captures(greeting) {
            Some(found) => found[1].to_string(),
            None => String::new(),
        };
        assert_eq!(session_token(greeting), expected, "{:?}", greeting);
    }
}
