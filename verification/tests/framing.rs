use pop3_rs::framing::{request, session_token, terminates, Command};
use pop3_rs::text::{chars_of, decimal_string};

#[test]
fn request_without_parameter() {
    assert_eq!(request(Command::Stat, None), "STAT\r\n");
    assert_eq!(request(Command::Quit, None), "QUIT\r\n");
    assert_eq!(request(Command::List, None), "LIST\r\n");
}

#[test]
fn request_with_parameter() {
    assert_eq!(request(Command::User, Some("mrose")), "USER mrose\r\n");
    assert_eq!(request(Command::Top, Some("1 10")), "TOP 1 10\r\n");
    assert_eq!(request(Command::Pass, Some("")), "PASS \r\n");
}

#[test]
fn every_command_has_its_verb() {
    let verbs = [
        (Command::User, "USER"),
        (Command::Pass, "PASS"),
        (Command::Apop, "APOP"),
        (Command::Stat, "STAT"),
        (Command::List, "LIST"),
        (Command::Retr, "RETR"),
        (Command::Dele, "DELE"),
        (Command::Noop, "NOOP"),
        (Command::Rset, "RSET"),
        (Command::Quit, "QUIT"),
        (Command::Top, "TOP"),
        (Command::Uidl, "UIDL"),
    ];
    for (command, verb) in verbs {
        assert_eq!(command.name(), verb);
    }
}

#[test]
fn only_listings_and_retrievals_have_a_body() {
    assert!(Command::List.multiline(false));
    assert!(!Command::List.multiline(true));
    assert!(Command::Uidl.multiline(false));
    assert!(!Command::Uidl.multiline(true));
    assert!(Command::Retr.multiline(true));
    assert!(Command::Retr.multiline(false));
    for command in [
        Command::User,
        Command::Pass,
        Command::Apop,
        Command::Stat,
        Command::Dele,
        Command::Noop,
        Command::Rset,
        Command::Quit,
        Command::Top,
    ] {
        assert!(!command.multiline(true));
        assert!(!command.multiline(false));
    }
}

#[test]
fn token_of_a_greeting() {
    assert_eq!(
        session_token("+OK POP3 server ready <1896.697170952@dbc.mtview.ca.us>\r\n"),
        "<1896.697170952@dbc.mtview.ca.us>"
    );
    assert_eq!(session_token("+OK <123.456@host>"), "<123.456@host>");
}

#[test]
fn token_starts_at_the_first_bracket() {
    assert_eq!(session_token("+OK <a> and <b>\r\n"), "<a> and <b>");
    assert_eq!(session_token("+OK <<x>>\r\n"), "<<x>>");
}

#[test]
fn greeting_without_token() {
    for greeting in [
        "+OK POP3 server ready\r\n",
        "+OK <123.456@host> ready\r\n",
        "+OK <123.456@host>\n",
        "+OK 123.456@host>\r\n",
        "+OK <123.456@host\r\n",
        "+OK >\r\n",
        "",
        "\r\n",
    ] {
        assert_eq!(session_token(greeting), "", "{:?}", greeting);
    }
}

#[test]
fn terminator_is_a_dot_and_crlf() {
    assert!(terminates(&".\r\n".to_string()));
    for line in [".", ".\n", "..\r\n", " .\r\n", ".\r\n ", "\r\n", ""] {
        assert!(!terminates(&line.to_string()), "{:?}", line);
    }
}

#[test]
fn decimal_writes_numbers() {
    assert_eq!(decimal_string(0), "0");
    assert_eq!(decimal_string(7), "7");
    assert_eq!(decimal_string(10), "10");
    assert_eq!(decimal_string(120), "120");
    assert_eq!(decimal_string(4294967295), "4294967295");
    for n in [1u32, 9, 11, 99, 100, 101, 65535, 1000000, 123456789] {
        assert_eq!(decimal_string(n), n.to_string());
    }
}

#[test]
fn chars_are_the_characters() {
    assert_eq!(chars_of(""), Vec::<char>::new());
    assert_eq!(chars_of("a é\r\n"), vec!['a', ' ', 'é', '\r', '\n']);
}
