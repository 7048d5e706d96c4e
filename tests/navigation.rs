use std::collections::HashMap;
use telzine::{
    decode_line, format_decimal, is_quit, page_number_from_file_name, parse_u32, parse_usize,
    quit_response, sort_pages, transition, Magazine, Page, ReadEvent, Section, SessionAction,
    TelnetHandler, TelnetSession, ZineHandler, ZineState,
};

const CLEAR: &str = "\x1b[1;1H\x1b[2J";

fn screen(t: &str) -> String {
    format!("{}\x1b[48;5;0m{}\x1b[49m\r\n", CLEAR, t)
}

fn prompt() -> String {
    format!("{}Press ENTER to go back to front page.", CLEAR)
}

fn page(n: u32, text: &str) -> Page {
    Page { page_number: n, text: text.to_string() }
}

fn section(title: &str, pages: Vec<Page>) -> Section {
    Section {
        title: title.to_string(),
        author: "someone".to_string(),
        directory: title.to_lowercase(),
        vars: HashMap::new(),
        pages,
    }
}

fn magazine() -> Magazine {
    Magazine {
        title: "Zine".to_string(),
        cover: "cover.txt".to_string(),
        front: "front.txt".to_string(),
        sections: vec![
            section("One", vec![page(1, "first"), page(2, "second"), page(3, "third")]),
            section("Two", vec![]),
        ],
        vars: HashMap::new(),
        cover_text: "COVER".to_string(),
        front_text: "FRONT".to_string(),
    }
}

fn sent(a: SessionAction) -> String {
    match a {
        SessionAction::Send(s) => s,
        other => panic!("expected a write, got {:?}", other),
    }
}

#[test]
fn end_to_end_reading_a_section() {
    let mut session = TelnetSession::new(ZineHandler::new(magazine()));
    assert_eq!(session.on_connect(), format!("{}{}", screen("COVER"), screen("FRONT")));
    assert_eq!(session.state(), ZineState::Front);
    assert_eq!(sent(session.on_read(ReadEvent::Data(b"1\r\n".to_vec()))), screen("first"));
    assert_eq!(session.state(), ZineState::Reading { section: 0, page: 1 });
    assert_eq!(sent(session.on_read(ReadEvent::Data(b"a".to_vec()))), screen("second"));
    assert_eq!(session.state(), ZineState::Reading { section: 0, page: 2 });
    assert_eq!(sent(session.on_read(ReadEvent::Data(b"b".to_vec()))), screen("third"));
    assert_eq!(session.state(), ZineState::Reading { section: 0, page: 3 });
    assert_eq!(sent(session.on_read(ReadEvent::Data(b"c".to_vec()))), prompt());
    assert_eq!(session.state(), ZineState::Front);
}

#[test]
fn sentinel_closes_from_front() {
    let mut session = TelnetSession::new(ZineHandler::new(magazine()));
    match session.on_read(ReadEvent::Data(vec![255, 253, 18])) {
        SessionAction::Close(farewell) => assert_eq!(farewell, ""),
        other => panic!("expected close, got {:?}", other),
    }
    assert!(!session.open());
    assert!(matches!(session.on_read(ReadEvent::Data(b"1".to_vec())), SessionAction::Finish));
    assert!(matches!(session.on_input("2"), SessionAction::Finish));
}

#[test]
fn sentinel_closes_while_reading() {
    let mut session = TelnetSession::new(ZineHandler::new(magazine()));
    sent(session.on_input("1"));
    assert!(matches!(session.on_read(ReadEvent::Data(vec![255, 253, 18, b'\r', b'\n'])), SessionAction::Close(_)));
    assert_eq!(session.state(), ZineState::Reading { section: 0, page: 1 });
    assert!(matches!(session.on_read(ReadEvent::WouldBlock), SessionAction::Finish));
}

#[test]
fn quit_words_close_the_session() {
    for word in ["x", "X", "exit", "quit"] {
        let mut session = TelnetSession::new(ZineHandler::new(magazine()));
        assert!(matches!(session.on_input(word), SessionAction::Close(_)), "{}", word);
        assert!(!session.open());
    }
    let mut session = TelnetSession::new(ZineHandler::new(magazine()));
    assert_eq!(sent(session.on_input("Quit")), screen("FRONT"));
    assert!(session.open());
}

#[test]
fn read_outcomes() {
    let mut session = TelnetSession::new(ZineHandler::new(magazine()));
    assert!(matches!(session.on_read(ReadEvent::WouldBlock), SessionAction::Retry));
    assert!(session.open());
    assert!(matches!(session.on_read(ReadEvent::Closed), SessionAction::Finish));
    assert!(!session.open());
    let mut session = TelnetSession::new(ZineHandler::new(magazine()));
    assert!(matches!(session.on_read(ReadEvent::Failed), SessionAction::Abort));
    assert!(!session.open());
}

#[test]
fn quit_response_from_any_state() {
    let m = magazine();
    let q = quit_response();
    assert_eq!(q, "\u{FFFD}\u{FFFD}\u{12}");
    assert_eq!(q, String::from_utf8_lossy(&[255, 253, 18]));
    for state in [ZineState::Front, ZineState::Reading { section: 0, page: 2 }, ZineState::Reading { section: 1, page: 1 }] {
        assert_eq!(transition(state, "quit", &m), (state, q.clone()));
        assert_eq!(transition(state, "exit", &m), (state, q.clone()));
    }
    assert!(is_quit("x") && is_quit("X") && !is_quit("EXIT") && !is_quit("q"));
}

#[test]
fn front_selects_each_section() {
    let m = magazine();
    assert_eq!(transition(ZineState::Front, "1", &m), (ZineState::Reading { section: 0, page: 1 }, screen("first")));
    assert_eq!(transition(ZineState::Front, "+1", &m).0, ZineState::Reading { section: 0, page: 1 });
    assert_eq!(
        transition(ZineState::Front, "2", &m),
        (ZineState::Reading { section: 1, page: 1 }, "Section 2 does not have a page 1\r\n".to_string())
    );
}

#[test]
fn front_ignores_numbers_out_of_range() {
    let m = magazine();
    assert_eq!(transition(ZineState::Front, "0", &m), (ZineState::Front, String::new()));
    assert_eq!(transition(ZineState::Front, "3", &m), (ZineState::Front, String::new()));
    assert_eq!(transition(ZineState::Front, "99999999999999999999999", &m), (ZineState::Front, screen("FRONT")));
    assert_eq!(transition(ZineState::Front, "-1", &m), (ZineState::Front, screen("FRONT")));
    assert_eq!(transition(ZineState::Front, "", &m), (ZineState::Front, screen("FRONT")));
    assert_eq!(transition(ZineState::Front, " 0", &m), (ZineState::Front, String::new()));
    assert_eq!(transition(ZineState::Front, "3 ", &m), (ZineState::Front, String::new()));
}

#[test]
fn front_reads_numbers_without_surrounding_blanks() {
    let m = magazine();
    assert_eq!(transition(ZineState::Front, " 1", &m), (ZineState::Reading { section: 0, page: 1 }, screen("first")));
    assert_eq!(transition(ZineState::Front, "\t2\r\n", &m).0, ZineState::Reading { section: 1, page: 1 });
    assert_eq!(transition(ZineState::Front, "\u{3000}1\u{A0}", &m).0, ZineState::Reading { section: 0, page: 1 });
    assert_eq!(transition(ZineState::Front, " x", &m), (ZineState::Front, screen("FRONT")));
}

#[test]
fn front_redisplay_is_idempotent() {
    let mut h = ZineHandler::new(magazine());
    let first = h.handle("not-a-number");
    assert_eq!(first, screen("FRONT"));
    assert_eq!(h.state(), ZineState::Front);
    let second = h.handle("not-a-number");
    assert_eq!(first, second);
    assert_eq!(h.state(), ZineState::Front);
}

#[test]
fn reading_walks_pages_then_returns() {
    let m = magazine();
    assert_eq!(
        transition(ZineState::Reading { section: 0, page: 0 }, "", &m),
        (ZineState::Reading { section: 0, page: 1 }, screen("first"))
    );
    assert_eq!(
        transition(ZineState::Reading { section: 0, page: 2 }, "anything", &m),
        (ZineState::Reading { section: 0, page: 3 }, screen("third"))
    );
    assert_eq!(transition(ZineState::Reading { section: 0, page: 3 }, "", &m), (ZineState::Front, prompt()));
    assert_eq!(transition(ZineState::Reading { section: 0, page: 7 }, "", &m), (ZineState::Front, prompt()));
    assert_eq!(transition(ZineState::Reading { section: 1, page: 1 }, "1", &m), (ZineState::Front, prompt()));
}

#[test]
fn handler_trait_and_greeting() {
    let mut h = ZineHandler::new(magazine());
    assert_eq!(TelnetHandler::on_connect(&mut h), format!("{}{}", screen("COVER"), screen("FRONT")));
    assert_eq!(TelnetHandler::on_quit(&mut h), "");
    assert_eq!(TelnetHandler::quit(&h), quit_response());
    assert_eq!(TelnetHandler::handle(&mut h, "1"), screen("first"));
    assert_eq!(h.magazine().title, "Zine");
}

#[test]
fn decoding_lines() {
    assert_eq!(decode_line(b"  12 \r\n"), "12");
    assert_eq!(decode_line(b"\tquit\n"), "quit");
    assert_eq!(decode_line(&[b'a', 0xFF, b'b']), "a\u{FFFD}b");
    assert_eq!(decode_line(&[255, 253, 18]), "\u{FFFD}\u{FFFD}\u{12}");
    assert_eq!(decode_line(b""), "");
    assert_eq!(decode_line("\u{3000}7\u{A0}".as_bytes()), "7");
    assert_eq!(decode_line("\u{200B}7".as_bytes()), "\u{200B}7");
}

#[test]
fn parsing_numbers() {
    assert_eq!(parse_usize("0"), Some(0));
    assert_eq!(parse_usize("42"), Some(42));
    assert_eq!(parse_usize("+7"), Some(7));
    assert_eq!(parse_usize("007"), Some(7));
    assert_eq!(parse_usize("+"), None);
    assert_eq!(parse_usize(""), None);
    assert_eq!(parse_usize("-3"), None);
    assert_eq!(parse_usize(" 3"), None);
    assert_eq!(parse_usize("3a"), None);
    assert_eq!(parse_usize(&usize::MAX.to_string()), Some(usize::MAX));
    assert_eq!(parse_usize("99999999999999999999999"), None);
    assert_eq!(parse_u32("4294967295"), Some(u32::MAX));
    assert_eq!(parse_u32("4294967296"), None);
}

#[test]
fn formatting_numbers() {
    assert_eq!(format_decimal(0), "0");
    assert_eq!(format_decimal(7), "7");
    assert_eq!(format_decimal(10), "10");
    assert_eq!(format_decimal(1203), "1203");
    assert_eq!(format_decimal(usize::MAX), usize::MAX.to_string());
}

#[test]
fn page_numbers_from_file_names() {
    assert_eq!(page_number_from_file_name("3.txt"), Some(3));
    assert_eq!(page_number_from_file_name("12"), Some(12));
    assert_eq!(page_number_from_file_name("5.txt.txt"), Some(5));
    assert_eq!(page_number_from_file_name("+4.txt"), Some(4));
    assert_eq!(page_number_from_file_name("intro.txt"), None);
    assert_eq!(page_number_from_file_name(".txt"), None);
    assert_eq!(page_number_from_file_name("3.md"), None);
}

#[test]
fn sorting_pages() {
    let mut pages = vec![page(3, "c"), page(1, "a"), page(2, "b"), page(1, "a2")];
    sort_pages(&mut pages);
    let numbers: Vec<u32> = pages.iter().map(|p| p.page_number).collect();
    assert_eq!(numbers, vec![1, 1, 2, 3]);
    let texts: Vec<String> = pages.iter().map(|p| p.to_string()).collect();
    assert_eq!(texts, vec!["a", "a2", "b", "c"]);
    let mut equal = vec![page(2, "z"), page(1, "y"), page(2, "x"), page(1, "w")];
    sort_pages(&mut equal);
    let texts: Vec<&str> = equal.iter().map(|p| p.text.as_str()).collect();
    assert_eq!(texts, vec!["y", "w", "z", "x"]);
    let mut empty: Vec<Page> = vec![];
    sort_pages(&mut empty);
    assert!(empty.is_empty());
}

#[test]
fn getters() {
    let m = magazine();
    assert_eq!(m.all_sections().len(), 2);
    assert_eq!(m.get_section(1).unwrap().title, "Two");
    assert!(m.get_section(2).is_none());
    let s = m.get_section(0).unwrap();
    assert_eq!(s.all_pages().iter().map(|p| p.text.as_str()).collect::<Vec<_>>(), vec!["first", "second", "third"]);
    assert_eq!(s.get_page(2).unwrap().page_number, 3);
    assert!(s.get_page(3).is_none());
}
