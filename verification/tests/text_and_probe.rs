use utah_core::icon::{tray_icon_rgba, ICON_BYTES};
use utah_core::probe::{
    best_vite_port_in_range, dev_url_for, highest_answering_port_of, is_vite_page_text,
    is_vite_reply,
};
use utah_core::resolve::{pending_command, port_of_text, Command, Phase};
use utah_core::text::{
    chars_of, contains_within, parse_trimmed_u16, parse_u16_range, push_decimal, same_text,
    trim_bounds, white_space,
};

#[test]
fn decimal_rendering() {
    let mut s = String::from("n=");
    push_decimal(&mut s, 0);
    assert_eq!(s, "n=0");
    let mut s = String::new();
    push_decimal(&mut s, 5173);
    assert_eq!(s, "5173");
    let mut s = String::new();
    push_decimal(&mut s, u64::MAX);
    assert_eq!(s, u64::MAX.to_string());
}

#[test]
fn port_text_parsing() {
    assert_eq!(parse_trimmed_u16("5176"), Some(5176));
    assert_eq!(parse_trimmed_u16("  5176\n"), Some(5176));
    assert_eq!(parse_trimmed_u16("\t+80\r\n"), Some(80));
    assert_eq!(parse_trimmed_u16("0005173"), Some(5173));
    assert_eq!(parse_trimmed_u16("65535"), Some(65535));
    assert_eq!(parse_trimmed_u16("\u{3000}42\u{a0}"), Some(42));
    assert_eq!(parse_trimmed_u16("65536"), None);
    assert_eq!(parse_trimmed_u16("99999999999"), None);
    assert_eq!(parse_trimmed_u16("-1"), None);
    assert_eq!(parse_trimmed_u16("-0"), None);
    assert_eq!(parse_trimmed_u16("+"), None);
    assert_eq!(parse_trimmed_u16(""), None);
    assert_eq!(parse_trimmed_u16("   "), None);
    assert_eq!(parse_trimmed_u16("12a"), None);
    assert_eq!(parse_trimmed_u16("51 76"), None);
}

#[test]
fn port_text_parsing_agrees_with_std() {
    for text in ["7", " 123 ", "+0", "00", "65535", "65536", "x", "1\u{2028}", "\u{85}9"] {
        assert_eq!(parse_trimmed_u16(text), text.trim().parse::<u16>().ok(), "{text:?}");
    }
}

#[test]
fn decimal_port_reads_back_for_samples() {
    for port in [0u16, 9, 10, 5173, 5200, 65535] {
        let mut s = String::new();
        push_decimal(&mut s, port as u64);
        assert_eq!(parse_trimmed_u16(&s), Some(port));
    }
}

#[test]
fn text_helpers() {
    assert_eq!(chars_of("héllo"), vec!['h', 'é', 'l', 'l', 'o']);
    assert!(same_text("fs:read", "fs:read"));
    assert!(!same_text("fs:read", "fs:rea"));
    let hay = chars_of("abc vite def");
    assert!(contains_within(&hay, hay.len(), &chars_of("vite")));
    assert!(!contains_within(&hay, 6, &chars_of("vite")));
    assert!(contains_within(&hay, 8, &chars_of("vite")));
    assert!(contains_within(&hay, 0, &chars_of("")));
}

#[test]
fn vite_page_with_client_script() {
    let page = "http/1.1 200 ok\r\ncontent-type: text/html\r\n\r\n<script type=\"module\" src=\"/@vite/client\"></script>";
    assert!(is_vite_page_text(page));
}

#[test]
fn vite_page_needs_ok_status() {
    assert!(!is_vite_page_text("http/1.1 404 not found\r\n\r\nvite"));
    assert!(!is_vite_page_text(""));
    assert!(!is_vite_page_text("http/1.1 200 ok\r\n\r\nhello"));
}

#[test]
fn vite_page_status_on_first_line() {
    assert!(is_vite_page_text("http/1.1 200 \r\n\r\n/src/main.jsx"));
    assert!(!is_vite_page_text("http/1.1 302 found\r\nx: 200 \r\n\r\nvite"));
}

#[test]
fn vite_page_long_html_document() {
    let head = "http/1.1 200 ok\r\n\r\n<!doctype html>";
    let short = format!("{head}{}", "a".repeat(10));
    let long = format!("{head}{}", "a".repeat(120));
    assert!(!is_vite_page_text(&short));
    assert!(is_vite_page_text(&long));
}

#[test]
fn vite_reply_is_lowercased_first() {
    let reply = b"HTTP/1.1 200 OK\r\nServer: x\r\n\r\n<SCRIPT SRC=\"/@VITE/CLIENT\"></SCRIPT>";
    assert!(is_vite_reply(reply));
    assert!(!is_vite_reply(b""));
    assert!(!is_vite_reply(b"HTTP/1.1 500 Internal\r\n\r\nvite"));
}

#[test]
fn vite_reply_counts_replacement_characters() {
    // 0xFF is not UTF-8; each becomes U+FFFD, three bytes long, after decoding.
    let mut reply = b"HTTP/1.1 200 OK\r\n\r\n<!DOCTYPE html>".to_vec();
    assert_eq!(reply.len(), 34);
    reply.extend(std::iter::repeat(0xFFu8).take(40));
    // 74 raw bytes, but 34 + 40 * 3 = 154 bytes once decoded.
    assert!(is_vite_reply(&reply));
    let mut short = b"HTTP/1.1 200 OK\r\n\r\n<!DOCTYPE html>".to_vec();
    short.extend(std::iter::repeat(b'a').take(40));
    assert!(!is_vite_reply(&short));
}

#[test]
fn dev_url_for_port() {
    assert_eq!(dev_url_for(5176), "http://localhost:5176");
    assert_eq!(dev_url_for(0), "http://localhost:0");
}

#[test]
fn scan_prefers_the_highest_open_port() {
    assert_eq!(best_vite_port_in_range(|p| p == 5173 || p == 5176), Some(5176));
    assert_eq!(best_vite_port_in_range(|_| false), None);
    assert_eq!(best_vite_port_in_range(|_| true), Some(5200));
    assert_eq!(best_vite_port_in_range(|p| p == 5173), Some(5173));
}

#[test]
fn scan_probes_each_port_once_in_order() {
    let seen = std::cell::RefCell::new(Vec::new());
    let found = best_vite_port_in_range(|p| {
        seen.borrow_mut().push(p);
        false
    });
    assert_eq!(found, None);
    assert_eq!(*seen.borrow(), (5173u16..=5200).collect::<Vec<_>>());
}

#[test]
fn highest_answer_from_list() {
    let mut answers = vec![false; 28];
    assert_eq!(highest_answering_port_of(&answers), None);
    answers[2] = true;
    answers[10] = true;
    assert_eq!(highest_answering_port_of(&answers), Some(5183));
}

#[test]
fn tray_icon_is_an_opaque_checkerboard() {
    let v = tray_icon_rgba();
    assert_eq!(v.len(), ICON_BYTES);
    assert_eq!(v.len(), 32 * 32 * 4);
    let pixel = |x: usize, y: usize| &v[(y * 32 + x) * 4..(y * 32 + x) * 4 + 4];
    assert_eq!(pixel(0, 0), &[14, 165, 233, 255]);
    assert_eq!(pixel(3, 3), &[14, 165, 233, 255]);
    assert_eq!(pixel(4, 0), &[30, 41, 59, 255]);
    assert_eq!(pixel(0, 4), &[30, 41, 59, 255]);
    assert_eq!(pixel(4, 4), &[14, 165, 233, 255]);
    assert_eq!(pixel(31, 31), &[14, 165, 233, 255]);
    assert!(v.chunks(4).all(|px| px[3] == 255));
}

#[test]
fn trimming_and_range_parsing() {
    assert!(white_space('\u{2003}'));
    assert!(!white_space('\u{200b}'));
    let chars = chars_of("\u{a0} 42 \n");
    assert_eq!(trim_bounds(&chars), (2, 4));
    assert_eq!(parse_u16_range(&chars, 2, 4), Some(42));
    assert_eq!(parse_u16_range(&chars, 0, 4), None);
    let blank = chars_of(" \t ");
    let (a, b) = trim_bounds(&blank);
    assert_eq!(a, b);
}

#[test]
fn port_texts_for_the_search() {
    assert_eq!(port_of_text(&Some(" 5176\r\n".to_string())), Some(5176));
    assert_eq!(port_of_text(&None), None);
    assert_eq!(pending_command(Phase::Scanning { attempt: 3 }), Command::ScanRange);
    assert_eq!(pending_command(Phase::ProbingEnvPort { port: 7, attempt: 1 }), Command::Probe(7));
}
