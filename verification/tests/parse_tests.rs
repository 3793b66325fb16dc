use searchkit::grep_parse::parse_grep_line;
use searchkit::lines::split_lines;

#[test]
fn grep_line_with_path_number_and_content() {
    let line: Vec<u8> = b"src/main.go:42:fmt.Println(x)".to_vec();
    let r = parse_grep_line(&line).unwrap();
    assert_eq!(r.path, "src/main.go");
    assert_eq!(r.line_number, 42);
    assert_eq!(r.content, "fmt.Println(x)");
}

#[test]
fn grep_line_with_unparsable_number_is_dropped() {
    let line: Vec<u8> = b"a:b:c".to_vec();
    assert!(parse_grep_line(&line).is_none());
}

#[test]
fn grep_line_without_colons_is_dropped() {
    assert!(parse_grep_line(&b"no delimiters here".to_vec()).is_none());
    assert!(parse_grep_line(&b"only:one".to_vec()).is_none());
    assert!(parse_grep_line(&b"".to_vec()).is_none());
}

#[test]
fn grep_line_content_may_contain_colons() {
    let line: Vec<u8> = b"x.rs:7:let a: u32 = 1;".to_vec();
    let r = parse_grep_line(&line).unwrap();
    assert_eq!(r.path, "x.rs");
    assert_eq!(r.line_number, 7);
    assert_eq!(r.content, "let a: u32 = 1;");
}

#[test]
fn grep_line_empty_content_is_kept() {
    let r = parse_grep_line(&b"f:1:".to_vec()).unwrap();
    assert_eq!(r.path, "f");
    assert_eq!(r.line_number, 1);
    assert_eq!(r.content, "");
}

#[test]
fn grep_line_number_zero_is_dropped() {
    assert!(parse_grep_line(&b"a:0:b".to_vec()).is_none());
    assert!(parse_grep_line(&b"a:+0:b".to_vec()).is_none());
    assert!(parse_grep_line(&b"a:00:b".to_vec()).is_none());
}

#[test]
fn grep_line_number_accepts_plus_sign_and_rejects_overflow() {
    let r = parse_grep_line(&b"f:+42:x".to_vec()).unwrap();
    assert_eq!(r.line_number, 42);
    assert!(parse_grep_line(&b"f:4294967296:x".to_vec()).is_none());
    let r = parse_grep_line(&b"f:4294967295:x".to_vec()).unwrap();
    assert_eq!(r.line_number, u32::MAX);
    assert!(parse_grep_line(&b"f:-3:x".to_vec()).is_none());
    assert!(parse_grep_line(&b"f::x".to_vec()).is_none());
}

#[test]
fn grep_line_invalid_utf8_decodes_lossily() {
    let mut line: Vec<u8> = Vec::new();
    line.extend_from_slice(&[0xFF]);
    line.extend_from_slice(b"x:1:y");
    let r = parse_grep_line(&line).unwrap();
    assert_eq!(r.path, "\u{FFFD}x");
    assert_eq!(r.content, "y");
}

#[test]
fn lines_split_at_line_feeds() {
    let got = split_lines(&b"a\nbb\nccc".to_vec());
    assert_eq!(got, vec![b"a".to_vec(), b"bb".to_vec(), b"ccc".to_vec()]);
}

#[test]
fn lines_strip_carriage_return_before_line_feed() {
    let got = split_lines(&b"a\r\nb\n".to_vec());
    assert_eq!(got, vec![b"a".to_vec(), b"b".to_vec()]);
}

#[test]
fn lines_final_newline_adds_no_empty_line() {
    assert_eq!(split_lines(&b"a\n".to_vec()), vec![b"a".to_vec()]);
    assert_eq!(split_lines(&b"".to_vec()), Vec::<Vec<u8>>::new());
    assert_eq!(split_lines(&b"\n".to_vec()), vec![b"".to_vec()]);
}

#[test]
fn lines_keep_lone_carriage_return() {
    let got = split_lines(&b"a\rb".to_vec());
    assert_eq!(got, vec![b"a\rb".to_vec()]);
    let got = split_lines(&b"tail\r".to_vec());
    assert_eq!(got, vec![b"tail\r".to_vec()]);
}

#[test]
fn empty_lines_between_line_feeds_are_lines() {
    let got = split_lines(&b"a\n\nb".to_vec());
    assert_eq!(got, vec![b"a".to_vec(), b"".to_vec(), b"b".to_vec()]);
}
