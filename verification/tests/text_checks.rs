use engine_host::text::{
    decimal_string, eq_ignore_ascii_case, join_lines, log_record, rfind_dot,
    signed_decimal_string, split_lines, str_contains, str_ends_with, str_starts_with, tail_lines,
};

#[test]
fn contains_finds_marker_substring() {
    assert!(str_contains("INFO: Uvicorn running on http://0.0.0.0:7987", "Uvicorn running on"));
    assert!(str_contains("SERVER READY", "SERVER READY"));
    assert!(!str_contains("server ready", "SERVER READY"));
    assert!(!str_contains("short", "a much longer pattern"));
    assert!(str_contains("anything", ""));
    assert!(!str_contains("", "x"));
}

#[test]
fn ends_and_starts_with() {
    assert!(str_ends_with("v1/uv.exe", "uv.exe"));
    assert!(!str_ends_with("pkg/uvx", "/uv"));
    assert!(str_ends_with("pkg/uv", "/uv"));
    assert!(str_starts_with("/seeds/a.png", "/seeds/"));
    assert!(!str_starts_with("/seedsx/a.png", "/seeds/"));
}

#[test]
fn split_lines_cases() {
    let none: Vec<String> = split_lines("");
    assert!(none.is_empty());
    assert_eq!(split_lines("one line"), vec!["one line".to_string()]);
    assert_eq!(split_lines("a\nb\nc"), vec!["a".to_string(), "b".to_string(), "c".to_string()]);
    assert_eq!(split_lines("a\nb\n"), vec!["a".to_string(), "b".to_string()]);
    assert_eq!(split_lines("\n\n"), vec!["".to_string(), "".to_string()]);
}

#[test]
fn tail_lines_keeps_order_and_bound() {
    let lines: Vec<String> = (0..40).map(|i| format!("line{}", i)).collect();
    let tail = tail_lines(&lines, 30);
    assert_eq!(tail.len(), 30);
    assert_eq!(tail[0], "line10");
    assert_eq!(tail[29], "line39");
    let all = tail_lines(&lines, 100);
    assert_eq!(all, lines);
}

#[test]
fn decimal_rendering() {
    assert_eq!(decimal_string(0), "0");
    assert_eq!(decimal_string(7), "7");
    assert_eq!(decimal_string(7987), "7987");
    assert_eq!(decimal_string(65535), "65535");
    assert_eq!(decimal_string(1000), "1000");
}

#[test]
fn signed_decimal_rendering() {
    assert_eq!(signed_decimal_string(0), "0");
    assert_eq!(signed_decimal_string(42), "42");
    assert_eq!(signed_decimal_string(-1), "-1");
    assert_eq!(signed_decimal_string(i32::MIN), "-2147483648");
}

#[test]
fn join_lines_with_newline_separators() {
    let none: Vec<String> = Vec::new();
    assert_eq!(join_lines(&none), "");
    assert_eq!(join_lines(&vec!["a".to_string()]), "a");
    assert_eq!(
        join_lines(&vec!["a".to_string(), "".to_string(), "c".to_string()]),
        "a\n\nc"
    );
}

#[test]
fn ascii_case_folding() {
    assert!(eq_ignore_ascii_case("PNG", "png"));
    assert!(eq_ignore_ascii_case("JpEg", "jpeg"));
    assert!(!eq_ignore_ascii_case("jpg", "jpeg"));
    assert!(!eq_ignore_ascii_case("png", "pnG7"));
    assert!(eq_ignore_ascii_case("", ""));
}

#[test]
fn log_record_terminates_line() {
    assert_eq!(log_record("hello"), "hello\n");
    assert_eq!(log_record(""), "\n");
}

#[test]
fn whole_records_split_back_into_the_same_lines() {
    let lines = ["alpha", "beta", "", "delta with spaces"];
    let mut file = String::new();
    for l in lines {
        file.push_str(&log_record(l));
    }
    let recovered = split_lines(&file);
    assert_eq!(recovered, lines.map(|l| l.to_string()).to_vec());
}

#[test]
fn rfind_dot_positions() {
    assert_eq!(rfind_dot("a.png"), Some(1));
    assert_eq!(rfind_dot("archive.tar.gz"), Some(11));
    assert_eq!(rfind_dot("noext"), None);
    assert_eq!(rfind_dot(".hidden"), Some(0));
}
