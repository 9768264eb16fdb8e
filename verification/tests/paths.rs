use rust_odbc_csv::path::{file_stem, output_path};

fn is_lower_hex_digit(c: char) -> bool {
    c.is_ascii_digit() || ('a'..='f').contains(&c)
}

#[test]
fn path_is_directory_stem_and_suffix() {
    assert_eq!(output_path("/tmp", "report"), "/tmp/report.csv");
}

#[test]
fn path_keeps_the_stem_verbatim() {
    assert_eq!(output_path("/var/tmp", "daily report.v2"), "/var/tmp/daily report.v2.csv");
    assert_eq!(output_path("/tmp", ""), "/tmp/.csv");
    assert_eq!(output_path("", "x"), "/x.csv");
    assert_eq!(output_path("/tmp/", "x"), "/tmp//x.csv");
    assert_eq!(output_path("/tmp", "r\u{00e9}sum\u{00e9}"), "/tmp/r\u{00e9}sum\u{00e9}.csv");
}

#[test]
fn given_name_is_the_stem() {
    assert_eq!(file_stem(Some("report".to_string())), "report");
    assert_eq!(file_stem(Some(String::new())), "");
}

#[test]
fn generated_stem_is_a_hyphenated_lower_case_uuid() {
    let stem = file_stem(None);
    let chars: Vec<char> = stem.chars().collect();
    assert_eq!(chars.len(), 36);
    for (i, c) in chars.iter().enumerate() {
        if i == 8 || i == 13 || i == 18 || i == 23 {
            assert_eq!(*c, '-');
        } else {
            assert!(is_lower_hex_digit(*c));
        }
    }
}

#[test]
fn generated_stems_differ_from_call_to_call() {
    let first = file_stem(None);
    let second = file_stem(None);
    let third = file_stem(None);
    assert_ne!(first, second);
    assert_ne!(first, third);
    assert_ne!(second, third);
}
