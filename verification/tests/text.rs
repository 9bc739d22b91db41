//! Text utilities: ids, trimming, splitting, numerals.

use apple_mail::number::{parse_usize, push_decimal, push_signed_decimal, IntError};
use apple_mail::script::directory_path;
use apple_mail::text::{
    chars_of, clean_message_id, contains, split_trimmed, starts_with, string_of, trim_chars,
};

fn clean(id: &str) -> String {
    string_of(&clean_message_id(id))
}

#[test]
fn message_ids_are_cut_at_the_first_colon_and_trimmed() {
    assert_eq!(clean("12345"), "12345");
    assert_eq!(clean("12345:extra:more"), "12345");
    assert_eq!(clean("  77  : x"), "77");
    assert_eq!(clean(":abc"), "");
    assert_eq!(clean(""), "");
    for id in ["12345", " 1 : 2", "x:y", "\t9\n", ":"] {
        let by_std = id.split(':').next().unwrap_or(id).trim();
        assert_eq!(clean(id), by_std);
    }
}

#[test]
fn cleaning_twice_changes_nothing() {
    for id in [" 12 :34", "abc", "", "  : ", "x\u{3000}:y"] {
        let once = clean(id);
        assert_eq!(clean(&once), once);
        assert!(!once.contains(':'));
    }
}

#[test]
fn trimming_matches_std() {
    for s in ["", "  ", " a ", "\u{85}x\u{2028}", "a b", "\u{200b}z\u{200b}", "\t\n\r x \u{a0}"] {
        let once = trim_chars(&chars_of(s));
        assert_eq!(string_of(&once), s.trim());
        assert_eq!(trim_chars(&once), once);
    }
}

#[test]
fn splitting_matches_std() {
    for s in ["a,b", "", ",", " a , b ,c", "x,,y,"] {
        let mine: Vec<String> = split_trimmed(&chars_of(s), ',');
        let std_pieces: Vec<String> = s.split(',').map(|p| p.trim().to_string()).collect();
        assert_eq!(mine, std_pieces);
        // joined back with commas, the untrimmed pieces are the text again
        assert_eq!(s.split(',').collect::<Vec<_>>().join(","), s);
    }
}

#[test]
fn prefix_and_search() {
    assert!(starts_with(&chars_of("ERROR:x"), "ERROR:"));
    assert!(!starts_with(&chars_of("ERR"), "ERROR:"));
    assert!(contains(&chars_of("it is true"), "true"));
    assert!(!contains(&chars_of("tru e"), "true"));
    assert!(contains(&chars_of("abc"), ""));
}

#[test]
fn numerals() {
    for n in [0u128, 7, 10, 99, 100, 123456789, u64::MAX as u128] {
        let mut v = Vec::new();
        push_decimal(&mut v, n);
        assert_eq!(string_of(&v), n.to_string());
    }
    for n in [0i64, -1, 42, i64::MIN, i64::MAX] {
        let mut v = Vec::new();
        push_signed_decimal(&mut v, n);
        assert_eq!(string_of(&v), n.to_string());
    }
}

#[test]
fn parsing_matches_std() {
    for s in ["0", "42", "+42", "", "+", "-", "-5", "4 2", "007", "18446744073709551615", "18446744073709551616", "99999999999999999999x", "x99999999999999999999"] {
        let mine = parse_usize(&chars_of(s));
        match s.parse::<usize>() {
            Ok(n) => assert_eq!(mine, Ok(n)),
            Err(e) => {
                let kind = match e.kind() {
                    std::num::IntErrorKind::Empty => IntError::Empty,
                    std::num::IntErrorKind::InvalidDigit => IntError::InvalidDigit,
                    std::num::IntErrorKind::PosOverflow => IntError::PosOverflow,
                    _ => panic!("unexpected kind"),
                };
                assert_eq!(mine, Err(kind));
            }
        }
    }
}

#[test]
fn a_written_number_reads_back() {
    for n in [0usize, 1, 50, 1000, usize::MAX] {
        let mut v = Vec::new();
        push_decimal(&mut v, n as u128);
        assert_eq!(parse_usize(&v), Ok(n));
    }
}

#[test]
fn directories_end_with_a_slash() {
    assert_eq!(string_of(&directory_path("/tmp")), "/tmp/");
    assert_eq!(string_of(&directory_path("/tmp/")), "/tmp/");
    assert_eq!(string_of(&directory_path("")), "/");
    let once = string_of(&directory_path("a"));
    assert_eq!(string_of(&directory_path(&once)), once);
}
