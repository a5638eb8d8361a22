use datestamp::naming::{is_stamped, split_file_name, stamped_name};
use datestamp::timestamp::Timestamp;

fn stamp_of(text: &str) -> Timestamp {
    Timestamp::parse(text).expect("a well-formed timestamp")
}

#[test]
fn split_plain_name() {
    assert_eq!(split_file_name("report.txt"), ("report", "txt"));
}

#[test]
fn split_takes_the_last_dot() {
    assert_eq!(split_file_name("archive.tar.gz"), ("archive.tar", "gz"));
}

#[test]
fn split_name_without_extension() {
    assert_eq!(split_file_name("README"), ("README", ""));
}

#[test]
fn split_at_a_leading_dot() {
    assert_eq!(split_file_name(".profile"), ("", "profile"));
}

#[test]
fn split_hidden_file_with_extension() {
    assert_eq!(split_file_name(".config.toml"), (".config", "toml"));
}

#[test]
fn split_trailing_dot_gives_empty_extension() {
    assert_eq!(split_file_name("notes."), ("notes", ""));
    assert_eq!(split_file_name("a.b."), ("a.b", ""));
}

#[test]
fn split_empty_and_dots() {
    assert_eq!(split_file_name(""), ("", ""));
    assert_eq!(split_file_name("."), ("", ""));
    assert_eq!(split_file_name(".."), (".", ""));
}

#[test]
fn split_counts_characters_not_bytes() {
    assert_eq!(split_file_name("r\u{e9}sum\u{e9}.pdf"), ("r\u{e9}sum\u{e9}", "pdf"));
    assert_eq!(split_file_name("\u{65e5}\u{672c}.\u{8a9e}"), ("\u{65e5}\u{672c}", "\u{8a9e}"));
}

#[test]
fn stamped_stem_is_detected() {
    assert!(is_stamped("report_20240115_1430"));
    assert!(is_stamped("b_20230101_0800"));
}

#[test]
fn suffix_alone_is_detected() {
    assert!(is_stamped("_20240115_1430"));
}

#[test]
fn suffix_check_ignores_calendar() {
    assert!(is_stamped("report_99999999_9999"));
    assert!(is_stamped("report_00000000_0000"));
}

#[test]
fn plain_stem_is_not_stamped() {
    assert!(!is_stamped("report"));
    assert!(!is_stamped(""));
    assert!(!is_stamped("a"));
}

#[test]
fn suffix_needs_leading_underscore() {
    assert!(!is_stamped("20240115_1430"));
    assert!(!is_stamped("report20240115_1430"));
    assert!(!is_stamped("report-20240115_1430"));
}

#[test]
fn suffix_needs_exact_digit_counts() {
    assert!(!is_stamped("report_2024011_1430"));
    assert!(!is_stamped("report_202401150_1430"));
    assert!(!is_stamped("report_20240115_143"));
    assert!(!is_stamped("report_20240115_14300"));
}

#[test]
fn suffix_must_end_the_stem() {
    assert!(!is_stamped("report_20240115_1430 "));
    assert!(!is_stamped("report_20240115_1430\n"));
    assert!(!is_stamped("report_20240115_1430_final"));
    assert!(is_stamped("report_20240115_1430_20240116_0915"));
}

#[test]
fn suffix_needs_the_inner_underscore() {
    assert!(!is_stamped("report_20240115-1430"));
    assert!(!is_stamped("report_202401151430"));
}

#[test]
fn suffix_digits_are_ascii() {
    assert!(!is_stamped("report_\u{ff12}\u{ff10}\u{ff12}\u{ff14}\u{ff10}\u{ff11}\u{ff11}\u{ff15}_\u{ff11}\u{ff14}\u{ff13}\u{ff10}"));
    assert!(!is_stamped("report_2024011\u{0665}_1430"));
    assert!(!is_stamped("report_2024011a_1430"));
}

#[test]
fn suffix_after_wide_characters() {
    assert!(is_stamped("\u{65e5}\u{672c}\u{8a9e}_20240115_1430"));
}

#[test]
fn stamp_goes_before_the_extension() {
    let renamed = stamped_name("report.txt", &stamp_of("20240115_1430"));
    assert_eq!(renamed, "report_20240115_1430.txt");
}

#[test]
fn stamp_goes_before_the_last_extension_only() {
    let renamed = stamped_name("archive.tar.gz", &stamp_of("20231231_2359"));
    assert_eq!(renamed, "archive.tar_20231231_2359.gz");
}

#[test]
fn name_without_extension_gets_trailing_dot() {
    let renamed = stamped_name("README", &stamp_of("20240115_1430"));
    assert_eq!(renamed, "README_20240115_1430.");
}

#[test]
fn stamp_goes_before_a_leading_dot() {
    let renamed = stamped_name(".profile", &stamp_of("20240115_1430"));
    assert_eq!(renamed, "_20240115_1430.profile");
}

#[test]
fn trailing_dot_is_kept() {
    let renamed = stamped_name("notes.", &stamp_of("20240115_1430"));
    assert_eq!(renamed, "notes_20240115_1430.");
}

#[test]
fn stamped_name_splits_back_into_its_parts() {
    let names = ["report.txt", "README", ".profile", "a.b.", "archive.tar.gz", "", "x.", ".."];
    for name in names {
        let (stem, extension) = split_file_name(name);
        let renamed = stamped_name(name, &stamp_of("20240115_1430"));
        let (new_stem, new_extension) = split_file_name(&renamed);
        assert_eq!(new_stem, format!("{}_20240115_1430", stem));
        assert_eq!(new_extension, extension);
        assert!(is_stamped(new_stem));
    }
}
