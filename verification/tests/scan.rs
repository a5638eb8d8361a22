use datestamp::rename::{decide, process_file, Decision, Effect};
use datestamp::scan::{pattern_error_line, Action, Entry, Scan};
use datestamp::timestamp::Timestamp;

fn file(path: &str) -> Entry {
    Entry::File { path: path.to_string() }
}

#[test]
fn new_scan_has_met_nothing() {
    assert_eq!(Scan::new().matched(), 0);
}

#[test]
fn regular_file_is_counted_and_announced() {
    let mut scan = Scan::new();
    let action = scan.step(&file("docs/a.txt"));
    assert_eq!(action, Action::Process { notice: "Matched file: docs/a.txt".to_string() });
    assert_eq!(scan.matched(), 1);
}

#[test]
fn other_paths_are_passed_over() {
    let mut scan = Scan::new();
    assert_eq!(scan.step(&Entry::Other), Action::Ignore);
    assert_eq!(scan.matched(), 0);
}

#[test]
fn unreadable_path_is_reported_and_not_counted() {
    let mut scan = Scan::new();
    let entry = Entry::Unreadable { reason: "Permission denied (os error 13)".to_string() };
    assert_eq!(
        scan.step(&entry),
        Action::Report {
            complaint: "Error processing path: Permission denied (os error 13)".to_string()
        }
    );
    assert_eq!(scan.matched(), 0);
}

#[test]
fn only_files_count() {
    let mut scan = Scan::new();
    scan.step(&file("a.txt"));
    scan.step(&Entry::Other);
    scan.step(&Entry::Unreadable { reason: "gone".to_string() });
    scan.step(&file("b.txt"));
    scan.step(&Entry::Other);
    scan.step(&file("c.txt"));
    assert_eq!(scan.matched(), 3);
}

#[test]
fn no_match_summary() {
    let scan = Scan::new();
    assert_eq!(scan.summary("*.txt"), "No files matched the pattern: *.txt");
}

#[test]
fn no_match_summary_after_directories_only() {
    let mut scan = Scan::new();
    scan.step(&Entry::Other);
    scan.step(&Entry::Unreadable { reason: "gone".to_string() });
    assert_eq!(scan.summary("src/**"), "No files matched the pattern: src/**");
}

#[test]
fn summary_counts_the_files() {
    let mut scan = Scan::new();
    scan.step(&file("a.txt"));
    scan.step(&file("b.txt"));
    assert_eq!(scan.summary("*.txt"), "There were 2 files matching the pattern *.txt.");
}

#[test]
fn summary_of_one_file() {
    let mut scan = Scan::new();
    scan.step(&file("a.txt"));
    assert_eq!(scan.summary("a.*"), "There were 1 files matching the pattern a.*.");
}

#[test]
fn summary_of_many_files() {
    let mut scan = Scan::new();
    for i in 0..1234 {
        scan.step(&file(&format!("f{}.log", i)));
    }
    assert_eq!(scan.matched(), 1234);
    assert_eq!(scan.summary("*.log"), "There were 1234 files matching the pattern *.log.");
}

#[test]
fn pattern_error_line_gives_the_reason() {
    assert_eq!(
        pattern_error_line("Pattern syntax error near position 2: invalid range pattern"),
        "Error matching glob pattern: Pattern syntax error near position 2: invalid range pattern"
    );
}

#[test]
fn two_text_files_one_already_stamped() {
    let mut scan = Scan::new();
    let mut stdout: Vec<String> = Vec::new();
    let mut renames: Vec<(String, String)> = Vec::new();
    for name in ["a.txt", "b_20230101_0800.txt"] {
        match scan.step(&file(name)) {
            Action::Process { notice } => stdout.push(notice),
            other => panic!("{}: {:?}", name, other),
        }
        let reading = Ok(Timestamp::parse("20240115_1430").unwrap());
        for effect in process_file(name, name, &reading, false) {
            match effect {
                Effect::Print { line } => stdout.push(line),
                Effect::Complain { line } => panic!("{}: {}", name, line),
                Effect::Rename { new_name } => renames.push((name.to_string(), new_name)),
            }
        }
    }
    stdout.push(scan.summary("*.txt"));
    assert_eq!(renames, vec![("a.txt".to_string(), "a_20240115_1430.txt".to_string())]);
    assert_eq!(
        stdout,
        vec![
            "Matched file: a.txt".to_string(),
            "File creation date: 20240115_1430".to_string(),
            "Matched file: b_20230101_0800.txt".to_string(),
            "File creation date: 20240115_1430".to_string(),
            "Skipping file (date already present): b_20230101_0800.txt\n".to_string(),
            "There were 2 files matching the pattern *.txt.".to_string(),
        ]
    );
}

#[test]
fn dry_run_counts_like_a_live_run() {
    let stamp = Timestamp::parse("20240115_1430").unwrap();
    let names = ["a.txt", "b_20230101_0800.txt", "README"];
    let mut counts: Vec<u64> = Vec::new();
    let mut skipped: Vec<Vec<bool>> = Vec::new();
    for dryrun in [false, true] {
        let mut scan = Scan::new();
        let mut skips: Vec<bool> = Vec::new();
        for name in names {
            scan.step(&file(name));
            let decided = decide(name, &stamp, dryrun);
            assert!(!dryrun || !matches!(decided, Decision::Rename { .. }));
            skips.push(decided == Decision::Skip);
        }
        counts.push(scan.matched());
        skipped.push(skips);
    }
    assert_eq!(counts, vec![3, 3]);
    assert_eq!(skipped[0], skipped[1]);
    assert_eq!(skipped[0], vec![false, true, false]);
}
