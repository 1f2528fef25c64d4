use nullamp::scan::{
    file_stamp, missing_paths, new_files, progress_label, scan_window_action, ScanPhase, ScanWindowAction,
};

fn strings(v: &[&str]) -> Vec<String> {
    v.iter().map(|s| s.to_string()).collect()
}

#[test]
fn only_new_files_are_indexed() {
    let found = strings(&["/m/c.mp3", "/m/a.mp3", "/m/d.flac", "/m/b.mp3", "/m/a.mp3"]);
    let known = strings(&["/m/b.mp3", "/m/a.mp3", "/m/z.ogg"]);
    let (fresh, skipped) = new_files(&found, &known);
    assert_eq!(fresh, strings(&["/m/c.mp3", "/m/d.flac"]));
    assert_eq!(skipped, 3);
    let (all, none) = new_files(&found, &vec![]);
    assert_eq!(all, found);
    assert_eq!(none, 0);
    assert_eq!(new_files(&vec![], &known), (vec![], 0));
}

#[test]
fn gone_files_are_removed() {
    let known = strings(&["/m/b.mp3", "/m/a.mp3", "/m/z.ogg", "/m/é.mp3"]);
    let on_disk = strings(&["/m/a.mp3", "/m/c.mp3", "/m/é.mp3"]);
    assert_eq!(missing_paths(&known, &on_disk), strings(&["/m/b.mp3", "/m/z.ogg"]));
    assert_eq!(missing_paths(&known, &vec![]), known);
}

#[test]
fn lookups_scale_to_large_libraries() {
    let known: Vec<String> = (0..20000).rev().map(|i| format!("/music/{i:05}.mp3")).collect();
    let found: Vec<String> = (10000..30000).map(|i| format!("/music/{i:05}.mp3")).collect();
    let (fresh, skipped) = new_files(&found, &known);
    assert_eq!(skipped, 10000);
    assert_eq!(fresh.len(), 10000);
    assert_eq!(fresh[0], "/music/20000.mp3");
    assert_eq!(missing_paths(&known, &found).len(), 10000);
}

#[test]
fn scan_phases_in_order() {
    assert_eq!(ScanPhase::Discovering.next(false), Some(ScanPhase::Indexing));
    assert_eq!(ScanPhase::Discovering.next(true), None);
    assert_eq!(ScanPhase::Indexing.next(false), Some(ScanPhase::Removing));
    assert_eq!(ScanPhase::Indexing.next(true), Some(ScanPhase::Cancelled));
    assert_eq!(ScanPhase::Removing.next(true), Some(ScanPhase::Complete));
    assert_eq!(ScanPhase::Complete.next(false), None);
    assert_eq!(ScanPhase::Cancelled.next(false), None);
    assert_eq!(ScanPhase::Removing.name(), "removing");
    assert_eq!(ScanPhase::Cancelled.name(), "cancelled");
}

#[test]
fn scan_window_line_and_button() {
    assert_eq!(progress_label(None), "0 / 0 files");
    assert_eq!(progress_label(Some((12, 340))), "12 / 340 files");
    assert_eq!(scan_window_action(true), ScanWindowAction::CancelScan);
    assert_eq!(scan_window_action(false), ScanWindowAction::Close);
}

#[test]
fn stamps_tell_changed_files_apart() {
    assert_eq!(file_stamp("/m/a.mp3", Some(1700000000)), "/m/a.mp3\u{0}1700000000");
    assert_eq!(file_stamp("/m/a.mp3", None), "/m/a.mp3\u{0}");
    let known = vec![file_stamp("/m/a.mp3", Some(100)), file_stamp("/m/b.mp3", Some(200))];
    let found = vec![
        file_stamp("/m/a.mp3", Some(100)),
        file_stamp("/m/b.mp3", Some(250)),
        file_stamp("/m/c.mp3", Some(300)),
    ];
    let (fresh, skipped) = new_files(&found, &known);
    assert_eq!(fresh, vec![file_stamp("/m/b.mp3", Some(250)), file_stamp("/m/c.mp3", Some(300))]);
    assert_eq!(skipped, 1);
}
