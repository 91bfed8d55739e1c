use junk_cleaner::model::{AppMode, JunkItem, JunkType, LargeFile, StartupItem};
use junk_cleaner::window::{Action, AppState, ScanOutcome, Screen};

fn file(path: &str, size: u64) -> JunkItem {
    JunkItem { junk_type: JunkType::FileOrDir(path.to_string()), size }
}

fn startup(name: &str, command: &str) -> StartupItem {
    StartupItem { name: name.to_string(), command: command.to_string(), hkey: 5, subkey: "Run".to_string() }
}

#[test]
fn window_opens_ready() {
    let s = Screen::new();
    assert_eq!(s.status_text, "Ready.");
    assert_eq!(s.size_text, "Total Size: 0 B");
    assert_eq!(s.action_text, "Scan Junk");
    assert!(s.action_visible && s.action_enabled);
    assert!(!s.execute_visible && !s.execute_enabled);
    assert!(s.list.is_empty());
    let st = AppState::default();
    assert_eq!(st.mode, AppMode::Junk);
    assert!(!st.is_working);
}

#[test]
fn switching_pages() {
    let mut st = AppState::default();
    let mut s = Screen::new();
    s.list.push("old".to_string());
    st.mode_startup(&mut s);
    assert_eq!(st.mode, AppMode::Startup);
    assert_eq!(s.status_text, "Startup Manager Mode");
    assert_eq!(s.action_text, "Load Startup Items");
    assert!(!s.optimize_visible);
    assert!(s.list.is_empty());
    st.mode_large_files(&mut s);
    assert_eq!(s.status_text, "Large File Finder Mode");
    assert_eq!(s.action_text, "Scan Drive C: (>500MB)");
    st.mode_junk(&mut s);
    assert_eq!(s.status_text, "Junk & Registry Cleaner Mode");
    assert_eq!(s.action_text, "Scan Junk");
    assert!(s.optimize_visible);
    assert_eq!(s.size_text, "Total Size: 0 B");
}

#[test]
fn busy_window_ignores_requests() {
    let mut st = AppState::default();
    let mut s = Screen::new();
    assert_eq!(st.start_action(&mut s), Some(AppMode::Junk));
    assert!(st.is_working);
    assert_eq!(s.status_text, "Scanning...");
    assert!(s.progress_marquee && !s.action_enabled);
    st.mode_startup(&mut s);
    assert_eq!(st.mode, AppMode::Junk);
    assert_eq!(s.status_text, "Scanning...");
    assert_eq!(st.start_action(&mut s), None);
    assert!(matches!(st.execute_action(&mut s, Some(0), true), Action::Nothing));
}

#[test]
fn junk_scan_report() {
    let mut st = AppState::default();
    let mut s = Screen::new();
    st.start_action(&mut s);
    st.begin_scan();
    let dead = JunkItem {
        junk_type: JunkType::RegistryValue { hkey: 1, subkey: "Run".to_string(), value_name: "x".to_string() },
        size: 0,
    };
    st.finish_scan(ScanOutcome::Junk { dir_items: vec![file("a", 4000), file("b", 6000)], dead_keys: vec![dead] });
    assert!(!st.is_working);
    assert_eq!(st.total_size, 10000);
    assert_eq!(st.junk_items.len(), 3);
    st.on_scan_progress(&mut s);
    assert_eq!(s.size_text, "Total Junk: 9.765625 KiB");
    assert_eq!(s.status_text, "Scan complete. Found 3 junk/dead items.");
    assert_eq!(s.list, vec!["Found 3 files/folders/registry keys to clean.".to_string()]);
    assert_eq!(s.execute_text, "Clean All Junk");
    assert!(s.execute_visible && s.execute_enabled && !s.action_visible);
    assert_eq!(s.progress_pos, 100);
    assert!(!s.progress_marquee);
}

#[test]
fn empty_scan_brings_action_back() {
    let mut st = AppState::default();
    let mut s = Screen::new();
    st.start_action(&mut s);
    st.begin_scan();
    st.finish_scan(ScanOutcome::Junk { dir_items: vec![], dead_keys: vec![] });
    st.on_scan_progress(&mut s);
    assert_eq!(s.size_text, "Total Junk: 0 B");
    assert_eq!(s.status_text, "Scan complete. Found 0 junk/dead items.");
    assert!(s.action_visible && s.action_enabled && !s.execute_visible);
}

#[test]
fn startup_scan_and_disable() {
    let mut st = AppState::default();
    let mut s = Screen::new();
    st.mode_startup(&mut s);
    assert_eq!(st.start_action(&mut s), Some(AppMode::Startup));
    st.begin_scan();
    st.finish_scan(ScanOutcome::Startup(vec![startup("A", "a.exe"), startup("B", "b.exe -q")]));
    st.on_scan_progress(&mut s);
    assert_eq!(s.status_text, "Found 2 startup items.");
    assert_eq!(s.list, vec!["A -> a.exe".to_string(), "B -> b.exe -q".to_string()]);
    assert_eq!(s.execute_text, "Disable Selected Startup Item");
    match st.execute_action(&mut s, None, true) {
        Action::Notify(n) => {
            assert_eq!(n.title, "Error");
            assert_eq!(n.text, "Please select a startup item to disable.");
        },
        _ => panic!("expected a notice"),
    }
    assert!(matches!(st.execute_action(&mut s, Some(2), true), Action::Nothing));
    assert!(!st.is_working);
    match st.execute_action(&mut s, Some(1), true) {
        Action::DisableStartupItem { hkey, subkey, name, notice, rescan } => {
            assert_eq!((hkey, subkey.as_str(), name.as_str()), (5, "Run", "B"));
            assert_eq!(notice.title, "Success");
            assert_eq!(notice.text, "Disabled startup item: B");
            assert_eq!(rescan, AppMode::Startup);
        },
        _ => panic!("expected a deletion"),
    }
    assert!(st.is_working);
    assert_eq!(s.status_text, "Scanning...");
}

#[test]
fn large_file_scan_and_delete() {
    let mut st = AppState::default();
    let mut s = Screen::new();
    st.mode_large_files(&mut s);
    st.start_action(&mut s);
    st.begin_scan();
    let files = vec![
        LargeFile { path: r"C:\v.mkv".to_string(), size: 1073741824 },
        LargeFile { path: r"C:\d.iso".to_string(), size: 536870912 },
    ];
    st.finish_scan(ScanOutcome::LargeFiles(files));
    assert_eq!(st.total_size, 1610612736);
    st.on_scan_progress(&mut s);
    assert_eq!(s.size_text, "Total Size: 1.5 GiB");
    assert_eq!(s.status_text, "Found 2 large files.");
    assert_eq!(s.list, vec![r"[1 GiB] C:\v.mkv".to_string(), r"[512 MiB] C:\d.iso".to_string()]);
    assert_eq!(s.execute_text, "Delete Selected Large File");
    match st.execute_action(&mut s, None, false) {
        Action::Notify(n) => assert_eq!(n.text, "Please select a large file to delete."),
        _ => panic!("expected a notice"),
    }
    match st.execute_action(&mut s, Some(0), false) {
        Action::DeleteLargeFile { path, notice, rescan } => {
            assert_eq!(path, r"C:\v.mkv");
            assert_eq!(notice.text, r"Deleted large file: C:\v.mkv");
            assert_eq!(rescan, AppMode::LargeFiles);
        },
        _ => panic!("expected a deletion"),
    }
}

#[test]
fn clean_up_round_trip() {
    let mut st = AppState::default();
    let mut s = Screen::new();
    st.start_action(&mut s);
    st.begin_scan();
    st.finish_scan(ScanOutcome::Junk { dir_items: vec![file("a", 1024), file("b", 2048)], dead_keys: vec![] });
    st.on_scan_progress(&mut s);
    match st.execute_action(&mut s, None, true) {
        Action::Clean { items, optimize_ram } => {
            assert_eq!(items.len(), 2);
            assert!(optimize_ram);
        },
        _ => panic!("expected a clean-up"),
    }
    assert!(st.is_working);
    assert!(st.junk_items.is_empty());
    assert_eq!(s.status_text, "Cleaning...");
    assert_eq!(s.list, vec!["Cleaning temporary files and registry...".to_string()]);
    assert_eq!(s.progress_max, 2);
    assert!(!s.execute_enabled && !s.optimize_enabled);
    st.finish_cleanup(2, 3072, true);
    assert!(!st.is_working);
    st.on_execute_progress(&mut s);
    assert_eq!(s.status_text, "Cleaning complete.");
    assert_eq!(s.size_text, "Cleaned: 3 KiB");
    assert_eq!(s.list, vec![
        "Cleaning temporary files and registry...".to_string(),
        "Successfully deleted 2 items.".to_string(),
        "Windows Disk Cleanup finished successfully.".to_string(),
        "RAM & DNS Cache successfully optimized.".to_string(),
    ]);
    assert_eq!(s.progress_pos, 2);
    assert!(s.action_visible && s.action_enabled && !s.execute_visible && s.optimize_enabled);
    assert!(st.junk_items.is_empty());
    assert_eq!(st.total_size, 0);
}

#[test]
fn clean_up_without_ram_optimisation() {
    let mut st = AppState::default();
    let mut s = Screen::new();
    st.finish_cleanup(0, 0, false);
    st.on_execute_progress(&mut s);
    assert_eq!(s.size_text, "Cleaned: 0 B");
    assert_eq!(s.list, vec![
        "Successfully deleted 0 items.".to_string(),
        "Windows Disk Cleanup finished successfully.".to_string(),
    ]);
}

#[test]
fn execute_progress_ignored_off_junk_page() {
    let mut st = AppState::default();
    let mut s = Screen::new();
    st.mode_startup(&mut s);
    let before = s.status_text.clone();
    st.on_execute_progress(&mut s);
    assert_eq!(s.status_text, before);
}

#[test]
fn nothing_to_clean() {
    let mut st = AppState::default();
    let mut s = Screen::new();
    assert!(matches!(st.execute_action(&mut s, None, true), Action::Nothing));
    assert!(!st.is_working);
}
