use junk_cleaner::locations::{
    firefox_profiles_dir, junk_directory_candidates, run_keys, select_junk_directories,
    JunkEnvironment,
};
use junk_cleaner::model::{JunkItem, JunkType};
use junk_cleaner::paths::{extract_executable_path, is_absolute_windows, is_protected_lowercase, is_protected_path, join_path, starts_with};
use junk_cleaner::scanner::{
    cleanup_tally, dead_run_value, dead_run_values, junk_item_for_entry, startup_entries, RunValue, large_file_entry, pids_to_trim,
    total_junk_size, total_large_size, EntryMetadata, LARGE_FILE_THRESHOLD,
};
use junk_cleaner::model::LargeFile;
use junk_cleaner::text::{concat3, decimal_text};

fn file(path: &str, size: u64) -> JunkItem {
    JunkItem { junk_type: JunkType::FileOrDir(path.to_string()), size }
}

#[test]
fn decimal_text_renders_numbers() {
    assert_eq!(decimal_text(0), "0");
    assert_eq!(decimal_text(7), "7");
    assert_eq!(decimal_text(10), "10");
    assert_eq!(decimal_text(1234567890), "1234567890");
    assert_eq!(decimal_text(u64::MAX), u64::MAX.to_string());
    assert_eq!(concat3("a", "bc", "d"), "abcd");
}

#[test]
fn join_path_inserts_backslash() {
    assert_eq!(join_path(r"C:\Users\me\AppData\Roaming", "Microsoft"), r"C:\Users\me\AppData\Roaming\Microsoft");
    assert_eq!(join_path(r"C:\Temp\", "x"), r"C:\Temp\x");
    assert_eq!(join_path("C:/Temp/", "x"), "C:/Temp/x");
    assert_eq!(join_path("C:", "x"), "C:x");
    assert_eq!(join_path("", "x"), "x");
    assert_eq!(join_path("dir", r"a\b"), r"dir\a\b");
}

#[test]
fn join_path_rebuilds_verbatim_bases() {
    assert_eq!(join_path(r"\\?\C:\U\\a\", "x"), r"\\?\C:\U\a\x");
    assert_eq!(join_path(r"\\?\C:\", "x"), r"\\?\C:\x");
    assert_eq!(join_path(r"\\?\C:", "x"), r"\\?\C:\x");
    assert_eq!(join_path(r"\\?\C:\U\a\..\b", "CrashDumps"), r"\\?\C:\U\a\..\b\CrashDumps");
    assert_eq!(join_path(r"\\?\UNC\srv\share", "x"), r"\\?\UNC\srv\share\x");
    assert_eq!(join_path(r"\\?\C:\U/", "x"), r"\\?\C:\U/\x");
}

#[test]
fn absolute_windows_paths() {
    assert!(is_absolute_windows(r"C:\x.exe"));
    assert!(is_absolute_windows("c:/x.exe"));
    assert!(is_absolute_windows(r"\\server\share\x.exe"));
    assert!(is_absolute_windows(r"\\?\C:\x.exe"));
    assert!(!is_absolute_windows(r"C:x.exe"));
    assert!(!is_absolute_windows(r"\x.exe"));
    assert!(!is_absolute_windows("x.exe"));
    assert!(!is_absolute_windows(""));
}

#[test]
fn executable_path_of_quoted_command() {
    assert_eq!(extract_executable_path(r#""C:\Program Files\App\app.exe" --minimized"#), r"C:\Program Files\App\app.exe");
    assert_eq!(extract_executable_path(r#""C:\no end.exe -x"#), r#""C:\no end.exe -x"#);
    assert_eq!(extract_executable_path(r#""""#), "");
}

#[test]
fn executable_path_of_unquoted_command() {
    assert_eq!(extract_executable_path(r"C:\Tools\tool.exe -silent"), r"C:\Tools\tool.exe");
    assert_eq!(extract_executable_path(r"C:\Tools\tool.exe /background"), r"C:\Tools\tool.exe");
    // " -" wins over an earlier " /"
    assert_eq!(extract_executable_path(r"C:\a.exe /x -y"), r"C:\a.exe /x");
    assert_eq!(extract_executable_path(r"C:\Tools\tool.exe"), r"C:\Tools\tool.exe");
    assert_eq!(extract_executable_path(""), "");
    assert_eq!(extract_executable_path("été -x"), "été");
}

#[test]
fn protected_paths_are_skipped() {
    assert!(is_protected_path(r"C:\Windows\System32"));
    assert!(is_protected_path(r"C:\WINDOWS"));
    assert!(is_protected_path(r"c:\PROGRAM FILES (X86)\Steam"));
    assert!(is_protected_path(r"C:\ProgramData\x"));
    assert!(is_protected_path(r"C:\$Recycle.Bin"));
    assert!(!is_protected_path(r"C:\Users\me\Videos"));
    assert!(!is_protected_path(r"D:\Windows"));
    assert!(!is_protected_path(r"C:\"));
    assert!(is_protected_lowercase(r"c:\windowsold"));
    assert!(!is_protected_lowercase(r"C:\Windows"));
    assert!(starts_with("abc", "ab"));
    assert!(!starts_with("ab", "abc"));
}

#[test]
fn junk_directories_in_scan_order() {
    let env = JunkEnvironment {
        temp: Some(r"C:\Users\me\AppData\Local\Temp".to_string()),
        appdata: Some(r"C:\Users\me\AppData\Roaming".to_string()),
        local_appdata: Some(r"C:\Users\me\AppData\Local".to_string()),
    };
    let profiles = vec![
        r"C:\Users\me\AppData\Local\Mozilla\Firefox\Profiles\abc.default".to_string(),
        r"C:\Users\me\AppData\Local\Mozilla\Firefox\Profiles\xyz.dev".to_string(),
    ];
    let c = junk_directory_candidates(&env, &profiles);
    let got: Vec<(String, bool)> = c.iter().map(|d| (d.path.clone(), d.must_exist)).collect();
    let l = r"C:\Users\me\AppData\Local";
    let expected: Vec<(String, bool)> = vec![
        (r"C:\Users\me\AppData\Local\Temp".to_string(), false),
        (r"C:\Users\me\AppData\Roaming\Microsoft\Windows\Recent".to_string(), true),
        (format!(r"{l}\CrashDumps"), true),
        (format!(r"{l}\Google\Chrome\User Data\Default\Cache\Cache_Data"), true),
        (format!(r"{l}\Google\Chrome\User Data\Default\System Cache\Cache_Data"), true),
        (format!(r"{l}\Microsoft\Edge\User Data\Default\Cache\Cache_Data"), true),
        (format!(r"{l}\Mozilla\Firefox\Profiles\abc.default\cache2"), true),
        (format!(r"{l}\Mozilla\Firefox\Profiles\xyz.dev\cache2"), true),
        (r"C:\Windows\Temp".to_string(), true),
        (r"C:\Windows\Prefetch".to_string(), true),
        (r"C:\Windows\SoftwareDistribution\Download".to_string(), true),
        (r"C:\Windows\Logs".to_string(), true),
        (r"C:\Windows\System32\LogFiles".to_string(), true),
    ];
    assert_eq!(got, expected);
    assert_eq!(firefox_profiles_dir(l), format!(r"{l}\Mozilla\Firefox\Profiles"));
}

#[test]
fn junk_directories_without_environment() {
    let env = JunkEnvironment { temp: None, appdata: None, local_appdata: None };
    let c = junk_directory_candidates(&env, &vec!["ignored".to_string()]);
    let got: Vec<&str> = c.iter().map(|d| d.path.as_str()).collect();
    assert_eq!(got, vec![
        r"C:\Windows\Temp",
        r"C:\Windows\Prefetch",
        r"C:\Windows\SoftwareDistribution\Download",
        r"C:\Windows\Logs",
        r"C:\Windows\System32\LogFiles",
    ]);
    assert!(c.iter().all(|d| d.must_exist));
}

#[test]
fn temp_kept_even_when_missing() {
    let env = JunkEnvironment { temp: Some("T".to_string()), appdata: Some("A".to_string()), local_appdata: None };
    let c = junk_directory_candidates(&env, &vec![]);
    let mut exists = vec![false; c.len()];
    exists[3] = true; // C:\Windows\Prefetch
    let kept = select_junk_directories(&c, &exists);
    assert_eq!(kept, vec!["T".to_string(), r"C:\Windows\Prefetch".to_string()]);
}

#[test]
fn run_keys_user_then_machine() {
    let keys = run_keys(-2147483647, -2147483646);
    assert_eq!(keys.len(), 2);
    assert_eq!(keys[0].hkey, -2147483647);
    assert_eq!(keys[0].subkey, r"Software\Microsoft\Windows\CurrentVersion\Run");
    assert_eq!(keys[1].hkey, -2147483646);
    assert_eq!(keys[1].subkey, r"SOFTWARE\Microsoft\Windows\CurrentVersion\Run");
}

#[test]
fn entries_become_junk_items() {
    let f = junk_item_for_entry("a.tmp".to_string(), Some(EntryMetadata { is_file: true, len: 42 }));
    assert_eq!(f.junk_type, JunkType::FileOrDir("a.tmp".to_string()));
    assert_eq!(f.size, 42);
    let d = junk_item_for_entry("dir".to_string(), Some(EntryMetadata { is_file: false, len: 4096 }));
    assert_eq!(d.size, 0);
    let u = junk_item_for_entry("gone".to_string(), None);
    assert_eq!(u.size, 0);
}

#[test]
fn dead_run_value_decision() {
    let dead = dead_run_value(7, "Run", "Old".to_string(), r#""C:\gone\app.exe" -x"#, false).unwrap();
    assert_eq!(dead.size, 0);
    assert_eq!(dead.junk_type, JunkType::RegistryValue { hkey: 7, subkey: "Run".to_string(), value_name: "Old".to_string() });
    assert!(dead_run_value(7, "Run", "Ok".to_string(), r"C:\here.exe", true).is_none());
    assert!(dead_run_value(7, "Run", "Rel".to_string(), "tool.exe", false).is_none());
    assert!(dead_run_value(7, "Run", "Drive".to_string(), "C:tool.exe", false).is_none());
    assert!(dead_run_value(7, "Run", "Empty".to_string(), "", false).is_none());
}

#[test]
fn dead_values_are_startup_entries() {
    let values = vec![
        RunValue { name: "A".to_string(), data: r"C:\a.exe".to_string() },
        RunValue { name: "B".to_string(), data: r"C:\gone.exe /s".to_string() },
        RunValue { name: "C".to_string(), data: "rel.exe".to_string() },
    ];
    let exists = vec![true, false, false];
    let dead = dead_run_values(3, "Run", &values, &exists);
    assert_eq!(dead.len(), 1);
    assert_eq!(dead[0].junk_type, JunkType::RegistryValue { hkey: 3, subkey: "Run".to_string(), value_name: "B".to_string() });
    let entries = startup_entries(3, "Run", &values);
    assert_eq!(entries.len(), 3);
    assert_eq!((entries[1].name.as_str(), entries[1].command.as_str(), entries[1].hkey, entries[1].subkey.as_str()), ("B", r"C:\gone.exe /s", 3, "Run"));
    for d in &dead {
        assert!(entries.iter().any(|e| d.junk_type == JunkType::RegistryValue { hkey: e.hkey, subkey: e.subkey.clone(), value_name: e.name.clone() }));
    }
}

#[test]
fn large_files_above_threshold() {
    assert_eq!(LARGE_FILE_THRESHOLD, 500 * 1024 * 1024);
    assert!(large_file_entry("f".to_string(), true, 524288000).is_none());
    let f = large_file_entry("f".to_string(), true, 524288001).unwrap();
    assert_eq!((f.path.as_str(), f.size), ("f", 524288001));
    assert!(large_file_entry("d".to_string(), false, u64::MAX).is_none());
}

#[test]
fn totals_and_overflow() {
    let items = vec![file("a", 1), file("b", 2), file("c", 3)];
    assert_eq!(total_junk_size(&items), Some(6));
    assert_eq!(total_junk_size(&vec![]), Some(0));
    assert_eq!(total_junk_size(&vec![file("a", u64::MAX), file("b", 1)]), None);
    let files = vec![LargeFile { path: "x".to_string(), size: 10 }, LargeFile { path: "y".to_string(), size: 5 }];
    assert_eq!(total_large_size(&files), Some(15));
    assert_eq!(total_large_size(&vec![LargeFile { path: "x".to_string(), size: u64::MAX }, LargeFile { path: "y".to_string(), size: u64::MAX }]), None);
}

#[test]
fn cleanup_tally_counts_successes() {
    let items = vec![file("a", 10), file("b", 20), file("c", 30)];
    assert_eq!(cleanup_tally(&items, &vec![true, false, true]), Some((2, 40)));
    assert_eq!(cleanup_tally(&items, &vec![false, false, false]), Some((0, 0)));
    assert_eq!(cleanup_tally(&vec![file("a", u64::MAX), file("b", 1)], &vec![true, true]), None);
    assert_eq!(cleanup_tally(&vec![file("a", u64::MAX), file("b", 1)], &vec![true, false]), Some((1, u64::MAX)));
}

#[test]
fn pids_to_trim_skips_zero() {
    let mut buf = vec![0u32; 1024];
    buf[0] = 0;
    buf[1] = 4;
    buf[2] = 88;
    buf[3] = 0;
    buf[4] = 1234;
    buf[5] = 999; // beyond the count
    assert_eq!(pids_to_trim(&buf, 20), vec![4, 88, 1234]);
    assert_eq!(pids_to_trim(&buf, 3), Vec::<u32>::new());
    assert_eq!(pids_to_trim(&buf, 0), Vec::<u32>::new());
}
