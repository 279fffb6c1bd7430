use storai_core::download::download_dir_or_empty;
use storai_core::fsops::{create_dir_all, read_dir, DirListing, EntryProbe};

#[test]
fn read_dir_missing_path_fails() {
    let r = read_dir("/no/such/dir", DirListing::Missing);
    assert!(r.is_err());
    assert_eq!(
        r.err().unwrap(),
        "Directory does not exist: /no/such/dir".to_string()
    );
}

#[test]
fn read_dir_on_file_fails() {
    let r = read_dir("/etc/hosts", DirListing::NotDirectory);
    assert!(r.is_err());
    assert_eq!(
        r.err().unwrap(),
        "Path is not a directory: /etc/hosts".to_string()
    );
}

#[test]
fn read_dir_open_failure_fails() {
    let r = read_dir(
        "/root/private",
        DirListing::ReadError {
            message: "permission denied".to_string(),
        },
    );
    assert!(r.is_err());
    assert_eq!(
        r.err().unwrap(),
        "Failed to read directory: permission denied".to_string()
    );
}

#[test]
fn read_dir_lists_every_named_child() {
    let entries = vec![
        EntryProbe::Named {
            name: "notes".to_string(),
            path: "/home/u/notes".to_string(),
            is_dir: true,
        },
        EntryProbe::Named {
            name: "a.txt".to_string(),
            path: "/home/u/a.txt".to_string(),
            is_dir: false,
        },
        EntryProbe::Named {
            name: "b.md".to_string(),
            path: "/home/u/b.md".to_string(),
            is_dir: false,
        },
    ];
    let r = read_dir("/home/u", DirListing::Entries { entries }).unwrap();
    assert_eq!(r.len(), 3);
    assert_eq!(r[0].name, "notes".to_string());
    assert_eq!(r[0].path, "/home/u/notes".to_string());
    assert!(r[0].is_dir);
    assert_eq!(r[1].name, "a.txt".to_string());
    assert!(!r[1].is_dir);
    assert_eq!(r[2].name, "b.md".to_string());
    assert_eq!(r[2].path, "/home/u/b.md".to_string());
    assert!(!r[2].is_dir);
}

#[test]
fn read_dir_skips_unreadable_and_nameless_entries() {
    let entries = vec![
        EntryProbe::Unreadable,
        EntryProbe::Named {
            name: "kept".to_string(),
            path: "/d/kept".to_string(),
            is_dir: false,
        },
        EntryProbe::Unnamed,
        EntryProbe::Unreadable,
    ];
    let r = read_dir("/d", DirListing::Entries { entries }).unwrap();
    assert_eq!(r.len(), 1);
    assert_eq!(r[0].name, "kept".to_string());
}

#[test]
fn read_dir_empty_directory_gives_empty_listing() {
    let r = read_dir(
        "/empty",
        DirListing::Entries {
            entries: Vec::new(),
        },
    )
    .unwrap();
    assert_eq!(r.len(), 0);
}

#[test]
fn create_dir_all_succeeds_both_times_when_host_reports_no_error() {
    assert_eq!(create_dir_all(None), Ok(()));
    assert_eq!(create_dir_all(None), Ok(()));
}

#[test]
fn create_dir_all_maps_host_error() {
    let r = create_dir_all(Some("read-only file system".to_string()));
    assert_eq!(
        r,
        Err("Failed to create directory: read-only file system".to_string())
    );
}

#[test]
fn download_dir_or_empty_keeps_path_or_gives_empty() {
    assert_eq!(
        download_dir_or_empty(Some("/home/u/Downloads".to_string())),
        "/home/u/Downloads".to_string()
    );
    assert_eq!(download_dir_or_empty(None), String::new());
}

#[test]
fn download_dir_or_empty_matches_platform_answer() {
    let probe = dirs::download_dir().map(|p| p.to_string_lossy().to_string());
    let expected = probe.clone().unwrap_or_default();
    assert_eq!(download_dir_or_empty(probe), expected);
}
