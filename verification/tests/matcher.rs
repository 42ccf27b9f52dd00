use folder_creator::matcher::{get_base_dir, scan_listing, DirEntry};

fn dir(name: &[u8]) -> DirEntry {
    DirEntry { name: name.to_vec(), is_dir: true }
}

fn file(name: &[u8]) -> DirEntry {
    DirEntry { name: name.to_vec(), is_dir: false }
}

#[test]
fn finds_a_case_variant_child() {
    let start = b"C:/".to_vec();
    let entries = vec![dir(b"Music"), dir(b"YOUTUBE"), dir(b"Work")];
    let target = b"youtube".to_vec();
    assert_eq!(get_base_dir(&start, &entries, &target), Some(b"C:/YOUTUBE".to_vec()));
}

#[test]
fn reports_not_found_without_a_matching_child() {
    let start = b"C:/".to_vec();
    let entries = vec![dir(b"Music"), dir(b"Work")];
    let target = b"youtube".to_vec();
    assert_eq!(get_base_dir(&start, &entries, &target), None);
}

#[test]
fn returns_the_first_match_in_listing_order() {
    let start = b"D:".to_vec();
    let entries = vec![dir(b"youtube"), dir(b"YouTube")];
    let target = b"YOUTUBE".to_vec();
    assert_eq!(get_base_dir(&start, &entries, &target), Some(b"D:/youtube".to_vec()));
}

#[test]
fn ignores_a_plain_file_of_the_target_name() {
    let start = b"C:/".to_vec();
    let entries = vec![file(b"Youtube"), dir(b"Other")];
    let target = b"Youtube".to_vec();
    assert_eq!(get_base_dir(&start, &entries, &target), None);
}

#[test]
fn never_looks_below_the_immediate_children() {
    // The listing holds only immediate children. A directory that merely
    // contains a matching folder one level further down is no match itself.
    let start = b"C:/".to_vec();
    let entries = vec![dir(b"projects")];
    let target = b"Youtube".to_vec();
    assert_eq!(get_base_dir(&start, &entries, &target), None);
}

#[test]
fn empty_listing_finds_nothing() {
    let start = b"C:/".to_vec();
    let entries: Vec<DirEntry> = Vec::new();
    let target = b"Youtube".to_vec();
    assert_eq!(get_base_dir(&start, &entries, &target), None);
}

#[test]
fn unreadable_listing_aborts_the_scan() {
    let start = b"C:/".to_vec();
    let target = b"Youtube".to_vec();
    assert_eq!(scan_listing(&start, None, &target), None);
}

#[test]
fn readable_listing_scans_normally() {
    let start = b"C:/".to_vec();
    let entries = vec![dir(b"youTube")];
    let target = b"Youtube".to_vec();
    assert_eq!(scan_listing(&start, Some(&entries), &target), Some(b"C:/youTube".to_vec()));
}
