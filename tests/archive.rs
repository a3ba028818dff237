use vmm_core::archive::{determine_root_dir, ArchiveInfo};

fn sample() -> ArchiveInfo {
    let mut info = ArchiveInfo::default();
    info.add_entry("pack/".into(), Some("pack".into()), true, None);
    info.add_entry("pack/a.ZIP".into(), Some("pack".into()), false, Some("ZIP".into()));
    info.add_entry("pack/b.zip".into(), Some("pack".into()), false, Some("zip".into()));
    info.add_entry("pack/readme".into(), Some("pack".into()), false, None);
    info.add_entry("pack/c.Esp".into(), Some("pack".into()), false, Some("Esp".into()));
    info
}

#[test]
fn archive_entries_are_summarized() {
    let info = sample();
    assert_eq!(info.total_files, 4);
    assert_eq!(info.files.len(), 4);
    assert_eq!(info.files[0], "pack/a.ZIP");
    assert_eq!(info.top_level_dirs, vec!["pack".to_string()]);
    assert_eq!(info.file_counts_by_extension.len(), 2);
}

#[test]
fn count_ext_ignores_ascii_case() {
    let info = sample();
    assert_eq!(info.count_ext("zip"), 2);
    assert_eq!(info.count_ext("ZIP"), 2);
    assert_eq!(info.count_ext("esp"), 1);
    assert_eq!(info.count_ext("dll"), 0);
    assert_eq!(ArchiveInfo::default().count_ext("zip"), 0);
}

#[test]
fn single_top_level_dir_needs_exactly_one() {
    let info = sample();
    assert_eq!(info.single_top_level_dir(), Some("pack".to_string()));
    let mut two = sample();
    two.add_entry("other/x.txt".into(), Some("other".into()), false, Some("txt".into()));
    assert_eq!(two.top_level_dirs.len(), 2);
    assert_eq!(two.single_top_level_dir(), None);
    assert_eq!(ArchiveInfo::default().single_top_level_dir(), None);
}

#[test]
fn root_dir_follows_existing_single_directory() {
    let mut info = ArchiveInfo::default();
    info.add_entry("tmp/x".into(), Some("tmp".into()), false, None);
    assert_eq!(determine_root_dir(&info, "/"), "/tmp");
}

#[test]
fn root_dir_falls_back_to_extraction_root() {
    let mut info = ArchiveInfo::default();
    info.add_entry("no_such_dir_7f3a/x".into(), Some("no_such_dir_7f3a".into()), false, None);
    assert_eq!(determine_root_dir(&info, "/"), "/");
    assert_eq!(determine_root_dir(&ArchiveInfo::default(), "/srv/x"), "/srv/x");
}
