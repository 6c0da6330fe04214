use std::io::{Cursor, Write};

use everinst::archive::{plan_extraction, remap_entry, ExtractError};

fn sample_archive() -> Vec<u8> {
    let mut writer = zip::ZipWriter::new(Cursor::new(Vec::new()));
    let options = zip::write::SimpleFileOptions::default();
    writer.start_file("wrap/MiniInstaller.exe", options).unwrap();
    writer.write_all(b"installer bytes").unwrap();
    writer.add_directory("wrap/lib", options).unwrap();
    writer.start_file("wrap/lib/core.dll", options).unwrap();
    writer.write_all(&[1u8, 2, 3, 250, 251, 252]).unwrap();
    writer.finish().unwrap().into_inner()
}

#[test]
fn sample_archive_plans_stripped_paths_and_identical_bytes() {
    let plan = plan_extraction(sample_archive()).unwrap();
    assert_eq!(plan.len(), 3);

    assert_eq!(plan[0].path, "MiniInstaller.exe");
    assert!(!plan[0].is_dir);
    assert_eq!(plan[0].data, b"installer bytes".to_vec());

    assert_eq!(plan[1].path, "lib/");
    assert!(plan[1].is_dir);

    assert_eq!(plan[2].path, "lib/core.dll");
    assert!(!plan[2].is_dir);
    assert_eq!(plan[2].data, vec![1u8, 2, 3, 250, 251, 252]);
}

#[test]
fn planning_twice_yields_identical_plans() {
    let data = sample_archive();
    let first = plan_extraction(data.clone()).unwrap();
    let second = plan_extraction(data).unwrap();
    assert_eq!(first.len(), second.len());
    for (a, b) in first.iter().zip(second.iter()) {
        assert_eq!(a.path, b.path);
        assert_eq!(a.is_dir, b.is_dir);
        assert_eq!(a.data, b.data);
    }
}

#[test]
fn buffer_that_is_no_archive_is_malformed() {
    let r = plan_extraction(b"definitely not a zip".to_vec());
    assert_eq!(r.unwrap_err(), ExtractError::MalformedArchive);
}

#[test]
fn entry_escaping_the_target_fails_the_whole_plan() {
    let mut writer = zip::ZipWriter::new(Cursor::new(Vec::new()));
    let options = zip::write::SimpleFileOptions::default();
    writer.start_file("wrap/ok.txt", options).unwrap();
    writer.write_all(b"fine").unwrap();
    writer.start_file("wrap/../../evil.txt", options).unwrap();
    writer.write_all(b"escape").unwrap();
    let data = writer.finish().unwrap().into_inner();

    let r = plan_extraction(data);
    assert_eq!(r.unwrap_err(), ExtractError::UnsafeEntryName);
}

#[test]
fn entry_name_shorter_than_the_wrapper_is_refused() {
    let mut writer = zip::ZipWriter::new(Cursor::new(Vec::new()));
    let options = zip::write::SimpleFileOptions::default();
    writer.start_file("abc", options).unwrap();
    writer.write_all(b"x").unwrap();
    let data = writer.finish().unwrap().into_inner();

    let r = plan_extraction(data);
    assert_eq!(r.unwrap_err(), ExtractError::UnsafeEntryName);
}

#[test]
fn remap_drops_the_wrapper_segment() {
    assert_eq!(
        remap_entry("main/Celeste.Mod.mm.dll"),
        Some(("Celeste.Mod.mm.dll".to_string(), false))
    );
    assert_eq!(remap_entry("main/lib/"), Some(("lib/".to_string(), true)));
    assert_eq!(remap_entry("main/"), Some(("".to_string(), true)));
}

#[test]
fn remap_refuses_escaping_and_bare_names() {
    assert_eq!(remap_entry("main"), None);
    assert_eq!(remap_entry("main/../x"), None);
    assert_eq!(remap_entry("main/a/../../x"), None);
    assert_eq!(remap_entry("main//etc/passwd"), None);
    assert_eq!(remap_entry("main/.."), None);
    assert_eq!(remap_entry("ab"), None);
}

#[test]
fn remap_refuses_windows_separators_and_drive_letters() {
    assert_eq!(remap_entry("main/..\\evil.exe"), None);
    assert_eq!(remap_entry("main/C:\\evil.exe"), None);
    assert_eq!(remap_entry("main/a\\b"), None);
    assert_eq!(remap_entry("main/C:"), None);
}

#[test]
fn entry_with_windows_separator_fails_the_whole_plan() {
    let mut writer = zip::ZipWriter::new(Cursor::new(Vec::new()));
    let options = zip::write::SimpleFileOptions::default();
    writer.start_file("wrap/..\\evil.exe", options).unwrap();
    writer.write_all(b"escape").unwrap();
    let data = writer.finish().unwrap().into_inner();

    let r = plan_extraction(data);
    assert_eq!(r.unwrap_err(), ExtractError::UnsafeEntryName);
}

#[test]
fn remap_keeps_inner_dots_that_are_no_traversal() {
    assert_eq!(
        remap_entry("main/a..b/x..txt"),
        Some(("a..b/x..txt".to_string(), false))
    );
    assert_eq!(
        remap_entry("main/..hidden"),
        Some(("..hidden".to_string(), false))
    );
}

#[test]
fn empty_archive_plans_nothing() {
    let writer = zip::ZipWriter::new(Cursor::new(Vec::new()));
    let data = writer.finish().unwrap().into_inner();
    let plan = plan_extraction(data).unwrap();
    assert_eq!(plan.len(), 0);
}
