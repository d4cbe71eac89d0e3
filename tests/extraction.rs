use std::io::{Cursor, Write};

use nextui_updater::archive::{extract_archive, ArchiveEntry, ArchiveError};
use nextui_updater::client::Ratio;
use nextui_updater::extract::{
    full_update_takes, is_contained, plan_extraction, rom_folder_is_taken, EntryAction, EntryFilter,
};

fn file(name: &str) -> ArchiveEntry {
    ArchiveEntry { name: name.to_string(), is_dir: false, is_file: true }
}

fn dir(name: &str) -> ArchiveEntry {
    ArchiveEntry { name: name.to_string(), is_dir: true, is_file: false }
}

fn zip_of(files: &[(&str, &[u8])]) -> Vec<u8> {
    let mut w = zip::ZipWriter::new(Cursor::new(Vec::new()));
    let stored = zip::write::SimpleFileOptions::default()
        .compression_method(zip::CompressionMethod::Stored);
    for (name, data) in files {
        w.start_file(*name, stored).unwrap();
        w.write_all(data).unwrap();
    }
    w.finish().unwrap().into_inner()
}

fn path_of(a: &EntryAction) -> Option<String> {
    match a {
        EntryAction::Skip => None,
        EntryAction::CreateDir(p) | EntryAction::WriteFile(p) => Some(p.clone()),
    }
}

#[test]
fn quick_update_takes_only_allow_listed_entries() {
    let entries = vec![file("MinUI.zip"), file("trimui/a.bin"), file("Extras/skip.me")];
    let steps = plan_extraction(&entries, "/mnt/SDCARD/", &EntryFilter::quick_update());
    assert!(matches!(&steps[0].action, EntryAction::WriteFile(p) if p == "/mnt/SDCARD/MinUI.zip"));
    assert!(matches!(&steps[1].action, EntryAction::WriteFile(p) if p == "/mnt/SDCARD/trimui/a.bin"));
    assert!(matches!(steps[2].action, EntryAction::Skip));
}

#[test]
fn progress_is_reported_for_every_entry() {
    let entries = vec![file("MinUI.zip"), file("x"), file("trimui/b")];
    let steps = plan_extraction(&entries, "/r", &EntryFilter::quick_update());
    let ratios: Vec<Ratio> = steps.iter().map(|s| s.progress).collect();
    assert_eq!(
        ratios,
        vec![Ratio { done: 0, total: 2 }, Ratio { done: 1, total: 2 }, Ratio { done: 2, total: 2 }]
    );
    let one = plan_extraction(&vec![file("a")], "/r", &EntryFilter::All);
    assert_eq!(one[0].progress, Ratio { done: 1, total: 1 });
    assert!(plan_extraction(&vec![], "/r", &EntryFilter::All).is_empty());
}

#[test]
fn directories_are_created_and_paths_joined() {
    let entries = vec![dir("Tools/"), file("Tools/x.pak")];
    let steps = plan_extraction(&entries, "/mnt/SDCARD", &EntryFilter::All);
    assert!(matches!(&steps[0].action, EntryAction::CreateDir(p) if p == "/mnt/SDCARD/Tools/"));
    assert!(matches!(&steps[1].action, EntryAction::WriteFile(p) if p == "/mnt/SDCARD/Tools/x.pak"));
}

#[test]
fn traversal_entries_are_never_written() {
    let entries = vec![file("../evil"), file("a/../../evil"), file("/etc/passwd"), file(""), file("ok/..x")];
    let steps = plan_extraction(&entries, "/mnt/SDCARD/", &EntryFilter::All);
    for s in &steps[..4] {
        assert!(matches!(s.action, EntryAction::Skip));
    }
    assert_eq!(path_of(&steps[4].action), Some("/mnt/SDCARD/ok/..x".to_string()));
    for s in &steps {
        if let Some(p) = path_of(&s.action) {
            assert!(p.starts_with("/mnt/SDCARD/"));
        }
    }
}

#[test]
fn containment_check() {
    assert!(is_contained("a/b/c"));
    assert!(is_contained("a/..b"));
    assert!(!is_contained(".."));
    assert!(!is_contained("a/.."));
    assert!(!is_contained("/abs"));
    assert!(!is_contained(""));
}

#[test]
fn full_update_skips_rom_folder_of_installed_system() {
    let installed = vec!["Game Boy Advance (GBA)".to_string()];
    assert!(!full_update_takes("Roms/(GBA)/game.rom", &installed));
    assert!(full_update_takes("Roms/(GBA)/game.rom", &vec![]));
    assert!(full_update_takes("Roms/(GB)/game.rom", &installed));
    assert!(full_update_takes("Bios/(GBA)/bios.bin", &installed));
    assert!(full_update_takes("Roms/readme.txt", &installed));
    let steps = plan_extraction(
        &vec![file("Roms/(GBA)/game.rom"), file("Tools/x")],
        "/sd/",
        &EntryFilter::KeepRomFolders(installed),
    );
    assert!(matches!(steps[0].action, EntryAction::Skip));
    assert!(matches!(&steps[1].action, EntryAction::WriteFile(p) if p == "/sd/Tools/x"));
}

#[test]
fn rom_folder_test_on_given_tag() {
    let installed = vec!["Super Nintendo (SFC)".to_string()];
    assert!(rom_folder_is_taken("Roms/x", &Some("SFC".to_string()), &installed));
    assert!(!rom_folder_is_taken("Roms/x", &Some("SF".to_string()), &installed));
    assert!(!rom_folder_is_taken("Roms/x", &None, &installed));
    assert!(!rom_folder_is_taken("Other/x", &Some("SFC".to_string()), &installed));
}

#[test]
fn extract_archive_lists_entries_in_order() {
    let bytes = zip_of(&[("MinUI.zip", b"boot"), ("trimui/a.bin", b"abc"), ("../evil", b"x")]);
    let x = extract_archive(bytes, "/sd/", &EntryFilter::All).ok().unwrap();
    let names: Vec<&str> = x.entries.iter().map(|e| e.name.as_str()).collect();
    assert_eq!(names, vec!["MinUI.zip", "trimui/a.bin", "evil"]);
    assert!(x.entries.iter().all(|e| e.is_file && !e.is_dir));
    assert_eq!(x.contents, vec![b"boot".to_vec(), b"abc".to_vec(), b"x".to_vec()]);
    assert!(matches!(&x.steps[2].action, EntryAction::WriteFile(p) if p == "/sd/evil"));
}

#[test]
fn extract_archive_rejects_garbage() {
    assert!(matches!(extract_archive(vec![1, 2, 3, 4], "/sd/", &EntryFilter::All), Err(ArchiveError::Malformed)));
    assert!(matches!(extract_archive(vec![], "/sd/", &EntryFilter::All), Err(ArchiveError::Malformed)));
}

fn with_corrupt_extra() -> Vec<u8> {
    let mut bytes = zip_of(&[("MinUI.zip", b"boot"), ("Extras/skip.me", b"CORRUPTME"), ("trimui/a", b"t")]);
    let at = bytes.windows(9).position(|w| w == b"CORRUPTME").unwrap();
    bytes[at + 8] = b'X';
    bytes
}

#[test]
fn corrupt_entry_that_is_skipped_does_not_fail() {
    let x = extract_archive(with_corrupt_extra(), "/sd/", &EntryFilter::quick_update()).ok().unwrap();
    assert!(matches!(x.steps[1].action, EntryAction::Skip));
    assert!(x.contents[1].is_empty());
    assert_eq!(x.contents[0], b"boot".to_vec());
    assert_eq!(x.contents[2], b"t".to_vec());
}

#[test]
fn corrupt_entry_that_is_written_fails() {
    assert!(matches!(
        extract_archive(with_corrupt_extra(), "/sd/", &EntryFilter::All),
        Err(ArchiveError::Entry(1))
    ));
}
#[test]
fn quick_update_on_real_archive() {
    let bytes = zip_of(&[
        ("MinUI.zip", b"boot"),
        ("trimui/a.bin", b"abc"),
        ("Extras/skip.me", b"x"),
        ("../trimui/up.bin", b"y"),
    ]);
    let x = extract_archive(bytes, "/mnt/SDCARD/", &EntryFilter::quick_update()).ok().unwrap();
    let paths: Vec<Option<String>> = x.steps.iter().map(|s| path_of(&s.action)).collect();
    assert_eq!(
        paths,
        vec![
            Some("/mnt/SDCARD/MinUI.zip".to_string()),
            Some("/mnt/SDCARD/trimui/a.bin".to_string()),
            None,
            Some("/mnt/SDCARD/trimui/up.bin".to_string())
        ]
    );
}
