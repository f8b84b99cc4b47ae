//! Extractor dispatch and the single-component path stripping.

use blrs_cli::{
    ArchiveFormat, classify_extension, entry_destination, extraction_targets, progress_total,
};

#[test]
fn dispatch_recognises_supported_formats() {
    assert_eq!(classify_extension("xz"), ArchiveFormat::TarXz);
    assert_eq!(classify_extension("zip"), ArchiveFormat::Zip);
}

#[test]
fn dispatch_rejects_everything_else() {
    // A disk image is recognized but unimplemented: unsupported, a hard
    // stop for this artifact only, with nothing written.
    assert_eq!(classify_extension("dmg"), ArchiveFormat::Unsupported);
    assert_eq!(classify_extension("tar"), ArchiveFormat::Unsupported);
    assert_eq!(classify_extension("gz"), ArchiveFormat::Unsupported);
    assert_eq!(classify_extension(""), ArchiveFormat::Unsupported);
    assert_eq!(classify_extension("XZ"), ArchiveFormat::Unsupported);
}

#[test]
fn entry_loses_exactly_one_leading_component() {
    // An entry at root/sub/file.txt is written to destination/sub/file.txt.
    assert_eq!(
        entry_destination("destination", "root/sub/file.txt"),
        "destination/sub/file.txt"
    );
}

#[test]
fn entry_of_only_the_wrapper_maps_to_destination() {
    assert_eq!(entry_destination("destination", "root"), "destination");
    assert_eq!(entry_destination("destination", "root/"), "destination");
}

#[test]
fn deep_entries_keep_their_remainder() {
    assert_eq!(entry_destination("d", "a/b/c/e.txt"), "d/b/c/e.txt");
}

#[test]
fn whole_listing_is_mapped_in_order() {
    let entries = vec![
        String::from("root/a.txt"),
        String::from("root/sub/b.txt"),
        String::from("root"),
    ];
    let targets = extraction_targets("dest", &entries);
    assert_eq!(targets, vec!["dest/a.txt", "dest/sub/b.txt", "dest"]);
}

#[test]
fn progress_uses_declared_size_or_file_size() {
    assert_eq!(progress_total(Some(12345), 999), 12345);
    assert_eq!(progress_total(None, 999), 999);
}
