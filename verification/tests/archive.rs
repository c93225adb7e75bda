use sb3_builder::archive::{archive_outcome, entry_outcome, name_is_plain, ArchiveError};
use sb3_builder::{Costume, Project};
use std::io::Read;

/// The names and the contents of the entries of the archive, in order: each
/// name as the bytes that the archive holds.
fn entries_of(bytes: &[u8]) -> Vec<(Vec<u8>, Vec<u8>)> {
    let archive = rawzip::ZipArchive::from_slice(bytes).unwrap();
    let mut found = Vec::new();
    let mut entries = archive.entries();
    while let Some(entry) = entries.next_entry().unwrap() {
        let name = entry.file_path().as_bytes().to_vec();
        assert_eq!(entry.compression_method(), rawzip::CompressionMethod::DEFLATE);
        let local = archive.get_entry(entry.wayfinder()).unwrap();
        let inflater = flate2::bufread::DeflateDecoder::new(local.data());
        let mut content = Vec::new();
        local.verifying_reader(inflater).read_to_end(&mut content).unwrap();
        found.push((name, content));
    }
    found
}

fn archive_with_format(format: &str) -> Result<Vec<u8>, ArchiveError> {
    let mut project = Project::default();
    let mut stage = project.stage();
    stage.add_costume(Costume::new("c".to_owned(), format.to_owned(), b"abc".to_vec()));
    project.archive()
}

#[test]
fn costume_is_named_by_the_digest_of_its_content() {
    let mut project = Project::default();
    let mut stage = project.stage();
    stage.add_costume(Costume::new("backdrop".to_owned(), "svg".to_owned(), b"abc".to_vec()));
    stage.add_costume(Costume::new("blank".to_owned(), "png".to_owned(), Vec::new()));
    let json = project.encode();
    assert!(json.contains(
        "\"costumes\":[{\"name\":\"backdrop\",\"dataFormat\":\"svg\",\"assetId\":\"900150983cd24fb0d6963f7d28e17f72\",\"md5ext\":\"900150983cd24fb0d6963f7d28e17f72.svg\"},{\"name\":\"blank\",\"dataFormat\":\"png\",\"assetId\":\"d41d8cd98f00b204e9800998ecf8427e\",\"md5ext\":\"d41d8cd98f00b204e9800998ecf8427e.png\"}],\"sounds\":[]"
    ));
}

#[test]
fn costume_keeps_its_content_and_its_stored_name() {
    let costume = Costume::new("c".to_owned(), "png".to_owned(), vec![1, 2, 3]);
    assert_eq!(costume.content(), &[1, 2, 3]);
    assert_eq!(costume.md5ext(), "5289df737df57326fcdd22597afb1fac.png");
    let mut descriptor = String::new();
    costume.serialize(&mut descriptor);
    assert_eq!(
        descriptor,
        "{\"name\":\"c\",\"dataFormat\":\"png\",\"assetId\":\"5289df737df57326fcdd22597afb1fac\",\"md5ext\":\"5289df737df57326fcdd22597afb1fac.png\"}"
    );
}

#[test]
fn archive_of_an_empty_project_holds_project_json() {
    let project = Project::default();
    let bytes = project.archive().unwrap();
    assert_eq!(
        entries_of(&bytes),
        vec![(b"project.json".to_vec(), project.encode().into_bytes())]
    );
}

#[test]
fn archive_holds_the_images_and_then_project_json() {
    let mut project = Project::default();
    let mut stage = project.stage();
    stage.add_costume(Costume::new("backdrop".to_owned(), "svg".to_owned(), b"abc".to_vec()));
    let mut cat = project.add_sprite("Cat".to_owned());
    cat.add_costume(Costume::new("walk".to_owned(), "png".to_owned(), vec![7; 1000]));
    cat.add_costume(Costume::new("blank".to_owned(), "png".to_owned(), Vec::new()));
    let bytes = project.archive().unwrap();
    let entries = entries_of(&bytes);
    assert_eq!(entries.len(), 4);
    assert_eq!(entries[0], (b"900150983cd24fb0d6963f7d28e17f72.svg".to_vec(), b"abc".to_vec()));
    assert_eq!(entries[1].1, vec![7; 1000]);
    assert!(entries[1].0.ends_with(b".png"));
    assert_eq!(entries[2], (b"d41d8cd98f00b204e9800998ecf8427e.png".to_vec(), Vec::new()));
    assert_eq!(entries[3], (b"project.json".to_vec(), project.encode().into_bytes()));
    let json = project.encode();
    let stored = String::from_utf8(entries[1].0.clone()).unwrap();
    assert!(json.contains(&format!("\"md5ext\":\"{stored}\"")));
}

#[test]
fn archive_is_written_alike_each_time() {
    let mut project = Project::default();
    let mut stage = project.stage();
    stage.add_costume(Costume::new("backdrop".to_owned(), "svg".to_owned(), b"<svg/>".to_vec()));
    assert_eq!(project.archive().unwrap(), project.archive().unwrap());
}

#[test]
fn a_name_that_is_too_long_for_an_entry_fails_the_costume() {
    let mut project = Project::default();
    let mut stage = project.stage();
    stage.add_costume(Costume::new("long".to_owned(), "x".repeat(70_000), vec![1]));
    assert_eq!(project.archive(), Err(ArchiveError::Costume));
}

fn refusal() -> rawzip::Error {
    rawzip::Error::from(std::io::Error::other("refused"))
}

#[test]
fn a_failure_of_the_writer_becomes_the_failure_of_the_step() {
    assert_eq!(entry_outcome(Ok(()), ArchiveError::Costume), Ok(()));
    assert_eq!(entry_outcome(Ok(()), ArchiveError::ProjectJson), Ok(()));
    assert_eq!(entry_outcome(Err(refusal()), ArchiveError::Costume), Err(ArchiveError::Costume));
    assert_eq!(
        entry_outcome(Err(refusal()), ArchiveError::ProjectJson),
        Err(ArchiveError::ProjectJson)
    );
}

#[test]
fn a_failure_to_finish_is_the_failure_of_the_directory() {
    assert_eq!(archive_outcome(Ok(vec![1, 2, 3])), Ok(vec![1, 2, 3]));
    assert_eq!(archive_outcome(Ok(Vec::new())), Ok(Vec::new()));
    assert_eq!(archive_outcome(Err(refusal())), Err(ArchiveError::Directory));
}

#[test]
fn an_image_is_stored_under_the_very_name_of_its_descriptor() {
    for format in ["png", "tar.gz", "a b", "x/y", "..png", "p..g", "ä", "~"] {
        let bytes = archive_with_format(format).unwrap();
        let entries = entries_of(&bytes);
        let name = format!("900150983cd24fb0d6963f7d28e17f72.{format}");
        assert_eq!(entries[0].0, name.as_bytes(), "{format}");
        assert_eq!(entries[0].1, b"abc");
        let json = String::from_utf8(entries[1].1.clone()).unwrap();
        assert!(json.contains(&format!("\"md5ext\":\"{name}\"")), "{format}");
    }
}

#[test]
fn a_name_that_an_archive_would_change_fails_the_costume() {
    for format in ["a:b", "x\\y", "x/", "x//y", "x/./y", "x/../y", "x/.", "x/..", "/", ":"] {
        assert_eq!(archive_with_format(format), Err(ArchiveError::Costume), "{format}");
    }
}

#[test]
fn plain_names_are_told_from_names_that_an_archive_would_change() {
    for plain in [
        "project.json", "a", "a.b", "a/b", "a/b/c.d", ".a", "a.", "..a", "a..", "...", "a/...",
        "a/.b", "a/b.", "a b", "ä/ö", "~",
    ] {
        assert!(name_is_plain(plain), "{plain}");
    }
    for other in [
        "", "/", "/a", "a/", "a//b", ".", "..", "./a", "../a", "a/.", "a/..", "a/./b", "a/../b",
        "a:b", ":", "a\\b", "\\", "c:/a",
    ] {
        assert!(!name_is_plain(other), "{other}");
    }
    assert!(name_is_plain(&"x".repeat(65535)));
    assert!(!name_is_plain(&"x".repeat(65536)));
    assert!(name_is_plain(&"ä".repeat(32767)));
    assert!(!name_is_plain(&"ä".repeat(32768)));
}

#[test]
fn a_project_without_costumes_is_always_archived() {
    let mut project = Project::default();
    project.add_sprite("a:b/../c".to_owned());
    assert!(project.archive().is_ok());
}
