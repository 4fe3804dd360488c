use semantic_editor::update::{backup_file_name, digest_to_hex, md5sum, UpdateOutcome};

#[test]
fn md5_fingerprints() {
    assert_eq!(md5sum(b""), "d41d8cd98f00b204e9800998ecf8427e");
    assert_eq!(md5sum(b"abc"), "900150983cd24fb0d6963f7d28e17f72");
    assert_eq!(md5sum(b"The quick brown fox jumps over the lazy dog"), "9e107d9d372bb6826bd81d3542a419d6");
}

#[test]
fn digests_render_as_lower_hex() {
    assert_eq!(digest_to_hex(&[0x00, 0x0f, 0xa0, 0xff]), "000fa0ff");
    assert_eq!(digest_to_hex(&[]), "");
}

#[test]
fn backup_names() {
    assert_eq!(backup_file_name("0.1.0-abc123"), "se-0.1.0-abc123");
    assert_eq!(backup_file_name(""), "se-");
}

#[test]
fn status_outcomes() {
    assert_eq!(UpdateOutcome::from_status(200), UpdateOutcome::Install);
    assert_eq!(UpdateOutcome::from_status(204), UpdateOutcome::Install);
    assert_eq!(UpdateOutcome::from_status(299), UpdateOutcome::Install);
    assert_eq!(UpdateOutcome::from_status(304), UpdateOutcome::UpToDate);
    assert_eq!(UpdateOutcome::from_status(199), UpdateOutcome::Failed);
    assert_eq!(UpdateOutcome::from_status(300), UpdateOutcome::Failed);
    assert_eq!(UpdateOutcome::from_status(404), UpdateOutcome::Failed);
    assert_eq!(UpdateOutcome::from_status(500), UpdateOutcome::Failed);
}
