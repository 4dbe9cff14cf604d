use sigil::runtime::{has_script_extension, script_file_name};

#[test]
fn script_extension_filter_keeps_only_script_files() {
    assert!(has_script_extension(b"frame_counter.rn"));
    assert!(has_script_extension(b".rn"));
    assert!(!has_script_extension(b"frame_counter.rs"));
    assert!(!has_script_extension(b"frame_counter"));
    assert!(!has_script_extension(b"rn"));
    assert!(!has_script_extension(b""));
}

#[test]
fn script_identifier_resolves_to_file_name() {
    assert_eq!(script_file_name("frame_counter"), "frame_counter.rn");
    assert_eq!(script_file_name(""), ".rn");
}
