use ai_copilot::files::{
    admit_file, file_unreadable, metadata_unreadable, read_file, MAX_FILE_BYTES,
};

#[test]
fn files_up_to_a_million_bytes_are_admitted() {
    assert_eq!(MAX_FILE_BYTES, 1_000_000);
    assert_eq!(admit_file(true, 0), Ok(()));
    assert_eq!(admit_file(true, 1_000_000), Ok(()));
}

#[test]
fn larger_files_are_refused_with_their_size() {
    assert_eq!(
        admit_file(true, 1_000_001),
        Err(String::from("File too large (1000001 bytes). Limit is 1000000 bytes."))
    );
    assert_eq!(
        admit_file(true, u64::MAX),
        Err(String::from("File too large (18446744073709551615 bytes). Limit is 1000000 bytes."))
    );
}

#[test]
fn what_is_no_file_is_refused() {
    assert_eq!(admit_file(false, 10), Err(String::from("Path is not a file.")));
    assert_eq!(admit_file(false, 2_000_000), Err(String::from("Path is not a file.")));
}

#[test]
fn text_file_is_returned_with_its_size() {
    let response =
        read_file(String::from("/notes/grüße.txt"), 14, "Grüße, Welt!".as_bytes().to_vec())
            .unwrap();
    assert_eq!(response.path, "/notes/grüße.txt");
    assert_eq!(response.bytes, 14);
    assert_eq!(response.content, "Grüße, Welt!");
}

#[test]
fn empty_file_is_empty_text() {
    let response = read_file(String::from("empty"), 0, Vec::new()).unwrap();
    assert_eq!(response.content, "");
}

#[test]
fn bytes_that_are_no_utf8_are_refused() {
    assert_eq!(
        read_file(String::from("blob"), 3, vec![0xFF, 0xFE, 0x00]).err(),
        Some(String::from("File is not valid UTF-8 text."))
    );
    assert_eq!(
        read_file(String::from("cut"), 1, vec![0xC3]).err(),
        Some(String::from("File is not valid UTF-8 text."))
    );
}

#[test]
fn read_failures_are_worded() {
    assert_eq!(
        metadata_unreadable("No such file or directory (os error 2)"),
        "Unable to read file metadata: No such file or directory (os error 2)"
    );
    assert_eq!(file_unreadable("Permission denied"), "Unable to read file: Permission denied");
}
