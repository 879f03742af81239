use palangrotte::encryption::{encrypt_file, EncryptedFile};
use palangrotte::folders::{
    parse_folder_list, read_canary_folders, split_lines, FolderListError,
};

fn lines(text: &[u8]) -> Vec<Vec<u8>> {
    split_lines(text)
}

fn owned(lines: &[&[u8]]) -> Vec<Vec<u8>> {
    lines.iter().map(|line| line.to_vec()).collect()
}

#[test]
fn no_bytes_no_lines() {
    assert_eq!(lines(b""), Vec::<Vec<u8>>::new());
}

#[test]
fn a_final_line_feed_ends_the_last_line() {
    assert_eq!(lines(b"/tmp/c1\n/tmp/c2\n"), owned(&[b"/tmp/c1", b"/tmp/c2"]));
    assert_eq!(lines(b"/tmp/c1\n/tmp/c2"), owned(&[b"/tmp/c1", b"/tmp/c2"]));
}

#[test]
fn empty_lines_are_lines() {
    assert_eq!(lines(b"\n"), owned(&[b""]));
    assert_eq!(lines(b"a\n\nb"), owned(&[b"a", b"", b"b"]));
    assert_eq!(lines(b"\n\n"), owned(&[b"", b""]));
}

#[test]
fn carriage_return_belongs_to_the_line_end_only_before_a_line_feed() {
    assert_eq!(lines(b"foo\nbar\n\r\nbaz\r"), owned(&[b"foo", b"bar", b"", b"baz\r"]));
    assert_eq!(lines(b"a\r\nb\r\n"), owned(&[b"a", b"b"]));
    assert_eq!(lines(b"a\rb\n"), owned(&[b"a\rb"]));
    assert_eq!(lines(b"a\r\r\n"), owned(&[b"a\r"]));
}

#[test]
fn lines_agree_with_the_standard_library() {
    let texts = [
        "", "\n", "\r", "\r\n", "a", "a\n", "a\r\n", "\na", "a\n\nb\r\n\r\nc", "x\r\ny\rz\n\r",
        "/srv/d\u{e9}coy\n/home/\u{4e16}\u{754c}\r\n",
    ];
    for text in texts {
        let expected: Vec<Vec<u8>> = text.lines().map(|line| line.as_bytes().to_vec()).collect();
        assert_eq!(lines(text.as_bytes()), expected);
    }
}

#[test]
fn folder_list_has_one_folder_per_line() {
    let folders = parse_folder_list(b"/tmp/c1\n/tmp/c2\n").unwrap();
    assert_eq!(folders, vec!["/tmp/c1".to_string(), "/tmp/c2".to_string()]);
}

#[test]
fn folder_list_keeps_text_that_is_not_ascii() {
    let text = "/srv/d\u{e9}coy\r\n/home/\u{4e16}\u{754c}";
    let folders = parse_folder_list(text.as_bytes()).unwrap();
    assert_eq!(folders, vec!["/srv/d\u{e9}coy".to_string(), "/home/\u{4e16}\u{754c}".to_string()]);
}

#[test]
fn empty_folder_list_names_no_folder() {
    assert_eq!(parse_folder_list(b"").unwrap(), Vec::<String>::new());
}

#[test]
fn folder_list_that_is_not_utf8_is_refused() {
    assert_eq!(parse_folder_list(b"/tmp/c1\n\xff\xfe\n"), Err(FolderListError::NotUtf8));
    assert_eq!(parse_folder_list(b"\xc3"), Err(FolderListError::NotUtf8));
    assert_eq!(parse_folder_list(b"\xed\xa0\x80"), Err(FolderListError::NotUtf8));
}

#[test]
fn stored_list_is_read_under_the_password() {
    let stored = encrypt_file(b"/tmp/c1\n/tmp/c2\n", "mustuflux").unwrap().to_bytes();
    let folders = read_canary_folders(&stored, "mustuflux").unwrap();
    assert_eq!(folders, vec!["/tmp/c1".to_string(), "/tmp/c2".to_string()]);
}

#[test]
fn stored_list_does_not_open_under_another_password() {
    let stored = encrypt_file(b"/tmp/c1\n", "mustuflux").unwrap().to_bytes();
    assert_eq!(read_canary_folders(&stored, "other"), Err(FolderListError::Decryption));
}

#[test]
fn altered_stored_list_does_not_open() {
    let mut stored = encrypt_file(b"/tmp/c1\n", "mustuflux").unwrap().to_bytes();
    let last = stored.len() - 1;
    stored[last] ^= 1;
    assert_eq!(read_canary_folders(&stored, "mustuflux"), Err(FolderListError::Decryption));
}

#[test]
fn stored_list_without_a_header_is_truncated() {
    assert_eq!(read_canary_folders(&[0u8; 27], "mustuflux"), Err(FolderListError::Truncated));
    assert_eq!(read_canary_folders(&[], "mustuflux"), Err(FolderListError::Truncated));
    assert_eq!(read_canary_folders(&[0u8; 28], "mustuflux"), Err(FolderListError::Decryption));
}

#[test]
fn stored_list_that_is_not_text_is_refused() {
    let stored = encrypt_file(b"\xff\xff", "mustuflux").unwrap().to_bytes();
    assert_eq!(read_canary_folders(&stored, "mustuflux"), Err(FolderListError::NotUtf8));
}

#[test]
fn stored_empty_list_names_no_folder() {
    let blob: EncryptedFile = encrypt_file(b"", "mustuflux").unwrap();
    assert_eq!(read_canary_folders(&blob.to_bytes(), "mustuflux").unwrap(), Vec::<String>::new());
}

#[test]
fn folder_list_errors_are_described() {
    assert_eq!(
        FolderListError::Decryption.describe(),
        "Failed to decrypt folders file. Incorrect password or corrupted data."
    );
    assert_eq!(FolderListError::Truncated.describe(), "Folders file is too short.");
    assert_eq!(FolderListError::NotUtf8.describe(), "Folders file is not valid UTF-8.");
    assert_eq!(FolderListError::PasswordTooLong.describe(), "Password is too long.");
}
