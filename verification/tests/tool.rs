use palangrotte::encryption::VaultError;
use palangrotte::text::{decimal_text, join3, join4, join5};
use palangrotte::tool::{
    confirm_password, decrypt_from_bytes, decryption_report, encrypt_to_bytes, encryption_report,
    parse_arguments, select_mode, ToolArguments, ToolMode,
};

fn args(words: &[&str]) -> Vec<String> {
    words.iter().map(|w| w.to_string()).collect()
}

fn arguments(command: &str) -> ToolArguments {
    ToolArguments {
        command: command.to_string(),
        input_path: "in.txt".to_string(),
        output_path: "out.enc".to_string(),
    }
}

#[test]
fn three_arguments_are_command_input_and_output() {
    let parsed = parse_arguments(&args(&["encrypter", "encrypt", "in.txt", "out.enc"])).unwrap();
    assert_eq!(parsed.command, "encrypt");
    assert_eq!(parsed.input_path, "in.txt");
    assert_eq!(parsed.output_path, "out.enc");
}

#[test]
fn any_other_number_of_arguments_is_answered_with_the_usage() {
    let usage = "Usage: encrypter <encrypt|decrypt> <input_file> <output_file>";
    assert_eq!(parse_arguments(&args(&["encrypter"])).unwrap_err(), usage);
    assert_eq!(parse_arguments(&args(&["encrypter", "encrypt", "in.txt"])).unwrap_err(), usage);
    assert_eq!(
        parse_arguments(&args(&["encrypter", "encrypt", "a", "b", "c"])).unwrap_err(),
        usage
    );
    assert_eq!(
        parse_arguments(&args(&[])).unwrap_err(),
        "Usage:  <encrypt|decrypt> <input_file> <output_file>"
    );
}

#[test]
fn command_selects_the_mode() {
    assert_eq!(select_mode(&arguments("encrypt"), true), Ok(ToolMode::Encrypt));
    assert_eq!(select_mode(&arguments("decrypt"), true), Ok(ToolMode::Decrypt));
}

#[test]
fn unknown_command_is_refused() {
    for command in ["", "Encrypt", "encrypt ", "seal"] {
        assert_eq!(
            select_mode(&arguments(command), true),
            Err("Invalid command. Use 'encrypt' or 'decrypt'.".to_string())
        );
    }
}

#[test]
fn missing_input_is_reported_before_the_command_is_looked_at() {
    let message = "Error: Input file 'in.txt' does not exist.".to_string();
    assert_eq!(select_mode(&arguments("encrypt"), false), Err(message.clone()));
    assert_eq!(select_mode(&arguments("seal"), false), Err(message));
}

#[test]
fn password_must_be_entered_the_same_way_twice() {
    assert_eq!(confirm_password(&"s3cret".to_string(), &"s3cret".to_string()), Ok(()));
    assert_eq!(
        confirm_password(&"s3cret".to_string(), &"s3cret ".to_string()),
        Err("Passwords do not match.".to_string())
    );
    assert_eq!(confirm_password(&String::new(), &String::new()), Ok(()));
}

#[test]
fn stored_bytes_decrypt_to_the_plaintext() {
    let stored = encrypt_to_bytes(b"/tmp/c1\n/tmp/c2\n", "mustuflux").unwrap();
    assert_eq!(stored.len(), 28 + 16 + 16);
    assert_eq!(decrypt_from_bytes(&stored, "mustuflux").unwrap(), b"/tmp/c1\n/tmp/c2\n".to_vec());
}

#[test]
fn stored_bytes_do_not_decrypt_under_another_password() {
    let stored = encrypt_to_bytes(b"/tmp/c1\n", "mustuflux").unwrap();
    assert_eq!(decrypt_from_bytes(&stored, "Mustuflux"), Err(VaultError::AuthenticationFailure));
}

#[test]
fn stored_bytes_without_a_header_are_truncated() {
    assert_eq!(decrypt_from_bytes(&[0u8; 27], "mustuflux"), Err(VaultError::Truncated));
    assert_eq!(
        decrypt_from_bytes(&[0u8; 28], "mustuflux"),
        Err(VaultError::AuthenticationFailure)
    );
}

#[test]
fn reports_name_the_output_or_the_failure() {
    assert_eq!(
        encryption_report(true, "out.enc"),
        ("File encrypted successfully to: out.enc".to_string(), false)
    );
    assert_eq!(
        encryption_report(false, "out.enc"),
        ("Error during file encryption.".to_string(), true)
    );
    assert_eq!(
        decryption_report(true, "out.txt"),
        ("File decrypted successfully to: out.txt".to_string(), false)
    );
    assert_eq!(
        decryption_report(false, "out.txt"),
        ("Error during file decryption. Incorrect password or corrupted data.".to_string(), true)
    );
}

#[test]
fn texts_are_joined_in_order() {
    assert_eq!(join3("a", "", "c"), "ac");
    assert_eq!(join4("a", "b", "c", "d"), "abcd");
    assert_eq!(
        join5("Created ", "3", " canary files in ", "/d", "."),
        "Created 3 canary files in /d."
    );
}

#[test]
fn decimal_text_has_no_leading_zeros() {
    assert_eq!(decimal_text(0), "0");
    assert_eq!(decimal_text(7), "7");
    assert_eq!(decimal_text(10), "10");
    assert_eq!(decimal_text(122880), "122880");
    assert_eq!(decimal_text(u64::MAX), "18446744073709551615");
}
