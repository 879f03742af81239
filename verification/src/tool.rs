//! The command-line tool that encrypts and decrypts files: what its arguments
//! ask for, what it writes, and what it tells the user.

use crate::encryption::{
    blob_of, decrypt_file, decrypt_spec, encrypt_file, kdf_input_fits, lemma_stored_then_read,
    EncryptedFile, VaultError, HEADER_LEN, MAX_PLAINTEXT_LEN, TAG_LEN,
};
use crate::text::join3;
use vstd::prelude::*;
use vstd::string::StringSliceAdditionalSpecFns;

verus! {

/// What the tool is asked to do.
#[derive(Clone, Copy, Debug, PartialEq, Eq, Structural)]
pub enum ToolMode {
    Encrypt,
    Decrypt,
}

/// The tool's arguments after the program's name: the command, the file to
/// read and the file to write.
#[derive(Debug)]
pub struct ToolArguments {
    pub command: String,
    pub input_path: String,
    pub output_path: String,
}

/// How the tool is called, for a program of this name.
pub open spec fn usage_message(program: Seq<char>) -> Seq<char> {
    "Usage: "@ + program + " <encrypt|decrypt> <input_file> <output_file>"@
}

/// The message for an input file that does not exist.
pub open spec fn missing_input_message(input_path: Seq<char>) -> Seq<char> {
    "Error: Input file '"@ + input_path + "' does not exist."@
}

/// The mode that a command names.
pub open spec fn mode_of(command: Seq<char>) -> Option<ToolMode> {
    if command == "encrypt"@ {
        Some(ToolMode::Encrypt)
    } else if command == "decrypt"@ {
        Some(ToolMode::Decrypt)
    } else {
        None
    }
}

/// The name that the program was called by: the first argument, or nothing
/// where there is none.
pub open spec fn program_name(args: Seq<Seq<char>>) -> Seq<char> {
    if args.len() > 0 {
        args[0]
    } else {
        Seq::empty()
    }
}

/// Reads the tool's arguments, the program's name first. Any number of
/// arguments but three after the name is answered with the usage message.
pub fn parse_arguments(args: &Vec<String>) -> (res: Result<ToolArguments, String>)
    ensures
        res is Ok <==> args@.len() == 4,
        res matches Ok(arguments) ==> {
            &&& arguments.command@ == args@[1]@
            &&& arguments.input_path@ == args@[2]@
            &&& arguments.output_path@ == args@[3]@
        },
        res matches Err(message) ==> message@ == usage_message(program_name(args.deep_view())),
{
    if args.len() != 4 {
        let program = if args.len() > 0 {
            args[0].clone()
        } else {
            String::new()
        };
        return Err(
            join3("Usage: ", program.as_str(), " <encrypt|decrypt> <input_file> <output_file>"),
        );
    }
    Ok(
        ToolArguments {
            command: args[1].clone(),
            input_path: args[2].clone(),
            output_path: args[3].clone(),
        },
    )
}

/// Decides what the tool does, once it is known whether the input file
/// exists. A missing input is reported before an invalid command.
pub fn select_mode(arguments: &ToolArguments, input_exists: bool) -> (res: Result<ToolMode, String>)
    ensures
        res is Ok <==> input_exists && mode_of(arguments.command@) is Some,
        res matches Ok(mode) ==> mode_of(arguments.command@) == Some(mode),
        res matches Err(message) ==> message@ == if !input_exists {
            missing_input_message(arguments.input_path@)
        } else {
            "Invalid command. Use 'encrypt' or 'decrypt'."@
        },
{
    if !input_exists {
        return Err(
            join3("Error: Input file '", arguments.input_path.as_str(), "' does not exist."),
        );
    }
    if arguments.command == "encrypt".to_owned() {
        Ok(ToolMode::Encrypt)
    } else if arguments.command == "decrypt".to_owned() {
        Ok(ToolMode::Decrypt)
    } else {
        Err("Invalid command. Use 'encrypt' or 'decrypt'.".to_owned())
    }
}

/// Checks that the password was entered the same way twice.
pub fn confirm_password(password: &String, confirmation: &String) -> (res: Result<(), String>)
    ensures
        res is Ok <==> password@ == confirmation@,
        res matches Err(message) ==> message@ == "Passwords do not match."@,
{
    if *password == *confirmation {
        Ok(())
    } else {
        Err("Passwords do not match.".to_owned())
    }
}

/// Encrypts `plaintext` under `password` and gives the bytes to store: salt,
/// nonce and ciphertext with tag, one after the other.
pub fn encrypt_to_bytes(plaintext: &[u8], password: &str) -> (res: Result<Vec<u8>, VaultError>)
    ensures
        match res {
            Ok(stored) => {
                &&& kdf_input_fits(password.spec_bytes())
                &&& plaintext@.len() <= MAX_PLAINTEXT_LEN
                &&& stored@.len() == HEADER_LEN + plaintext@.len() + TAG_LEN
                &&& decrypt_spec(blob_of(stored@), password.spec_bytes()) == Some(plaintext@)
            },
            Err(VaultError::PasswordTooLong) => !kdf_input_fits(password.spec_bytes()),
            Err(VaultError::PlaintextTooLong) => {
                &&& kdf_input_fits(password.spec_bytes())
                &&& plaintext@.len() > MAX_PLAINTEXT_LEN
            },
            Err(e) => e == VaultError::RandomSource && kdf_input_fits(password.spec_bytes()),
        },
{
    match encrypt_file(plaintext, password) {
        Ok(blob) => {
            proof {
                lemma_stored_then_read(blob@);
            }
            Ok(blob.to_bytes())
        },
        Err(e) => Err(e),
    }
}

/// Decrypts what `encrypt_to_bytes` gave, under `password`.
pub fn decrypt_from_bytes(stored: &[u8], password: &str) -> (res: Result<Vec<u8>, VaultError>)
    ensures
        match res {
            Ok(plaintext) => {
                &&& stored@.len() >= HEADER_LEN
                &&& kdf_input_fits(password.spec_bytes())
                &&& decrypt_spec(blob_of(stored@), password.spec_bytes()) == Some(plaintext@)
            },
            Err(e) => if stored@.len() < HEADER_LEN {
                e == VaultError::Truncated
            } else if !kdf_input_fits(password.spec_bytes()) {
                e == VaultError::PasswordTooLong
            } else {
                &&& e == VaultError::AuthenticationFailure
                &&& decrypt_spec(blob_of(stored@), password.spec_bytes()) is None
            },
        },
{
    match EncryptedFile::from_bytes(stored) {
        Some(blob) => decrypt_file(blob, password),
        None => Err(VaultError::Truncated),
    }
}

/// What the tool tells the user after an encryption: where the file went, or
/// that it failed. The second part says whether the message is an error.
pub fn encryption_report(succeeded: bool, output_path: &str) -> (res: (String, bool))
    ensures
        res.1 == !succeeded,
        res.0@ == if succeeded {
            "File encrypted successfully to: "@ + output_path@
        } else {
            "Error during file encryption."@
        },
{
    if succeeded {
        let mut message = "File encrypted successfully to: ".to_owned();
        message.append(output_path);
        (message, false)
    } else {
        ("Error during file encryption.".to_owned(), true)
    }
}

/// What the tool tells the user after a decryption: where the file went, or
/// that it failed. The second part says whether the message is an error.
pub fn decryption_report(succeeded: bool, output_path: &str) -> (res: (String, bool))
    ensures
        res.1 == !succeeded,
        res.0@ == if succeeded {
            "File decrypted successfully to: "@ + output_path@
        } else {
            "Error during file decryption. Incorrect password or corrupted data."@
        },
{
    if succeeded {
        let mut message = "File decrypted successfully to: ".to_owned();
        message.append(output_path);
        (message, false)
    } else {
        ("Error during file decryption. Incorrect password or corrupted data.".to_owned(), true)
    }
}

} // verus!
