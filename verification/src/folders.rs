//! The list of watched folders: how it is read from its encrypted form, one
//! path per line.

use crate::encryption::{
    blob_of, decrypt_file, decrypt_spec, kdf_input_fits, EncryptedFile, VaultError, HEADER_LEN,
};
use vstd::prelude::*;
use vstd::slice::{slice_subrange, slice_to_vec};
use vstd::string::StringSliceAdditionalSpecFns;
use vstd::utf8::{
    decode_utf8, is_char_boundary_iff_not_is_continuation_byte, pop_first_scalar, valid_utf8,
    valid_utf8_split,
};

verus! {

/// The byte that ends a line.
pub const LINE_FEED: u8 = 0x0A;

/// The byte that may precede the line feed, and then belongs to the line's end.
pub const CARRIAGE_RETURN: u8 = 0x0D;

/// Why the folder list could not be read.
#[derive(Clone, Copy, Debug, PartialEq, Eq, Structural)]
pub enum FolderListError {
    /// The stored form is too short to hold a salt and a nonce.
    Truncated,
    /// The blob does not open: the password is wrong or the data was altered.
    Decryption,
    /// The decrypted list is not text.
    NotUtf8,
    /// The password is too long for a key to be derived from it.
    PasswordTooLong,
}

impl FolderListError {
    /// The reason in words, as the log gives it.
    pub fn describe(&self) -> (message: String)
        ensures
            message@ == match *self {
                FolderListError::Truncated => "Folders file is too short."@,
                FolderListError::Decryption =>
                    "Failed to decrypt folders file. Incorrect password or corrupted data."@,
                FolderListError::NotUtf8 => "Folders file is not valid UTF-8."@,
                FolderListError::PasswordTooLong => "Password is too long."@,
            },
    {
        match self {
            FolderListError::Truncated => "Folders file is too short.".to_owned(),
            FolderListError::Decryption =>
                "Failed to decrypt folders file. Incorrect password or corrupted data.".to_owned(),
            FolderListError::NotUtf8 => "Folders file is not valid UTF-8.".to_owned(),
            FolderListError::PasswordTooLong => "Password is too long.".to_owned(),
        }
    }
}

/// The place of the first line feed in `s`, or the length of `s` where it
/// holds none.
pub open spec fn line_end(s: Seq<u8>) -> nat
    decreases s.len(),
{
    if s.len() == 0 || s[0] == LINE_FEED {
        0
    } else {
        1 + line_end(s.drop_first())
    }
}

/// A line without the carriage return that stood before its line feed.
pub open spec fn without_carriage_return(line: Seq<u8>) -> Seq<u8> {
    if line.len() > 0 && line.last() == CARRIAGE_RETURN {
        line.drop_last()
    } else {
        line
    }
}

/// The lines of `s`. A line ends with a line feed, or with a carriage return
/// and a line feed; neither belongs to the line. What follows the last line
/// feed is a line too, unless it is empty, and is kept as it stands.
pub open spec fn lines_of(s: Seq<u8>) -> Seq<Seq<u8>>
    decreases s.len(),
{
    if s.len() == 0 {
        Seq::empty()
    } else if line_end(s) >= s.len() {
        seq![s]
    } else {
        seq![without_carriage_return(s.take(line_end(s) as int))] + lines_of(
            s.skip(line_end(s) as int + 1),
        )
    }
}

/// The folders that a decrypted list names, one for each line, or `None`
/// where the list is not valid UTF-8.
pub open spec fn folder_list_spec(plaintext: Seq<u8>) -> Option<Seq<Seq<char>>> {
    if valid_utf8(plaintext) {
        Some(lines_of(plaintext).map_values(|line: Seq<u8>| decode_utf8(line)))
    } else {
        None
    }
}

/// What reading the stored form of the list under `password` gives.
pub open spec fn read_folders_spec(stored: Seq<u8>, password: Seq<u8>) -> Result<
    Seq<Seq<char>>,
    FolderListError,
> {
    if stored.len() < HEADER_LEN {
        Err(FolderListError::Truncated)
    } else if !kdf_input_fits(password) {
        Err(FolderListError::PasswordTooLong)
    } else {
        match decrypt_spec(blob_of(stored), password) {
            None => Err(FolderListError::Decryption),
            Some(plaintext) => match folder_list_spec(plaintext) {
                None => Err(FolderListError::NotUtf8),
                Some(folders) => Ok(folders),
            },
        }
    }
}

/// `line_end` is the one place up to which `s` holds no line feed and at
/// which it holds one or ends.
pub proof fn lemma_line_end(s: Seq<u8>, k: nat)
    requires
        k <= s.len(),
        forall|j: int| 0 <= j < k ==> s[j] != LINE_FEED,
        k < s.len() ==> s[k as int] == LINE_FEED,
    ensures
        line_end(s) == k,
    decreases k,
{
    if k > 0 {
        let rest = s.drop_first();
        lemma_line_end(rest, (k - 1) as nat);
    }
}

/// `line_end` stays within `s` and stands on a line feed unless it is the end.
pub proof fn lemma_line_end_within(s: Seq<u8>)
    ensures
        line_end(s) <= s.len(),
        line_end(s) < s.len() ==> s[line_end(s) as int] == LINE_FEED,
    decreases s.len(),
{
    if s.len() != 0 && s[0] != LINE_FEED {
        lemma_line_end_within(s.drop_first());
    }
}

/// Before `line_end` there is no line feed.
pub proof fn lemma_line_end_first(s: Seq<u8>)
    ensures
        forall|j: int| 0 <= j < line_end(s) ==> s[j] != LINE_FEED,
    decreases s.len(),
{
    if s.len() != 0 && s[0] != LINE_FEED {
        let rest = s.drop_first();
        lemma_line_end_first(rest);
        lemma_line_end_within(rest);
        assert forall|j: int| 0 <= j < line_end(s) implies s[j] != LINE_FEED by {
            if j > 0 {
                assert(s[j] == rest[j - 1]);
            }
        }
    }
}

/// No line holds a line feed.
pub proof fn lemma_lines_hold_no_line_feed(s: Seq<u8>)
    ensures
        forall|i: int, j: int|
            0 <= i < lines_of(s).len() && 0 <= j < lines_of(s)[i].len() ==> lines_of(s)[i][j]
                != LINE_FEED,
    decreases s.len(),
{
    if s.len() != 0 {
        let end = line_end(s) as int;
        lemma_line_end_within(s);
        lemma_line_end_first(s);
        if end < s.len() {
            let rest = s.skip(end + 1);
            lemma_lines_hold_no_line_feed(rest);
            assert forall|i: int, j: int|
                0 <= i < lines_of(s).len() && 0 <= j < lines_of(s)[i].len() implies lines_of(
                s,
            )[i][j] != LINE_FEED by {
                if i > 0 {
                    assert(lines_of(s)[i] == lines_of(rest)[i - 1]);
                }
            }
        }
    }
}

/// The lines of valid UTF-8 are valid UTF-8: a line feed and a carriage
/// return are characters of their own and never part of another.
pub proof fn lemma_lines_valid(s: Seq<u8>)
    requires
        valid_utf8(s),
    ensures
        forall|i: int| 0 <= i < lines_of(s).len() ==> valid_utf8(#[trigger] lines_of(s)[i]),
    decreases s.len(),
{
    if s.len() != 0 {
        let end = line_end(s) as int;
        lemma_line_end_within(s);
        if end < s.len() {
            let head = s.subrange(0, end);
            let tail = s.subrange(end, s.len() as int);
            let rest = s.skip(end + 1);
            is_char_boundary_iff_not_is_continuation_byte(s, end);
            valid_utf8_split(s, end);
            assert(pop_first_scalar(tail) =~= rest);
            lemma_lines_valid(rest);
            if head.len() > 0 && head.last() == CARRIAGE_RETURN {
                let cut = head.len() - 1;
                is_char_boundary_iff_not_is_continuation_byte(head, cut);
                valid_utf8_split(head, cut);
            }
            assert forall|i: int| 0 <= i < lines_of(s).len() implies valid_utf8(
                #[trigger] lines_of(s)[i],
            ) by {
                if i > 0 {
                    assert(lines_of(s)[i] == lines_of(rest)[i - 1]);
                }
            }
        }
    }
}

/// Bytes have no deeper view than their sequence.
proof fn lemma_bytes_deep_view(bytes: Vec<u8>)
    ensures
        bytes.deep_view() == bytes@,
{
}

/// Calls `String::from_utf8`, which gives the text that the bytes encode where
/// they are valid UTF-8, and an error where they are not.
#[verifier::external_body]
fn string_from_utf8(bytes: Vec<u8>) -> (res: Option<String>)
    ensures
        res is Some <==> valid_utf8(bytes@),
        res matches Some(text) ==> text@ == decode_utf8(bytes@),
{
    String::from_utf8(bytes).ok()
}

/// Splits `bytes` into its lines.
pub fn split_lines(bytes: &[u8]) -> (lines: Vec<Vec<u8>>)
    ensures
        lines.deep_view() == lines_of(bytes@),
{
    let mut lines: Vec<Vec<u8>> = Vec::new();
    let mut start: usize = 0;
    let mut i: usize = 0;
    assert(bytes@.skip(0) =~= bytes@);
    while i < bytes.len()
        invariant
            start <= i <= bytes@.len(),
            forall|j: int| start <= j < i ==> bytes@[j] != LINE_FEED,
            lines_of(bytes@) == lines.deep_view() + lines_of(bytes@.skip(start as int)),
        decreases bytes@.len() - i,
    {
        if bytes[i] == LINE_FEED {
            let ghost rest = bytes@.skip(start as int);
            proof {
                lemma_line_end(rest, (i - start) as nat);
                assert(rest.take(i - start) =~= bytes@.subrange(start as int, i as int));
                assert(rest.skip(i - start + 1) =~= bytes@.skip(i + 1));
            }
            let end = if i > start && bytes[i - 1] == CARRIAGE_RETURN {
                i - 1
            } else {
                i
            };
            let line = slice_to_vec(slice_subrange(bytes, start, end));
            proof {
                assert(line@ =~= without_carriage_return(
                    bytes@.subrange(start as int, i as int),
                ));
                lemma_bytes_deep_view(line);
            }
            lines.push(line);
            start = i + 1;
        }
        i += 1;
    }
    if start < bytes.len() {
        let ghost rest = bytes@.skip(start as int);
        proof {
            lemma_line_end(rest, rest.len());
        }
        let line = slice_to_vec(slice_subrange(bytes, start, bytes.len()));
        proof {
            lemma_bytes_deep_view(line);
        }
        lines.push(line);
    }
    lines
}

/// Reads the folders that a decrypted list names: one path on each line.
///
/// A list that is not valid UTF-8 is refused as a whole.
pub fn parse_folder_list(plaintext: &[u8]) -> (res: Result<Vec<String>, FolderListError>)
    ensures
        match res {
            Ok(folders) => folder_list_spec(plaintext@) == Some(folders.deep_view()),
            Err(e) => e == FolderListError::NotUtf8 && folder_list_spec(plaintext@) is None,
        },
{
    if string_from_utf8(slice_to_vec(plaintext)).is_none() {
        return Err(FolderListError::NotUtf8);
    }
    let mut lines = split_lines(plaintext);
    let ghost wanted = lines_of(plaintext@);
    proof {
        lemma_lines_valid(plaintext@);
    }
    let mut folders: Vec<String> = Vec::new();
    let total = lines.len();
    assert forall|j: int| 0 <= j < total implies (#[trigger] lines@[j])@ == wanted[j] by {
        lemma_bytes_deep_view(lines@[j]);
    }
    let mut i: usize = 0;
    while i < total
        invariant
            i <= total,
            total == wanted.len(),
            lines@.len() == total,
            forall|j: int| i <= j < total ==> (#[trigger] lines@[j])@ == wanted[j],
            forall|j: int| 0 <= j < wanted.len() ==> valid_utf8(#[trigger] wanted[j]),
            folders@.len() == i,
            forall|j: int| 0 <= j < i ==> (#[trigger] folders@[j])@ == decode_utf8(wanted[j]),
        decreases total - i,
    {
        let mut line: Vec<u8> = Vec::new();
        std::mem::swap(&mut line, &mut lines[i]);
        let folder = string_from_utf8(line).unwrap();
        folders.push(folder);
        i += 1;
    }
    Ok(folders)
}

/// Reads and decrypts the canary folders list from its stored form.
pub fn read_canary_folders(stored: &[u8], password: &str) -> (res: Result<
    Vec<String>,
    FolderListError,
>)
    ensures
        match res {
            Ok(folders) => read_folders_spec(stored@, password.spec_bytes()) == Ok::<
                Seq<Seq<char>>,
                FolderListError,
            >(folders.deep_view()),
            Err(e) => read_folders_spec(stored@, password.spec_bytes()) == Err::<
                Seq<Seq<char>>,
                FolderListError,
            >(e),
        },
{
    let blob = match EncryptedFile::from_bytes(stored) {
        Some(blob) => blob,
        None => {
            return Err(FolderListError::Truncated);
        },
    };
    match decrypt_file(blob, password) {
        Ok(plaintext) => parse_folder_list(plaintext.as_slice()),
        Err(VaultError::PasswordTooLong) => Err(FolderListError::PasswordTooLong),
        Err(_) => Err(FolderListError::Decryption),
    }
}

} // verus!
