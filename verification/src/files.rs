//! Reading a small text file for the assistant: which files are admitted
//! and what is returned of them.

use vstd::prelude::*;
use vstd::string::*;
use vstd::utf8::{decode_utf8, valid_utf8};
use crate::text::{decimal, push_decimal, text_from_utf8};

verus! {

/// Size, in bytes, of the largest file that is read.
pub const MAX_FILE_BYTES: u64 = 1_000_000;

/// A file that was read: its path, its size in bytes and its text.
#[derive(Debug)]
pub struct ReadFileResponse {
    pub path: String,
    pub bytes: u64,
    pub content: String,
}

/// The sentence that refuses a file of `size` bytes as too large.
pub open spec fn too_large_message(size: u64) -> Seq<char> {
    "File too large ("@ + decimal(size as nat) + " bytes). Limit is "@ + decimal(
        MAX_FILE_BYTES as nat,
    ) + " bytes."@
}

/// What becomes of a request to read something that is or is not a regular
/// file and has `size` bytes: it is admitted, or refused with a sentence.
pub open spec fn admission(is_file: bool, size: u64) -> Result<(), Seq<char>> {
    if !is_file {
        Err("Path is not a file."@)
    } else if size > MAX_FILE_BYTES {
        Err(too_large_message(size))
    } else {
        Ok(())
    }
}

/// Decides from its metadata whether a path is read at all: it has to be a
/// regular file of at most `MAX_FILE_BYTES` bytes. Reads stay bounded.
pub fn admit_file(is_file: bool, size: u64) -> (out: Result<(), String>)
    ensures
        match out {
            Ok(_) => admission(is_file, size) is Ok,
            Err(message) => admission(is_file, size) == Err::<(), Seq<char>>(message@),
        },
{
    if !is_file {
        return Err(String::from_str("Path is not a file."));
    }
    if size > MAX_FILE_BYTES {
        let mut message = String::from_str("File too large (");
        push_decimal(&mut message, size as u128);
        message.append(" bytes). Limit is ");
        push_decimal(&mut message, MAX_FILE_BYTES as u128);
        message.append(" bytes.");
        return Err(message);
    }
    Ok(())
}

/// The sentence that reports that the metadata of a path could not be read.
pub fn metadata_unreadable(detail: &str) -> (out: String)
    ensures
        out@ == "Unable to read file metadata: "@ + detail@,
{
    let mut message = String::from_str("Unable to read file metadata: ");
    message.append(detail);
    message
}

/// The sentence that reports that a file could not be read.
pub fn file_unreadable(detail: &str) -> (out: String)
    ensures
        out@ == "Unable to read file: "@ + detail@,
{
    let mut message = String::from_str("Unable to read file: ");
    message.append(detail);
    message
}

/// The answer for a file at `path` whose metadata gave `size` bytes and
/// whose bytes are `contents`: the text that the bytes encode, or a refusal
/// where they are no UTF-8 text.
pub fn read_file(path: String, size: u64, contents: Vec<u8>) -> (out: Result<
    ReadFileResponse,
    String,
>)
    ensures
        match out {
            Ok(response) => {
                &&& valid_utf8(contents@)
                &&& response.path@ == path@
                &&& response.bytes == size
                &&& response.content@ == decode_utf8(contents@)
            },
            Err(message) => !valid_utf8(contents@) && message@ == "File is not valid UTF-8 text."@,
        },
{
    match text_from_utf8(contents) {
        Some(content) => Ok(ReadFileResponse { path, bytes: size, content }),
        None => Err(String::from_str("File is not valid UTF-8 text.")),
    }
}

} // verus!
