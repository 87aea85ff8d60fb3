//! The decisions of the audio download: where the file goes, which statuses
//! count as success, and the failure report. The network fetch and the file
//! writes themselves are I/O at the program's edge; a caller performs them
//! and feeds their outcomes through these functions.

use vstd::prelude::*;
use vstd::string::{StrSliceExecFns, StringExecFns};
use crate::strings::push_char;

verus! {

/// Why an audio transfer failed: the remote answered with a non-success
/// status, or reading the body or writing the file failed with the carried
/// I/O report.
pub enum TransferError {
    Status(u16),
    Io(String),
}

/// The character for one decimal digit.
pub open spec fn digit_char(d: int) -> char
    recommends
        0 <= d < 10,
{
    if d == 0 {
        '0'
    } else if d == 1 {
        '1'
    } else if d == 2 {
        '2'
    } else if d == 3 {
        '3'
    } else if d == 4 {
        '4'
    } else if d == 5 {
        '5'
    } else if d == 6 {
        '6'
    } else if d == 7 {
        '7'
    } else if d == 8 {
        '8'
    } else {
        '9'
    }
}

/// The decimal digits of a number, most significant first, no leading zero
/// except for the number 0 itself.
pub open spec fn dec_digits(n: int) -> Seq<char>
    recommends
        n >= 0,
    decreases n,
{
    if n < 10 {
        seq![digit_char(n)]
    } else {
        dec_digits(n / 10).push(digit_char(n % 10))
    }
}

fn digit_to_char(d: u16) -> (r: char)
    requires
        d < 10,
    ensures
        r == digit_char(d as int),
{
    match d {
        0 => '0',
        1 => '1',
        2 => '2',
        3 => '3',
        4 => '4',
        5 => '5',
        6 => '6',
        7 => '7',
        8 => '8',
        _ => '9',
    }
}

/// Appends the decimal rendering of `n` to `out`.
fn push_decimal(n: u16, out: &mut String)
    ensures
        final(out)@ == old(out)@ + dec_digits(n as int),
    decreases n,
{
    if n < 10 {
        push_char(out, digit_to_char(n));
        proof {
            assert(out@ =~= old(out)@ + dec_digits(n as int));
        }
    } else {
        push_decimal(n / 10, out);
        push_char(out, digit_to_char(n % 10));
        proof {
            assert(out@ =~= old(out)@ + dec_digits(n as int));
        }
    }
}

/// The name of the audio file written for a word.
pub open spec fn mp3_file_name(word: Seq<char>) -> Seq<char> {
    word + ".mp3"@
}

/// A directory path joined with a file name: one separator between them,
/// none added after an empty directory or one that already ends in a
/// separator.
pub open spec fn joined_path(dir: Seq<char>, name: Seq<char>) -> Seq<char> {
    if dir.len() == 0 {
        name
    } else if dir.last() == '/' {
        dir + name
    } else {
        dir + "/"@ + name
    }
}

/// The audio file name for a (normalized) word.
pub fn audio_file_name(word: &str) -> (r: String)
    ensures
        r@ == mp3_file_name(word@),
{
    let mut name = String::from_str(word);
    name.append(".mp3");
    name
}

/// The full local path the audio of a word is written to: the file name
/// under the destination directory.
pub fn audio_target_path(directory: &str, word: &str) -> (r: String)
    ensures
        r@ == joined_path(directory@, mp3_file_name(word@)),
{
    let n = directory.unicode_len();
    let mut path = String::from_str(directory);
    if n > 0 && directory.get_char(n - 1) != '/' {
        path.append("/");
    }
    path.append(word);
    path.append(".mp3");
    proof {
        if directory@.len() == 0 {
            assert(path@ =~= joined_path(directory@, mp3_file_name(word@)));
        } else {
            assert(path@ =~= joined_path(directory@, mp3_file_name(word@)));
        }
    }
    path
}

/// Whether an HTTP status code reports success.
pub open spec fn is_success_status(code: u16) -> bool {
    200 <= code < 300
}

/// Accept a success status; any other status is the hard failure that
/// carries the code.
pub fn check_status(code: u16) -> (r: Result<(), TransferError>)
    ensures
        r is Ok <==> is_success_status(code),
        r matches Err(e) ==> e == TransferError::Status(code),
{
    if 200 <= code && code < 300 {
        Ok(())
    } else {
        Err(TransferError::Status(code))
    }
}

impl TransferError {
    /// The failure report shown to the user; for a status failure it names
    /// the status code.
    pub fn message(&self) -> (r: String)
        ensures
            match *self {
                TransferError::Status(code) => r@ == "Failed to download file: status "@
                    + dec_digits(code as int),
                TransferError::Io(m) => r@ == "Failed to download file: "@ + m@,
            },
    {
        match self {
            TransferError::Status(code) => {
                let mut msg = String::from_str("Failed to download file: status ");
                push_decimal(*code, &mut msg);
                msg
            },
            TransferError::Io(m) => {
                let mut msg = String::from_str("Failed to download file: ");
                msg.append(m.as_str());
                msg
            },
        }
    }
}

} // verus!
