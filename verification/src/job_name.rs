//! Validated workload names.  A name is at most 253 bytes long, holds
//! only alphanumeric characters plus `-`, `.` and `_`, and starts with
//! an ASCII alphanumeric character.

use vstd::prelude::*;
use crate::external::{char_alphanumeric, is_alphanumeric_char};

verus! {

/// The reasons a candidate name is rejected, in the order they are
/// checked.
#[derive(Clone, Copy, Debug, PartialEq, Eq, Structural)]
pub enum JobNameError {
    TooLong,
    InvalidCharacters,
    InvalidStartCharacter,
}

/// A validated workload name.
#[derive(Debug)]
pub struct JobName {
    name: String,
}

impl Clone for JobName {
    /// The copy carries the same text.
    fn clone(&self) -> (r: Self)
        ensures
            r@ == self@,
    {
        JobName { name: self.name.clone() }
    }
}

/// True for ASCII letters and digits.
pub open spec fn spec_ascii_alphanumeric(c: char) -> bool {
    ('a' <= c && c <= 'z') || ('A' <= c && c <= 'Z') || ('0' <= c && c <= '9')
}

/// True for the characters a name's body may hold.
pub open spec fn job_name_char_ok(c: char) -> bool {
    char_alphanumeric(c) || c == '-' || c == '.' || c == '_'
}

/// The UTF-8 byte length bound on a name.
pub open spec fn job_name_len_ok(s: Seq<char>) -> bool {
    (vstd::utf8::encode_utf8(s).len() as usize) <= 253
}

/// A name is valid when it is short enough, every character is allowed,
/// and a non-empty name starts with an ASCII alphanumeric character.
pub open spec fn job_name_valid(s: Seq<char>) -> bool {
    &&& job_name_len_ok(s)
    &&& forall|i: int| 0 <= i < s.len() ==> job_name_char_ok(#[trigger] s[i])
    &&& s.len() > 0 ==> spec_ascii_alphanumeric(s[0])
}

impl View for JobName {
    type V = Seq<char>;

    closed spec fn view(&self) -> Seq<char> {
        self.name@
    }
}

fn is_ascii_alphanumeric_char(c: char) -> (r: bool)
    ensures
        r == spec_ascii_alphanumeric(c),
{
    ('a' <= c && c <= 'z') || ('A' <= c && c <= 'Z') || ('0' <= c && c <= '9')
}

impl JobName {
    /// Validates `name`.  The checks run in order: length first, then
    /// the character set, then the start character.
    pub fn new(name: &str) -> (r: Result<JobName, JobNameError>)
        ensures
            (r is Ok) <==> job_name_valid(name@),
            r matches Ok(j) ==> j@ == name@,
            r == Err::<JobName, JobNameError>(JobNameError::TooLong) <==> !job_name_len_ok(
                name@,
            ),
            r == Err::<JobName, JobNameError>(JobNameError::InvalidCharacters) <==> (
            job_name_len_ok(name@) && exists|i: int|
                0 <= i < name@.len() && !job_name_char_ok(#[trigger] name@[i])),
            r == Err::<JobName, JobNameError>(JobNameError::InvalidStartCharacter) <==> (
            job_name_len_ok(name@) && (forall|i: int|
                0 <= i < name@.len() ==> job_name_char_ok(#[trigger] name@[i]))
                && name@.len() > 0 && !spec_ascii_alphanumeric(name@[0])),
    {
        if name.len() > 253 {
            return Err(JobNameError::TooLong);
        }
        let n = name.unicode_len();
        let mut i: usize = 0;
        while i < n
            invariant
                i <= n,
                n == name@.len(),
                job_name_len_ok(name@),
                forall|k: int| 0 <= k < i ==> job_name_char_ok(#[trigger] name@[k]),
            decreases n - i,
        {
            let c = name.get_char(i);
            if !(is_alphanumeric_char(c) || c == '-' || c == '.' || c == '_') {
                return Err(JobNameError::InvalidCharacters);
            }
            i = i + 1;
        }
        if n > 0 {
            if !is_ascii_alphanumeric_char(name.get_char(0)) {
                return Err(JobNameError::InvalidStartCharacter);
            }
        }
        Ok(JobName { name: name.to_owned() })
    }

    /// The name's text.
    pub fn as_str(&self) -> (r: &str)
        ensures
            r@ == self@,
    {
        self.name.as_str()
    }
}

} // verus!
