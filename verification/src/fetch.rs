//! What the download of an archive decides: the headers of the request, the
//! reading of the announced length, and how the size is reported.

use crate::error::{ErrorKind, UpdateError};
use crate::text::{chars_of, decimal, to_decimal};
use vstd::prelude::*;
use vstd::string::StringExecFns;

verus! {

/// The request header that carries the access token.
pub const AUTHORIZATION: &'static str = "Authorization";

/// The response header that announces the length of the archive.
pub const CONTENT_LENGTH: &'static str = "Content-Length";

/// The name of the downloaded archive inside the staging directory.
pub const ARCHIVE_NAME: &'static str = "repo.zip";

/// The message of the failure that a missing or unreadable length gives.
pub const LENGTH_MISSING: &'static str = "Content-Length is missing for zipfile";

/// The message of the failure that a rejected or unsent request gives.
pub const REQUEST_FAILED: &'static str = "Zip request failed";

/// `c` is a decimal digit.
pub open spec fn is_digit(c: char) -> bool {
    '0' <= c <= '9'
}

/// The value of the decimal digit `c`.
pub open spec fn digit_value(c: char) -> nat
    recommends
        is_digit(c),
{
    (c as int - '0' as int) as nat
}

/// Every character of `s` is a decimal digit.
pub open spec fn all_digits(s: Seq<char>) -> bool {
    forall|i: int| 0 <= i < s.len() ==> is_digit(#[trigger] s[i])
}

/// The number that the digits `s` write in base ten; 0 for no digits.
pub open spec fn digits_value(s: Seq<char>) -> nat
    decreases s.len(),
{
    if s.len() == 0 {
        0
    } else {
        digits_value(s.drop_last()) * 10 + digit_value(s.last())
    }
}

/// `s` without a leading plus sign.
pub open spec fn unsigned_part(s: Seq<char>) -> Seq<char> {
    if s.len() > 0 && s[0] == '+' {
        s.skip(1)
    } else {
        s
    }
}

/// The length that the header value `s` announces: an optional plus sign,
/// then one or more decimal digits and nothing else, whose value fits the
/// machine word. `None` for any other text.
pub open spec fn announced_length(s: Seq<char>) -> Option<usize> {
    let digits = unsigned_part(s);
    if digits.len() > 0 && all_digits(digits) && digits_value(digits) <= usize::MAX {
        Some(digits_value(digits) as usize)
    } else {
        None
    }
}

/// The value of digits is at least the value of any prefix of them.
proof fn lemma_digits_value_grows(s: Seq<char>, k: int)
    requires
        0 <= k <= s.len(),
    ensures
        digits_value(s.take(k)) <= digits_value(s),
    decreases s.len(),
{
    if k < s.len() {
        assert(s.drop_last().take(k) =~= s.take(k));
        lemma_digits_value_grows(s.drop_last(), k);
    } else {
        assert(s.take(k) =~= s);
    }
}

/// Reads a length as `announced_length` defines it.
pub fn parse_length(s: &str) -> (r: Option<usize>)
    ensures
        r == announced_length(s@),
{
    let chars = chars_of(s);
    let n = chars.len();
    let first: usize = if n > 0 && chars[0] == '+' {
        1
    } else {
        0
    };
    let ghost digits = unsigned_part(s@);
    if first == n {
        return None;
    }
    let mut value: usize = 0;
    let mut i: usize = first;
    assert(digits.take(0) =~= Seq::empty());
    while i < n
        invariant
            chars@ == s@,
            n == chars@.len(),
            first <= i <= n,
            digits == unsigned_part(s@),
            digits == chars@.skip(first as int),
            digits.len() == n - first,
            all_digits(digits.take(i - first)),
            value == digits_value(digits.take(i - first)),
        decreases n - i,
    {
        let c = chars[i];
        let ghost k = i - first;
        assert(digits[k] == c);
        if !(c >= '0' && c <= '9') {
            return None;
        }
        let d: usize = (c as u32 - '0' as u32) as usize;
        proof {
            assert(digits.take(k + 1).drop_last() =~= digits.take(k));
            assert(digits.take(k + 1).last() == c);
            assert(digits_value(digits.take(k + 1)) == value * 10 + d);
            lemma_digits_value_grows(digits, k + 1);
        }
        if value > (usize::MAX - d) / 10 {
            return None;
        }
        value = value * 10 + d;
        i = i + 1;
    }
    assert(digits.take(n - first) =~= digits);
    Some(value)
}

/// The announced length of an archive, from the value of its length header
/// as the response gave it or did not. A protocol error where the header is
/// absent or does not announce a length.
pub fn content_length(header: Option<&str>) -> (r: Result<usize, UpdateError>)
    ensures
        match header {
            Some(value) if announced_length(value@) is Some => r == Ok::<usize, UpdateError>(
                announced_length(value@)->0,
            ),
            _ => r is Err && r->Err_0.kind == ErrorKind::Protocol && r->Err_0.message@
                == LENGTH_MISSING@,
        },
{
    match header {
        None => Err(UpdateError::new(ErrorKind::Protocol, LENGTH_MISSING)),
        Some(value) => match parse_length(value) {
            Some(n) => Ok(n),
            None => Err(UpdateError::new(ErrorKind::Protocol, LENGTH_MISSING)),
        },
    }
}

/// A size as it is reported: in whole KiB below 1 MiB, in whole MiB from
/// there on.
#[derive(Clone, Copy, Debug, PartialEq, Eq, Structural)]
pub enum SizeClass {
    KiB(usize),
    MiB(usize),
}

/// The size class of `len` bytes.
pub open spec fn size_class_of(len: usize) -> SizeClass {
    if len < 1024 * 1024 {
        SizeClass::KiB(len / 1024)
    } else {
        SizeClass::MiB((len / 1024) / 1024)
    }
}

/// Classifies a length in bytes for reporting.
pub fn size_class(len: usize) -> (c: SizeClass)
    ensures
        c == size_class_of(len),
{
    if len < 1024 * 1024 {
        SizeClass::KiB(len / 1024)
    } else {
        SizeClass::MiB((len / 1024) / 1024)
    }
}

/// The line that reports the size of a download.
pub open spec fn size_report(len: usize) -> Seq<char> {
    match size_class_of(len) {
        SizeClass::KiB(n) => "Downloading zip file (size ~"@ + decimal(n as nat) + "kB)"@,
        SizeClass::MiB(n) => "Downloading zip file (size ~"@ + decimal(n as nat) + "MB)"@,
    }
}

/// Words the size of a download for the log.
pub fn size_message(len: usize) -> (s: String)
    ensures
        s@ == size_report(len),
{
    let mut s = "Downloading zip file (size ~".to_owned();
    match size_class(len) {
        SizeClass::KiB(n) => {
            s.append(to_decimal(n).as_str());
            s.append("kB)");
        },
        SizeClass::MiB(n) => {
            s.append(to_decimal(n).as_str());
            s.append("MB)");
        },
    }
    s
}

} // verus!
