//! Reading the version out of what `clang-tidy --version` prints.
//!
//! The output holds the version as the word `version`, a space, and three
//! runs of the digits `0` to `9` with a `.` between them, as in
//! `LLVM version 14.0.6`. The line that counts is the first one that holds
//! such a text, and in that line the last such text counts. Each of the
//! three numbers must fit into eight bits; one that does not is an error,
//! and is never cut down to fit.

use vstd::prelude::*;
use crate::text::{
    chars_of, decimal, decimal_text, digits_end, join5, number, read_number, run_end,
};

verus! {

/// The version of the executable.
#[derive(Clone, Copy, Debug, PartialEq, Eq, Structural)]
pub struct Version {
    /// The first number.
    pub major: u8,
    /// The second number.
    pub minor: u8,
    /// The third number.
    pub patch: u8,
}

/// Why a text holds no version.
#[derive(Clone, Copy, Debug, PartialEq, Eq, Structural)]
pub enum VersionError {
    /// The text nowhere holds `version`, a space and three numbers.
    NoMatch,
    /// The first number is above 255.
    InvalidMajor,
    /// The second number is above 255.
    InvalidMinor,
    /// The third number is above 255.
    InvalidPatch,
}

/// The word that leads a version, with the space that follows it.
pub open spec fn keyword() -> Seq<char> {
    seq!['v', 'e', 'r', 's', 'i', 'o', 'n', ' ']
}

/// Where the first number of a version at `k` starts.
pub open spec fn major_start(k: int) -> int {
    k + 8
}

/// Where the second number of a version at `k` starts.
pub open spec fn minor_start(s: Seq<char>, k: int) -> int {
    digits_end(s, major_start(k)) + 1
}

/// Where the third number of a version at `k` starts.
pub open spec fn patch_start(s: Seq<char>, k: int) -> int {
    digits_end(s, minor_start(s, k)) + 1
}

/// Whether a version stands at index `k` of `s`.
pub open spec fn occurs_at(s: Seq<char>, k: int) -> bool {
    &&& 0 <= k
    &&& k + 8 <= s.len()
    &&& s.subrange(k, k + 8) == keyword()
    &&& major_start(k) < digits_end(s, major_start(k)) < s.len()
    &&& s[digits_end(s, major_start(k))] == '.'
    &&& minor_start(s, k) < digits_end(s, minor_start(s, k)) < s.len()
    &&& s[digits_end(s, minor_start(s, k))] == '.'
    &&& patch_start(s, k) < digits_end(s, patch_start(s, k))
}

/// Whether no line ends between `i` and `j`.
pub open spec fn same_line(s: Seq<char>, i: int, j: int) -> bool {
    forall|m: int| i <= m < j && 0 <= m < s.len() ==> s[m] != '\n'
}

/// Whether the version at `k` is the one that counts: every version before
/// it stands in the same line, and every version after it in a later line.
pub open spec fn counts_at(s: Seq<char>, k: int) -> bool {
    &&& occurs_at(s, k)
    &&& forall|j: int| 0 <= j < k && occurs_at(s, j) ==> same_line(s, j, k)
    &&& forall|j: int| k < j && occurs_at(s, j) ==> !same_line(s, k, j)
}

/// The index of the version that counts.
pub open spec fn counting(s: Seq<char>) -> Option<int> {
    if exists|k: int| counts_at(s, k) {
        Some(choose|k: int| counts_at(s, k))
    } else {
        None
    }
}

/// The version whose text stands at `k`, if its numbers fit.
pub open spec fn version_at(s: Seq<char>, k: int) -> Result<Version, VersionError> {
    let major = number(s.subrange(major_start(k), digits_end(s, major_start(k))));
    let minor = number(s.subrange(minor_start(s, k), digits_end(s, minor_start(s, k))));
    let patch = number(s.subrange(patch_start(s, k), digits_end(s, patch_start(s, k))));
    if major > 255 {
        Err(VersionError::InvalidMajor)
    } else if minor > 255 {
        Err(VersionError::InvalidMinor)
    } else if patch > 255 {
        Err(VersionError::InvalidPatch)
    } else {
        Ok(Version { major: major as u8, minor: minor as u8, patch: patch as u8 })
    }
}

/// The version that `s` holds.
pub open spec fn spec_parse(s: Seq<char>) -> Result<Version, VersionError> {
    match counting(s) {
        None => Err(VersionError::NoMatch),
        Some(k) => version_at(s, k),
    }
}

/// At most one version counts.
pub proof fn counting_is_unique(s: Seq<char>, a: int, b: int)
    requires
        counts_at(s, a),
        counts_at(s, b),
    ensures
        a == b,
{
    if a < b {
        assert(same_line(s, a, b));
        assert(!same_line(s, a, b));
    } else if b < a {
        assert(same_line(s, b, a));
        assert(!same_line(s, b, a));
    }
}

/// A text holds a version exactly if one of its versions counts.
pub proof fn counting_exists(s: Seq<char>)
    ensures
        counting(s) is Some <==> exists|k: int| occurs_at(s, k),
        counting(s) matches Some(k) ==> counts_at(s, k),
{
    if exists|k: int| occurs_at(s, k) {
        let first = first_occurrence(s, 0);
        let last = last_in_line(s, first, first, first + 1);
        assert(counts_at(s, last)) by {
            assert forall|j: int| 0 <= j < last && occurs_at(s, j) implies same_line(s, j, last) by {
                assert(j >= first);
            }
        }
    }
}

/// In a text that holds one version only, that version counts.
pub proof fn single_version_counts(s: Seq<char>, k: int)
    requires
        occurs_at(s, k),
        forall|j: int| occurs_at(s, j) ==> j == k,
    ensures
        spec_parse(s) == version_at(s, k),
{
    assert(counts_at(s, k));
    counting_is_unique(s, k, counting(s)->0);
}

/// The least index from `from` on at which a version stands.
proof fn first_occurrence(s: Seq<char>, from: int) -> (k: int)
    requires
        0 <= from,
        exists|j: int| occurs_at(s, j),
        forall|j: int| 0 <= j < from ==> !occurs_at(s, j),
    ensures
        occurs_at(s, k),
        forall|j: int| 0 <= j < k ==> !occurs_at(s, j),
    decreases s.len() - from,
{
    if occurs_at(s, from) {
        from
    } else {
        let w = choose|j: int| occurs_at(s, j);
        assert(w > from);
        first_occurrence(s, from + 1)
    }
}

/// The last version in the line of `first`, searched from `at` on with
/// `best` the last one seen.
proof fn last_in_line(s: Seq<char>, first: int, best: int, at: int) -> (k: int)
    requires
        0 <= first <= best < at,
        occurs_at(s, first),
        occurs_at(s, best),
        same_line(s, first, at),
        forall|j: int| best < j < at ==> !occurs_at(s, j),
    ensures
        first <= k,
        occurs_at(s, k),
        same_line(s, first, k),
        forall|j: int| k < j && occurs_at(s, j) ==> !same_line(s, k, j),
    decreases s.len() - at,
{
    if at >= s.len() {
        best
    } else if s[at] == '\n' {
        assert forall|j: int| best < j && occurs_at(s, j) implies !same_line(s, best, j) by {
            assert(j != at) by {
                assert(s.subrange(j, j + 8)[0] == 'v');
            }
        }
        best
    } else if occurs_at(s, at) {
        last_in_line(s, first, at, at + 1)
    } else {
        last_in_line(s, first, best, at + 1)
    }
}

/// Whether the word that leads a version stands at `k`.
fn keyword_at(s: &Vec<char>, k: usize) -> (r: bool)
    requires
        k <= s.len(),
    ensures
        r == (k + 8 <= s.len() && s@.subrange(k as int, k + 8) == keyword()),
{
    if s.len() - k < 8 {
        return false;
    }
    let r = s[k] == 'v' && s[k + 1] == 'e' && s[k + 2] == 'r' && s[k + 3] == 's' && s[k + 4] == 'i'
        && s[k + 5] == 'o' && s[k + 6] == 'n' && s[k + 7] == ' ';
    proof {
        let part = s@.subrange(k as int, k + 8);
        if r {
            assert(part =~= keyword());
        } else {
            assert(part[0] == s@[k as int]);
            assert(part[1] == s@[k + 1]);
            assert(part[2] == s@[k + 2]);
            assert(part[3] == s@[k + 3]);
            assert(part[4] == s@[k + 4]);
            assert(part[5] == s@[k + 5]);
            assert(part[6] == s@[k + 6]);
            assert(part[7] == s@[k + 7]);
        }
    }
    r
}

/// Whether a version stands at `k`.
fn version_starts_at(s: &Vec<char>, k: usize) -> (r: bool)
    requires
        k <= s.len(),
    ensures
        r == occurs_at(s@, k as int),
{
    if !keyword_at(s, k) {
        return false;
    }
    let major_end = run_end(s, k + 8);
    if major_end == k + 8 || major_end >= s.len() || s[major_end] != '.' {
        return false;
    }
    let minor_end = run_end(s, major_end + 1);
    if minor_end == major_end + 1 || minor_end >= s.len() || s[minor_end] != '.' {
        return false;
    }
    let patch_end = run_end(s, minor_end + 1);
    patch_end != minor_end + 1
}

/// Reads the version whose text stands at `k`.
fn read_version_at(s: &Vec<char>, k: usize) -> (r: Result<Version, VersionError>)
    requires
        occurs_at(s@, k as int),
    ensures
        r == version_at(s@, k as int),
{
    let len = s.len();
    assert(k + 8 <= len);
    let major_end = run_end(s, k + 8);
    let minor_end = run_end(s, major_end + 1);
    let patch_end = run_end(s, minor_end + 1);
    let major = match read_number(s, k + 8, major_end) {
        Some(n) => n,
        None => {
            return Err(VersionError::InvalidMajor);
        },
    };
    let minor = match read_number(s, major_end + 1, minor_end) {
        Some(n) => n,
        None => {
            return Err(VersionError::InvalidMinor);
        },
    };
    let patch = match read_number(s, minor_end + 1, patch_end) {
        Some(n) => n,
        None => {
            return Err(VersionError::InvalidPatch);
        },
    };
    Ok(Version { major, minor, patch })
}

impl Version {
    /// The version as text: its three numbers with a `.` between them.
    pub open spec fn text(self) -> Seq<char> {
        decimal(self.major as nat) + "."@ + decimal(self.minor as nat) + "."@ + decimal(
            self.patch as nat,
        )
    }

    /// Reads the version out of the characters `s`.
    pub fn parse(s: &Vec<char>) -> (r: Result<Version, VersionError>)
        ensures
            r == spec_parse(s@),
    {
        let mut best: Option<usize> = None;
        let mut k: usize = 0;
        while k < s.len()
            invariant_except_break
                k <= s.len(),
            invariant
                match best {
                    None => forall|j: int| 0 <= j < k ==> !occurs_at(s@, j),
                    Some(b) => {
                        &&& b < k <= s.len()
                        &&& occurs_at(s@, b as int)
                        &&& same_line(s@, b as int, k as int)
                        &&& forall|j: int|
                            0 <= j < k && occurs_at(s@, j) ==> j <= b && same_line(
                                s@,
                                j,
                                b as int,
                            )
                    },
                },
            ensures
                match best {
                    None => forall|j: int| 0 <= j < s.len() ==> !occurs_at(s@, j),
                    Some(b) => counts_at(s@, b as int),
                },
            decreases s.len() - k,
        {
            if s[k] == '\n' && best.is_some() {
                proof {
                    let b = best->0 as int;
                    assert forall|j: int| b < j && occurs_at(s@, j) implies !same_line(
                        s@,
                        b,
                        j,
                    ) by {
                        assert(j != k) by {
                            assert(s@.subrange(j, j + 8)[0] == 'v');
                        }
                    }
                }
                break ;
            }
            if version_starts_at(s, k) {
                best = Some(k);
            }
            k += 1;
        }
        proof {
            counting_exists(s@);
        }
        match best {
            None => Err(VersionError::NoMatch),
            Some(b) => {
                proof {
                    counting_is_unique(s@, b as int, counting(s@)->0);
                }
                read_version_at(s, b)
            },
        }
    }

    /// Reads the version out of `text`.
    pub fn from_str(text: &str) -> (r: Result<Version, VersionError>)
        ensures
            r == spec_parse(text@),
    {
        let chars = chars_of(text);
        Version::parse(&chars)
    }

    /// Writes the version as text.
    pub fn to_text(&self) -> (r: String)
        ensures
            r@ == self.text(),
    {
        let major = decimal_text(self.major as u64);
        let minor = decimal_text(self.minor as u64);
        let patch = decimal_text(self.patch as u64);
        join5(major.as_str(), ".", minor.as_str(), ".", patch.as_str())
    }
}

impl VersionError {
    /// The text shown for the error.
    pub open spec fn spec_message(self) -> Seq<char> {
        match self {
            VersionError::NoMatch => "Failed to match version"@,
            VersionError::InvalidMajor => "Invalid major version"@,
            VersionError::InvalidMinor => "Invalid minor version"@,
            VersionError::InvalidPatch => "Invalid patch level"@,
        }
    }

    /// The text shown for the error.
    pub fn message(&self) -> (r: &'static str)
        ensures
            r@ == self.spec_message(),
    {
        match self {
            VersionError::NoMatch => "Failed to match version",
            VersionError::InvalidMajor => "Invalid major version",
            VersionError::InvalidMinor => "Invalid minor version",
            VersionError::InvalidPatch => "Invalid patch level",
        }
    }
}

} // verus!
