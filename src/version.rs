//! The engine's version: parsing its version output and the major-version gate.
//!
//! The accepted form, after surrounding blanks are removed, is
//! `major.minor[.patch].status[...]`: runs of one to eighteen digits, and a
//! status that starts with a lower-case letter. A missing patch is zero.

use vstd::prelude::*;
use vstd::utf8::{decode_utf8, valid_utf8};
use crate::error::BuildError;
use crate::process::output_text;

verus! {

/// The only engine major version whose API shapes this pipeline understands.
pub const SUPPORTED_MAJOR: u64 = 4;

/// A parsed engine version.
pub struct EngineVersion {
    pub major: u64,
    pub minor: u64,
    pub patch: u64,
    /// The version text as the engine printed it, without surrounding blanks.
    pub full_string: String,
}

pub open spec fn is_blank(c: char) -> bool {
    c == ' ' || c == '\t' || c == '\n' || c == '\r'
}

pub open spec fn is_digit(c: char) -> bool {
    '0' <= c && c <= '9'
}

pub open spec fn is_status_start(c: char) -> bool {
    'a' <= c && c <= 'z'
}

/// Index of the first non-blank character at or after `i`.
pub open spec fn first_non_blank(s: Seq<char>, i: int) -> int
    decreases s.len() - i,
{
    if 0 <= i < s.len() && is_blank(s[i]) {
        first_non_blank(s, i + 1)
    } else {
        i
    }
}

/// End of the text before `j` once trailing blanks are dropped.
pub open spec fn end_non_blank(s: Seq<char>, j: int) -> int
    decreases j,
{
    if 0 < j <= s.len() && is_blank(s[j - 1]) {
        end_non_blank(s, j - 1)
    } else {
        j
    }
}

/// `s` without leading and trailing blanks.
pub open spec fn trimmed(s: Seq<char>) -> Seq<char> {
    let a = first_non_blank(s, 0);
    if a >= s.len() {
        Seq::empty()
    } else {
        s.subrange(a, end_non_blank(s, s.len() as int))
    }
}

/// Length of the run of digits that starts at `i`.
pub open spec fn digit_run(s: Seq<char>, i: int) -> nat
    decreases s.len() - i,
{
    if 0 <= i < s.len() && is_digit(s[i]) {
        1 + digit_run(s, i + 1)
    } else {
        0
    }
}

/// The number that a run of decimal digits writes.
pub open spec fn digits_value(s: Seq<char>) -> nat
    decreases s.len(),
{
    if s.len() == 0 {
        0
    } else {
        digits_value(s.drop_last()) * 10 + ((s.last() as u32) - ('0' as u32)) as nat
    }
}

pub open spec fn pow10(n: nat) -> nat
    decreases n,
{
    if n == 0 {
        1
    } else {
        10 * pow10((n - 1) as nat)
    }
}

pub open spec fn number_fits(s: Seq<char>, i: int) -> bool {
    1 <= digit_run(s, i) <= 18
}

pub open spec fn number_at(s: Seq<char>, i: int) -> nat {
    digits_value(s.subrange(i, i + digit_run(s, i)))
}

pub open spec fn dot_at(s: Seq<char>, i: int) -> bool {
    0 <= i < s.len() && s[i] == '.'
}

pub open spec fn status_at(s: Seq<char>, i: int) -> bool {
    0 <= i < s.len() && is_status_start(s[i])
}

/// Major, minor and patch of a trimmed version text, or `None` where it does
/// not have the accepted form.
pub open spec fn version_numbers(t: Seq<char>) -> Option<(nat, nat, nat)> {
    let b: int = digit_run(t, 0) as int + 1;
    let c: int = b + digit_run(t, b) + 1;
    if !(number_fits(t, 0) && dot_at(t, b - 1) && number_fits(t, b) && dot_at(t, c - 1)) {
        None
    } else if number_fits(t, c) {
        let d: int = c + digit_run(t, c);
        if dot_at(t, d) && status_at(t, d + 1) {
            Some((number_at(t, 0), number_at(t, b), number_at(t, c)))
        } else {
            None
        }
    } else if status_at(t, c) {
        Some((number_at(t, 0), number_at(t, b), 0))
    } else {
        None
    }
}

proof fn lemma_pow10_monotone(a: nat, b: nat)
    requires
        a <= b,
    ensures
        pow10(a) <= pow10(b),
    decreases b,
{
    if a < b {
        lemma_pow10_monotone(a, (b - 1) as nat);
    }
}

/// Bounds of `text` without its leading and trailing blanks.
fn trim_bounds(text: &str, n: usize) -> (r: (usize, usize))
    requires
        n == text@.len(),
    ensures
        r.0 <= r.1 <= n,
        text@.subrange(r.0 as int, r.1 as int) == trimmed(text@),
{
    let mut a: usize = 0;
    while a < n && is_blank_char(text.get_char(a))
        invariant
            n == text@.len(),
            a <= n,
            first_non_blank(text@, a as int) == first_non_blank(text@, 0),
        decreases n - a,
    {
        a = a + 1;
    }
    if a == n {
        assert(text@.subrange(a as int, a as int) =~= Seq::<char>::empty());
        return (a, a);
    }
    let mut e: usize = n;
    while e > a && is_blank_char(text.get_char(e - 1))
        invariant
            n == text@.len(),
            a < n,
            !is_blank(text@[a as int]),
            a < e <= n,
            end_non_blank(text@, e as int) == end_non_blank(text@, n as int),
        decreases e,
    {
        e = e - 1;
    }
    assert(first_non_blank(text@, a as int) == a);
    assert(end_non_blank(text@, e as int) == e);
    (a, e)
}

fn is_blank_char(c: char) -> (r: bool)
    ensures
        r == is_blank(c),
{
    c == ' ' || c == '\t' || c == '\n' || c == '\r'
}

/// Reads the run of digits at `start`, if it has one to eighteen digits:
/// its value and the index just after it.
fn read_number(t: &str, n: usize, start: usize) -> (r: Option<(u64, usize)>)
    requires
        n == t@.len(),
        start <= n,
    ensures
        r is Some <==> number_fits(t@, start as int),
        r matches Some((v, end)) ==> end == start + digit_run(t@, start as int) && v
            == number_at(t@, start as int),
{
    let mut i: usize = start;
    let mut value: u64 = 0;
    proof {
        reveal_with_fuel(pow10, 18);
        assert(pow10(17) == 100000000000000000nat);
        assert(t@.subrange(start as int, start as int) =~= Seq::<char>::empty());
    }
    while i < n && i - start < 18 && '0' <= t.get_char(i) && t.get_char(i) <= '9'
        invariant
            n == t@.len(),
            start <= i <= n,
            i - start <= 18,
            pow10(17) == 100000000000000000nat,
            digit_run(t@, start as int) == (i - start) + digit_run(t@, i as int),
            value == digits_value(t@.subrange(start as int, i as int)),
            value < pow10((i - start) as nat),
        decreases n - i,
    {
        let c = t.get_char(i);
        let d = (c as u32 - '0' as u32) as u64;
        let k: Ghost<nat> = Ghost((i - start) as nat);
        proof {
            lemma_pow10_monotone(k@, 17);
            assert(pow10(k@) <= 100000000000000000nat);
            assert(value * 10 + d < 10 * pow10(k@)) by (nonlinear_arith)
                requires
                    value < pow10(k@),
                    d <= 9,
            ;
            let s1 = t@.subrange(start as int, i + 1);
            assert(s1.drop_last() =~= t@.subrange(start as int, i as int));
            assert(s1.last() == c);
        }
        value = value * 10 + d;
        i = i + 1;
    }
    if i == start {
        return None;
    }
    if i < n && i - start == 18 && '0' <= t.get_char(i) && t.get_char(i) <= '9' {
        assert(digit_run(t@, i as int) == 1 + digit_run(t@, i + 1));
        return None;
    }
    Some((value, i))
}

/// Parses the engine's version output.
pub fn parse_engine_version(text: &str) -> (r: Option<EngineVersion>)
    ensures
        version_numbers(trimmed(text@)) is None ==> r is None,
        version_numbers(trimmed(text@)) matches Some((a, b, c)) ==> (r matches Some(v) && v.major
            == a && v.minor == b && v.patch == c && v.full_string@ == trimmed(text@)),
{
    let n = text.unicode_len();
    let (lo, hi) = trim_bounds(text, n);
    let t = text.substring_char(lo, hi);
    let ghost ts = trimmed(text@);
    assert(t@ == ts);
    let m = hi - lo;
    let (major, b0) = match read_number(t, m, 0) {
        Some(x) => x,
        None => return None,
    };
    if !(b0 < m && t.get_char(b0) == '.') {
        return None;
    }
    let (minor, c0) = match read_number(t, m, b0 + 1) {
        Some(x) => x,
        None => return None,
    };
    if !(c0 < m && t.get_char(c0) == '.') {
        return None;
    }
    let s0 = c0 + 1;
    let patch: u64;
    let status: usize;
    match read_number(t, m, s0) {
        Some((p, d)) => {
            if !(d < m && t.get_char(d) == '.') {
                return None;
            }
            patch = p;
            status = d + 1;
        },
        None => {
            patch = 0;
            status = s0;
        },
    }
    if !(status < m && 'a' <= t.get_char(status) && t.get_char(status) <= 'z') {
        return None;
    }
    Some(EngineVersion { major, minor, patch, full_string: t.to_owned() })
}

/// Accepts a parsed version only where its major version is the supported one.
pub fn check_engine_version(v: EngineVersion) -> (r: Result<EngineVersion, BuildError>)
    ensures
        v.major == SUPPORTED_MAJOR ==> r == Ok::<EngineVersion, BuildError>(v),
        v.major != SUPPORTED_MAJOR ==> (r matches Err(
            BuildError::VersionIncompatible { version, major },
        ) && version@ == v.full_string@ && major == v.major),
{
    if v.major == SUPPORTED_MAJOR {
        Ok(v)
    } else {
        Err(BuildError::VersionIncompatible { version: v.full_string, major: v.major })
    }
}

/// What the version gate makes of the engine's version output: the version
/// text to record, or the reason the run stops. Where `lenient_parse` is set,
/// output that does not parse is recorded as it stands, without blanks;
/// otherwise it stops the run.
pub open spec fn version_gate_accepts(stdout: Seq<u8>, lenient_parse: bool) -> Option<Seq<char>> {
    if !valid_utf8(stdout) {
        None
    } else {
        let t = trimmed(decode_utf8(stdout));
        match version_numbers(t) {
            None => if lenient_parse {
                Some(t)
            } else {
                None
            },
            Some((a, _b, _c)) => if a == SUPPORTED_MAJOR {
                Some(t)
            } else {
                None
            },
        }
    }
}

/// The error the version gate reports for output it does not accept.
pub open spec fn version_error_ok(e: BuildError, stdout: Seq<u8>, lenient_parse: bool) -> bool {
    if !valid_utf8(stdout) {
        e matches BuildError::EncodingFailure { context } && context@ == "engine version query"@
    } else {
        let text = decode_utf8(stdout);
        match version_numbers(trimmed(text)) {
            None => e matches BuildError::VersionUnparsable { output } && output@ == text,
            Some((a, _b, _c)) => e matches BuildError::VersionIncompatible { version, major }
                && version@ == trimmed(text) && major == a,
        }
    }
}

/// Reads the engine's `--version` output and applies the major-version gate.
pub fn read_engine_version(stdout: Vec<u8>, lenient_parse: bool) -> (r: Result<String, BuildError>)
    ensures
        version_gate_accepts(stdout@, lenient_parse) matches Some(t) ==> (r matches Ok(s) && s@
            == t),
        version_gate_accepts(stdout@, lenient_parse) is None ==> r is Err,
        r matches Err(e) ==> version_error_ok(e, stdout@, lenient_parse),
{
    let text = match output_text(stdout, "engine version query") {
        Ok(t) => t,
        Err(e) => return Err(e),
    };
    match parse_engine_version(text.as_str()) {
        Some(v) => match check_engine_version(v) {
            Ok(v) => Ok(v.full_string),
            Err(e) => Err(e),
        },
        None => if lenient_parse {
            let n = text.unicode_len();
            let (lo, hi) = trim_bounds(text.as_str(), n);
            Ok(text.as_str().substring_char(lo, hi).to_owned())
        } else {
            Err(BuildError::VersionUnparsable { output: text })
        },
    }
}

/// Whether the engine version differs from the one last recorded; with no
/// record, it counts as changed.
pub fn has_version_changed(current: &String, last: Option<String>) -> (r: bool)
    ensures
        r == (last matches Some(l) ==> l@ != current@),
{
    match last {
        Some(l) => !(*current == l),
        None => true,
    }
}

} // verus!
