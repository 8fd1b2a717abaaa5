//! Translation of free-text diagnostic messages into zero-based line numbers.
//!
//! Messages from the external compiler and loader conventionally embed a
//! 1-based line marker, either `"(Line N)"` or `"[Ligne N]"`.  The locator
//! scans for the first such marker, parses the enclosed unsigned integer, and
//! returns it minus one (saturating at zero).  Any malformed or absent marker
//! degrades to line 0 rather than failing.

use vstd::prelude::*;

verus! {

/// The pattern `pat` occurs in `s` starting at index `i`.
pub open spec fn match_at(s: Seq<u8>, pat: Seq<u8>, i: int) -> bool {
    &&& 0 <= i
    &&& i + pat.len() <= s.len()
    &&& forall|j: int| 0 <= j < pat.len() ==> s[i + j] == pat[j]
}

/// Index of the first occurrence of `pat` in `s` at or after `from`,
/// if there is one.
pub open spec fn find_from(s: Seq<u8>, pat: Seq<u8>, from: int) -> Option<int>
    decreases s.len() - from,
{
    if from < 0 || from + pat.len() > s.len() {
        None
    } else if match_at(s, pat, from) {
        Some(from)
    } else {
        find_from(s, pat, from + 1)
    }
}

/// Whether `pat` occurs in `s` starting exactly at `i`.
fn is_match_at(s: &[u8], pat: &[u8], i: usize) -> (r: bool)
    requires
        i + pat@.len() <= s@.len(),
    ensures
        r == match_at(s@, pat@, i as int),
{
    let s_len = s.len();
    let mut j: usize = 0;
    while j < pat.len()
        invariant
            0 <= j <= pat@.len(),
            i + pat@.len() <= s@.len(),
            s@.len() == s_len,
            forall|k: int| 0 <= k < j ==> s@[i + k] == pat@[k],
        decreases pat@.len() - j,
    {
        if s[i + j] != pat[j] {
            assert(!match_at(s@, pat@, i as int)) by {
                assert(s@[i + j] != pat@[j as int]);
            }
            return false;
        }
        j += 1;
    }
    true
}

/// First occurrence of `pat` in `s` at or after `from`.
fn find_pattern(s: &[u8], pat: &[u8], from: usize) -> (r: Option<usize>)
    ensures
        match r {
            Some(i) => {
                &&& find_from(s@, pat@, from as int) == Some(i as int)
                &&& match_at(s@, pat@, i as int)
                &&& from <= i
            },
            None => find_from(s@, pat@, from as int) is None,
        },
{
    if pat.len() > s.len() || from > s.len() - pat.len() {
        assert(find_from(s@, pat@, from as int) is None);
        return None;
    }
    let mut i: usize = from;
    while i <= s.len() - pat.len()
        invariant
            from <= i,
            pat@.len() <= s@.len(),
            find_from(s@, pat@, from as int) == find_from(s@, pat@, i as int),
        decreases s@.len() - i,
    {
        if is_match_at(s, pat, i) {
            return Some(i);
        }
        i += 1;
    }
    assert(find_from(s@, pat@, i as int) is None);
    None
}

/// ASCII decimal digit.
pub open spec fn is_ascii_digit(b: u8) -> bool {
    48 <= b <= 57
}

pub open spec fn all_digits(s: Seq<u8>) -> bool {
    forall|i: int| 0 <= i < s.len() ==> is_ascii_digit(s[i])
}

/// Numeric value of a digit string, most significant digit first.
pub open spec fn digits_value(s: Seq<u8>) -> int
    decreases s.len(),
{
    if s.len() == 0 {
        0
    } else {
        digits_value(s.drop_last()) * 10 + (s.last() - 48)
    }
}

/// What parsing the text as an unsigned 32-bit integer yields: an optional
/// leading `+`, then at least one digit, and a value that fits in `u32`;
/// anything else fails.
pub open spec fn parsed_u32(s: Seq<u8>) -> Option<u32> {
    let digits = if s.len() > 0 && s[0] == 43 {
        s.drop_first()
    } else {
        s
    };
    if digits.len() > 0 && all_digits(digits) && digits_value(digits) <= u32::MAX {
        Some(digits_value(digits) as u32)
    } else {
        None
    }
}

proof fn lemma_digits_value_nonneg(s: Seq<u8>)
    requires
        all_digits(s),
    ensures
        digits_value(s) >= 0,
    decreases s.len(),
{
    if s.len() > 0 {
        lemma_digits_value_nonneg(s.drop_last());
    }
}

/// A digit string is worth at least as much as any of its prefixes.
proof fn lemma_digits_value_prefix(s: Seq<u8>, k: int)
    requires
        all_digits(s),
        0 <= k <= s.len(),
    ensures
        digits_value(s) >= digits_value(s.subrange(0, k)),
    decreases s.len() - k,
{
    if k == s.len() {
        assert(s.subrange(0, k) =~= s);
    } else {
        lemma_digits_value_nonneg(s.subrange(0, k));
        assert(s.subrange(0, k + 1).drop_last() =~= s.subrange(0, k));
        assert(s.subrange(0, k + 1).last() == s[k]);
        lemma_digits_value_prefix(s, k + 1);
    }
}

/// Parse the whole of `s` as an unsigned decimal number, exactly as
/// `parsed_u32` describes.
#[verifier::loop_isolation(false)]
fn parse_decimal(s: &[u8]) -> (r: Option<u32>)
    ensures
        r == parsed_u32(s@),
{
    let digits: &[u8] = if s.len() > 0 && s[0] == 43 {
        let d = vstd::slice::slice_subrange(s, 1, s.len());
        proof {
            assert(d@ =~= s@.drop_first());
        }
        d
    } else {
        s
    };
    if digits.len() == 0 {
        return None;
    }
    let ghost whole: Seq<u8> = digits@;
    let mut acc: u32 = 0;
    let mut i: usize = 0;
    while i < digits.len()
        invariant
            0 <= i <= digits@.len(),
            digits@ == whole,
            all_digits(whole.subrange(0, i as int)),
            acc == digits_value(whole.subrange(0, i as int)),
        decreases digits@.len() - i,
    {
        let b = digits[i];
        if b < 48 || b > 57 {
            assert(!all_digits(whole));
            return None;
        }
        let d: u32 = (b - 48) as u32;
        proof {
            assert(whole.subrange(0, i + 1).drop_last() =~= whole.subrange(0, i as int));
            assert(whole.subrange(0, i + 1).last() == whole[i as int]);
            assert(all_digits(whole.subrange(0, i + 1)));
        }
        if acc > (u32::MAX - d) / 10 {
            // The value read so far already exceeds u32::MAX, so the whole
            // string cannot parse, whatever follows.
            proof {
                assert(acc * 10 + d > u32::MAX) by (nonlinear_arith)
                    requires
                        acc > (u32::MAX - d) / 10,
                        d <= 9,
                ;
                if all_digits(whole) && digits_value(whole) <= u32::MAX {
                    lemma_digits_value_prefix(whole, i + 1);
                    assert(false);
                }
            }
            return None;
        }
        proof {
            assert(acc * 10 + d <= u32::MAX) by (nonlinear_arith)
                requires
                    acc <= (u32::MAX - d) / 10,
                    d <= 9,
            ;
        }
        acc = acc * 10 + d;
        i += 1;
    }
    proof {
        assert(whole.subrange(0, whole.len() as int) =~= whole);
    }
    Some(acc)
}

/// The marker `"(Line "` that the external compiler's messages embed.
pub open spec fn paren_marker() -> Seq<u8> {
    seq![40u8, 76u8, 105u8, 110u8, 101u8, 32u8]  // "(Line "
}

/// The marker `"[Ligne "` that the external loader's messages embed.
pub open spec fn bracket_marker() -> Seq<u8> {
    seq![91u8, 76u8, 105u8, 103u8, 110u8, 101u8, 32u8]  // "[Ligne "
}

/// Line number read at a marker found at `start`: the text up to the first
/// closing delimiter at or after `start` is parsed as a 1-based line number
/// and shifted to 0-based, saturating at 0; any failure yields 0.
pub open spec fn marker_line(msg: Seq<u8>, start: int, marker_len: int, close: u8) -> u32 {
    match find_from(msg, seq![close], start) {
        Some(end) => if start + marker_len <= end {
            match parsed_u32(msg.subrange(start + marker_len, end)) {
                Some(n) => if n == 0 {
                    0
                } else {
                    (n - 1) as u32
                },
                None => 0,
            }
        } else {
            0
        },
        None => 0,
    }
}

/// The zero-based line a diagnostic message points at: the first `"(Line N)"`
/// marker wins; failing that, the first `"[Ligne N]"` marker; failing both,
/// line 0.
pub open spec fn located_line(msg: Seq<u8>) -> u32 {
    match find_from(msg, paren_marker(), 0) {
        Some(start) => marker_line(msg, start, paren_marker().len() as int, 41u8),
        None => match find_from(msg, bracket_marker(), 0) {
            Some(start) => marker_line(msg, start, bracket_marker().len() as int, 93u8),
            None => 0,
        },
    }
}

/// Read the line number enclosed by a marker that starts at `start` and runs
/// to the closing delimiter `close`.
fn read_marker_line(msg: &[u8], start: usize, marker_len: usize, close: u8) -> (line: u32)
    requires
        start + marker_len <= msg@.len(),
    ensures
        line == marker_line(msg@, start as int, marker_len as int, close),
{
    // Naming the length brings the slice's bound into scope, so the index
    // arithmetic below is known to fit in usize.
    let msg_len = msg.len();
    assert(start + marker_len <= msg_len);
    let close_pat: Vec<u8> = vec![close];
    proof {
        assert(close_pat@ =~= seq![close]);
    }
    match find_pattern(msg, close_pat.as_slice(), start) {
        Some(end) => {
            if start + marker_len <= end {
                let num = vstd::slice::slice_subrange(msg, start + marker_len, end);
                match parse_decimal(num) {
                    Some(n) => if n == 0 {
                        0
                    } else {
                        n - 1
                    },
                    None => 0,
                }
            } else {
                0
            }
        },
        None => 0,
    }
}

/// Zero-based line number a free-text diagnostic message points at.
pub fn error_line(msg: &[u8]) -> (line: u32)
    ensures
        line == located_line(msg@),
{
    let paren_pat: Vec<u8> = vec![40u8, 76u8, 105u8, 110u8, 101u8, 32u8];  // "(Line "
    let bracket_pat: Vec<u8> = vec![91u8, 76u8, 105u8, 103u8, 110u8, 101u8, 32u8];  // "[Ligne "
    proof {
        assert(paren_pat@ =~= paren_marker());
        assert(bracket_pat@ =~= bracket_marker());
    }
    match find_pattern(msg, paren_pat.as_slice(), 0) {
        Some(start) => read_marker_line(msg, start, 6, 41u8),
        None => {
            match find_pattern(msg, bracket_pat.as_slice(), 0) {
                Some(start) => read_marker_line(msg, start, 7, 93u8),
                None => 0,
            }
        },
    }
}

} // verus!
