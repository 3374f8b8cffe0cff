//! Character-level string helpers shared by the URL, identifier and
//! formatting code: trimming, equality, and building strings a character
//! at a time.
use vstd::prelude::*;

verus! {

/// ASCII whitespace, the class removed from the ends of configuration
/// strings (server URL and access credential).
pub open spec fn is_ascii_ws(c: char) -> bool {
    c == ' ' || c == '\t' || c == '\n' || c == '\r'
}

/// `s` with its leading ASCII whitespace removed.
pub open spec fn spec_trim_start(s: Seq<char>) -> Seq<char>
    decreases s.len(),
{
    if s.len() > 0 && is_ascii_ws(s[0]) {
        spec_trim_start(s.drop_first())
    } else {
        s
    }
}

/// `s` with its trailing ASCII whitespace removed.
pub open spec fn spec_trim_end(s: Seq<char>) -> Seq<char>
    decreases s.len(),
{
    if s.len() > 0 && is_ascii_ws(s[s.len() - 1]) {
        spec_trim_end(s.drop_last())
    } else {
        s
    }
}

/// `s` with ASCII whitespace removed from both ends.
pub open spec fn spec_trim(s: Seq<char>) -> Seq<char> {
    spec_trim_end(spec_trim_start(s))
}

/// Relies on std's `String::push`: appends one character to the string.
#[verifier::external_body]
pub(crate) fn push_char(s: &mut String, c: char)
    ensures
        final(s)@ == old(s)@.push(c),
{
    s.push(c);
}

fn is_ws_char(c: char) -> (r: bool)
    ensures
        r == is_ascii_ws(c),
{
    c == ' ' || c == '\t' || c == '\n' || c == '\r'
}

/// Character-for-character string equality.
pub fn str_eq(a: &str, b: &str) -> (r: bool)
    ensures
        r == (a@ == b@),
{
    let n = a.unicode_len();
    let m = b.unicode_len();
    if n != m {
        return false;
    }
    let mut i: usize = 0;
    while i < n
        invariant
            n == a@.len() && n == b@.len(),
            i <= n,
            forall|k: int| 0 <= k < i ==> a@[k] == b@[k],
        decreases n - i,
    {
        if a.get_char(i) != b.get_char(i) {
            return false;
        }
        i = i + 1;
    }
    proof {
        assert(a@ =~= b@);
    }
    true
}

/// The index of the first character of `s` that is not ASCII whitespace
/// (or the length, if all are), such that dropping everything before it
/// is exactly `spec_trim_start`.
pub fn trim_start_index(s: &str) -> (i: usize)
    ensures
        i <= s@.len(),
        spec_trim_start(s@) == s@.subrange(i as int, s@.len() as int),
{
    let n = s.unicode_len();
    let mut i: usize = 0;
    proof {
        assert(s@.subrange(0, n as int) =~= s@);
    }
    while i < n && is_ws_char(s.get_char(i))
        invariant
            n == s@.len(),
            i <= n,
            spec_trim_start(s@) == spec_trim_start(s@.subrange(i as int, n as int)),
        decreases n - i,
    {
        proof {
            assert(s@.subrange(i as int, n as int).drop_first() =~= s@.subrange(
                i + 1 as int,
                n as int,
            ));
        }
        i = i + 1;
    }
    proof {
        let tail = s@.subrange(i as int, n as int);
        if i < n {
            assert(!is_ascii_ws(tail[0]));
        }
        assert(spec_trim_start(tail) == tail);
    }
    i
}

/// Given a window `lo..hi` of `s`, the least `j >= lo` such that the
/// window cut at `j` is the window with trailing ASCII whitespace removed.
pub fn trim_end_index(s: &str, lo: usize, hi: usize) -> (j: usize)
    requires
        lo <= hi <= s@.len(),
    ensures
        lo <= j <= hi,
        spec_trim_end(s@.subrange(lo as int, hi as int)) == s@.subrange(lo as int, j as int),
{
    let mut j: usize = hi;
    while j > lo && is_ws_char(s.get_char(j - 1))
        invariant
            lo <= j <= hi <= s@.len(),
            spec_trim_end(s@.subrange(lo as int, hi as int)) == spec_trim_end(
                s@.subrange(lo as int, j as int),
            ),
        decreases j,
    {
        proof {
            assert(s@.subrange(lo as int, j as int).drop_last() =~= s@.subrange(
                lo as int,
                j - 1 as int,
            ));
        }
        j = j - 1;
    }
    proof {
        let win = s@.subrange(lo as int, j as int);
        if j > lo {
            assert(!is_ascii_ws(win[win.len() - 1]));
        }
        assert(spec_trim_end(win) == win);
    }
    j
}

/// ASCII whitespace trimmed from both ends of `s`.
pub fn trim_ascii(s: &str) -> (r: String)
    ensures
        r@ == spec_trim(s@),
{
    let n = s.unicode_len();
    let i = trim_start_index(s);
    let j = trim_end_index(s, i, n);
    let r = String::from_str(s.substring_char(i, j));
    r
}

} // verus!
