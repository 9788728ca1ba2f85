//! Character and string helpers shared by the line editor and the issue
//! field parsers: whitespace classification, trimming, and substring search,
//! all stated over `Seq<char>` views.

use vstd::prelude::*;
use vstd::string::StrSliceExecFns;

verus! {

/// A whitespace character, by the Unicode `White_Space` property.
pub open spec fn is_ws(c: char) -> bool {
    ||| c as u32 == 0x20
    ||| (0x9 <= c as u32 && c as u32 <= 0xd)
    ||| c as u32 == 0x85
    ||| c as u32 == 0xa0
    ||| c as u32 == 0x1680
    ||| (0x2000 <= c as u32 && c as u32 <= 0x200a)
    ||| c as u32 == 0x2028
    ||| c as u32 == 0x2029
    ||| c as u32 == 0x202f
    ||| c as u32 == 0x205f
    ||| c as u32 == 0x3000
}

/// Whether `c` is whitespace, mirroring the Unicode `White_Space` set.
pub fn is_whitespace_char(c: char) -> (b: bool)
    ensures
        b == is_ws(c),
{
    let u: u32 = c as u32;
    u == 0x20 || (0x9 <= u && u <= 0xd) || u == 0x85 || u == 0xa0 || u == 0x1680 || (0x2000 <= u
        && u <= 0x200a) || u == 0x2028 || u == 0x2029 || u == 0x202f || u == 0x205f || u == 0x3000
}

/// `s` with its trailing run of whitespace removed.
pub open spec fn trim_end_ws(s: Seq<char>) -> Seq<char>
    decreases s.len(),
{
    if s.len() > 0 && is_ws(s.last()) {
        trim_end_ws(s.drop_last())
    } else {
        s
    }
}

/// `s` with its trailing run of non-whitespace removed.
pub open spec fn drop_word_end(s: Seq<char>) -> Seq<char>
    decreases s.len(),
{
    if s.len() > 0 && !is_ws(s.last()) {
        drop_word_end(s.drop_last())
    } else {
        s
    }
}

/// `s` with its leading run of whitespace removed.
pub open spec fn trim_start_ws(s: Seq<char>) -> Seq<char>
    decreases s.len(),
{
    if s.len() > 0 && is_ws(s.first()) {
        trim_start_ws(s.drop_first())
    } else {
        s
    }
}

/// `s` with whitespace removed from both ends.
pub open spec fn trim_ws(s: Seq<char>) -> Seq<char> {
    trim_end_ws(trim_start_ws(s))
}

/// The first `k` characters of `s` are exactly `s` without its trailing
/// whitespace, scanning backwards from position `from`.
pub fn scan_back_ws(s: &str, from: usize) -> (k: usize)
    requires
        from <= s@.len(),
    ensures
        k <= from,
        s@.take(k as int) == trim_end_ws(s@.take(from as int)),
{
    let mut k: usize = from;
    while k > 0 && is_whitespace_char(s.get_char(k - 1))
        invariant
            k <= from <= s@.len(),
            trim_end_ws(s@.take(k as int)) == trim_end_ws(s@.take(from as int)),
        decreases k,
    {
        proof {
            assert(s@.take(k as int).drop_last() =~= s@.take(k - 1));
        }
        k = k - 1;
    }
    k
}

/// The first `k` characters of `s` are exactly `s` without its trailing
/// word, scanning backwards from position `from`.
pub fn scan_back_word(s: &str, from: usize) -> (k: usize)
    requires
        from <= s@.len(),
    ensures
        k <= from,
        s@.take(k as int) == drop_word_end(s@.take(from as int)),
{
    let mut k: usize = from;
    while k > 0 && !is_whitespace_char(s.get_char(k - 1))
        invariant
            k <= from <= s@.len(),
            drop_word_end(s@.take(k as int)) == drop_word_end(s@.take(from as int)),
        decreases k,
    {
        proof {
            assert(s@.take(k as int).drop_last() =~= s@.take(k - 1));
        }
        k = k - 1;
    }
    k
}

/// `s` with whitespace removed from both ends, as an owned string.
pub fn trimmed(s: &str) -> (r: String)
    ensures
        r@ == trim_ws(s@),
{
    let n: usize = s.unicode_len();
    let mut a: usize = 0;
    proof {
        assert(s@.skip(0) =~= s@);
    }
    while a < n && is_whitespace_char(s.get_char(a))
        invariant
            a <= n == s@.len(),
            trim_start_ws(s@.skip(a as int)) == trim_start_ws(s@),
        decreases n - a,
    {
        proof {
            assert(s@.skip(a as int).drop_first() =~= s@.skip(a + 1));
        }
        a = a + 1;
    }
    proof {
        assert(s@.skip(n as int) =~= Seq::<char>::empty());
    }
    let t = s.substring_char(a, n);
    let b: usize = scan_back_ws(t, n - a);
    let r = t.substring_char(0, b).to_owned();
    proof {
        assert(t@.take(t@.len() as int) =~= t@);
    }
    r
}

/// `p` occurs at the start of `h`.
pub open spec fn seq_starts_with(h: Seq<char>, p: Seq<char>) -> bool {
    p.len() <= h.len() && (forall|i: int| 0 <= i < p.len() ==> h[i] == #[trigger] p[i])
}

/// `p` occurs in `h` at offset `k`.
pub open spec fn seq_contains_at(h: Seq<char>, p: Seq<char>, k: int) -> bool {
    0 <= k && k + p.len() <= h.len() && (forall|i: int| 0 <= i < p.len() ==> h[k + i]
        == #[trigger] p[i])
}

/// `p` occurs somewhere in `h`.
pub open spec fn seq_contains(h: Seq<char>, p: Seq<char>) -> bool {
    exists|k: int| #[trigger] seq_contains_at(h, p, k)
}

/// Whether `h` begins with `p`.
pub fn str_starts_with(h: &str, p: &str) -> (b: bool)
    ensures
        b == seq_starts_with(h@, p@),
{
    let hn: usize = h.unicode_len();
    let pn: usize = p.unicode_len();
    if pn > hn {
        return false;
    }
    let mut i: usize = 0;
    while i < pn
        invariant
            i <= pn <= hn,
            pn == p@.len(),
            hn == h@.len(),
            forall|j: int| 0 <= j < i ==> h@[j] == #[trigger] p@[j],
        decreases pn - i,
    {
        if h.get_char(i) != p.get_char(i) {
            return false;
        }
        i = i + 1;
    }
    true
}

/// Whether `p` occurs anywhere in `h`.
pub fn str_contains(h: &str, p: &str) -> (b: bool)
    ensures
        b == seq_contains(h@, p@),
{
    let hn: usize = h.unicode_len();
    let pn: usize = p.unicode_len();
    if pn > hn {
        return false;
    }
    let mut k: usize = 0;
    while k <= hn - pn
        invariant
            pn <= hn,
            pn == p@.len(),
            hn == h@.len(),
            forall|k2: int| 0 <= k2 < k ==> !#[trigger] seq_contains_at(h@, p@, k2),
        decreases hn + 1 - k,
    {
        let sub = s_suffix(h, k);
        if str_starts_with(sub, p) {
            proof {
                assert(seq_contains_at(h@, p@, k as int));
            }
            return true;
        }
        proof {
            assert(!seq_contains_at(h@, p@, k as int));
        }
        k = k + 1;
    }
    false
}

/// The suffix of `s` starting at character `from`.
fn s_suffix(s: &str, from: usize) -> (r: &str)
    requires
        from <= s@.len(),
    ensures
        r@ == s@.skip(from as int),
{
    let n: usize = s.unicode_len();
    s.substring_char(from, n)
}

/// Relies on String::push: appends the character to the end of the string.
#[verifier::external_body]
pub(crate) fn push_char(s: &mut String, c: char)
    ensures
        final(s)@ == old(s)@.push(c),
{
    s.push(c)
}

} // verus!
