//! Character-level operations on strings, each proved against its statement over `Seq<char>`.
use vstd::prelude::*;

verus! {

/// Whether `c` has the Unicode `White_Space` property, the test `char::is_whitespace` makes
/// and `str::trim` trims by: U+0009 to U+000D, U+0020, U+0085, U+00A0, U+1680, U+2000 to
/// U+200A, U+2028, U+2029, U+202F, U+205F and U+3000.
pub open spec fn white_space(c: char) -> bool {
    ||| '\u{9}' <= c <= '\u{d}'
    ||| c == '\u{20}'
    ||| c == '\u{85}'
    ||| c == '\u{a0}'
    ||| c == '\u{1680}'
    ||| '\u{2000}' <= c <= '\u{200a}'
    ||| c == '\u{2028}'
    ||| c == '\u{2029}'
    ||| c == '\u{202f}'
    ||| c == '\u{205f}'
    ||| c == '\u{3000}'
}

/// True when every character of `s` is white space (so trimming it leaves nothing).
pub open spec fn blank(s: Seq<char>) -> bool {
    forall|i: int| 0 <= i < s.len() ==> white_space(#[trigger] s[i])
}

/// Whether `c` is white space.
fn is_white_space(c: char) -> (r: bool)
    ensures
        r == white_space(c),
{
    ('\u{9}' <= c && c <= '\u{d}') || c == '\u{20}' || c == '\u{85}' || c == '\u{a0}'
        || c == '\u{1680}' || ('\u{2000}' <= c && c <= '\u{200a}') || c == '\u{2028}'
        || c == '\u{2029}' || c == '\u{202f}' || c == '\u{205f}' || c == '\u{3000}'
}

/// Whether `p` is a prefix of `s`, comparing character by character.
pub(crate) fn starts_with(s: &str, p: &str) -> (r: bool)
    ensures
        r == p@.is_prefix_of(s@),
{
    let mut si = s.chars();
    let mut pi = p.chars();
    let ghost mut k: int = 0;
    loop
        invariant
            0 <= k <= p@.len(),
            k <= s@.len(),
            vstd::std_specs::iter::IteratorSpec::remaining(&si) == s@.skip(k),
            vstd::std_specs::iter::IteratorSpec::remaining(&pi) == p@.skip(k),
            forall|j: int| 0 <= j < k ==> p@[j] == s@[j],
        decreases p@.len() - k,
    {
        match pi.next() {
            None => {
                assert(p@.skip(k).len() == 0);
                return true;
            },
            Some(c) => {
                assert(p@.skip(k)[0] == p@[k]);
                match si.next() {
                    None => {
                        assert(s@.skip(k).len() == 0);
                        return false;
                    },
                    Some(d) => {
                        assert(s@.skip(k)[0] == s@[k]);
                        if c != d {
                            return false;
                        }
                        assert(p@.skip(k).drop_first() =~= p@.skip(k + 1));
                        assert(s@.skip(k).drop_first() =~= s@.skip(k + 1));
                        proof {
                            k = k + 1;
                        }
                    },
                }
            },
        }
    }
}

/// Whether `a` and `b` hold the same characters.
pub(crate) fn same_text(a: &str, b: &str) -> (r: bool)
    ensures
        r == (a@ == b@),
{
    let mut ai = a.chars();
    let mut bi = b.chars();
    let ghost mut k: int = 0;
    loop
        invariant
            0 <= k <= a@.len(),
            k <= b@.len(),
            vstd::std_specs::iter::IteratorSpec::remaining(&ai) == a@.skip(k),
            vstd::std_specs::iter::IteratorSpec::remaining(&bi) == b@.skip(k),
            forall|j: int| 0 <= j < k ==> a@[j] == b@[j],
        decreases a@.len() - k,
    {
        let x = ai.next();
        let y = bi.next();
        match x {
            None => {
                assert(a@.skip(k).len() == 0);
                match y {
                    None => {
                        assert(b@.skip(k).len() == 0);
                        assert(a@ =~= b@);
                        return true;
                    },
                    Some(_) => {
                        return false;
                    },
                }
            },
            Some(c) => {
                assert(a@.skip(k)[0] == a@[k]);
                match y {
                    None => {
                        assert(b@.skip(k).len() == 0);
                        return false;
                    },
                    Some(d) => {
                        assert(b@.skip(k)[0] == b@[k]);
                        if c != d {
                            return false;
                        }
                        assert(a@.skip(k).drop_first() =~= a@.skip(k + 1));
                        assert(b@.skip(k).drop_first() =~= b@.skip(k + 1));
                        proof {
                            k = k + 1;
                        }
                    },
                }
            },
        }
    }
}

/// Whether every character of `s` is white space.
pub(crate) fn is_blank(s: &str) -> (r: bool)
    ensures
        r == blank(s@),
{
    let mut it = s.chars();
    let ghost mut k: int = 0;
    loop
        invariant
            0 <= k <= s@.len(),
            vstd::std_specs::iter::IteratorSpec::remaining(&it) == s@.skip(k),
            forall|j: int| 0 <= j < k ==> white_space(#[trigger] s@[j]),
        decreases s@.len() - k,
    {
        match it.next() {
            None => {
                assert(s@.skip(k).len() == 0);
                return true;
            },
            Some(c) => {
                assert(s@.skip(k)[0] == s@[k]);
                if !is_white_space(c) {
                    return false;
                }
                assert(s@.skip(k).drop_first() =~= s@.skip(k + 1));
                proof {
                    k = k + 1;
                }
            },
        }
    }
}

/// A fresh `String` holding the characters of `s`.
pub(crate) fn to_owned_text(s: &str) -> (r: String)
    ensures
        r@ == s@,
{
    s.to_owned()
}

/// A fresh `String` holding the characters of `a` followed by those of `b`.
pub(crate) fn joined(a: &str, b: &str) -> (r: String)
    ensures
        r@ == a@ + b@,
{
    let mut out = a.to_owned();
    out.append(b);
    out
}

} // verus!
