//! Rules for metric names, label names and the metric name prefix.
use vstd::prelude::*;

use crate::error::{Error, ErrorView, Result};
use crate::text::{joined, same_text, starts_with, to_owned_text};

verus! {

/// A lower-case ASCII letter.
pub open spec fn is_lower(c: char) -> bool {
    'a' <= c <= 'z'
}

/// A character allowed after the first one of a name: lower-case letter, digit or `_`.
pub open spec fn is_name_char(c: char) -> bool {
    is_lower(c) || ('0' <= c <= '9') || c == '_'
}

/// A valid metric or label name: non-empty, starts with a lower-case letter, and goes on
/// with lower-case letters, digits and underscores only.
pub open spec fn valid_name(s: Seq<char>) -> bool {
    &&& s.len() > 0
    &&& is_lower(s[0])
    &&& forall|i: int| 1 <= i < s.len() ==> is_name_char(#[trigger] s[i])
}

/// The prefix with a `_` separator added when it is non-empty and does not end in one.
pub open spec fn normalized_prefix(p: Seq<char>) -> Seq<char> {
    if p.len() == 0 || p.last() == '_' {
        p
    } else {
        p.push('_')
    }
}

/// `s` with every trailing `_` removed.
pub open spec fn trim_underscores(s: Seq<char>) -> Seq<char>
    decreases s.len(),
{
    if s.len() > 0 && s.last() == '_' {
        trim_underscores(s.drop_last())
    } else {
        s
    }
}

/// A prefix is accepted when it is empty, or when what is left after removing its trailing
/// underscores is a valid name.
pub open spec fn valid_prefix(p: Seq<char>) -> bool {
    p.len() == 0 || valid_name(trim_underscores(p))
}

/// The name under which a metric is sent: the prefix is put in front unless it is empty or
/// the name already starts with it.
pub open spec fn prefixed_name(name: Seq<char>, prefix: Seq<char>) -> Seq<char> {
    if prefix.len() == 0 || prefix.is_prefix_of(name) {
        name
    } else {
        prefix + name
    }
}

/// Removing trailing underscores leaves a prefix of the text, and what was removed is all `_`.
pub(crate) proof fn lemma_trim_shape(s: Seq<char>)
    ensures
        trim_underscores(s).len() <= s.len(),
        trim_underscores(s) == s.subrange(0, trim_underscores(s).len() as int),
        forall|i: int| trim_underscores(s).len() <= i < s.len() ==> s[i] == '_',
    decreases s.len(),
{
    if s.len() > 0 && s.last() == '_' {
        lemma_trim_shape(s.drop_last());
        assert(trim_underscores(s) == trim_underscores(s.drop_last()));
        let t = trim_underscores(s);
        assert(s.drop_last().subrange(0, t.len() as int) =~= s.subrange(0, t.len() as int));
        assert forall|i: int| t.len() <= i < s.len() implies s[i] == '_' by {
            if i < s.len() - 1 {
                assert(s[i] == s.drop_last()[i]);
            }
        }
    } else {
        assert(s.subrange(0, s.len() as int) =~= s);
    }
}

/// A name is valid exactly when it is non-empty, its first character is a lower-case ASCII
/// letter, and each later character is a lower-case ASCII letter, one of the ten digits `0` to
/// `9`, or `_`.
pub proof fn lemma_valid_name_chars(s: Seq<char>)
    ensures
        valid_name(s) <==> {
            &&& s.len() > 0
            &&& 'a' <= s[0] && s[0] <= 'z'
            &&& forall|i: int|
                1 <= i < s.len() ==> ('a' <= #[trigger] s[i] && s[i] <= 'z') || ('0' <= s[i]
                    && s[i] <= '9') || s[i] == '_'
        },
{
}

/// A prefix is accepted exactly when it is empty, or when its first character is a lower-case
/// ASCII letter and every character of it is a lower-case ASCII letter, a digit or `_`: its
/// trailing underscores are dropped before the check, and underscores inside it are allowed.
pub proof fn lemma_valid_prefix_chars(p: Seq<char>)
    ensures
        valid_prefix(p) <==> (p.len() == 0 || {
            &&& 'a' <= p[0] && p[0] <= 'z'
            &&& forall|i: int|
                0 <= i < p.len() ==> ('a' <= #[trigger] p[i] && p[i] <= 'z') || ('0' <= p[i]
                    && p[i] <= '9') || p[i] == '_'
        }),
{
    if p.len() > 0 {
        lemma_trim_shape(p);
        let t = trim_underscores(p);
        if valid_name(t) {
            assert(t[0] == p[0]);
            assert forall|i: int| 0 <= i < p.len() implies ('a' <= #[trigger] p[i] && p[i] <= 'z')
                || ('0' <= p[i] && p[i] <= '9') || p[i] == '_' by {
                if 0 < i < t.len() {
                    assert(p[i] == t[i]);
                    assert(is_name_char(t[i]));
                }
            }
        }
        if 'a' <= p[0] && p[0] <= 'z' && forall|i: int|
            0 <= i < p.len() ==> ('a' <= #[trigger] p[i] && p[i] <= 'z') || ('0' <= p[i] && p[i]
                <= '9') || p[i] == '_' {
            if t.len() == 0 {
                assert(p[0] == '_');
            }
            assert(t[0] == p[0]);
            assert forall|i: int| 1 <= i < t.len() implies is_name_char(#[trigger] t[i]) by {
                assert(t[i] == p[i]);
            }
        }
    }
}

/// Completing a non-empty prefix whose last character is not `_` gives exactly that prefix
/// followed by one `_`, whatever comes before; an empty prefix, or one that already ends with
/// `_`, is left as it is.
pub proof fn lemma_normalized_prefix_appends(p: Seq<char>)
    ensures
        p.len() > 0 && p[p.len() - 1] != '_' ==> {
            &&& normalized_prefix(p).len() == p.len() + 1
            &&& forall|i: int| 0 <= i < p.len() ==> #[trigger] normalized_prefix(p)[i] == p[i]
            &&& normalized_prefix(p)[p.len() as int] == '_'
        },
        p.len() == 0 || p[p.len() - 1] == '_' ==> normalized_prefix(p) == p,
{
}

/// Whether `s` is a valid name, checked character by character.
fn is_valid_name(s: &str) -> (r: bool)
    ensures
        r == valid_name(s@),
{
    let mut it = s.chars();
    match it.next() {
        None => false,
        Some(c) => {
            if !(c >= 'a' && c <= 'z') {
                return false;
            }
            let ghost mut k: int = 1;
            loop
                invariant
                    1 <= k <= s@.len(),
                    vstd::std_specs::iter::IteratorSpec::remaining(&it) == s@.skip(k),
                    is_lower(s@[0]),
                    forall|i: int| 1 <= i < k ==> is_name_char(#[trigger] s@[i]),
                decreases s@.len() - k,
            {
                match it.next() {
                    None => {
                        assert(s@.skip(k).len() == 0);
                        return true;
                    },
                    Some(d) => {
                        assert(s@.skip(k)[0] == s@[k]);
                        if !((d >= 'a' && d <= 'z') || (d >= '0' && d <= '9') || d == '_') {
                            return false;
                        }
                        assert(s@.skip(k).drop_first() =~= s@.skip(k + 1));
                        proof {
                            k = k + 1;
                        }
                    },
                }
            }
        },
    }
}

/// Checks a metric name; the error carries the name.
pub fn validate_name(name: &str) -> (r: Result<()>)
    ensures
        r is Ok <==> valid_name(name@),
        r matches Err(e) ==> e@ == ErrorView::InvalidName(name@),
{
    if is_valid_name(name) {
        Ok(())
    } else {
        Err(Error::InvalidName(to_owned_text(name)))
    }
}

/// Checks a label name by the same rule as metric names; the error carries the label.
pub fn validate_label(label: &str) -> (r: Result<()>)
    ensures
        r is Ok <==> valid_name(label@),
        r matches Err(e) ==> e@ == ErrorView::InvalidLabel(label@),
{
    if is_valid_name(label) {
        Ok(())
    } else {
        Err(Error::InvalidLabel(to_owned_text(label)))
    }
}

/// Appends a `_` separator to a non-empty prefix that does not already end with one.
pub fn normalize_prefix(prefix: &str) -> (r: String)
    ensures
        r@ == normalized_prefix(prefix@),
{
    let n = prefix.unicode_len();
    if n == 0 || prefix.get_char(n - 1) == '_' {
        to_owned_text(prefix)
    } else {
        let r = joined(prefix, "_");
        proof {
            reveal_strlit("_");
            assert(r@ =~= prefix@.push('_'));
        }
        r
    }
}

/// Removing trailing underscores from `t` followed by `c` gives the same as from `t` when `c`
/// is `_`, and leaves `t` followed by `c` untouched otherwise.
proof fn lemma_trim_push(t: Seq<char>, c: char)
    ensures
        trim_underscores(t.push(c)) == if c == '_' {
            trim_underscores(t)
        } else {
            t.push(c)
        },
{
    assert(t.push(c).drop_last() =~= t);
}

/// Checks a prefix: the empty prefix is accepted; otherwise the prefix without its trailing
/// underscores must be a non-empty valid name. The error carries the prefix as given.
pub fn validate_prefix(prefix: &str) -> (r: Result<()>)
    ensures
        r is Ok <==> valid_prefix(prefix@),
        r matches Err(e) ==> e@ == ErrorView::InvalidPrefix(prefix@),
{
    if prefix.is_empty() {
        return Ok(());
    }
    let n = prefix.unicode_len();
    let mut it = prefix.chars();
    let mut idx: usize = 0;
    let mut keep: usize = 0;
    loop
        invariant
            n == prefix@.len(),
            keep <= idx <= n,
            vstd::std_specs::iter::IteratorSpec::remaining(&it) == prefix@.skip(idx as int),
            trim_underscores(prefix@.take(idx as int)) == prefix@.take(keep as int),
        ensures
            keep <= n,
            trim_underscores(prefix@) == prefix@.take(keep as int),
        decreases n - idx,
    {
        match it.next() {
            None => {
                assert(prefix@.skip(idx as int).len() == 0);
                assert(prefix@.take(n as int) =~= prefix@);
                break;
            },
            Some(c) => {
                assert(prefix@.skip(idx as int)[0] == prefix@[idx as int]);
                proof {
                    assert(prefix@.take(idx + 1) =~= prefix@.take(idx as int).push(c));
                    lemma_trim_push(prefix@.take(idx as int), c);
                }
                idx = idx + 1;
                if c != '_' {
                    keep = idx;
                }
                assert(prefix@.skip(idx - 1).drop_first() =~= prefix@.skip(idx as int));
            },
        }
    }
    let trimmed = prefix.substring_char(0, keep);
    assert(trimmed@ =~= trim_underscores(prefix@));
    if is_valid_name(trimmed) {
        Ok(())
    } else {
        Err(Error::InvalidPrefix(to_owned_text(prefix)))
    }
}

/// The name under which a metric is sent: `name` as is when `prefix` is empty or already
/// begins `name`, and `prefix` followed by `name` otherwise.
pub fn apply_prefix(name: &str, prefix: &str) -> (r: String)
    ensures
        r@ == prefixed_name(name@, prefix@),
{
    if prefix.is_empty() || starts_with(name, prefix) {
        to_owned_text(name)
    } else {
        joined(prefix, name)
    }
}

} // verus!
