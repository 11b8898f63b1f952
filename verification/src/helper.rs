//! Sanitising of free-text input: trimming and e-mail normalisation.

use vstd::prelude::*;

verus! {

/// The characters with the Unicode `White_Space` property, which
/// `char::is_whitespace` and `str::trim` go by.
pub open spec fn is_white_space(c: char) -> bool {
    ||| ('\u{9}' <= c && c <= '\u{d}')
    ||| c == ' '
    ||| c == '\u{85}'
    ||| c == '\u{a0}'
    ||| c == '\u{1680}'
    ||| ('\u{2000}' <= c && c <= '\u{200a}')
    ||| c == '\u{2028}'
    ||| c == '\u{2029}'
    ||| c == '\u{202f}'
    ||| c == '\u{205f}'
    ||| c == '\u{3000}'
}

/// `s` without its leading white space.
pub open spec fn trim_start(s: Seq<char>) -> Seq<char>
    decreases s.len(),
{
    if s.len() > 0 && is_white_space(s[0]) {
        trim_start(s.drop_first())
    } else {
        s
    }
}

/// `s` without its trailing white space.
pub open spec fn trim_end(s: Seq<char>) -> Seq<char>
    decreases s.len(),
{
    if s.len() > 0 && is_white_space(s.last()) {
        trim_end(s.drop_last())
    } else {
        s
    }
}

/// `s` without its leading and trailing white space.
pub open spec fn trimmed(s: Seq<char>) -> Seq<char> {
    trim_end(trim_start(s))
}

/// What `str::to_lowercase` makes of a string: the Unicode lowercase mapping of each
/// character, with the context rule for a final capital sigma.
pub uninterp spec fn unicode_lowercase(s: Seq<char>) -> Seq<char>;

/// Calls `char::is_whitespace`. Trusted: std documents it as the Unicode
/// `White_Space` property, which is the set `is_white_space` lists.
#[verifier::external_body]
fn char_is_white_space(c: char) -> (r: bool)
    ensures
        r == is_white_space(c),
{
    c.is_whitespace()
}

/// Calls `str::to_lowercase`. Trusted: the result is the one `unicode_lowercase`
/// names for the string; std documents the mapping as a function of the string alone.
#[verifier::external_body]
fn str_to_lowercase(s: &str) -> (r: String)
    ensures
        r@ == unicode_lowercase(s@),
{
    s.to_lowercase()
}

/// `trim_start(s)` is a suffix of `s` that is empty or starts with a character
/// other than white space.
pub proof fn lemma_trim_start_shape(s: Seq<char>)
    ensures
        trim_start(s).len() <= s.len(),
        trim_start(s) == s.subrange(s.len() - trim_start(s).len(), s.len() as int),
        trim_start(s).len() == 0 || !is_white_space(trim_start(s)[0]),
        forall|k: int| 0 <= k < s.len() - trim_start(s).len() ==> is_white_space(#[trigger] s[k]),
    decreases s.len(),
{
    if s.len() > 0 && is_white_space(s[0]) {
        lemma_trim_start_shape(s.drop_first());
        let r = trim_start(s.drop_first());
        assert forall|k: int| 0 <= k < s.len() - r.len() implies is_white_space(#[trigger] s[k]) by {
            if k > 0 {
                assert(s[k] == s.drop_first()[k - 1]);
            }
        }
        assert(s.drop_first().subrange(s.drop_first().len() - r.len(), s.drop_first().len() as int)
            =~= s.subrange(s.len() - r.len(), s.len() as int));
    } else {
        assert(s.subrange(0, s.len() as int) =~= s);
    }
}

/// `trim_end(s)` is a prefix of `s` that is empty or ends with a character
/// other than white space.
pub proof fn lemma_trim_end_shape(s: Seq<char>)
    ensures
        trim_end(s).len() <= s.len(),
        trim_end(s) == s.subrange(0, trim_end(s).len() as int),
        trim_end(s).len() == 0 || !is_white_space(trim_end(s).last()),
        forall|k: int| trim_end(s).len() <= k < s.len() ==> is_white_space(#[trigger] s[k]),
    decreases s.len(),
{
    if s.len() > 0 && is_white_space(s.last()) {
        lemma_trim_end_shape(s.drop_last());
        let r = trim_end(s.drop_last());
        assert forall|k: int| r.len() <= k < s.len() implies is_white_space(#[trigger] s[k]) by {
            if k < s.len() - 1 {
                assert(s[k] == s.drop_last()[k]);
            }
        }
        assert(s.drop_last().subrange(0, r.len() as int) =~= s.subrange(0, r.len() as int));
    } else {
        assert(s.subrange(0, s.len() as int) =~= s);
    }
}

/// A trimmed string neither starts nor ends with white space, and is a contiguous
/// part of the untrimmed string.
pub proof fn lemma_trimmed_has_no_outer_white_space(s: Seq<char>)
    ensures
        trimmed(s).len() == 0 || (!is_white_space(trimmed(s)[0]) && !is_white_space(
            trimmed(s).last(),
        )),
        exists|i: int, j: int| 0 <= i <= j <= s.len() && trimmed(s) == s.subrange(i, j),
{
    let t = trim_start(s);
    lemma_trim_start_shape(s);
    lemma_trim_end_shape(t);
    let u = trim_end(t);
    let i = s.len() - t.len();
    if u.len() > 0 {
        assert(u[0] == t[0]);
    }
    assert(s.subrange(i, s.len() as int).subrange(0, u.len() as int) =~= s.subrange(i, i + u.len()));
}

/// Trimming removes white space only: every string is its trimmed form with a run of
/// white space before it and a run of white space after it.
pub proof fn lemma_trim_removes_only_white_space(s: Seq<char>)
    ensures
        exists|a: Seq<char>, b: Seq<char>|
            {
                &&& s == a + trimmed(s) + b
                &&& forall|k: int| 0 <= k < a.len() ==> is_white_space(#[trigger] a[k])
                &&& forall|k: int| 0 <= k < b.len() ==> is_white_space(#[trigger] b[k])
            },
{
    let t = trim_start(s);
    lemma_trim_start_shape(s);
    lemma_trim_end_shape(t);
    let u = trim_end(t);
    let i = s.len() - t.len();
    let a = s.subrange(0, i);
    let b = t.subrange(u.len() as int, t.len() as int);
    assert forall|k: int| 0 <= k < a.len() implies is_white_space(#[trigger] a[k]) by {
        assert(a[k] == s[k]);
    }
    assert forall|k: int| 0 <= k < b.len() implies is_white_space(#[trigger] b[k]) by {
        assert(b[k] == t[k + u.len()]);
    }
    assert(s =~= a + u + b);
    assert({
        &&& s == a + trimmed(s) + b
        &&& forall|k: int| 0 <= k < a.len() ==> is_white_space(#[trigger] a[k])
        &&& forall|k: int| 0 <= k < b.len() ==> is_white_space(#[trigger] b[k])
    });
}

/// Trimming twice gives what trimming once gives.
pub proof fn lemma_trim_idempotent(s: Seq<char>)
    ensures
        trimmed(trimmed(s)) == trimmed(s),
{
    lemma_trimmed_has_no_outer_white_space(s);
    let u = trimmed(s);
    if u.len() == 0 {
    } else {
        assert(trim_start(u) == u);
        assert(trim_end(u) == u);
    }
}

/// Trims white space from both ends of `input`.
pub fn _trim_string(input: &str) -> (r: String)
    ensures
        r@ == trimmed(input@),
{
    let n = input.unicode_len();
    let mut i: usize = 0;
    assert(input@.subrange(0, n as int) =~= input@);
    while i < n && char_is_white_space(input.get_char(i))
        invariant
            n == input@.len(),
            i <= n,
            trim_start(input@) == trim_start(input@.subrange(i as int, n as int)),
        decreases n - i,
    {
        assert(input@.subrange(i as int, n as int).drop_first() =~= input@.subrange(
            i + 1,
            n as int,
        ));
        i = i + 1;
    }
    assert(trim_start(input@) == input@.subrange(i as int, n as int));
    let mut j: usize = n;
    while j > i && char_is_white_space(input.get_char(j - 1))
        invariant
            n == input@.len(),
            i <= j <= n,
            trim_start(input@) == input@.subrange(i as int, n as int),
            trimmed(input@) == trim_end(input@.subrange(i as int, j as int)),
        decreases j - i,
    {
        assert(input@.subrange(i as int, j as int).drop_last() =~= input@.subrange(
            i as int,
            j - 1,
        ));
        j = j - 1;
    }
    let r = String::from_str(input.substring_char(i, j));
    r
}

/// Normalises an e-mail address: trims white space, then lowercases.
pub fn _sanitize_email(email: &str) -> (r: String)
    ensures
        r@ == unicode_lowercase(trimmed(email@)),
{
    let t = _trim_string(email);
    str_to_lowercase(t.as_str())
}

} // verus!
