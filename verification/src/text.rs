use unicode_segmentation::UnicodeSegmentation;
use vstd::prelude::*;

verus! {

/// Whether `c` has the Unicode `White_Space` property, as `char::is_whitespace` reports it.
pub uninterp spec fn white_space(c: char) -> bool;

/// Number of extended grapheme clusters of `s`, as `unicode_segmentation` counts them.
pub uninterp spec fn grapheme_count(s: Seq<char>) -> nat;

/// Calls `char::is_whitespace`; its result is named `white_space`.
#[verifier::external_body]
fn is_whitespace(c: char) -> (r: bool)
    ensures
        r == white_space(c),
{
    c.is_whitespace()
}

/// Calls `UnicodeSegmentation::graphemes(s, true)` and counts the clusters.
/// The count is named `grapheme_count`. The crate's iterator yields non-empty
/// slices that cover the string, so the count is zero exactly for the empty
/// string and never exceeds the number of characters; nothing else is stated.
#[verifier::external_body]
pub(crate) fn count_graphemes(s: &str) -> (n: usize)
    ensures
        n as nat == grapheme_count(s@),
        n as nat <= s@.len(),
        (n == 0) == (s@.len() == 0),
{
    s.graphemes(true).count()
}

/// Calls `String::push`.
#[verifier::external_body]
pub(crate) fn push_char(s: &mut String, c: char)
    ensures
        final(s)@ == old(s)@.push(c),
{
    s.push(c);
}

/// `s` with every leading white-space character removed.
pub open spec fn trim_start(s: Seq<char>) -> Seq<char>
    decreases s.len(),
{
    if s.len() > 0 && white_space(s[0]) {
        trim_start(s.drop_first())
    } else {
        s
    }
}

/// `s` with every trailing white-space character removed.
pub open spec fn trim_end(s: Seq<char>) -> Seq<char>
    decreases s.len(),
{
    if s.len() > 0 && white_space(s.last()) {
        trim_end(s.drop_last())
    } else {
        s
    }
}

/// `s` with white space removed at both ends, as `str::trim` does.
pub open spec fn trimmed(s: Seq<char>) -> Seq<char> {
    trim_end(trim_start(s))
}

/// Every character of `s` is white space.
pub open spec fn all_white_space(s: Seq<char>) -> bool {
    forall|i: int| 0 <= i < s.len() ==> white_space(#[trigger] s[i])
}

/// An ASCII letter or digit: `0-9`, `A-Z` or `a-z`.
pub open spec fn is_ascii_alnum(c: char) -> bool {
    ('0' <= c <= '9') || ('A' <= c <= 'Z') || ('a' <= c <= 'z')
}

/// Whether `c` is an ASCII letter or digit.
pub fn ascii_alphanumeric(c: char) -> (r: bool)
    ensures
        r == is_ascii_alnum(c),
{
    let n = c as u32;
    (48 <= n && n <= 57) || (65 <= n && n <= 90) || (97 <= n && n <= 122)
}

/// What `slug::slugify` makes of a text.
pub uninterp spec fn slugified(s: Seq<char>) -> Seq<char>;

/// The shape `slug::slugify` documents for its output: only `a-z`, `0-9` and
/// `-`, never two `-` in a row, and no `-` at either end.
pub open spec fn is_slugify_output(t: Seq<char>) -> bool {
    &&& forall|i: int|
        0 <= i < t.len() ==> ('a' <= #[trigger] t[i] <= 'z') || ('0' <= t[i] <= '9') || t[i]
            == '-'
    &&& forall|i: int| 0 <= i < t.len() - 1 ==> !(#[trigger] t[i] == '-' && t[i + 1] == '-')
    &&& t.len() > 0 ==> t[0] != '-' && t.last() != '-'
}

/// Calls `slug::slugify`. Its result is named `slugified`; the clauses on its
/// shape are those of the function's documentation.
#[verifier::external_body]
pub(crate) fn slugify(s: &str) -> (r: String)
    ensures
        r@ == slugified(s@),
        is_slugify_output(r@),
{
    slug::slugify(s)
}

/// Every character of `s` satisfies `p`.
pub open spec fn all_chars(s: Seq<char>, p: spec_fn(char) -> bool) -> bool {
    forall|i: int| 0 <= i < s.len() ==> p(#[trigger] s[i])
}

/// A character allowed in a user name: an ASCII letter or digit, or `_`.
pub open spec fn is_username_char(c: char) -> bool {
    is_ascii_alnum(c) || c == '_'
}

/// A character allowed in a post slug: an ASCII letter or digit, or `-`.
pub open spec fn is_slug_char(c: char) -> bool {
    is_ascii_alnum(c) || c == '-'
}

/// A user-name character is exactly an ASCII digit, an ASCII letter or `_`;
/// nothing else, not `@`, `.`, `-`, a space or a non-ASCII letter, is one.
pub proof fn law_username_char(c: char)
    ensures
        is_username_char(c) <==> (48 <= (c as u32) <= 57 || 65 <= (c as u32) <= 90 || 97 <= (
        c as u32) <= 122 || (c as u32) == 95),
{
}

/// A slug character is exactly an ASCII digit, an ASCII letter or `-`;
/// nothing else, not `.`, `_`, `/`, a space or a non-ASCII letter, is one.
pub proof fn law_slug_char(c: char)
    ensures
        is_slug_char(c) <==> (48 <= (c as u32) <= 57 || 65 <= (c as u32) <= 90 || 97 <= (c as u32)
            <= 122 || (c as u32) == 45),
{
}

/// Whether every character of `s` is an ASCII letter, digit or `_`.
pub fn all_username_chars(s: &str) -> (r: bool)
    ensures
        r == all_chars(s@, |c: char| is_username_char(c)),
{
    let cs = chars_of(s);
    let mut i: usize = 0;
    while i < cs.len()
        invariant
            cs@ == s@,
            i <= cs@.len(),
            forall|k: int| 0 <= k < i ==> is_username_char(#[trigger] cs@[k]),
        decreases cs@.len() - i,
    {
        let c = cs[i];
        if !(ascii_alphanumeric(c) || c == '_') {
            return false;
        }
        i = i + 1;
    }
    true
}

/// Whether every character of `s` is an ASCII letter, digit or `-`.
pub fn all_slug_chars(s: &str) -> (r: bool)
    ensures
        r == all_chars(s@, |c: char| is_slug_char(c)),
{
    let cs = chars_of(s);
    let mut i: usize = 0;
    while i < cs.len()
        invariant
            cs@ == s@,
            i <= cs@.len(),
            forall|k: int| 0 <= k < i ==> is_slug_char(#[trigger] cs@[k]),
        decreases cs@.len() - i,
    {
        let c = cs[i];
        if !(ascii_alphanumeric(c) || c == '-') {
            return false;
        }
        i = i + 1;
    }
    true
}

/// Collects the characters of `s` into a vector.
pub fn chars_of(s: &str) -> (out: Vec<char>)
    ensures
        out@ == s@,
{
    broadcast use vstd::string::group_string_axioms;

    let mut out: Vec<char> = Vec::new();
    for c in it: s.chars()
        invariant
            it.seq() == s@,
            out@ == it.seq().take(it.index()),
    {
        out.push(c);
        proof {
            assert(out@ =~= it.seq().take(it.index() + 1));
        }
    }
    proof {
        assert(out@ =~= s@);
    }
    out
}

proof fn lemma_trim_start_skip(s: Seq<char>, i: int)
    requires
        0 <= i <= s.len(),
        forall|k: int| 0 <= k < i ==> white_space(#[trigger] s[k]),
    ensures
        trim_start(s) == trim_start(s.subrange(i, s.len() as int)),
    decreases i,
{
    if i > 0 {
        assert(white_space(s[0]));
        let t = s.drop_first();
        assert forall|k: int| 0 <= k < i - 1 implies white_space(#[trigger] t[k]) by {
            assert(t[k] == s[k + 1]);
        }
        lemma_trim_start_skip(t, i - 1);
        assert(t.subrange(i - 1, t.len() as int) =~= s.subrange(i, s.len() as int));
    } else {
        assert(s.subrange(0, s.len() as int) =~= s);
    }
}

proof fn lemma_trim_end_cut(s: Seq<char>, j: int)
    requires
        0 <= j <= s.len(),
        forall|k: int| j <= k < s.len() ==> white_space(#[trigger] s[k]),
    ensures
        trim_end(s) == trim_end(s.subrange(0, j)),
    decreases s.len() - j,
{
    if j < s.len() {
        assert(white_space(s.last()));
        let t = s.drop_last();
        assert forall|k: int| j <= k < t.len() implies white_space(#[trigger] t[k]) by {
            assert(t[k] == s[k]);
        }
        lemma_trim_end_cut(t, j);
        assert(t.subrange(0, j) =~= s.subrange(0, j));
    } else {
        assert(s.subrange(0, j) =~= s);
    }
}


proof fn lemma_trim_start_shape(s: Seq<char>)
    ensures
        trim_start(s).len() <= s.len(),
        trim_start(s).len() == 0 || !white_space(trim_start(s)[0]),
        trim_start(s).len() == 0 <==> all_white_space(s),
        trim_start(s) == s.subrange(s.len() - trim_start(s).len(), s.len() as int),
        forall|k: int| 0 <= k < s.len() - trim_start(s).len() ==> white_space(#[trigger] s[k]),
    decreases s.len(),
{
    if s.len() > 0 && white_space(s[0]) {
        let t = s.drop_first();
        lemma_trim_start_shape(t);
        if all_white_space(t) {
            assert forall|i: int| 0 <= i < s.len() implies white_space(#[trigger] s[i]) by {
                if i > 0 {
                    assert(s[i] == t[i - 1]);
                }
            }
        }
        if all_white_space(s) {
            assert forall|i: int| 0 <= i < t.len() implies white_space(#[trigger] t[i]) by {
                assert(t[i] == s[i + 1]);
            }
        }
        assert(t.subrange(t.len() - trim_start(t).len(), t.len() as int) =~= s.subrange(
            s.len() - trim_start(t).len(),
            s.len() as int,
        ));
        assert forall|k: int| 0 <= k < s.len() - trim_start(s).len() implies white_space(
            #[trigger] s[k],
        ) by {
            if k > 0 {
                assert(s[k] == t[k - 1]);
            }
        }
    } else {
        assert(s.subrange(0, s.len() as int) =~= s);
        if s.len() > 0 {
            assert(!white_space(s[0]));
        }
    }
}

proof fn lemma_trim_end_shape(s: Seq<char>)
    ensures
        trim_end(s).len() <= s.len(),
        trim_end(s).len() == 0 || !white_space(trim_end(s).last()),
        trim_end(s) == s.subrange(0, trim_end(s).len() as int),
        s.len() > 0 && !white_space(s[0]) ==> trim_end(s).len() > 0,
        forall|k: int| trim_end(s).len() <= k < s.len() ==> white_space(#[trigger] s[k]),
    decreases s.len(),
{
    if s.len() > 0 && white_space(s.last()) {
        let t = s.drop_last();
        lemma_trim_end_shape(t);
        assert(t.subrange(0, trim_end(t).len() as int) =~= s.subrange(
            0,
            trim_end(t).len() as int,
        ));
        if s.len() > 0 && !white_space(s[0]) {
            assert(t.len() > 0);
            assert(t[0] == s[0]);
        }
        assert forall|k: int| trim_end(s).len() <= k < s.len() implies white_space(
            #[trigger] s[k],
        ) by {
            if k < t.len() {
                assert(s[k] == t[k]);
            }
        }
    } else {
        assert(s.subrange(0, s.len() as int) =~= s);
    }
}

/// What trimming leaves is empty exactly when the whole text is white space;
/// otherwise it starts and ends with a character that is not white space.
pub proof fn lemma_trimmed_shape(s: Seq<char>)
    ensures
        trimmed(s).len() <= s.len(),
        trimmed(s).len() == 0 <==> all_white_space(s),
        trimmed(s).len() > 0 ==> !white_space(trimmed(s)[0]) && !white_space(
            trimmed(s).last(),
        ),
{
    let t = trim_start(s);
    lemma_trim_start_shape(s);
    lemma_trim_end_shape(t);
    let u = trim_end(t);
    if u.len() > 0 {
        assert(u[0] == t[0]);
    }
}

/// Trimming removes white space at the two ends and nothing else: what it
/// leaves is one unbroken stretch of the text, with only white space before
/// and after it.
pub proof fn law_trim_removes_only_outer_white_space(s: Seq<char>)
    ensures
        exists|i: int, j: int|
            #![trigger s.subrange(i, j)]
            0 <= i <= j <= s.len() && trimmed(s) == s.subrange(i, j) && (forall|k: int|
                0 <= k < i ==> white_space(#[trigger] s[k])) && (forall|k: int|
                j <= k < s.len() ==> white_space(#[trigger] s[k])),
{
    let t = trim_start(s);
    lemma_trim_start_shape(s);
    lemma_trim_end_shape(t);
    let i = s.len() - t.len();
    let j = i + trim_end(t).len();
    assert(trimmed(s) =~= s.subrange(i, j));
    assert forall|k: int| j <= k < s.len() implies white_space(#[trigger] s[k]) by {
        assert(s[k] == t[k - i]);
    }
    assert(0 <= i <= j <= s.len() && trimmed(s) == s.subrange(i, j));
}

/// A text that neither starts nor ends with white space is left as it is by trimming.
pub proof fn lemma_trimmed_fixed(u: Seq<char>)
    requires
        u.len() == 0 || (!white_space(u[0]) && !white_space(u.last())),
    ensures
        trimmed(u) == u,
{
}

/// Trimming twice is trimming once.
pub proof fn lemma_trimmed_idempotent(s: Seq<char>)
    ensures
        trimmed(trimmed(s)) == trimmed(s),
{
    lemma_trimmed_shape(s);
    lemma_trimmed_fixed(trimmed(s));
}

/// Returns `s` with leading and trailing white space removed.
pub fn trim(s: &str) -> (out: String)
    ensures
        out@ == trimmed(s@),
{
    let cs = chars_of(s);
    let n = cs.len();
    let mut i: usize = 0;
    while i < n && is_whitespace(cs[i])
        invariant
            cs@ == s@,
            n == cs@.len(),
            i <= n,
            forall|k: int| 0 <= k < i ==> white_space(#[trigger] cs@[k]),
        decreases n - i,
    {
        i = i + 1;
    }
    proof {
        lemma_trim_start_skip(s@, i as int);
        let t = s@.subrange(i as int, n as int);
        if t.len() > 0 {
            assert(t[0] == s@[i as int]);
        }
        assert(trim_start(s@) == t);
    }
    let mut j: usize = n;
    while j > i && is_whitespace(cs[j - 1])
        invariant
            cs@ == s@,
            n == cs@.len(),
            i <= j <= n,
            forall|k: int| j <= k < n ==> white_space(#[trigger] cs@[k]),
        decreases j - i,
    {
        j = j - 1;
    }
    proof {
        let t = s@.subrange(i as int, n as int);
        assert forall|k: int| j - i <= k < t.len() implies white_space(#[trigger] t[k]) by {
            assert(t[k] == s@[k + i]);
        }
        lemma_trim_end_cut(t, j - i);
        let u = t.subrange(0, j - i);
        assert(u =~= s@.subrange(i as int, j as int));
        if u.len() > 0 {
            assert(u.last() == s@[j - 1]);
        }
        assert(trim_end(u) == u);
    }
    s.substring_char(i, j).to_owned()
}

} // verus!
