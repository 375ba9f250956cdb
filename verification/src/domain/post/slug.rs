use crate::domain::post::title::Title;
use crate::text::{
    all_chars, all_slug_chars, is_slug_char, is_slugify_output, law_slug_char, slugified, slugify,
};
use crate::utils::{after_last_hyphen, before_last_hyphen, before_last_segment, is_lower_hex, is_token, last_index_of, random_string};
use vstd::prelude::*;

verus! {

/// The address of a post: not empty, only ASCII letters, digits and `-`.
#[derive(Debug)]
pub struct Slug(String);

/// Why a text was refused as a slug.
#[derive(Debug, Clone, Copy, PartialEq, Eq, Structural)]
pub enum SlugError {
    Empty,
    InvalidCharacter,
}

/// What `Slug::try_from` makes of the text `v`.
pub open spec fn check_slug(v: Seq<char>) -> Result<Seq<char>, SlugError> {
    if v.len() == 0 {
        Err(SlugError::Empty)
    } else if !all_chars(v, |c: char| is_slug_char(c)) {
        Err(SlugError::InvalidCharacter)
    } else {
        Ok(v)
    }
}

/// `s` is `stem`, a `-` and a random token of twelve hexadecimal digits.
pub open spec fn is_tagged(stem: Seq<char>, s: Seq<char>) -> bool {
    &&& s.len() == stem.len() as int + 13
    &&& s.subrange(0, stem.len() as int) == stem
    &&& s[stem.len() as int] == '-'
    &&& is_token(s.subrange(stem.len() as int + 1, s.len() as int))
}

/// A slug is accepted as it was written: the check keeps the text whole.
pub proof fn lemma_check_slug_keeps_text(v: Seq<char>)
    requires
        check_slug(v) is Ok,
    ensures
        check_slug(v)->Ok_0 == v,
{
}

/// A text is accepted as a slug, unchanged, exactly when it is not empty and
/// holds only ASCII digits, ASCII letters and `-`; the empty text is `Empty`
/// and one with any other character `InvalidCharacter`.
pub proof fn law_slug_accepts_exactly(v: Seq<char>)
    ensures
        check_slug(v) is Ok <==> (v.len() > 0 && forall|i: int|
            0 <= i < v.len() ==> (48 <= (#[trigger] v[i] as u32) <= 57 || 65 <= (v[i] as u32) <= 90
                || 97 <= (v[i] as u32) <= 122 || (v[i] as u32) == 45)),
        check_slug(v) is Ok ==> check_slug(v) == Ok::<Seq<char>, SlugError>(v),
        v.len() == 0 ==> check_slug(v) == Err::<Seq<char>, SlugError>(SlugError::Empty),
        forall|i: int|
            #![trigger v[i]]
            0 <= i < v.len() && !(48 <= (v[i] as u32) <= 57 || 65 <= (v[i] as u32) <= 90 || 97 <= (
            v[i] as u32) <= 122 || (v[i] as u32) == 45) ==> check_slug(v) == Err::<
                Seq<char>,
                SlugError,
            >(SlugError::InvalidCharacter),
{
    assert forall|i: int| 0 <= i < v.len() implies (is_slug_char(#[trigger] v[i]) <==> (48 <= (
    v[i] as u32) <= 57 || 65 <= (v[i] as u32) <= 90 || 97 <= (v[i] as u32) <= 122 || (v[i] as u32)
        == 45)) by {
        law_slug_char(v[i]);
    }
}

impl View for Slug {
    type V = Seq<char>;

    closed spec fn view(&self) -> Seq<char> {
        self.0@
    }
}

/// Joins `stem`, a `-` and `token`.
fn join_hyphen(stem: &str, token: &str) -> (r: String)
    ensures
        r@ == stem@ + seq!['-'] + token@,
{
    let mut r = stem.to_owned();
    r.append("-");
    r.append(token);
    proof {
        reveal_strlit("-");
    }
    r
}

/// A tagged text splits at its last `-` into its stem and its token.
pub proof fn lemma_tagged_split(stem: Seq<char>, s: Seq<char>)
    requires
        is_tagged(stem, s),
    ensures
        before_last_hyphen(s) == stem,
        after_last_hyphen(s) == s.subrange(stem.len() as int + 1, s.len() as int),
        is_token(after_last_hyphen(s)),
{
    let j = stem.len() as int + 1;
    let t = s.subrange(j, s.len() as int);
    assert forall|k: int| j <= k < s.len() implies #[trigger] s[k] != '-' by {
        assert(s[k] == t[k - j]);
        assert(is_lower_hex(t[k - j]));
    }
    lemma_last_index_after(s, j);
    assert(s.subrange(0, stem.len() as int) == stem);
}

proof fn lemma_last_index_after(s: Seq<char>, j: int)
    requires
        1 <= j <= s.len(),
        s[j - 1] == '-',
        forall|k: int| j <= k < s.len() ==> #[trigger] s[k] != '-',
    ensures
        last_index_of(s, '-') == j - 1,
    decreases s.len() - j,
{
    if j < s.len() {
        let t = s.drop_last();
        assert forall|k: int| j <= k < t.len() implies #[trigger] t[k] != '-' by {
            assert(t[k] == s[k]);
        }
        lemma_last_index_after(t, j);
    }
}

/// A tagged text whose stem has only slug characters is a valid slug; so is
/// every slug made from a title, whose stem is slugified text.
pub proof fn lemma_tagged_is_slug(stem: Seq<char>, s: Seq<char>)
    requires
        is_tagged(stem, s),
        all_chars(stem, |c: char| is_slug_char(c)),
    ensures
        check_slug(s) == Ok::<Seq<char>, SlugError>(s),
{
    let j = stem.len() as int + 1;
    let t = s.subrange(j, s.len() as int);
    assert forall|k: int| 0 <= k < s.len() implies is_slug_char(#[trigger] s[k]) by {
        if k < stem.len() {
            assert(s[k] == s.subrange(0, stem.len() as int)[k]);
            assert(is_slug_char(stem[k]));
        } else if k > stem.len() {
            assert(s[k] == t[k - j]);
            assert(is_lower_hex(t[k - j]));
        }
    }
}

impl Slug {
    #[verifier::type_invariant]
    closed spec fn inv(self) -> bool {
        check_slug(self.0@) == Ok::<Seq<char>, SlugError>(self.0@)
    }

    /// The text of the slug; checking it again gives it back unchanged.
    pub fn as_ref(&self) -> (s: &str)
        ensures
            s@ == self@,
            check_slug(s@) == Ok::<Seq<char>, SlugError>(s@),
    {
        proof {
            use_type_invariant(self);
        }
        self.0.as_str()
    }

    /// Replaces the random token after the last `-` with a fresh one; a slug
    /// without `-` gets a `-` and a token appended. What precedes the token
    /// is kept.
    pub fn randomize(&mut self)
        ensures
            is_tagged(before_last_hyphen(old(self)@), final(self)@),
            before_last_hyphen(final(self)@) == before_last_hyphen(old(self)@),
            is_token(after_last_hyphen(final(self)@)),
    {
        proof {
            use_type_invariant(&*self);
        }
        let ghost old_text = self.0@;
        let token = random_string();
        let stem = match before_last_segment(self.0.as_str()) {
            Some(prefix) => prefix,
            None => self.0.clone(),
        };
        let next = join_hyphen(stem.as_str(), token.as_str());
        proof {
            let st = before_last_hyphen(old_text);
            assert(stem@ == st);
            assert(next@.subrange(0, st.len() as int) =~= st);
            assert(next@.subrange(st.len() as int + 1, next@.len() as int) =~= token@);
            assert(all_chars(st, |c: char| is_slug_char(c))) by {
                let k = last_index_of(old_text, '-');
                assert forall|i: int| 0 <= i < st.len() implies is_slug_char(#[trigger] st[i]) by {
                    if k >= 0 {
                        lemma_last_index_bound(old_text, '-');
                        assert(st[i] == old_text[i]);
                    }
                }
            }
            lemma_tagged_is_slug(st, next@);
            lemma_tagged_split(st, next@);
        }
        self.0 = next;
    }
}

/// Slugified text tagged with a token is a valid slug: every slug that
/// `Slug::from` makes passes `Slug::try_from`.
pub proof fn lemma_slugified_tag_is_slug(base: Seq<char>, s: Seq<char>)
    requires
        is_slugify_output(base),
        is_tagged(base, s),
    ensures
        check_slug(s) == Ok::<Seq<char>, SlugError>(s),
{
    assert(all_chars(base, |c: char| is_slug_char(c))) by {
        assert forall|i: int| 0 <= i < base.len() implies is_slug_char(#[trigger] base[i]) by {
            assert(is_slugify_output(base));
        }
    }
    lemma_tagged_is_slug(base, s);
}

proof fn lemma_last_index_bound(s: Seq<char>, c: char)
    ensures
        -1 <= last_index_of(s, c) < s.len(),
    decreases s.len(),
{
    if s.len() > 0 && s.last() != c {
        lemma_last_index_bound(s.drop_last(), c);
    }
}

impl<'a> From<&'a Title> for Slug {
    /// The slug of `value`: its slugified text, a `-` and a random token.
    fn from(value: &'a Title) -> (s: Slug)
        ensures
            is_tagged(slugified(value@), s@),
            before_last_hyphen(s@) == slugified(value@),
    {
        let base = slugify(value.as_ref());
        let token = random_string();
        let text = join_hyphen(base.as_str(), token.as_str());
        proof {
            let b = base@;
            assert(text@.subrange(0, b.len() as int) =~= b);
            assert(text@.subrange(b.len() as int + 1, text@.len() as int) =~= token@);
            lemma_slugified_tag_is_slug(b, text@);
            lemma_tagged_split(b, text@);
        }
        Slug(text)
    }
}

impl<'a> vstd::std_specs::convert::FromSpecImpl<&'a Title> for Slug {
    /// The slug ends in a random token, so `from` is no function of its argument.
    open spec fn obeys_from_spec() -> bool {
        false
    }

    open spec fn from_spec(v: &'a Title) -> Slug {
        choose|s: Slug| is_tagged(slugified(v@), s@)
    }
}

impl TryFrom<String> for Slug {
    type Error = SlugError;

    fn try_from(value: String) -> (r: Result<Slug, SlugError>)
        ensures
            match r {
                Ok(s) => check_slug(value@) == Ok::<Seq<char>, SlugError>(s@),
                Err(e) => check_slug(value@) == Err::<Seq<char>, SlugError>(e),
            },
    {
        if value.as_str().is_empty() {
            return Err(SlugError::Empty);
        }
        if !all_slug_chars(value.as_str()) {
            return Err(SlugError::InvalidCharacter);
        }
        Ok(Slug(value))
    }
}

impl vstd::std_specs::convert::TryFromSpecImpl<String> for Slug {
    /// A slug holds a `String`, whose spec equality Verus cannot decide from
    /// its characters; callers go by the `ensures` of `try_from` instead.
    open spec fn obeys_try_from_spec() -> bool {
        false
    }

    open spec fn try_from_spec(v: String) -> Result<Slug, SlugError> {
        match check_slug(v@) {
            Ok(t) => Ok(choose|x: Slug| x@ == t),
            Err(e) => Err(e),
        }
    }
}

impl AsRef<str> for Slug {
    fn as_ref(&self) -> (s: &str)
        ensures
            s@ == self@,
    {
        Slug::as_ref(self)
    }
}

} // verus!
