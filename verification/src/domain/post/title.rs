use crate::text::{count_graphemes, grapheme_count, lemma_trimmed_idempotent, trim, trimmed};
use vstd::prelude::*;

verus! {

/// The most grapheme clusters a title may hold.
pub const TITLE_MAX_GRAPHEMES: usize = 128;

/// The title of a post: trimmed, not empty, at most 128 grapheme clusters.
#[derive(Debug)]
pub struct Title(String);

/// Why a text was refused as a title.
#[derive(Debug, Clone, Copy, PartialEq, Eq, Structural)]
pub enum TitleError {
    Empty,
    LengthExceeded,
}

/// What `Title::try_from` makes of the text `v`: the trimmed text, or the
/// first check it fails.
pub open spec fn check_title(v: Seq<char>) -> Result<Seq<char>, TitleError> {
    let t = trimmed(v);
    if t.len() == 0 {
        Err(TitleError::Empty)
    } else if grapheme_count(t) > TITLE_MAX_GRAPHEMES {
        Err(TitleError::LengthExceeded)
    } else {
        Ok(t)
    }
}

/// Checking the text that the title check kept gives that text back: a
/// title's text is itself a valid title.
pub proof fn lemma_check_title_idempotent(v: Seq<char>)
    requires
        check_title(v) is Ok,
    ensures
        check_title(check_title(v)->Ok_0) == check_title(v),
{
    lemma_trimmed_idempotent(v);
}

/// A title is decided by its trimmed text alone: refused as empty when that is
/// empty, refused as too long when it has more than 128 grapheme clusters, and
/// otherwise accepted as that trimmed text, whatever its characters.
pub proof fn law_title_accepts_short_non_blank(v: Seq<char>)
    ensures
        trimmed(v).len() == 0 ==> check_title(v) == Err::<Seq<char>, TitleError>(
            TitleError::Empty,
        ),
        trimmed(v).len() > 0 && grapheme_count(trimmed(v)) > 128 ==> check_title(v) == Err::<
            Seq<char>,
            TitleError,
        >(TitleError::LengthExceeded),
        trimmed(v).len() > 0 && grapheme_count(trimmed(v)) <= 128 ==> check_title(v) == Ok::<
            Seq<char>,
            TitleError,
        >(trimmed(v)),
{
}

impl View for Title {
    type V = Seq<char>;

    closed spec fn view(&self) -> Seq<char> {
        self.0@
    }
}

impl Title {
    #[verifier::type_invariant]
    closed spec fn inv(self) -> bool {
        check_title(self.0@) == Ok::<Seq<char>, TitleError>(self.0@)
    }

    /// The text of the title; checking it again gives it back unchanged.
    pub fn as_ref(&self) -> (s: &str)
        ensures
            s@ == self@,
            check_title(s@) == Ok::<Seq<char>, TitleError>(s@),
    {
        proof {
            use_type_invariant(self);
        }
        self.0.as_str()
    }
}

impl AsRef<str> for Title {
    fn as_ref(&self) -> (s: &str)
        ensures
            s@ == self@,
    {
        Title::as_ref(self)
    }
}

impl TryFrom<String> for Title {
    type Error = TitleError;

    fn try_from(value: String) -> (r: Result<Title, TitleError>)
        ensures
            match r {
                Ok(t) => check_title(value@) == Ok::<Seq<char>, TitleError>(t@),
                Err(e) => check_title(value@) == Err::<Seq<char>, TitleError>(e),
            },
    {
        let ghost v = value@;
        let value = trim(value.as_str());
        if value.as_str().is_empty() {
            return Err(TitleError::Empty);
        }
        if count_graphemes(value.as_str()) > TITLE_MAX_GRAPHEMES {
            return Err(TitleError::LengthExceeded);
        }
        proof {
            lemma_trimmed_idempotent(v);
        }
        Ok(Title(value))
    }
}

impl vstd::std_specs::convert::TryFromSpecImpl<String> for Title {
    /// A title holds a `String`, whose spec equality Verus cannot decide from
    /// its characters; callers go by the `ensures` of `try_from` instead.
    open spec fn obeys_try_from_spec() -> bool {
        false
    }

    open spec fn try_from_spec(v: String) -> Result<Title, TitleError> {
        match check_title(v@) {
            Ok(t) => Ok(choose|x: Title| x@ == t),
            Err(e) => Err(e),
        }
    }
}

} // verus!
