use crate::text::{all_white_space, lemma_trimmed_idempotent, lemma_trimmed_shape, trim, trimmed};
use vstd::prelude::*;

verus! {

/// The body of a post: trimmed and not empty.
pub struct Content(String);

/// Why a text was refused as post content.
#[derive(Debug, Clone, Copy, PartialEq, Eq, Structural)]
pub enum ContentError {
    Empty,
}

/// What `Content::try_from` makes of the text `v`: the trimmed text, unless
/// nothing is left of it.
pub open spec fn check_content(v: Seq<char>) -> Result<Seq<char>, ContentError> {
    let t = trimmed(v);
    if t.len() == 0 {
        Err(ContentError::Empty)
    } else {
        Ok(t)
    }
}

/// Checking the text that the content check kept gives that text back.
pub proof fn lemma_check_content_idempotent(v: Seq<char>)
    requires
        check_content(v) is Ok,
    ensures
        check_content(check_content(v)->Ok_0) == check_content(v),
{
    lemma_trimmed_idempotent(v);
}

/// Content is refused only when nothing but white space is given; every other
/// text, of any length and with any characters, is accepted as its trimmed form.
pub proof fn law_content_accepts_non_blank(v: Seq<char>)
    ensures
        all_white_space(v) ==> check_content(v) == Err::<Seq<char>, ContentError>(
            ContentError::Empty,
        ),
        !all_white_space(v) ==> check_content(v) == Ok::<Seq<char>, ContentError>(trimmed(v)),
        trimmed(v).len() > 0 ==> check_content(v) == Ok::<Seq<char>, ContentError>(trimmed(v)),
{
    lemma_trimmed_shape(v);
}

impl View for Content {
    type V = Seq<char>;

    closed spec fn view(&self) -> Seq<char> {
        self.0@
    }
}

impl Content {
    #[verifier::type_invariant]
    closed spec fn inv(self) -> bool {
        check_content(self.0@) == Ok::<Seq<char>, ContentError>(self.0@)
    }

    /// The text of the content; checking it again gives it back unchanged.
    pub fn as_ref(&self) -> (s: &str)
        ensures
            s@ == self@,
            check_content(s@) == Ok::<Seq<char>, ContentError>(s@),
    {
        proof {
            use_type_invariant(self);
        }
        self.0.as_str()
    }
}

impl AsRef<str> for Content {
    fn as_ref(&self) -> (s: &str)
        ensures
            s@ == self@,
    {
        Content::as_ref(self)
    }
}

impl TryFrom<String> for Content {
    type Error = ContentError;

    fn try_from(value: String) -> (r: Result<Content, ContentError>)
        ensures
            match r {
                Ok(c) => check_content(value@) == Ok::<Seq<char>, ContentError>(c@),
                Err(e) => check_content(value@) == Err::<Seq<char>, ContentError>(e),
            },
    {
        let ghost v = value@;
        let value = trim(value.as_str());
        if value.as_str().is_empty() {
            return Err(ContentError::Empty);
        }
        proof {
            lemma_trimmed_idempotent(v);
        }
        Ok(Content(value))
    }
}

impl vstd::std_specs::convert::TryFromSpecImpl<String> for Content {
    /// Content holds a `String`, whose spec equality Verus cannot decide from
    /// its characters; callers go by the `ensures` of `try_from` instead.
    open spec fn obeys_try_from_spec() -> bool {
        false
    }

    open spec fn try_from_spec(v: String) -> Result<Content, ContentError> {
        match check_content(v@) {
            Ok(t) => Ok(choose|x: Content| x@ == t),
            Err(e) => Err(e),
        }
    }
}

} // verus!
