use crate::text::{count_graphemes, grapheme_count, lemma_trimmed_idempotent, trim, trimmed};
use vstd::prelude::*;

verus! {

/// The most grapheme clusters a display name may hold.
pub const DISPLAY_NAME_MAX_GRAPHEMES: usize = 64;

/// The name a user shows: trimmed, not empty, at most 64 grapheme clusters.
pub struct DisplayName(String);

/// Why a text was refused as a display name.
#[derive(Debug, Clone, Copy, PartialEq, Eq, Structural)]
pub enum DisplayNameError {
    Empty,
    LengthExceeded,
}

/// What `DisplayName::try_from` makes of the text `v`: the trimmed text, or
/// the first check it fails.
pub open spec fn check_display_name(v: Seq<char>) -> Result<Seq<char>, DisplayNameError> {
    let t = trimmed(v);
    if t.len() == 0 {
        Err(DisplayNameError::Empty)
    } else if grapheme_count(t) > DISPLAY_NAME_MAX_GRAPHEMES {
        Err(DisplayNameError::LengthExceeded)
    } else {
        Ok(t)
    }
}

/// Checking the text that the display-name check kept gives that text back.
pub proof fn lemma_check_display_name_idempotent(v: Seq<char>)
    requires
        check_display_name(v) is Ok,
    ensures
        check_display_name(check_display_name(v)->Ok_0) == check_display_name(v),
{
    lemma_trimmed_idempotent(v);
}

/// A display name is decided by its trimmed text alone: refused as empty when
/// that is empty, refused as too long when it has more than 64 grapheme
/// clusters, and otherwise accepted as that trimmed text, whatever its
/// characters.
pub proof fn law_display_name_accepts_short_non_blank(v: Seq<char>)
    ensures
        trimmed(v).len() == 0 ==> check_display_name(v) == Err::<Seq<char>, DisplayNameError>(
            DisplayNameError::Empty,
        ),
        trimmed(v).len() > 0 && grapheme_count(trimmed(v)) > 64 ==> check_display_name(v)
            == Err::<Seq<char>, DisplayNameError>(DisplayNameError::LengthExceeded),
        trimmed(v).len() > 0 && grapheme_count(trimmed(v)) <= 64 ==> check_display_name(v)
            == Ok::<Seq<char>, DisplayNameError>(trimmed(v)),
{
}

impl View for DisplayName {
    type V = Seq<char>;

    closed spec fn view(&self) -> Seq<char> {
        self.0@
    }
}

impl DisplayName {
    #[verifier::type_invariant]
    closed spec fn inv(self) -> bool {
        check_display_name(self.0@) == Ok::<Seq<char>, DisplayNameError>(self.0@)
    }

    /// The text of the display name; checking it again gives it back unchanged.
    pub fn as_ref(&self) -> (s: &str)
        ensures
            s@ == self@,
            check_display_name(s@) == Ok::<Seq<char>, DisplayNameError>(s@),
    {
        proof {
            use_type_invariant(self);
        }
        self.0.as_str()
    }
}

impl AsRef<str> for DisplayName {
    fn as_ref(&self) -> (s: &str)
        ensures
            s@ == self@,
    {
        DisplayName::as_ref(self)
    }
}

impl TryFrom<String> for DisplayName {
    type Error = DisplayNameError;

    fn try_from(value: String) -> (r: Result<DisplayName, DisplayNameError>)
        ensures
            match r {
                Ok(d) => check_display_name(value@) == Ok::<Seq<char>, DisplayNameError>(d@),
                Err(e) => check_display_name(value@) == Err::<Seq<char>, DisplayNameError>(e),
            },
    {
        let ghost v = value@;
        let value = trim(value.as_str());
        if value.as_str().is_empty() {
            return Err(DisplayNameError::Empty);
        }
        if count_graphemes(value.as_str()) > DISPLAY_NAME_MAX_GRAPHEMES {
            return Err(DisplayNameError::LengthExceeded);
        }
        proof {
            lemma_trimmed_idempotent(v);
        }
        Ok(DisplayName(value))
    }
}

impl vstd::std_specs::convert::TryFromSpecImpl<String> for DisplayName {
    /// A display name holds a `String`, whose spec equality Verus cannot decide
    /// from its characters; callers go by the `ensures` of `try_from` instead.
    open spec fn obeys_try_from_spec() -> bool {
        false
    }

    open spec fn try_from_spec(v: String) -> Result<DisplayName, DisplayNameError> {
        match check_display_name(v@) {
            Ok(t) => Ok(choose|x: DisplayName| x@ == t),
            Err(e) => Err(e),
        }
    }
}

} // verus!
