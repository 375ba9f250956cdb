use crate::text::{
    all_chars, all_username_chars, count_graphemes, grapheme_count, is_username_char,
    law_username_char, trim, trimmed,
};
use vstd::prelude::*;

verus! {

/// The most grapheme clusters a user name may hold.
pub const USERNAME_MAX_GRAPHEMES: usize = 64;

/// A user name: not only white space, at most 64 grapheme clusters, only
/// ASCII letters, digits and `_`.
#[derive(Debug)]
pub struct Username(String);

/// Why a text was refused as a user name.
#[derive(Debug, Clone, Copy, PartialEq, Eq, Structural)]
pub enum UsernameError {
    Empty,
    LengthExceeded,
    InvalidCharacters,
}

/// What `Username::try_from` makes of the text `v`: `v` itself, or the first
/// check it fails.
pub open spec fn check_username(v: Seq<char>) -> Result<Seq<char>, UsernameError> {
    if trimmed(v).len() == 0 {
        Err(UsernameError::Empty)
    } else if grapheme_count(v) > USERNAME_MAX_GRAPHEMES {
        Err(UsernameError::LengthExceeded)
    } else if !all_chars(v, |c: char| is_username_char(c)) {
        Err(UsernameError::InvalidCharacters)
    } else {
        Ok(v)
    }
}

/// A user name is accepted as it was typed: the check keeps the text whole.
pub proof fn lemma_check_username_keeps_text(v: Seq<char>)
    requires
        check_username(v) is Ok,
    ensures
        check_username(v)->Ok_0 == v,
{
}

/// A user name is accepted, unchanged, exactly when it is not blank, has at
/// most 64 grapheme clusters and holds only ASCII digits, ASCII letters and
/// `_`; a blank text is `Empty`, a longer one `LengthExceeded`, and one with
/// any other character `InvalidCharacters`.
pub proof fn law_username_accepts_exactly(v: Seq<char>)
    ensures
        check_username(v) is Ok <==> (trimmed(v).len() > 0 && grapheme_count(v) <= 64 && forall|
            i: int,
        |
            0 <= i < v.len() ==> (48 <= (#[trigger] v[i] as u32) <= 57 || 65 <= (v[i] as u32) <= 90
                || 97 <= (v[i] as u32) <= 122 || (v[i] as u32) == 95)),
        check_username(v) is Ok ==> check_username(v) == Ok::<Seq<char>, UsernameError>(v),
        trimmed(v).len() == 0 ==> check_username(v) == Err::<Seq<char>, UsernameError>(
            UsernameError::Empty,
        ),
        trimmed(v).len() > 0 && grapheme_count(v) > 64 ==> check_username(v) == Err::<
            Seq<char>,
            UsernameError,
        >(UsernameError::LengthExceeded),
        forall|i: int|
            #![trigger v[i]]
            0 <= i < v.len() && trimmed(v).len() > 0 && grapheme_count(v) <= 64 && !(48 <= (
            v[i] as u32) <= 57 || 65 <= (v[i] as u32) <= 90 || 97 <= (v[i] as u32) <= 122 || (
            v[i] as u32) == 95) ==> check_username(v) == Err::<Seq<char>, UsernameError>(
                UsernameError::InvalidCharacters,
            ),
{
    assert forall|i: int| 0 <= i < v.len() implies (is_username_char(#[trigger] v[i]) <==> (48
        <= (v[i] as u32) <= 57 || 65 <= (v[i] as u32) <= 90 || 97 <= (v[i] as u32) <= 122 || (
    v[i] as u32) == 95)) by {
        law_username_char(v[i]);
    }
}

impl View for Username {
    type V = Seq<char>;

    closed spec fn view(&self) -> Seq<char> {
        self.0@
    }
}

impl Username {
    #[verifier::type_invariant]
    closed spec fn inv(self) -> bool {
        check_username(self.0@) == Ok::<Seq<char>, UsernameError>(self.0@)
    }

    /// The text of the user name; checking it again gives it back unchanged.
    pub fn as_ref(&self) -> (s: &str)
        ensures
            s@ == self@,
            check_username(s@) == Ok::<Seq<char>, UsernameError>(s@),
    {
        proof {
            use_type_invariant(self);
        }
        self.0.as_str()
    }
}

impl AsRef<str> for Username {
    fn as_ref(&self) -> (s: &str)
        ensures
            s@ == self@,
    {
        Username::as_ref(self)
    }
}

impl TryFrom<String> for Username {
    type Error = UsernameError;

    fn try_from(value: String) -> (r: Result<Username, UsernameError>)
        ensures
            match r {
                Ok(u) => check_username(value@) == Ok::<Seq<char>, UsernameError>(u@),
                Err(e) => check_username(value@) == Err::<Seq<char>, UsernameError>(e),
            },
    {
        if trim(value.as_str()).as_str().is_empty() {
            return Err(UsernameError::Empty);
        }
        if count_graphemes(value.as_str()) > USERNAME_MAX_GRAPHEMES {
            return Err(UsernameError::LengthExceeded);
        }
        if !all_username_chars(value.as_str()) {
            return Err(UsernameError::InvalidCharacters);
        }
        Ok(Username(value))
    }
}

impl vstd::std_specs::convert::TryFromSpecImpl<String> for Username {
    /// A user name holds a `String`, whose spec equality Verus cannot decide
    /// from its characters; callers go by the `ensures` of `try_from` instead.
    open spec fn obeys_try_from_spec() -> bool {
        false
    }

    open spec fn try_from_spec(v: String) -> Result<Username, UsernameError> {
        match check_username(v@) {
            Ok(t) => Ok(choose|x: Username| x@ == t),
            Err(e) => Err(e),
        }
    }
}

} // verus!
