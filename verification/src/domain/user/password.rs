use crate::text::{count_graphemes, grapheme_count, trim, trimmed};
use vstd::prelude::*;
use vstd::utf8::encode_utf8;

verus! {

/// The fewest grapheme clusters a password may hold.
pub const PASSWORD_MIN_GRAPHEMES: usize = 8;

/// The most grapheme clusters a password may hold.
pub const PASSWORD_MAX_GRAPHEMES: usize = 128;

/// A password as the user typed it: not only white space, and 8 to 128
/// grapheme clusters long.
pub struct Password(String);

/// Why a text was refused as a password.
#[derive(Debug, Clone, Copy, PartialEq, Eq, Structural)]
pub enum PasswordError {
    Empty,
    LengthTooShort,
    LengthExceeded,
}

/// What `Password::try_from` makes of the text `v`: `v` itself, or the first
/// check it fails.
pub open spec fn check_password_text(v: Seq<char>) -> Result<Seq<char>, PasswordError> {
    if trimmed(v).len() == 0 {
        Err(PasswordError::Empty)
    } else if grapheme_count(v) < PASSWORD_MIN_GRAPHEMES {
        Err(PasswordError::LengthTooShort)
    } else if grapheme_count(v) > PASSWORD_MAX_GRAPHEMES {
        Err(PasswordError::LengthExceeded)
    } else {
        Ok(v)
    }
}

/// A password is accepted as it was typed: the check keeps the text whole.
pub proof fn lemma_check_password_keeps_text(v: Seq<char>)
    requires
        check_password_text(v) is Ok,
    ensures
        check_password_text(v)->Ok_0 == v,
{
}

/// A password is accepted, unchanged, exactly when it is not blank and has 8
/// to 128 grapheme clusters, whatever its characters; a blank text is
/// `Empty`, a shorter one `LengthTooShort`, a longer one `LengthExceeded`.
pub proof fn law_password_accepts_exactly(v: Seq<char>)
    ensures
        trimmed(v).len() == 0 ==> check_password_text(v) == Err::<Seq<char>, PasswordError>(
            PasswordError::Empty,
        ),
        trimmed(v).len() > 0 && grapheme_count(v) < 8 ==> check_password_text(v) == Err::<
            Seq<char>,
            PasswordError,
        >(PasswordError::LengthTooShort),
        trimmed(v).len() > 0 && grapheme_count(v) > 128 ==> check_password_text(v) == Err::<
            Seq<char>,
            PasswordError,
        >(PasswordError::LengthExceeded),
        trimmed(v).len() > 0 && 8 <= grapheme_count(v) <= 128 ==> check_password_text(v) == Ok::<
            Seq<char>,
            PasswordError,
        >(v),
{
}

impl View for Password {
    type V = Seq<char>;

    closed spec fn view(&self) -> Seq<char> {
        self.0@
    }
}

impl Password {
    #[verifier::type_invariant]
    closed spec fn inv(self) -> bool {
        check_password_text(self.0@) == Ok::<Seq<char>, PasswordError>(self.0@)
    }

    /// The UTF-8 bytes of the password.
    pub fn as_bytes(&self) -> (b: &[u8])
        ensures
            b@ == encode_utf8(self@),
            check_password_text(self@) == Ok::<Seq<char>, PasswordError>(self@),
    {
        proof {
            use_type_invariant(self);
        }
        self.0.as_str().as_bytes()
    }
}

impl TryFrom<String> for Password {
    type Error = PasswordError;

    fn try_from(value: String) -> (r: Result<Password, PasswordError>)
        ensures
            match r {
                Ok(p) => check_password_text(value@) == Ok::<Seq<char>, PasswordError>(p@),
                Err(e) => check_password_text(value@) == Err::<Seq<char>, PasswordError>(e),
            },
    {
        if trim(value.as_str()).as_str().is_empty() {
            return Err(PasswordError::Empty);
        }
        let n = count_graphemes(value.as_str());
        if n < PASSWORD_MIN_GRAPHEMES {
            return Err(PasswordError::LengthTooShort);
        }
        if n > PASSWORD_MAX_GRAPHEMES {
            return Err(PasswordError::LengthExceeded);
        }
        Ok(Password(value))
    }
}

impl vstd::std_specs::convert::TryFromSpecImpl<String> for Password {
    /// A password holds a `String`, whose spec equality Verus cannot decide
    /// from its characters; callers go by the `ensures` of `try_from` instead.
    open spec fn obeys_try_from_spec() -> bool {
        false
    }

    open spec fn try_from_spec(v: String) -> Result<Password, PasswordError> {
        match check_password_text(v@) {
            Ok(t) => Ok(choose|x: Password| x@ == t),
            Err(e) => Err(e),
        }
    }
}

} // verus!
