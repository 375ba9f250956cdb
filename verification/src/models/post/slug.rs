use crate::domain::post::title::Title;
use crate::text::{slugified, slugify};
use crate::utils::{is_token, random_string};
use vstd::prelude::*;

verus! {

/// A post slug kept in its two parts: the slugified title and a random token.
pub struct Slug {
    base: String,
    random: String,
}

impl View for Slug {
    /// The slugified title and the token.
    type V = (Seq<char>, Seq<char>);

    closed spec fn view(&self) -> (Seq<char>, Seq<char>) {
        (self.base@, self.random@)
    }
}

impl Slug {
    /// Draws a fresh random token; the slugified title stays.
    pub fn randomize(&mut self)
        ensures
            final(self)@.0 == old(self)@.0,
            is_token(final(self)@.1),
    {
        self.random = random_string();
    }

    /// The slug as one text: the slugified title, a `-` and the token.
    pub fn to_string(&self) -> (s: String)
        ensures
            s@ == self@.0 + seq!['-'] + self@.1,
    {
        let mut s = self.base.clone();
        s.append("-");
        s.append(self.random.as_str());
        proof {
            reveal_strlit("-");
        }
        s
    }
}

impl<'a> From<&'a Title> for Slug {
    /// The slug of `value`: its slugified text and a random token.
    fn from(value: &'a Title) -> (s: Slug)
        ensures
            s@.0 == slugified(value@),
            is_token(s@.1),
    {
        Slug { base: slugify(value.as_ref()), random: random_string() }
    }
}

impl<'a> vstd::std_specs::convert::FromSpecImpl<&'a Title> for Slug {
    /// The token is random, so `from` is no function of its argument.
    open spec fn obeys_from_spec() -> bool {
        false
    }

    open spec fn from_spec(v: &'a Title) -> Slug {
        choose|s: Slug| s@.0 == slugified(v@) && is_token(s@.1)
    }
}

} // verus!
