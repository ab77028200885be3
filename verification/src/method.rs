//! The HTTP methods that the proxy forwards.

use crate::text::{
    ascii_uppercase, law_uppercase_ignores_ascii_case, lemma_ascii_case_variants,
    same_ignoring_ascii_case, to_uppercase, uppercase,
};
use vstd::prelude::*;
use vstd::utf8::is_ascii_chars;

verus! {

/// One of the four methods the backend is called with.
#[derive(Clone, Copy, Debug, PartialEq, Eq, Structural)]
pub enum HttpMethod {
    Get,
    Post,
    Put,
    Delete,
}

impl HttpMethod {
    /// The method's canonical, upper-case name.
    pub open spec fn name(self) -> Seq<char> {
        match self {
            HttpMethod::Get => "GET"@,
            HttpMethod::Post => "POST"@,
            HttpMethod::Put => "PUT"@,
            HttpMethod::Delete => "DELETE"@,
        }
    }

    /// The method whose canonical name is exactly `upper`, if there is one.
    pub open spec fn of_upper(upper: Seq<char>) -> Option<HttpMethod> {
        if upper == "GET"@ {
            Some(HttpMethod::Get)
        } else if upper == "POST"@ {
            Some(HttpMethod::Post)
        } else if upper == "PUT"@ {
            Some(HttpMethod::Put)
        } else if upper == "DELETE"@ {
            Some(HttpMethod::Delete)
        } else {
            None
        }
    }

    /// The method that `text` names in any letter case, if there is one.
    pub open spec fn of_text(text: Seq<char>) -> Option<HttpMethod> {
        Self::of_upper(uppercase(text))
    }

    /// The canonical name, as sent on the wire.
    pub fn as_str(&self) -> (r: &'static str)
        ensures
            r@ == self.name(),
    {
        match self {
            HttpMethod::Get => "GET",
            HttpMethod::Post => "POST",
            HttpMethod::Put => "PUT",
            HttpMethod::Delete => "DELETE",
        }
    }

    /// Matches text that is already upper-cased against the four names.
    pub fn from_upper(upper: &str) -> (r: Option<HttpMethod>)
        ensures
            r == Self::of_upper(upper@),
    {
        let text = upper.to_owned();
        if text == "GET".to_owned() {
            Some(HttpMethod::Get)
        } else if text == "POST".to_owned() {
            Some(HttpMethod::Post)
        } else if text == "PUT".to_owned() {
            Some(HttpMethod::Put)
        } else if text == "DELETE".to_owned() {
            Some(HttpMethod::Delete)
        } else {
            None
        }
    }

    /// Reads a method name in any letter case.
    ///
    /// Returns the method exactly when the upper-cased text is one of `GET`,
    /// `POST`, `PUT`, `DELETE`; any other text gives `None`.
    pub fn parse(text: &str) -> (r: Option<HttpMethod>)
        ensures
            r == Self::of_text(text@),
    {
        let upper = to_uppercase(text);
        Self::from_upper(upper.as_str())
    }
}

/// What the four canonical names are made of.
proof fn lemma_names(m: HttpMethod)
    ensures
        "GET"@ == seq!['G', 'E', 'T'],
        "POST"@ == seq!['P', 'O', 'S', 'T'],
        "PUT"@ == seq!['P', 'U', 'T'],
        "DELETE"@ == seq!['D', 'E', 'L', 'E', 'T', 'E'],
        is_ascii_chars(m.name()),
        ascii_uppercase(m.name()) == m.name(),
{
    reveal_strlit("GET");
    reveal_strlit("POST");
    reveal_strlit("PUT");
    reveal_strlit("DELETE");
    assert("GET"@ =~= seq!['G', 'E', 'T']);
    assert("POST"@ =~= seq!['P', 'O', 'S', 'T']);
    assert("PUT"@ =~= seq!['P', 'U', 'T']);
    assert("DELETE"@ =~= seq!['D', 'E', 'L', 'E', 'T', 'E']);
    assert(ascii_uppercase(m.name()) =~= m.name());
}

/// A text is matched as a method exactly when it is that method's canonical
/// name; in particular the four names are pairwise different and each is
/// recognised as itself.
pub proof fn law_canonical_names(upper: Seq<char>, m: HttpMethod)
    ensures
        HttpMethod::of_upper(upper) == Some(m) <==> upper == m.name(),
        HttpMethod::of_upper(m.name()) == Some(m),
        HttpMethod::of_text(m.name()) == Some(m),
{
    lemma_names(m);
    assert("GET"@.len() == 3 && "PUT"@.len() == 3 && "POST"@.len() == 4 && "DELETE"@.len() == 6);
    assert("GET"@[0] == 'G' && "PUT"@[0] == 'P');
}

/// A method name is accepted in every letter case: a text that differs from
/// a canonical name only in the case of its letters names that method. For
/// ASCII text nothing else is accepted.
pub proof fn law_any_letter_case_is_accepted(text: Seq<char>, m: HttpMethod)
    ensures
        same_ignoring_ascii_case(text, m.name()) ==> HttpMethod::of_text(text) == Some(m),
        is_ascii_chars(text) && HttpMethod::of_text(text) == Some(m) ==> same_ignoring_ascii_case(
            text,
            m.name(),
        ),
{
    lemma_names(m);
    law_canonical_names(ascii_uppercase(text), m);
    lemma_ascii_case_variants(text, m.name());
    if same_ignoring_ascii_case(text, m.name()) {
        assert forall|i: int| 0 <= i < text.len() implies '\0' <= #[trigger] text[i]
            <= '\u{7f}' by {
            assert(m.name()[i] <= '\u{7f}');
        }
    }
}

/// Validation does not depend on letter case: two texts with the same
/// upper-case form are dispatched alike, and so are two ASCII texts that
/// differ only in the case of their letters.
pub proof fn law_letter_case_is_immaterial(a: Seq<char>, b: Seq<char>)
    ensures
        uppercase(a) == uppercase(b) ==> HttpMethod::of_text(a) == HttpMethod::of_text(b),
        is_ascii_chars(a) && is_ascii_chars(b) && same_ignoring_ascii_case(a, b)
            ==> HttpMethod::of_text(a) == HttpMethod::of_text(b),
{
    law_uppercase_ignores_ascii_case(a, b);
}

} // verus!
