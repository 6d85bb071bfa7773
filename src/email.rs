use vstd::prelude::*;

use crate::error::ValidationError;

verus! {

/// An email address is accepted exactly when it holds an `@`.
pub open spec fn is_valid_email(s: Seq<char>) -> bool {
    s.contains('@')
}

/// What parsing `s` as an email yields, stated over text.
pub open spec fn email_outcome(s: Seq<char>) -> Result<Seq<char>, ValidationError> {
    if is_valid_email(s) {
        Ok(s)
    } else {
        Err(ValidationError::InvalidEmailFormat)
    }
}

/// A validated email address. It can only be built by `Email::parse`, so its
/// text always holds an `@`.
#[derive(Debug, Hash)]
pub struct Email {
    email: String,
}

impl View for Email {
    type V = Seq<char>;

    closed spec fn view(&self) -> Seq<char> {
        self.email@
    }
}

impl Email {
    #[verifier::type_invariant]
    spec fn inv(self) -> bool {
        is_valid_email(self.email@)
    }

    /// Accepts `email` unchanged when it holds an `@`.
    pub fn parse(email: String) -> (r: Result<Email, ValidationError>)
        ensures
            match r {
                Ok(e) => email_outcome(email@) == Ok::<Seq<char>, ValidationError>(e@),
                Err(err) => email_outcome(email@) == Err::<Seq<char>, ValidationError>(err),
            },
    {
        let s = email.as_str();
        let n = s.unicode_len();
        let mut i: usize = 0;
        while i < n
            invariant
                n == s@.len(),
                s@ == email@,
                0 <= i <= n,
                forall|j: int| 0 <= j < i ==> s@[j] != '@',
            decreases n - i,
        {
            if s.get_char(i) == '@' {
                return Ok(Email { email });
            }
            i = i + 1;
        }
        Err(ValidationError::InvalidEmailFormat)
    }

    /// The text of the address, which is always a valid email.
    pub fn as_str(&self) -> (r: &str)
        ensures
            r@ == self@,
            is_valid_email(r@),
    {
        proof {
            use_type_invariant(self);
        }
        self.email.as_str()
    }
}

impl PartialEq for Email {
    fn eq(&self, other: &Email) -> (r: bool)
        ensures
            r == (self@ == other@),
    {
        self.email == other.email
    }
}

impl vstd::std_specs::cmp::PartialEqSpecImpl for Email {
    open spec fn obeys_eq_spec() -> bool {
        true
    }

    open spec fn eq_spec(&self, other: &Email) -> bool {
        self@ == other@
    }
}

impl Eq for Email {
}

impl Clone for Email {
    fn clone(&self) -> (r: Email)
        ensures
            r@ == self@,
    {
        proof {
            use_type_invariant(self);
        }
        Email { email: self.email.clone() }
    }
}

impl AsRef<str> for Email {
    fn as_ref(&self) -> (r: &str)
        ensures
            r@ == self@,
            is_valid_email(r@),
    {
        self.as_str()
    }
}

/// Parsing a valid address and reading its text back gives the address itself,
/// and parsing that text again gives the same outcome.
pub proof fn lemma_email_round_trip(s: Seq<char>)
    requires
        is_valid_email(s),
    ensures
        email_outcome(s) == Ok::<Seq<char>, ValidationError>(s),
        email_outcome(email_outcome(s)->Ok_0) == email_outcome(s),
{
}


} // verus!
