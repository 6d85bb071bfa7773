use vstd::prelude::*;

use crate::error::ValidationError;

verus! {

/// Fewest characters a password may have once surrounding whitespace is removed.
pub const MIN_PASSWORD_LEN: usize = 8;

/// The text `s` with leading and trailing Unicode whitespace removed.
pub uninterp spec fn trimmed_of(s: Seq<char>) -> Seq<char>;

/// A password is accepted exactly when its trimmed text has at least
/// `MIN_PASSWORD_LEN` characters.
pub open spec fn is_valid_password(s: Seq<char>) -> bool {
    trimmed_of(s).len() >= MIN_PASSWORD_LEN
}

/// What parsing `s` as a password yields, stated over text.
pub open spec fn password_outcome(s: Seq<char>) -> Result<Seq<char>, ValidationError> {
    if is_valid_password(s) {
        Ok(s)
    } else {
        Err(ValidationError::PasswordTooShort)
    }
}

/// Relies on str::trim: the slice without leading and trailing whitespace,
/// which depends on the characters of `s` alone. Being a slice of `s`, it is
/// no longer than `s`.
#[verifier::external_body]
fn trim(s: &str) -> (r: &str)
    ensures
        r@ == trimmed_of(s@),
        r@.len() <= s@.len(),
{
    s.trim()
}

/// Whether already trimmed text is long enough for a password.
pub fn meets_min_length(trimmed: &str) -> (r: bool)
    ensures
        r == (trimmed@.len() >= MIN_PASSWORD_LEN),
{
    trimmed.unicode_len() >= MIN_PASSWORD_LEN
}

/// A validated password. It can only be built by `Password::parse`, so its
/// trimmed text always has at least `MIN_PASSWORD_LEN` characters. The text is kept
/// as given, untrimmed.
#[derive(Debug, Hash)]
pub struct Password {
    password: String,
}

impl View for Password {
    type V = Seq<char>;

    closed spec fn view(&self) -> Seq<char> {
        self.password@
    }
}

impl Password {
    #[verifier::type_invariant]
    spec fn inv(self) -> bool {
        is_valid_password(self.password@)
    }

    /// Accepts `password` unchanged when its trimmed text is long enough.
    pub fn parse(password: String) -> (r: Result<Password, ValidationError>)
        ensures
            match r {
                Ok(p) => password_outcome(password@) == Ok::<Seq<char>, ValidationError>(p@),
                Err(err) => password_outcome(password@) == Err::<Seq<char>, ValidationError>(err),
            },
            password@.len() < MIN_PASSWORD_LEN ==> r == Err::<Password, ValidationError>(
                ValidationError::PasswordTooShort,
            ),
    {
        if !meets_min_length(trim(password.as_str())) {
            return Err(ValidationError::PasswordTooShort);
        }
        Ok(Password { password })
    }

    /// The text of the password, which is always a valid password.
    pub fn as_str(&self) -> (r: &str)
        ensures
            r@ == self@,
            is_valid_password(r@),
    {
        proof {
            use_type_invariant(self);
        }
        self.password.as_str()
    }
}

impl PartialEq for Password {
    fn eq(&self, other: &Password) -> (r: bool)
        ensures
            r == (self@ == other@),
    {
        self.password == other.password
    }
}

impl vstd::std_specs::cmp::PartialEqSpecImpl for Password {
    open spec fn obeys_eq_spec() -> bool {
        true
    }

    open spec fn eq_spec(&self, other: &Password) -> bool {
        self@ == other@
    }
}

impl Eq for Password {
}

impl Clone for Password {
    fn clone(&self) -> (r: Password)
        ensures
            r@ == self@,
    {
        proof {
            use_type_invariant(self);
        }
        Password { password: self.password.clone() }
    }
}

impl AsRef<str> for Password {
    fn as_ref(&self) -> (r: &str)
        ensures
            r@ == self@,
            is_valid_password(r@),
    {
        self.as_str()
    }
}

/// Parsing a valid password and reading its text back gives the password
/// itself, and parsing that text again gives the same outcome.
pub proof fn lemma_password_round_trip(s: Seq<char>)
    requires
        is_valid_password(s),
    ensures
        password_outcome(s) == Ok::<Seq<char>, ValidationError>(s),
        password_outcome(password_outcome(s)->Ok_0) == password_outcome(s),
{
}

} // verus!
