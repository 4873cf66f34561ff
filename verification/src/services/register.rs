//! Registration: field validation, uniqueness checks over fetched rows,
//! and the new-user row the caller persists in one transaction.
//!
//! The validators read the word and digit classes as their ASCII subsets,
//! so the accepted grammars are stated exactly below; identifiers beyond
//! ASCII are rejected rather than admitted by an unstatable class.

use vstd::prelude::*;
use crate::digits::is_digit;
use crate::extractor::ModelError;
use crate::password::{spec_hash, spec_stored_credential, generate};
use crate::scan::{find_from, lemma_find_from, find_char, rfind, lemma_rfind, rfind_char};
use crate::serializer::{Response, ResponseCode, is_code_response};
use crate::users;
use crate::user_info;

verus! {

/// An ASCII letter.
pub open spec fn is_alpha_char(c: char) -> bool {
    65 <= c as int <= 90 || 97 <= c as int <= 122
}

/// A word character: letter, digit or underscore.
pub open spec fn is_word_char(c: char) -> bool {
    is_alpha_char(c) || is_digit(c) || c == '_'
}

/// A character admitted in the name parts of an email address: word
/// characters, dots and hyphens.
pub open spec fn is_email_atom_char(c: char) -> bool {
    is_word_char(c) || c == '.' || c == '-'
}

/// A character admitted in a username: letter, digit, underscore or
/// hyphen.
pub open spec fn is_username_char(c: char) -> bool {
    is_alpha_char(c) || is_digit(c) || c == '_' || c == '-'
}

/// A character admitted in a password: letter, digit, or one of the
/// accepted punctuation marks.
pub open spec fn is_password_char(c: char) -> bool {
    ||| is_alpha_char(c)
    ||| is_digit(c)
    ||| c == '!' || c == '@' || c == '#' || c == '$' || c == '%' || c == '^' || c == '&'
    ||| c == '*' || c == '(' || c == ')' || c == '_' || c == '+' || c == '-' || c == '='
    ||| c == '[' || c == ']' || c == '{' || c == '}' || c == ';' || c == '\'' || c == ':'
    ||| c == '"' || c == ',' || c == '.' || c == '<' || c == '>' || c == '/' || c == '?'
}

/// A valid username: three to thirty-two characters, each a letter,
/// digit, underscore or hyphen.
pub open spec fn is_valid_username(s: Seq<char>) -> bool {
    &&& 3 <= s.len() <= 32
    &&& forall|i: int| 0 <= i < s.len() ==> is_username_char(#[trigger] s[i])
}

/// A valid email address: a nonempty local part of atom characters, a
/// single `'@'`, a nonempty domain of atom characters, and after the last
/// dot a nonempty run of word characters.
pub open spec fn is_valid_email(s: Seq<char>) -> bool {
    let n = s.len() as int;
    let a = find_from(s, '@', 0);
    let d = rfind(s, '.');
    &&& 1 <= a < n
    &&& find_from(s, '@', a + 1) == n
    &&& (forall|i: int| 0 <= i < a ==> is_email_atom_char(#[trigger] s[i]))
    &&& a + 1 < d < n - 1
    &&& (forall|i: int| a + 1 <= i < d ==> is_email_atom_char(#[trigger] s[i]))
    &&& (forall|i: int| d + 1 <= i < n ==> is_word_char(#[trigger] s[i]))
}

/// A valid password: eight to sixty-four admitted characters, at least
/// one letter and at least one digit among them.
pub open spec fn is_valid_password(s: Seq<char>) -> bool {
    &&& 8 <= s.len() <= 64
    &&& (forall|i: int| 0 <= i < s.len() ==> is_password_char(#[trigger] s[i]))
    &&& (exists|i: int| 0 <= i < s.len() && is_alpha_char(#[trigger] s[i]))
    &&& (exists|i: int| 0 <= i < s.len() && is_digit(#[trigger] s[i]))
}

/// Whether a character is an ASCII letter.
fn ch_is_alpha(c: char) -> (r: bool)
    ensures
        r == is_alpha_char(c),
{
    let v = c as u32;
    (65 <= v && v <= 90) || (97 <= v && v <= 122)
}

/// Whether a character is a decimal digit.
fn ch_is_digit(c: char) -> (r: bool)
    ensures
        r == is_digit(c),
{
    let v = c as u32;
    48 <= v && v <= 57
}

/// Whether a character may appear in a username.
fn ch_is_username(c: char) -> (r: bool)
    ensures
        r == is_username_char(c),
{
    ch_is_alpha(c) || ch_is_digit(c) || c == '_' || c == '-'
}

/// Whether a character may appear in an email name part.
fn ch_is_email_atom(c: char) -> (r: bool)
    ensures
        r == is_email_atom_char(c),
{
    ch_is_alpha(c) || ch_is_digit(c) || c == '_' || c == '.' || c == '-'
}

/// Whether a character may appear in a password.
fn ch_is_password(c: char) -> (r: bool)
    ensures
        r == is_password_char(c),
{
    ch_is_alpha(c) || ch_is_digit(c) || c == '!' || c == '@' || c == '#' || c == '$'
        || c == '%' || c == '^' || c == '&' || c == '*' || c == '(' || c == ')' || c == '_'
        || c == '+' || c == '-' || c == '=' || c == '[' || c == ']' || c == '{' || c == '}'
        || c == ';' || c == '\'' || c == ':' || c == '"' || c == ',' || c == '.' || c == '<'
        || c == '>' || c == '/' || c == '?'
}

/// Checks a username.
pub fn valid_username(s: &str) -> (r: bool)
    ensures
        r == is_valid_username(s@),
{
    let n = s.unicode_len();
    if n < 3 || n > 32 {
        return false;
    }
    let mut i: usize = 0;
    while i < n
        invariant
            0 <= i <= n,
            n == s@.len(),
            forall|j: int| 0 <= j < i ==> is_username_char(#[trigger] s@[j]),
        decreases n - i,
    {
        if !ch_is_username(s.get_char(i)) {
            return false;
        }
        i = i + 1;
    }
    true
}

/// Checks an email address.
#[verifier::loop_isolation(false)]
pub fn valid_email(s: &str) -> (r: bool)
    ensures
        r == is_valid_email(s@),
{
    let n = s.unicode_len();
    proof {
        lemma_find_from(s@, '@', 0);
        lemma_rfind(s@, '.');
    }
    let a = find_char(s, '@', 0, n);
    if a == n || a == 0 {
        return false;
    }
    proof {
        lemma_find_from(s@, '@', a + 1);
    }
    if find_char(s, '@', a + 1, n) != n {
        return false;
    }
    let d = match rfind_char(s, '.', n) {
        None => {
            return false;
        },
        Some(d) => d,
    };
    if d <= a + 1 || d >= n - 1 {
        return false;
    }
    let mut i: usize = 0;
    while i < a
        invariant
            0 <= i <= a,
            a < n == s@.len(),
            forall|j: int| 0 <= j < i ==> is_email_atom_char(#[trigger] s@[j]),
        decreases a - i,
    {
        if !ch_is_email_atom(s.get_char(i)) {
            return false;
        }
        i = i + 1;
    }
    let mut i: usize = a + 1;
    while i < d
        invariant
            a + 1 <= i <= d,
            d < n == s@.len(),
            forall|j: int| a + 1 <= j < i ==> is_email_atom_char(#[trigger] s@[j]),
        decreases d - i,
    {
        if !ch_is_email_atom(s.get_char(i)) {
            return false;
        }
        i = i + 1;
    }
    let mut i: usize = d + 1;
    while i < n
        invariant
            d + 1 <= i <= n,
            n == s@.len(),
            forall|j: int| d + 1 <= j < i ==> is_word_char(#[trigger] s@[j]),
        decreases n - i,
    {
        let c = s.get_char(i);
        if !(ch_is_alpha(c) || ch_is_digit(c) || c == '_') {
            return false;
        }
        i = i + 1;
    }
    true
}

/// Checks a password.
pub fn valid_password(s: &str) -> (r: bool)
    ensures
        r == is_valid_password(s@),
{
    let n = s.unicode_len();
    if n < 8 || n > 64 {
        return false;
    }
    let mut has_alpha = false;
    let mut has_digit = false;
    let mut i: usize = 0;
    while i < n
        invariant
            0 <= i <= n,
            n == s@.len(),
            forall|j: int| 0 <= j < i ==> is_password_char(#[trigger] s@[j]),
            has_alpha == exists|j: int| 0 <= j < i && is_alpha_char(#[trigger] s@[j]),
            has_digit == exists|j: int| 0 <= j < i && is_digit(#[trigger] s@[j]),
        decreases n - i,
    {
        let c = s.get_char(i);
        if !ch_is_password(c) {
            return false;
        }
        if ch_is_alpha(c) {
            has_alpha = true;
        }
        if ch_is_digit(c) {
            has_digit = true;
        }
        i = i + 1;
    }
    has_alpha && has_digit
}

/// A registration request.
pub struct RegisterService {
    pub email: String,
    pub username: String,
    pub password: String,
    pub nickname: Option<String>,
}

impl RegisterService {
    /// Validates the request fields; every failure is a parameter error.
    pub fn validate(&self) -> (r: Result<(), ResponseCode>)
        ensures
            r is Ok <==> (is_valid_username(self.username@) && is_valid_email(self.email@)
                && is_valid_password(self.password@)),
            r is Err ==> r == Err::<(), ResponseCode>(ResponseCode::ParamError),
    {
        if !valid_username(self.username.as_str()) {
            return Err(ResponseCode::ParamError);
        }
        if !valid_email(self.email.as_str()) {
            return Err(ResponseCode::ParamError);
        }
        if !valid_password(self.password.as_str()) {
            return Err(ResponseCode::ParamError);
        }
        Ok(())
    }

    /// Decides a registration: the site must accept registrations, the
    /// fields must validate, and neither the username nor the email may
    /// already denote a user. Success yields the new row, inactive
    /// exactly when a mail channel will carry the activation link; the
    /// caller persists row, profile and default role as one unit.
    pub fn register(
        &self,
        registration_enabled: bool,
        mail_enabled: bool,
        username_lookup: &Result<(users::Model, Vec<user_info::Model>), ModelError>,
        email_lookup: &Result<(users::Model, Vec<user_info::Model>), ModelError>,
        salt: String,
    ) -> (r: Result<users::Model, Response<String>>)
        ensures
            ({
                let valid = is_valid_username(self.username@) && is_valid_email(self.email@)
                    && is_valid_password(self.password@);
                if !registration_enabled {
                    r matches Err(e) && is_code_response(e, ResponseCode::RegistrationDisabled)
                } else if !valid {
                    r matches Err(e) && is_code_response(e, ResponseCode::ParamError)
                } else if username_lookup is Ok {
                    r matches Err(e) && is_code_response(e, ResponseCode::UserExists)
                } else if *username_lookup == Err::<
                    (users::Model, Vec<user_info::Model>),
                    ModelError,
                >(ModelError::DBError) {
                    r matches Err(e) && is_code_response(e, ResponseCode::InternalError)
                } else if email_lookup is Ok {
                    r matches Err(e) && is_code_response(e, ResponseCode::EmailExists)
                } else if *email_lookup == Err::<
                    (users::Model, Vec<user_info::Model>),
                    ModelError,
                >(ModelError::DBError) {
                    r matches Err(e) && is_code_response(e, ResponseCode::InternalError)
                } else {
                    r matches Ok(m) && m.uid == 0 && m.username@ == self.username@
                        && m.email@ == self.email@
                        && m.status == (if mail_enabled {
                            crate::users::AccountStatus::Inactive
                        } else {
                            crate::users::AccountStatus::Active
                        })
                        && m.password@ == spec_stored_credential(
                            spec_hash(self.password@, salt@),
                            salt@,
                        )
                        && m.nickname@ == (match self.nickname {
                            Some(n) => n@,
                            None => crate::users::spec_default_nickname(self.email@),
                        })
                }
            }),
    {
        if !registration_enabled {
            return Err(Response::from_code(ResponseCode::RegistrationDisabled));
        }
        if let Err(code) = self.validate() {
            return Err(Response::from_code(code));
        }
        match username_lookup {
            Ok(_) => {
                return Err(Response::from_code(ResponseCode::UserExists));
            },
            Err(ModelError::DBError) => {
                return Err(Response::from_code(ResponseCode::InternalError));
            },
            Err(ModelError::Empty) => {},
        }
        match email_lookup {
            Ok(_) => {
                return Err(Response::from_code(ResponseCode::EmailExists));
            },
            Err(ModelError::DBError) => {
                return Err(Response::from_code(ResponseCode::InternalError));
            },
            Err(ModelError::Empty) => {},
        }
        let digest = generate(self.password.clone(), salt.clone());
        let status = crate::users::registration_status(mail_enabled);
        let nickname = match &self.nickname {
            Some(n) => Some(n.clone()),
            None => None,
        };
        Ok(crate::users::create_user(
            self.username.clone(),
            self.email.clone(),
            digest,
            salt,
            status,
            nickname,
        ))
    }
}

impl crate::validator::Validatable<ResponseCode> for RegisterService {
    fn validate(&self) -> Result<(), ResponseCode> {
        RegisterService::validate(self)
    }
}

} // verus!
