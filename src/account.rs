//! The account record, its public projection, and the inputs that create
//! an account or log into one.

use crate::date::Date;
use crate::error::ValidationError;
use vstd::prelude::*;

verus! {

broadcast use vstd::string::group_string_axioms;

/// The role tag that grants administrative privilege.
pub open spec fn admin_tag() -> Seq<char> {
    seq!['a', 'd', 'm', 'i', 'n']
}

/// Whether a stored role tag grants administrative privilege.
pub open spec fn is_admin_tag(t: Option<String>) -> bool {
    t is Some && t->0@ == admin_tag()
}

/// The role tag stored for an administrator.
pub fn admin_account_type() -> (r: String)
    ensures
        r@ == admin_tag(),
{
    let r = "admin".to_string();
    proof {
        reveal_strlit("admin");
    }
    r
}

/// Whether a stored role tag grants administrative privilege.
pub fn has_admin_tag(t: &Option<String>) -> (r: bool)
    ensures
        r == is_admin_tag(*t),
{
    match t {
        Some(s) => {
            let admin = admin_account_type();
            *s == admin
        },
        None => false,
    }
}

/// A copy of an optional text.
pub fn copy_text(t: &Option<String>) -> (r: Option<String>)
    ensures
        r == *t,
{
    match t {
        Some(s) => Some(s.clone()),
        None => None,
    }
}

/// The privilege an account holds.
#[derive(Debug, Clone, Copy, PartialEq, Eq, Structural)]
pub enum AccountRole {
    Standard,
    Admin,
}

/// A user account. It holds private data, the password hash among them,
/// and is never handed to an untrusted caller as it stands.
#[derive(Debug)]
pub struct Account {
    /// Unique, case-sensitive username.
    pub username: String,
    /// Hash of the account's password, never the plaintext.
    pub password: String,
    /// Day the account was created, assigned by the server.
    pub created: Date,
    pub fullname: Option<String>,
    pub date_of_birth: Option<Date>,
    pub id_number: Option<String>,
    pub gender: Option<String>,
    pub description: Option<String>,
    /// Email address, unique among accounts when present.
    pub email: Option<String>,
    pub mobile_number: Option<String>,
    pub website: Option<String>,
    pub last_login: Option<Date>,
    /// Role tag; only "admin" has an effect.
    pub account_type: Option<String>,
}

impl Account {
    pub open spec fn is_admin_spec(&self) -> bool {
        is_admin_tag(self.account_type)
    }

    /// Whether the account's role tag grants administrative privilege.
    pub fn is_admin(&self) -> (r: bool)
        ensures
            r == self.is_admin_spec(),
    {
        has_admin_tag(&self.account_type)
    }

    /// The account's privilege, read from its role tag.
    pub fn role(&self) -> (r: AccountRole)
        ensures
            (r == AccountRole::Admin) == self.is_admin_spec(),
    {
        if self.is_admin() {
            AccountRole::Admin
        } else {
            AccountRole::Standard
        }
    }

    /// The public projection of the account.
    pub fn public(&self) -> (r: PublicAccount)
        ensures
            r.username@ == self.username@,
    {
        PublicAccount { username: self.username.clone() }
    }
}

/// The part of an account that may be shown to anyone: its username.
#[derive(Debug)]
pub struct PublicAccount {
    pub username: String,
}

impl From<Account> for PublicAccount {
    fn from(account: Account) -> (r: PublicAccount) {
        PublicAccount { username: account.username }
    }
}

impl vstd::std_specs::convert::FromSpecImpl<Account> for PublicAccount {
    open spec fn obeys_from_spec() -> bool {
        true
    }

    open spec fn from_spec(account: Account) -> PublicAccount {
        PublicAccount { username: account.username }
    }
}

/// The outcome of the configured shape predicates on submitted
/// credentials: one verdict per field. The verdict on the email counts only
/// where an email was submitted.
#[derive(Debug, Clone, Copy, PartialEq, Eq, Structural)]
pub struct ShapeReport {
    pub username: bool,
    pub password: bool,
    pub email: bool,
}

/// The first shape check that fails, in the order username, password,
/// email, or none.
pub open spec fn first_shape_failure(report: ShapeReport, has_email: bool) -> Option<ValidationError> {
    if !report.username {
        Some(ValidationError::Username)
    } else if !report.password {
        Some(ValidationError::Password)
    } else if has_email && !report.email {
        Some(ValidationError::Email)
    } else {
        None
    }
}

/// Data submitted to create an account.
#[derive(Debug)]
pub struct AccountCreationInput {
    pub username: String,
    pub email: Option<String>,
    /// The plaintext password.
    pub password: String,
}

impl AccountCreationInput {
    /// Decides the input's validity from the shape predicates' verdicts:
    /// the username, then the password, then the email if one was given.
    pub fn is_valid(&self, report: &ShapeReport) -> (r: Result<(), ValidationError>)
        ensures
            r is Ok <==> first_shape_failure(*report, self.email is Some) is None,
            r is Err ==> Some(r->Err_0) == first_shape_failure(*report, self.email is Some),
    {
        if !report.username {
            return Err(ValidationError::Username);
        }
        if !report.password {
            return Err(ValidationError::Password);
        }
        if self.email.is_some() && !report.email {
            return Err(ValidationError::Email);
        }
        Ok(())
    }
}

/// Credentials submitted to log in.
#[derive(Debug)]
pub struct AccountLoginInput {
    pub username: String,
    /// The plaintext password.
    pub password: String,
}

impl AccountLoginInput {
    /// Decides the input's validity from the shape predicates' verdicts:
    /// the username, then the password. No existence check is made here.
    pub fn is_valid(&self, report: &ShapeReport) -> (r: Result<(), ValidationError>)
        ensures
            r is Ok <==> first_shape_failure(*report, false) is None,
            r is Err ==> Some(r->Err_0) == first_shape_failure(*report, false),
    {
        if !report.username {
            return Err(ValidationError::Username);
        }
        if !report.password {
            return Err(ValidationError::Password);
        }
        Ok(())
    }
}

/// The body sent after a successful login.
#[derive(Debug)]
pub struct LoginResponse {
    pub message: String,
    pub account_type: Option<String>,
}

} // verus!
