//! Admin resolution: whether a verified identity holds administrative
//! privilege, decided from the store's answer to a lookup.

use crate::account::{is_admin_tag, Account};
use crate::error::KontrollerError;
use vstd::prelude::*;

verus! {

/// Admin resolution by role tag, given the lookup of the identity's
/// username: a missing account is not an admin, a store error propagates.
pub open spec fn admin_by_role(lookup: Result<Option<Account>, KontrollerError>) -> Result<bool, KontrollerError> {
    match lookup {
        Err(e) => Err(e),
        Ok(None) => Ok(false),
        Ok(Some(a)) => Ok(is_admin_tag(a.account_type)),
    }
}

/// Admin resolution by the configured email, given the lookup of the
/// account holding that email: the identity is the admin exactly when it
/// is that account's username.
pub open spec fn admin_by_email(username: Seq<char>, lookup: Result<Option<Account>, KontrollerError>) -> Result<bool, KontrollerError> {
    match lookup {
        Err(e) => Err(e),
        Ok(None) => Ok(false),
        Ok(Some(a)) => Ok(a.username@ == username),
    }
}

/// Resolves admin privilege by role tag from the lookup of the verified
/// identity's username.
pub fn is_admin(lookup: Result<Option<Account>, KontrollerError>) -> (r: Result<bool, KontrollerError>)
    ensures
        r == admin_by_role(lookup),
{
    match lookup {
        Err(e) => Err(e),
        Ok(None) => Ok(false),
        Ok(Some(account)) => Ok(account.is_admin()),
    }
}

/// Resolves admin privilege by the configured email, from the verified
/// identity's username and the lookup of the account holding the
/// administrator email.
pub fn is_admin_by_email(username: &str, lookup: Result<Option<Account>, KontrollerError>) -> (r: Result<bool, KontrollerError>)
    ensures
        r == admin_by_email(username@, lookup),
{
    match lookup {
        Err(e) => Err(e),
        Ok(None) => Ok(false),
        Ok(Some(account)) => Ok(text_eq(account.username.as_str(), username)),
    }
}

/// Whether two texts are equal, character for character.
pub fn text_eq(a: &str, b: &str) -> (r: bool)
    ensures
        r == (a@ == b@),
{
    let n = a.unicode_len();
    if n != b.unicode_len() {
        return false;
    }
    let mut i: usize = 0;
    while i < n
        invariant
            n == a@.len(),
            n == b@.len(),
            i <= n,
            forall|j: int| 0 <= j < i ==> a@[j] == b@[j],
        decreases n - i,
    {
        if a.get_char(i) != b.get_char(i) {
            return false;
        }
        i = i + 1;
    }
    proof {
        assert(a@ =~= b@);
    }
    true
}

/// Whether a resolution grants the privilege: only a clean `true` does,
/// and an error counts as no privilege.
pub fn grants_admin(resolution: &Result<bool, KontrollerError>) -> (r: bool)
    ensures
        r == (*resolution == Ok::<bool, KontrollerError>(true)),
{
    match resolution {
        Ok(b) => *b,
        Err(_) => false,
    }
}

/// Admin resolution by role grants the privilege to a found record
/// exactly when its role tag is "admin": never to a record without a tag
/// or with another one, nor to a missing account.
pub proof fn lemma_admin_by_role_only_admin_tag(lookup: Result<Option<Account>, KontrollerError>)
    ensures
        admin_by_role(lookup) == Ok::<bool, KontrollerError>(true)
            <==> (lookup is Ok && lookup->Ok_0 is Some && is_admin_tag(lookup->Ok_0->0.account_type)),
        lookup is Ok && lookup->Ok_0 is Some && lookup->Ok_0->0.account_type is None
            ==> admin_by_role(lookup) == Ok::<bool, KontrollerError>(false),
        lookup == Ok::<Option<Account>, KontrollerError>(None)
            ==> admin_by_role(lookup) == Ok::<bool, KontrollerError>(false),
{
}

/// For any found record, resolution by role answers exactly whether its
/// role tag is the text "admin".
pub proof fn lemma_admin_by_role_of_record(account: Account)
    ensures
        admin_by_role(Ok(Some(account))) == Ok::<bool, KontrollerError>(
            account.account_type is Some && account.account_type->0@ == seq!['a', 'd', 'm', 'i', 'n'],
        ),
{
}

} // verus!
