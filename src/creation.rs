//! The account-creation flow as a state machine. The flow decides; the
//! caller runs each requested action (shape predicates, password hashing,
//! the insert) and feeds its outcome back as the next event.
//!
//! After `CreationFlow::new` the caller runs the shape predicates on the
//! submitted fields and reports them with `CreationEvent::ShapeChecked`.

use crate::account::{
    admin_account_type, admin_tag, copy_text, first_shape_failure, Account, AccountCreationInput,
    PublicAccount, ShapeReport,
};
use crate::date::Date;
use crate::error::{ErrorResponse, KontrollerError};
use vstd::prelude::*;

verus! {

/// The status code of a successful creation.
pub const CREATED_STATUS: u16 = 201;

/// Whether a submitted email is the configured administrator email. An
/// absent email, or an absent configuration, never matches.
pub open spec fn is_admin_email(email: Option<String>, admin_email: Option<String>) -> bool {
    email is Some && admin_email is Some && email->0@ == admin_email->0@
}

/// Decides whether a submitted email is the configured administrator email.
pub fn matches_admin_email(email: &Option<String>, admin_email: &Option<String>) -> (r: bool)
    ensures
        r == is_admin_email(*email, *admin_email),
{
    match (email, admin_email) {
        (Some(e), Some(a)) => *e == *a,
        _ => false,
    }
}

/// The record built from a validated input: the hash in place of the
/// password, the server's creation day, no profile data, and the admin tag
/// exactly for the administrator email.
pub open spec fn account_from_input(
    a: Account,
    input: AccountCreationInput,
    hash: String,
    created: Date,
    admin: bool,
) -> bool {
    &&& a.username == input.username
    &&& a.password == hash
    &&& a.created == created
    &&& a.email == input.email
    &&& a.fullname is None
    &&& a.date_of_birth is None
    &&& a.id_number is None
    &&& a.gender is None
    &&& a.description is None
    &&& a.mobile_number is None
    &&& a.website is None
    &&& a.last_login is None
    &&& (admin ==> a.account_type is Some && a.account_type->0@ == admin_tag())
    &&& (!admin ==> a.account_type is None)
}

/// Builds the record for a validated input, given the password's hash
/// and the creation day.
pub fn build_account(input: &AccountCreationInput, hash: String, created: Date, admin: bool) -> (r: Account)
    ensures
        account_from_input(r, *input, hash, created, admin),
{
    Account {
        username: input.username.clone(),
        password: hash,
        created,
        fullname: None,
        date_of_birth: None,
        id_number: None,
        gender: None,
        description: None,
        email: copy_text(&input.email),
        mobile_number: None,
        website: None,
        last_login: None,
        account_type: if admin { Some(admin_account_type()) } else { None },
    }
}

/// The client-facing signal for a store error met while creating an
/// account: a problem with the submitted data is the client's, anything
/// else is internal.
pub open spec fn store_error_response(e: KontrollerError) -> ErrorResponse {
    if e == KontrollerError::DbField || e == KontrollerError::DbConstraint {
        ErrorResponse::BadRequest
    } else {
        ErrorResponse::Internal
    }
}

/// Maps a store error met while creating an account to its signal.
pub fn creation_store_error(e: KontrollerError) -> (r: ErrorResponse)
    ensures
        r == store_error_response(e),
{
    if e.is_client_data_error() {
        ErrorResponse::BadRequest
    } else {
        ErrorResponse::Internal
    }
}

/// Where the creation flow stands.
#[derive(Debug)]
pub enum CreationStage {
    /// The input arrived; its shape has not been checked.
    Received,
    /// The input passed the shape checks; the password is being hashed.
    Validated,
    /// The record was handed to the store under this username.
    Persisting { username: String },
    /// A reply was produced; nothing more happens.
    Finished,
}

/// The outcome of the action the flow asked for last.
#[derive(Debug)]
pub enum CreationEvent {
    /// The shape predicates' verdicts on the submitted fields.
    ShapeChecked(ShapeReport),
    /// The hashing primitive's result.
    PasswordHashed(Result<String, KontrollerError>),
    /// The store's answer to the insert.
    Stored(Result<(), KontrollerError>),
}

/// What the caller is to do next.
#[derive(Debug)]
pub enum CreationAction {
    /// Hash this plaintext password.
    HashPassword(String),
    /// Insert this record: as an admin record where `admin` holds, as a
    /// standard one otherwise.
    Store { account: Account, admin: bool },
    /// Reply to the client: the created account's public projection, or a
    /// failure signal.
    Reply(Result<PublicAccount, ErrorResponse>),
}

/// An account creation in progress.
#[derive(Debug)]
pub struct CreationFlow {
    pub input: AccountCreationInput,
    /// The configured administrator email, if any.
    pub admin_email: Option<String>,
    /// The day stamped on the record.
    pub created: Date,
    pub stage: CreationStage,
}

/// One step of the creation flow: from the flow before and the event, the
/// flow after and the action.
pub open spec fn creation_step(
    pre: CreationFlow,
    event: CreationEvent,
    post: CreationFlow,
    action: CreationAction,
) -> bool {
    &&& post.input == pre.input
    &&& post.admin_email == pre.admin_email
    &&& post.created == pre.created
    &&& match (pre.stage, event) {
        (CreationStage::Received, CreationEvent::ShapeChecked(report)) => {
            if first_shape_failure(report, pre.input.email is Some) is None {
                &&& post.stage == CreationStage::Validated
                &&& action == CreationAction::HashPassword(pre.input.password)
            } else {
                &&& post.stage == CreationStage::Finished
                &&& action == CreationAction::Reply(Err(ErrorResponse::BadRequest))
            }
        },
        (CreationStage::Validated, CreationEvent::PasswordHashed(Ok(hash))) => {
            &&& post.stage == (CreationStage::Persisting { username: pre.input.username })
            &&& action is Store
            &&& action->admin == is_admin_email(pre.input.email, pre.admin_email)
            &&& account_from_input(action->account, pre.input, hash, pre.created, action->admin)
        },
        (CreationStage::Persisting { username }, CreationEvent::Stored(Ok(()))) => {
            &&& post.stage == CreationStage::Finished
            &&& action == CreationAction::Reply(Ok(PublicAccount { username }))
        },
        (CreationStage::Persisting { .. }, CreationEvent::Stored(Err(e))) => {
            &&& post.stage == CreationStage::Finished
            &&& action == CreationAction::Reply(Err(store_error_response(e)))
        },
        _ => {
            &&& post.stage == CreationStage::Finished
            &&& action == CreationAction::Reply(Err(ErrorResponse::Internal))
        },
    }
}

impl CreationFlow {
    /// Starts a creation for the given input, stamped with the given day.
    pub fn new(input: AccountCreationInput, admin_email: Option<String>, created: Date) -> (r: CreationFlow)
        ensures
            r.input == input,
            r.admin_email == admin_email,
            r.created == created,
            r.stage == CreationStage::Received,
    {
        CreationFlow { input, admin_email, created, stage: CreationStage::Received }
    }

    /// Starts a creation for the given input, stamped with today's date.
    pub fn start(input: AccountCreationInput, admin_email: Option<String>) -> (r: CreationFlow)
        ensures
            r.input == input,
            r.admin_email == admin_email,
            r.created.wf(),
            r.stage == CreationStage::Received,
    {
        CreationFlow::new(input, admin_email, Date::today())
    }

    /// Takes in the outcome of the last action and returns the next one.
    pub fn step(&mut self, event: CreationEvent) -> (r: CreationAction)
        ensures
            creation_step(*old(self), event, *final(self), r),
    {
        let mut stage = CreationStage::Finished;
        core::mem::swap(&mut stage, &mut self.stage);
        match (stage, event) {
            (CreationStage::Received, CreationEvent::ShapeChecked(report)) => {
                match self.input.is_valid(&report) {
                    Ok(()) => {
                        self.stage = CreationStage::Validated;
                        CreationAction::HashPassword(self.input.password.clone())
                    },
                    Err(_) => CreationAction::Reply(Err(ErrorResponse::BadRequest)),
                }
            },
            (CreationStage::Validated, CreationEvent::PasswordHashed(Ok(hash))) => {
                let admin = matches_admin_email(&self.input.email, &self.admin_email);
                let account = build_account(&self.input, hash, self.created, admin);
                self.stage = CreationStage::Persisting { username: self.input.username.clone() };
                CreationAction::Store { account, admin }
            },
            (CreationStage::Persisting { username }, CreationEvent::Stored(Ok(()))) => {
                CreationAction::Reply(Ok(PublicAccount { username }))
            },
            (CreationStage::Persisting { .. }, CreationEvent::Stored(Err(e))) => {
                CreationAction::Reply(Err(creation_store_error(e)))
            },
            _ => CreationAction::Reply(Err(ErrorResponse::Internal)),
        }
    }
}


/// Classification: once the password is hashed, the record handed to the
/// store carries the "admin" tag exactly when the submitted email is the
/// configured administrator email, and no tag otherwise.
pub proof fn lemma_admin_email_classifies(
    pre: CreationFlow,
    hash: String,
    post: CreationFlow,
    action: CreationAction,
)
    requires
        pre.stage is Validated,
        creation_step(pre, CreationEvent::PasswordHashed(Ok(hash)), post, action),
    ensures
        action is Store,
        action->admin == is_admin_email(pre.input.email, pre.admin_email),
        is_admin_email(pre.input.email, pre.admin_email) ==> action->account.account_type is Some
            && action->account.account_type->0@ == admin_tag(),
        !is_admin_email(pre.input.email, pre.admin_email) ==> action->account.account_type is None,
{
}

/// A creation whose input passes the shape checks, whose password is
/// hashed, and whose insert succeeds hands the store a record with the
/// submitted username and replies with a public projection holding that
/// same username.
pub proof fn lemma_created_projection_keeps_username(
    f0: CreationFlow,
    report: ShapeReport,
    f1: CreationFlow,
    a1: CreationAction,
    hash: String,
    f2: CreationFlow,
    a2: CreationAction,
    f3: CreationFlow,
    a3: CreationAction,
)
    requires
        f0.stage is Received,
        first_shape_failure(report, f0.input.email is Some) is None,
        creation_step(f0, CreationEvent::ShapeChecked(report), f1, a1),
        creation_step(f1, CreationEvent::PasswordHashed(Ok(hash)), f2, a2),
        creation_step(f2, CreationEvent::Stored(Ok(())), f3, a3),
    ensures
        a1 == CreationAction::HashPassword(f0.input.password),
        a2 is Store,
        a2->account.username == f0.input.username,
        a2->account.password == hash,
        a3 == CreationAction::Reply(Ok(PublicAccount { username: f0.input.username })),
        f3.stage is Finished,
{
}

/// A second account under a taken username is refused by the store's
/// uniqueness constraint; the flow then replies with a client error and
/// finishes, asking for nothing more.
pub proof fn lemma_duplicate_is_client_error(
    pre: CreationFlow,
    post: CreationFlow,
    action: CreationAction,
)
    requires
        pre.stage is Persisting,
        creation_step(pre, CreationEvent::Stored(Err(KontrollerError::DbConstraint)), post, action),
    ensures
        action == CreationAction::Reply(Err(ErrorResponse::BadRequest)),
        post.stage is Finished,
{
}

/// The flow asks for an insert only right after a successful hash, so no
/// record reaches the store when the shape checks or the hashing fail; and
/// a rejected input gets a client error.
pub proof fn lemma_store_only_after_hash(
    pre: CreationFlow,
    event: CreationEvent,
    post: CreationFlow,
    action: CreationAction,
)
    requires
        creation_step(pre, event, post, action),
    ensures
        action is Store ==> pre.stage is Validated && event is PasswordHashed
            && event->PasswordHashed_0 is Ok,
        pre.stage is Received && event is ShapeChecked
            && first_shape_failure(event->ShapeChecked_0, pre.input.email is Some) is Some
            ==> action == CreationAction::Reply(Err(ErrorResponse::BadRequest)),
{
}

/// A finished flow stays finished and answers every event with an
/// internal error.
pub proof fn lemma_finished_is_final(
    pre: CreationFlow,
    event: CreationEvent,
    post: CreationFlow,
    action: CreationAction,
)
    requires
        pre.stage is Finished,
        creation_step(pre, event, post, action),
    ensures
        post.stage is Finished,
        action == CreationAction::Reply(Err(ErrorResponse::Internal)),
{
}

} // verus!
