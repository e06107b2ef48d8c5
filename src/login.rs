//! The login flow as a state machine. The flow decides; the caller runs
//! each requested action (shape predicates, the lookup, the hash check, the
//! session issuance) and feeds its outcome back as the next event.
//!
//! After `LoginFlow::new` the caller runs the shape predicates on the
//! submitted username and password and reports them with
//! `LoginEvent::ShapeChecked`.

use crate::account::{copy_text, first_shape_failure, Account, AccountLoginInput, LoginResponse, ShapeReport};
use crate::error::{ErrorResponse, KontrollerError};
use vstd::prelude::*;

verus! {

broadcast use vstd::string::group_string_axioms;

/// The status code of a successful login.
pub const LOGIN_STATUS: u16 = 200;

/// The message confirming a login.
pub open spec fn login_message() -> Seq<char> {
    seq!['L', 'o', 'g', 'g', 'i', 'n', ' ', 's', 'u', 'c', 'c', 'e', 's', 's', 'f', 'u', 'l']
}

/// The body confirming a login, echoing the account's role tag.
pub fn login_response(account_type: Option<String>) -> (r: LoginResponse)
    ensures
        r.message@ == login_message(),
        r.account_type == account_type,
{
    let message = "Loggin successful".to_string();
    proof {
        reveal_strlit("Loggin successful");
    }
    LoginResponse { message, account_type }
}

/// A successful login: the body and the issued session artifact.
#[derive(Debug)]
pub struct LoginSuccess {
    pub response: LoginResponse,
    /// The session cookie bound to the account's username.
    pub session: String,
}

/// Where the login flow stands.
#[derive(Debug)]
pub enum LoginStage {
    /// The credentials arrived; their shape has not been checked.
    Received,
    /// The credentials passed the shape checks; the account is being
    /// looked up.
    Validated,
    /// The account was found; the password is being checked against its
    /// hash.
    LookedUp { account: Account },
    /// The password matched; a session is being issued.
    Verified { account: Account },
    /// A reply was produced; nothing more happens.
    Finished,
}

/// The outcome of the action the flow asked for last.
#[derive(Debug)]
pub enum LoginEvent {
    /// The shape predicates' verdicts on the username and password.
    ShapeChecked(ShapeReport),
    /// The store's answer to the lookup by username.
    Found(Result<Option<Account>, KontrollerError>),
    /// The verification primitive's answer: whether the password matches
    /// the hash.
    PasswordChecked(Result<bool, KontrollerError>),
    /// The session issuance primitive's result.
    SessionIssued(Result<String, KontrollerError>),
}

/// What the caller is to do next.
#[derive(Debug)]
pub enum LoginAction {
    /// Fetch the full record with this username.
    LookUp(String),
    /// Check this plaintext password against this hash.
    VerifyPassword { hash: String, password: String },
    /// Issue a session bound to this username.
    IssueSession(String),
    /// Reply to the client.
    Reply(Result<LoginSuccess, ErrorResponse>),
}

/// A login in progress.
#[derive(Debug)]
pub struct LoginFlow {
    pub input: AccountLoginInput,
    pub stage: LoginStage,
}

/// Whether an action is the final reply of a successful login for an
/// account, carrying the given session.
pub open spec fn is_success_reply(action: LoginAction, account: Account, session: String) -> bool {
    &&& action is Reply
    &&& action->Reply_0 is Ok
    &&& action->Reply_0->Ok_0.response.message@ == login_message()
    &&& action->Reply_0->Ok_0.response.account_type == account.account_type
    &&& action->Reply_0->Ok_0.session == session
}

/// One step of the login flow: from the flow before and the event, the
/// flow after and the action.
pub open spec fn login_step(pre: LoginFlow, event: LoginEvent, post: LoginFlow, action: LoginAction) -> bool {
    &&& post.input == pre.input
    &&& match (pre.stage, event) {
        (LoginStage::Received, LoginEvent::ShapeChecked(report)) => {
            if first_shape_failure(report, false) is None {
                &&& post.stage == LoginStage::Validated
                &&& action == LoginAction::LookUp(pre.input.username)
            } else {
                &&& post.stage == LoginStage::Finished
                &&& action == LoginAction::Reply(Err(ErrorResponse::BadRequest))
            }
        },
        (LoginStage::Validated, LoginEvent::Found(Ok(Some(account)))) => {
            &&& post.stage == (LoginStage::LookedUp { account })
            &&& action == (LoginAction::VerifyPassword { hash: account.password, password: pre.input.password })
        },
        (LoginStage::Validated, LoginEvent::Found(Ok(None))) => {
            &&& post.stage == LoginStage::Finished
            &&& action == LoginAction::Reply(Err(ErrorResponse::NotFound))
        },
        (LoginStage::LookedUp { account }, LoginEvent::PasswordChecked(Ok(true))) => {
            &&& post.stage == (LoginStage::Verified { account })
            &&& action == LoginAction::IssueSession(account.username)
        },
        (LoginStage::LookedUp { .. }, LoginEvent::PasswordChecked(Ok(false))) => {
            &&& post.stage == LoginStage::Finished
            &&& action == LoginAction::Reply(Err(ErrorResponse::Unauthorized))
        },
        (LoginStage::Verified { account }, LoginEvent::SessionIssued(Ok(session))) => {
            &&& post.stage == LoginStage::Finished
            &&& is_success_reply(action, account, session)
        },
        _ => {
            &&& post.stage == LoginStage::Finished
            &&& action == LoginAction::Reply(Err(ErrorResponse::Internal))
        },
    }
}

impl LoginFlow {
    /// Starts a login with the given credentials.
    pub fn new(input: AccountLoginInput) -> (r: LoginFlow)
        ensures
            r.input == input,
            r.stage == LoginStage::Received,
    {
        LoginFlow { input, stage: LoginStage::Received }
    }

    /// Takes in the outcome of the last action and returns the next one.
    pub fn step(&mut self, event: LoginEvent) -> (r: LoginAction)
        ensures
            login_step(*old(self), event, *final(self), r),
    {
        let mut stage = LoginStage::Finished;
        core::mem::swap(&mut stage, &mut self.stage);
        match (stage, event) {
            (LoginStage::Received, LoginEvent::ShapeChecked(report)) => {
                match self.input.is_valid(&report) {
                    Ok(()) => {
                        self.stage = LoginStage::Validated;
                        LoginAction::LookUp(self.input.username.clone())
                    },
                    Err(_) => LoginAction::Reply(Err(ErrorResponse::BadRequest)),
                }
            },
            (LoginStage::Validated, LoginEvent::Found(Ok(Some(account)))) => {
                let action = LoginAction::VerifyPassword {
                    hash: account.password.clone(),
                    password: self.input.password.clone(),
                };
                self.stage = LoginStage::LookedUp { account };
                action
            },
            (LoginStage::Validated, LoginEvent::Found(Ok(None))) => {
                LoginAction::Reply(Err(ErrorResponse::NotFound))
            },
            (LoginStage::LookedUp { account }, LoginEvent::PasswordChecked(Ok(matched))) => {
                if matched {
                    let action = LoginAction::IssueSession(account.username.clone());
                    self.stage = LoginStage::Verified { account };
                    action
                } else {
                    LoginAction::Reply(Err(ErrorResponse::Unauthorized))
                }
            },
            (LoginStage::Verified { account }, LoginEvent::SessionIssued(Ok(session))) => {
                let response = login_response(copy_text(&account.account_type));
                LoginAction::Reply(Ok(LoginSuccess { response, session }))
            },
            _ => LoginAction::Reply(Err(ErrorResponse::Internal)),
        }
    }
}


/// A login whose credentials pass the shape checks, whose account is
/// found, and whose password matches the stored hash asks for a session
/// bound to the account's username, then replies with success, the
/// account's stored role tag and the issued session.
pub proof fn lemma_login_success(
    f0: LoginFlow,
    report: ShapeReport,
    f1: LoginFlow,
    a1: LoginAction,
    account: Account,
    f2: LoginFlow,
    a2: LoginAction,
    f3: LoginFlow,
    a3: LoginAction,
    session: String,
    f4: LoginFlow,
    a4: LoginAction,
)
    requires
        f0.stage is Received,
        first_shape_failure(report, false) is None,
        login_step(f0, LoginEvent::ShapeChecked(report), f1, a1),
        login_step(f1, LoginEvent::Found(Ok(Some(account))), f2, a2),
        login_step(f2, LoginEvent::PasswordChecked(Ok(true)), f3, a3),
        login_step(f3, LoginEvent::SessionIssued(Ok(session)), f4, a4),
    ensures
        a1 == LoginAction::LookUp(f0.input.username),
        a2 == (LoginAction::VerifyPassword { hash: account.password, password: f0.input.password }),
        a3 == LoginAction::IssueSession(account.username),
        is_success_reply(a4, account, session),
        f4.stage is Finished,
{
}

/// A wrong password for a found account is answered with unauthorized and
/// ends the flow, so no session is asked for afterwards.
pub proof fn lemma_login_wrong_password(
    pre: LoginFlow,
    post: LoginFlow,
    action: LoginAction,
    event: LoginEvent,
    last: LoginFlow,
    last_action: LoginAction,
)
    requires
        pre.stage is LookedUp,
        login_step(pre, LoginEvent::PasswordChecked(Ok(false)), post, action),
        login_step(post, event, last, last_action),
    ensures
        action == LoginAction::Reply(Err(ErrorResponse::Unauthorized)),
        post.stage is Finished,
        !(last_action is IssueSession),
{
}

/// A lookup that finds no account is answered with not-found.
pub proof fn lemma_login_unknown_user(pre: LoginFlow, post: LoginFlow, action: LoginAction)
    requires
        pre.stage is Validated,
        login_step(pre, LoginEvent::Found(Ok(None)), post, action),
    ensures
        action == LoginAction::Reply(Err(ErrorResponse::NotFound)),
        post.stage is Finished,
{
}

/// No session is asked for without a successful password check in the
/// step just before, and no successful reply comes without an issued
/// session.
pub proof fn lemma_session_only_after_match(
    pre: LoginFlow,
    event: LoginEvent,
    post: LoginFlow,
    action: LoginAction,
)
    requires
        login_step(pre, event, post, action),
    ensures
        action is IssueSession ==> pre.stage is LookedUp && event == LoginEvent::PasswordChecked(Ok(true)),
        action is IssueSession ==> action->IssueSession_0 == pre.stage->LookedUp_account.username,
        action is Reply && action->Reply_0 is Ok ==> pre.stage is Verified && event is SessionIssued
            && event->SessionIssued_0 is Ok,
{
}

} // verus!
