//! The sign-in exchange: what the orchestrator asks of the record store,
//! what the store answers, and how each answer moves a sign-in attempt on.
//!
//! The orchestrator never touches the store. It hands out one request at a
//! time, and whoever holds the store carries the request out and comes back
//! with the reply.

use crate::account::{Account, AccountView};
use crate::clock::{readable, utc_now, Timestamp};
use crate::error::{SignInError, SignInErrorView};
use crate::policy::Policy;
use crate::token::{create_token_at, expiry_spec, token_spec};
use vstd::prelude::*;

verus! {

/// One thing asked of the record store.
///
/// A request may carry the password, so it has no `Debug` form, and
/// neither has anything that holds one.
#[derive(PartialEq, Eq)]
pub enum Request {
    /// Fetch the account stored under `username`.
    GetAccount { username: String },
    /// Check `password` against the credential stored with the account `username`.
    VerifyPassword { username: String, password: String },
    /// Store `account` under its username, in place of what is there.
    PutAccount { account: Account },
    /// Store `token` under `username`, in place of what is there.
    InsertToken { username: String, token: String },
}

/// A request as a mathematical value.
pub enum RequestView {
    GetAccount { username: Seq<char> },
    VerifyPassword { username: Seq<char>, password: Seq<char> },
    PutAccount { account: AccountView },
    InsertToken { username: Seq<char>, token: Seq<char> },
}

impl View for Request {
    type V = RequestView;

    open spec fn view(&self) -> RequestView {
        match self {
            Request::GetAccount { username } => RequestView::GetAccount { username: username@ },
            Request::VerifyPassword { username, password } => RequestView::VerifyPassword {
                username: username@,
                password: password@,
            },
            Request::PutAccount { account } => RequestView::PutAccount { account: account@ },
            Request::InsertToken { username, token } => RequestView::InsertToken {
                username: username@,
                token: token@,
            },
        }
    }
}

impl RequestView {
    /// The request changes what the store holds.
    pub open spec fn is_write(self) -> bool {
        self is PutAccount || self is InsertToken
    }
}

/// What the record store answers.
#[derive(Debug, PartialEq, Eq)]
pub enum Reply {
    /// The account that was asked for, or `None` where the store has none.
    Account(Option<Account>),
    /// Whether the password matches the stored credential.
    Verdict(bool),
    /// The write was done.
    Stored,
    /// The store could not do what was asked; the text is its report.
    Failed(String),
}

/// A reply as a mathematical value.
pub enum ReplyView {
    Account(Option<AccountView>),
    Verdict(bool),
    Stored,
    Failed(Seq<char>),
}

impl View for Reply {
    type V = ReplyView;

    open spec fn view(&self) -> ReplyView {
        match self {
            Reply::Account(Some(account)) => ReplyView::Account(Some(account@)),
            Reply::Account(None) => ReplyView::Account(None),
            Reply::Verdict(matches) => ReplyView::Verdict(*matches),
            Reply::Stored => ReplyView::Stored,
            Reply::Failed(cause) => ReplyView::Failed(cause@),
        }
    }
}

/// How far an attempt has come.
#[derive(PartialEq, Eq)]
enum Phase {
    Lookup,
    Verification { account: Account },
    AccountUpdate { fetched: Account, account: Account, token: String },
    TokenInsert { fetched: Account, account: Account, token: String },
    Undo { fetched: Account, cause: String },
}

/// How far an attempt has come, as a mathematical value.
pub enum PhaseView {
    /// The account has been asked for.
    Lookup,
    /// The account is there and its password is being checked.
    Verification { account: AccountView },
    /// The token is issued and the stamped account is being written
    /// back; `fetched` is the account as the store gave it.
    AccountUpdate { fetched: AccountView, account: AccountView, token: Seq<char> },
    /// The account is written and the token is being stored.
    TokenInsert { fetched: AccountView, account: AccountView, token: Seq<char> },
    /// The token could not be stored, for `cause`, and the account is
    /// being put back as it was fetched.
    Undo { fetched: AccountView, cause: Seq<char> },
}

/// A sign-in attempt that waits for the store's reply.
#[derive(PartialEq, Eq)]
pub struct Attempt {
    username: String,
    password: String,
    phase: Phase,
}

/// An attempt as a mathematical value.
pub struct AttemptView {
    pub username: Seq<char>,
    pub password: Seq<char>,
    pub phase: PhaseView,
}

impl View for Attempt {
    type V = AttemptView;

    closed spec fn view(&self) -> AttemptView {
        AttemptView {
            username: self.username@,
            password: self.password@,
            phase: match self.phase {
                Phase::Lookup => PhaseView::Lookup,
                Phase::Verification { account } => PhaseView::Verification { account: account@ },
                Phase::AccountUpdate { fetched, account, token } => PhaseView::AccountUpdate {
                    fetched: fetched@,
                    account: account@,
                    token: token@,
                },
                Phase::TokenInsert { fetched, account, token } => PhaseView::TokenInsert {
                    fetched: fetched@,
                    account: account@,
                    token: token@,
                },
                Phase::Undo { fetched, cause } => PhaseView::Undo {
                    fetched: fetched@,
                    cause: cause@,
                },
            },
        }
    }
}

/// How a sign-in ends: the account as it was written back and the token
/// issued to it, or the reason for which it failed.
pub type Outcome = Result<(Account, String), SignInError>;

/// The end of a sign-in as a mathematical value.
pub type OutcomeView = Result<(AccountView, Seq<char>), SignInErrorView>;

/// The view of an outcome.
pub open spec fn outcome_view(outcome: Outcome) -> OutcomeView {
    match outcome {
        Ok((account, token)) => Ok((account@, token@)),
        Err(e) => Err(e@),
    }
}

/// Where a sign-in stands after a reply.
#[derive(PartialEq, Eq)]
pub enum Step {
    /// The attempt waits for the reply to this request.
    Ask(Attempt, Request),
    /// The sign-in is over.
    Done(Outcome),
}

/// A step as a mathematical value.
pub enum StepView {
    Ask(AttemptView, RequestView),
    Done(OutcomeView),
}

impl View for Step {
    type V = StepView;

    open spec fn view(&self) -> StepView {
        match self {
            Step::Ask(attempt, request) => StepView::Ask(attempt@, request@),
            Step::Done(outcome) => StepView::Done(outcome_view(*outcome)),
        }
    }
}

impl AttemptView {
    /// The request that the attempt waits on.
    pub open spec fn pending(self) -> RequestView {
        match self.phase {
            PhaseView::Lookup => RequestView::GetAccount { username: self.username },
            PhaseView::Verification { account } => RequestView::VerifyPassword {
                username: self.username,
                password: self.password,
            },
            PhaseView::AccountUpdate { fetched, account, token } => RequestView::PutAccount {
                account,
            },
            PhaseView::TokenInsert { fetched, account, token } => RequestView::InsertToken {
                username: self.username,
                token,
            },
            PhaseView::Undo { fetched, cause } => RequestView::PutAccount { account: fetched },
        }
    }

    /// The attempt in another phase, waiting on that phase's request.
    pub open spec fn ask(self, phase: PhaseView) -> StepView {
        let next = AttemptView { phase, ..self };
        StepView::Ask(next, next.pending())
    }

    /// The reply makes the attempt issue a token.
    pub open spec fn mints(self, reply: ReplyView) -> bool {
        self.phase is Verification && reply == ReplyView::Verdict(true)
    }

    /// The step that follows `reply`, where a token issued in this step is
    /// issued at `issued` and the account is stamped with `stamped`.
    ///
    /// A report of failure ends the attempt with that report. Where it
    /// comes once the account has been written, the store is first asked
    /// to put the account back as it was fetched, so that a failed sign-in
    /// leaves nothing behind; whatever the store answers to that, the
    /// attempt then ends with the report that stopped it. A reply that
    /// does not answer the pending request changes nothing: the request
    /// is asked again.
    pub open spec fn after(
        self,
        policy: &Policy,
        reply: ReplyView,
        issued: Timestamp,
        stamped: Timestamp,
    ) -> StepView {
        match (self.phase, reply) {
            (PhaseView::TokenInsert { fetched, account, token }, ReplyView::Failed(cause)) =>
                self.ask(PhaseView::Undo { fetched, cause }),
            (PhaseView::Undo { fetched, cause }, ReplyView::Stored) => StepView::Done(
                Err(SignInErrorView::Persistence(cause)),
            ),
            (PhaseView::Undo { fetched, cause }, ReplyView::Failed(_)) => StepView::Done(
                Err(SignInErrorView::Persistence(cause)),
            ),
            (_, ReplyView::Failed(cause)) => StepView::Done(
                Err(SignInErrorView::Persistence(cause)),
            ),
            (PhaseView::Lookup, ReplyView::Account(None)) => StepView::Done(
                Err(SignInErrorView::UserNotFound(self.username)),
            ),
            (PhaseView::Lookup, ReplyView::Account(Some(account))) => self.ask(
                PhaseView::Verification { account },
            ),
            (PhaseView::Verification { account }, ReplyView::Verdict(false)) => StepView::Done(
                Err(SignInErrorView::BadCredential),
            ),
            (PhaseView::Verification { account }, ReplyView::Verdict(true)) => match token_spec(
                policy,
                account.username,
                account.role,
                expiry_spec(issued, policy.ttl()),
            ) {
                Ok((token, _)) => self.ask(
                    PhaseView::AccountUpdate {
                        fetched: account,
                        account: account.signed_in_at(stamped),
                        token,
                    },
                ),
                Err(fault) => StepView::Done(Err(SignInErrorView::Configuration(fault))),
            },
            (PhaseView::AccountUpdate { fetched, account, token }, ReplyView::Stored) =>
                self.ask(PhaseView::TokenInsert { fetched, account, token }),
            (PhaseView::TokenInsert { fetched, account, token }, ReplyView::Stored) =>
                StepView::Done(Ok((account, token))),
            _ => StepView::Ask(self, self.pending()),
        }
    }
}

/// A write is asked of the store only once the password has been found
/// right and a token issued: no reply to a lookup, no verdict against the
/// password and no failure before the first write leads to one.
pub proof fn lemma_writes_follow_verdict(
    attempt: AttemptView,
    policy: &Policy,
    reply: ReplyView,
    issued: Timestamp,
    stamped: Timestamp,
)
    requires
        attempt.after(policy, reply, issued, stamped) matches StepView::Ask(_, request)
            && request.is_write(),
    ensures
        !(attempt.phase is Lookup),
        attempt.phase is Verification ==> reply == ReplyView::Verdict(true) && token_spec(
            policy,
            attempt.phase->Verification_account.username,
            attempt.phase->Verification_account.role,
            expiry_spec(issued, policy.ttl()),
        ) is Ok,
{
}

impl Attempt {
    /// An attempt to sign `username` in with `password`, and its first request.
    pub open spec fn start(username: Seq<char>, password: Seq<char>) -> StepView {
        let attempt = AttemptView { username, password, phase: PhaseView::Lookup };
        StepView::Ask(attempt, attempt.pending())
    }

    /// Begins an attempt: the account is asked for.
    pub fn begin(username: String, password: String) -> (step: Step)
        ensures
            step@ == Attempt::start(username@, password@),
    {
        let request = Request::GetAccount { username: username.clone() };
        Step::Ask(Attempt { username, password, phase: Phase::Lookup }, request)
    }

    /// The request that the attempt waits on.
    pub fn pending(&self) -> (request: Request)
        ensures
            request@ == self@.pending(),
    {
        match &self.phase {
            Phase::Lookup => Request::GetAccount { username: self.username.clone() },
            Phase::Verification { account } => Request::VerifyPassword {
                username: self.username.clone(),
                password: self.password.clone(),
            },
            Phase::AccountUpdate { fetched, account, token } => Request::PutAccount {
                account: account.clone(),
            },
            Phase::TokenInsert { fetched, account, token } => Request::InsertToken {
                username: self.username.clone(),
                token: token.clone(),
            },
            Phase::Undo { fetched, cause } => Request::PutAccount { account: fetched.clone() },
        }
    }

    /// Whether `reply` makes the attempt issue a token.
    pub fn mints(&self, reply: &Reply) -> (r: bool)
        ensures
            r == self@.mints(reply@),
    {
        match (&self.phase, reply) {
            (Phase::Verification { account }, Reply::Verdict(true)) => true,
            _ => false,
        }
    }

    fn ask(username: String, password: String, phase: Phase) -> (step: Step)
        ensures
            step matches Step::Ask(attempt, request) && attempt == (Attempt {
                username,
                password,
                phase,
            }) && request@ == attempt@.pending(),
    {
        let attempt = Attempt { username, password, phase };
        let request = attempt.pending();
        Step::Ask(attempt, request)
    }

    /// Moves the attempt on by `reply`, with `issued` as the issue time of
    /// a token and `stamped` as the time of the sign-in, should this step
    /// issue one.
    pub fn resume_at(self, policy: &Policy, reply: Reply, issued: Timestamp, stamped: Timestamp) -> (step:
        Step)
        ensures
            step@ == self@.after(policy, reply@, issued, stamped),
    {
        let Attempt { username, password, phase } = self;
        match (phase, reply) {
            (Phase::TokenInsert { fetched, account, token }, Reply::Failed(cause)) => Attempt::ask(
                username,
                password,
                Phase::Undo { fetched, cause },
            ),
            (Phase::Undo { fetched, cause }, Reply::Stored) => Step::Done(
                Err(SignInError::Persistence(cause)),
            ),
            (Phase::Undo { fetched, cause }, Reply::Failed(_)) => Step::Done(
                Err(SignInError::Persistence(cause)),
            ),
            (_, Reply::Failed(cause)) => Step::Done(Err(SignInError::Persistence(cause))),
            (Phase::Lookup, Reply::Account(None)) => Step::Done(
                Err(SignInError::UserNotFound(username)),
            ),
            (Phase::Lookup, Reply::Account(Some(account))) => Attempt::ask(
                username,
                password,
                Phase::Verification { account },
            ),
            (Phase::Verification { account }, Reply::Verdict(false)) => Step::Done(
                Err(SignInError::BadCredential),
            ),
            (Phase::Verification { account }, Reply::Verdict(true)) => {
                let subject = account.username.clone();
                let role = account.role.clone();
                match create_token_at(policy, subject, role, issued) {
                    Ok((token, _)) => {
                        let fetched = account.clone();
                        let mut account = account;
                        account.set_last_signin_time(stamped);
                        Attempt::ask(
                            username,
                            password,
                            Phase::AccountUpdate { fetched, account, token },
                        )
                    },
                    Err(fault) => Step::Done(Err(SignInError::Configuration(fault))),
                }
            },
            (Phase::AccountUpdate { fetched, account, token }, Reply::Stored) => Attempt::ask(
                username,
                password,
                Phase::TokenInsert { fetched, account, token },
            ),
            (Phase::TokenInsert { fetched, account, token }, Reply::Stored) => Step::Done(
                Ok((account, token)),
            ),
            (phase, _) => Attempt::ask(username, password, phase),
        }
    }

    /// Moves the attempt on by `reply`.
    ///
    /// Where the step issues a token, the clock is read for the issue time
    /// and read again for the time of the sign-in. Whatever it reads, the
    /// step is that of `resume_at` for those readings.
    pub fn resume(self, policy: &Policy, reply: Reply) -> (step: Step)
        ensures
            exists|issued: Timestamp, stamped: Timestamp|
                readable(issued) && readable(stamped) && step@ == #[trigger] self@.after(
                    policy,
                    reply@,
                    issued,
                    stamped,
                ),
    {
        if self.mints(&reply) {
            let issued = utc_now();
            let stamped = utc_now();
            self.resume_at(policy, reply, issued, stamped)
        } else {
            let idle = Timestamp { secs: 0, nanos: 0 };
            self.resume_at(policy, reply, idle, idle)
        }
    }
}

} // verus!
