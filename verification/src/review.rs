//! The sign-in service: where its store lies and under which policy it
//! issues tokens.

use crate::clock::{readable, Timestamp};
use crate::exchange::{Attempt, Reply, Step};
use crate::policy::{Policy, DEFAULT_EXPIRES_IN};
use vstd::prelude::*;

verus! {

/// The sign-in service of one record store.
pub struct Review {
    data_dir: String,
    backup_dir: String,
    policy: Policy,
}

impl Review {
    /// The directory of the store's data.
    pub closed spec fn data(&self) -> Seq<char> {
        self.data_dir@
    }

    /// The directory of the store's backups.
    pub closed spec fn backup(&self) -> Seq<char> {
        self.backup_dir@
    }

    /// The policy under which tokens are issued.
    pub closed spec fn rules(&self) -> &Policy {
        &self.policy
    }

    /// A service over the store in `data`, backed up in `backup`, under
    /// the default policy.
    pub fn new(data: &str, backup: &str) -> (review: Review)
        ensures
            review.data() == data@,
            review.backup() == backup@,
            review.rules().ttl() == DEFAULT_EXPIRES_IN,
            review.rules().key() == Seq::<u8>::empty(),
    {
        Review { data_dir: data.to_owned(), backup_dir: backup.to_owned(), policy: Policy::default() }
    }

    /// The same service under `policy`.
    pub fn with_policy(self, policy: Policy) -> (review: Review)
        ensures
            review.data() == self.data(),
            review.backup() == self.backup(),
            review.rules().ttl() == policy.ttl(),
            review.rules().key() == policy.key(),
    {
        Review { data_dir: self.data_dir, backup_dir: self.backup_dir, policy }
    }

    /// Reads the directory of the store's data.
    pub fn data_dir(&self) -> (dir: &String)
        ensures
            dir@ == self.data(),
    {
        &self.data_dir
    }

    /// Reads the directory of the store's backups.
    pub fn backup_dir(&self) -> (dir: &String)
        ensures
            dir@ == self.backup(),
    {
        &self.backup_dir
    }

    /// Reads the policy.
    pub fn policy(&self) -> (policy: &Policy)
        ensures
            policy == self.rules(),
    {
        &self.policy
    }

    /// Begins to sign `user` in with `password`: the first step asks the
    /// store for the account.
    pub fn sign_in(&self, user: &str, password: &str) -> (step: Step)
        ensures
            step@ == Attempt::start(user@, password@),
    {
        Attempt::begin(user.to_owned(), password.to_owned())
    }

    /// Moves `attempt` on by the store's reply, under this service's
    /// policy and by the clock.
    pub fn resume(&self, attempt: Attempt, reply: Reply) -> (step: Step)
        ensures
            exists|issued: Timestamp, stamped: Timestamp|
                readable(issued) && readable(stamped) && step@
                    == #[trigger] attempt@.after(self.rules(), reply@, issued, stamped),
    {
        let ghost before = attempt@;
        let ghost answer = reply@;
        let step = attempt.resume(&self.policy, reply);
        proof {
            let (issued, stamped) = choose|issued: Timestamp, stamped: Timestamp|
                readable(issued) && readable(stamped) && step@ == #[trigger] before.after(
                    &self.policy,
                    answer,
                    issued,
                    stamped,
                );
            assert(step@ == before.after(self.rules(), answer, issued, stamped));
        }
        step
    }

    /// Moves `attempt` on by the store's reply as if the clock read
    /// `issued` and then `stamped`.
    pub fn resume_at(&self, attempt: Attempt, reply: Reply, issued: Timestamp, stamped: Timestamp) -> (step:
        Step)
        ensures
            step@ == attempt@.after(self.rules(), reply@, issued, stamped),
    {
        attempt.resume_at(&self.policy, reply, issued, stamped)
    }
}

} // verus!
