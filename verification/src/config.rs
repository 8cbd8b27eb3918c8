//! Where the record store lies.

use crate::policy::DEFAULT_EXPIRES_IN;
use crate::review::Review;
use vstd::prelude::*;

verus! {

/// The directories of the record store.
#[derive(Debug, PartialEq, Eq)]
pub struct Config {
    data_dir: String,
    backup_dir: String,
}

impl Config {
    /// The directory of the store's data.
    pub closed spec fn data(&self) -> Seq<char> {
        self.data_dir@
    }

    /// The directory of the store's backups.
    pub closed spec fn backup(&self) -> Seq<char> {
        self.backup_dir@
    }

    /// A configuration of the two directories.
    pub fn new(data_dir: String, backup_dir: String) -> (config: Config)
        ensures
            config.data() == data_dir@,
            config.backup() == backup_dir@,
    {
        Config { data_dir, backup_dir }
    }

    /// The sign-in service over the configured store, under the default policy.
    pub fn to_review(&self) -> (review: Review)
        ensures
            review.data() == self.data(),
            review.backup() == self.backup(),
            review.rules().ttl() == DEFAULT_EXPIRES_IN,
            review.rules().key() == Seq::<u8>::empty(),
    {
        Review::new(self.data_dir.as_str(), self.backup_dir.as_str())
    }
}

} // verus!
