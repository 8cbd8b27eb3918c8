//! Why a sign-in failed, and the message that says so.

use crate::token::{TokenError, TokenErrorView};
use vstd::prelude::*;
use vstd::string::*;

verus! {

/// The reasons for which a sign-in fails.
#[derive(Debug, PartialEq, Eq)]
pub enum SignInError {
    /// The store holds no account under this username.
    UserNotFound(String),
    /// The password does not match the stored credential.
    BadCredential,
    /// The store failed; the text is its own report.
    Persistence(String),
    /// No token could be issued under the policy.
    Configuration(TokenError),
}

/// A failure as a mathematical value.
pub enum SignInErrorView {
    UserNotFound(Seq<char>),
    BadCredential,
    Persistence(Seq<char>),
    Configuration(TokenErrorView),
}

impl View for SignInError {
    type V = SignInErrorView;

    open spec fn view(&self) -> SignInErrorView {
        match self {
            SignInError::UserNotFound(username) => SignInErrorView::UserNotFound(username@),
            SignInError::BadCredential => SignInErrorView::BadCredential,
            SignInError::Persistence(cause) => SignInErrorView::Persistence(cause@),
            SignInError::Configuration(fault) => SignInErrorView::Configuration(fault@),
        }
    }
}

impl SignInErrorView {
    /// Unknown user or wrong password: the caller gave no valid credentials.
    pub open spec fn is_authentication_failure(self) -> bool {
        self is UserNotFound || self is BadCredential
    }

    /// The text of the failure. Both authentication failures start alike
    /// and then give their reason; a failure of the store or of the signer
    /// is its own report.
    pub open spec fn message(self) -> Seq<char> {
        match self {
            SignInErrorView::UserNotFound(username) => "sign in failed: user "@ + username
                + " doesn't exist"@,
            SignInErrorView::BadCredential => "sign in failed: incorrect password"@,
            SignInErrorView::Persistence(cause) => cause,
            SignInErrorView::Configuration(TokenErrorView::ExpiryOutOfRange) =>
                "token expiry is out of range"@,
            SignInErrorView::Configuration(TokenErrorView::Signing(cause)) => cause,
        }
    }
}

impl SignInError {
    /// Whether the failure is one of authentication.
    pub fn is_authentication_failure(&self) -> (r: bool)
        ensures
            r == self@.is_authentication_failure(),
    {
        match self {
            SignInError::UserNotFound(_) => true,
            SignInError::BadCredential => true,
            _ => false,
        }
    }

    /// The text of the failure.
    pub fn message(&self) -> (text: String)
        ensures
            text@ == self@.message(),
    {
        match self {
            SignInError::UserNotFound(username) => {
                let text = String::from_str("sign in failed: user ");
                let text = text.concat(username.as_str());
                text.concat(" doesn't exist")
            },
            SignInError::BadCredential => String::from_str("sign in failed: incorrect password"),
            SignInError::Persistence(cause) => cause.clone(),
            SignInError::Configuration(TokenError::ExpiryOutOfRange) => String::from_str(
                "token expiry is out of range",
            ),
            SignInError::Configuration(TokenError::Signing(cause)) => cause.clone(),
        }
    }
}

} // verus!
