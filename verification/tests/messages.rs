use review_auth::account::Account;
use review_auth::error::SignInError;
use review_auth::exchange::Outcome;
use review_auth::page::{Page, SignIn};
use review_auth::token::TokenError;

#[test]
fn unknown_user_message_names_the_user() {
    let failure = SignInError::UserNotFound("bob".to_string());
    assert_eq!(failure.message(), "sign in failed: user bob doesn't exist");
    assert!(failure.is_authentication_failure());
}

#[test]
fn unknown_user_message_takes_any_name() {
    assert_eq!(
        SignInError::UserNotFound(String::new()).message(),
        "sign in failed: user  doesn't exist"
    );
    assert_eq!(
        SignInError::UserNotFound("j\u{fc}rgen o'neil".to_string()).message(),
        "sign in failed: user j\u{fc}rgen o'neil doesn't exist"
    );
}

#[test]
fn wrong_password_message() {
    let failure = SignInError::BadCredential;
    assert_eq!(failure.message(), "sign in failed: incorrect password");
    assert!(failure.is_authentication_failure());
}

#[test]
fn store_failure_message_is_the_report() {
    let failure = SignInError::Persistence("IO error: lock held".to_string());
    assert_eq!(failure.message(), "IO error: lock held");
    assert!(!failure.is_authentication_failure());
}

#[test]
fn configuration_messages() {
    let range = SignInError::Configuration(TokenError::ExpiryOutOfRange);
    assert_eq!(range.message(), "token expiry is out of range");
    assert!(!range.is_authentication_failure());
    let signing = SignInError::Configuration(TokenError::Signing("InvalidAlgorithm".to_string()));
    assert_eq!(signing.message(), "InvalidAlgorithm");
    assert!(!signing.is_authentication_failure());
}

#[test]
fn page_while_signing_in() {
    assert_eq!(SignIn(None), Page { heading: None, text: "Signing in".to_string() });
}

#[test]
fn page_of_a_success_shows_username_and_token() {
    let outcome: Outcome =
        Ok((Account::new("alice".to_string(), "admin".to_string()), "a.b.c".to_string()));
    assert_eq!(
        SignIn(Some(&outcome)),
        Page { heading: Some("alice".to_string()), text: "a.b.c".to_string() }
    );
}

#[test]
fn page_of_a_failure_gives_the_message() {
    let wrong: Outcome = Err(SignInError::BadCredential);
    assert_eq!(
        SignIn(Some(&wrong)),
        Page {
            heading: None,
            text: "An error occurred while signing in sign in failed: incorrect password"
                .to_string(),
        }
    );
    let unknown: Outcome = Err(SignInError::UserNotFound("bob".to_string()));
    assert_eq!(
        SignIn(Some(&unknown)).text,
        "An error occurred while signing in sign in failed: user bob doesn't exist"
    );
}
