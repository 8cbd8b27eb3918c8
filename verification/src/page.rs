//! What a caller is shown of a sign-in.

use crate::exchange::{outcome_view, Outcome, OutcomeView};
use vstd::prelude::*;
use vstd::string::*;

verus! {

/// The text shown for a sign-in: a heading, where there is one, and a line below it.
#[derive(Debug, PartialEq, Eq)]
pub struct Page {
    pub heading: Option<String>,
    pub text: String,
}

/// A page as a mathematical value.
pub struct PageView {
    pub heading: Option<Seq<char>>,
    pub text: Seq<char>,
}

impl View for Page {
    type V = PageView;

    open spec fn view(&self) -> PageView {
        PageView {
            heading: match self.heading {
                Some(heading) => Some(heading@),
                None => None,
            },
            text: self.text@,
        }
    }
}

/// The page for a sign-in that stands at `progress`: `None` while it is
/// under way, then its outcome. A success shows the username over the
/// token, a failure says that an error occurred and gives its message.
pub open spec fn sign_in_page(progress: Option<OutcomeView>) -> PageView {
    match progress {
        None => PageView { heading: None, text: "Signing in"@ },
        Some(Ok((account, token))) => PageView { heading: Some(account.username), text: token },
        Some(Err(e)) => PageView {
            heading: None,
            text: "An error occurred while signing in "@ + e.message(),
        },
    }
}

/// The view of a sign-in's progress.
pub open spec fn progress_view(progress: Option<&Outcome>) -> Option<OutcomeView> {
    match progress {
        Some(outcome) => Some(outcome_view(*outcome)),
        None => None,
    }
}

/// Lays out the page for a sign-in that stands at `progress`.
#[allow(non_snake_case)]
pub fn SignIn(progress: Option<&Outcome>) -> (page: Page)
    ensures
        page@ == sign_in_page(progress_view(progress)),
{
    match progress {
        None => Page { heading: None, text: String::from_str("Signing in") },
        Some(Ok((account, token))) => Page {
            heading: Some(account.username.clone()),
            text: token.clone(),
        },
        Some(Err(e)) => {
            let message = e.message();
            let text = String::from_str("An error occurred while signing in ");
            Page { heading: None, text: text.concat(message.as_str()) }
        },
    }
}

} // verus!
