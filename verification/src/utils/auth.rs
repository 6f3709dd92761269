//! What the authentication client answers.
use vstd::prelude::*;

verus! {

/// What an [`AuthOutcome`] holds.
pub enum AuthOutcomeView {
    Success,
    Unauthorized,
    TransportError(Seq<char>),
}

/// The answer to one authentication exchange. The client reports every failure
/// through this value and never aborts its caller.
#[derive(Debug, PartialEq, Eq)]
pub enum AuthOutcome {
    /// The service accepted the credentials.
    Success,
    /// The service refused the credentials; the user can correct them.
    Unauthorized,
    /// The exchange itself failed; the text describes how.
    TransportError(String),
}

impl View for AuthOutcome {
    type V = AuthOutcomeView;

    open spec fn view(&self) -> AuthOutcomeView {
        match self {
            AuthOutcome::Success => AuthOutcomeView::Success,
            AuthOutcome::Unauthorized => AuthOutcomeView::Unauthorized,
            AuthOutcome::TransportError(description) => AuthOutcomeView::TransportError(
                description@,
            ),
        }
    }
}

} // verus!
