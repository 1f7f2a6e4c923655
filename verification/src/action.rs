//! The actions that change the application state.
use crate::alert::Alert;
use vstd::prelude::*;

verus! {

/// A change of the application state.
#[derive(Debug)]
pub enum Action {
    AuthRequire,
    AddAlert(Alert),
    Fetch,
    Fetched,
    Logged,
    RemoveAlert(usize),
    WebsocketError,
    NeedUpdate,
    Route(String),
}

/// Why a call to the API did not give its result.
#[derive(Debug)]
pub enum Failure {
    /// The user is not (or no longer) authenticated.
    Auth,
    /// Any other failure, with the text that describes it.
    Other(String),
}

impl From<Alert> for Action {
    fn from(value: Alert) -> (action: Self) {
        Self::AddAlert(value)
    }
}

impl vstd::std_specs::convert::FromSpecImpl<Alert> for Action {
    open spec fn obeys_from_spec() -> bool {
        true
    }

    open spec fn from_spec(v: Alert) -> Self {
        Action::AddAlert(v)
    }
}

impl Action {
    /// The action that answers a failed call: a failed authentication asks
    /// the user to log in again, any other failure becomes an error alert
    /// carrying its text.
    pub fn from_failure(failure: Failure) -> (action: Self)
        ensures
            failure is Auth ==> action is AuthRequire,
            failure matches Failure::Other(message) ==> action matches Action::AddAlert(alert) && alert.level
                == crate::alert::Level::Error && alert.message@ == message@,
    {
        match failure {
            Failure::Auth => Action::AuthRequire,
            Failure::Other(message) => Action::AddAlert(Alert::error(message.as_str())),
        }
    }
}

} // verus!
