use vstd::prelude::*;

verus! {

/// Everything that can stop a scrape.
///
/// `ProtectedAccount`, `SuspendedAccount` and `NotFound` are terminal account
/// states: expected conditions, not failures. `Parse` and `Network` are
/// operational errors; `Parse` names the field or reason that failed.
#[derive(Debug)]
pub enum NitterError {
    Parse(String),
    Network(String),
    ProtectedAccount,
    SuspendedAccount,
    NotFound,
}

/// Process exit status for a terminal account state.
pub const EXIT_ACCOUNT_STATE: u8 = 10;

/// Process exit status for an operational failure.
pub const EXIT_FAILURE: u8 = 1;

impl NitterError {
    /// Is this one of the expected terminal account states?
    pub open spec fn is_account_state(&self) -> bool {
        match self {
            NitterError::ProtectedAccount | NitterError::SuspendedAccount
            | NitterError::NotFound => true,
            _ => false,
        }
    }

    /// The exit status a command-line front end reports for this error.
    pub fn exit_code(&self) -> (r: u8)
        ensures
            self.is_account_state() ==> r == EXIT_ACCOUNT_STATE,
            !self.is_account_state() ==> r == EXIT_FAILURE,
    {
        match self {
            NitterError::ProtectedAccount | NitterError::SuspendedAccount
            | NitterError::NotFound => EXIT_ACCOUNT_STATE,
            _ => EXIT_FAILURE,
        }
    }
}

} // verus!
