use vstd::prelude::*;
use crate::error::UklientError;

verus! {

/// The states of the credential bootstrap.
#[derive(Clone, Copy, Debug, PartialEq, Eq, Structural)]
pub enum CredentialState {
    /// No persisted credential file exists.
    NoCredentialFile,
    /// A credential file exists but has not been refreshed yet.
    StaleCredential,
    /// An interactive device-code or browser login is pending.
    AwaitingInteractiveLogin,
    /// A usable credential is in hand; terminal success.
    ValidCredential,
}

/// What the driver reports back after acting on a state.
#[derive(Debug, Clone)]
pub enum CredentialEvent {
    /// Parsing the credential file and refreshing it succeeded.
    RefreshSucceeded,
    /// Parsing the credential file or the refresh call failed.
    RefreshFailed(String),
    /// The interactive login produced a credential.
    LoginSucceeded,
    /// The interactive login failed, with a free-text reason.
    LoginFailed(String),
}

/// The transition relation of the bootstrap. `None` is the one fatal
/// outcome: a failed interactive login. An event that cannot occur in a
/// state leaves the state unchanged.
pub open spec fn spec_bootstrap_step(s: CredentialState, e: CredentialEvent) -> Option<
    CredentialState,
> {
    match s {
        CredentialState::NoCredentialFile => Some(CredentialState::AwaitingInteractiveLogin),
        CredentialState::StaleCredential => match e {
            CredentialEvent::RefreshSucceeded => Some(CredentialState::ValidCredential),
            CredentialEvent::RefreshFailed(_) => Some(CredentialState::AwaitingInteractiveLogin),
            _ => Some(CredentialState::StaleCredential),
        },
        CredentialState::AwaitingInteractiveLogin => match e {
            CredentialEvent::LoginSucceeded => Some(CredentialState::ValidCredential),
            CredentialEvent::LoginFailed(_) => None,
            _ => Some(CredentialState::AwaitingInteractiveLogin),
        },
        CredentialState::ValidCredential => Some(CredentialState::ValidCredential),
    }
}

/// The state the bootstrap starts in, from whether the credential file is
/// present on disk.
pub fn initial_state(file_present: bool) -> (r: CredentialState)
    ensures
        file_present ==> r == CredentialState::StaleCredential,
        !file_present ==> r == CredentialState::NoCredentialFile,
{
    if file_present {
        CredentialState::StaleCredential
    } else {
        CredentialState::NoCredentialFile
    }
}

/// One transition of the bootstrap. The only error ever returned is the
/// login failure; in particular a failed refresh is not an error but a
/// fall-through to the interactive login.
pub fn bootstrap_step(s: CredentialState, e: &CredentialEvent) -> (r: Result<
    CredentialState,
    UklientError,
>)
    ensures
        r matches Ok(s2) ==> spec_bootstrap_step(s, *e) == Some(s2),
        r matches Err(err) ==> spec_bootstrap_step(s, *e) is None && (err matches
            UklientError::LoginError(reason) && (e matches CredentialEvent::LoginFailed(why)
            && reason@ == why@)),
{
    match s {
        CredentialState::NoCredentialFile => Ok(CredentialState::AwaitingInteractiveLogin),
        CredentialState::StaleCredential => match e {
            CredentialEvent::RefreshSucceeded => Ok(CredentialState::ValidCredential),
            CredentialEvent::RefreshFailed(_) => Ok(CredentialState::AwaitingInteractiveLogin),
            _ => Ok(CredentialState::StaleCredential),
        },
        CredentialState::AwaitingInteractiveLogin => match e {
            CredentialEvent::LoginSucceeded => Ok(CredentialState::ValidCredential),
            CredentialEvent::LoginFailed(reason) => Err(
                UklientError::LoginError(reason.clone()),
            ),
            _ => Ok(CredentialState::AwaitingInteractiveLogin),
        },
        CredentialState::ValidCredential => Ok(CredentialState::ValidCredential),
    }
}

/// Whether the credential in hand must now be persisted, overwriting the
/// credential file in full: exactly after a successful interactive login.
/// A refresh success is returned as-is and never rewrites the file.
pub fn must_persist(s: CredentialState, e: &CredentialEvent) -> (r: bool)
    ensures
        r == (s == CredentialState::AwaitingInteractiveLogin && *e matches
            CredentialEvent::LoginSucceeded),
{
    match (s, e) {
        (CredentialState::AwaitingInteractiveLogin, CredentialEvent::LoginSucceeded) => true,
        _ => false,
    }
}

/// Law: a failed refresh of a persisted credential never propagates as an
/// error; the bootstrap falls through to the interactive login path.
pub proof fn lemma_refresh_failure_falls_back(reason: String)
    ensures
        spec_bootstrap_step(
            CredentialState::StaleCredential,
            CredentialEvent::RefreshFailed(reason),
        ) == Some(CredentialState::AwaitingInteractiveLogin),
{
}

/// Law: a valid credential is terminal; no later event moves the bootstrap
/// out of it or fails it.
pub proof fn lemma_valid_credential_terminal(e: CredentialEvent)
    ensures
        spec_bootstrap_step(CredentialState::ValidCredential, e) == Some(
            CredentialState::ValidCredential,
        ),
{
}

} // verus!
