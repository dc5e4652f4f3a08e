//! Building a session: from the deployment's secrets to an authenticated client.
//!
//! Reading the credential file and constructing the authenticator are the host's
//! work. This module decides what the host does next and classifies each failure.

use vstd::prelude::*;

verus! {

/// The deployment's secret store, as the hosting platform hands it over.
#[verifier::external_type_specification]
#[verifier::external_body]
pub struct ExSecretStore(shuttle_secrets::SecretStore);

/// A parsed service-account key.
#[verifier::external_type_specification]
#[verifier::external_body]
pub struct ExServiceAccountKey(yup_oauth2::ServiceAccountKey);

/// The error that key parsing reports.
#[verifier::external_type_specification]
#[verifier::external_body]
pub struct ExIoError(std::io::Error);

/// The secrets a store holds, by key.
pub uninterp spec fn secrets_of(store: shuttle_secrets::SecretStore) -> Map<Seq<char>, Seq<char>>;

/// Whether `content` is a service-account key in the provider's JSON key format,
/// as `yup_oauth2::parse_service_account_key` judges it.
pub uninterp spec fn service_account_key_parses(content: Seq<u8>) -> bool;

/// The secret that names the credential file.
pub const SA_CREDENTIALS_PATH: &'static str = "SA_CREDENTIALS_PATH";

/// Why a session could not be built.
#[derive(Clone, Copy, Debug, PartialEq, Eq, Structural)]
pub enum BuildHubError {
    /// The secret store holds no `SA_CREDENTIALS_PATH`.
    ConfigError,
    /// The credential file is missing, unreadable or malformed.
    CredentialError,
    /// The authenticator or its transport could not be constructed.
    AuthError,
}

/// How far the construction of a session has come.
#[derive(Clone, Copy, Debug, PartialEq, Eq, Structural)]
pub enum HubStage {
    /// The host has been asked for the credential file's content.
    LoadingCredential,
    /// The host has been asked to construct the authenticator.
    Authenticating,
    /// The session is built.
    Ready,
    /// Construction failed; nothing more is attempted.
    Failed(BuildHubError),
}

/// What the host observed while doing what it was last asked to do.
#[derive(Debug)]
pub enum HubEvent {
    /// The credential file was read; `content` is its bytes.
    CredentialLoaded { content: Vec<u8> },
    /// The credential file is missing or could not be read.
    CredentialUnreadable,
    /// The authenticator and its transport were constructed.
    Authenticated,
    /// Constructing the authenticator or its transport failed.
    AuthenticationFailed,
}

/// What the host is asked to do next.
#[derive(Debug)]
pub enum HubAction {
    /// Read the file at `path`, resolved against the process working directory.
    LoadCredential { path: String },
    /// Construct an authenticator bound to `key` and a TLS transport with the
    /// platform's trust roots, HTTP/1.1 at least.
    Authenticate { key: yup_oauth2::ServiceAccountKey },
    /// Hand the finished session to the caller.
    Finish,
    /// Do nothing: construction has failed, or the event did not belong to the stage.
    Stop,
}

/// The stage that follows `stage` when the host reports `event`.
///
/// An event that does not answer what the stage asked for changes nothing, and
/// neither `Ready` nor `Failed` is ever left.
pub open spec fn stage_after(stage: HubStage, event: HubEvent) -> HubStage {
    match (stage, event) {
        (HubStage::LoadingCredential, HubEvent::CredentialLoaded { content }) => {
            if service_account_key_parses(content@) {
                HubStage::Authenticating
            } else {
                HubStage::Failed(BuildHubError::CredentialError)
            }
        },
        (HubStage::LoadingCredential, HubEvent::CredentialUnreadable) => HubStage::Failed(
            BuildHubError::CredentialError,
        ),
        (HubStage::Authenticating, HubEvent::Authenticated) => HubStage::Ready,
        (HubStage::Authenticating, HubEvent::AuthenticationFailed) => HubStage::Failed(
            BuildHubError::AuthError,
        ),
        _ => stage,
    }
}

/// Whether `action` is what the host is owed on the move from `before` to `after`:
/// the next request while construction advances, the hand-over on completion,
/// and nothing at all otherwise.
pub open spec fn action_answers(before: HubStage, after: HubStage, action: HubAction) -> bool {
    if before == after {
        action is Stop
    } else {
        match after {
            HubStage::LoadingCredential => action is LoadCredential,
            HubStage::Authenticating => action is Authenticate,
            HubStage::Ready => action is Finish,
            HubStage::Failed(_) => action is Stop,
        }
    }
}

/// `SecretStore::get`: the value stored under `key`, or `None` when the store
/// holds no such key.
#[verifier::external_body]
fn secret_get(store: &shuttle_secrets::SecretStore, key: &str) -> (value: Option<String>)
    ensures
        value.is_some() == secrets_of(*store).contains_key(key@),
        value matches Some(v) ==> v@ == secrets_of(*store)[key@],
{
    store.get(key)
}

/// `yup_oauth2::parse_service_account_key`: the key that `content` spells out, or
/// the parser's error when `content` is not a key in the JSON key format.
#[verifier::external_body]
fn parse_key(content: &Vec<u8>) -> (parsed: Result<yup_oauth2::ServiceAccountKey, std::io::Error>)
    ensures
        parsed.is_ok() == service_account_key_parses(content@),
{
    yup_oauth2::parse_service_account_key(content)
}

/// Starts building a session from the deployment's secrets.
///
/// With `SA_CREDENTIALS_PATH` present the host is asked to load the file it
/// names. Without it construction fails with `ConfigError` on the spot, and the
/// host is asked for nothing: no file is read and no connection is opened.
pub fn build_hub(secret_store: &shuttle_secrets::SecretStore) -> (step: (HubStage, HubAction))
    ensures
        secrets_of(*secret_store).contains_key(SA_CREDENTIALS_PATH@) ==> {
            &&& step.0 == HubStage::LoadingCredential
            &&& step.1 matches HubAction::LoadCredential { path }
            &&& path@ == secrets_of(*secret_store)[SA_CREDENTIALS_PATH@]
        },
        !secrets_of(*secret_store).contains_key(SA_CREDENTIALS_PATH@) ==> {
            &&& step.0 == HubStage::Failed(BuildHubError::ConfigError)
            &&& step.1 is Stop
        },
{
    match secret_get(secret_store, SA_CREDENTIALS_PATH) {
        Some(path) => (HubStage::LoadingCredential, HubAction::LoadCredential { path }),
        None => (HubStage::Failed(BuildHubError::ConfigError), HubAction::Stop),
    }
}

/// Takes the construction one step further on the host's report.
///
/// A credential that cannot be read or parsed ends in `CredentialError`, a
/// failed authenticator in `AuthError`. No failure is retried.
pub fn resume_hub(stage: HubStage, event: HubEvent) -> (step: (HubStage, HubAction))
    ensures
        step.0 == stage_after(stage, event),
        action_answers(stage, step.0, step.1),
{
    match (stage, event) {
        (HubStage::LoadingCredential, HubEvent::CredentialLoaded { content }) => {
            match parse_key(&content) {
                Ok(key) => (HubStage::Authenticating, HubAction::Authenticate { key }),
                Err(_) => (HubStage::Failed(BuildHubError::CredentialError), HubAction::Stop),
            }
        },
        (HubStage::LoadingCredential, HubEvent::CredentialUnreadable) => (
            HubStage::Failed(BuildHubError::CredentialError),
            HubAction::Stop,
        ),
        (HubStage::Authenticating, HubEvent::Authenticated) => (HubStage::Ready, HubAction::Finish),
        (HubStage::Authenticating, HubEvent::AuthenticationFailed) => (
            HubStage::Failed(BuildHubError::AuthError),
            HubAction::Stop,
        ),
        (stage, _) => (stage, HubAction::Stop),
    }
}

/// A build that has ended, in `Ready` or in `Failed`, stays as it ended and asks
/// the host for nothing, whatever is reported afterwards.
pub proof fn lemma_ended_build_is_final(stage: HubStage, event: HubEvent)
    requires
        stage is Ready || stage is Failed,
    ensures
        stage_after(stage, event) == stage,
        forall|action: HubAction|
            action_answers(stage, stage_after(stage, event), action) ==> action is Stop,
{
}

} // verus!
