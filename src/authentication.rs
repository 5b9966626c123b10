use vstd::prelude::*;

verus! {

/// The identity an application proves itself with: its numeric id and the
/// PEM-encoded RSA key its assertions are signed with.
pub struct AppCredential {
    app_id: u64,
    signing_key: Vec<u8>,
}

impl AppCredential {
    pub closed spec fn spec_app_id(&self) -> u64 {
        self.app_id
    }

    pub closed spec fn spec_signing_key(&self) -> Seq<u8> {
        self.signing_key@
    }

    pub fn new(app_id: u64, signing_key: Vec<u8>) -> (r: AppCredential)
        ensures
            r.spec_app_id() == app_id,
            r.spec_signing_key() == signing_key@,
    {
        AppCredential { app_id, signing_key }
    }

    pub fn app_id(&self) -> (r: u64)
        ensures
            r == self.spec_app_id(),
    {
        self.app_id
    }

    pub fn signing_key(&self) -> (r: &[u8])
        ensures
            r@ == self.spec_signing_key(),
    {
        self.signing_key.as_slice()
    }
}

/// A failure of the authentication infrastructure, as opposed to a fault in
/// the delivery.
#[derive(Debug, Clone, Copy, PartialEq, Eq, Structural)]
pub enum AuthenticationError {
    AuthenticationInfrastructureFailure,
}

/// The operations an installation-scoped client can ask for.
#[derive(Debug, Clone, PartialEq, Eq)]
pub enum Operation {
    Comment { body: Vec<u8> },
    Label { labels: Vec<Vec<u8>> },
    Merge,
    Assign { assignees: Vec<Vec<u8>> },
    RequestReview { reviewers: Vec<Vec<u8>> },
    Close,
}

/// An operation on one issue or pull request of one installation's
/// resources, ready to be carried out.
pub struct RemoteAction {
    installation: u64,
    issue: u64,
    operation: Operation,
}

impl RemoteAction {
    pub closed spec fn spec_installation(&self) -> u64 {
        self.installation
    }

    pub closed spec fn spec_issue(&self) -> u64 {
        self.issue
    }

    pub closed spec fn spec_operation(&self) -> Operation {
        self.operation
    }

    /// The installation whose resources the action touches.
    pub fn installation(&self) -> (r: u64)
        ensures
            r == self.spec_installation(),
    {
        self.installation
    }

    pub fn issue(&self) -> (r: u64)
        ensures
            r == self.spec_issue(),
    {
        self.issue
    }

    pub fn operation(&self) -> (r: &Operation)
        ensures
            *r == self.spec_operation(),
    {
        &self.operation
    }
}

/// A capability bound to exactly one installation: every action it makes
/// targets that installation's resources.
pub struct ActionableClient {
    installation: u64,
}

impl ActionableClient {
    pub closed spec fn spec_installation(&self) -> u64 {
        self.installation
    }

    /// A client for the resources of `installation`.
    pub fn scoped(installation: u64) -> (r: ActionableClient)
        ensures
            r.spec_installation() == installation,
    {
        ActionableClient { installation }
    }

    pub fn installation(&self) -> (r: u64)
        ensures
            r == self.spec_installation(),
    {
        self.installation
    }

    /// The action `operation` on `issue`, within this client's installation.
    pub fn act(&self, issue: u64, operation: Operation) -> (r: RemoteAction)
        ensures
            r.spec_installation() == self.spec_installation(),
            r.spec_issue() == issue,
            r.spec_operation() == operation,
    {
        RemoteAction { installation: self.installation, issue, operation }
    }

    pub fn comment(&self, issue: u64, body: Vec<u8>) -> (r: RemoteAction)
        ensures
            r.spec_installation() == self.spec_installation(),
            r.spec_issue() == issue,
            r.spec_operation() == (Operation::Comment { body }),
    {
        self.act(issue, Operation::Comment { body })
    }

    pub fn label(&self, issue: u64, labels: Vec<Vec<u8>>) -> (r: RemoteAction)
        ensures
            r.spec_installation() == self.spec_installation(),
            r.spec_issue() == issue,
            r.spec_operation() == (Operation::Label { labels }),
    {
        self.act(issue, Operation::Label { labels })
    }

    pub fn merge(&self, pull: u64) -> (r: RemoteAction)
        ensures
            r.spec_installation() == self.spec_installation(),
            r.spec_issue() == pull,
            r.spec_operation() == Operation::Merge,
    {
        self.act(pull, Operation::Merge)
    }

    pub fn assign(&self, issue: u64, assignees: Vec<Vec<u8>>) -> (r: RemoteAction)
        ensures
            r.spec_installation() == self.spec_installation(),
            r.spec_issue() == issue,
            r.spec_operation() == (Operation::Assign { assignees }),
    {
        self.act(issue, Operation::Assign { assignees })
    }

    pub fn request_review(&self, pull: u64, reviewers: Vec<Vec<u8>>) -> (r: RemoteAction)
        ensures
            r.spec_installation() == self.spec_installation(),
            r.spec_issue() == pull,
            r.spec_operation() == (Operation::RequestReview { reviewers }),
    {
        self.act(pull, Operation::RequestReview { reviewers })
    }

    pub fn close(&self, issue: u64) -> (r: RemoteAction)
        ensures
            r.spec_installation() == self.spec_installation(),
            r.spec_issue() == issue,
            r.spec_operation() == Operation::Close,
    {
        self.act(issue, Operation::Close)
    }
}

/// A client that, for the installation id of an event, hands out a client
/// scoped to that installation.
pub trait InstallationAuthenticator {
    fn for_installation(&self, id: u64) -> (r: Result<ActionableClient, AuthenticationError>)
        ensures
            r matches Ok(c) ==> c.spec_installation() == id,
    ;
}

/// Turns an application's credential into a client that can scope itself
/// to installations.
pub trait GitHubAuthenticator {
    type Next: InstallationAuthenticator;

    fn authenticate_app(endpoint: &[u8], credential: &AppCredential) -> Result<
        Self::Next,
        AuthenticationError,
    >;
}

/// An application client, authenticated once for the process.
pub struct AuthenticatedClient<C> {
    pub client: C,
}

/// Authenticates the application at `endpoint` with `credential`: the
/// result is exactly what `C::authenticate_app` answers on these arguments,
/// the client wrapped and an error passed on.
pub fn authenticate<C: GitHubAuthenticator>(endpoint: &[u8], credential: &AppCredential) -> (r:
    Result<AuthenticatedClient<C::Next>, AuthenticationError>)
    ensures
        match r {
            Ok(a) => call_ensures(C::authenticate_app, (endpoint, credential), Ok(a.client)),
            Err(e) => call_ensures(C::authenticate_app, (endpoint, credential), Err(e)),
        },
{
    match C::authenticate_app(endpoint, credential) {
        Ok(client) => Ok(AuthenticatedClient { client }),
        Err(e) => Err(e),
    }
}

/// A network-free authenticator: it accepts any credential and scopes
/// clients without asking anyone.
#[derive(Debug, Clone, Copy)]
pub struct OfflineAuthenticator;

impl InstallationAuthenticator for OfflineAuthenticator {
    fn for_installation(&self, id: u64) -> (r: Result<ActionableClient, AuthenticationError>)
        ensures
            r is Ok,
    {
        Ok(ActionableClient::scoped(id))
    }
}

impl GitHubAuthenticator for OfflineAuthenticator {
    type Next = OfflineAuthenticator;

    fn authenticate_app(endpoint: &[u8], credential: &AppCredential) -> (r: Result<
        OfflineAuthenticator,
        AuthenticationError,
    >)
        ensures
            r is Ok,
    {
        Ok(OfflineAuthenticator)
    }
}

/// A client obtained for installation `x` (what `for_installation`
/// ensures) makes actions only within its own installation (what each of
/// its operations ensures), so none reaches the resources of another
/// installation `y`.
pub proof fn lemma_client_stays_in_installation(
    client: ActionableClient,
    action: RemoteAction,
    x: u64,
    y: u64,
)
    requires
        client.spec_installation() == x,
        action.spec_installation() == client.spec_installation(),
        x != y,
    ensures
        action.spec_installation() == x,
        action.spec_installation() != y,
{
}

} // verus!
