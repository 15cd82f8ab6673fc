//! The shape of the exchange with the attestation server: the endpoint the
//! request is posted to, the structured response, and how a caller must
//! branch on it. The network call itself is the embedding application's;
//! everything decided about it is here.

use vstd::prelude::*;
use vstd::string::*;

verus! {

/// The server's structured reply. A reply with a false acceptance flag is
/// not a transport error: it is a complete response the caller branches
/// on.
#[derive(Clone, Debug)]
pub struct AuthResponse {
    pub success: bool,
    pub client_id: Option<String>,
    pub trust_score: Option<u8>,
    pub warnings: Vec<String>,
    pub error: Option<String>,
}

/// How a caller must read a structurally valid response.
#[derive(Clone, Copy, Debug, PartialEq, Eq, Structural)]
pub enum AuthOutcome {
    /// The server accepted the attestation.
    Accepted,
    /// The server rejected it and said why.
    Rejected,
    /// Neither accepted nor explained: degraded but parseable, still the
    /// caller's to handle.
    Degraded,
}

/// The two recoverable transport failures, distinct so that the caller can
/// choose its own retry policy: the exchange itself failed, or the reply
/// was not a structurally valid response. This library retries nothing.
#[derive(Clone, Copy, Debug, PartialEq, Eq, Structural)]
pub enum TransportError {
    /// Connection refused, timeout, or name resolution failure.
    ConnectionFailed,
    /// The reply body did not parse as an `AuthResponse`.
    MalformedResponse,
}

impl AuthResponse {
    /// Classifies this response: accepted exactly when the acceptance flag
    /// is set; rejected exactly when it is clear and an error message is
    /// present; degraded otherwise.
    pub fn outcome(&self) -> (r: AuthOutcome)
        ensures
            self.success ==> r == AuthOutcome::Accepted,
            !self.success && self.error is Some ==> r == AuthOutcome::Rejected,
            !self.success && self.error is None ==> r == AuthOutcome::Degraded,
    {
        if self.success {
            AuthOutcome::Accepted
        } else if self.error.is_some() {
            AuthOutcome::Rejected
        } else {
            AuthOutcome::Degraded
        }
    }
}

/// Knows where to authenticate: holds the caller-supplied base URL of the
/// attestation server.
pub struct ClientAuthenticator {
    pub server_url: String,
}

impl ClientAuthenticator {
    /// A new authenticator for the given server base URL.
    pub fn new(server_url: &str) -> (r: Self)
        ensures
            r.server_url@ == server_url@,
    {
        Self { server_url: String::from_str(server_url) }
    }

    /// The well-known path the request is posted to, under the configured
    /// base URL.
    pub fn endpoint(&self) -> (r: String)
        ensures
            r@ == self.server_url@ + "/v1/client/auth"@,
    {
        self.server_url.clone().concat("/v1/client/auth")
    }
}

} // verus!
