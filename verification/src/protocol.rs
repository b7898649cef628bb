use crate::params::ParamMap;
use vstd::prelude::*;

verus! {

/// The username/password pair supplied once at sign-in or sign-up.
/// It is owned by the invoking flow and never persisted.
#[derive(Clone, Debug, PartialEq, Eq)]
pub struct Credentials {
    pub username: String,
    pub password: String,
}

/// Auxiliary data attached to a registration request. The server stores it
/// with the account and is its sole interpreter during later sign-ins.
#[derive(Clone, Debug, PartialEq, Eq)]
pub struct ChallengeMetadata {
    pub question: String,
    pub answer: String,
    pub cipher_key: String,
}

/// The challenge kinds this client knows how to answer. The server declares
/// the kind of each round by a string tag; an unrecognized tag is a protocol
/// violation, never a guessed response.
#[derive(Clone, Copy, Debug, PartialEq, Eq, Structural)]
pub enum ChallengeKind {
    Password,
    SecurityQuestion,
    Cipher,
}

/// One server-issued challenge round: its kind, the single-use session token
/// to echo back in the next request, and the server-defined parameters.
#[derive(Clone, Debug, PartialEq, Eq)]
pub struct ChallengeStep {
    pub kind: ChallengeKind,
    pub session: String,
    pub parameters: ParamMap,
}

/// The tokens handed out on successful authentication.
#[derive(Clone, Debug, PartialEq, Eq)]
pub struct AuthTokens {
    pub access_token: String,
    pub id_token: String,
    pub refresh_token: Option<String>,
}

/// A terminal authentication outcome.
#[derive(Clone, Debug, PartialEq, Eq)]
pub enum AuthOutcome {
    Authenticated(AuthTokens),
    Failed(String),
}

/// Why an authentication or registration attempt was aborted.
#[derive(Clone, Debug, PartialEq, Eq)]
pub enum AuthError {
    /// The identity provider rejected a request; the message is passed
    /// through verbatim for caller-level classification.
    ServiceRejected(String),
    /// A response violated the challenge-response invariants: missing
    /// session or kind, unrecognized kind, missing tokens at the terminal
    /// state, or too many rounds.
    ProtocolViolation,
    /// The answer source aborted before supplying input.
    Cancelled,
}

impl AuthError {
    /// A human-readable reason; a rejected request keeps the server's
    /// message verbatim.
    pub fn message(&self) -> (r: String)
        ensures
            self matches AuthError::ServiceRejected(m) ==> r@ == m@,
            self matches AuthError::ProtocolViolation ==> r@
                == "the server broke the challenge protocol"@,
            self matches AuthError::Cancelled ==> r@ == "cancelled"@,
    {
        match self {
            AuthError::ServiceRejected(m) => m.clone(),
            AuthError::ProtocolViolation => "the server broke the challenge protocol".to_owned(),
            AuthError::Cancelled => "cancelled".to_owned(),
        }
    }
}

/// The fields this client reads out of one identity-provider response:
/// an optional challenge kind tag, an optional session token, the challenge
/// parameters, and optional final tokens.
#[derive(Clone, Debug, PartialEq, Eq)]
pub struct ServerResponse {
    pub challenge_kind: Option<String>,
    pub session: Option<String>,
    pub parameters: ParamMap,
    pub tokens: Option<AuthTokens>,
}

/// What one network call came back with: a response, or a service rejection
/// carrying the server's message verbatim.
#[derive(Clone, Debug, PartialEq, Eq)]
pub enum ServerReply {
    Response(ServerResponse),
    Rejected(String),
}

/// What the answer source came back with: the entered text, or a
/// cancellation.
#[derive(Clone, Debug, PartialEq, Eq)]
pub enum AnswerReply {
    Answer(String),
    Cancelled,
}

/// One network call the driver asks its caller to issue.
#[derive(Clone, Debug, PartialEq, Eq)]
pub enum NetworkCall {
    /// Start the custom authentication flow.
    Initiate { username: String, password: String },
    /// Answer the current challenge round, echoing its session token.
    Respond { session: String, kind: ChallengeKind, payload: ParamMap },
}

/// A deep copy of a token set, equal to the given one.
pub fn clone_tokens(t: &AuthTokens) -> (r: AuthTokens)
    ensures
        r == *t,
{
    AuthTokens {
        access_token: t.access_token.clone(),
        id_token: t.id_token.clone(),
        refresh_token: match &t.refresh_token {
            Some(s) => Some(s.clone()),
            None => None,
        },
    }
}

} // verus!
