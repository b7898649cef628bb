use crate::params::ParamMap;
use crate::protocol::{AuthError, ChallengeMetadata, Credentials};
use vstd::prelude::*;

verus! {

/// Everything a registration request carries: the credentials and the
/// challenge metadata as auxiliary key/value fields, in this order.
#[derive(Clone, Debug, PartialEq, Eq)]
pub struct RegistrationRequest {
    pub username: String,
    pub password: String,
    pub metadata: ParamMap,
}

/// What the one-shot registration call came back with.
#[derive(Clone, Debug, PartialEq, Eq)]
pub enum RegisterReply {
    Accepted,
    Rejected(String),
}

/// The auxiliary fields attached to a registration request.
pub open spec fn metadata_fields(metadata: ChallengeMetadata) -> Seq<(Seq<char>, Seq<char>)> {
    seq![
        ("challenge_question"@, metadata.question@),
        ("challenge_answer"@, metadata.answer@),
        ("caesar_key"@, metadata.cipher_key@),
    ]
}

/// Builds the single registration request: username, password, and the
/// challenge metadata as opaque auxiliary fields for the server to store.
pub fn build_registration_request(identity: &Credentials, metadata: &ChallengeMetadata) -> (r:
    RegistrationRequest)
    ensures
        r.username@ == identity.username@,
        r.password@ == identity.password@,
        r.metadata@ == metadata_fields(*metadata),
{
    let mut fields = ParamMap::new();
    fields.push("challenge_question".to_owned(), metadata.question.clone());
    fields.push("challenge_answer".to_owned(), metadata.answer.clone());
    fields.push("caesar_key".to_owned(), metadata.cipher_key.clone());
    proof {
        assert(fields@ =~= metadata_fields(*metadata));
    }
    RegistrationRequest {
        username: identity.username.clone(),
        password: identity.password.clone(),
        metadata: fields,
    }
}

/// Maps the reply of the registration call to the caller-facing result:
/// success, or the server's rejection message verbatim. Nothing is retried.
pub fn register_outcome(reply: &RegisterReply) -> (r: Result<(), AuthError>)
    ensures
        reply matches RegisterReply::Accepted ==> r == Ok::<(), AuthError>(()),
        reply matches RegisterReply::Rejected(m) ==> r == Err::<(), AuthError>(
            AuthError::ServiceRejected(*m),
        ),
{
    match reply {
        RegisterReply::Accepted => Ok(()),
        RegisterReply::Rejected(m) => Err(AuthError::ServiceRejected(m.clone())),
    }
}

} // verus!
