use crate::params::{lookup, ParamMap};
use crate::protocol::{AuthError, ChallengeKind, Credentials};
use vstd::prelude::*;
use vstd::string::StringExecFns;

verus! {

/// What the responder decided for one challenge round: either the payload is
/// already complete, or the answer source must first be asked, under the
/// given label.
#[derive(Clone, Debug, PartialEq, Eq)]
pub enum ResponderAction {
    Ready(ParamMap),
    NeedsInput(String),
}

/// The payload answering a password challenge: the password itself.
pub open spec fn password_payload(identity: Credentials) -> Seq<(Seq<char>, Seq<char>)> {
    seq![("ANSWER"@, identity.password@)]
}

/// The payload answering a prompt-backed challenge: the entered text.
pub open spec fn entered_payload(text: Seq<char>) -> Seq<(Seq<char>, Seq<char>)> {
    seq![("ANSWER"@, text)]
}

/// The label under which a prompt-backed challenge is put to the answer
/// source: the declared question, with the server's cipher prompt shown
/// verbatim in front of it for a cipher challenge. `None` when the
/// parameters lack a required field (or the kind needs no prompt).
pub open spec fn prompt_label(kind: ChallengeKind, params: Seq<(Seq<char>, Seq<char>)>) -> Option<
    Seq<char>,
> {
    match kind {
        ChallengeKind::Password => None,
        ChallengeKind::SecurityQuestion => lookup(params, "question"@),
        ChallengeKind::Cipher => match (lookup(params, "prompt"@), lookup(params, "question"@)) {
            (Some(p), Some(q)) => Some(p + " "@ + q),
            _ => None,
        },
    }
}

/// Whether the declared parameters carry everything the responder needs for
/// this kind.
pub open spec fn params_sufficient(kind: ChallengeKind, params: Seq<(Seq<char>, Seq<char>)>) -> bool {
    kind == ChallengeKind::Password || prompt_label(kind, params) is Some
}

/// Decides how to answer one challenge round. A password challenge is
/// answered from the credentials at once; a security-question or cipher
/// challenge needs the answer source; missing required parameters are a
/// protocol violation.
pub fn answer(kind: ChallengeKind, parameters: &ParamMap, identity: &Credentials) -> (r: Result<
    ResponderAction,
    AuthError,
>)
    ensures
        kind == ChallengeKind::Password ==> (r matches Ok(ResponderAction::Ready(p))
            && p@ == password_payload(*identity)),
        (kind != ChallengeKind::Password && prompt_label(kind, parameters@) is Some) ==> (
        r matches Ok(ResponderAction::NeedsInput(label)) && label@ == prompt_label(
            kind,
            parameters@,
        )->0),
        kind != ChallengeKind::Password && prompt_label(kind, parameters@) is None ==> r == Err::<
            ResponderAction,
            AuthError,
        >(AuthError::ProtocolViolation),
{
    match kind {
        ChallengeKind::Password => {
            let mut p = ParamMap::new();
            p.push("ANSWER".to_owned(), identity.password.clone());
            proof {
                assert(p@ =~= password_payload(*identity));
            }
            Ok(ResponderAction::Ready(p))
        },
        ChallengeKind::SecurityQuestion => match parameters.get(&"question".to_owned()) {
            Some(q) => Ok(ResponderAction::NeedsInput(q)),
            None => Err(AuthError::ProtocolViolation),
        },
        ChallengeKind::Cipher => {
            let p = parameters.get(&"prompt".to_owned());
            let q = parameters.get(&"question".to_owned());
            match (p, q) {
                (Some(p), Some(q)) => Ok(
                    ResponderAction::NeedsInput(p.concat(" ").concat(q.as_str())),
                ),
                _ => Err(AuthError::ProtocolViolation),
            }
        },
    }
}

/// Completes a prompt-backed round once the answer source has replied.
pub fn answer_with_input(text: String) -> (r: ParamMap)
    ensures
        r@ == entered_payload(text@),
{
    let ghost t = text@;
    let mut p = ParamMap::new();
    p.push("ANSWER".to_owned(), text);
    proof {
        assert(p@ =~= entered_payload(t));
    }
    p
}

} // verus!
