use crate::params::ParamMap;
use crate::protocol::{
    clone_tokens, AnswerReply, AuthError, AuthOutcome, ChallengeKind, ChallengeStep, Credentials,
    NetworkCall, ServerReply, ServerResponse,
};
use crate::responder::{
    answer, answer_with_input, entered_payload, params_sufficient, password_payload, prompt_label,
    ResponderAction,
};
use vstd::prelude::*;

verus! {

/// Externally supplied configuration for one authentication attempt.
#[derive(Clone, Copy, Debug, PartialEq, Eq)]
pub struct DriverConfig {
    /// The most challenge rounds the driver answers before treating the
    /// server as misbehaving.
    pub max_rounds: usize,
}

/// What the driver decided after reading one server reply.
#[derive(Debug, PartialEq, Eq)]
pub enum ServerStep {
    /// The attempt is over; nothing further is issued.
    Finish(Result<AuthOutcome, AuthError>),
    /// Issue this network call next.
    Submit(NetworkCall),
    /// Ask the answer source under the given label, then hand its reply and
    /// the kept challenge step to `process_answer`.
    AwaitAnswer(ChallengeStep, String),
}

/// What the driver decided after hearing from the answer source.
#[derive(Debug, PartialEq, Eq)]
pub enum AnswerStep {
    /// The attempt is over; the pending network call is never issued.
    Finish(Result<AuthOutcome, AuthError>),
    /// Issue this network call next.
    Submit(NetworkCall),
}

/// The recognized challenge kind named by a server tag, if any.
pub open spec fn spec_parse_kind(tag: Seq<char>) -> Option<ChallengeKind> {
    if tag == "PASSWORD"@ {
        Some(ChallengeKind::Password)
    } else if tag == "QUESTION"@ {
        Some(ChallengeKind::SecurityQuestion)
    } else if tag == "CIPHER"@ {
        Some(ChallengeKind::Cipher)
    } else {
        None
    }
}

/// Maps a server-declared tag to the challenge kind it names; an
/// unrecognized tag maps to nothing rather than to a guessed kind.
pub fn parse_kind(tag: &String) -> (r: Option<ChallengeKind>)
    ensures
        r == spec_parse_kind(tag@),
{
    if *tag == "PASSWORD".to_owned() {
        Some(ChallengeKind::Password)
    } else if *tag == "QUESTION".to_owned() {
        Some(ChallengeKind::SecurityQuestion)
    } else if *tag == "CIPHER".to_owned() {
        Some(ChallengeKind::Cipher)
    } else {
        None
    }
}

/// A response payload with the fixed username field put in front.
pub open spec fn with_username(
    payload: Seq<(Seq<char>, Seq<char>)>,
    username: Seq<char>,
) -> Seq<(Seq<char>, Seq<char>)> {
    seq![("USERNAME"@, username)] + payload
}

/// Merges the fixed username field into a round's response payload.
fn merge_username(payload: ParamMap, username: &String) -> (r: ParamMap)
    ensures
        r@ == with_username(payload@, username@),
{
    let ghost before = payload@;
    let mut pairs = payload.pairs;
    pairs.insert(0, ("USERNAME".to_owned(), username.clone()));
    let r = ParamMap { pairs };
    proof {
        assert(r@ =~= with_username(before, username@));
    }
    r
}

/// What the driver must decide for a (non-rejected) server response after
/// `rounds` submitted challenge answers. This is the whole dispatch rule:
/// a first response without a challenge, and any later response with
/// neither challenge nor tokens, is a protocol violation, as are a missing
/// session, an unrecognized kind, insufficient parameters, and a round
/// past the configured bound; tokens without a further challenge end the
/// attempt; a password challenge is answered from the credentials at once;
/// the other kinds turn to the answer source.
pub open spec fn expected_server_step(
    rounds: int,
    resp: ServerResponse,
    identity: Credentials,
    config: DriverConfig,
    r: ServerStep,
) -> bool {
    match resp.challenge_kind {
        None => {
            if rounds == 0 {
                r == ServerStep::Finish(Err(AuthError::ProtocolViolation))
            } else {
                match resp.tokens {
                    Some(t) => r == ServerStep::Finish(Ok(AuthOutcome::Authenticated(t))),
                    None => r == ServerStep::Finish(Err(AuthError::ProtocolViolation)),
                }
            }
        },
        Some(tag) => match spec_parse_kind(tag@) {
            None => r == ServerStep::Finish(Err(AuthError::ProtocolViolation)),
            Some(kind) => match resp.session {
                None => r == ServerStep::Finish(Err(AuthError::ProtocolViolation)),
                Some(sess) => {
                    if rounds >= config.max_rounds {
                        r == ServerStep::Finish(Err(AuthError::ProtocolViolation))
                    } else if !params_sufficient(kind, resp.parameters@) {
                        r == ServerStep::Finish(Err(AuthError::ProtocolViolation))
                    } else if kind == ChallengeKind::Password {
                        &&& r matches ServerStep::Submit(
                            NetworkCall::Respond { session, kind: k, payload },
                        )
                        &&& session@ == sess@
                        &&& k == kind
                        &&& payload@ == with_username(
                            password_payload(identity),
                            identity.username@,
                        )
                    } else {
                        &&& r matches ServerStep::AwaitAnswer(step, label)
                        &&& step.kind == kind
                        &&& step.session@ == sess@
                        &&& step.parameters@ == resp.parameters@
                        &&& label@ == prompt_label(kind, resp.parameters@)->0
                    }
                },
            },
        },
    }
}

/// Reads one server reply and decides the next move of the protocol state
/// machine. A service rejection ends the attempt with the server's message
/// verbatim; everything else follows `expected_server_step`. In
/// particular, an unrecognized challenge kind and an exceeded round bound
/// end the attempt with a protocol violation, so no further network call
/// is issued for them.
pub fn process_server_reply(
    rounds_done: usize,
    reply: &ServerReply,
    identity: &Credentials,
    config: &DriverConfig,
) -> (r: ServerStep)
    ensures
        reply matches ServerReply::Rejected(m) ==> r == ServerStep::Finish(
            Err(AuthError::ServiceRejected(*m)),
        ),
        reply matches ServerReply::Response(resp) ==> expected_server_step(
            rounds_done as int,
            *resp,
            *identity,
            *config,
            r,
        ),
{
    match reply {
        ServerReply::Rejected(m) => ServerStep::Finish(Err(AuthError::ServiceRejected(m.clone()))),
        ServerReply::Response(resp) => match &resp.challenge_kind {
            None => {
                if rounds_done == 0 {
                    ServerStep::Finish(Err(AuthError::ProtocolViolation))
                } else {
                    match &resp.tokens {
                        Some(t) => ServerStep::Finish(
                            Ok(AuthOutcome::Authenticated(clone_tokens(t))),
                        ),
                        None => ServerStep::Finish(Err(AuthError::ProtocolViolation)),
                    }
                }
            },
            Some(tag) => match parse_kind(tag) {
                None => ServerStep::Finish(Err(AuthError::ProtocolViolation)),
                Some(kind) => match &resp.session {
                    None => ServerStep::Finish(Err(AuthError::ProtocolViolation)),
                    Some(sess) => {
                        if rounds_done >= config.max_rounds {
                            ServerStep::Finish(Err(AuthError::ProtocolViolation))
                        } else {
                            match answer(kind, &resp.parameters, identity) {
                                Err(e) => ServerStep::Finish(Err(e)),
                                Ok(ResponderAction::Ready(payload)) => ServerStep::Submit(
                                    NetworkCall::Respond {
                                        session: sess.clone(),
                                        kind,
                                        payload: merge_username(payload, &identity.username),
                                    },
                                ),
                                Ok(ResponderAction::NeedsInput(label)) => ServerStep::AwaitAnswer(
                                    ChallengeStep {
                                        kind,
                                        session: sess.clone(),
                                        parameters: resp.parameters.duplicate(),
                                    },
                                    label,
                                ),
                            }
                        }
                    },
                },
            },
        },
    }
}

/// Hears from the answer source for the kept challenge step. A
/// cancellation ends the attempt at once, so the pending network call is
/// never issued; entered text becomes the round's response payload, under
/// the round's own session token.
pub fn process_answer(step: ChallengeStep, reply: &AnswerReply, identity: &Credentials) -> (r:
    AnswerStep)
    ensures
        reply matches AnswerReply::Cancelled ==> r == AnswerStep::Finish(
            Err(AuthError::Cancelled),
        ),
        reply matches AnswerReply::Answer(text) ==> ({
            &&& r matches AnswerStep::Submit(NetworkCall::Respond { session, kind, payload })
            &&& session@ == step.session@
            &&& kind == step.kind
            &&& payload@ == with_username(entered_payload(text@), identity.username@)
        }),
{
    match reply {
        AnswerReply::Cancelled => AnswerStep::Finish(Err(AuthError::Cancelled)),
        AnswerReply::Answer(text) => {
            let payload = answer_with_input(text.clone());
            AnswerStep::Submit(NetworkCall::Respond {
                session: step.session,
                kind: step.kind,
                payload: merge_username(payload, &identity.username),
            })
        },
    }
}

/// The record of one driven authentication attempt against a scripted
/// transcript: the terminal result (`None` when the script ran out before
/// the protocol did) and every network call issued, in order.
#[derive(Debug, PartialEq, Eq)]
pub struct TranscriptOutcome {
    pub result: Option<Result<AuthOutcome, AuthError>>,
    pub calls: Vec<NetworkCall>,
}

/// Whether this reply is a well-formed challenge round this client can
/// process: a recognized kind, a session token, and the parameters the
/// responder needs.
pub open spec fn good_challenge(reply: ServerReply) -> bool {
    &&& reply matches ServerReply::Response(resp)
    &&& resp.challenge_kind matches Some(tag)
    &&& spec_parse_kind(tag@) matches Some(kind)
    &&& resp.session is Some
    &&& params_sufficient(kind, resp.parameters@)
}

/// Whether this reply is a challenge round whose answer comes from the
/// answer source rather than from the credentials.
pub open spec fn prompt_round(reply: ServerReply) -> bool {
    &&& reply matches ServerReply::Response(resp)
    &&& resp.challenge_kind matches Some(tag)
    &&& spec_parse_kind(tag@) matches Some(kind)
    &&& kind != ChallengeKind::Password
}

/// The number of prompt-backed rounds among the first `n` replies.
pub open spec fn prompt_count(replies: Seq<ServerReply>, n: int) -> int
    decreases n,
{
    if n <= 0 {
        0
    } else {
        prompt_count(replies, n - 1) + if prompt_round(replies[n - 1]) {
            1int
        } else {
            0int
        }
    }
}

proof fn lemma_prompt_count_mono(replies: Seq<ServerReply>, n: int, m: int)
    requires
        0 <= n <= m,
    ensures
        prompt_count(replies, n) <= prompt_count(replies, m),
    decreases m,
{
    if n < m {
        lemma_prompt_count_mono(replies, n, m - 1);
    }
}

/// Whether the reply carries tokens and no further challenge: the shape,
/// and the only shape, on which an attempt ends authenticated.
pub open spec fn terminal_success(reply: ServerReply) -> bool {
    &&& reply matches ServerReply::Response(resp)
    &&& resp.challenge_kind is None
    &&& resp.tokens is Some
}

/// Whether the run ended by accepting exactly this reply's tokens.
pub open spec fn accepted_tokens_of(
    reply: ServerReply,
    result: Option<Result<AuthOutcome, AuthError>>,
) -> bool {
    &&& reply matches ServerReply::Response(resp)
    &&& resp.tokens matches Some(t)
    &&& result == Some(Ok::<AuthOutcome, AuthError>(AuthOutcome::Authenticated(t)))
}

/// Whether the result is a terminal authentication success.
pub open spec fn authenticated(result: Option<Result<AuthOutcome, AuthError>>) -> bool {
    result matches Some(Ok(AuthOutcome::Authenticated(_)))
}

/// A transcript on which the whole flow must succeed: at least one
/// challenge round, every round before the last well formed and within the
/// configured bound, a terminal success reply at the end, and an answer
/// source that supplies text for every prompt without cancelling.
pub open spec fn successful_script(
    replies: Seq<ServerReply>,
    answers: Seq<AnswerReply>,
    config: DriverConfig,
) -> bool {
    &&& 2 <= replies.len()
    &&& replies.len() - 1 <= config.max_rounds
    &&& forall|i: int| 0 <= i < replies.len() - 1 ==> good_challenge(#[trigger] replies[i])
    &&& terminal_success(replies[replies.len() - 1])
    &&& prompt_count(replies, replies.len() - 1) <= answers.len()
    &&& forall|j: int|
        0 <= j < answers.len() ==> (#[trigger] answers[j]) matches AnswerReply::Answer(_)
}

/// The run ended at once with this rejection's message, verbatim.
pub open spec fn rejected_with(
    reply: ServerReply,
    result: Option<Result<AuthOutcome, AuthError>>,
) -> bool {
    &&& reply matches ServerReply::Rejected(m)
    &&& result == Some(Err::<AuthOutcome, AuthError>(AuthError::ServiceRejected(m)))
}

/// The opening call of every attempt: initiate, with the given credentials.
pub open spec fn initiate_for(call: NetworkCall, identity: Credentials) -> bool {
    &&& call matches NetworkCall::Initiate { username, password }
    &&& username@ == identity.username@
    &&& password@ == identity.password@
}

/// The call echoes the single-use session token that this reply issued.
pub open spec fn echoes_session(call: NetworkCall, reply: ServerReply) -> bool {
    &&& call matches NetworkCall::Respond { session, .. }
    &&& reply matches ServerReply::Response(resp)
    &&& resp.session matches Some(s)
    &&& session@ == s@
}

/// Call `j` of a run answers reply `j - 1`, echoing its session token; the
/// initiate call stands at position 0 and echoes nothing. So each round's
/// token is used in exactly one subsequent call and then discarded; a
/// stale token is never re-submitted.
pub open spec fn session_discipline(calls: Seq<NetworkCall>, replies: Seq<ServerReply>) -> bool {
    forall|j: int| 1 <= j < calls.len() ==> echoes_session(#[trigger] calls[j], replies[j - 1])
}

/// Drives one whole authentication attempt against a scripted transcript:
/// `replies[j]` answers the j-th network call issued, `answers[k]` the
/// k-th prompt put to the answer source.
///
/// The contract carries the protocol laws: the first call initiates with
/// the given credentials and every later call echoes the session token of
/// the reply it answers; a script of N well-formed challenge rounds and a
/// terminal success reply yields exactly N + 1 calls and the final tokens;
/// a rejected opening request ends the attempt with the server's message
/// verbatim and no further call; and the attempt ends authenticated only
/// by accepting a reply that carries tokens and no further challenge.
pub fn run_transcript(
    identity: &Credentials,
    config: &DriverConfig,
    replies: &Vec<ServerReply>,
    answers: &Vec<AnswerReply>,
) -> (out: TranscriptOutcome)
    ensures
        1 <= out.calls@.len() <= replies@.len() + 1,
        initiate_for(out.calls@[0], *identity),
        session_discipline(out.calls@, replies@),
        (replies@.len() >= 1 && replies@[0] is Rejected) ==> ({
            &&& rejected_with(replies@[0], out.result)
            &&& out.calls@.len() == 1
        }),
        successful_script(replies@, answers@, *config) ==> ({
            &&& out.calls@.len() == replies@.len()
            &&& accepted_tokens_of(replies@[replies@.len() - 1], out.result)
        }),
        authenticated(out.result) ==> ({
            &&& out.calls@.len() <= replies@.len()
            &&& accepted_tokens_of(replies@[out.calls@.len() - 1], out.result)
        }),
{
    let mut calls: Vec<NetworkCall> = Vec::new();
    calls.push(
        NetworkCall::Initiate {
            username: identity.username.clone(),
            password: identity.password.clone(),
        },
    );
    let mut r: usize = 0;
    let mut a: usize = 0;
    loop
        invariant
            r <= replies@.len(),
            a <= answers@.len(),
            calls@.len() == r + 1,
            initiate_for(calls@[0], *identity),
            session_discipline(calls@, replies@),
            // a rejection ends the run in the round that hears it, so the
            // opening reply of a run that got anywhere was not one
            r >= 1 ==> !(replies@[0] is Rejected),
            successful_script(replies@, answers@, *config) ==> ({
                &&& r < replies@.len()
                &&& a == prompt_count(replies@, r as int)
            }),
        decreases replies@.len() - r,
    {
        if r >= replies.len() {
            return TranscriptOutcome { result: None, calls };
        }
        let step = process_server_reply(r, &replies[r], identity, config);
        match step {
            ServerStep::Finish(res) => {
                proof {
                    if successful_script(replies@, answers@, *config) {
                        // a well-formed challenge round within the bound never
                        // ends the attempt, so this is the terminal reply
                        assert(r == replies@.len() - 1);
                    }
                }
                return TranscriptOutcome { result: Some(res), calls };
            },
            ServerStep::Submit(call) => {
                proof {
                    assert(echoes_session(call, replies@[r as int]));
                    if successful_script(replies@, answers@, *config) {
                        assert(r < replies@.len() - 1);
                        assert(!prompt_round(replies@[r as int]));
                    }
                }
                calls.push(call);
            },
            ServerStep::AwaitAnswer(chal, _label) => {
                proof {
                    if successful_script(replies@, answers@, *config) {
                        assert(r < replies@.len() - 1);
                        assert(prompt_round(replies@[r as int]));
                        lemma_prompt_count_mono(replies@, r as int + 1, replies@.len() - 1);
                        assert(a < answers@.len());
                    }
                }
                if a >= answers.len() {
                    return TranscriptOutcome { result: None, calls };
                }
                let astep = process_answer(chal, &answers[a], identity);
                match astep {
                    AnswerStep::Finish(res) => {
                        proof {
                            if successful_script(replies@, answers@, *config) {
                                // the answer source never cancels on a
                                // successful script
                                assert(false);
                            }
                        }
                        return TranscriptOutcome { result: Some(res), calls };
                    },
                    AnswerStep::Submit(call) => {
                        proof {
                            assert(echoes_session(call, replies@[r as int]));
                        }
                        calls.push(call);
                        a += 1;
                    },
                }
            },
        }
        r += 1;
    }
}

} // verus!
