use auth_test::driver::{run_transcript, DriverConfig};
use auth_test::params::ParamMap;
use auth_test::protocol::{
    AnswerReply, AuthError, AuthOutcome, AuthTokens, ChallengeKind, Credentials, NetworkCall,
    ServerReply, ServerResponse,
};

fn creds() -> Credentials {
    Credentials { username: "alice".to_string(), password: "hunter2".to_string() }
}

fn cfg() -> DriverConfig {
    DriverConfig { max_rounds: 10 }
}

fn pm(pairs: &[(&str, &str)]) -> ParamMap {
    let mut m = ParamMap::new();
    for (k, v) in pairs {
        m.push(k.to_string(), v.to_string());
    }
    m
}

fn challenge(kind: &str, session: &str, params: &[(&str, &str)]) -> ServerReply {
    ServerReply::Response(ServerResponse {
        challenge_kind: Some(kind.to_string()),
        session: Some(session.to_string()),
        parameters: pm(params),
        tokens: None,
    })
}

fn tokens_reply(access: &str, id: &str) -> ServerReply {
    ServerReply::Response(ServerResponse {
        challenge_kind: None,
        session: None,
        parameters: pm(&[]),
        tokens: Some(AuthTokens {
            access_token: access.to_string(),
            id_token: id.to_string(),
            refresh_token: None,
        }),
    })
}

fn answers(texts: &[&str]) -> Vec<AnswerReply> {
    texts.iter().map(|t| AnswerReply::Answer(t.to_string())).collect()
}

fn respond_call(session: &str, kind: ChallengeKind, payload: &[(&str, &str)]) -> NetworkCall {
    NetworkCall::Respond { session: session.to_string(), kind, payload: pm(payload) }
}

#[test]
fn scenario_password_then_question_authenticates() {
    let replies = vec![
        challenge("PASSWORD", "S1", &[]),
        challenge("QUESTION", "S2", &[("question", "Pet name?")]),
        tokens_reply("A", "I"),
    ];
    let out = run_transcript(&creds(), &cfg(), &replies, &answers(&["Rex"]));
    assert_eq!(
        out.result,
        Some(Ok(AuthOutcome::Authenticated(AuthTokens {
            access_token: "A".to_string(),
            id_token: "I".to_string(),
            refresh_token: None,
        })))
    );
    assert_eq!(out.calls.len(), 3);
    assert_eq!(
        out.calls[0],
        NetworkCall::Initiate { username: "alice".to_string(), password: "hunter2".to_string() }
    );
    assert_eq!(
        out.calls[1],
        respond_call(
            "S1",
            ChallengeKind::Password,
            &[("USERNAME", "alice"), ("ANSWER", "hunter2")],
        )
    );
    assert_eq!(
        out.calls[2],
        respond_call(
            "S2",
            ChallengeKind::SecurityQuestion,
            &[("USERNAME", "alice"), ("ANSWER", "Rex")],
        )
    );
}

#[test]
fn scenario_initiate_rejected_issues_no_further_call() {
    let replies = vec![ServerReply::Rejected("Incorrect username or password.".to_string())];
    let out = run_transcript(&creds(), &cfg(), &replies, &answers(&[]));
    assert_eq!(
        out.result,
        Some(Err(AuthError::ServiceRejected("Incorrect username or password.".to_string())))
    );
    assert_eq!(out.calls.len(), 1);
    assert!(matches!(out.calls[0], NetworkCall::Initiate { .. }));
}

#[test]
fn three_rounds_issue_four_calls() {
    let replies = vec![
        challenge("PASSWORD", "S1", &[]),
        challenge("QUESTION", "S2", &[("question", "Pet name?")]),
        challenge("CIPHER", "S3", &[("prompt", "Xfmdpnf"), ("question", "Decode this")]),
        tokens_reply("A", "I"),
    ];
    let out = run_transcript(&creds(), &cfg(), &replies, &answers(&["Rex", "Welcome"]));
    assert_eq!(out.calls.len(), 4);
    assert!(matches!(
        out.result,
        Some(Ok(AuthOutcome::Authenticated(_)))
    ));
    assert_eq!(
        out.calls[3],
        respond_call("S3", ChallengeKind::Cipher, &[("USERNAME", "alice"), ("ANSWER", "Welcome")])
    );
}

#[test]
fn each_session_token_is_echoed_exactly_once() {
    let replies = vec![
        challenge("PASSWORD", "S1", &[]),
        challenge("QUESTION", "S2", &[("question", "Pet name?")]),
        challenge("CIPHER", "S3", &[("prompt", "Xfmdpnf"), ("question", "Decode this")]),
        tokens_reply("A", "I"),
    ];
    let out = run_transcript(&creds(), &cfg(), &replies, &answers(&["Rex", "Welcome"]));
    let sessions: Vec<String> = out
        .calls
        .iter()
        .filter_map(|c| match c {
            NetworkCall::Respond { session, .. } => Some(session.clone()),
            NetworkCall::Initiate { .. } => None,
        })
        .collect();
    assert_eq!(sessions, vec!["S1".to_string(), "S2".to_string(), "S3".to_string()]);
}

#[test]
fn unrecognized_kind_is_protocol_violation_with_no_further_call() {
    let replies = vec![challenge("SMS_OTP", "S1", &[]), tokens_reply("A", "I")];
    let out = run_transcript(&creds(), &cfg(), &replies, &answers(&[]));
    assert_eq!(out.result, Some(Err(AuthError::ProtocolViolation)));
    assert_eq!(out.calls.len(), 1);
}

#[test]
fn cancelling_mid_round_yields_cancelled_without_the_pending_call() {
    let replies = vec![
        challenge("PASSWORD", "S1", &[]),
        challenge("QUESTION", "S2", &[("question", "Pet name?")]),
        tokens_reply("A", "I"),
    ];
    let out = run_transcript(&creds(), &cfg(), &replies, &vec![AnswerReply::Cancelled]);
    assert_eq!(out.result, Some(Err(AuthError::Cancelled)));
    assert_eq!(out.calls.len(), 2);
}

#[test]
fn exceeding_the_round_bound_is_protocol_violation() {
    let replies = vec![
        challenge("PASSWORD", "S1", &[]),
        challenge("QUESTION", "S2", &[("question", "Pet name?")]),
        challenge("QUESTION", "S3", &[("question", "Again?")]),
        tokens_reply("A", "I"),
    ];
    let tight = DriverConfig { max_rounds: 2 };
    let out = run_transcript(&creds(), &tight, &replies, &answers(&["Rex", "Rex"]));
    assert_eq!(out.result, Some(Err(AuthError::ProtocolViolation)));
    assert_eq!(out.calls.len(), 3);
}

#[test]
fn missing_first_challenge_is_protocol_violation() {
    let replies = vec![tokens_reply("A", "I")];
    let out = run_transcript(&creds(), &cfg(), &replies, &answers(&[]));
    assert_eq!(out.result, Some(Err(AuthError::ProtocolViolation)));
    assert_eq!(out.calls.len(), 1);
}

#[test]
fn missing_session_is_protocol_violation() {
    let replies = vec![ServerReply::Response(ServerResponse {
        challenge_kind: Some("PASSWORD".to_string()),
        session: None,
        parameters: pm(&[]),
        tokens: None,
    })];
    let out = run_transcript(&creds(), &cfg(), &replies, &answers(&[]));
    assert_eq!(out.result, Some(Err(AuthError::ProtocolViolation)));
    assert_eq!(out.calls.len(), 1);
}

#[test]
fn missing_tokens_at_terminal_state_is_protocol_violation() {
    let replies = vec![
        challenge("PASSWORD", "S1", &[]),
        ServerReply::Response(ServerResponse {
            challenge_kind: None,
            session: None,
            parameters: pm(&[]),
            tokens: None,
        }),
    ];
    let out = run_transcript(&creds(), &cfg(), &replies, &answers(&[]));
    assert_eq!(out.result, Some(Err(AuthError::ProtocolViolation)));
    assert_eq!(out.calls.len(), 2);
}

#[test]
fn missing_question_parameter_is_protocol_violation() {
    let replies = vec![challenge("QUESTION", "S1", &[])];
    let out = run_transcript(&creds(), &cfg(), &replies, &answers(&["Rex"]));
    assert_eq!(out.result, Some(Err(AuthError::ProtocolViolation)));
    assert_eq!(out.calls.len(), 1);
}

#[test]
fn rejected_challenge_answer_keeps_the_message_verbatim() {
    let replies = vec![
        challenge("PASSWORD", "S1", &[]),
        ServerReply::Rejected("Incorrect username or password.".to_string()),
    ];
    let out = run_transcript(&creds(), &cfg(), &replies, &answers(&[]));
    assert_eq!(
        out.result,
        Some(Err(AuthError::ServiceRejected("Incorrect username or password.".to_string())))
    );
    assert_eq!(out.calls.len(), 2);
}

#[test]
fn exhausted_script_yields_no_result() {
    let replies = vec![challenge("PASSWORD", "S1", &[])];
    let out = run_transcript(&creds(), &cfg(), &replies, &answers(&[]));
    assert_eq!(out.result, None);
    assert_eq!(out.calls.len(), 2);
}
