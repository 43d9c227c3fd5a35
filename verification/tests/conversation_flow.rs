use proxy_rewrite::chat_model::ChallengeType;
use proxy_rewrite::conversation::{conv_begin, conv_resume, ConvEvent, ConvState, ConvStep};
use proxy_rewrite::errors::RewriteError;
use proxy_rewrite::rewrite::{
    ChallengeReply, InboundRequest, PendingCall, SentinelReply, SessionReply,
};

fn conv_request(body: Option<&[u8]>, cookie: Option<&str>, auth: Option<&str>) -> InboundRequest {
    InboundRequest {
        path: "/backend-api/conversation".to_string(),
        method: "POST".to_string(),
        cookie: cookie.map(|c| c.to_string()),
        authorization: auth.map(|a| a.to_string()),
        body: body.map(|b| b.to_vec()),
    }
}

fn expect_pending(r: Result<ConvStep, RewriteError>) -> (ConvState, PendingCall) {
    match r.unwrap() {
        ConvStep::Pending(s, c) => (s, c),
        ConvStep::Done(_) => panic!("expected a pending call"),
    }
}

#[test]
fn full_conversation_rewrite() {
    let req = conv_request(Some(br#"{"model":"gpt-4"}"#), None, Some("Bearer abc"));
    let (st, call) = expect_pending(conv_begin(&req, false));
    match &call {
        PendingCall::GetSessionId { credential, model } => {
            assert_eq!(credential, "abc");
            assert_eq!(model, "gpt-4");
        }
        _ => panic!("expected the session-cache call first"),
    }
    let (st, call) = expect_pending(conv_resume(
        st,
        ConvEvent::Session(SessionReply::Issued("sid123".to_string())),
    ));
    match &call {
        PendingCall::FetchSentinel { credential } => assert_eq!(credential, "abc"),
        _ => panic!("expected the sentinel fetch next"),
    }
    let (st, call) = expect_pending(conv_resume(
        st,
        ConvEvent::Sentinel(SentinelReply::Response {
            status: 200,
            body: br#"{"token":"sent456"}"#.to_vec(),
        }),
    ));
    match &call {
        PendingCall::AcquireChallenge { typed, identifier } => {
            assert_eq!(*typed, ChallengeType::Gpt4);
            assert_eq!(identifier.as_deref(), Some("abc"));
        }
        _ => panic!("expected the challenge acquisition last"),
    }
    match conv_resume(
        st,
        ConvEvent::Challenge(ChallengeReply::Token("chal789".to_string())),
    )
    .unwrap()
    {
        ConvStep::Done(m) => {
            assert_eq!(m.cookie_header.as_deref(), Some("puid=sid123;"));
            assert_eq!(m.sentinel_header.as_deref(), Some("sent456"));
            assert_eq!(m.challenge_header.as_deref(), Some("chal789"));
            assert_eq!(
                m.new_body.as_deref(),
                Some(br#"{"model":"gpt-4","arkose_token":"chal789"}"#.as_slice())
            );
        }
        _ => panic!("expected the rewrite to finish"),
    }
}

#[test]
fn end_to_end_without_model_fails_before_any_call() {
    // same request as the full rewrite, but the model field is absent: the
    // very first step fails, so no call is ever handed to the driver and no
    // header is touched
    let req = conv_request(Some(br#"{"messages":[]}"#), None, Some("Bearer abc"));
    assert_eq!(conv_begin(&req, false).err(), Some(RewriteError::ModelRequired));
}

#[test]
fn missing_model_is_rejected() {
    let req = conv_request(Some(br#"{"foo":"bar"}"#), None, Some("Bearer abc"));
    assert_eq!(conv_begin(&req, false).err(), Some(RewriteError::ModelRequired));
}

#[test]
fn non_string_model_is_rejected() {
    let req = conv_request(Some(br#"{"model":5}"#), None, Some("Bearer abc"));
    assert_eq!(conv_begin(&req, false).err(), Some(RewriteError::ModelRequired));
}

#[test]
fn missing_body_is_rejected() {
    let req = conv_request(None, None, Some("Bearer abc"));
    assert_eq!(conv_begin(&req, false).err(), Some(RewriteError::BodyRequired));
}

#[test]
fn unparsable_body_is_rejected() {
    let req = conv_request(Some(b"{\"model\":"), None, Some("Bearer abc"));
    assert_eq!(conv_begin(&req, false).err(), Some(RewriteError::InvalidJson));
}

#[test]
fn non_object_body_is_rejected() {
    let req = conv_request(Some(br#"[1,2]"#), None, Some("Bearer abc"));
    assert_eq!(
        conv_begin(&req, false).err(),
        Some(RewriteError::BodyMustBeJsonObject)
    );
}

#[test]
fn missing_bearer_is_rejected() {
    let req = conv_request(Some(br#"{"model":"gpt-4"}"#), None, None);
    assert_eq!(
        conv_begin(&req, false).err(),
        Some(RewriteError::AccessTokenRequired)
    );
    let req = conv_request(Some(br#"{"model":"gpt-4"}"#), None, Some("token-without-scheme"));
    assert_eq!(
        conv_begin(&req, false).err(),
        Some(RewriteError::AccessTokenRequired)
    );
}

#[test]
fn off_route_requests_are_untouched() {
    let mut req = conv_request(Some(br#"not even json"#), None, None);
    req.method = "GET".to_string();
    match conv_begin(&req, true).unwrap() {
        ConvStep::Done(m) => {
            assert!(m.cookie_header.is_none());
            assert!(m.sentinel_header.is_none());
            assert!(m.challenge_header.is_none());
            assert!(m.new_body.is_none());
        }
        _ => panic!("a non-matching request must be a no-op"),
    }
    let mut req = conv_request(Some(br#"{}"#), None, None);
    req.path = "/backend-api/models".to_string();
    assert!(matches!(conv_begin(&req, true), Ok(ConvStep::Done(_))));
}

#[test]
fn existing_cookie_skips_session_cache() {
    let req = conv_request(
        Some(br#"{"model":"gpt-4"}"#),
        Some("foo=1; puid=existing"),
        Some("Bearer abc"),
    );
    let (_, call) = expect_pending(conv_begin(&req, false));
    assert!(matches!(call, PendingCall::FetchSentinel { .. }));
}

#[test]
fn cookie_without_marker_still_asks_cache() {
    let req = conv_request(
        Some(br#"{"model":"gpt-4"}"#),
        Some("theme=dark"),
        Some("Bearer abc"),
    );
    let (_, call) = expect_pending(conv_begin(&req, false));
    assert!(matches!(call, PendingCall::GetSessionId { .. }));
}

#[test]
fn session_absent_sets_no_cookie() {
    let req = conv_request(Some(br#"{"model":"gpt-4","arkose_token":"tok"}"#), None, Some("Bearer abc"));
    let (st, _) = expect_pending(conv_begin(&req, false));
    let (st, _) = expect_pending(conv_resume(st, ConvEvent::Session(SessionReply::Absent)));
    match conv_resume(
        st,
        ConvEvent::Sentinel(SentinelReply::Response {
            status: 200,
            body: br#"{"token":"s"}"#.to_vec(),
        }),
    )
    .unwrap()
    {
        ConvStep::Done(m) => {
            assert!(m.cookie_header.is_none());
            assert_eq!(m.challenge_header.as_deref(), Some("tok"));
            assert!(m.new_body.is_none());
        }
        _ => panic!("expected the rewrite to finish"),
    }
}

#[test]
fn existing_challenge_token_is_mirrored_not_refetched() {
    let req = conv_request(
        Some(br#"{"model":"gpt-4","arkose_token":"tok123"}"#),
        Some("puid=x"),
        Some("Bearer abc"),
    );
    let (st, _) = expect_pending(conv_begin(&req, false));
    match conv_resume(
        st,
        ConvEvent::Sentinel(SentinelReply::Response {
            status: 200,
            body: br#"{"token":"sent"}"#.to_vec(),
        }),
    )
    .unwrap()
    {
        ConvStep::Done(m) => {
            assert_eq!(m.challenge_header.as_deref(), Some("tok123"));
            assert!(m.new_body.is_none(), "the body must be left untouched");
        }
        _ => panic!("no broker call may happen with a usable token present"),
    }
}

#[test]
fn empty_or_null_challenge_token_needs_a_fresh_one() {
    for body in [
        br#"{"model":"gpt-4","arkose_token":""}"#.as_slice(),
        br#"{"model":"gpt-4","arkose_token":"null"}"#.as_slice(),
        br#"{"model":"gpt-4","arkose_token":7}"#.as_slice(),
    ] {
        let req = conv_request(Some(body), Some("puid=x"), Some("Bearer abc"));
        let (st, _) = expect_pending(conv_begin(&req, false));
        let (_, call) = expect_pending(conv_resume(
            st,
            ConvEvent::Sentinel(SentinelReply::Response {
                status: 200,
                body: br#"{"token":"s"}"#.to_vec(),
            }),
        ));
        assert!(matches!(call, PendingCall::AcquireChallenge { .. }));
    }
}

#[test]
fn gpt3_challenge_only_under_experiment() {
    for (experiment, expects_challenge) in [(false, false), (true, true)] {
        let req = conv_request(
            Some(br#"{"model":"gpt-3.5-turbo"}"#),
            Some("puid=x"),
            Some("Bearer abc"),
        );
        let (st, _) = expect_pending(conv_begin(&req, experiment));
        let step = conv_resume(
            st,
            ConvEvent::Sentinel(SentinelReply::Response {
                status: 200,
                body: br#"{"token":"s"}"#.to_vec(),
            }),
        )
        .unwrap();
        match step {
            ConvStep::Pending(_, PendingCall::AcquireChallenge { typed, identifier }) => {
                assert!(expects_challenge);
                assert_eq!(typed, ChallengeType::Gpt3);
                assert_eq!(identifier.as_deref(), Some("abc"));
            }
            ConvStep::Done(m) => {
                assert!(!expects_challenge);
                assert!(m.challenge_header.is_none());
                assert!(m.new_body.is_none());
            }
            _ => panic!("unexpected step"),
        }
    }
}

#[test]
fn unrecognized_model_is_rejected() {
    let req = conv_request(Some(br#"{"model":"davinci"}"#), Some("puid=x"), Some("Bearer abc"));
    let (st, _) = expect_pending(conv_begin(&req, false));
    let r = conv_resume(
        st,
        ConvEvent::Sentinel(SentinelReply::Response {
            status: 200,
            body: br#"{"token":"s"}"#.to_vec(),
        }),
    );
    assert_eq!(r.err(), Some(RewriteError::InvalidModel));
}

#[test]
fn sentinel_hard_and_soft_outcomes() {
    let begin = || {
        let req = conv_request(Some(br#"{"model":"gpt-4"}"#), Some("puid=x"), Some("Bearer abc"));
        expect_pending(conv_begin(&req, false)).0
    };
    // non-success status: hard error
    let r = conv_resume(
        begin(),
        ConvEvent::Sentinel(SentinelReply::Response { status: 403, body: b"{}".to_vec() }),
    );
    assert_eq!(r.err(), Some(RewriteError::SentinelRejected));
    // unparsable body: hard error
    let r = conv_resume(
        begin(),
        ConvEvent::Sentinel(SentinelReply::Response { status: 200, body: b"nope".to_vec() }),
    );
    assert_eq!(r.err(), Some(RewriteError::SentinelUnparsable));
    // transport failure: hard error
    let r = conv_resume(begin(), ConvEvent::Sentinel(SentinelReply::TransportFailed));
    assert_eq!(r.err(), Some(RewriteError::SentinelTransport));
    // token field absent or not a string: soft, continue without the header
    for body in [br#"{"x":1}"#.as_slice(), br#"{"token":9}"#.as_slice(), br#"[1]"#.as_slice()] {
        let (_, call) = expect_pending(conv_resume(
            begin(),
            ConvEvent::Sentinel(SentinelReply::Response { status: 200, body: body.to_vec() }),
        ));
        assert!(matches!(call, PendingCall::AcquireChallenge { .. }));
    }
}

#[test]
fn collaborator_failures_abort() {
    let req = conv_request(Some(br#"{"model":"gpt-4"}"#), None, Some("Bearer abc"));
    let (st, _) = expect_pending(conv_begin(&req, false));
    let r = conv_resume(st, ConvEvent::Session(SessionReply::Failed));
    assert_eq!(r.err(), Some(RewriteError::SessionCacheFailed));

    let req = conv_request(Some(br#"{"model":"gpt-4"}"#), Some("puid=x"), Some("Bearer abc"));
    let (st, _) = expect_pending(conv_begin(&req, false));
    let (st, _) = expect_pending(conv_resume(
        st,
        ConvEvent::Sentinel(SentinelReply::Response {
            status: 200,
            body: br#"{"token":"s"}"#.to_vec(),
        }),
    ));
    let r = conv_resume(st, ConvEvent::Challenge(ChallengeReply::Failed));
    assert_eq!(r.err(), Some(RewriteError::ChallengeBrokerFailed));
}

#[test]
fn unprintable_session_id_is_rejected() {
    let req = conv_request(Some(br#"{"model":"gpt-4"}"#), None, Some("Bearer abc"));
    let (st, _) = expect_pending(conv_begin(&req, false));
    let r = conv_resume(
        st,
        ConvEvent::Session(SessionReply::Issued("bad\nsid".to_string())),
    );
    assert_eq!(r.err(), Some(RewriteError::InvalidHeaderValue));
}
