//! The conversation-endpoint rewriter, as a step machine.  `conv_begin`
//! inspects the request; whenever an external call is needed (the session
//! cache, the sentinel fetch, the challenge broker) it hands the driver a
//! `PendingCall`, and `conv_resume` consumes the reply.  The machine's whole
//! behaviour is stated by `conv_begin_v` and `conv_resume_rel` over the
//! request's and replies' views.
use crate::chat_model::{model_of, spec_challenge_gate, spec_model_of};
use crate::errors::RewriteError;
use crate::headers::{bearer_token, check_header_value, cookie_value, has_puid, spec_bearer,
    spec_cookie_value, spec_has_puid, valid_header_value};
use crate::jsonio::{doc_fields, doc_is_object, doc_within_depth, is_object, parse_json, parsed_json, probe_field,
    set_string_field, to_json_bytes, FieldProbe, JsonVal, ParsedJson};
use crate::rewrite::{CallV, ChallengeReply, ChallengeReplyV, InboundRequest, MutV, Mutations,
    PendingCall, ReqV, SentinelReply, SentinelReplyV, SessionReply, SessionReplyV};
use crate::sentinel::{sentinel_token_of, spec_sentinel_body, SentinelBodyV};
use crate::strutil::str_eq;
use vstd::pervasive::unreached;
use vstd::prelude::*;

verus! {

/// Whether a request is for the conversation endpoint at all.
pub open spec fn conv_route(path: Seq<char>, method: Seq<char>) -> bool {
    path == "/backend-api/conversation"@ && method == "POST"@
}

/// A conversation rewrite waiting for one external reply.  The parsed body
/// document and the mutations gathered so far ride along.
pub enum ConvState {
    /// Waiting for the session cache's get-or-init answer.
    AwaitSession {
        doc: serde_json::Value,
        credential: String,
        model: String,
        experiment: bool,
        muts: Mutations,
    },
    /// Waiting for the sentinel endpoint's response.
    AwaitSentinel {
        doc: serde_json::Value,
        credential: String,
        model: String,
        experiment: bool,
        muts: Mutations,
    },
    /// Waiting for the challenge broker's token.
    AwaitChallenge { doc: serde_json::Value, muts: Mutations },
}

/// Spec view of a waiting rewrite: the body document by its fields.
#[verifier::ext_equal]
pub enum ConvStateV {
    AwaitSession {
        fields: Map<Seq<char>, JsonVal>,
        credential: Seq<char>,
        model: Seq<char>,
        experiment: bool,
        muts: MutV,
    },
    AwaitSentinel {
        fields: Map<Seq<char>, JsonVal>,
        credential: Seq<char>,
        model: Seq<char>,
        experiment: bool,
        muts: MutV,
    },
    AwaitChallenge { fields: Map<Seq<char>, JsonVal>, muts: MutV },
}

impl View for ConvState {
    type V = ConvStateV;

    open spec fn view(&self) -> ConvStateV {
        match self {
            ConvState::AwaitSession { doc, credential, model, experiment, muts } => ConvStateV::AwaitSession {
                fields: doc_fields(*doc),
                credential: credential@,
                model: model@,
                experiment: *experiment,
                muts: muts@,
            },
            ConvState::AwaitSentinel { doc, credential, model, experiment, muts } => ConvStateV::AwaitSentinel {
                fields: doc_fields(*doc),
                credential: credential@,
                model: model@,
                experiment: *experiment,
                muts: muts@,
            },
            ConvState::AwaitChallenge { doc, muts } => ConvStateV::AwaitChallenge {
                fields: doc_fields(*doc),
                muts: muts@,
            },
        }
    }
}

impl ConvState {
    /// The carried document is a JSON object within the parser's nesting
    /// limit, as `parse_json` produced it; every state the machine hands
    /// out satisfies this.
    pub open spec fn wf(self) -> bool {
        match self {
            ConvState::AwaitSession { doc, .. } => doc_is_object(doc) && doc_within_depth(doc),
            ConvState::AwaitSentinel { doc, .. } => doc_is_object(doc) && doc_within_depth(doc),
            ConvState::AwaitChallenge { doc, .. } => doc_is_object(doc) && doc_within_depth(doc),
        }
    }
}

/// A reply the driver hands back to `conv_resume`.
pub enum ConvEvent {
    Session(SessionReply),
    Sentinel(SentinelReply),
    Challenge(ChallengeReply),
}

/// Spec view of a reply.
#[verifier::ext_equal]
pub enum ConvEventV {
    Session(SessionReplyV),
    Sentinel(SentinelReplyV),
    Challenge(ChallengeReplyV),
}

impl View for ConvEvent {
    type V = ConvEventV;

    open spec fn view(&self) -> ConvEventV {
        match self {
            ConvEvent::Session(rep) => ConvEventV::Session(rep@),
            ConvEvent::Sentinel(rep) => ConvEventV::Sentinel(rep@),
            ConvEvent::Challenge(rep) => ConvEventV::Challenge(rep@),
        }
    }
}

/// Which reply kind a waiting rewrite expects.
pub open spec fn accepts(s: ConvStateV, e: ConvEventV) -> bool {
    match (s, e) {
        (ConvStateV::AwaitSession { .. }, ConvEventV::Session(_)) => true,
        (ConvStateV::AwaitSentinel { .. }, ConvEventV::Sentinel(_)) => true,
        (ConvStateV::AwaitChallenge { .. }, ConvEventV::Challenge(_)) => true,
        _ => false,
    }
}

/// What one call of `conv_begin` or `conv_resume` produced: a further call
/// to make, or the finished mutations.
pub enum ConvStep {
    Pending(ConvState, PendingCall),
    Done(Mutations),
}

/// Spec view of a step result, with failure folded in.
#[verifier::ext_equal]
pub enum ConvStepV {
    Pending(ConvStateV, CallV),
    Done(MutV),
    Fail(RewriteError),
}

/// The view of a step function's whole result.
pub open spec fn step_view(r: Result<ConvStep, RewriteError>) -> ConvStepV {
    match r {
        Ok(ConvStep::Pending(s, c)) => ConvStepV::Pending(s@, c@),
        Ok(ConvStep::Done(m)) => ConvStepV::Done(m@),
        Err(e) => ConvStepV::Fail(e),
    }
}

/// What `conv_begin` does, over the request's view: route check, body and
/// model validation, credential extraction, then either the session-cache
/// call or — when a session cookie is already present — straight to the
/// sentinel fetch, with no cache call at all.
pub open spec fn conv_begin_v(req: ReqV, experiment: bool) -> ConvStepV {
    if !conv_route(req.path, req.method) {
        ConvStepV::Done(MutV::empty())
    } else if req.body is None {
        ConvStepV::Fail(RewriteError::BodyRequired)
    } else {
        match parsed_json(req.body->0) {
            ParsedJson::Invalid => ConvStepV::Fail(RewriteError::InvalidJson),
            ParsedJson::NotObject => ConvStepV::Fail(RewriteError::BodyMustBeJsonObject),
            ParsedJson::Object(f) => {
                if !(f.contains_key("model"@) && f["model"@] is Str) {
                    ConvStepV::Fail(RewriteError::ModelRequired)
                } else {
                    match spec_bearer(req.authorization) {
                        None => ConvStepV::Fail(RewriteError::AccessTokenRequired),
                        Some(credential) => {
                            let model = f["model"@]->Str_0;
                            if spec_has_puid(req.cookie) {
                                ConvStepV::Pending(
                                    ConvStateV::AwaitSentinel {
                                        fields: f,
                                        credential,
                                        model,
                                        experiment,
                                        muts: MutV::empty(),
                                    },
                                    CallV::FetchSentinel { credential },
                                )
                            } else {
                                ConvStepV::Pending(
                                    ConvStateV::AwaitSession {
                                        fields: f,
                                        credential,
                                        model,
                                        experiment,
                                        muts: MutV::empty(),
                                    },
                                    CallV::GetSessionId { credential, model },
                                )
                            }
                        },
                    }
                }
            },
        }
    }
}

/// The conversation rewrite after the sentinel step: classify the model,
/// decide whether a challenge token is needed, and either finish — reusing
/// a usable `arkose_token` already in the body — or demand one from the
/// broker.
pub open spec fn conv_after_sentinel(
    fields: Map<Seq<char>, JsonVal>,
    credential: Seq<char>,
    model: Seq<char>,
    experiment: bool,
    muts: MutV,
) -> ConvStepV {
    match spec_model_of(model) {
        None => ConvStepV::Fail(RewriteError::InvalidModel),
        Some(m) => {
            if !spec_challenge_gate(m, experiment) {
                ConvStepV::Done(muts)
            } else {
                let k = "arkose_token"@;
                if fields.contains_key(k) && fields[k] is Str && fields[k]->Str_0.len() > 0
                    && fields[k]->Str_0 != "null"@ {
                    let s = fields[k]->Str_0;
                    if valid_header_value(s) {
                        ConvStepV::Done(
                            MutV {
                                challenge_header: Some(s),
                                cookie_header: muts.cookie_header,
                                sentinel_header: muts.sentinel_header,
                                new_body: muts.new_body,
                            },
                        )
                    } else {
                        ConvStepV::Fail(RewriteError::InvalidHeaderValue)
                    }
                } else {
                    ConvStepV::Pending(
                        ConvStateV::AwaitChallenge { fields, muts },
                        CallV::AcquireChallenge {
                            typed: m.spec_challenge_type(),
                            identifier: Some(credential),
                        },
                    )
                }
            }
        },
    }
}

/// What `conv_resume` does on every reply except a fresh broker token
/// (whose serialized body is stated relationally by `conv_resume_rel`).
pub open spec fn conv_resume_v(s: ConvStateV, e: ConvEventV) -> ConvStepV {
    match (s, e) {
        (
            ConvStateV::AwaitSession { fields, credential, model, experiment, muts },
            ConvEventV::Session(rep),
        ) => match rep {
            SessionReplyV::Failed => ConvStepV::Fail(RewriteError::SessionCacheFailed),
            SessionReplyV::Absent => ConvStepV::Pending(
                ConvStateV::AwaitSentinel { fields, credential, model, experiment, muts },
                CallV::FetchSentinel { credential },
            ),
            SessionReplyV::Issued(sid) => {
                let cv = spec_cookie_value(sid);
                if valid_header_value(cv) {
                    ConvStepV::Pending(
                        ConvStateV::AwaitSentinel {
                            fields,
                            credential,
                            model,
                            experiment,
                            muts: MutV {
                                cookie_header: Some(cv),
                                sentinel_header: muts.sentinel_header,
                                challenge_header: muts.challenge_header,
                                new_body: muts.new_body,
                            },
                        },
                        CallV::FetchSentinel { credential },
                    )
                } else {
                    ConvStepV::Fail(RewriteError::InvalidHeaderValue)
                }
            },
        },
        (
            ConvStateV::AwaitSentinel { fields, credential, model, experiment, muts },
            ConvEventV::Sentinel(rep),
        ) => match rep {
            SentinelReplyV::TransportFailed => ConvStepV::Fail(RewriteError::SentinelTransport),
            SentinelReplyV::Response { status, body } => {
                if status >= 400 {
                    ConvStepV::Fail(RewriteError::SentinelRejected)
                } else {
                    match spec_sentinel_body(body) {
                        SentinelBodyV::Unparsable => ConvStepV::Fail(
                            RewriteError::SentinelUnparsable,
                        ),
                        SentinelBodyV::NoToken => conv_after_sentinel(
                            fields,
                            credential,
                            model,
                            experiment,
                            muts,
                        ),
                        SentinelBodyV::Token(t) => {
                            if valid_header_value(t) {
                                conv_after_sentinel(
                                    fields,
                                    credential,
                                    model,
                                    experiment,
                                    MutV {
                                        sentinel_header: Some(t),
                                        cookie_header: muts.cookie_header,
                                        challenge_header: muts.challenge_header,
                                        new_body: muts.new_body,
                                    },
                                )
                            } else {
                                ConvStepV::Fail(RewriteError::InvalidHeaderValue)
                            }
                        },
                    }
                }
            },
        },
        (ConvStateV::AwaitChallenge { .. }, ConvEventV::Challenge(ChallengeReplyV::Failed)) => ConvStepV::Fail(
            RewriteError::ChallengeBrokerFailed,
        ),
        // never reached: a fresh token is stated by conv_resume_rel, and
        // resuming requires a reply of the awaited kind
        _ => ConvStepV::Done(MutV::empty()),
    }
}

/// The whole statement of `conv_resume`.  A fresh broker token is written
/// into the body's `arkose_token` field and the body re-serialized; the
/// exact bytes are serde_json's, so they are pinned by what they parse back
/// to.  Every other reply follows `conv_resume_v` exactly.
pub open spec fn conv_resume_rel(s: ConvStateV, e: ConvEventV, r: ConvStepV) -> bool {
    match (s, e) {
        (
            ConvStateV::AwaitChallenge { fields, muts },
            ConvEventV::Challenge(ChallengeReplyV::Token(t)),
        ) => {
            if valid_header_value(t) {
                &&& r matches ConvStepV::Done(m)
                &&& m.cookie_header == muts.cookie_header
                &&& m.sentinel_header == muts.sentinel_header
                &&& m.challenge_header == Some(t)
                &&& m.new_body matches Some(nb) && parsed_json(nb) == ParsedJson::Object(
                    fields.insert("arkose_token"@, JsonVal::Str(t)),
                )
            } else {
                r == ConvStepV::Fail(RewriteError::InvalidHeaderValue)
            }
        },
        _ => r == conv_resume_v(s, e),
    }
}

/// Starts the conversation rewrite.  Off its route the rewrite finishes at
/// once with no mutations; on it, the body and headers are validated and
/// the first external call is handed out.
pub fn conv_begin(req: &InboundRequest, experiment: bool) -> (r: Result<ConvStep, RewriteError>)
    ensures
        step_view(r) == conv_begin_v(req@, experiment),
        r matches Ok(ConvStep::Pending(s, _)) ==> s.wf(),
{
    if !(str_eq(req.path.as_str(), "/backend-api/conversation") && str_eq(
        req.method.as_str(),
        "POST",
    )) {
        return Ok(ConvStep::Done(Mutations::none()));
    }
    let body = match &req.body {
        None => {
            return Err(RewriteError::BodyRequired);
        },
        Some(b) => b,
    };
    let doc = match parse_json(body) {
        Err(_) => {
            return Err(RewriteError::InvalidJson);
        },
        Ok(d) => d,
    };
    if !is_object(&doc) {
        return Err(RewriteError::BodyMustBeJsonObject);
    }
    let model = match probe_field(&doc, "model") {
        FieldProbe::Text(m) => m,
        _ => {
            return Err(RewriteError::ModelRequired);
        },
    };
    let credential = match bearer_token(&req.authorization) {
        None => {
            return Err(RewriteError::AccessTokenRequired);
        },
        Some(c) => c,
    };
    if has_puid(&req.cookie) {
        let call = PendingCall::FetchSentinel { credential: credential.clone() };
        Ok(
            ConvStep::Pending(
                ConvState::AwaitSentinel {
                    doc,
                    credential,
                    model,
                    experiment,
                    muts: Mutations::none(),
                },
                call,
            ),
        )
    } else {
        let call = PendingCall::GetSessionId {
            credential: credential.clone(),
            model: model.clone(),
        };
        Ok(
            ConvStep::Pending(
                ConvState::AwaitSession {
                    doc,
                    credential,
                    model,
                    experiment,
                    muts: Mutations::none(),
                },
                call,
            ),
        )
    }
}

/// Consumes one external reply and carries the rewrite forward.
pub fn conv_resume(state: ConvState, event: ConvEvent) -> (r: Result<ConvStep, RewriteError>)
    requires
        state.wf(),
        accepts(state@, event@),
    ensures
        conv_resume_rel(state@, event@, step_view(r)),
        r matches Ok(ConvStep::Pending(s2, _)) ==> s2.wf(),
{
    match (state, event) {
        (
            ConvState::AwaitSession { doc, credential, model, experiment, muts },
            ConvEvent::Session(rep),
        ) => match rep {
            SessionReply::Failed => Err(RewriteError::SessionCacheFailed),
            SessionReply::Absent => {
                let call = PendingCall::FetchSentinel { credential: credential.clone() };
                Ok(
                    ConvStep::Pending(
                        ConvState::AwaitSentinel { doc, credential, model, experiment, muts },
                        call,
                    ),
                )
            },
            SessionReply::Issued(sid) => {
                let cv = cookie_value(sid.as_str());
                if check_header_value(cv.as_str()) {
                    let muts2 = Mutations {
                        cookie_header: Some(cv),
                        sentinel_header: muts.sentinel_header,
                        challenge_header: muts.challenge_header,
                        new_body: muts.new_body,
                    };
                    let call = PendingCall::FetchSentinel { credential: credential.clone() };
                    Ok(
                        ConvStep::Pending(
                            ConvState::AwaitSentinel {
                                doc,
                                credential,
                                model,
                                experiment,
                                muts: muts2,
                            },
                            call,
                        ),
                    )
                } else {
                    Err(RewriteError::InvalidHeaderValue)
                }
            },
        },
        (
            ConvState::AwaitSentinel { doc, credential, model, experiment, muts },
            ConvEvent::Sentinel(rep),
        ) => match rep {
            SentinelReply::TransportFailed => Err(RewriteError::SentinelTransport),
            SentinelReply::Response { status, body } => {
                if status >= 400 {
                    return Err(RewriteError::SentinelRejected);
                }
                let muts2 = match sentinel_token_of(&body) {
                    Err(e) => {
                        return Err(e);
                    },
                    Ok(Some(t)) => {
                        if !check_header_value(t.as_str()) {
                            return Err(RewriteError::InvalidHeaderValue);
                        }
                        Mutations {
                            sentinel_header: Some(t),
                            cookie_header: muts.cookie_header,
                            challenge_header: muts.challenge_header,
                            new_body: muts.new_body,
                        }
                    },
                    Ok(None) => muts,
                };
                conv_finish_sentinel(doc, credential, model, experiment, muts2)
            },
        },
        (ConvState::AwaitChallenge { doc, muts }, ConvEvent::Challenge(rep)) => match rep {
            ChallengeReply::Failed => Err(RewriteError::ChallengeBrokerFailed),
            ChallengeReply::Token(t) => {
                if !check_header_value(t.as_str()) {
                    return Err(RewriteError::InvalidHeaderValue);
                }
                let mut doc = doc;
                set_string_field(&mut doc, "arkose_token", t.as_str());
                let bytes = match to_json_bytes(&doc) {
                    Ok(b) => b,
                    Err(_) => unreached(),
                };
                Ok(
                    ConvStep::Done(
                        Mutations {
                            cookie_header: muts.cookie_header,
                            sentinel_header: muts.sentinel_header,
                            challenge_header: Some(t),
                            new_body: Some(bytes),
                        },
                    ),
                )
            },
        },
        _ => unreached(),
    }
}

/// The executable form of `conv_after_sentinel`: runs once the sentinel
/// step has settled the mutations gathered so far.
fn conv_finish_sentinel(
    doc: serde_json::Value,
    credential: String,
    model: String,
    experiment: bool,
    muts: Mutations,
) -> (r: Result<ConvStep, RewriteError>)
    requires
        doc_is_object(doc),
        doc_within_depth(doc),
    ensures
        step_view(r) == conv_after_sentinel(
            doc_fields(doc),
            credential@,
            model@,
            experiment,
            muts@,
        ),
        r matches Ok(ConvStep::Pending(s2, _)) ==> s2.wf(),
{
    let m = match model_of(model.as_str()) {
        None => {
            return Err(RewriteError::InvalidModel);
        },
        Some(m) => m,
    };
    let gate = (experiment && m.is_gpt3()) || m.is_gpt4();
    if !gate {
        return Ok(ConvStep::Done(muts));
    }
    match probe_field(&doc, "arkose_token") {
        FieldProbe::Text(s) => {
            let usable = s.as_str().unicode_len() > 0 && !str_eq(s.as_str(), "null");
            if usable {
                if check_header_value(s.as_str()) {
                    Ok(
                        ConvStep::Done(
                            Mutations {
                                challenge_header: Some(s),
                                cookie_header: muts.cookie_header,
                                sentinel_header: muts.sentinel_header,
                                new_body: muts.new_body,
                            },
                        ),
                    )
                } else {
                    Err(RewriteError::InvalidHeaderValue)
                }
            } else {
                let call = PendingCall::AcquireChallenge {
                    typed: m.challenge_type(),
                    identifier: Some(credential),
                };
                Ok(ConvStep::Pending(ConvState::AwaitChallenge { doc, muts }, call))
            }
        },
        _ => {
            let call = PendingCall::AcquireChallenge {
                typed: m.challenge_type(),
                identifier: Some(credential),
            };
            Ok(ConvStep::Pending(ConvState::AwaitChallenge { doc, muts }, call))
        },
    }
}

} // verus!
