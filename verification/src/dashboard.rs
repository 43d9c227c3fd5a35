//! The dashboard (API-key management) rewriter, as a step machine.  It only
//! checks the `arkose_token` field for presence — not for emptiness, unlike
//! the conversation rewriter; that asymmetry is deliberate.  When the field
//! is absent a platform-type challenge token is acquired, written into the
//! body, and the body replaced wholesale.
use crate::chat_model::ChallengeType;
use crate::errors::RewriteError;
use crate::jsonio::{doc_fields, doc_is_object, doc_within_depth, is_object, parse_json, parsed_json, probe_field,
    set_string_field, to_json_bytes, FieldProbe, JsonVal, ParsedJson};
use crate::rewrite::{CallV, ChallengeReply, ChallengeReplyV, InboundRequest, MutV, Mutations,
    PendingCall, ReqV};
use crate::strutil::str_eq;
use vstd::pervasive::unreached;
use vstd::prelude::*;

verus! {

/// Whether a request is for the API-key management endpoint at all.
pub open spec fn dash_route(path: Seq<char>, method: Seq<char>) -> bool {
    path == "/dashboard/user/api_keys"@ && method == "POST"@
}

/// A dashboard rewrite waiting for the broker's token.
pub enum DashState {
    AwaitChallenge { doc: serde_json::Value },
}

/// Spec view of a waiting dashboard rewrite.
#[verifier::ext_equal]
pub enum DashStateV {
    AwaitChallenge { fields: Map<Seq<char>, JsonVal> },
}

impl View for DashState {
    type V = DashStateV;

    open spec fn view(&self) -> DashStateV {
        match self {
            DashState::AwaitChallenge { doc } => DashStateV::AwaitChallenge {
                fields: doc_fields(*doc),
            },
        }
    }
}

impl DashState {
    /// The carried document is a JSON object within the parser's nesting
    /// limit, as `parse_json` produced it.
    pub open spec fn wf(self) -> bool {
        match self {
            DashState::AwaitChallenge { doc } => doc_is_object(doc) && doc_within_depth(doc),
        }
    }
}

/// What one dashboard step produced.
pub enum DashStep {
    Pending(DashState, PendingCall),
    Done(Mutations),
}

/// Spec view of a dashboard step result, with failure folded in.
#[verifier::ext_equal]
pub enum DashStepV {
    Pending(DashStateV, CallV),
    Done(MutV),
    Fail(RewriteError),
}

/// The view of a dashboard step function's whole result.
pub open spec fn dash_step_view(r: Result<DashStep, RewriteError>) -> DashStepV {
    match r {
        Ok(DashStep::Pending(s, c)) => DashStepV::Pending(s@, c@),
        Ok(DashStep::Done(m)) => DashStepV::Done(m@),
        Err(e) => DashStepV::Fail(e),
    }
}

/// What `dash_begin` does, over the request's view: off its route, or with
/// the `arkose_token` field already present (whatever its value), the
/// rewrite finishes unchanged; otherwise a platform-type challenge token is
/// demanded, with no identifier.
pub open spec fn dash_begin_v(req: ReqV) -> DashStepV {
    if !dash_route(req.path, req.method) {
        DashStepV::Done(MutV::empty())
    } else if req.body is None {
        DashStepV::Fail(RewriteError::BodyRequired)
    } else {
        match parsed_json(req.body->0) {
            ParsedJson::Invalid => DashStepV::Fail(RewriteError::InvalidJson),
            ParsedJson::NotObject => DashStepV::Fail(RewriteError::BodyMustBeJsonObject),
            ParsedJson::Object(f) => {
                if f.contains_key("arkose_token"@) {
                    DashStepV::Done(MutV::empty())
                } else {
                    DashStepV::Pending(
                        DashStateV::AwaitChallenge { fields: f },
                        CallV::AcquireChallenge {
                            typed: ChallengeType::Platform,
                            identifier: None,
                        },
                    )
                }
            },
        }
    }
}

/// The whole statement of `dash_resume`: a broker token is written into the
/// body's `arkose_token` field and the body re-serialized — the exact bytes
/// are serde_json's, so they are pinned by what they parse back to — and a
/// broker failure is a hard error.
pub open spec fn dash_resume_rel(s: DashStateV, rep: ChallengeReplyV, r: DashStepV) -> bool {
    match (s, rep) {
        (DashStateV::AwaitChallenge { fields }, ChallengeReplyV::Failed) => r == DashStepV::Fail(
            RewriteError::ChallengeBrokerFailed,
        ),
        (DashStateV::AwaitChallenge { fields }, ChallengeReplyV::Token(t)) => {
            &&& r matches DashStepV::Done(m)
            &&& m.cookie_header is None
            &&& m.sentinel_header is None
            &&& m.challenge_header is None
            &&& m.new_body matches Some(nb) && parsed_json(nb) == ParsedJson::Object(
                fields.insert("arkose_token"@, JsonVal::Str(t)),
            )
        },
    }
}

/// Starts the dashboard rewrite.
pub fn dash_begin(req: &InboundRequest) -> (r: Result<DashStep, RewriteError>)
    ensures
        dash_step_view(r) == dash_begin_v(req@),
        r matches Ok(DashStep::Pending(s, _)) ==> s.wf(),
{
    if !(str_eq(req.path.as_str(), "/dashboard/user/api_keys") && str_eq(
        req.method.as_str(),
        "POST",
    )) {
        return Ok(DashStep::Done(Mutations::none()));
    }
    let body = match &req.body {
        None => {
            return Err(RewriteError::BodyRequired);
        },
        Some(b) => b,
    };
    let doc = match parse_json(body) {
        Err(_) => {
            return Err(RewriteError::InvalidJson);
        },
        Ok(d) => d,
    };
    if !is_object(&doc) {
        return Err(RewriteError::BodyMustBeJsonObject);
    }
    match probe_field(&doc, "arkose_token") {
        FieldProbe::Absent => {
            let call = PendingCall::AcquireChallenge {
                typed: ChallengeType::Platform,
                identifier: None,
            };
            Ok(DashStep::Pending(DashState::AwaitChallenge { doc }, call))
        },
        _ => Ok(DashStep::Done(Mutations::none())),
    }
}

/// Consumes the broker's reply and finishes the dashboard rewrite.
pub fn dash_resume(state: DashState, reply: ChallengeReply) -> (r: Result<DashStep, RewriteError>)
    requires
        state.wf(),
    ensures
        dash_resume_rel(state@, reply@, dash_step_view(r)),
{
    match reply {
        ChallengeReply::Failed => Err(RewriteError::ChallengeBrokerFailed),
        ChallengeReply::Token(t) => {
            let DashState::AwaitChallenge { doc } = state;
            let mut doc = doc;
            set_string_field(&mut doc, "arkose_token", t.as_str());
            let bytes = match to_json_bytes(&doc) {
                Ok(b) => b,
                Err(_) => unreached(),
            };
            Ok(
                DashStep::Done(
                    Mutations {
                        cookie_header: None,
                        sentinel_header: None,
                        challenge_header: None,
                        new_body: Some(bytes),
                    },
                ),
            )
        },
    }
}

} // verus!
