//! The general laws of the rewriters, each proved from the machines'
//! stated behaviour.  A rewrite makes an external call only by handing the
//! driver a `Pending` step, so "the cache (or broker) is never invoked"
//! is exactly "no reachable step carries that call".
use crate::chat_model::{spec_challenge_gate, spec_model_of, ChatModel};
use crate::conversation::{conv_after_sentinel, conv_begin_v, conv_resume_rel, conv_resume_v,
    conv_route, ConvEventV, ConvStateV, ConvStepV};
use crate::dashboard::{dash_begin_v, dash_resume_rel, dash_route, DashStateV, DashStepV};
use crate::errors::RewriteError;
use crate::headers::{spec_cookie_value, spec_has_puid, valid_header_value};
use crate::jsonio::{parsed_json, JsonVal, ParsedJson};
use crate::rewrite::{CallV, ChallengeReplyV, MutV, ReqV, SentinelReplyV, SessionReplyV};
use crate::sentinel::spec_sentinel_body;
use vstd::prelude::*;

verus! {

/// Off their routes, both rewriters are no-ops: they finish at once with no
/// header or body change, and never hand the driver an external call.
pub proof fn lemma_rewriters_noop_off_route(req: ReqV, experiment: bool)
    requires
        !conv_route(req.path, req.method),
        !dash_route(req.path, req.method),
    ensures
        conv_begin_v(req, experiment) == ConvStepV::Done(MutV::empty()),
        dash_begin_v(req) == DashStepV::Done(MutV::empty()),
{
}

/// A conversation request whose JSON body lacks a string `model` field
/// fails with ModelRequired at the very first step, before any call to the
/// session cache or the challenge broker can be handed out.
pub proof fn lemma_missing_model_fails_first(
    req: ReqV,
    experiment: bool,
    f: Map<Seq<char>, JsonVal>,
)
    requires
        conv_route(req.path, req.method),
        req.body matches Some(b) && parsed_json(b) == ParsedJson::Object(f),
        !(f.contains_key("model"@) && f["model"@] is Str),
    ensures
        conv_begin_v(req, experiment) == ConvStepV::Fail(RewriteError::ModelRequired),
{
}

/// With a session cookie already on the request, the first call a
/// conversation rewrite hands out is the sentinel fetch: the session
/// cache's get-or-init is skipped entirely.
pub proof fn lemma_existing_cookie_skips_cache(req: ReqV, experiment: bool)
    requires
        spec_has_puid(req.cookie),
        conv_begin_v(req, experiment) matches ConvStepV::Pending(_, c),
    ensures
        ({
            &&& conv_begin_v(req, experiment) matches ConvStepV::Pending(_, c)
            &&& c matches CallV::FetchSentinel { .. }
        }),
{
}

/// No resumed step ever asks the session cache: the get-or-init call can
/// only be the very first step of a rewrite, so it is made at most once per
/// request.
pub proof fn lemma_resume_never_asks_cache(s: ConvStateV, e: ConvEventV, r: ConvStepV)
    requires
        conv_resume_rel(s, e, r),
    ensures
        !(r matches ConvStepV::Pending(_, CallV::GetSessionId { .. })),
{
}

/// A usable `arkose_token` already in the body — present, a string, not
/// empty and not the literal `null` — is mirrored unchanged into the
/// challenge header, and the rewrite finishes without asking the broker.
/// The one addition to the bare statement is that the token's characters
/// can form a legal header value: on any other token the rewrite fails
/// with the header-value error, as the error taxonomy provides.
pub proof fn lemma_existing_challenge_token_reused(
    fields: Map<Seq<char>, JsonVal>,
    credential: Seq<char>,
    model: Seq<char>,
    experiment: bool,
    muts: MutV,
    m: ChatModel,
)
    requires
        spec_model_of(model) == Some(m),
        spec_challenge_gate(m, experiment),
        fields.contains_key("arkose_token"@),
        fields["arkose_token"@] matches JsonVal::Str(s) && s.len() > 0 && s != "null"@
            && valid_header_value(s),
    ensures
        ({
            &&& conv_after_sentinel(fields, credential, model, experiment, muts) matches ConvStepV::Done(mm)
            &&& mm.challenge_header == Some(fields["arkose_token"@]->Str_0)
            &&& mm.new_body == muts.new_body
            &&& mm.cookie_header == muts.cookie_header
            &&& mm.sentinel_header == muts.sentinel_header
        }),
{
}

/// Every waiting state a conversation rewrite reaches from its first step
/// carries exactly the parsed body's fields and the request's bearer
/// credential: what the later steps read and rewrite is the inbound body
/// itself, nothing else.
pub proof fn lemma_states_carry_the_body(
    req: ReqV,
    experiment: bool,
    f: Map<Seq<char>, JsonVal>,
    cred: Seq<char>,
)
    requires
        req.body matches Some(b) && parsed_json(b) == ParsedJson::Object(f),
        crate::headers::spec_bearer(req.authorization) == Some(cred),
        conv_begin_v(req, experiment) matches ConvStepV::Pending(_, _),
    ensures
        ({
            &&& conv_begin_v(req, experiment) matches ConvStepV::Pending(s, _)
            &&& match s {
                ConvStateV::AwaitSession { fields, credential, .. } => fields == f && credential
                    == cred,
                ConvStateV::AwaitSentinel { fields, credential, .. } => fields == f && credential
                    == cred,
                ConvStateV::AwaitChallenge { .. } => false,
            }
        }),
{
}

/// A fresh broker token lands in both the challenge header and the body's
/// `arkose_token` field; the replaced body is still a JSON object, and
/// every other field of the original body is intact in it.  The one
/// addition is that the token's characters can form a legal header value:
/// on any other token the rewrite fails with the header-value error.
pub proof fn lemma_fresh_challenge_token(
    fields: Map<Seq<char>, JsonVal>,
    muts: MutV,
    t: Seq<char>,
    r: ConvStepV,
)
    requires
        valid_header_value(t),
        conv_resume_rel(
            ConvStateV::AwaitChallenge { fields, muts },
            ConvEventV::Challenge(ChallengeReplyV::Token(t)),
            r,
        ),
    ensures
        ({
            &&& r matches ConvStepV::Done(m)
            &&& m.challenge_header == Some(t)
            &&& m.new_body matches Some(nb)
            &&& parsed_json(nb) matches ParsedJson::Object(f2)
            &&& f2.contains_key("arkose_token"@)
            &&& f2["arkose_token"@] == JsonVal::Str(t)
            &&& forall|k: Seq<char>|
                k != "arkose_token"@ ==> (#[trigger] f2.contains_key(k) == fields.contains_key(k))
                    && (f2.contains_key(k) ==> f2[k] == fields[k])
        }),
{
}

/// The sentinel fetch's soft/hard split: a non-success status or an
/// unparsable response body is a hard error, while a parsable body without
/// a string `token` field merely leaves the sentinel header unset and the
/// rewrite goes on.
pub proof fn lemma_sentinel_soft_vs_hard(
    fields: Map<Seq<char>, JsonVal>,
    credential: Seq<char>,
    model: Seq<char>,
    experiment: bool,
    muts: MutV,
    status: u16,
    body: Seq<u8>,
)
    ensures
        ({
            let s = ConvStateV::AwaitSentinel { fields, credential, model, experiment, muts };
            let e = ConvEventV::Sentinel(SentinelReplyV::Response { status, body });
            &&& status >= 400 ==> conv_resume_v(s, e) == ConvStepV::Fail(
                RewriteError::SentinelRejected,
            )
            &&& status < 400 && spec_sentinel_body(body) is Unparsable ==> conv_resume_v(s, e)
                == ConvStepV::Fail(RewriteError::SentinelUnparsable)
            &&& status < 400 && spec_sentinel_body(body) is NoToken ==> conv_resume_v(s, e)
                == conv_after_sentinel(fields, credential, model, experiment, muts)
        }),
{
}

/// Re-running the dashboard rewrite on its own rewritten output is a no-op:
/// the token field is present in the replaced body, so the second run
/// finishes unchanged and no second broker call occurs.
pub proof fn lemma_dashboard_idempotent(
    s: DashStateV,
    t: Seq<char>,
    r: DashStepV,
    nb: Seq<u8>,
    again: ReqV,
)
    requires
        dash_resume_rel(s, ChallengeReplyV::Token(t), r),
        r matches DashStepV::Done(m) && m.new_body == Some(nb),
        dash_route(again.path, again.method),
        again.body == Some(nb),
    ensures
        dash_begin_v(again) == DashStepV::Done(MutV::empty()),
{
}

/// Conversation rewrites bearing the same Authorization header issue
/// session-cache calls with the same credential, hence the same cache key;
/// the cache's single-flight contract then serves all of them one shared
/// session id.
pub proof fn lemma_same_credential_same_cache_call(
    r1: ReqV,
    r2: ReqV,
    e1: bool,
    e2: bool,
    c1: Seq<char>,
    c2: Seq<char>,
    m1: Seq<char>,
    m2: Seq<char>,
)
    requires
        r1.authorization == r2.authorization,
        conv_begin_v(r1, e1) matches ConvStepV::Pending(
            _,
            CallV::GetSessionId { credential: cc1, model: mm1 },
        ) && cc1 == c1 && mm1 == m1,
        conv_begin_v(r2, e2) matches ConvStepV::Pending(
            _,
            CallV::GetSessionId { credential: cc2, model: mm2 },
        ) && cc2 == c2 && mm2 == m2,
    ensures
        c1 == c2,
{
}

/// The cookie a rewrite sets is exactly `puid=<sid>;` for the session id
/// the cache returned: concurrent requests that the cache answers with one
/// shared id therefore all carry the same cookie.
pub proof fn lemma_cookie_reflects_session_id(
    fields: Map<Seq<char>, JsonVal>,
    credential: Seq<char>,
    model: Seq<char>,
    experiment: bool,
    muts: MutV,
    sid: Seq<char>,
)
    requires
        valid_header_value(spec_cookie_value(sid)),
    ensures
        ({
            &&& conv_resume_v(
                ConvStateV::AwaitSession { fields, credential, model, experiment, muts },
                ConvEventV::Session(SessionReplyV::Issued(sid)),
            ) matches ConvStepV::Pending(s2, _)
            &&& s2 matches ConvStateV::AwaitSentinel { muts: m2, .. }
            &&& m2.cookie_header == Some(spec_cookie_value(sid))
        }),
{
}

} // verus!
