//! The values that cross between the rewriters and their driver: the
//! request as the rewriters see it, the mutations a finished rewrite asks
//! the forwarder to apply, the external calls a rewrite can demand, and the
//! replies those calls produce.
use crate::chat_model::ChallengeType;
use vstd::prelude::*;

verus! {

/// A request as the rewriting core sees it: the routed path and method, the
/// two headers the rewriters read, and the raw body bytes.  The driver
/// builds one from the real inbound request and keeps everything else
/// (remaining headers, the cookie jar) on its own side.
pub struct InboundRequest {
    pub path: String,
    pub method: String,
    pub cookie: Option<String>,
    pub authorization: Option<String>,
    pub body: Option<Vec<u8>>,
}

/// Spec view of an inbound request.
#[verifier::ext_equal]
pub struct ReqV {
    pub path: Seq<char>,
    pub method: Seq<char>,
    pub cookie: Option<Seq<char>>,
    pub authorization: Option<Seq<char>>,
    pub body: Option<Seq<u8>>,
}

impl View for InboundRequest {
    type V = ReqV;

    open spec fn view(&self) -> ReqV {
        ReqV {
            path: self.path@,
            method: self.method@,
            cookie: self.cookie.deep_view(),
            authorization: self.authorization.deep_view(),
            body: match &self.body {
                Some(b) => Some(b@),
                None => None,
            },
        }
    }
}

/// The header and body changes a finished rewrite asks the forwarder to
/// apply.  A `None` field is left untouched; a replaced body is substituted
/// wholesale, never patched in place.
pub struct Mutations {
    /// Replacement value for the Cookie header.
    pub cookie_header: Option<String>,
    /// Value for the sentinel chat-requirements header.
    pub sentinel_header: Option<String>,
    /// Value for the challenge-token header.
    pub challenge_header: Option<String>,
    /// Replacement body bytes.
    pub new_body: Option<Vec<u8>>,
}

/// Spec view of the mutations.
#[verifier::ext_equal]
pub struct MutV {
    pub cookie_header: Option<Seq<char>>,
    pub sentinel_header: Option<Seq<char>>,
    pub challenge_header: Option<Seq<char>>,
    pub new_body: Option<Seq<u8>>,
}

impl View for Mutations {
    type V = MutV;

    open spec fn view(&self) -> MutV {
        MutV {
            cookie_header: self.cookie_header.deep_view(),
            sentinel_header: self.sentinel_header.deep_view(),
            challenge_header: self.challenge_header.deep_view(),
            new_body: match &self.new_body {
                Some(b) => Some(b@),
                None => None,
            },
        }
    }
}

impl MutV {
    /// No change at all.
    pub open spec fn empty() -> MutV {
        MutV {
            cookie_header: None,
            sentinel_header: None,
            challenge_header: None,
            new_body: None,
        }
    }
}

impl Mutations {
    /// No change at all.
    pub fn none() -> (r: Mutations)
        ensures
            r@ == MutV::empty(),
    {
        Mutations {
            cookie_header: None,
            sentinel_header: None,
            challenge_header: None,
            new_body: None,
        }
    }
}

/// An external call the driver must perform before the rewrite can go on.
pub enum PendingCall {
    /// Ask the session-id cache's get-or-init contract, keyed by the
    /// credential, for this client's session id.
    GetSessionId { credential: String, model: String },
    /// POST to the upstream sentinel chat-requirements endpoint with the
    /// credential.
    FetchSentinel { credential: String },
    /// Acquire a challenge token from the broker.
    AcquireChallenge { typed: ChallengeType, identifier: Option<String> },
}

/// Spec view of a pending call.
#[verifier::ext_equal]
pub enum CallV {
    GetSessionId { credential: Seq<char>, model: Seq<char> },
    FetchSentinel { credential: Seq<char> },
    AcquireChallenge { typed: ChallengeType, identifier: Option<Seq<char>> },
}

impl View for PendingCall {
    type V = CallV;

    open spec fn view(&self) -> CallV {
        match self {
            PendingCall::GetSessionId { credential, model } => CallV::GetSessionId {
                credential: credential@,
                model: model@,
            },
            PendingCall::FetchSentinel { credential } => CallV::FetchSentinel {
                credential: credential@,
            },
            PendingCall::AcquireChallenge { typed, identifier } => CallV::AcquireChallenge {
                typed: *typed,
                identifier: identifier.deep_view(),
            },
        }
    }
}

/// The session cache's answer to a get-or-init call.
pub enum SessionReply {
    /// The cache produced a session id.
    Issued(String),
    /// The cache completed without an id for this client.
    Absent,
    /// The call failed.
    Failed,
}

/// Spec view of a session reply.
#[verifier::ext_equal]
pub enum SessionReplyV {
    Issued(Seq<char>),
    Absent,
    Failed,
}

impl View for SessionReply {
    type V = SessionReplyV;

    open spec fn view(&self) -> SessionReplyV {
        match self {
            SessionReply::Issued(sid) => SessionReplyV::Issued(sid@),
            SessionReply::Absent => SessionReplyV::Absent,
            SessionReply::Failed => SessionReplyV::Failed,
        }
    }
}

/// What the sentinel endpoint's HTTP exchange produced.
pub enum SentinelReply {
    /// The exchange completed: the response status and body bytes.
    Response { status: u16, body: Vec<u8> },
    /// The exchange failed at the transport level.
    TransportFailed,
}

/// Spec view of a sentinel reply.
#[verifier::ext_equal]
pub enum SentinelReplyV {
    Response { status: u16, body: Seq<u8> },
    TransportFailed,
}

impl View for SentinelReply {
    type V = SentinelReplyV;

    open spec fn view(&self) -> SentinelReplyV {
        match self {
            SentinelReply::Response { status, body } => SentinelReplyV::Response {
                status: *status,
                body: body@,
            },
            SentinelReply::TransportFailed => SentinelReplyV::TransportFailed,
        }
    }
}

/// The challenge-token broker's answer.
pub enum ChallengeReply {
    Token(String),
    Failed,
}

/// Spec view of a challenge reply.
#[verifier::ext_equal]
pub enum ChallengeReplyV {
    Token(Seq<char>),
    Failed,
}

impl View for ChallengeReply {
    type V = ChallengeReplyV;

    open spec fn view(&self) -> ChallengeReplyV {
        match self {
            ChallengeReply::Token(t) => ChallengeReplyV::Token(t@),
            ChallengeReply::Failed => ChallengeReplyV::Failed,
        }
    }
}

} // verus!
