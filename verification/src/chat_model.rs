//! Classification of the conversation body's `model` field.  The parsed
//! family drives whether a challenge token is required and which challenge
//! type the broker is asked for.
use crate::strutil::{starts_with_seq, str_starts_with};
use vstd::prelude::*;

verus! {

/// The recognized model families.
#[derive(Clone, Copy, Debug, PartialEq, Eq, Structural)]
pub enum ChatModel {
    Gpt3,
    Gpt4,
}

/// The challenge type a broker request is built with: derived from the
/// model on the conversation endpoint, or the fixed platform type on the
/// dashboard endpoint.
#[derive(Clone, Copy, Debug, PartialEq, Eq, Structural)]
pub enum ChallengeType {
    Gpt3,
    Gpt4,
    Platform,
}

/// The family a model identifier belongs to, by its prefix; `None` when it
/// is unrecognized.
pub open spec fn spec_model_of(m: Seq<char>) -> Option<ChatModel> {
    if starts_with_seq(m, "gpt-4"@) {
        Some(ChatModel::Gpt4)
    } else if starts_with_seq(m, "gpt-3"@) {
        Some(ChatModel::Gpt3)
    } else {
        None
    }
}

/// Parses a model identifier into its family.
pub fn model_of(m: &str) -> (r: Option<ChatModel>)
    ensures
        r == spec_model_of(m@),
{
    if str_starts_with(m, "gpt-4") {
        Some(ChatModel::Gpt4)
    } else if str_starts_with(m, "gpt-3") {
        Some(ChatModel::Gpt3)
    } else {
        None
    }
}

impl ChatModel {
    /// The challenge type this family asks the broker for.
    pub open spec fn spec_challenge_type(self) -> ChallengeType {
        match self {
            ChatModel::Gpt3 => ChallengeType::Gpt3,
            ChatModel::Gpt4 => ChallengeType::Gpt4,
        }
    }

    /// Executable form of `spec_challenge_type`.
    pub fn challenge_type(&self) -> (r: ChallengeType)
        ensures
            r == self.spec_challenge_type(),
    {
        match self {
            ChatModel::Gpt3 => ChallengeType::Gpt3,
            ChatModel::Gpt4 => ChallengeType::Gpt4,
        }
    }

    /// Whether this is the gpt-3 family.
    pub fn is_gpt3(&self) -> (r: bool)
        ensures
            r == (self is Gpt3),
    {
        matches!(self, ChatModel::Gpt3)
    }

    /// Whether this is the gpt-4 family.
    pub fn is_gpt4(&self) -> (r: bool)
        ensures
            r == (self is Gpt4),
    {
        matches!(self, ChatModel::Gpt4)
    }
}

/// Whether a conversation with this model needs a challenge token at all:
/// the gpt-4 family always, the gpt-3 family only under the experiment flag.
pub open spec fn spec_challenge_gate(m: ChatModel, experiment: bool) -> bool {
    (experiment && m is Gpt3) || m is Gpt4
}

} // verus!
