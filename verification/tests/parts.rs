use proxy_rewrite::chat_model::{model_of, ChallengeType, ChatModel};
use proxy_rewrite::errors::{ErrorClass, RewriteError};
use proxy_rewrite::forward_url;
use proxy_rewrite::headers::{
    bearer_token, challenge_header_name, check_header_value, cookie_value, has_puid, puid_marker,
    sentinel_header_name,
};
use proxy_rewrite::sentinel::sentinel_token_of;

#[test]
fn forward_url_concatenates() {
    assert_eq!(
        forward_url("https://chatgpt.example", "/backend-api/conversation?x=1"),
        "https://chatgpt.example/backend-api/conversation?x=1"
    );
}

#[test]
fn header_names_are_fixed() {
    assert_eq!(puid_marker(), "puid");
    assert_eq!(sentinel_header_name(), "openai-sentinel-chat-requirements-token");
    assert_eq!(challenge_header_name(), "openai-sentinel-arkose-token");
}

#[test]
fn has_puid_scans_the_cookie() {
    assert!(has_puid(&Some("a=1; puid=xyz; b=2".to_string())));
    assert!(has_puid(&Some("puid=xyz".to_string())));
    assert!(!has_puid(&Some("pu=xyz; id=3".to_string())));
    assert!(!has_puid(&None));
}

#[test]
fn bearer_token_extraction() {
    assert_eq!(
        bearer_token(&Some("Bearer abc".to_string())).as_deref(),
        Some("abc")
    );
    assert_eq!(bearer_token(&Some("Basic abc".to_string())), None);
    assert_eq!(bearer_token(&None), None);
}

#[test]
fn cookie_value_format() {
    assert_eq!(cookie_value("sid123"), "puid=sid123;");
}

#[test]
fn header_value_characters() {
    assert!(check_header_value("a token-42"));
    assert!(check_header_value(""));
    assert!(check_header_value("tab\tseparated"));
    assert!(!check_header_value("line\nbreak"));
    assert!(!check_header_value("delete\u{7f}"));
}

#[test]
fn model_classification() {
    assert_eq!(model_of("gpt-4"), Some(ChatModel::Gpt4));
    assert_eq!(model_of("gpt-4-browsing"), Some(ChatModel::Gpt4));
    assert_eq!(model_of("gpt-3.5-turbo"), Some(ChatModel::Gpt3));
    assert_eq!(model_of("davinci"), None);
    assert_eq!(ChatModel::Gpt4.challenge_type(), ChallengeType::Gpt4);
    assert_eq!(ChatModel::Gpt3.challenge_type(), ChallengeType::Gpt3);
    assert!(ChatModel::Gpt3.is_gpt3());
    assert!(ChatModel::Gpt4.is_gpt4());
}

#[test]
fn sentinel_body_cases() {
    assert_eq!(
        sentinel_token_of(&br#"{"token":"s1"}"#.to_vec())
            .unwrap()
            .as_deref(),
        Some("s1")
    );
    assert_eq!(sentinel_token_of(&br#"{"other":1}"#.to_vec()).unwrap(), None);
    assert_eq!(sentinel_token_of(&br#"{"token":4}"#.to_vec()).unwrap(), None);
    assert_eq!(sentinel_token_of(&br#"[1,2]"#.to_vec()).unwrap(), None);
    assert_eq!(
        sentinel_token_of(&b"not json".to_vec()).err(),
        Some(RewriteError::SentinelUnparsable)
    );
}

#[test]
fn error_classes_and_messages() {
    assert_eq!(RewriteError::BodyRequired.class(), ErrorClass::BadRequest);
    assert_eq!(RewriteError::ModelRequired.class(), ErrorClass::BadRequest);
    assert_eq!(
        RewriteError::AccessTokenRequired.class(),
        ErrorClass::Unauthorized
    );
    assert_eq!(RewriteError::SentinelTransport.class(), ErrorClass::Internal);
    assert_eq!(RewriteError::SentinelRejected.class(), ErrorClass::BadRequest);
    assert_eq!(
        RewriteError::ChallengeBrokerFailed.class(),
        ErrorClass::Internal
    );
    assert_eq!(RewriteError::ModelRequired.message(), "model required");
    assert_eq!(
        RewriteError::BodyMustBeJsonObject.message(),
        "body must be a JSON object"
    );
}
