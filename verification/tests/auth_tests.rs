use api::auth::instagram::{
    instagram_oauth_settings, long_lived_token_request, settings_url_check, profile_request, refresh_token_request,
    token_is_valid_reply, token_validity, InstagramErrorCustomResponse, InstagramErrorType,
    InstagramTokenCustomResponse, InstagramTokenType, OAuthConfigError, ProfileReplyError,
    INSTAGRAM_AUTH_URL, INSTAGRAM_TOKEN_URL,
};
use api::auth::{
    callback_status, check_callback_state, get_token, needs_login, store_token, CallbackFailure,
    TokenError, AUTH_COMPLETE_PAGE, TOKEN_STORE,
};
use securestore::{KeySource, SecretsManager};

#[test]
fn stored_token_reads_back() {
    let mut vault = SecretsManager::new(KeySource::Csprng).unwrap();
    assert_eq!(get_token(&vault, TOKEN_STORE), Err(TokenError::NotFound));
    store_token(&mut vault, TOKEN_STORE, "IGQ-first".to_string());
    assert_eq!(get_token(&vault, TOKEN_STORE), Ok("IGQ-first".to_string()));
    store_token(&mut vault, TOKEN_STORE, "IGQ-second".to_string());
    assert_eq!(get_token(&vault, TOKEN_STORE), Ok("IGQ-second".to_string()));
    assert_eq!(get_token(&vault, "other"), Err(TokenError::NotFound));
    store_token(&mut vault, "other", "x".to_string());
    assert_eq!(get_token(&vault, TOKEN_STORE), Ok("IGQ-second".to_string()));
}

#[test]
fn login_needed_without_a_valid_token() {
    assert!(needs_login(false, false));
    assert!(needs_login(false, true));
    assert!(needs_login(true, false));
    assert!(!needs_login(true, true));
}

#[test]
fn callback_state_must_match() {
    assert_eq!(check_callback_state("abc", "abc"), Ok(()));
    assert_eq!(check_callback_state("abc", "abd"), Err(CallbackFailure::StateMismatch));
    assert_eq!(check_callback_state("", "abc"), Err(CallbackFailure::StateMismatch));
}

#[test]
fn callback_statuses() {
    assert_eq!(callback_status(&Ok(())), 200);
    assert_eq!(callback_status(&Err(CallbackFailure::StateMismatch)), 400);
    assert_eq!(callback_status(&Err(CallbackFailure::TokenExchange)), 500);
    assert_eq!(callback_status(&Err(CallbackFailure::TokenStorage)), 500);
    assert_eq!(AUTH_COMPLETE_PAGE, "<h1>Auth complete! You can close this tab.</h1>");
}

#[test]
fn oauth_settings_of_the_login() {
    let s = instagram_oauth_settings(
        "id".to_string(),
        "secret".to_string(),
        "https://example.org/auth/instagram".to_string(),
    )
    .unwrap();
    assert_eq!(s.client_id, "id");
    assert_eq!(s.client_secret, "secret");
    assert_eq!(s.auth_url, INSTAGRAM_AUTH_URL);
    assert_eq!(s.token_url, INSTAGRAM_TOKEN_URL);
    assert_eq!(s.redirect_url, "https://example.org/auth/instagram");
}

#[test]
fn oauth_settings_refuse_a_bad_redirect() {
    let r = instagram_oauth_settings("id".to_string(), "secret".to_string(), "not a url".to_string());
    assert_eq!(r.unwrap_err(), OAuthConfigError::InvalidRedirectUrl);
}

#[test]
fn token_requests() {
    let r = long_lived_token_request("S", "T");
    assert_eq!(r.url, "https://graph.instagram.com/access_token");
    assert_eq!(
        r.query,
        vec![
            ("grant_type".to_string(), "ig_exchange_token".to_string()),
            ("client_secret".to_string(), "S".to_string()),
            ("access_token".to_string(), "T".to_string()),
        ]
    );
    let r = refresh_token_request("S", "T");
    assert_eq!(r.url, "https://graph.instagram.com/refresh_access_token");
    assert_eq!(r.query[0], ("grant_type".to_string(), "ig_refresh_token".to_string()));
    assert_eq!(r.query.len(), 3);
    let r = profile_request("T");
    assert_eq!(r.url, "https://graph.instagram.com/v25.0/me");
    assert_eq!(
        r.query,
        vec![
            ("fields".to_string(), "user_id,username".to_string()),
            ("access_token".to_string(), "T".to_string()),
        ]
    );
}

#[test]
fn profile_reply_decides_token_validity() {
    assert_eq!(token_is_valid_reply(br#"{"user_id":"1784","username":"me"}"#), Ok(true));
    assert_eq!(token_is_valid_reply(br#"{"user_id":null}"#), Ok(true));
    assert_eq!(token_is_valid_reply(br#"{"error":{"message":"bad token"}}"#), Ok(false));
    assert_eq!(token_is_valid_reply(br#"[1,2]"#), Ok(false));
    assert_eq!(token_is_valid_reply(b"<html>"), Err(ProfileReplyError::NotJson));
    assert_eq!(token_validity(Some(true)), Ok(true));
    assert_eq!(token_validity(Some(false)), Ok(false));
    assert_eq!(token_validity(None), Err(ProfileReplyError::NotJson));
}

#[test]
fn error_reply_text() {
    let mut e = InstagramErrorCustomResponse {
        error_type: InstagramErrorType::InvalidGrant,
        code: Some(400),
        error_message: None,
        error_uri: None,
    };
    assert_eq!(e.to_display_string(), "invalid_grant");
    e.error_message = Some("code expired".to_string());
    assert_eq!(e.to_display_string(), "invalid_grant: code expired");
    e.error_uri = Some("https://x/doc".to_string());
    assert_eq!(e.to_display_string(), "invalid_grant: code expired (see https://x/doc)");
    e.error_message = None;
    assert_eq!(e.to_display_string(), "invalid_grant (see https://x/doc)");
    assert_eq!(e.error(), &InstagramErrorType::InvalidGrant);
    assert_eq!(e.error_description(), None);
    assert_eq!(e.error_uri().map(|s| s.as_str()), Some("https://x/doc"));
    e.error_type = InstagramErrorType::Extension("OAuthException".to_string());
    assert_eq!(e.to_display_string(), "OAuthException (see https://x/doc)");
}

#[test]
fn error_type_codes() {
    assert_eq!(InstagramErrorType::InvalidClient.as_str(), "invalid_client");
    assert_eq!(InstagramErrorType::InvalidRequest.as_str(), "invalid_request");
    assert_eq!(InstagramErrorType::InvalidScope.as_str(), "invalid_scope");
    assert_eq!(InstagramErrorType::UnauthorizedClient.as_str(), "unauthorized_client");
    assert_eq!(InstagramErrorType::UnsupportedGrantType.as_str(), "unsupported_grant_type");
}

#[test]
fn token_reply_accessors() {
    let t = InstagramTokenCustomResponse {
        access_token: "IGQ".to_string(),
        token_type: None,
        expires_in: Some(5_184_000),
        refresh_token: None,
        scopes: Some(vec!["instagram_business_basic".to_string()]),
    };
    assert_eq!(t.access_token(), "IGQ");
    assert_eq!(t.token_type(), InstagramTokenType::Default);
    assert_eq!(t.expires_in(), Some(5_184_000));
    assert_eq!(t.refresh_token(), None);
    assert_eq!(t.scopes().map(|s| s.len()), Some(1));
}

#[test]
fn settings_check_order() {
    assert_eq!(settings_url_check(true, true, true), Ok(()));
    assert_eq!(settings_url_check(false, false, false), Err(OAuthConfigError::InvalidAuthUrl));
    assert_eq!(settings_url_check(true, false, false), Err(OAuthConfigError::InvalidTokenUrl));
    assert_eq!(settings_url_check(true, true, false), Err(OAuthConfigError::InvalidRedirectUrl));
}
