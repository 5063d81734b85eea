use capturist::bus::EventBus;
use capturist::credential::{first_tier, StoreStep, Tier, TierError};
use capturist::deeplink::CallbackUrl;
use capturist::error::AppError;
use capturist::events::CustomEvent;
use capturist::oauth::{
    access_token_response, authenticate, callback_fields, finish_authentication,
    get_auth_state_parameter, get_authorization_url, get_todoist_access_token, join_scopes,
    log_out, read_token_response, start_authentication, token_request_form, verify_callback,
    AuthCallbackResponse, PermissionScope, NONCE_LEN, TOKEN_ENDPOINT,
};
use capturist::state::AppState;

fn callback(query: &str) -> CallbackUrl {
    CallbackUrl { host: Some("oauth".to_string()), query: Some(query.to_string()) }
}

/// A storage tier held in memory.
struct MemoryTier {
    available: bool,
    value: Option<String>,
}

fn store_token(secure: &mut MemoryTier, fallback: &mut MemoryTier, token: &str) -> Result<(), AppError> {
    let mut tier = first_tier();
    loop {
        let t = if tier == Tier::Secure { &mut *secure } else { &mut *fallback };
        let reply = if t.available {
            t.value = Some(token.to_string());
            Ok(())
        } else {
            Err(TierError::Unavailable)
        };
        match capturist::credential::set(tier, reply) {
            StoreStep::Ask(next) => tier = next,
            StoreStep::Finished(r) => return r,
        }
    }
}

fn pairs(items: &[(&str, &str)]) -> Vec<(String, String)> {
    items.iter().map(|(k, v)| (k.to_string(), v.to_string())).collect()
}

#[test]
fn nonce_has_24_alphanumeric_characters() {
    for _ in 0..50 {
        let n = get_auth_state_parameter();
        assert_eq!(n.chars().count(), 24);
        assert_eq!(NONCE_LEN, 24);
        assert!(n.chars().all(|c| c.is_ascii_alphanumeric()));
    }
}

#[test]
fn successive_nonces_differ() {
    let a = get_auth_state_parameter();
    let b = get_auth_state_parameter();
    assert_ne!(a, b);
}

#[test]
fn scopes_are_joined_with_commas() {
    assert_eq!(join_scopes(&[]), "");
    assert_eq!(join_scopes(&[PermissionScope::TaskAdd]), "task:add");
    assert_eq!(
        join_scopes(&[PermissionScope::TaskAdd, PermissionScope::DataRead, PermissionScope::BackupsRead]),
        "task:add,data:read,backups:read"
    );
}

#[test]
fn scope_names() {
    assert_eq!(PermissionScope::TaskAdd.name(), "task:add");
    assert_eq!(PermissionScope::DataRead.name(), "data:read");
    assert_eq!(PermissionScope::DataReadWrite.name(), "data:read_write");
    assert_eq!(PermissionScope::DataDelete.name(), "data:delete");
    assert_eq!(PermissionScope::ProjectDelete.name(), "project:delete");
    assert_eq!(PermissionScope::BackupsRead.name(), "backups:read");
}

#[test]
fn authorization_url_carries_client_scope_and_state() {
    let url = get_authorization_url("abc", &[PermissionScope::TaskAdd], "N0nce").unwrap();
    assert_eq!(url, "https://todoist.com/oauth/authorize?client_id=abc&scope=task%3Aadd&state=N0nce");
}

#[test]
fn authorization_url_encodes_scope_list() {
    let url = get_authorization_url(
        "my id",
        &[PermissionScope::TaskAdd, PermissionScope::DataRead],
        "s",
    )
    .unwrap();
    assert_eq!(
        url,
        "https://todoist.com/oauth/authorize?client_id=my+id&scope=task%3Aadd%2Cdata%3Aread&state=s"
    );
}

#[test]
fn start_authentication_stores_the_nonce_in_the_url() {
    let mut state = AppState::new(false);
    let url = start_authentication(&mut state, "client").unwrap();
    let nonce = state.csrf_state().clone().unwrap();
    assert_eq!(nonce.chars().count(), 24);
    assert!(!state.authenticated());
    assert_eq!(
        url,
        format!("https://todoist.com/oauth/authorize?client_id=client&scope=task%3Aadd&state={nonce}")
    );
}

#[test]
fn callback_fields_pick_code_and_state() {
    let f = callback_fields(&pairs(&[("code", "c1"), ("extra", "x"), ("state", "s1")])).unwrap();
    assert_eq!(f.code, "c1");
    assert_eq!(f.state, "s1");
}

#[test]
fn callback_fields_reject_missing_or_repeated() {
    assert!(callback_fields(&pairs(&[("state", "s1")])).is_none());
    assert!(callback_fields(&pairs(&[("code", "c1")])).is_none());
    assert!(callback_fields(&pairs(&[("code", "c1"), ("state", "a"), ("state", "b")])).is_none());
    assert!(callback_fields(&pairs(&[])).is_none());
}

#[test]
fn verify_callback_without_fields_is_invalid() {
    let state = AppState::new(false);
    assert_eq!(verify_callback(&state, None).unwrap_err(), AppError::InvalidCallback);
}

#[test]
fn end_to_end_login_succeeds() {
    let mut state = AppState::new(false);
    let mut bus = EventBus::new();
    let handle = bus.subscribe(CustomEvent::Authentication).unwrap();
    start_authentication(&mut state, "client").unwrap();
    let nonce = state.csrf_state().clone().unwrap();

    let checked = authenticate(&state, &callback(&format!("code=good&state={nonce}"))).unwrap();
    assert_eq!(checked.code, "good");
    assert_eq!(checked.state, nonce);

    let token = read_token_response(br#"{"access_token":"tok-1","token_type":"Bearer"}"#).unwrap();
    assert_eq!(token.access_token, "tok-1");
    let mut secure = MemoryTier { available: true, value: None };
    let mut fallback = MemoryTier { available: true, value: None };
    let stored = store_token(&mut secure, &mut fallback, &token.access_token);
    assert!(!state.authenticated());

    let handles = finish_authentication(&mut state, &bus, stored).unwrap();
    assert_eq!(handles, vec![handle]);
    assert_eq!(secure.value.as_deref(), Some("tok-1"));
    assert_eq!(fallback.value, None);
    assert!(state.authenticated());
    assert_eq!(*state.csrf_state(), None);
}

#[test]
fn superseded_nonce_is_rejected() {
    let mut state = AppState::new(false);
    start_authentication(&mut state, "client").unwrap();
    let n1 = state.csrf_state().clone().unwrap();
    start_authentication(&mut state, "client").unwrap();
    let n2 = state.csrf_state().clone().unwrap();
    assert_ne!(n1, n2);
    let r = authenticate(&state, &callback(&format!("code=c&state={n1}")));
    assert_eq!(r.unwrap_err(), AppError::CsrfMismatch);
    assert!(authenticate(&state, &callback(&format!("code=c&state={n2}"))).is_ok());
}

#[test]
fn callback_without_pending_nonce_fails_closed() {
    let state = AppState::new(false);
    assert_eq!(authenticate(&state, &callback("code=c&state=")).unwrap_err(), AppError::CsrfMismatch);
    assert_eq!(authenticate(&state, &callback("code=c&state=abc")).unwrap_err(), AppError::CsrfMismatch);
}

#[test]
fn callback_with_wrong_state_is_a_mismatch() {
    let mut state = AppState::new(false);
    start_authentication(&mut state, "client").unwrap();
    let r = authenticate(&state, &callback("code=c&state=other"));
    assert_eq!(r.unwrap_err(), AppError::CsrfMismatch);
}

#[test]
fn malformed_callbacks_are_invalid() {
    let mut state = AppState::new(false);
    start_authentication(&mut state, "client").unwrap();
    let n = state.csrf_state().clone().unwrap();
    let no_query = CallbackUrl { host: Some("oauth".to_string()), query: None };
    assert_eq!(authenticate(&state, &no_query).unwrap_err(), AppError::InvalidCallback);
    assert_eq!(authenticate(&state, &callback(&format!("state={n}"))).unwrap_err(), AppError::InvalidCallback);
    assert_eq!(authenticate(&state, &callback("code=c")).unwrap_err(), AppError::InvalidCallback);
    assert_eq!(
        authenticate(&state, &callback(&format!("code=a&code=b&state={n}"))).unwrap_err(),
        AppError::InvalidCallback
    );
    assert_eq!(
        authenticate(&state, &callback(&format!("code=a&state={n}&state={n}"))).unwrap_err(),
        AppError::InvalidCallback
    );
}

#[test]
fn callback_query_is_percent_decoded() {
    let mut state = AppState::new(false);
    start_authentication(&mut state, "client").unwrap();
    let n = state.csrf_state().clone().unwrap();
    let first = n.chars().next().unwrap();
    let encoded = format!("%{:02X}{}", first as u32, &n[1..]);
    let r: AuthCallbackResponse =
        authenticate(&state, &callback(&format!("code=x%2By+z&state={encoded}"))).unwrap();
    assert_eq!(r.code, "x+y z");
    assert_eq!(r.state, n);
}

#[test]
fn token_request_form_fields() {
    let form = token_request_form("id", "SECRET-REDACTED", "the-code");
    assert_eq!(
        form,
        vec![
            ("client_id".to_string(), "id".to_string()),
            ("client_secret".to_string(), "SECRET-REDACTED".to_string()),
            ("code".to_string(), "the-code".to_string()),
        ]
    );
    assert_eq!(TOKEN_ENDPOINT, "https://todoist.com/oauth/access_token");
}

#[test]
fn token_response_reads_members() {
    let t = read_token_response(br#"{"access_token":"abc","token_type":"Bearer"}"#).unwrap();
    assert_eq!(t.access_token, "abc");
    assert_eq!(t.token_type.as_deref(), Some("Bearer"));
    let only = read_token_response(br#"{"access_token":"xyz"}"#).unwrap();
    assert_eq!(only.access_token, "xyz");
    assert_eq!(only.token_type, None);
}

#[test]
fn token_response_without_token_fails() {
    assert_eq!(read_token_response(b"{}").unwrap_err(), AppError::TokenExchangeFailed);
    assert_eq!(read_token_response(b"not json").unwrap_err(), AppError::TokenExchangeFailed);
    assert_eq!(
        read_token_response(br#"{"access_token":42}"#).unwrap_err(),
        AppError::TokenExchangeFailed
    );
}

#[test]
fn access_token_response_requires_token() {
    assert_eq!(access_token_response(None, None).unwrap_err(), AppError::TokenExchangeFailed);
    let t = access_token_response(Some("t".to_string()), None).unwrap();
    assert_eq!(t.access_token, "t");
}

#[test]
fn failed_store_leaves_login_unfinished() {
    let mut state = AppState::new(false);
    start_authentication(&mut state, "client").unwrap();
    let n = state.csrf_state().clone();
    let bus = EventBus::new();
    let r = finish_authentication(&mut state, &bus, Err(AppError::PersistenceFailed));
    assert_eq!(r.unwrap_err(), AppError::PersistenceFailed);
    assert!(!state.authenticated());
    assert_eq!(*state.csrf_state(), n);
}

#[test]
fn log_out_publishes_logged_out() {
    let mut state = AppState::new(true);
    let mut bus = EventBus::new();
    let a = bus.subscribe(CustomEvent::Authentication).unwrap();
    let _ = bus.subscribe(CustomEvent::Autostart).unwrap();
    let b = bus.subscribe(CustomEvent::Authentication).unwrap();
    assert_eq!(log_out(&mut state, &bus, Ok(())).unwrap(), vec![a, b]);
    assert!(!state.authenticated());
    let mut kept = AppState::new(true);
    assert_eq!(log_out(&mut kept, &bus, Err(AppError::PersistenceFailed)).unwrap_err(), AppError::PersistenceFailed);
    assert!(kept.authenticated());
}

#[test]
fn access_token_command_answers() {
    assert_eq!(get_todoist_access_token(Ok(Some("t".to_string()))).unwrap(), "t");
    assert_eq!(get_todoist_access_token(Ok(None)).unwrap_err(), AppError::NotFound);
    assert_eq!(
        get_todoist_access_token(Err(AppError::PersistenceFailed)).unwrap_err(),
        AppError::PersistenceFailed
    );
}
