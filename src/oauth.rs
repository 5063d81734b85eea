//! The OAuth authorization-code flow: the CSRF nonce, the authorization URL,
//! the check of the callback, and the token exchange around the network call.

use crate::bus::{handles_for, EventBus};
use crate::deeplink::CallbackUrl;
use crate::error::AppError;
use crate::events::{AppEvent, AuthEvent, CustomEvent};
use crate::state::{after_event, opt_view, AppState};
use crate::text::texts_view;
use vstd::prelude::*;
use vstd::string::StringExecFns;

verus! {

/// Length of the CSRF nonce.
pub const NONCE_LEN: usize = 24;

/// The permission scopes that the task-tracking service grants.
#[derive(Debug, Clone, Copy, PartialEq, Eq, Structural)]
pub enum PermissionScope {
    /// Add new tasks, and nothing else.
    TaskAdd,
    /// Read tasks, projects, labels and filters.
    DataRead,
    /// Read and write application data; includes the two scopes above.
    DataReadWrite,
    /// Delete tasks, labels and filters.
    DataDelete,
    /// Delete projects.
    ProjectDelete,
    /// List backups without multi-factor authentication.
    BackupsRead,
}

impl PermissionScope {
    /// The scope's identifier in the authorization URL.
    pub open spec fn spec_name(self) -> Seq<char> {
        match self {
            PermissionScope::TaskAdd => "task:add"@,
            PermissionScope::DataRead => "data:read"@,
            PermissionScope::DataReadWrite => "data:read_write"@,
            PermissionScope::DataDelete => "data:delete"@,
            PermissionScope::ProjectDelete => "project:delete"@,
            PermissionScope::BackupsRead => "backups:read"@,
        }
    }

    /// Returns the scope's identifier in the authorization URL.
    pub fn name(&self) -> (r: &'static str)
        ensures
            r@ == self.spec_name(),
    {
        match self {
            PermissionScope::TaskAdd => "task:add",
            PermissionScope::DataRead => "data:read",
            PermissionScope::DataReadWrite => "data:read_write",
            PermissionScope::DataDelete => "data:delete",
            PermissionScope::ProjectDelete => "project:delete",
            PermissionScope::BackupsRead => "backups:read",
        }
    }
}

/// The identifiers of `scopes`, joined by commas.
pub open spec fn joined_scopes(scopes: Seq<PermissionScope>) -> Seq<char>
    decreases scopes.len(),
{
    if scopes.len() == 0 {
        Seq::empty()
    } else if scopes.len() == 1 {
        scopes[0].spec_name()
    } else {
        joined_scopes(scopes.drop_last()) + ","@ + scopes.last().spec_name()
    }
}

/// An ASCII letter or digit.
pub open spec fn is_alphanumeric(c: char) -> bool {
    ('A' <= c && c <= 'Z') || ('a' <= c && c <= 'z') || ('0' <= c && c <= '9')
}

/// A well-formed nonce: its length, and letters and digits only.
pub open spec fn is_nonce(s: Seq<char>) -> bool {
    &&& s.len() == NONCE_LEN
    &&& forall|i: int| 0 <= i < s.len() ==> is_alphanumeric(#[trigger] s[i])
}

/// The view of a list of text pairs.
pub open spec fn pairs_view(p: Seq<(String, String)>) -> Seq<(Seq<char>, Seq<char>)> {
    p.map_values(|q: (String, String)| (q.0@, q.1@))
}

/// The URL that the `url` crate makes of `base` with `pairs` appended to its
/// query, form-encoded; `None` where `base` is no absolute URL.
pub uninterp spec fn url_with_query_pairs(
    base: Seq<char>,
    pairs: Seq<(Seq<char>, Seq<char>)>,
) -> Option<Seq<char>>;

/// Relies on rand's `Alphanumeric` distribution drawn from the thread-local
/// generator: one byte out of `A-Z`, `a-z` and `0-9`.
#[verifier::external_body]
fn random_alphanumeric() -> (r: char)
    ensures
        is_alphanumeric(r),
{
    rand::Rng::sample(&mut rand::rng(), rand::distr::Alphanumeric) as char
}

/// Relies on `String::push`: the character is appended.
#[verifier::external_body]
fn push_char(s: &mut String, c: char)
    ensures
        final(s)@ == old(s)@.push(c),
{
    s.push(c)
}

/// Relies on `url::Url::parse` of `base` and on the form serializer of
/// `Url::query_pairs_mut`, which appends each pair to the query in order;
/// the result is the URL's serialization.
#[verifier::external_body]
fn url_with_query(base: &str, pairs: &Vec<(String, String)>) -> (r: Option<String>)
    requires
        base@.len() < 0x1000_0000,
        !base@.contains('#'),
    ensures
        r matches Some(u) ==> url_with_query_pairs(base@, pairs_view(pairs@)) == Some(u@),
        r is None ==> url_with_query_pairs(base@, pairs_view(pairs@)) is None,
{
    let mut url = url::Url::parse(base).ok()?;
    url.query_pairs_mut().extend_pairs(pairs.iter());
    Some(String::from(url))
}

/// Generates the CSRF nonce of a login flow: `NONCE_LEN` random letters and
/// digits.
pub fn get_auth_state_parameter() -> (r: String)
    ensures
        is_nonce(r@),
{
    let mut s = String::new();
    let mut i: usize = 0;
    while i < NONCE_LEN
        invariant
            i <= NONCE_LEN,
            s@.len() == i,
            forall|j: int| 0 <= j < s@.len() ==> is_alphanumeric(#[trigger] s@[j]),
        decreases NONCE_LEN - i,
    {
        let c = random_alphanumeric();
        push_char(&mut s, c);
        i = i + 1;
    }
    s
}

/// Joins the scopes' identifiers with commas.
pub fn join_scopes(scopes: &[PermissionScope]) -> (r: String)
    ensures
        r@ == joined_scopes(scopes@),
{
    let mut s = String::new();
    let mut i: usize = 0;
    while i < scopes.len()
        invariant
            i <= scopes@.len(),
            s@ == joined_scopes(scopes@.subrange(0, i as int)),
        decreases scopes@.len() - i,
    {
        assert(scopes@.subrange(0, i + 1).drop_last() =~= scopes@.subrange(0, i as int));
        if i > 0 {
            s.append(",");
        }
        s.append(scopes[i].name());
        i = i + 1;
    }
    assert(scopes@.subrange(0, i as int) =~= scopes@);
    s
}

/// The service's authorization endpoint.
pub open spec fn authorize_endpoint() -> Seq<char> {
    "https://todoist.com/oauth/authorize"@
}

/// The authorization URL for a client, its scopes and a nonce.
pub open spec fn authorization_url(
    client_id: Seq<char>,
    scopes: Seq<PermissionScope>,
    state: Seq<char>,
) -> Option<Seq<char>> {
    url_with_query_pairs(
        authorize_endpoint(),
        seq![
            ("client_id"@, client_id),
            ("scope"@, joined_scopes(scopes)),
            ("state"@, state),
        ],
    )
}

/// Builds the authorization URL: the endpoint with `client_id`, the
/// comma-joined `scope` list and the nonce as `state` in its query.
pub fn get_authorization_url(client_id: &str, scopes: &[PermissionScope], state: &str) -> (r:
    Result<String, AppError>)
    ensures
        r matches Ok(u) ==> authorization_url(client_id@, scopes@, state@) == Some(u@),
        r is Err ==> authorization_url(client_id@, scopes@, state@) is None && r == Err::<
            String,
            AppError,
        >(AppError::InvalidAuthorizationUrl),
{
    let base = "https://todoist.com/oauth/authorize";
    proof {
        reveal_strlit("https://todoist.com/oauth/authorize");
    }
    let mut pairs: Vec<(String, String)> = Vec::new();
    pairs.push(("client_id".to_owned(), client_id.to_owned()));
    pairs.push(("scope".to_owned(), join_scopes(scopes)));
    pairs.push(("state".to_owned(), state.to_owned()));
    assert(pairs_view(pairs@) =~= seq![
        ("client_id"@, client_id@),
        ("scope"@, joined_scopes(scopes@)),
        ("state"@, state@),
    ]);
    match url_with_query(base, &pairs) {
        Some(u) => Ok(u),
        None => Err(AppError::InvalidAuthorizationUrl),
    }
}

/// The parameters of an OAuth callback.
#[derive(Debug, Clone)]
pub struct AuthCallbackResponse {
    pub code: String,
    pub state: String,
}

/// The token endpoint's answer to a code exchange.
#[derive(Debug, Clone)]
pub struct AccessTokenResponse {
    /// The token that authenticates API requests.
    pub access_token: String,
    /// The kind of token, typically `Bearer`, where the answer names one.
    pub token_type: Option<String>,
}

/// The values paired with `key`, in order.
pub open spec fn values_of(pairs: Seq<(Seq<char>, Seq<char>)>, key: Seq<char>) -> Seq<Seq<char>>
    decreases pairs.len(),
{
    if pairs.len() == 0 {
        Seq::empty()
    } else {
        let rest = values_of(pairs.drop_last(), key);
        if pairs.last().0 == key {
            rest.push(pairs.last().1)
        } else {
            rest
        }
    }
}

/// The value of `key` where it occurs exactly once: a missing or repeated
/// parameter makes the callback malformed.
pub open spec fn single_value(pairs: Seq<(Seq<char>, Seq<char>)>, key: Seq<char>) -> Option<
    Seq<char>,
> {
    let v = values_of(pairs, key);
    if v.len() == 1 {
        Some(v[0])
    } else {
        None
    }
}

/// What the check of a callback gives: its `code` and `state`, or the
/// error that ends the login.
pub open spec fn callback_check(
    pending: Option<Seq<char>>,
    pairs: Option<Seq<(Seq<char>, Seq<char>)>>,
) -> Result<(Seq<char>, Seq<char>), AppError> {
    match pairs {
        None => Err(AppError::InvalidCallback),
        Some(p) => match (single_value(p, "code"@), single_value(p, "state"@)) {
            (Some(code), Some(state)) => if pending == Some(state) {
                Ok((code, state))
            } else {
                Err(AppError::CsrfMismatch)
            },
            _ => Err(AppError::InvalidCallback),
        },
    }
}

/// A well-formed callback whose `state` is not the pending nonce: one from
/// a superseded flow, a forged one, or any callback while no flow is
/// pending.
pub open spec fn state_mismatch(
    pending: Option<Seq<char>>,
    pairs: Option<Seq<(Seq<char>, Seq<char>)>>,
) -> bool {
    match pairs {
        Some(p) => match (single_value(p, "code"@), single_value(p, "state"@)) {
            (Some(_), Some(st)) => pending != Some(st),
            _ => false,
        },
        None => false,
    }
}

/// The pairs that `serde_urlencoded` decodes from a query string, or `None`
/// where it rejects the string.
pub uninterp spec fn form_pairs(query: Seq<char>) -> Option<Seq<(Seq<char>, Seq<char>)>>;

/// The pairs that a callback URL's query decodes to.
pub open spec fn callback_pairs(query: Option<Seq<char>>) -> Option<Seq<(Seq<char>, Seq<char>)>> {
    match query {
        Some(q) => form_pairs(q),
        None => None,
    }
}

/// Relies on `serde_urlencoded::from_str` into a list of (name, value)
/// pairs: the query's pairs, percent-decoded, in their order.
#[verifier::external_body]
fn decode_form(query: &str) -> (r: Option<Vec<(String, String)>>)
    ensures
        r matches Some(p) ==> form_pairs(query@) == Some(pairs_view(p@)),
        r is None ==> form_pairs(query@) is None,
{
    serde_urlencoded::from_str::<Vec<(String, String)>>(query).ok()
}

/// The string member `key` of the JSON object that `body` holds, as
/// `serde_json` reads it; `None` where `body` is no JSON object or the
/// member is missing or not a string.
pub uninterp spec fn json_string_member(body: Seq<u8>, key: Seq<char>) -> Option<Seq<char>>;

/// Relies on `serde_json::from_slice` into a `Value`, then `Value::get` and
/// `Value::as_str`: the string member `key` of the top-level object.
#[verifier::external_body]
fn json_string_field(body: &[u8], key: &str) -> (r: Option<String>)
    ensures
        r matches Some(s) ==> json_string_member(body@, key@) == Some(s@),
        r is None ==> json_string_member(body@, key@) is None,
{
    let value = serde_json::from_slice::<serde_json::Value>(body).ok()?;
    value.get(key)?.as_str().map(String::from)
}

/// Picks `code` and `state` out of a callback's decoded query; `None` where
/// either is missing or repeated. Other parameters are ignored.
pub fn callback_fields(pairs: &Vec<(String, String)>) -> (r: Option<AuthCallbackResponse>)
    ensures
        r matches Some(c) ==> single_value(pairs_view(pairs@), "code"@) == Some(c.code@)
            && single_value(pairs_view(pairs@), "state"@) == Some(c.state@),
        r is None ==> single_value(pairs_view(pairs@), "code"@) is None || single_value(
            pairs_view(pairs@),
            "state"@,
        ) is None,
{
    let code_key = "code".to_owned();
    let state_key = "state".to_owned();
    let mut codes: Vec<String> = Vec::new();
    let mut states: Vec<String> = Vec::new();
    let mut i: usize = 0;
    while i < pairs.len()
        invariant
            i <= pairs@.len(),
            code_key@ == "code"@,
            state_key@ == "state"@,
            texts_view(codes@) == values_of(pairs_view(pairs@).subrange(0, i as int), "code"@),
            texts_view(states@) == values_of(pairs_view(pairs@).subrange(0, i as int), "state"@),
        decreases pairs@.len() - i,
    {
        assert(pairs_view(pairs@).subrange(0, i + 1).drop_last() =~= pairs_view(pairs@).subrange(
            0,
            i as int,
        ));
        let pair = &pairs[i];
        if pair.0 == code_key {
            codes.push(pair.1.clone());
            assert(texts_view(codes@) =~= texts_view(codes@.drop_last()).push(pair.1@));
        }
        if pair.0 == state_key {
            states.push(pair.1.clone());
            assert(texts_view(states@) =~= texts_view(states@.drop_last()).push(pair.1@));
        }
        i = i + 1;
    }
    assert(pairs_view(pairs@).subrange(0, i as int) =~= pairs_view(pairs@));
    if codes.len() == 1 && states.len() == 1 {
        Some(AuthCallbackResponse { code: codes[0].clone(), state: states[0].clone() })
    } else {
        None
    }
}

/// The CSRF check: the callback's `state` must be the pending nonce. With no
/// pending nonce no callback passes, whatever its `state`.
pub fn verify_callback(state: &AppState, fields: Option<AuthCallbackResponse>) -> (r: Result<
    AuthCallbackResponse,
    AppError,
>)
    ensures
        fields is None ==> r == Err::<AuthCallbackResponse, AppError>(AppError::InvalidCallback),
        fields matches Some(f) ==> {
            if state@.pending == Some(f.state@) {
                r == Ok::<AuthCallbackResponse, AppError>(f)
            } else {
                r == Err::<AuthCallbackResponse, AppError>(AppError::CsrfMismatch)
            }
        },
{
    match fields {
        None => Err(AppError::InvalidCallback),
        Some(f) => match state.csrf_state() {
            Some(n) => if *n == f.state {
                Ok(f)
            } else {
                Err(AppError::CsrfMismatch)
            },
            None => Err(AppError::CsrfMismatch),
        },
    }
}

/// Checks an OAuth callback: decodes its query into `code` and `state` and
/// compares `state` with the pending nonce. On success the code is ready to
/// be exchanged; the state is not touched either way.
pub fn authenticate(state: &AppState, url: &CallbackUrl) -> (r: Result<
    AuthCallbackResponse,
    AppError,
>)
    ensures
        r matches Ok(c) ==> callback_check(state@.pending, callback_pairs(opt_view(url.query)))
            == Ok::<(Seq<char>, Seq<char>), AppError>((c.code@, c.state@)),
        r matches Err(e) ==> callback_check(state@.pending, callback_pairs(opt_view(url.query)))
            == Err::<(Seq<char>, Seq<char>), AppError>(e),
        r matches Ok(c) ==> state@.pending == Some(c.state@),
        state@.pending is None ==> r is Err,
        state_mismatch(state@.pending, callback_pairs(opt_view(url.query))) ==> r == Err::<
            AuthCallbackResponse,
            AppError,
        >(AppError::CsrfMismatch),
{
    let pairs = match &url.query {
        Some(q) => decode_form(q.as_str()),
        None => None,
    };
    match pairs {
        None => Err(AppError::InvalidCallback),
        Some(p) => verify_callback(state, callback_fields(&p)),
    }
}

/// The token endpoint.
pub const TOKEN_ENDPOINT: &'static str = "https://todoist.com/oauth/access_token";

/// The form fields of the token exchange.
pub fn token_request_form(client_id: &str, client_secret: &str, code: &str) -> (r: Vec<
    (String, String),
>)
    ensures
        pairs_view(r@) == seq![
            ("client_id"@, client_id@),
            ("client_secret"@, client_secret@),
            ("code"@, code@),
        ],
{
    let mut form: Vec<(String, String)> = Vec::new();
    form.push(("client_id".to_owned(), client_id.to_owned()));
    form.push(("client_secret".to_owned(), client_secret.to_owned()));
    form.push(("code".to_owned(), code.to_owned()));
    assert(pairs_view(form@) =~= seq![
        ("client_id"@, client_id@),
        ("client_secret"@, client_secret@),
        ("code"@, code@),
    ]);
    form
}

/// The answer of the token endpoint from its members: a token is required.
pub fn access_token_response(access_token: Option<String>, token_type: Option<String>) -> (r:
    Result<AccessTokenResponse, AppError>)
    ensures
        access_token is None ==> r == Err::<AccessTokenResponse, AppError>(
            AppError::TokenExchangeFailed,
        ),
        access_token matches Some(t) ==> r == Ok::<AccessTokenResponse, AppError>(
            AccessTokenResponse { access_token: t, token_type },
        ),
{
    match access_token {
        Some(t) => Ok(AccessTokenResponse { access_token: t, token_type }),
        None => Err(AppError::TokenExchangeFailed),
    }
}

/// Reads the token endpoint's JSON answer; one without a string
/// `access_token` fails the exchange.
pub fn read_token_response(body: &[u8]) -> (r: Result<AccessTokenResponse, AppError>)
    ensures
        json_string_member(body@, "access_token"@) is None ==> r == Err::<
            AccessTokenResponse,
            AppError,
        >(AppError::TokenExchangeFailed),
        r matches Ok(t) ==> json_string_member(body@, "access_token"@) == Some(t.access_token@)
            && json_string_member(body@, "token_type"@) == opt_view(t.token_type),
        r is Err ==> r == Err::<AccessTokenResponse, AppError>(AppError::TokenExchangeFailed),
        json_string_member(body@, "access_token"@) is Some ==> r is Ok,
{
    let access_token = json_string_field(body, "access_token");
    let token_type = json_string_field(body, "token_type");
    access_token_response(access_token, token_type)
}

/// Starts a login: draws a new nonce, stores it as the pending one (which
/// invalidates any earlier flow) and builds the authorization URL to open in
/// the browser.
pub fn start_authentication(state: &mut AppState, client_id: &str) -> (r: Result<String, AppError>)
    ensures
        final(state)@.authenticated == old(state)@.authenticated,
        final(state)@.pending matches Some(n) && is_nonce(n) && match r {
            Ok(u) => authorization_url(client_id@, seq![PermissionScope::TaskAdd], n) == Some(u@),
            Err(e) => e == AppError::InvalidAuthorizationUrl && authorization_url(
                client_id@,
                seq![PermissionScope::TaskAdd],
                n,
            ) is None,
        },
{
    let scopes = vec![PermissionScope::TaskAdd];
    let nonce = get_auth_state_parameter();
    state.set_pending_nonce(nonce.clone());
    assert(scopes@ =~= seq![PermissionScope::TaskAdd]);
    get_authorization_url(client_id, scopes.as_slice(), nonce.as_str())
}

/// Ends a login once the token is stored: publishes that the user is
/// authenticated. A failed store publishes nothing and leaves the state as
/// it was, so no subscriber ever sees a login without a stored token.
pub fn finish_authentication(state: &mut AppState, bus: &EventBus, stored: Result<(), AppError>) -> (r:
    Result<Vec<u64>, AppError>)
    requires
        bus.wf(),
    ensures
        stored is Ok ==> final(state)@ == after_event(
            old(state)@,
            AppEvent::Authentication(AuthEvent { authenticated: true }),
        ) && (r matches Ok(h) && h@ == handles_for(
            bus.spec_subscriptions(),
            CustomEvent::Authentication,
        )),
        stored matches Err(e) ==> final(state)@ == old(state)@ && r == Err::<Vec<u64>, AppError>(e),
{
    match stored {
        Ok(()) => Ok(bus.publish(state, &AppEvent::Authentication(AuthEvent { authenticated: true }))),
        Err(e) => Err(e),
    }
}

/// Ends a logout once the credential is deleted: publishes that the user is
/// no longer authenticated. A failed deletion publishes nothing.
pub fn log_out(state: &mut AppState, bus: &EventBus, deleted: Result<(), AppError>) -> (r: Result<
    Vec<u64>,
    AppError,
>)
    requires
        bus.wf(),
    ensures
        deleted is Ok ==> final(state)@ == after_event(
            old(state)@,
            AppEvent::Authentication(AuthEvent { authenticated: false }),
        ) && (r matches Ok(h) && h@ == handles_for(
            bus.spec_subscriptions(),
            CustomEvent::Authentication,
        )),
        deleted matches Err(e) ==> final(state)@ == old(state)@ && r == Err::<Vec<u64>, AppError>(e),
{
    match deleted {
        Ok(()) => Ok(bus.publish(state, &AppEvent::Authentication(AuthEvent { authenticated: false }))),
        Err(e) => Err(e),
    }
}

/// The answer to the UI's request for the current token: the token, or
/// `NotFound` where none is stored.
pub fn get_todoist_access_token(found: Result<Option<String>, AppError>) -> (r: Result<
    String,
    AppError,
>)
    ensures
        found matches Ok(Some(t)) ==> r == Ok::<String, AppError>(t),
        found matches Ok(None) ==> r == Err::<String, AppError>(AppError::NotFound),
        found matches Err(e) ==> r == Err::<String, AppError>(e),
{
    match found {
        Ok(Some(t)) => Ok(t),
        Ok(None) => Err(AppError::NotFound),
        Err(e) => Err(e),
    }
}

} // verus!
