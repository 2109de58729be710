//! The authentication manager: credentials as plain data, loading precedence,
//! login and logout, token refresh bookkeeping, and the login restrictions a
//! deployment can force. The credential store is modelled in memory; the edge
//! reads and writes the backing file and keeps this image in sync.

use crate::error::CodexErr;
use vstd::prelude::*;

verus! {

/// How the user is authenticated.
#[derive(Debug, Clone, Copy, PartialEq, Eq, Structural)]
pub enum AuthMode {
    ApiKey,
    ChatGPT,
}

/// A login method a deployment can force.
#[derive(Debug, Clone, Copy, PartialEq, Eq, Structural)]
pub enum ForcedLoginMethod {
    Api,
    Chatgpt,
}

/// The claims read from a ChatGPT id token. The edge parses the JWT; the
/// library only carries the values.
#[derive(Debug)]
pub struct IdTokenInfo {
    pub email: Option<String>,
    pub chatgpt_plan_type: Option<String>,
    pub chatgpt_account_id: Option<String>,
    pub raw_jwt: String,
}

/// A ChatGPT token set.
#[derive(Debug)]
pub struct TokenData {
    pub id_token: IdTokenInfo,
    pub access_token: String,
    pub refresh_token: String,
    pub account_id: Option<String>,
}

/// The stored credential entry: an API key, a token set, or both, with the
/// time of the last refresh as seconds since the Unix epoch.
#[derive(Debug)]
pub struct AuthDotJson {
    pub openai_api_key: Option<String>,
    pub tokens: Option<TokenData>,
    pub last_refresh: Option<i64>,
}

/// Clones an optional string, keeping its value.
pub fn clone_opt_string(o: &Option<String>) -> (r: Option<String>)
    ensures
        r == *o,
{
    match o {
        Some(s) => Some(s.clone()),
        None => None,
    }
}

impl Clone for IdTokenInfo {
    fn clone(&self) -> (r: Self)
        ensures
            r == *self,
    {
        IdTokenInfo {
            email: clone_opt_string(&self.email),
            chatgpt_plan_type: clone_opt_string(&self.chatgpt_plan_type),
            chatgpt_account_id: clone_opt_string(&self.chatgpt_account_id),
            raw_jwt: self.raw_jwt.clone(),
        }
    }
}

impl Clone for TokenData {
    fn clone(&self) -> (r: Self)
        ensures
            r == *self,
    {
        TokenData {
            id_token: self.id_token.clone(),
            access_token: self.access_token.clone(),
            refresh_token: self.refresh_token.clone(),
            account_id: clone_opt_string(&self.account_id),
        }
    }
}

/// Clones an optional token set, keeping its value.
pub fn clone_opt_tokens(o: &Option<TokenData>) -> (r: Option<TokenData>)
    ensures
        r == *o,
{
    match o {
        Some(t) => Some(t.clone()),
        None => None,
    }
}

impl Clone for AuthDotJson {
    fn clone(&self) -> (r: Self)
        ensures
            r == *self,
    {
        AuthDotJson {
            openai_api_key: clone_opt_string(&self.openai_api_key),
            tokens: clone_opt_tokens(&self.tokens),
            last_refresh: self.last_refresh,
        }
    }
}

/// The in-memory image of the credential store. The edge owns the backing
/// file (`auth.json` under the configuration home) and mirrors it here; every
/// rule about credentials is stated over this value.
#[derive(Debug)]
pub struct AuthStore {
    entry: Option<AuthDotJson>,
}

impl AuthStore {
    /// The stored entry, if any.
    pub closed spec fn spec_entry(&self) -> Option<AuthDotJson> {
        self.entry
    }

    /// A store holding the given entry, as the edge read it from disk.
    pub fn new(entry: Option<AuthDotJson>) -> (r: Self)
        ensures
            r.spec_entry() == entry,
    {
        AuthStore { entry }
    }
}

/// Deletes the stored credentials. True when an entry was present.
pub fn logout(store: &mut AuthStore) -> (r: bool)
    ensures
        final(store).spec_entry() is None,
        r == (old(store).spec_entry() is Some),
{
    let had = store.entry.is_some();
    store.entry = None;
    had
}

/// Stores an entry that contains only the API key, overwriting any tokens.
pub fn login_with_api_key(store: &mut AuthStore, api_key: &str)
    ensures
        final(store).spec_entry() matches Some(a) && a.openai_api_key matches Some(k) && k@
            == api_key@ && a.tokens is None && a.last_refresh is None,
{
    store.entry = Some(
        AuthDotJson {
            openai_api_key: Some(api_key.to_owned()),
            tokens: None,
            last_refresh: None,
        },
    );
}

/// Persists the given entry as the stored credentials.
pub fn save_auth(store: &mut AuthStore, auth: &AuthDotJson)
    ensures
        final(store).spec_entry() == Some(*auth),
{
    store.entry = Some(auth.clone());
}

/// Reads the stored credentials; `None` when nothing is stored.
pub fn load_auth_dot_json(store: &AuthStore) -> (r: Option<AuthDotJson>)
    ensures
        r == store.spec_entry(),
{
    match &store.entry {
        Some(a) => Some(a.clone()),
        None => None,
    }
}

/// A snapshot of the authentication state: the mode, the API key when that
/// is the mode's source, and the cached store entry for token-based auth.
#[derive(Debug)]
pub struct CodexAuth {
    pub mode: AuthMode,
    pub api_key: Option<String>,
    pub auth_dot_json: Option<AuthDotJson>,
}

impl Clone for CodexAuth {
    fn clone(&self) -> (r: Self)
        ensures
            r == *self,
    {
        CodexAuth {
            mode: self.mode,
            api_key: clone_opt_string(&self.api_key),
            auth_dot_json: match &self.auth_dot_json {
                Some(a) => Some(a.clone()),
                None => None,
            },
        }
    }
}

impl PartialEq for CodexAuth {
    /// Two snapshots are compared by their mode alone, as reloads only need
    /// to report a change of authentication mode.
    fn eq(&self, other: &Self) -> (r: bool) {
        self.mode == other.mode
    }
}

impl vstd::std_specs::cmp::PartialEqSpecImpl for CodexAuth {
    open spec fn obeys_eq_spec() -> bool {
        true
    }

    open spec fn eq_spec(&self, other: &Self) -> bool {
        self.mode == other.mode
    }
}

impl CodexAuth {
    /// A snapshot authenticated by the given API key.
    pub fn from_api_key(api_key: &str) -> (r: Self)
        ensures
            r.mode == AuthMode::ApiKey,
            r.api_key matches Some(k) && k@ == api_key@,
            r.auth_dot_json is None,
    {
        CodexAuth { mode: AuthMode::ApiKey, api_key: Some(api_key.to_owned()), auth_dot_json: None }
    }

    /// The cached token set, if any.
    pub fn get_current_token_data(&self) -> (r: Option<TokenData>)
        ensures
            r == spec_current_token_data(*self),
    {
        match &self.auth_dot_json {
            Some(a) => clone_opt_tokens(&a.tokens),
            None => None,
        }
    }

    pub fn get_account_id(&self) -> (r: Option<String>)
        ensures
            r == (match spec_current_token_data(*self) {
                Some(t) => t.account_id,
                None => None,
            }),
    {
        match &self.auth_dot_json {
            Some(a) => match &a.tokens {
                Some(t) => clone_opt_string(&t.account_id),
                None => None,
            },
            None => None,
        }
    }

    pub fn get_account_email(&self) -> (r: Option<String>)
        ensures
            r == (match spec_current_token_data(*self) {
                Some(t) => t.id_token.email,
                None => None,
            }),
    {
        match &self.auth_dot_json {
            Some(a) => match &a.tokens {
                Some(t) => clone_opt_string(&t.id_token.email),
                None => None,
            },
            None => None,
        }
    }

    /// The bearer token for an outbound request: the API key in key mode,
    /// the cached access token in ChatGPT mode. Refreshing a stale token is
    /// the caller's business, driven by `token_data_stale`.
    pub fn get_token(&self) -> (r: Result<String, CodexErr>)
        ensures
            self.mode == AuthMode::ApiKey ==> (r matches Ok(k) && k@ == (match self.api_key {
                Some(key) => key@,
                None => Seq::<char>::empty(),
            })),
            self.mode == AuthMode::ChatGPT ==> match spec_current_token_data(*self) {
                Some(t) => r matches Ok(k) && k@ == t.access_token@,
                None => r matches Err(CodexErr::Auth { .. }),
            },
    {
        match self.mode {
            AuthMode::ApiKey => match &self.api_key {
                Some(k) => Ok(k.clone()),
                None => Ok(String::new()),
            },
            AuthMode::ChatGPT => match &self.auth_dot_json {
                Some(a) => match &a.tokens {
                    Some(t) => Ok(t.access_token.clone()),
                    None => Err(
                        CodexErr::Auth {
                            message: String::from_str("Token data is not available."),
                        },
                    ),
                },
                None => Err(
                    CodexErr::Auth { message: String::from_str("Token data is not available.") },
                ),
            },
        }
    }

    /// A throwaway ChatGPT-mode snapshot for tests, stamped with the current
    /// time.
    pub fn create_dummy_chatgpt_auth_for_testing() -> (r: Self)
        ensures
            r.mode == AuthMode::ChatGPT,
            r.api_key is None,
            r.auth_dot_json matches Some(a) && a.tokens matches Some(t) && t.access_token@
                == "Access Token"@ && t.refresh_token@ == "test"@ && a.last_refresh is Some,
    {
        let now = crate::runtime::now_unix_timestamp();
        CodexAuth {
            mode: AuthMode::ChatGPT,
            api_key: None,
            auth_dot_json: Some(
                AuthDotJson {
                    openai_api_key: None,
                    tokens: Some(
                        TokenData {
                            id_token: IdTokenInfo {
                                email: None,
                                chatgpt_plan_type: None,
                                chatgpt_account_id: None,
                                raw_jwt: String::new(),
                            },
                            access_token: String::from_str("Access Token"),
                            refresh_token: String::from_str("test"),
                            account_id: Some(String::from_str("account_id")),
                        },
                    ),
                    last_refresh: Some(now),
                },
            ),
        }
    }
}

/// The token set a snapshot carries.
pub open spec fn spec_current_token_data(auth: CodexAuth) -> Option<TokenData> {
    match auth.auth_dot_json {
        Some(a) => a.tokens,
        None => None,
    }
}

/// The authentication mode `load_auth` assigns: the environment key (when
/// enabled) wins, then a stored API key, then stored tokens. `None` means
/// unauthenticated.
pub open spec fn spec_loaded_mode(
    entry: Option<AuthDotJson>,
    env_key: Option<String>,
    enable_env: bool,
) -> Option<AuthMode> {
    if enable_env && env_key is Some {
        Some(AuthMode::ApiKey)
    } else {
        match entry {
            None => None,
            Some(a) => if a.openai_api_key is Some {
                Some(AuthMode::ApiKey)
            } else {
                Some(AuthMode::ChatGPT)
            },
        }
    }
}

/// Loads the authentication snapshot from the store. `env_key` is the
/// process-environment API key, already trimmed and non-empty, honoured only
/// when `enable_codex_api_key_env` is set.
/// What `load_auth` hands back for a given store entry and environment key:
/// the environment key (when enabled) yields a key-mode snapshot, then a
/// stored API key does, then stored tokens yield a ChatGPT-mode snapshot.
pub open spec fn spec_load_auth_post(
    r: Option<CodexAuth>,
    entry: Option<AuthDotJson>,
    env_key: Option<String>,
    enable_env: bool,
) -> bool {
    &&& (match r {
        Some(a) => Some(a.mode),
        None => None,
    }) == spec_loaded_mode(entry, env_key, enable_env)
    &&& enable_env && env_key is Some ==> (r matches Some(a) && a.api_key matches Some(k) && k@
        == env_key->Some_0@ && a.auth_dot_json is None)
    &&& !(enable_env && env_key is Some) ==> match entry {
        None => r is None,
        Some(e) => match e.openai_api_key {
            Some(stored_key) => r matches Some(a) && (a.api_key matches Some(k) && k@
                == stored_key@ && a.auth_dot_json is None),
            None => r matches Some(a) && a.api_key is None && (a.auth_dot_json matches Some(ad)
                && ad.openai_api_key is None && ad.tokens == e.tokens && ad.last_refresh
                == e.last_refresh),
        },
    }
}

/// The value of an optional borrowed string.
pub open spec fn spec_opt_ref(o: Option<&String>) -> Option<String> {
    match o {
        Some(k) => Some(*k),
        None => None,
    }
}

pub fn load_auth(
    store: &AuthStore,
    env_key: Option<&String>,
    enable_codex_api_key_env: bool,
) -> (r: Option<CodexAuth>)
    ensures
        spec_load_auth_post(
            r,
            store.spec_entry(),
            spec_opt_ref(env_key),
            enable_codex_api_key_env,
        ),
{
    if enable_codex_api_key_env {
        if let Some(k) = env_key {
            return Some(CodexAuth::from_api_key(k.as_str()));
        }
    }
    match &store.entry {
        None => None,
        Some(entry) => {
            match &entry.openai_api_key {
                Some(api_key) => Some(CodexAuth::from_api_key(api_key.as_str())),
                None => Some(
                    CodexAuth {
                        mode: AuthMode::ChatGPT,
                        api_key: None,
                        auth_dot_json: Some(
                            AuthDotJson {
                                openai_api_key: None,
                                tokens: clone_opt_tokens(&entry.tokens),
                                last_refresh: entry.last_refresh,
                            },
                        ),
                    },
                ),
            }
        },
    }
}

/// A token set is stale after 28 days without a refresh.
pub open spec fn spec_token_stale(last_refresh: i64, now: i64) -> bool {
    last_refresh < now - 28 * 86400
}

/// Whether a token refreshed at `last_refresh` should be refreshed again at
/// `now` (both in seconds since the Unix epoch).
pub fn token_data_stale(last_refresh: i64, now: i64) -> (r: bool)
    requires
        now >= 0,
    ensures
        r == spec_token_stale(last_refresh, now),
{
    last_refresh < now - 28 * 86400
}

/// The upstream response to a token refresh; the edge parses the id token's
/// claims before handing it over.
#[derive(Debug)]
pub struct RefreshResponse {
    pub id_token: Option<IdTokenInfo>,
    pub access_token: Option<String>,
    pub refresh_token: Option<String>,
}

/// Updates the stored token set from a refresh response: each field that the
/// response carries replaces the stored one, the others are kept, and the
/// refresh time is set to `now`. Fails, leaving the store unchanged, when
/// nothing is stored.
pub fn update_tokens(store: &mut AuthStore, response: RefreshResponse, now: i64) -> (r: Result<
    AuthDotJson,
    CodexErr,
>)
    ensures
        old(store).spec_entry() is None ==> (r matches Err(CodexErr::Auth { .. })
            && final(store).spec_entry() is None),
        old(store).spec_entry() matches Some(entry) ==> {
            &&& r matches Ok(updated)
            &&& final(store).spec_entry() == Some(updated)
            &&& updated.openai_api_key == entry.openai_api_key
            &&& updated.last_refresh == Some(now)
            &&& updated.tokens matches Some(t) && {
                let base_id_token_absent = entry.tokens is None;
                &&& (match response.id_token {
                    Some(idt) => t.id_token == idt,
                    None => match entry.tokens {
                        Some(base) => t.id_token == base.id_token,
                        None => t.id_token.email is None && t.id_token.chatgpt_plan_type is None
                            && t.id_token.chatgpt_account_id is None && t.id_token.raw_jwt@
                            == Seq::<char>::empty(),
                    },
                })
                &&& (match response.access_token {
                    Some(at) => t.access_token@ == at@,
                    None => match entry.tokens {
                        Some(base) => t.access_token@ == base.access_token@,
                        None => t.access_token@ == Seq::<char>::empty(),
                    },
                })
                &&& (match response.refresh_token {
                    Some(rt) => t.refresh_token@ == rt@,
                    None => match entry.tokens {
                        Some(base) => t.refresh_token@ == base.refresh_token@,
                        None => t.refresh_token@ == Seq::<char>::empty(),
                    },
                })
                &&& t.account_id == (match entry.tokens {
                    Some(base) => base.account_id,
                    None => None::<String>,
                })
            }
        },
{
    let entry = match &store.entry {
        None => {
            return Err(
                CodexErr::Auth { message: String::from_str("Token data is not available.") },
            );
        },
        Some(e) => e,
    };
    let base = match &entry.tokens {
        Some(t) => t.clone(),
        None => TokenData {
            id_token: IdTokenInfo {
                email: None,
                chatgpt_plan_type: None,
                chatgpt_account_id: None,
                raw_jwt: String::new(),
            },
            access_token: String::new(),
            refresh_token: String::new(),
            account_id: None,
        },
    };
    let RefreshResponse { id_token, access_token, refresh_token } = response;
    let new_tokens = TokenData {
        id_token: match id_token {
            Some(idt) => idt,
            None => base.id_token,
        },
        access_token: match access_token {
            Some(at) => at,
            None => base.access_token,
        },
        refresh_token: match refresh_token {
            Some(rt) => rt,
            None => base.refresh_token,
        },
        account_id: base.account_id,
    };
    let updated = AuthDotJson {
        openai_api_key: clone_opt_string(&entry.openai_api_key),
        tokens: Some(new_tokens),
        last_refresh: Some(now),
    };
    store.entry = Some(updated.clone());
    Ok(updated)
}

/// A snapshot that pairs the new access token with the old refresh token,
/// where old and new genuinely differ.
pub open spec fn spec_mixed_snapshot(s: TokenData, pre: TokenData, post: TokenData) -> bool {
    &&& s.access_token@ == post.access_token@
    &&& post.access_token@ != pre.access_token@
    &&& s.refresh_token@ == pre.refresh_token@
    &&& pre.refresh_token@ != post.refresh_token@
}

/// Token refresh is atomic. `update_tokens` replaces the stored entry in one
/// step, so a reader's snapshot is the full pre-refresh token set or the full
/// post-refresh one; this lemma says neither of those is a mix of a new
/// access token with an old refresh token.
pub proof fn lemma_refresh_atomic(s: TokenData, pre: TokenData, post: TokenData)
    requires
        s == pre || s == post,
    ensures
        !spec_mixed_snapshot(s, pre, post),
{
}

/// What a forced login method demands of the current mode.
pub open spec fn spec_method_violation(required: ForcedLoginMethod, mode: AuthMode) -> Option<
    Seq<char>,
> {
    match (required, mode) {
        (ForcedLoginMethod::Api, AuthMode::ApiKey) => None,
        (ForcedLoginMethod::Chatgpt, AuthMode::ChatGPT) => None,
        (ForcedLoginMethod::Api, AuthMode::ChatGPT) => Some(
            "API key login is required, but ChatGPT is currently being used. Logging out."@,
        ),
        (ForcedLoginMethod::Chatgpt, AuthMode::ApiKey) => Some(
            "ChatGPT login is required, but an API key is currently being used. Logging out."@,
        ),
    }
}

/// The outcome `enforce_login_restrictions` owes: let the session proceed,
/// or log the user out with the given message.
pub enum EnforceOutcome {
    Allow,
    Logout { message: Seq<char> },
}

/// The login restrictions rule. The environment key is honoured as in
/// `load_auth` with the environment enabled; an environment-provided API key
/// cannot satisfy a forced ChatGPT login.
pub open spec fn spec_enforce_login_restrictions(
    entry: Option<AuthDotJson>,
    forced_login_method: Option<ForcedLoginMethod>,
    forced_chatgpt_workspace_id: Option<String>,
    env_key: Option<String>,
) -> EnforceOutcome {
    match spec_loaded_mode(entry, env_key, true) {
        None => EnforceOutcome::Allow,
        Some(mode) => {
            let method_violation = match forced_login_method {
                Some(required) => spec_method_violation(required, mode),
                None => None,
            };
            match method_violation {
                Some(message) => EnforceOutcome::Logout { message },
                None => match forced_chatgpt_workspace_id {
                    Some(expected) => if mode != AuthMode::ChatGPT {
                        EnforceOutcome::Allow
                    } else {
                        match entry {
                            Some(e) => match e.tokens {
                                Some(t) => match t.id_token.chatgpt_account_id {
                                    Some(actual) => if actual@ == expected@ {
                                        EnforceOutcome::Allow
                                    } else {
                                        EnforceOutcome::Logout {
                                            message: "Login is restricted to workspace "@
                                                + expected@
                                                + ", but current credentials belong to "@ + actual@
                                                + ". Logging out."@,
                                        }
                                    },
                                    None => EnforceOutcome::Logout {
                                        message: "Login is restricted to workspace "@ + expected@
                                            + ", but current credentials lack a workspace identifier. Logging out."@,
                                    },
                                },
                                None => EnforceOutcome::Logout {
                                    message:
                                        "Failed to load ChatGPT credentials while enforcing workspace restrictions: Token data is not available.. Logging out."@,
                                },
                            },
                            None => EnforceOutcome::Allow,
                        }
                    },
                    None => EnforceOutcome::Allow,
                },
            }
        },
    }
}

/// Logs out and fails with the given message.
fn logout_with_message(store: &mut AuthStore, message: String) -> (r: Result<(), CodexErr>)
    ensures
        final(store).spec_entry() is None,
        r matches Err(CodexErr::Auth { message: m }) && m@ == message@,
{
    logout(store);
    Err(CodexErr::Auth { message })
}

/// Enforces the deployment's login restrictions: a forced login method must
/// match the current mode, and a forced ChatGPT workspace must match the
/// token's account. On a violation the user is logged out and the call fails
/// with a message naming the restriction.
pub fn enforce_login_restrictions(
    store: &mut AuthStore,
    forced_login_method: Option<ForcedLoginMethod>,
    forced_chatgpt_workspace_id: &Option<String>,
    env_key: Option<&String>,
) -> (r: Result<(), CodexErr>)
    ensures
        match spec_enforce_login_restrictions(
            old(store).spec_entry(),
            forced_login_method,
            *forced_chatgpt_workspace_id,
            spec_opt_ref(env_key),
        ) {
            EnforceOutcome::Allow => r is Ok && final(store).spec_entry() == old(
                store,
            ).spec_entry(),
            EnforceOutcome::Logout { message } => r matches Err(CodexErr::Auth { message: m }) && m@
                == message && final(store).spec_entry() is None,
        },
{
    let auth = match load_auth(store, env_key, true) {
        Some(a) => a,
        None => {
            return Ok(());
        },
    };

    if let Some(required) = forced_login_method {
        let violation: Option<String> = match (required, auth.mode) {
            (ForcedLoginMethod::Api, AuthMode::ApiKey) => None,
            (ForcedLoginMethod::Chatgpt, AuthMode::ChatGPT) => None,
            (ForcedLoginMethod::Api, AuthMode::ChatGPT) => Some(
                String::from_str(
                    "API key login is required, but ChatGPT is currently being used. Logging out.",
                ),
            ),
            (ForcedLoginMethod::Chatgpt, AuthMode::ApiKey) => Some(
                String::from_str(
                    "ChatGPT login is required, but an API key is currently being used. Logging out.",
                ),
            ),
        };
        if let Some(message) = violation {
            return logout_with_message(store, message);
        }
    }

    if let Some(expected) = forced_chatgpt_workspace_id {
        if !matches!(auth.mode, AuthMode::ChatGPT) {
            return Ok(());
        }
        let token_data = match auth.get_current_token_data() {
            Some(t) => t,
            None => {
                return logout_with_message(
                    store,
                    String::from_str(
                        "Failed to load ChatGPT credentials while enforcing workspace restrictions: Token data is not available.. Logging out.",
                    ),
                );
            },
        };
        match &token_data.id_token.chatgpt_account_id {
            Some(actual) => {
                if !(*actual == *expected) {
                    let mut message = String::from_str("Login is restricted to workspace ");
                    message.append(expected.as_str());
                    message.append(", but current credentials belong to ");
                    message.append(actual.as_str());
                    message.append(". Logging out.");
                    return logout_with_message(store, message);
                }
            },
            None => {
                let mut message = String::from_str("Login is restricted to workspace ");
                message.append(expected.as_str());
                message.append(
                    ", but current credentials lack a workspace identifier. Logging out.",
                );
                return logout_with_message(store, message);
            },
        }
    }

    Ok(())
}

/// The OAuth client identifier used for the token refresh flow.
pub const CLIENT_ID: &'static str = "app_EMoamEEZ73f0CkXaXp7hrann";

/// The body of a token refresh request to the upstream OAuth endpoint.
#[derive(Debug)]
pub struct RefreshRequest {
    pub client_id: String,
    pub grant_type: String,
    pub refresh_token: String,
    pub scope: String,
}

impl CodexAuth {
    /// The refresh request for the current token set; fails when no token
    /// set is cached.
    pub fn refresh_request(&self) -> (r: Result<RefreshRequest, CodexErr>)
        ensures
            match spec_current_token_data(*self) {
                Some(t) => r matches Ok(rq) && (rq.client_id@ == CLIENT_ID@ && rq.grant_type@
                    == "refresh_token"@ && rq.refresh_token@ == t.refresh_token@ && rq.scope@
                    == "openid profile email"@),
                None => r matches Err(CodexErr::Auth { .. }),
            },
    {
        match self.get_current_token_data() {
            Some(t) => Ok(
                RefreshRequest {
                    client_id: String::from_str(CLIENT_ID),
                    grant_type: String::from_str("refresh_token"),
                    refresh_token: t.refresh_token.clone(),
                    scope: String::from_str("openid profile email"),
                },
            ),
            None => Err(
                CodexErr::Auth { message: String::from_str("Token data is not available.") },
            ),
        }
    }
}

/// Applies a refresh response to the store and returns the new access
/// token. Fails, leaving the store unchanged, when nothing is stored.
pub fn apply_refresh_response(store: &mut AuthStore, response: RefreshResponse, now: i64) -> (r:
    Result<String, CodexErr>)
    ensures
        old(store).spec_entry() is None ==> (r matches Err(CodexErr::Auth { .. })
            && final(store).spec_entry() is None),
        old(store).spec_entry() is Some ==> (r matches Ok(access)
            && final(store).spec_entry() matches Some(updated) && updated.tokens matches Some(t)
            && t.access_token@ == access@ && updated.last_refresh == Some(now)),
{
    match update_tokens(store, response, now) {
        Ok(updated) => match updated.tokens {
            Some(t) => Ok(t.access_token),
            None => Err(
                CodexErr::Auth {
                    message: String::from_str("Token data is not available after refresh."),
                },
            ),
        },
        Err(e) => Err(e),
    }
}

/// The upstream's answer to a refresh request, judged by HTTP status: a
/// successful status with a parsed body hands the response on; any other
/// status fails with a message naming it. No retry happens at this layer.
pub fn refresh_outcome(status: u16, body: Option<RefreshResponse>) -> (r: Result<
    RefreshResponse,
    CodexErr,
>)
    ensures
        200 <= status < 300 && body is Some ==> (r matches Ok(resp) && resp == body->Some_0),
        200 <= status < 300 && body is None ==> (r matches Err(CodexErr::Auth { message })
            && message@ == "Failed to parse the token refresh response"@),
        !(200 <= status < 300) ==> (r matches Err(CodexErr::Auth { message }) && message@
            == "Failed to refresh token: "@ + crate::json::spec_dec(status as nat)),
{
    if 200 <= status && status < 300 {
        match body {
            Some(resp) => Ok(resp),
            None => Err(
                CodexErr::Auth {
                    message: String::from_str("Failed to parse the token refresh response"),
                },
            ),
        }
    } else {
        let mut message = String::from_str("Failed to refresh token: ");
        crate::json::write_u64(status as u64, &mut message);
        Err(CodexErr::Auth { message })
    }
}

/// Whether two cached snapshots count as equal for change reporting: both
/// absent, or authenticated in the same mode.
pub open spec fn spec_auths_equal(a: Option<CodexAuth>, b: Option<CodexAuth>) -> bool {
    match (a, b) {
        (None, None) => true,
        (Some(x), Some(y)) => x.mode == y.mode,
        _ => false,
    }
}

/// A single source of truth for credentials: the store image plus a cached
/// snapshot handed out to the rest of the program. External edits to the
/// backing file are observed only through `reload`.
#[derive(Debug)]
pub struct AuthManager {
    store: AuthStore,
    cached: Option<CodexAuth>,
    enable_codex_api_key_env: bool,
}

impl AuthManager {
    /// The cached snapshot.
    pub closed spec fn spec_cached(&self) -> Option<CodexAuth> {
        self.cached
    }

    /// The store image.
    pub closed spec fn spec_store(&self) -> AuthStore {
        self.store
    }

    /// Whether the environment API key is honoured.
    pub closed spec fn spec_enable_env(&self) -> bool {
        self.enable_codex_api_key_env
    }

    /// Builds a manager over the given store image and loads the initial
    /// snapshot. `env_key` is the process-environment API key, if any.
    pub fn new(store: AuthStore, enable_codex_api_key_env: bool, env_key: Option<&String>) -> (r:
        Self)
        ensures
            r.spec_store() == store,
            r.spec_enable_env() == enable_codex_api_key_env,
            spec_load_auth_post(
                r.spec_cached(),
                store.spec_entry(),
                spec_opt_ref(env_key),
                enable_codex_api_key_env,
            ),
    {
        let cached = load_auth(&store, env_key, enable_codex_api_key_env);
        AuthManager { store, cached, enable_codex_api_key_env }
    }

    /// A manager holding a fixed snapshot, for tests.
    pub fn from_auth_for_testing(auth: CodexAuth) -> (r: Self)
        ensures
            r.spec_cached() == Some(auth),
            r.spec_store().spec_entry() is None,
            r.spec_enable_env() == false,
    {
        AuthManager {
            store: AuthStore::new(None),
            cached: Some(auth),
            enable_codex_api_key_env: false,
        }
    }

    /// The current cached snapshot; `None` when not logged in.
    pub fn auth(&self) -> (r: Option<CodexAuth>)
        ensures
            r == self.spec_cached(),
    {
        match &self.cached {
            Some(a) => Some(a.clone()),
            None => None,
        }
    }

    /// Reloads the snapshot from the store image; true when the
    /// authentication mode or presence changed.
    pub fn reload(&mut self, env_key: Option<&String>) -> (r: bool)
        ensures
            final(self).spec_store() == old(self).spec_store(),
            final(self).spec_enable_env() == old(self).spec_enable_env(),
            spec_load_auth_post(
                final(self).spec_cached(),
                old(self).spec_store().spec_entry(),
                spec_opt_ref(env_key),
                old(self).spec_enable_env(),
            ),
            r == !spec_auths_equal(old(self).spec_cached(), final(self).spec_cached()),
    {
        let new_auth = load_auth(&self.store, env_key, self.enable_codex_api_key_env);
        let changed = match (&self.cached, &new_auth) {
            (None, None) => false,
            (Some(a), Some(b)) => !(a == b),
            _ => true,
        };
        self.cached = new_auth;
        changed
    }

    /// Applies a token refresh response: updates the store image and reloads
    /// the snapshot so other readers observe the refreshed token.
    pub fn refresh_token(&mut self, response: RefreshResponse, now: i64, env_key: Option<&String>)
        -> (r: Result<Option<String>, CodexErr>)
        ensures
            old(self).spec_cached() is None ==> (r matches Ok(t) && t is None && *final(self)
                == *old(self)),
            old(self).spec_cached() is Some && old(self).spec_store().spec_entry() is Some ==> (
            r matches Ok(t) && t matches Some(access)
                && final(self).spec_store().spec_entry() matches Some(updated)
                && updated.tokens matches Some(tk) && tk.access_token@ == access@
                && updated.last_refresh == Some(now)),
            old(self).spec_cached() is Some && old(self).spec_store().spec_entry() is Some ==> (
            final(self).spec_enable_env() == old(self).spec_enable_env()
                && spec_load_auth_post(
                final(self).spec_cached(),
                final(self).spec_store().spec_entry(),
                spec_opt_ref(env_key),
                old(self).spec_enable_env(),
            )),
            old(self).spec_cached() is Some && old(self).spec_store().spec_entry() is None ==> (
            r matches Err(CodexErr::Auth { .. })),
    {
        if self.cached.is_none() {
            return Ok(None);
        }
        match apply_refresh_response(&mut self.store, response, now) {
            Ok(token) => {
                self.reload(env_key);
                Ok(Some(token))
            },
            Err(e) => Err(e),
        }
    }

    /// Logs out: clears the store image and reloads, so callers immediately
    /// observe the unauthenticated state (or the environment key, when that
    /// is enabled and set). True when an entry was removed.
    pub fn logout(&mut self, env_key: Option<&String>) -> (r: bool)
        ensures
            r == (old(self).spec_store().spec_entry() is Some),
            final(self).spec_store().spec_entry() is None,
            spec_load_auth_post(
                final(self).spec_cached(),
                None,
                spec_opt_ref(env_key),
                old(self).spec_enable_env(),
            ),
    {
        let removed = logout(&mut self.store);
        self.reload(env_key);
        removed
    }
}

} // verus!
