//! MCP servers: their stored configuration, what the settings page shows of
//! them, and the decisions taken when one is added, retried or reconfigured.

use vstd::prelude::*;
use crate::model::clone_opt_string;
use crate::text::{decimal, push_decimal, push_str, str_equals, to_owned_string};

verus! {

/// How the client authenticates to an MCP server.
pub enum AuthMethod {
    NoAuth,
    Token { token: String },
    OAuth {
        client_id: String,
        client_secret: Option<String>,
        authorization_url: Option<String>,
        token_url: Option<String>,
        scopes: Vec<String>,
        access_token: Option<String>,
        refresh_token: Option<String>,
        expires_at: Option<i64>,
    },
}

/// A configured MCP server.
pub struct ServerConfig {
    pub name: String,
    pub url: String,
    pub auth: AuthMethod,
    pub use_well_known: bool,
    pub auth_token: Option<String>,
    pub auto_connect: bool,
    pub auto_retry: bool,
}

/// Connection state of a server as the registry tracks it.
pub enum ServerStatus {
    Disconnected,
    Connected,
    Retrying { attempt: u32 },
    RetryStopped { last_error: String },
}

/// The name of an authentication method shown in the UI.
pub open spec fn auth_type_spec(a: AuthMethod) -> Seq<char> {
    match a {
        AuthMethod::NoAuth => "none"@,
        AuthMethod::Token { .. } => "token"@,
        AuthMethod::OAuth { .. } => "oauth"@,
    }
}

pub fn auth_type_name(a: &AuthMethod) -> (r: String)
    ensures
        r@ == auth_type_spec(*a),
{
    match a {
        AuthMethod::NoAuth => to_owned_string("none"),
        AuthMethod::Token { .. } => to_owned_string("token"),
        AuthMethod::OAuth { .. } => to_owned_string("oauth"),
    }
}

/// The status text shown in the UI: `disconnected`, `connected`,
/// `retrying:N` or `stopped:error`.
pub open spec fn status_spec(s: ServerStatus) -> Seq<char> {
    match s {
        ServerStatus::Disconnected => "disconnected"@,
        ServerStatus::Connected => "connected"@,
        ServerStatus::Retrying { attempt } => "retrying:"@ + decimal(attempt as nat),
        ServerStatus::RetryStopped { last_error } => "stopped:"@ + last_error@,
    }
}

pub fn status_text(s: &ServerStatus) -> (r: String)
    ensures
        r@ == status_spec(*s),
{
    match s {
        ServerStatus::Disconnected => to_owned_string("disconnected"),
        ServerStatus::Connected => to_owned_string("connected"),
        ServerStatus::Retrying { attempt } => {
            let mut r = to_owned_string("retrying:");
            push_decimal(&mut r, *attempt as u64);
            r
        },
        ServerStatus::RetryStopped { last_error } => {
            let mut r = to_owned_string("stopped:");
            push_str(&mut r, last_error.as_str());
            r
        },
    }
}

/// An MCP server as the settings page lists it.
pub struct McpServerInfo {
    pub id: String,
    pub name: String,
    pub url: String,
    pub auth_type: String,
    pub is_connected: bool,
    pub needs_oauth_login: bool,
    pub tool_count: usize,
    /// `disconnected`, `connected`, `retrying:N` or `stopped:error`.
    pub status: String,
    pub auto_connect: bool,
    pub auto_retry: bool,
}

impl McpServerInfo {
    /// The listing entry of server `id`. The registry tells whether it is
    /// connected, how many tools its connection offers, its status, and
    /// whether its OAuth credentials still need a login.
    pub fn from_config(
        id: &str,
        config: &ServerConfig,
        is_connected: bool,
        tool_count: usize,
        status: &ServerStatus,
        needs_oauth_login: bool,
    ) -> (r: Self)
        ensures
            r.id@ == id@,
            r.name == config.name,
            r.url == config.url,
            r.auth_type@ == auth_type_spec(config.auth),
            r.is_connected == is_connected,
            r.needs_oauth_login == needs_oauth_login,
            r.tool_count == tool_count,
            r.status@ == status_spec(*status),
            r.auto_connect == config.auto_connect,
            r.auto_retry == config.auto_retry,
    {
        McpServerInfo {
            id: to_owned_string(id),
            name: config.name.clone(),
            url: config.url.clone(),
            auth_type: auth_type_name(&config.auth),
            is_connected,
            needs_oauth_login,
            tool_count,
            status: status_text(status),
            auto_connect: config.auto_connect,
            auto_retry: config.auto_retry,
        }
    }
}

/// A tool offered by a connected MCP server.
pub struct McpToolInfo {
    pub name: String,
    pub description: Option<String>,
    pub server_id: String,
}

/// The tools of server `server_id` as the UI lists them, in the order the
/// server gave them (`(name, description)` pairs); `Server not connected`
/// when there is no connection.
pub fn server_tool_infos(server_id: &str, tools: Option<&Vec<(String, Option<String>)>>) -> (r: Result<
    Vec<McpToolInfo>,
    String,
>)
    ensures
        tools is None ==> (r matches Err(e) && e@ == "Server not connected"@),
        tools matches Some(ts) ==> (r matches Ok(v) && v@.len() == ts@.len() && forall|i: int|
            0 <= i < ts@.len() ==> {
                &&& #[trigger] v@[i].name == ts@[i].0
                &&& v@[i].description == ts@[i].1
                &&& v@[i].server_id@ == server_id@
            }),
{
    match tools {
        None => Err(to_owned_string("Server not connected")),
        Some(ts) => {
            let mut out: Vec<McpToolInfo> = Vec::new();
            let mut i: usize = 0;
            while i < ts.len()
                invariant
                    i <= ts@.len(),
                    out@.len() == i,
                    forall|j: int|
                        0 <= j < i ==> {
                            &&& #[trigger] out@[j].name == ts@[j].0
                            &&& out@[j].description == ts@[j].1
                            &&& out@[j].server_id@ == server_id@
                        },
                decreases ts@.len() - i,
            {
                out.push(
                    McpToolInfo {
                        name: ts[i].0.clone(),
                        description: clone_opt_string(&ts[i].1),
                        server_id: to_owned_string(server_id),
                    },
                );
                i = i + 1;
            }
            Ok(out)
        },
    }
}

/// A request from the UI to add an MCP server.
pub struct AddMcpServerRequest {
    pub id: String,
    pub name: String,
    pub url: String,
    /// `token`, `oauth`, `none`; anything else asks for detection.
    pub auth_type: String,
    pub token: Option<String>,
    pub client_id: Option<String>,
    pub client_secret: Option<String>,
    pub scopes: Option<Vec<String>>,
    pub use_well_known: Option<bool>,
}

/// OAuth settings that hold no tokens yet.
pub open spec fn fresh_oauth(
    client_id: Seq<char>,
    client_secret: Option<String>,
    scopes: Seq<String>,
) -> spec_fn(AuthMethod) -> bool {
    |a: AuthMethod|
        a matches AuthMethod::OAuth {
            client_id: c,
            client_secret: s,
            authorization_url,
            token_url,
            scopes: sc,
            access_token,
            refresh_token,
            expires_at,
        } && c@ == client_id && s == client_secret && authorization_url is None && token_url is None
            && sc@ == scopes && access_token is None && refresh_token is None && expires_at is None
}

/// What the request's `auth_type` settles before anything is fetched.
pub enum AuthChoice {
    /// The method is settled (or the request is refused).
    Decided(Result<AuthMethod, String>),
    /// Detection: the server's `.well-known` document decides.
    Detect,
}

/// The client id used when none is given.
pub open spec fn default_client_id() -> Seq<char> {
    "noema"@
}

/// The authentication method a request asks for: `token` needs a token,
/// `oauth` defaults the client id to `noema` and the scopes to none, `none`
/// is none; any other value asks for detection.
pub fn requested_auth(request: &AddMcpServerRequest) -> (r: AuthChoice)
    ensures
        request.auth_type@ == "token"@ ==> match request.token {
            Some(t) => r matches AuthChoice::Decided(Ok(AuthMethod::Token { token })) && token == t,
            None => r matches AuthChoice::Decided(Err(e)) && e@ == "Token required for token auth"@,
        },
        request.auth_type@ == "oauth"@ ==> (r matches AuthChoice::Decided(Ok(a)) && (fresh_oauth(
            match request.client_id {
                Some(c) => c@,
                None => default_client_id(),
            },
            request.client_secret,
            match request.scopes {
                Some(s) => s@,
                None => Seq::empty(),
            },
        ))(a)),
        request.auth_type@ == "none"@ ==> (r matches AuthChoice::Decided(Ok(AuthMethod::NoAuth))),
        request.auth_type@ != "token"@ && request.auth_type@ != "oauth"@ && request.auth_type@
            != "none"@ ==> r is Detect,
{
    let kind = request.auth_type.as_str();
    proof {
        reveal_strlit("token");
        reveal_strlit("oauth");
        reveal_strlit("none");
        reveal_strlit("noema");
        assert("token"@ != "oauth"@ && "token"@ != "none"@ && "oauth"@ != "none"@) by {
            assert("token"@.len() != "oauth"@.len() || "token"@[0] != "oauth"@[0]);
            assert("token"@.len() != "none"@.len());
            assert("oauth"@.len() != "none"@.len());
        }
    }
    if str_equals(kind, "token") {
        match &request.token {
            Some(t) => AuthChoice::Decided(Ok(AuthMethod::Token { token: t.clone() })),
            None => AuthChoice::Decided(Err(to_owned_string("Token required for token auth"))),
        }
    } else if str_equals(kind, "oauth") {
        let client_id = match &request.client_id {
            Some(c) => c.clone(),
            None => to_owned_string("noema"),
        };
        let scopes = match &request.scopes {
            Some(s) => clone_strings(s),
            None => Vec::new(),
        };
        AuthChoice::Decided(
            Ok(
                AuthMethod::OAuth {
                    client_id,
                    client_secret: clone_opt_string(&request.client_secret),
                    authorization_url: None,
                    token_url: None,
                    scopes,
                    access_token: None,
                    refresh_token: None,
                    expires_at: None,
                },
            ),
        )
    } else if str_equals(kind, "none") {
        AuthChoice::Decided(Ok(AuthMethod::NoAuth))
    } else {
        AuthChoice::Detect
    }
}

/// Detection: OAuth (client `noema`, no scopes) when the server's
/// `.well-known` document was fetched and names an authorization endpoint,
/// else no authentication.
pub fn detected_auth(has_authorization_endpoint: bool) -> (r: AuthMethod)
    ensures
        has_authorization_endpoint ==> (fresh_oauth(default_client_id(), None, Seq::empty()))(r),
        !has_authorization_endpoint ==> r is NoAuth,
{
    if has_authorization_endpoint {
        AuthMethod::OAuth {
            client_id: to_owned_string("noema"),
            client_secret: None,
            authorization_url: None,
            token_url: None,
            scopes: Vec::new(),
            access_token: None,
            refresh_token: None,
            expires_at: None,
        }
    } else {
        AuthMethod::NoAuth
    }
}

/// A copy of a list of strings.
pub fn clone_strings(v: &Vec<String>) -> (r: Vec<String>)
    ensures
        r@ == v@,
{
    let mut out: Vec<String> = Vec::new();
    let mut i: usize = 0;
    while i < v.len()
        invariant
            i <= v@.len(),
            out@ == v@.take(i as int),
        decreases v@.len() - i,
    {
        out.push(v[i].clone());
        proof {
            assert(out@ =~= v@.take(i + 1));
        }
        i = i + 1;
    }
    proof {
        assert(v@.take(v@.len() as int) =~= v@);
    }
    out
}

/// The configuration stored for a newly added server: `.well-known`
/// discovery exactly for OAuth, no stored token, connecting and retrying
/// automatically.
pub fn new_server_config(name: String, url: String, auth: AuthMethod) -> (r: ServerConfig)
    ensures
        r.name == name,
        r.url == url,
        r.use_well_known == (auth is OAuth),
        r.auth == auth,
        r.auth_token is None,
        r.auto_connect,
        r.auto_retry,
{
    let use_well_known = match &auth {
        AuthMethod::OAuth { .. } => true,
        _ => false,
    };
    ServerConfig {
        name,
        url,
        auth,
        use_well_known,
        auth_token: None,
        auto_connect: true,
        auto_retry: true,
    }
}

/// A retry may start only for a server that is neither connected nor
/// already retrying, and that is configured.
pub fn check_retry_start(is_connected: bool, retry_active: bool, configured: bool) -> (r: Result<(), String>)
    ensures
        is_connected ==> (r matches Err(e) && e@ == "Server is already connected"@),
        !is_connected && retry_active ==> (r matches Err(e) && e@ == "Retry is already in progress"@),
        !is_connected && !retry_active && !configured ==> (r matches Err(e) && e@ == "Server not found"@),
        !is_connected && !retry_active && configured ==> r is Ok,
{
    if is_connected {
        Err(to_owned_string("Server is already connected"))
    } else if retry_active {
        Err(to_owned_string("Retry is already in progress"))
    } else if !configured {
        Err(to_owned_string("Server not found"))
    } else {
        Ok(())
    }
}

/// What happens to a server's retry task after its settings change.
#[derive(PartialEq, Eq, Structural, Clone, Copy, Debug)]
pub enum RetryAction {
    /// Cancel a running retry task.
    Cancel,
    /// Start a retry task.
    Start,
    /// Leave things as they are.
    Keep,
}

/// The settings of a server with new auto-connect and auto-retry flags;
/// everything else is kept.
pub fn with_settings(config: ServerConfig, auto_connect: bool, auto_retry: bool) -> (r: ServerConfig)
    ensures
        r.name == config.name,
        r.url == config.url,
        r.auth == config.auth,
        r.use_well_known == config.use_well_known,
        r.auth_token == config.auth_token,
        r.auto_connect == auto_connect,
        r.auto_retry == auto_retry,
{
    ServerConfig {
        name: config.name,
        url: config.url,
        auth: config.auth,
        use_well_known: config.use_well_known,
        auth_token: config.auth_token,
        auto_connect,
        auto_retry,
    }
}

/// Disabling auto-retry cancels a retry; enabling it starts one for a
/// server that is neither connected nor retrying.
pub fn retry_action_after_settings(auto_retry: bool, is_connected: bool, retry_active: bool) -> (r:
    RetryAction)
    ensures
        !auto_retry ==> r == RetryAction::Cancel,
        auto_retry && !is_connected && !retry_active ==> r == RetryAction::Start,
        auto_retry && (is_connected || retry_active) ==> r == RetryAction::Keep,
{
    if !auto_retry {
        RetryAction::Cancel
    } else if !is_connected && !retry_active {
        RetryAction::Start
    } else {
        RetryAction::Keep
    }
}

/// The status recorded when retrying is stopped by hand.
pub fn manually_stopped() -> (r: ServerStatus)
    ensures
        r matches ServerStatus::RetryStopped { last_error } && last_error@ == "Manually stopped"@,
{
    ServerStatus::RetryStopped { last_error: to_owned_string("Manually stopped") }
}

/// What registering the embedded Google Docs server does to the stored
/// configuration.
pub enum GDocsRegistration {
    /// It is registered at this URL already.
    Unchanged,
    /// It moved to a new port: the stored entry with the new URL.
    UpdateUrl(ServerConfig),
    /// First registration: the entry to store.
    Create(ServerConfig),
}

/// The stored entry of the Google Docs server on its first registration:
/// OAuth against Google's endpoints for read-only Drive and Docs access,
/// with no client id yet, and no automatic connection until one is set.
pub open spec fn gdocs_entry(c: ServerConfig, url: Seq<char>) -> bool {
    &&& c.name@ == "Google Docs"@
    &&& c.url@ == url
    &&& c.auth matches AuthMethod::OAuth {
        client_id,
        client_secret,
        authorization_url,
        token_url,
        scopes,
        access_token,
        refresh_token,
        expires_at,
    }
    &&& client_id@.len() == 0 && client_secret is None
    &&& authorization_url matches Some(a) && a@ == "https://accounts.google.com/o/oauth2/v2/auth"@
    &&& token_url matches Some(t) && t@ == "https://oauth2.googleapis.com/token"@
    &&& scopes@.len() == 2
    &&& scopes@[0]@ == "https://www.googleapis.com/auth/drive.readonly"@
    &&& scopes@[1]@ == "https://www.googleapis.com/auth/documents.readonly"@
    &&& access_token is None && refresh_token is None && expires_at is None
    &&& c.use_well_known
    &&& c.auth_token is None
    &&& !c.auto_connect
    &&& c.auto_retry
}

/// Registers the Google Docs server running at `url`, given its stored
/// entry: nothing to do when the URL is the same, a new URL (credentials
/// kept) when it moved, a fresh entry otherwise.
pub fn gdocs_registration(existing: Option<&ServerConfig>, url: &str) -> (r: GDocsRegistration)
    ensures
        (match existing {
            Some(e) => if e.url@ == url@ {
                r is Unchanged
            } else {
                &&& r matches GDocsRegistration::UpdateUrl(c)
                &&& c.url@ == url@
                &&& c.name == e.name && same_auth(c.auth, e.auth) && c.use_well_known == e.use_well_known
                &&& c.auth_token == e.auth_token && c.auto_connect == e.auto_connect && c.auto_retry == e.auto_retry
            },
            None => r matches GDocsRegistration::Create(c) && gdocs_entry(c, url@),
        }),
{
    match existing {
        Some(e) => {
            if str_equals(e.url.as_str(), url) {
                GDocsRegistration::Unchanged
            } else {
                GDocsRegistration::UpdateUrl(
                    ServerConfig {
                        name: e.name.clone(),
                        url: to_owned_string(url),
                        auth: clone_auth(&e.auth),
                        use_well_known: e.use_well_known,
                        auth_token: clone_opt_string(&e.auth_token),
                        auto_connect: e.auto_connect,
                        auto_retry: e.auto_retry,
                    },
                )
            }
        },
        None => {
            let mut scopes: Vec<String> = Vec::new();
            scopes.push(to_owned_string("https://www.googleapis.com/auth/drive.readonly"));
            scopes.push(to_owned_string("https://www.googleapis.com/auth/documents.readonly"));
            GDocsRegistration::Create(
                ServerConfig {
                    name: to_owned_string("Google Docs"),
                    url: to_owned_string(url),
                    auth: AuthMethod::OAuth {
                        client_id: String::new(),
                        client_secret: None,
                        authorization_url: Some(to_owned_string("https://accounts.google.com/o/oauth2/v2/auth")),
                        token_url: Some(to_owned_string("https://oauth2.googleapis.com/token")),
                        scopes,
                        access_token: None,
                        refresh_token: None,
                        expires_at: None,
                    },
                    use_well_known: true,
                    auth_token: None,
                    auto_connect: false,
                    auto_retry: true,
                },
            )
        },
    }
}

/// Two authentication methods with the same settings (scope lists compared
/// by their contents).
pub open spec fn same_auth(a: AuthMethod, b: AuthMethod) -> bool {
    match (a, b) {
        (AuthMethod::NoAuth, AuthMethod::NoAuth) => true,
        (AuthMethod::Token { token: x }, AuthMethod::Token { token: y }) => x == y,
        (
            AuthMethod::OAuth {
                client_id: c1,
                client_secret: s1,
                authorization_url: a1,
                token_url: t1,
                scopes: sc1,
                access_token: at1,
                refresh_token: rt1,
                expires_at: e1,
            },
            AuthMethod::OAuth {
                client_id: c2,
                client_secret: s2,
                authorization_url: a2,
                token_url: t2,
                scopes: sc2,
                access_token: at2,
                refresh_token: rt2,
                expires_at: e2,
            },
        ) => c1 == c2 && s1 == s2 && a1 == a2 && t1 == t2 && sc1@ == sc2@ && at1 == at2 && rt1 == rt2 && e1 == e2,
        _ => false,
    }
}

/// A copy of an authentication method.
pub fn clone_auth(a: &AuthMethod) -> (r: AuthMethod)
    ensures
        same_auth(r, *a),
{
    match a {
        AuthMethod::NoAuth => AuthMethod::NoAuth,
        AuthMethod::Token { token } => AuthMethod::Token { token: token.clone() },
        AuthMethod::OAuth {
            client_id,
            client_secret,
            authorization_url,
            token_url,
            scopes,
            access_token,
            refresh_token,
            expires_at,
        } => {
            AuthMethod::OAuth {
                client_id: client_id.clone(),
                client_secret: clone_opt_string(client_secret),
                authorization_url: clone_opt_string(authorization_url),
                token_url: clone_opt_string(token_url),
                scopes: clone_strings(scopes),
                access_token: clone_opt_string(access_token),
                refresh_token: clone_opt_string(refresh_token),
                expires_at: *expires_at,
            }
        },
    }
}

} // verus!
