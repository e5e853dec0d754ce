//! The OAuth authorization-code flow for MCP servers: which endpoints are
//! used, the authorization request, the pending `state` parameters, the
//! token exchange and what is stored afterwards.

use vstd::prelude::*;
use crate::mcp::{AuthMethod, ServerConfig, clone_strings};
use crate::model::{clone_opt_string, opt_view};
use crate::strmap::StringMap;
use crate::text::{decimal, push_decimal, push_str, str_equals, to_owned_string};
use crate::voice::{join_spaced, join_with_spaces};

verus! {

/// The OAuth settings of a configured server, with what the flow needs of
/// the server itself.
pub struct OAuthClient {
    pub client_id: String,
    pub client_secret: Option<String>,
    pub authorization_url: Option<String>,
    pub token_url: Option<String>,
    pub scopes: Vec<String>,
    pub use_well_known: bool,
    pub server_url: String,
}

/// The endpoints named by a server's `.well-known/oauth-authorization-server`
/// document (a field that is missing or not a string is `None`).
pub struct WellKnownEndpoints {
    pub authorization_endpoint: Option<String>,
    pub token_endpoint: Option<String>,
}

/// The OAuth client of server `config`: `Server not found` when there is no
/// such server, `Server is not configured for OAuth` when it uses another
/// method.
pub fn oauth_client(config: Option<&ServerConfig>) -> (r: Result<OAuthClient, String>)
    ensures
        (match config {
            None => r matches Err(e) && e@ == "Server not found"@,
            Some(c) => match c.auth {
                AuthMethod::OAuth { client_id, client_secret, authorization_url, token_url, scopes, .. } => {
                    &&& r matches Ok(o)
                    &&& o.client_id == client_id
                    &&& o.client_secret == client_secret
                    &&& o.authorization_url == authorization_url
                    &&& o.token_url == token_url
                    &&& o.scopes@ == scopes@
                    &&& o.use_well_known == c.use_well_known
                    &&& o.server_url == c.url
                },
                _ => r matches Err(e) && e@ == "Server is not configured for OAuth"@,
            },
        }),
{
    match config {
        None => Err(to_owned_string("Server not found")),
        Some(c) => match &c.auth {
            AuthMethod::OAuth { client_id, client_secret, authorization_url, token_url, scopes, .. } => {
                Ok(
                    OAuthClient {
                        client_id: client_id.clone(),
                        client_secret: clone_opt_string(client_secret),
                        authorization_url: clone_opt_string(authorization_url),
                        token_url: clone_opt_string(token_url),
                        scopes: clone_strings(scopes),
                        use_well_known: c.use_well_known,
                        server_url: c.url.clone(),
                    },
                )
            },
            _ => Err(to_owned_string("Server is not configured for OAuth")),
        },
    }
}

/// An endpoint: the configured one if any, else the one the `.well-known`
/// document names, else an error.
pub open spec fn endpoint_spec(
    configured: Option<String>,
    discovered: Option<Option<String>>,
    missing_in_document: Seq<char>,
    not_configured: Seq<char>,
) -> Result<Seq<char>, Seq<char>> {
    match configured {
        Some(u) => Ok(u@),
        None => match discovered {
            Some(Some(u)) => Ok(u@),
            Some(None) => Err(missing_in_document),
            None => Err(not_configured),
        },
    }
}

fn resolve_endpoint(
    configured: &Option<String>,
    discovered: Option<&Option<String>>,
    missing_in_document: &str,
    not_configured: &str,
) -> (r: Result<String, String>)
    ensures
        (match r {
            Ok(u) => Ok(u@),
            Err(e) => Err(e@),
        }) == endpoint_spec(
            *configured,
            match discovered {
                Some(d) => Some(*d),
                None => None,
            },
            missing_in_document@,
            not_configured@,
        ),
{
    match configured {
        Some(u) => Ok(u.clone()),
        None => match discovered {
            Some(Some(u)) => Ok(u.clone()),
            Some(None) => Err(to_owned_string(missing_in_document)),
            None => Err(to_owned_string(not_configured)),
        },
    }
}

/// The token endpoint used in the code exchange.
pub open spec fn token_endpoint_spec(client: OAuthClient, well_known: Option<WellKnownEndpoints>) -> Result<
    Seq<char>,
    Seq<char>,
> {
    endpoint_spec(
        client.token_url,
        match well_known {
            Some(w) => Some(w.token_endpoint),
            None => None,
        },
        "No token_endpoint in well-known config"@,
        "OAuth requires token_url or use_well_known"@,
    )
}

/// The authorization endpoint the user is sent to.
pub open spec fn authorization_endpoint_spec(
    client: OAuthClient,
    well_known: Option<WellKnownEndpoints>,
) -> Result<Seq<char>, Seq<char>> {
    endpoint_spec(
        client.authorization_url,
        match well_known {
            Some(w) => Some(w.authorization_endpoint),
            None => None,
        },
        "No authorization_endpoint in well-known config"@,
        "OAuth requires authorization_url or use_well_known"@,
    )
}

/// The token endpoint of a client, given the `.well-known` document when it
/// was fetched.
pub fn token_endpoint(client: &OAuthClient, well_known: Option<&WellKnownEndpoints>) -> (r: Result<
    String,
    String,
>)
    ensures
        (match r {
            Ok(u) => Ok(u@),
            Err(e) => Err(e@),
        }) == token_endpoint_spec(
            *client,
            match well_known {
                Some(w) => Some(*w),
                None => None,
            },
        ),
{
    let discovered = match well_known {
        Some(w) => Some(&w.token_endpoint),
        None => None,
    };
    resolve_endpoint(
        &client.token_url,
        discovered,
        "No token_endpoint in well-known config",
        "OAuth requires token_url or use_well_known",
    )
}

/// Whether the code exchange has to fetch the `.well-known` document: no
/// token endpoint is configured and discovery is on.
pub fn exchange_needs_discovery(client: &OAuthClient) -> (b: bool)
    ensures
        b == (client.token_url is None && client.use_well_known),
{
    client.token_url.is_none() && client.use_well_known
}

/// A client id of `noema` (or none at all) would have to be registered with
/// the provider, which is not supported.
pub open spec fn needs_registration_spec(client_id: Seq<char>) -> bool {
    client_id == "noema"@ || client_id.len() == 0
}

pub fn needs_registration(client_id: &str) -> (b: bool)
    ensures
        b == needs_registration_spec(client_id@),
{
    str_equals(client_id, "noema") || client_id.unicode_len() == 0
}

/// The scope parameter: the scopes separated by spaces, `openid` when there
/// are none.
pub open spec fn scope_spec(scopes: Seq<Seq<char>>) -> Seq<char> {
    if scopes.len() == 0 {
        "openid"@
    } else {
        join_spaced(scopes)
    }
}

pub fn scope_param(scopes: &Vec<String>) -> (r: String)
    ensures
        r@ == scope_spec(scopes@.map_values(|s: String| s@)),
{
    if scopes.len() == 0 {
        to_owned_string("openid")
    } else {
        join_with_spaces(scopes)
    }
}

/// Everything the authorization request and the later code exchange need.
pub struct AuthorizationPlan {
    pub authorization_url: String,
    pub token_url: String,
    pub client_id: String,
    pub client_secret: Option<String>,
    pub scope: String,
}

/// The message shown when the client id still has to be configured.
pub open spec fn registration_unsupported() -> Seq<char> {
    "Please configure your Google OAuth Client ID in the Google Docs settings first."@
}

/// Plans an authorization: the endpoints (configured, else discovered), and
/// a client id that needs no registration; errors in that order.
pub fn authorization_plan(client: &OAuthClient, well_known: Option<&WellKnownEndpoints>) -> (r: Result<
    AuthorizationPlan,
    String,
>)
    ensures
        ({
            let wk = match well_known {
                Some(w) => Some(*w),
                None => None,
            };
            match (authorization_endpoint_spec(*client, wk), token_endpoint_spec(*client, wk)) {
                (Err(e), _) => r matches Err(x) && x@ == e,
                (Ok(_), Err(e)) => r matches Err(x) && x@ == e,
                (Ok(a), Ok(t)) => if needs_registration_spec(client.client_id@) {
                    r matches Err(x) && x@ == registration_unsupported()
                } else {
                    r matches Ok(p) && p.authorization_url@ == a && p.token_url@ == t
                        && p.client_id == client.client_id && p.client_secret == client.client_secret
                        && p.scope@ == scope_spec(client.scopes@.map_values(|s: String| s@))
                },
            }
        }),
{
    let discovered_auth = match well_known {
        Some(w) => Some(&w.authorization_endpoint),
        None => None,
    };
    let auth_url = match resolve_endpoint(
        &client.authorization_url,
        discovered_auth,
        "No authorization_endpoint in well-known config",
        "OAuth requires authorization_url or use_well_known",
    ) {
        Ok(u) => u,
        Err(e) => {
            return Err(e);
        },
    };
    let token_url = match token_endpoint(client, well_known) {
        Ok(u) => u,
        Err(e) => {
            return Err(e);
        },
    };
    if needs_registration(client.client_id.as_str()) {
        return Err(
            to_owned_string(
                "Please configure your Google OAuth Client ID in the Google Docs settings first.",
            ),
        );
    }
    Ok(
        AuthorizationPlan {
            authorization_url: auth_url,
            token_url,
            client_id: client.client_id.clone(),
            client_secret: clone_opt_string(&client.client_secret),
            scope: scope_param(&client.scopes),
        },
    )
}

/// What `url::Url::parse_with_params(base, pairs)` gives: the resulting
/// URL's text, or the text of the parse error.
pub uninterp spec fn url_with_params(base: Seq<char>, pairs: Seq<(Seq<char>, Seq<char>)>) -> Result<
    Seq<char>,
    Seq<char>,
>;

/// The characters of a list of key/value pairs.
pub open spec fn pair_views(pairs: Seq<(String, String)>) -> Seq<(Seq<char>, Seq<char>)> {
    pairs.map_values(|p: (String, String)| (p.0@, p.1@))
}

/// The number of characters in a list of key/value pairs.
pub open spec fn pairs_len(pairs: Seq<(Seq<char>, Seq<char>)>) -> nat
    decreases pairs.len(),
{
    if pairs.len() == 0 {
        0
    } else {
        pairs_len(pairs.drop_last()) + pairs.last().0.len() + pairs.last().1.len()
    }
}

/// A URL and query that stay far below the 4 GiB the `url` crate can index.
pub open spec fn url_fits(base: Seq<char>, pairs: Seq<(Seq<char>, Seq<char>)>) -> bool {
    base.len() + pairs_len(pairs) + 2 * pairs.len() <= 0x1000_0000
}

/// Calls `url::Url::parse_with_params`, which parses `base` and appends the
/// pairs, form-encoded, to its query; the URL (or the parse error) is
/// turned into text. The `url` crate indexes a URL with `u32` and panics
/// when an appended query passes that, which `url_fits` rules out.
#[verifier::external_body]
fn parse_with_params(base: &str, pairs: &Vec<(String, String)>) -> (r: Result<String, String>)
    requires
        url_fits(base@, pair_views(pairs@)),
    ensures
        (match r {
            Ok(u) => Ok(u@),
            Err(e) => Err(e@),
        }) == url_with_params(base@, pair_views(pairs@)),
{
    match url::Url::parse_with_params(base, pairs.iter()) {
        Ok(u) => Ok(u.to_string()),
        Err(e) => Err(e.to_string()),
    }
}

/// The query of the authorization request; offline access with forced
/// consent, so that a refresh token is issued.
pub open spec fn authorization_pairs(
    client_id: Seq<char>,
    redirect_uri: Seq<char>,
    state: Seq<char>,
    scope: Seq<char>,
) -> Seq<(Seq<char>, Seq<char>)> {
    seq![
        ("client_id"@, client_id),
        ("response_type"@, "code"@),
        ("redirect_uri"@, redirect_uri),
        ("state"@, state),
        ("scope"@, scope),
        ("access_type"@, "offline"@),
        ("prompt"@, "consent"@),
    ]
}

fn pair(k: &str, v: &str) -> (r: (String, String))
    ensures
        r.0@ == k@,
        r.1@ == v@,
{
    (to_owned_string(k), to_owned_string(v))
}

/// The authorization URL the user opens, or `Invalid authorization URL: `
/// and the parse error.
pub open spec fn authorization_url_spec(
    endpoint: Seq<char>,
    client_id: Seq<char>,
    redirect_uri: Seq<char>,
    state: Seq<char>,
    scope: Seq<char>,
) -> Result<Seq<char>, Seq<char>> {
    match url_with_params(endpoint, authorization_pairs(client_id, redirect_uri, state, scope)) {
        Ok(u) => Ok(u),
        Err(e) => Err("Invalid authorization URL: "@ + e),
    }
}

/// Bounds under which the authorization URL can be built: the endpoint,
/// client id, redirect URI, scope and a state of `state_len` characters
/// together stay under 128 Mi characters.
pub open spec fn plan_fits(plan: AuthorizationPlan, redirect_uri: Seq<char>, state_len: nat) -> bool {
    plan.authorization_url@.len() + plan.client_id@.len() + redirect_uri.len() + plan.scope@.len()
        + state_len <= 0x0800_0000
}

/// Whether an authorization request with a state of `state_len` characters
/// fits ([`plan_fits`]).
pub fn authorization_fits(plan: &AuthorizationPlan, redirect_uri: &str, state_len: usize) -> (b: bool)
    ensures
        b == plan_fits(*plan, redirect_uri@, state_len as nat),
{
    let parts: [usize; 5] = [
        plan.authorization_url.as_str().unicode_len(),
        plan.client_id.as_str().unicode_len(),
        redirect_uri.unicode_len(),
        plan.scope.as_str().unicode_len(),
        state_len,
    ];
    let mut total: usize = 0;
    let mut i: usize = 0;
    while i < 5
        invariant
            i <= 5,
            parts@.len() == 5,
            parts@[0] == plan.authorization_url@.len(),
            parts@[1] == plan.client_id@.len(),
            parts@[2] == redirect_uri@.len(),
            parts@[3] == plan.scope@.len(),
            parts@[4] == state_len,
            total <= 0x0800_0000,
            total == (if i > 0 { parts@[0] as int } else { 0 }) + (if i > 1 { parts@[1] as int } else { 0 })
                + (if i > 2 { parts@[2] as int } else { 0 }) + (if i > 3 { parts@[3] as int } else { 0 }) + (if i > 4 { parts@[4] as int } else { 0 }),
        decreases 5 - i,
    {
        if parts[i] > 0x0800_0000 - total {
            return false;
        }
        total = total + parts[i];
        i = i + 1;
    }
    true
}

/// The authorization URL for a given `state` parameter.
pub fn authorization_url(plan: &AuthorizationPlan, redirect_uri: &str, state: &str) -> (r: Result<
    String,
    String,
>)
    requires
        plan_fits(*plan, redirect_uri@, state@.len()),
    ensures
        (match r {
            Ok(u) => Ok(u@),
            Err(e) => Err(e@),
        }) == authorization_url_spec(
            plan.authorization_url@,
            plan.client_id@,
            redirect_uri@,
            state@,
            plan.scope@,
        ),
{
    let mut pairs: Vec<(String, String)> = Vec::new();
    pairs.push(pair("client_id", plan.client_id.as_str()));
    pairs.push(pair("response_type", "code"));
    pairs.push(pair("redirect_uri", redirect_uri));
    pairs.push(pair("state", state));
    pairs.push(pair("scope", plan.scope.as_str()));
    pairs.push(pair("access_type", "offline"));
    pairs.push(pair("prompt", "consent"));
    let ghost expected = authorization_pairs(plan.client_id@, redirect_uri@, state@, plan.scope@);
    proof {
        reveal_strlit("client_id");
        reveal_strlit("response_type");
        reveal_strlit("code");
        reveal_strlit("redirect_uri");
        reveal_strlit("state");
        reveal_strlit("scope");
        reveal_strlit("access_type");
        reveal_strlit("offline");
        reveal_strlit("prompt");
        reveal_strlit("consent");
        assert(pair_views(pairs@) =~= expected);
        reveal_with_fuel(pairs_len, 8);
        assert(pairs_len(expected) == plan.client_id@.len() + redirect_uri@.len() + state@.len()
            + plan.scope@.len() + 9 + 13 + 4 + 12 + 5 + 5 + 11 + 7 + 6 + 7);
    }
    match parse_with_params(plan.authorization_url.as_str(), &pairs) {
        Ok(u) => Ok(u),
        Err(e) => {
            let mut m = to_owned_string("Invalid authorization URL: ");
            push_str(&mut m, e.as_str());
            Err(m)
        },
    }
}

/// Starts an authorization with the `state` parameter the caller drew:
/// records that the state belongs to `server_id` among the pending flows,
/// and builds the URL the user opens. The state is recorded even when the
/// URL cannot be built.
pub fn begin_authorization(
    plan: &AuthorizationPlan,
    redirect_uri: &str,
    state: String,
    server_id: String,
    pending: &mut StringMap<String>,
) -> (r: Result<String, String>)
    requires
        old(pending).wf(),
        plan_fits(*plan, redirect_uri@, state@.len()),
    ensures
        final(pending).wf(),
        final(pending).view_map() == old(pending).view_map().insert(state@, server_id),
        (match r {
            Ok(u) => Ok(u@),
            Err(e) => Err(e@),
        }) == authorization_url_spec(
            plan.authorization_url@,
            plan.client_id@,
            redirect_uri@,
            state@,
            plan.scope@,
        ),
{
    let url = authorization_url(plan, redirect_uri, state.as_str());
    pending.insert(state, server_id);
    url
}

/// What `url::Url::parse(base)` and then `join(path)` give: the joined URL's
/// text, or which step failed (`true` for the parse of `base`, `false` for
/// the join) with the error's text.
pub uninterp spec fn url_join(base: Seq<char>, path: Seq<char>) -> Result<Seq<char>, (bool, Seq<char>)>;

/// Calls `url::Url::parse(base)` and `Url::join(path)`; the URL and the
/// errors are turned into text. `url` indexes a URL with `u32`; the bounds
/// keep the inputs far below that.
#[verifier::external_body]
fn join_url(base: &str, path: &str) -> (r: Result<String, (bool, String)>)
    requires
        url_fits(base@, Seq::empty()),
        path@.len() <= 0x1000,
    ensures
        (match r {
            Ok(u) => Ok(u@),
            Err((p, e)) => Err((p, e@)),
        }) == url_join(base@, path@),
{
    match url::Url::parse(base) {
        Err(e) => Err((true, e.to_string())),
        Ok(u) => match u.join(path) {
            Ok(j) => Ok(j.to_string()),
            Err(e) => Err((false, e.to_string())),
        },
    }
}

/// Where the OAuth discovery document of an MCP server is: its
/// `/.well-known/oauth-authorization-server`, joined to the server URL as
/// an absolute path; `Invalid server URL: ..` when the server URL does not
/// parse, `Failed to construct well-known URL: ..` when the join fails.
pub fn well_known_url(server_url: &str) -> (r: Result<String, String>)
    requires
        url_fits(server_url@, Seq::empty()),
    ensures
        match url_join(server_url@, "/.well-known/oauth-authorization-server"@) {
            Ok(u) => r matches Ok(s) && s@ == u,
            Err((true, e)) => r matches Err(s) && s@ == "Invalid server URL: "@ + e,
            Err((false, e)) => r matches Err(s) && s@ == "Failed to construct well-known URL: "@ + e,
        },
{
    proof {
        reveal_strlit("/.well-known/oauth-authorization-server");
    }
    match join_url(server_url, "/.well-known/oauth-authorization-server") {
        Ok(u) => Ok(u),
        Err((true, e)) => Err(prefixed("Invalid server URL: ", e.as_str())),
        Err((false, e)) => Err(prefixed("Failed to construct well-known URL: ", e.as_str())),
    }
}

/// What the loopback callback gives: the code to exchange, or the error to
/// report. A callback whose `state` is not the one sent is refused.
pub fn callback_code(expected_state: &str, received: Result<(String, String), String>) -> (r: Result<
    String,
    String,
>)
    ensures
        (match received {
            Err(e) => r == Err::<String, String>(e),
            Ok((code, state)) => if state@ == expected_state@ {
                r == Ok::<String, String>(code)
            } else {
                r matches Err(x) && x@ == "State parameter mismatch"@
            },
        }),
{
    match received {
        Err(e) => Err(e),
        Ok((code, state)) => {
            if str_equals(state.as_str(), expected_state) {
                Ok(code)
            } else {
                Err(to_owned_string("State parameter mismatch"))
            }
        },
    }
}

/// The redirect URI of the flow whose callback a loopback server on `port`
/// receives.
pub fn loopback_redirect_uri(port: u16) -> (r: String)
    ensures
        r@ == "http://127.0.0.1:"@ + decimal(port as nat) + "/callback"@,
{
    let mut s = to_owned_string("http://127.0.0.1:");
    push_decimal(&mut s, port as u64);
    push_str(&mut s, "/callback");
    s
}

/// The redirect URI of the flow completed through a `noema://` deep link.
pub open spec fn deep_link_redirect_uri() -> Seq<char> {
    "noema://oauth/callback"@
}

pub fn deep_link_redirect() -> (r: &'static str)
    ensures
        r@ == deep_link_redirect_uri(),
{
    "noema://oauth/callback"
}

/// The form fields of the code exchange; the secret only when there is one.
pub open spec fn token_params_spec(
    code: Seq<char>,
    redirect_uri: Seq<char>,
    client_id: Seq<char>,
    client_secret: Option<Seq<char>>,
) -> Seq<(Seq<char>, Seq<char>)> {
    let base = seq![
        ("grant_type"@, "authorization_code"@),
        ("code"@, code),
        ("redirect_uri"@, redirect_uri),
        ("client_id"@, client_id),
    ];
    match client_secret {
        Some(s) => base.push(("client_secret"@, s)),
        None => base,
    }
}

pub fn token_request_params(
    code: &str,
    redirect_uri: &str,
    client_id: &str,
    client_secret: &Option<String>,
) -> (r: Vec<(String, String)>)
    ensures
        pair_views(r@) == token_params_spec(code@, redirect_uri@, client_id@, opt_view(*client_secret)),
{
    let mut v: Vec<(String, String)> = Vec::new();
    v.push(pair("grant_type", "authorization_code"));
    v.push(pair("code", code));
    v.push(pair("redirect_uri", redirect_uri));
    v.push(pair("client_id", client_id));
    match client_secret {
        Some(s) => {
            v.push(pair("client_secret", s.as_str()));
        },
        None => {},
    }
    assert(pair_views(v@) =~= token_params_spec(code@, redirect_uri@, client_id@, opt_view(*client_secret)));
    v
}

/// The reply to a request whose answer is a JSON document.
pub enum JsonReply<T> {
    /// The request could not be sent; the transport's error.
    SendFailed(String),
    /// A status other than success; the body's text.
    Rejected(String),
    /// The body was not JSON; the parser's error.
    Unparsable(String),
    /// The fields read from the body.
    Parsed(T),
}

/// The fields of a token response (a field that is missing or of another
/// JSON type is `None`).
pub struct TokenFields {
    pub access_token: Option<String>,
    pub refresh_token: Option<String>,
    pub expires_in: Option<i64>,
}

/// The tokens a successful exchange grants.
pub struct TokenGrant {
    pub access_token: String,
    pub refresh_token: Option<String>,
    pub expires_in: Option<i64>,
}

/// Which flow exchanged the code: the loopback-server flow reports a failed
/// send as `Token exchange request failed`, the deep-link flow as
/// `Token exchange failed`.
#[derive(PartialEq, Eq, Structural, Clone, Copy, Debug)]
pub enum ExchangeFlow {
    Loopback,
    DeepLink,
}

/// The outcome of a code exchange.
pub open spec fn exchange_spec(flow: ExchangeFlow, reply: JsonReply<TokenFields>) -> Result<
    (Seq<char>, Option<Seq<char>>, Option<i64>),
    Seq<char>,
> {
    match reply {
        JsonReply::SendFailed(e) => Err(
            (if flow == ExchangeFlow::Loopback {
                "Token exchange request failed: "@
            } else {
                "Token exchange failed: "@
            }) + e@,
        ),
        JsonReply::Rejected(t) => Err("Token exchange failed: "@ + t@),
        JsonReply::Unparsable(e) => Err("Failed to parse token response: "@ + e@),
        JsonReply::Parsed(f) => match f.access_token {
            None => Err("No access_token in response"@),
            Some(a) => Ok((a@, opt_view(f.refresh_token), f.expires_in)),
        },
    }
}

fn prefixed(prefix: &str, detail: &str) -> (r: String)
    ensures
        r@ == prefix@ + detail@,
{
    let mut m = to_owned_string(prefix);
    push_str(&mut m, detail);
    m
}

pub fn exchange_result(flow: ExchangeFlow, reply: JsonReply<TokenFields>) -> (r: Result<TokenGrant, String>)
    ensures
        (match r {
            Ok(g) => Ok((g.access_token@, opt_view(g.refresh_token), g.expires_in)),
            Err(e) => Err(e@),
        }) == exchange_spec(flow, reply),
{
    match reply {
        JsonReply::SendFailed(e) => {
            if flow == ExchangeFlow::Loopback {
                Err(prefixed("Token exchange request failed: ", e.as_str()))
            } else {
                Err(prefixed("Token exchange failed: ", e.as_str()))
            }
        },
        JsonReply::Rejected(t) => Err(prefixed("Token exchange failed: ", t.as_str())),
        JsonReply::Unparsable(e) => Err(prefixed("Failed to parse token response: ", e.as_str())),
        JsonReply::Parsed(f) => match f.access_token {
            None => Err(to_owned_string("No access_token in response")),
            Some(a) => Ok(
                TokenGrant { access_token: a, refresh_token: f.refresh_token, expires_in: f.expires_in },
            ),
        },
    }
}

/// When the tokens expire, in seconds since the epoch: `now` plus their
/// lifetime, when the provider gave one.
pub fn expires_at(now: i64, expires_in: Option<i64>) -> (r: Option<i64>)
    requires
        expires_in matches Some(s) ==> i64::MIN <= now + s <= i64::MAX,
    ensures
        r == (match expires_in {
            Some(s) => Some((now + s) as i64),
            None => None,
        }),
{
    match expires_in {
        Some(s) => Some(now + s),
        None => None,
    }
}

/// The stored OAuth settings after a grant, given the settings before it:
/// `client_id`, `client_secret` and `authorization_url` are kept, the
/// tokens replaced.
pub open spec fn granted_auth(
    before: AuthMethod,
    after: AuthMethod,
    token_url: Option<String>,
    scopes: Seq<String>,
    grant: TokenGrant,
    expires_at: Option<i64>,
) -> bool {
    &&& before matches AuthMethod::OAuth { client_id, client_secret, authorization_url, .. }
    &&& after matches AuthMethod::OAuth {
        client_id: c2,
        client_secret: s2,
        authorization_url: a2,
        token_url: t2,
        scopes: sc2,
        access_token,
        refresh_token,
        expires_at: e2,
    }
    &&& c2 == client_id && s2 == client_secret && a2 == authorization_url
    &&& t2 == token_url && sc2@ == scopes
    &&& access_token == Some(grant.access_token)
    &&& refresh_token == grant.refresh_token
    &&& e2 == expires_at
}

/// The server configuration stored after a grant: name, URL, discovery and
/// the auto-connect and auto-retry flags are kept; no separate token.
pub open spec fn granted_config(
    before: ServerConfig,
    after: ServerConfig,
    token_url: Option<String>,
    scopes: Seq<String>,
    grant: TokenGrant,
    expires_at: Option<i64>,
) -> bool {
    &&& after.name == before.name
    &&& after.url == before.url
    &&& after.use_well_known == before.use_well_known
    &&& after.auth_token is None
    &&& after.auto_connect == before.auto_connect
    &&& after.auto_retry == before.auto_retry
    &&& granted_auth(before.auth, after.auth, token_url, scopes, grant, expires_at)
}

fn config_with_auth(config: &ServerConfig, auth: AuthMethod) -> (r: ServerConfig)
    ensures
        r.name == config.name,
        r.url == config.url,
        r.use_well_known == config.use_well_known,
        r.auth_token is None,
        r.auto_connect == config.auto_connect,
        r.auto_retry == config.auto_retry,
        r.auth == auth,
{
    ServerConfig {
        name: config.name.clone(),
        url: config.url.clone(),
        auth,
        use_well_known: config.use_well_known,
        auth_token: None,
        auto_connect: config.auto_connect,
        auto_retry: config.auto_retry,
    }
}

/// The configuration saved after the loopback flow: the token endpoint is
/// kept as configured and the scopes are those the flow asked for;
/// `Server is not configured for OAuth` for a server using another method.
pub fn loopback_grant_config(
    config: &ServerConfig,
    grant: TokenGrant,
    expires_at: Option<i64>,
    scopes: &Vec<String>,
) -> (r: Result<ServerConfig, String>)
    ensures
        !(config.auth is OAuth) ==> (r matches Err(e) && e@ == "Server is not configured for OAuth"@),
        config.auth matches AuthMethod::OAuth { token_url, .. } ==> (r matches Ok(c) && granted_config(
            *config,
            c,
            token_url,
            scopes@,
            grant,
            expires_at,
        )),
{
    match &config.auth {
        AuthMethod::OAuth { client_id, client_secret, authorization_url, token_url, .. } => {
            let auth = AuthMethod::OAuth {
                client_id: client_id.clone(),
                client_secret: clone_opt_string(client_secret),
                authorization_url: clone_opt_string(authorization_url),
                token_url: clone_opt_string(token_url),
                scopes: clone_strings(scopes),
                access_token: Some(grant.access_token),
                refresh_token: grant.refresh_token,
                expires_at,
            };
            Ok(config_with_auth(config, auth))
        },
        _ => Err(to_owned_string("Server is not configured for OAuth")),
    }
}

/// The configuration saved after a code exchange completed through the
/// deep link: the token endpoint used is recorded and the scopes kept;
/// `Server is not configured for OAuth` for a server using another method.
pub fn exchanged_grant_config(
    config: &ServerConfig,
    token_url: String,
    grant: TokenGrant,
    expires_at: Option<i64>,
) -> (r: Result<ServerConfig, String>)
    ensures
        !(config.auth is OAuth) ==> (r matches Err(e) && e@ == "Server is not configured for OAuth"@),
        config.auth matches AuthMethod::OAuth { scopes, .. } ==> (r matches Ok(c) && granted_config(
            *config,
            c,
            Some(token_url),
            scopes@,
            grant,
            expires_at,
        )),
{
    match &config.auth {
        AuthMethod::OAuth { client_id, client_secret, authorization_url, scopes, .. } => {
            let auth = AuthMethod::OAuth {
                client_id: client_id.clone(),
                client_secret: clone_opt_string(client_secret),
                authorization_url: clone_opt_string(authorization_url),
                token_url: Some(token_url),
                scopes: clone_strings(scopes),
                access_token: Some(grant.access_token),
                refresh_token: grant.refresh_token,
                expires_at,
            };
            Ok(config_with_auth(config, auth))
        },
        _ => Err(to_owned_string("Server is not configured for OAuth")),
    }
}

/// A deep link the app was opened with (`noema://oauth/callback?..`), with
/// its query decoded into pairs.
pub struct DeepLink {
    pub scheme: String,
    pub host: Option<String>,
    pub path: String,
    pub query: Vec<(String, String)>,
}

/// The value of the first query pair named `key`.
pub open spec fn query_value(query: Seq<(Seq<char>, Seq<char>)>, key: Seq<char>) -> Option<Seq<char>>
    decreases query.len(),
{
    if query.len() == 0 {
        None
    } else if query[0].0 == key {
        Some(query[0].1)
    } else {
        query_value(query.drop_first(), key)
    }
}

fn find_query_value(query: &Vec<(String, String)>, key: &str) -> (r: Option<String>)
    ensures
        opt_view(r) == query_value(pair_views(query@), key@),
{
    let ghost pv = pair_views(query@);
    let mut i: usize = 0;
    proof {
        assert(pv.skip(0) =~= pv);
    }
    while i < query.len()
        invariant
            pv == pair_views(query@),
            i <= query@.len(),
            query_value(pv.skip(i as int), key@) == query_value(pv, key@),
        decreases query@.len() - i,
    {
        proof {
            assert(pv.skip(i as int)[0] == (query@[i as int].0@, query@[i as int].1@));
            assert(pv.skip(i as int).drop_first() =~= pv.skip(i + 1));
        }
        if str_equals(query[i].0.as_str(), key) {
            return Some(query[i].1.clone());
        }
        i = i + 1;
    }
    proof {
        assert(pv.skip(i as int) =~= Seq::<(Seq<char>, Seq<char>)>::empty());
    }
    None
}

/// Whether a deep link is the OAuth callback: scheme `noema`, host `oauth`,
/// path `/callback`.
pub open spec fn is_oauth_callback(link: DeepLink) -> bool {
    &&& link.scheme@ == "noema"@
    &&& link.host matches Some(h) && h@ == "oauth"@
    &&& link.path@ == "/callback"@
}

/// What a deep link leads to.
pub enum DeepLinkOutcome {
    /// Not an OAuth callback.
    Ignored,
    /// A callback without a code or a state; logged, nothing reported.
    Incomplete { has_code: bool, has_state: bool },
    /// A state no pending flow sent; the error to report.
    UnknownState(String),
    /// The flow of `server_id` can exchange `code`.
    Complete { server_id: String, code: String },
}

/// A deep-link outcome with its texts as characters.
pub ghost enum DeepLinkView {
    Ignored,
    Incomplete { has_code: bool, has_state: bool },
    UnknownState(Seq<char>),
    Complete { server_id: String, code: Seq<char> },
}

impl DeepLinkOutcome {
    pub open spec fn view_outcome(self) -> DeepLinkView {
        match self {
            DeepLinkOutcome::Ignored => DeepLinkView::Ignored,
            DeepLinkOutcome::Incomplete { has_code, has_state } => DeepLinkView::Incomplete {
                has_code,
                has_state,
            },
            DeepLinkOutcome::UnknownState(e) => DeepLinkView::UnknownState(e@),
            DeepLinkOutcome::Complete { server_id, code } => DeepLinkView::Complete {
                server_id,
                code: code@,
            },
        }
    }
}

/// The outcome of a deep link, and the pending flows after it: the flow
/// its state names is taken out of the pending ones.
pub open spec fn deep_link_spec(link: DeepLink, pending: Map<Seq<char>, String>) -> (
    DeepLinkView,
    Map<Seq<char>, String>,
) {
    if !is_oauth_callback(link) {
        (DeepLinkView::Ignored, pending)
    } else {
        let q = pair_views(link.query@);
        match (query_value(q, "code"@), query_value(q, "state"@)) {
            (Some(code), Some(state)) => if pending.dom().contains(state) {
                (DeepLinkView::Complete { server_id: pending[state], code }, pending.remove(state))
            } else {
                (
                    DeepLinkView::UnknownState("No pending OAuth flow found for state: "@ + state),
                    pending,
                )
            },
            (c, s) => (DeepLinkView::Incomplete { has_code: c is Some, has_state: s is Some }, pending),
        }
    }
}

/// Handles a deep link against the pending OAuth flows.
pub fn handle_oauth_deep_link(link: &DeepLink, pending: &mut StringMap<String>) -> (r: DeepLinkOutcome)
    requires
        old(pending).wf(),
    ensures
        final(pending).wf(),
        r.view_outcome() == deep_link_spec(*link, old(pending).view_map()).0,
        final(pending).view_map() == deep_link_spec(*link, old(pending).view_map()).1,
{
    proof {
        reveal_strlit("noema");
        reveal_strlit("oauth");
        reveal_strlit("/callback");
    }
    let host_ok = match &link.host {
        Some(h) => str_equals(h.as_str(), "oauth"),
        None => false,
    };
    if !(str_equals(link.scheme.as_str(), "noema") && host_ok && str_equals(link.path.as_str(), "/callback")) {
        return DeepLinkOutcome::Ignored;
    }
    let code = find_query_value(&link.query, "code");
    let state = find_query_value(&link.query, "state");
    match (code, state) {
        (Some(code), Some(state)) => match pending.remove(&state) {
            Some(server_id) => DeepLinkOutcome::Complete { server_id, code },
            None => DeepLinkOutcome::UnknownState(
                prefixed("No pending OAuth flow found for state: ", state.as_str()),
            ),
        },
        (c, s) => DeepLinkOutcome::Incomplete { has_code: c.is_some(), has_state: s.is_some() },
    }
}

/// A `state` parameter recorded for a server's authorization is redeemed
/// exactly once: the callback that carries it (with a code) completes the
/// flow of that server and removes the record, leaving the other pending
/// flows as they were, and the same callback arriving again is refused as
/// an unknown state.
pub proof fn lemma_state_redeemed_once(
    link: DeepLink,
    pending: Map<Seq<char>, String>,
    state: Seq<char>,
    server_id: String,
)
    requires
        is_oauth_callback(link),
        query_value(pair_views(link.query@), "state"@) == Some(state),
        query_value(pair_views(link.query@), "code"@) is Some,
    ensures
        ({
            let first = deep_link_spec(link, pending.insert(state, server_id));
            let second = deep_link_spec(link, first.1);
            &&& first.0 == DeepLinkView::Complete {
                server_id,
                code: query_value(pair_views(link.query@), "code"@)->0,
            }
            &&& first.1 == pending.remove(state)
            &&& second.0 is UnknownState
            &&& second.1 == first.1
        }),
{
    assert(pending.insert(state, server_id).remove(state) =~= pending.remove(state));
}

/// A configured endpoint is used whatever the `.well-known` document says;
/// without one, the endpoint the document names is used.
pub proof fn lemma_configured_endpoints_win(client: OAuthClient, well_known: Option<WellKnownEndpoints>)
    ensures
        client.authorization_url matches Some(u) ==> authorization_endpoint_spec(client, well_known) == Ok::<
            Seq<char>,
            Seq<char>,
        >(u@),
        client.token_url matches Some(u) ==> token_endpoint_spec(client, well_known) == Ok::<Seq<char>, Seq<char>>(
            u@,
        ),
        client.authorization_url is None ==> (well_known matches Some(w) ==> (w.authorization_endpoint matches Some(
            u,
        ) ==> authorization_endpoint_spec(client, well_known) == Ok::<Seq<char>, Seq<char>>(u@))),
        client.token_url is None ==> (well_known matches Some(w) ==> (w.token_endpoint matches Some(u)
            ==> token_endpoint_spec(client, well_known) == Ok::<Seq<char>, Seq<char>>(u@))),
{
}

/// A token reply that names an access token grants exactly the tokens it
/// holds: its access token, its refresh token (kept, so the saved
/// configuration can refresh) and its lifetime, whichever flow exchanged the
/// code.
pub proof fn lemma_grant_keeps_reply_tokens(flow: ExchangeFlow, f: TokenFields)
    requires
        f.access_token is Some,
    ensures
        exchange_spec(flow, JsonReply::Parsed(f)) matches Ok((a, rt, e)) && a == f.access_token->0@ && rt
            == opt_view(f.refresh_token) && e == f.expires_in,
{
}

} // verus!
