use noema::mcp::{
    auth_type_name, check_retry_start, detected_auth, manually_stopped, new_server_config, requested_auth,
    retry_action_after_settings, server_tool_infos, status_text, with_settings, AddMcpServerRequest, AuthChoice,
    AuthMethod, McpServerInfo, RetryAction, ServerConfig, ServerStatus,
};
use noema::oauth::{
    authorization_fits, authorization_plan, authorization_url, begin_authorization, callback_code, deep_link_redirect,
    exchange_needs_discovery, exchange_result, exchanged_grant_config, expires_at, handle_oauth_deep_link,
    loopback_grant_config, needs_registration, oauth_client, scope_param, token_endpoint, token_request_params, well_known_url,
    AuthorizationPlan, DeepLink, DeepLinkOutcome, ExchangeFlow, JsonReply, OAuthClient, TokenFields, TokenGrant,
    WellKnownEndpoints,
};
use noema::strmap::StringMap;

fn s(x: &str) -> String {
    x.to_string()
}

fn oauth(client_id: &str, auth: Option<&str>, token: Option<&str>, scopes: &[&str]) -> AuthMethod {
    AuthMethod::OAuth {
        client_id: s(client_id),
        client_secret: Some(s("secret")),
        authorization_url: auth.map(s),
        token_url: token.map(s),
        scopes: scopes.iter().map(|x| s(x)).collect(),
        access_token: None,
        refresh_token: None,
        expires_at: None,
    }
}

fn config(auth: AuthMethod, use_well_known: bool) -> ServerConfig {
    ServerConfig {
        name: s("Docs"),
        url: s("https://mcp.example.com"),
        auth,
        use_well_known,
        auth_token: Some(s("old")),
        auto_connect: true,
        auto_retry: false,
    }
}

fn request(auth_type: &str) -> AddMcpServerRequest {
    AddMcpServerRequest {
        id: s("docs"),
        name: s("Docs"),
        url: s("https://mcp.example.com"),
        auth_type: s(auth_type),
        token: None,
        client_id: None,
        client_secret: None,
        scopes: None,
        use_well_known: None,
    }
}

#[test]
fn status_texts() {
    assert_eq!(status_text(&ServerStatus::Disconnected), "disconnected");
    assert_eq!(status_text(&ServerStatus::Connected), "connected");
    assert_eq!(status_text(&ServerStatus::Retrying { attempt: 12 }), "retrying:12");
    assert_eq!(status_text(&ServerStatus::RetryStopped { last_error: s("refused") }), "stopped:refused");
    match manually_stopped() {
        ServerStatus::RetryStopped { last_error } => assert_eq!(last_error, "Manually stopped"),
        _ => panic!("expected a stopped status"),
    }
}

#[test]
fn server_listing_entry() {
    let c = config(oauth("id", None, None, &[]), true);
    let info = McpServerInfo::from_config("docs", &c, true, 4, &ServerStatus::Retrying { attempt: 3 }, true);
    assert_eq!(info.id, "docs");
    assert_eq!(info.name, "Docs");
    assert_eq!(info.auth_type, "oauth");
    assert_eq!(info.status, "retrying:3");
    assert_eq!(info.tool_count, 4);
    assert!(info.is_connected && info.needs_oauth_login && info.auto_connect && !info.auto_retry);
    assert_eq!(auth_type_name(&AuthMethod::NoAuth), "none");
    assert_eq!(auth_type_name(&AuthMethod::Token { token: s("t") }), "token");
}

#[test]
fn tool_listing_needs_a_connection() {
    assert_eq!(server_tool_infos("docs", None).err(), Some(s("Server not connected")));
    let tools = vec![(s("search"), Some(s("Find things"))), (s("read"), None)];
    let infos = server_tool_infos("docs", Some(&tools)).ok().unwrap();
    assert_eq!(infos.len(), 2);
    assert_eq!(infos[0].name, "search");
    assert_eq!(infos[0].description.as_deref(), Some("Find things"));
    assert_eq!(infos[1].server_id, "docs");
}

#[test]
fn token_auth_requires_a_token() {
    match requested_auth(&request("token")) {
        AuthChoice::Decided(Err(e)) => assert_eq!(e, "Token required for token auth"),
        _ => panic!("a token request without a token is refused"),
    }
    let mut r = request("token");
    r.token = Some(s("abc"));
    match requested_auth(&r) {
        AuthChoice::Decided(Ok(AuthMethod::Token { token })) => assert_eq!(token, "abc"),
        _ => panic!("expected token auth"),
    }
}

#[test]
fn oauth_request_defaults() {
    match requested_auth(&request("oauth")) {
        AuthChoice::Decided(Ok(AuthMethod::OAuth { client_id, scopes, access_token, .. })) => {
            assert_eq!(client_id, "noema");
            assert!(scopes.is_empty());
            assert!(access_token.is_none());
        }
        _ => panic!("expected oauth"),
    }
    assert!(matches!(requested_auth(&request("none")), AuthChoice::Decided(Ok(AuthMethod::NoAuth))));
    assert!(matches!(requested_auth(&request("auto")), AuthChoice::Detect));
    assert!(matches!(requested_auth(&request("")), AuthChoice::Detect));
    assert!(matches!(detected_auth(false), AuthMethod::NoAuth));
    match detected_auth(true) {
        AuthMethod::OAuth { client_id, .. } => assert_eq!(client_id, "noema"),
        _ => panic!("expected oauth"),
    }
}

#[test]
fn new_servers_discover_exactly_for_oauth() {
    let c = new_server_config(s("A"), s("https://a"), detected_auth(true));
    assert!(c.use_well_known && c.auto_connect && c.auto_retry && c.auth_token.is_none());
    let c = new_server_config(s("A"), s("https://a"), AuthMethod::NoAuth);
    assert!(!c.use_well_known);
}

#[test]
fn retry_rules() {
    assert_eq!(check_retry_start(true, true, true).err(), Some(s("Server is already connected")));
    assert_eq!(check_retry_start(false, true, true).err(), Some(s("Retry is already in progress")));
    assert_eq!(check_retry_start(false, false, false).err(), Some(s("Server not found")));
    assert!(check_retry_start(false, false, true).is_ok());
    assert_eq!(retry_action_after_settings(false, false, false), RetryAction::Cancel);
    assert_eq!(retry_action_after_settings(true, false, false), RetryAction::Start);
    assert_eq!(retry_action_after_settings(true, true, false), RetryAction::Keep);
    let c = with_settings(config(AuthMethod::NoAuth, false), false, true);
    assert!(!c.auto_connect && c.auto_retry);
    assert_eq!(c.auth_token.as_deref(), Some("old"));
}

#[test]
fn oauth_client_errors() {
    assert_eq!(oauth_client(None).err(), Some(s("Server not found")));
    let c = config(AuthMethod::NoAuth, false);
    assert_eq!(oauth_client(Some(&c)).err(), Some(s("Server is not configured for OAuth")));
    let c = config(oauth("cid", Some("https://auth"), None, &["a"]), true);
    let client = oauth_client(Some(&c)).ok().unwrap();
    assert_eq!(client.client_id, "cid");
    assert!(exchange_needs_discovery(&client));
}

fn client(client_id: &str, auth: Option<&str>, token: Option<&str>, scopes: &[&str]) -> OAuthClient {
    OAuthClient {
        client_id: s(client_id),
        client_secret: None,
        authorization_url: auth.map(s),
        token_url: token.map(s),
        scopes: scopes.iter().map(|x| s(x)).collect(),
        use_well_known: true,
        server_url: s("https://mcp.example.com"),
    }
}

#[test]
fn endpoints_come_from_settings_then_discovery() {
    let wk = WellKnownEndpoints { authorization_endpoint: Some(s("https://wk/auth")), token_endpoint: None };
    let c = client("cid", None, None, &[]);
    assert_eq!(token_endpoint(&c, Some(&wk)).err(), Some(s("No token_endpoint in well-known config")));
    assert_eq!(token_endpoint(&c, None).err(), Some(s("OAuth requires token_url or use_well_known")));
    let c = client("cid", None, Some("https://cfg/token"), &[]);
    assert_eq!(token_endpoint(&c, Some(&wk)).ok(), Some(s("https://cfg/token")));
    let e = authorization_plan(&client("cid", None, None, &[]), None).err();
    assert_eq!(e, Some(s("OAuth requires authorization_url or use_well_known")));
    let wk2 = WellKnownEndpoints { authorization_endpoint: None, token_endpoint: Some(s("https://wk/token")) };
    let e = authorization_plan(&client("cid", None, None, &[]), Some(&wk2)).err();
    assert_eq!(e, Some(s("No authorization_endpoint in well-known config")));
}

#[test]
fn default_client_ids_need_registration() {
    assert!(needs_registration("noema"));
    assert!(needs_registration(""));
    assert!(!needs_registration("123.apps.googleusercontent.com"));
    let wk = WellKnownEndpoints {
        authorization_endpoint: Some(s("https://wk/auth")),
        token_endpoint: Some(s("https://wk/token")),
    };
    let e = authorization_plan(&client("noema", None, None, &[]), Some(&wk)).err();
    assert_eq!(e, Some(s("Please configure your Google OAuth Client ID in the Google Docs settings first.")));
    let plan = authorization_plan(&client("cid", None, None, &["a", "b"]), Some(&wk)).ok().unwrap();
    assert_eq!(plan.authorization_url, "https://wk/auth");
    assert_eq!(plan.token_url, "https://wk/token");
    assert_eq!(plan.scope, "a b");
}

#[test]
fn scope_defaults_to_openid() {
    assert_eq!(scope_param(&vec![]), "openid");
    assert_eq!(scope_param(&vec![s("docs"), s("drive")]), "docs drive");
}

fn plan(url: &str) -> AuthorizationPlan {
    AuthorizationPlan {
        authorization_url: s(url),
        token_url: s("https://oauth2.googleapis.com/token"),
        client_id: s("abc"),
        client_secret: None,
        scope: s("openid email"),
    }
}

#[test]
fn authorization_url_appends_the_request() {
    let u = authorization_url(&plan("https://accounts.google.com/o/oauth2/auth"), "http://127.0.0.1:4000/callback", "xyz");
    assert_eq!(
        u.ok().unwrap(),
        "https://accounts.google.com/o/oauth2/auth?client_id=abc&response_type=code&redirect_uri=http%3A%2F%2F127.0.0.1%3A4000%2Fcallback&state=xyz&scope=openid+email&access_type=offline&prompt=consent"
    );
    let u = authorization_url(&plan("https://example.com/auth?x=1"), "r", "s");
    assert_eq!(
        u.ok().unwrap(),
        "https://example.com/auth?x=1&client_id=abc&response_type=code&redirect_uri=r&state=s&scope=openid+email&access_type=offline&prompt=consent"
    );
    let e = authorization_url(&plan("not a url"), "r", "s").err().unwrap();
    assert_eq!(e, "Invalid authorization URL: relative URL without a base");
}

#[test]
fn authorization_request_size_bound() {
    let p = plan("https://a.example/auth");
    assert!(authorization_fits(&p, "http://127.0.0.1:1/callback", 36));
    assert!(!authorization_fits(&p, "r", 0x0800_0000));
    assert!(!authorization_fits(&p, "r", usize::MAX));
}

#[test]
fn begin_records_the_state() {
    let mut pending: StringMap<String> = StringMap::new();
    let state = s("0f6c1a2e-93b4-4c2d-a1b2-3c4d5e6f7a8b");
    let url = begin_authorization(
        &plan("https://a.example/auth"),
        "http://127.0.0.1:1/callback",
        state.clone(),
        s("docs"),
        &mut pending,
    );
    assert_eq!(pending.get(&state), Some(&s("docs")));
    assert!(url.ok().unwrap().contains(&format!("state={}", state)));
    let bad = begin_authorization(&plan("not a url"), "r", s("st"), s("other"), &mut pending);
    assert!(bad.is_err());
    assert_eq!(pending.get(&s("st")), Some(&s("other")));
    assert_eq!(pending.len(), 2);
}

#[test]
fn well_known_address() {
    assert_eq!(
        well_known_url("https://mcp.example.com/v1/mcp?x=1").ok(),
        Some(s("https://mcp.example.com/.well-known/oauth-authorization-server"))
    );
    assert_eq!(
        well_known_url("not a url").err(),
        Some(s("Invalid server URL: relative URL without a base"))
    );
    assert!(well_known_url("mailto:a@b.c").err().unwrap().starts_with("Failed to construct well-known URL: "));
}

#[test]
fn callback_state_must_match() {
    assert_eq!(callback_code("st", Ok((s("c"), s("st")))).ok(), Some(s("c")));
    assert_eq!(callback_code("st", Ok((s("c"), s("other")))).err(), Some(s("State parameter mismatch")));
    assert_eq!(callback_code("st", Err(s("Callback cancelled"))).err(), Some(s("Callback cancelled")));
}

#[test]
fn token_request_fields() {
    let p = token_request_params("code1", deep_link_redirect(), "cid", &Some(s("sec")));
    let expected = vec![
        (s("grant_type"), s("authorization_code")),
        (s("code"), s("code1")),
        (s("redirect_uri"), s("noema://oauth/callback")),
        (s("client_id"), s("cid")),
        (s("client_secret"), s("sec")),
    ];
    assert_eq!(p, expected);
    assert_eq!(token_request_params("c", "r", "i", &None).len(), 4);
}

#[test]
fn exchange_outcomes() {
    let e = exchange_result(ExchangeFlow::Loopback, JsonReply::SendFailed(s("timeout"))).err();
    assert_eq!(e, Some(s("Token exchange request failed: timeout")));
    let e = exchange_result(ExchangeFlow::DeepLink, JsonReply::SendFailed(s("timeout"))).err();
    assert_eq!(e, Some(s("Token exchange failed: timeout")));
    let e = exchange_result(ExchangeFlow::DeepLink, JsonReply::Rejected(s("bad code"))).err();
    assert_eq!(e, Some(s("Token exchange failed: bad code")));
    let e = exchange_result(ExchangeFlow::Loopback, JsonReply::Unparsable(s("eof"))).err();
    assert_eq!(e, Some(s("Failed to parse token response: eof")));
    let no_token = TokenFields { access_token: None, refresh_token: Some(s("r")), expires_in: None };
    let e = exchange_result(ExchangeFlow::Loopback, JsonReply::Parsed(no_token)).err();
    assert_eq!(e, Some(s("No access_token in response")));
    let fields = TokenFields { access_token: Some(s("a")), refresh_token: None, expires_in: Some(3600) };
    let g = exchange_result(ExchangeFlow::Loopback, JsonReply::Parsed(fields)).ok().unwrap();
    assert_eq!(g.access_token, "a");
    assert_eq!(g.expires_in, Some(3600));
    assert_eq!(expires_at(1_000, Some(3600)), Some(4_600));
    assert_eq!(expires_at(1_000, None), None);
}

#[test]
fn grants_keep_the_client_settings() {
    let c = config(oauth("cid", Some("https://auth"), None, &["x"]), true);
    let grant = TokenGrant { access_token: s("tok"), refresh_token: Some(s("ref")), expires_in: Some(10) };
    let updated = exchanged_grant_config(&c, s("https://token"), grant, Some(99)).ok().unwrap();
    assert_eq!(updated.name, "Docs");
    assert!(updated.auth_token.is_none());
    match updated.auth {
        AuthMethod::OAuth { client_id, client_secret, authorization_url, token_url, scopes, access_token, refresh_token, expires_at } => {
            assert_eq!(client_id, "cid");
            assert_eq!(client_secret.as_deref(), Some("secret"));
            assert_eq!(authorization_url.as_deref(), Some("https://auth"));
            assert_eq!(token_url.as_deref(), Some("https://token"));
            assert_eq!(scopes, vec![s("x")]);
            assert_eq!(access_token.as_deref(), Some("tok"));
            assert_eq!(refresh_token.as_deref(), Some("ref"));
            assert_eq!(expires_at, Some(99));
        }
        _ => panic!("expected oauth"),
    }
    let grant = TokenGrant { access_token: s("tok"), refresh_token: None, expires_in: None };
    let updated = loopback_grant_config(&c, grant, None, &vec![s("y")]).ok().unwrap();
    match updated.auth {
        AuthMethod::OAuth { token_url, scopes, .. } => {
            assert_eq!(token_url, None);
            assert_eq!(scopes, vec![s("y")]);
        }
        _ => panic!("expected oauth"),
    }
    let plain = config(AuthMethod::NoAuth, false);
    let grant = TokenGrant { access_token: s("tok"), refresh_token: None, expires_in: None };
    let e = loopback_grant_config(&plain, grant, None, &vec![]).err();
    assert_eq!(e, Some(s("Server is not configured for OAuth")));
}

fn link(scheme: &str, host: Option<&str>, path: &str, query: &[(&str, &str)]) -> DeepLink {
    DeepLink {
        scheme: s(scheme),
        host: host.map(s),
        path: s(path),
        query: query.iter().map(|(k, v)| (s(k), s(v))).collect(),
    }
}

#[test]
fn deep_link_state_is_redeemed_once() {
    let mut pending: StringMap<String> = StringMap::new();
    pending.insert(s("st1"), s("docs"));
    pending.insert(s("st2"), s("other"));
    let l = link("noema", Some("oauth"), "/callback", &[("code", "c1"), ("state", "st1")]);
    match handle_oauth_deep_link(&l, &mut pending) {
        DeepLinkOutcome::Complete { server_id, code } => {
            assert_eq!(server_id, "docs");
            assert_eq!(code, "c1");
        }
        _ => panic!("expected completion"),
    }
    assert_eq!(pending.get(&s("st1")), None);
    assert_eq!(pending.get(&s("st2")), Some(&s("other")));
    match handle_oauth_deep_link(&l, &mut pending) {
        DeepLinkOutcome::UnknownState(e) => assert_eq!(e, "No pending OAuth flow found for state: st1"),
        _ => panic!("a replayed state is refused"),
    }
}

#[test]
fn other_deep_links() {
    let mut pending: StringMap<String> = StringMap::new();
    let l = link("noema", Some("doc"), "/callback", &[("code", "c"), ("state", "s")]);
    assert!(matches!(handle_oauth_deep_link(&l, &mut pending), DeepLinkOutcome::Ignored));
    let l = link("noema", Some("oauth"), "/callback", &[("code", "c")]);
    assert!(matches!(
        handle_oauth_deep_link(&l, &mut pending),
        DeepLinkOutcome::Incomplete { has_code: true, has_state: false }
    ));
}
