use noema::agent::{
    completion_reply, core_tool_call, core_tool_specs, enriches_tool, model_failure_text, plan_spawn, stage_failure,
    subconversation_context, subconversation_messages, ExecutionContext, SpawnAgentArgs, SpawnStage,
    SUBAGENT_MAX_ITERATIONS,
};
use noema::doctabs::{
    collect_inline_images, plan_tabs, DocsTab, ExtractResponse, ExtractedDocument, ExtractedImage, ExtractedTab,
    TabResponse,
};
use noema::gdocs::{bearer_token, image_mime_type, DriveFile, GoogleDocListItem, GoogleDocsClient, GoogleOAuthConfig};
use noema::gdocs_tools::{
    api_error, begin_tool_call, content_request, gdocs_tool_specs, image_fetch_error, invalid_arguments_text,
    list_request, mcp_endpoint_url, refusal_reply, tool_named, tool_reply, GDocsRequest, GDocsTool,
    GoogleApi, ParamType,
};
use noema::import::resolve_parents;
use noema::model::{ContentBlock, Role};
use noema::strmap::StringMap;

fn s(x: &str) -> String {
    x.to_string()
}

#[test]
fn oauth_config_status() {
    let mut c = GoogleOAuthConfig::default();
    assert!(!c.has_credentials() && !c.has_valid_token());
    assert!(c.create_client().is_none());
    c.configure(s("client"), None);
    c.store_tokens(s("tok"), Some(s("ref")), Some(5));
    let st = c.oauth_status();
    assert!(st.server_running && st.server_url.is_none() && st.credentials_configured && st.is_authenticated);
    assert_eq!(c.create_client().unwrap().authorization(), "Bearer tok");
}

#[test]
fn drive_requests() {
    let url = GoogleDocsClient::list_documents_url(Some("Bob's notes"), 500);
    assert_eq!(
        url,
        "https://www.googleapis.com/drive/v3/files?pageSize=100&fields=files(id,name,mimeType,modifiedTime,createdTime)&q=mimeType%3D%27application%2Fvnd.google-apps.document%27%20and%20fullText%20contains%20%27Bob%5C%27s%20notes%27"
    );
    let url = GoogleDocsClient::list_documents_url(None, 20);
    assert!(url.starts_with("https://www.googleapis.com/drive/v3/files?pageSize=20&"));
    assert_eq!(
        GoogleDocsClient::export_tab_url("doc1", "t.0"),
        "https://www.googleapis.com/drive/v3/files/doc1/export?mimeType=text/html&tabId=t.0"
    );
    assert_eq!(GoogleDocsClient::document_info_url("d"), "https://docs.googleapis.com/v1/documents/d");
    assert_eq!(image_mime_type(Some("image/jpeg; charset=binary")), "image/jpeg");
    assert_eq!(image_mime_type(None), "image/png");
    assert_eq!(bearer_token("Bearer abc"), "abc");
    assert_eq!(bearer_token("abc"), "abc");
}

#[test]
fn drive_file_listing() {
    let f = DriveFile {
        id: s("1"),
        name: s("Notes"),
        mime_type: s("application/vnd.google-apps.document"),
        modified_time: Some(s("2024")),
        created_time: None,
    };
    let item = GoogleDocListItem::from_drive_file(f);
    assert_eq!(item.id, "1");
    assert_eq!(item.modified_time.as_deref(), Some("2024"));
}

fn tab(id: &str, objects: &[(&str, Option<&str>)], children: Vec<DocsTab>) -> DocsTab {
    DocsTab {
        tab_id: s(id),
        title: format!("Title {}", id),
        inline_objects: objects.iter().map(|(o, u)| (s(o), u.map(s))).collect(),
        child_tabs: children,
    }
}

#[test]
fn tabs_are_planned_depth_first() {
    let tabs = vec![tab("a", &[], vec![tab("a1", &[], vec![]), tab("a2", &[], vec![])]), tab("b", &[], vec![])];
    let plan = plan_tabs(&tabs);
    let ids: Vec<&str> = plan.iter().map(|p| p.source_tab_id.as_str()).collect();
    assert_eq!(ids, vec!["a", "a1", "a2", "b"]);
    let idx: Vec<i32> = plan.iter().map(|p| p.tab_index).collect();
    assert_eq!(idx, vec![0, 1, 2, 3]);
    assert_eq!(plan[1].parent_tab_id.as_deref(), Some("a"));
    assert_eq!(plan[3].parent_tab_id, None);
}

#[test]
fn inline_images_of_all_tabs() {
    let tabs = vec![tab("a", &[("img1", Some("https://u/1")), ("drawing", None)], vec![tab("a1", &[("img2", Some("https://u/2"))], vec![])])];
    let imgs = collect_inline_images(&tabs);
    assert_eq!(imgs, vec![(s("img1"), s("https://u/1")), (s("img2"), s("https://u/2"))]);
}

#[test]
fn extracted_document_maps_images() {
    let t = ExtractedTab {
        source_tab_id: s("t"),
        title: s("T"),
        icon: None,
        content_html: s("<p/>"),
        parent_tab_id: None,
        tab_index: 0,
    };
    let mut doc = ExtractedDocument::new(s("d"), s("Doc"), vec![t]);
    doc.add_image(ExtractedImage { object_id: s("o1"), data: vec![1, 2, 3], mime_type: s("image/png") });
    doc.add_image(ExtractedImage { object_id: s("o2"), data: vec![], mime_type: s("image/gif") });
    assert_eq!(doc.image_mapping.get(&s("o2")), Some(&1));
    let resp = ExtractResponse::from_document(doc);
    assert_eq!(resp.images.len(), 2);
    assert_eq!(resp.images[0].data_base64, "AQID");
    assert_eq!(resp.tabs[0].content_html, "<p/>");
}

#[test]
fn parents_resolve_to_stored_ids() {
    let mk = |id: &str, parent: Option<&str>| ExtractedTab {
        source_tab_id: s(id),
        title: s(id),
        icon: None,
        content_html: s(""),
        parent_tab_id: parent.map(s),
        tab_index: 0,
    };
    let tabs = vec![mk("a", None), mk("b", Some("a")), mk("c", Some("missing"))];
    let mut stored: StringMap<String> = StringMap::new();
    stored.insert(s("a"), s("ID-A"));
    stored.insert(s("b"), s("ID-B"));
    stored.insert(s("c"), s("ID-C"));
    assert_eq!(resolve_parents(&tabs, &stored), vec![(s("ID-B"), s("ID-A"))]);
}

#[test]
fn tab_response_copies_the_tab() {
    let t = ExtractedTab {
        source_tab_id: s("t"),
        title: s("T"),
        icon: None,
        content_html: s("x"),
        parent_tab_id: Some(s("p")),
        tab_index: 4,
    };
    let r = TabResponse::from_tab(t);
    assert_eq!(r.tab_index, 4);
    assert_eq!(r.parent_tab_id.as_deref(), Some("p"));
}

#[test]
fn tool_dispatch() {
    assert_eq!(tool_named("gdocs_list"), Some(GDocsTool::List));
    assert_eq!(tool_named("gdocs_get_info"), Some(GDocsTool::GetInfo));
    assert_eq!(tool_named("gdocs"), None);
    assert_eq!(
        begin_tool_call(false, "gdocs_list").err(),
        Some(s("Error: Not authenticated. Please complete OAuth flow first."))
    );
    assert_eq!(begin_tool_call(true, "nope").err(), Some(s("Unknown tool: nope")));
    assert_eq!(begin_tool_call(true, "gdocs_extract").ok(), Some(GDocsTool::Extract));
    assert_eq!(invalid_arguments_text("missing field `doc_id`"), "Invalid arguments: missing field `doc_id`");
}

#[test]
fn tool_requests() {
    match list_request(None, None) {
        GDocsRequest::List { query, limit } => {
            assert!(query.is_none());
            assert_eq!(limit, 20);
        }
        _ => panic!("expected a listing"),
    }
    match list_request(Some(s("q")), Some(5)) {
        GDocsRequest::List { limit, .. } => assert_eq!(limit, 5),
        _ => panic!("expected a listing"),
    }
    assert!(matches!(content_request(s("d"), Some(s("text"))), GDocsRequest::Content { as_text: true, .. }));
    assert!(matches!(content_request(s("d"), Some(s("markdown"))), GDocsRequest::Content { as_text: false, .. }));
    assert!(matches!(content_request(s("d"), None), GDocsRequest::Content { as_text: false, .. }));
}

#[test]
fn tool_replies() {
    let r = tool_reply(GDocsTool::GetContent, Err(s("Drive API export error (404 Not Found): gone")));
    assert!(r.is_error);
    assert_eq!(r.text, "Error getting document content: Drive API export error (404 Not Found): gone");
    let r = tool_reply(GDocsTool::List, Ok(s("[]")));
    assert!(!r.is_error);
    assert_eq!(r.text, "[]");
    assert!(refusal_reply(s("x")).is_error);
    assert_eq!(api_error(GoogleApi::Docs, "403 Forbidden", "no"), "Docs API error (403 Forbidden): no");
    assert_eq!(image_fetch_error("500 Internal Server Error"), "Failed to fetch image (500 Internal Server Error)");
    assert_eq!(mcp_endpoint_url(8123), "http://127.0.0.1:8123/mcp");
}

#[test]
fn tool_specs() {
    let specs = gdocs_tool_specs();
    let names: Vec<&str> = specs.iter().map(|t| t.name.as_str()).collect();
    assert_eq!(names, vec!["gdocs_list", "gdocs_extract", "gdocs_get_content", "gdocs_get_info"]);
    assert_eq!(specs[0].params[1].default_value.as_deref(), Some("20"));
    assert_eq!(specs[0].params[1].kind, ParamType::Integer);
    assert!(specs[3].params[0].required);
    assert_eq!(specs[2].params[1].allowed, vec![s("text"), s("markdown")]);
}

fn ctx(ready: bool) -> ExecutionContext {
    ExecutionContext {
        user_id: Some(s("u")),
        conversation_id: Some(s("c")),
        turn_id: Some(s("t")),
        span_id: None,
        model_id: if ready { Some(s("openai/gpt-4o")) } else { None },
    }
}

#[test]
fn spawn_agent_checks() {
    let e = plan_spawn(Err(s("missing field `prompt`"))).err().unwrap();
    assert_eq!(e, "Invalid arguments: missing field `prompt`. Make sure the agent is enriching tool calls with context.");
    let args = SpawnAgentArgs { prompt: s("p"), system_prompt: None, name: None, context: ctx(false) };
    assert!(!args.context.is_ready());
    let e = plan_spawn(Ok(args)).err().unwrap();
    assert_eq!(e, "spawn_agent: execution context not ready. The agent should inject _context.");
    let args = SpawnAgentArgs { prompt: s("p"), system_prompt: Some(s("sys")), name: Some(s("n")), context: ctx(true) };
    let plan = plan_spawn(Ok(args)).ok().unwrap();
    assert_eq!(plan.model_id, "openai/gpt-4o");
    let sub = subconversation_context(&plan, "sub1");
    assert_eq!(sub.conversation_id.as_deref(), Some("sub1"));
    assert_eq!(sub.user_id.as_deref(), Some("u"));
    assert!(sub.is_ready());
    assert_eq!(model_failure_text("m", "unknown provider"), "Failed to create model 'm': unknown provider");
}

#[test]
fn spawn_agent_replies() {
    let r = completion_reply("sub1", None);
    assert_eq!(r.text, "Subconversation completed.\n\nSubconversation ID: sub1\n\nResult:\n(no result)");
    let r = completion_reply("sub1", Some(s("42")));
    assert!(r.text.ends_with("Result:\n42"));
    let r = stage_failure(SpawnStage::Run, "boom");
    assert!(r.is_error);
    assert_eq!(r.text, "Failed to run agent: boom");
    assert!(core_tool_call("spawn_agent").is_ok());
    assert_eq!(core_tool_call("x").err(), Some(s("Unknown tool: x")));
    assert!(enriches_tool("spawn_agent") && !enriches_tool("gdocs_list"));
    assert_eq!(SUBAGENT_MAX_ITERATIONS, 5);
    let specs = core_tool_specs();
    assert_eq!(specs[0].name, "spawn_agent");
    assert!(specs[0].params[0].required && !specs[0].params[2].required);
}

#[test]
fn subconversation_messages_order() {
    let m = subconversation_messages(s("task"), Some(s("be brief")));
    assert_eq!(m.len(), 2);
    assert_eq!(m[0].role, Role::System);
    assert!(matches!(&m[1].payload.content[0], ContentBlock::Text { text } if text == "task"));
    let m = subconversation_messages(s("task"), None);
    assert_eq!(m.len(), 1);
    assert_eq!(m[0].role, Role::User);
}
