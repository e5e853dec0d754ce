use noema::attachments::Attachment;
use noema::chat::{
    alternates_for, distinct_turn_ids, enrich_with_alternates, full_model_id, model_display_name,
    normalized_conversation_name, prepare_user_content, tool_filter, DisplayInputContent, InputContent, SpanSummary,
    ToolConfig, TurnSpans,
};
use noema::compose::{document_block, document_content, message_blocks, message_text, TabContent};
use noema::display::{make_asset_url, DisplayContent, DisplayMessage, DisplayToolResultContent};
use noema::events::{
    engine_messages_complete, engine_step, finish_turn, forward_event, DaemonEvent, EngineAction, EngineEvent,
    ForwardAction, Received,
};
use noema::model::{ChatMessage, ChatPayload, ContentBlock, ResolvedContent, ResolvedMessage, Role, ToolResult, ToolResultContent};
use noema::pdf::PdfReading;
use noema::responses::{
    forked_conversations, list_text_models, subconversations, ModelListing, ParentConversationInfo,
    ProviderInfoResponse, ReferenceInfo, ReferenceRecord, SpanInfoResponse,
};
use noema::session::{init_poll, InitPoll, ProcessingState, INIT_POLL_LIMIT};

fn s(x: &str) -> String {
    x.to_string()
}

fn no_forms(_b: &[u8]) -> PdfReading {
    PdfReading { text: None, objects: None, forms: Ok(Vec::new()) }
}

#[test]
fn user_content_must_not_be_empty() {
    assert_eq!(prepare_user_content(vec![]).err(), Some(s("Message must have content")));
    let only_empty = vec![DisplayInputContent::Text { text: s("") }];
    assert_eq!(
        prepare_user_content(only_empty).err(),
        Some(s("Message must have text, documents, or attachments"))
    );
    let content = vec![
        DisplayInputContent::Text { text: s("") },
        DisplayInputContent::DocumentRef { id: s("doc1") },
        DisplayInputContent::Text { text: s("hi") },
    ];
    let kept = prepare_user_content(content).ok().unwrap();
    assert_eq!(kept.len(), 2);
    assert!(matches!(&kept[0], InputContent::DocumentRef { id } if id == "doc1"));
    assert!(matches!(&kept[1], InputContent::Text { text } if text == "hi"));
}

#[test]
fn model_ids_and_names() {
    assert_eq!(full_model_id("openai", "gpt-4o"), "openai/gpt-4o");
    assert_eq!(model_display_name("openrouter/meta/llama"), "llama");
    assert_eq!(normalized_conversation_name(s("  ")), None);
    assert_eq!(normalized_conversation_name(s(" Plans ")), Some(s(" Plans ")));
    let f = tool_filter(Some(ToolConfig { enabled: true, server_ids: Some(vec![s("a")]), tool_names: None })).unwrap();
    assert_eq!(f.server_ids, Some(vec![s("a")]));
    assert!(tool_filter(None).is_none());
    let off = tool_filter(Some(ToolConfig { enabled: false, server_ids: None, tool_names: None })).unwrap();
    assert_eq!(off.tool_names, Some(Vec::<String>::new()));
    assert_eq!(off.server_ids, None);
}

fn msg(turn: Option<&str>) -> DisplayMessage {
    DisplayMessage {
        role: Role::Assistant,
        content: vec![DisplayContent::Text(s("x"))],
        turn_id: turn.map(s),
        span_id: None,
        alternates: None,
    }
}

#[test]
fn alternates_only_for_turns_with_a_choice() {
    let spans = vec![
        SpanSummary { id: s("s1"), model_id: Some(s("m1")) },
        SpanSummary { id: s("s2"), model_id: None },
    ];
    let alts = alternates_for(&spans, &Some(s("s2")));
    assert!(!alts[0].is_selected && alts[1].is_selected);
    assert_eq!(alts[0].model_display_name.as_deref(), Some("m1"));
    let turns = vec![
        TurnSpans { turn_id: s("t1"), spans, selected: Some(s("s1")) },
        TurnSpans { turn_id: s("t2"), spans: vec![SpanSummary { id: s("only"), model_id: None }], selected: None },
    ];
    let out = enrich_with_alternates(vec![msg(Some("t1")), msg(Some("t2")), msg(None)], &turns);
    assert_eq!(out[0].alternates.as_ref().map(|a| a.len()), Some(2));
    assert!(out[1].alternates.is_none());
    assert!(out[2].alternates.is_none());
    let ids = distinct_turn_ids(&vec![msg(Some("t1")), msg(Some("t1")), msg(None), msg(Some("t2"))]);
    assert_eq!(ids, vec![s("t1"), s("t2")]);
}

#[test]
fn display_of_messages() {
    let m = ChatMessage {
        role: Role::User,
        payload: ChatPayload {
            content: vec![
                ContentBlock::Text { text: s("hello") },
                ContentBlock::ToolResult(ToolResult {
                    tool_call_id: s("call1"),
                    content: vec![ToolResultContent::Image { data: s("AA=="), mime_type: s("image/png") }],
                }),
            ],
        },
    };
    let d = DisplayMessage::from_chat_message(m);
    assert!(matches!(&d.content[0], DisplayContent::Text(t) if t == "hello"));
    match &d.content[1] {
        DisplayContent::ToolResult { id, content } => {
            assert_eq!(id, "call1");
            assert!(matches!(&content[0], DisplayToolResultContent::Image { mime_type, .. } if mime_type == "image/png"));
        }
        _ => panic!("expected a tool result"),
    }
    let r = DisplayMessage::from_resolved(ResolvedMessage {
        role: Role::Assistant,
        content: vec![ResolvedContent::Asset { blob_hash: s("abc"), mime_type: s("image/svg+xml") }],
        turn_id: s("t9"),
    });
    assert_eq!(r.turn_id.as_deref(), Some("t9"));
    match &r.content[0] {
        DisplayContent::AssetRef { url, mime_type } => {
            assert_eq!(url, "noema-asset://localhost/abc?mime_type=image%2Fsvg%2Bxml");
            assert_eq!(mime_type, "image/svg+xml");
        }
        _ => panic!("expected an asset"),
    }
    assert_eq!(make_asset_url("h", "text/plain"), "noema-asset://localhost/h?mime_type=text%2Fplain");
    let w = DisplayMessage::with_alternates(Role::Assistant, vec![], s("t"), s("sp"), vec![]);
    assert!(w.alternates.is_none());
}

#[test]
fn forwarder_tracks_processing() {
    let mut p = ProcessingState::new();
    let conv = s("c1");
    match forward_event(Received::Event(DaemonEvent::AssistantContent(ContentBlock::Text { text: s("Hi") })), &conv, &mut p) {
        ForwardAction::Streaming(m) => {
            assert_eq!(m.role, Role::Assistant);
            assert!(matches!(&m.content[0], DisplayContent::Text(t) if t == "Hi"));
        }
        _ => panic!("expected streaming"),
    }
    assert!(p.is_processing(&conv));
    assert!(matches!(forward_event(Received::Event(DaemonEvent::TurnComplete), &conv, &mut p), ForwardAction::CompleteTurn));
    assert!(p.is_processing(&conv));
    let ev = finish_turn(&conv, vec![], &mut p);
    assert_eq!(ev.conversation_id, "c1");
    assert!(!p.is_processing(&conv));
    forward_event(Received::Event(DaemonEvent::AssistantContent(ContentBlock::Text { text: s("x") })), &conv, &mut p);
    match forward_event(Received::Event(DaemonEvent::Error(s("rate limited"))), &conv, &mut p) {
        ForwardAction::ReportError(e) => assert_eq!(e, "rate limited"),
        _ => panic!("expected an error"),
    }
    assert!(!p.is_processing(&conv));
    assert!(matches!(forward_event(Received::Lagged(3), &conv, &mut p), ForwardAction::NoteLag(3)));
    assert!(matches!(forward_event(Received::Closed, &conv, &mut p), ForwardAction::Stop));
    assert!(matches!(forward_event(Received::Event(DaemonEvent::Other), &conv, &mut p), ForwardAction::Ignore));
}

#[test]
fn voice_conversation_flag() {
    let mut p = ProcessingState::new();
    assert!(!p.is_voice_conversation_processing());
    p.set_voice_conversation(Some(s("c")));
    p.set_processing(s("c"), true);
    assert!(p.is_voice_conversation_processing());
    p.set_processing(s("d"), false);
    assert!(p.is_voice_conversation_processing());
}

#[test]
fn engine_loop_steps() {
    let mut busy = false;
    assert!(matches!(engine_step(false, None, &mut busy), EngineAction::Wait(50)));
    assert!(matches!(engine_step(true, None, &mut busy), EngineAction::Wait(10)));
    let m = ChatMessage { role: Role::Assistant, payload: ChatPayload { content: vec![] } };
    assert!(matches!(engine_step(true, Some(EngineEvent::Message(m)), &mut busy), EngineAction::Streaming(_)));
    assert!(busy);
    assert!(matches!(engine_step(true, Some(EngineEvent::MessageComplete), &mut busy), EngineAction::Complete));
    assert!(busy);
    let shown = engine_messages_complete(vec![], &mut busy);
    assert!(shown.is_empty() && !busy);
    engine_step(true, Some(EngineEvent::ParallelStreamingMessage { model_id: s("m"), message: ChatMessage { role: Role::Assistant, payload: ChatPayload { content: vec![] } } }), &mut busy);
    assert!(busy);
    assert!(matches!(engine_step(true, Some(EngineEvent::ParallelComplete { alternates: vec![] }), &mut busy), EngineAction::ParallelComplete { .. }));
    assert!(!busy);
    assert!(matches!(engine_step(true, Some(EngineEvent::HistoryCleared), &mut busy), EngineAction::HistoryCleared));
}

#[test]
fn documents_as_context() {
    let tabs = vec![
        TabContent { title: s("Intro"), markdown: Some(s("Hello")) },
        TabContent { title: s("Empty"), markdown: None },
        TabContent { title: s("Body"), markdown: Some(s("World")) },
    ];
    assert_eq!(document_content(&tabs), "## Intro\n\nHello\n\n## Body\n\nWorld");
    let single = vec![TabContent { title: s("Only"), markdown: Some(s("Text")) }];
    assert_eq!(document_content(&single), "Text");
    assert_eq!(
        document_block("d1", "Plan", "Text"),
        Some(s("<document id=\"d1\" title=\"Plan\">\nText\n</document>"))
    );
    assert_eq!(document_block("d1", "Plan", ""), None);
    let parts = vec![s("<document id=\"d1\" title=\"Plan\">\nText\n</document>")];
    let text = message_text(&parts, s("Summarize")).unwrap();
    assert_eq!(
        text,
        "<referenced_documents>\n<document id=\"d1\" title=\"Plan\">\nText\n</document>\n</referenced_documents>\n\nWhen referring to information from these documents in your response, use markdown links in the format [relevant text](noema://doc/DOCUMENT_ID) where DOCUMENT_ID is the document's id from the document tags above.\n\nSummarize"
    );
    assert_eq!(message_text(&vec![], s("  ")), None);
    assert_eq!(message_text(&vec![], s("hi")), Some(s("hi")));
}

#[test]
fn message_blocks_with_attachments() {
    let atts = vec![
        Attachment { mime_type: s("image/png"), data: s("iVBORw==") },
        Attachment { mime_type: s("text/markdown"), data: s("IyBUaXRsZQ==") },
        Attachment { mime_type: s("application/zip"), data: s("UEs=") },
    ];
    let blocks = message_blocks(Some(s("look")), &atts, no_forms, "Message must have text or attachments").ok().unwrap();
    assert_eq!(blocks.len(), 3);
    assert!(matches!(&blocks[0], ContentBlock::Text { text } if text == "look"));
    assert!(matches!(&blocks[1], ContentBlock::Image { mime_type, .. } if mime_type == "image/png"));
    assert!(matches!(&blocks[2], ContentBlock::Text { text } if text == "# Title"));
    let e = message_blocks(None, &vec![], no_forms, "Message must have text or attachments").err();
    assert_eq!(e, Some(s("Message must have text or attachments")));
    let bad = vec![Attachment { mime_type: s("text/plain"), data: s("%%%") }];
    let e = message_blocks(Some(s("x")), &bad, no_forms, "empty").err().unwrap();
    assert!(e.starts_with("Failed to decode base64: "));
}

#[test]
fn response_records() {
    let models = vec![
        ModelListing { id: s("gpt"), name: s("GPT"), provider: s("openai"), capabilities: vec![s("Text"), s("Vision")], context_window: Some(128000) },
        ModelListing { id: s("emb"), name: s("Embed"), provider: s("openai"), capabilities: vec![s("Embedding")], context_window: None },
    ];
    let infos = list_text_models(models);
    assert_eq!(infos.len(), 1);
    assert_eq!(infos[0].display_name, "GPT");
    assert_eq!(infos[0].capabilities, vec![s("Text"), s("Vision")]);
    let p = ProviderInfoResponse::from_provider("ollama", None);
    assert!(!p.requires_api_key);
    let p = ProviderInfoResponse::from_provider("openai", Some("OPENAI_API_KEY"));
    assert!(p.requires_api_key);
    assert_eq!(p.api_key_env.as_deref(), Some("OPENAI_API_KEY"));
    let sp = SpanInfoResponse::from_span(s("s"), None, 3, 17);
    assert!(!sp.is_selected);
    assert_eq!(sp.message_count, 3);
    let forks = forked_conversations(vec![(s("f1"), s("t1"))]);
    assert_eq!(forks[0].conversation_id, "f1");
    assert_eq!(forks[0].at_turn_id, "t1");
    let parent = ParentConversationInfo::new((s("p"), s("t"), Some(s("sp"))));
    assert_eq!(parent.at_span_id.as_deref(), Some("sp"));
    let subs = subconversations(vec![(s("c"), s("t"), None)]);
    assert!(subs[0].at_span_id.is_none());
    let rec = ReferenceRecord {
        id: s("r"),
        from_entity_id: s("a"),
        to_entity_id: s("b"),
        relation_type: Some(s("cites")),
        context: None,
        created_at: 5,
    };
    let info = ReferenceInfo::from_record(&rec);
    assert_eq!(info.relation_type.as_deref(), Some("cites"));
    assert_eq!(info.created_at, 5);
}

#[test]
fn init_polling_budget() {
    assert!(matches!(init_poll(0, Some(s("http://127.0.0.1:9800"))), InitPoll::Ready(u) if u == "http://127.0.0.1:9800"));
    assert!(matches!(init_poll::<String>(0, None), InitPoll::Wait(100)));
    assert!(matches!(init_poll::<String>(299, None), InitPoll::Wait(100)));
    assert!(matches!(init_poll(INIT_POLL_LIMIT, Some(s("late"))), InitPoll::TimedOut(e) if e == "Daemon init timed out"));
}
