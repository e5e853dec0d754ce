//! What the UI shows of conversation content.

use vstd::prelude::*;
use vstd::string::*;
use vstd::utf8::*;
use crate::model::{ChatMessage, ContentBlock, ResolvedContent, ResolvedMessage, Role, ToolResultContent};
use crate::percent::{ascii_chars, encode, percent_encode_bytes};
use crate::text::push_str;

verus! {

pub enum DisplayToolResultContent {
    Text(String),
    Image { data: String, mime_type: String },
    Audio { data: String, mime_type: String },
}

pub open spec fn tool_result_display(c: ToolResultContent) -> DisplayToolResultContent {
    match c {
        ToolResultContent::Text { text } => DisplayToolResultContent::Text(text),
        ToolResultContent::Image { data, mime_type } => DisplayToolResultContent::Image { data, mime_type },
        ToolResultContent::Audio { data, mime_type } => DisplayToolResultContent::Audio { data, mime_type },
    }
}

impl DisplayToolResultContent {
    pub fn from_content(c: ToolResultContent) -> (r: Self)
        ensures
            r == tool_result_display(c),
    {
        match c {
            ToolResultContent::Text { text } => DisplayToolResultContent::Text(text),
            ToolResultContent::Image { data, mime_type } => DisplayToolResultContent::Image { data, mime_type },
            ToolResultContent::Audio { data, mime_type } => DisplayToolResultContent::Audio { data, mime_type },
        }
    }

    /// Converts every piece of a tool result, keeping the order.
    pub fn from_all(content: Vec<ToolResultContent>) -> (r: Vec<Self>)
        ensures
            r@ == content@.map_values(|c: ToolResultContent| tool_result_display(c)),
    {
        let ghost orig = content@;
        let mut rest = content;
        let mut out: Vec<Self> = Vec::new();
        while rest.len() > 0
            invariant
                out@.len() + rest@.len() == orig.len(),
                out@ == orig.take(out@.len() as int).map_values(|c: ToolResultContent| tool_result_display(c)),
                rest@ == orig.skip(out@.len() as int),
            decreases rest@.len(),
        {
            let k = out.len();
            let c = rest.remove(0);
            out.push(Self::from_content(c));
            proof {
                assert(orig.take(k + 1) =~= orig.take(k as int).push(orig[k as int]));
                assert(orig.skip(k + 1) =~= orig.skip(k as int).drop_first());
                assert(out@ =~= orig.take(k + 1).map_values(|c: ToolResultContent| tool_result_display(c)));
            }
        }
        proof {
            assert(orig.take(orig.len() as int) =~= orig);
        }
        out
    }
}

pub enum DisplayContent {
    Text(String),
    /// Inline base64 image.
    Image { data: String, mime_type: String },
    /// Inline base64 audio.
    Audio { data: String, mime_type: String },
    /// Asset in blob storage, fetched from `url`.
    AssetRef { url: String, mime_type: String },
    /// Reference to a document (shown as a chip).
    DocumentRef { id: String },
    ToolCall { name: String, id: String, arguments: serde_json::Value },
    ToolResult { id: String, content: Vec<DisplayToolResultContent> },
}

/// `d` is how `b` is displayed.
pub open spec fn displays_block(b: ContentBlock, d: DisplayContent) -> bool {
    match b {
        ContentBlock::Text { text } => d == DisplayContent::Text(text),
        ContentBlock::Image { data, mime_type } => d == DisplayContent::Image { data, mime_type },
        ContentBlock::Audio { data, mime_type } => d == DisplayContent::Audio { data, mime_type },
        ContentBlock::ToolCall(call) => d == DisplayContent::ToolCall {
            name: call.name,
            id: call.id,
            arguments: call.arguments,
        },
        ContentBlock::ToolResult(res) => d matches DisplayContent::ToolResult { id, content } && id
            == res.tool_call_id && content@ == res.content@.map_values(
            |c: ToolResultContent| tool_result_display(c),
        ),
        ContentBlock::DocumentRef { id } => d == DisplayContent::DocumentRef { id },
    }
}

/// The URL under which the UI fetches a stored asset.
pub open spec fn asset_url(blob_hash: Seq<char>, mime_type: Seq<char>) -> Seq<char> {
    "noema-asset://localhost/"@ + blob_hash + "?mime_type="@ + ascii_chars(
        percent_encode_bytes(encode_utf8(mime_type)),
    )
}

/// `d` is how the resolved content `c` is displayed.
pub open spec fn displays_resolved(c: ResolvedContent, d: DisplayContent) -> bool {
    match c {
        ResolvedContent::Text { text } => d == DisplayContent::Text(text),
        ResolvedContent::Asset { blob_hash, mime_type } => d matches DisplayContent::AssetRef {
            url,
            mime_type: m,
        } && url@ == asset_url(blob_hash@, mime_type@) && m == mime_type,
        ResolvedContent::Document { document_id } => d == DisplayContent::DocumentRef { id: document_id },
        ResolvedContent::ToolCall(call) => d == DisplayContent::ToolCall {
            name: call.name,
            id: call.id,
            arguments: call.arguments,
        },
        ResolvedContent::ToolResult(res) => d matches DisplayContent::ToolResult { id, content }
            && id == res.tool_call_id && content@ == res.content@.map_values(
            |c: ToolResultContent| tool_result_display(c),
        ),
    }
}

/// Builds the asset URL for a blob and its MIME type.
pub fn make_asset_url(blob_hash: &str, mime_type: &str) -> (r: String)
    ensures
        r@ == asset_url(blob_hash@, mime_type@),
{
    let mut url = String::new();
    push_str(&mut url, "noema-asset://localhost/");
    push_str(&mut url, blob_hash);
    push_str(&mut url, "?mime_type=");
    let enc = encode(mime_type);
    push_str(&mut url, enc.as_str());
    proof {
        assert(url@ =~= asset_url(blob_hash@, mime_type@));
    }
    url
}

impl DisplayContent {
    pub fn from_block(b: ContentBlock) -> (r: Self)
        ensures
            displays_block(b, r),
    {
        match b {
            ContentBlock::Text { text } => DisplayContent::Text(text),
            ContentBlock::Image { data, mime_type } => DisplayContent::Image { data, mime_type },
            ContentBlock::Audio { data, mime_type } => DisplayContent::Audio { data, mime_type },
            ContentBlock::ToolCall(call) => DisplayContent::ToolCall {
                name: call.name,
                id: call.id,
                arguments: call.arguments,
            },
            ContentBlock::ToolResult(res) => DisplayContent::ToolResult {
                id: res.tool_call_id,
                content: DisplayToolResultContent::from_all(res.content),
            },
            ContentBlock::DocumentRef { id } => DisplayContent::DocumentRef { id },
        }
    }

    pub fn from_resolved(c: ResolvedContent) -> (r: Self)
        ensures
            displays_resolved(c, r),
    {
        match c {
            ResolvedContent::Text { text } => DisplayContent::Text(text),
            ResolvedContent::Asset { blob_hash, mime_type } => {
                let url = make_asset_url(blob_hash.as_str(), mime_type.as_str());
                DisplayContent::AssetRef { url, mime_type }
            },
            ResolvedContent::Document { document_id } => DisplayContent::DocumentRef { id: document_id },
            ResolvedContent::ToolCall(call) => DisplayContent::ToolCall {
                name: call.name,
                id: call.id,
                arguments: call.arguments,
            },
            ResolvedContent::ToolResult(res) => DisplayContent::ToolResult {
                id: res.tool_call_id,
                content: DisplayToolResultContent::from_all(res.content),
            },
        }
    }

    /// Converts all blocks of a message, keeping the order.
    pub fn from_blocks(blocks: Vec<ContentBlock>) -> (r: Vec<Self>)
        ensures
            r@.len() == blocks@.len(),
            forall|i: int| 0 <= i < r@.len() ==> displays_block(blocks@[i], #[trigger] r@[i]),
    {
        let ghost orig = blocks@;
        let mut rest = blocks;
        let mut out: Vec<Self> = Vec::new();
        while rest.len() > 0
            invariant
                out@.len() + rest@.len() == orig.len(),
                forall|i: int| 0 <= i < out@.len() ==> displays_block(orig[i], #[trigger] out@[i]),
                rest@ == orig.skip(out@.len() as int),
            decreases rest@.len(),
        {
            let k = out.len();
            let b = rest.remove(0);
            out.push(Self::from_block(b));
            proof {
                assert(orig.skip(k + 1) =~= orig.skip(k as int).drop_first());
            }
        }
        out
    }

    /// Converts all resolved blocks, keeping the order.
    pub fn from_all_resolved(blocks: Vec<ResolvedContent>) -> (r: Vec<Self>)
        ensures
            r@.len() == blocks@.len(),
            forall|i: int| 0 <= i < r@.len() ==> displays_resolved(blocks@[i], #[trigger] r@[i]),
    {
        let ghost orig = blocks@;
        let mut rest = blocks;
        let mut out: Vec<Self> = Vec::new();
        while rest.len() > 0
            invariant
                out@.len() + rest@.len() == orig.len(),
                forall|i: int| 0 <= i < out@.len() ==> displays_resolved(orig[i], #[trigger] out@[i]),
                rest@ == orig.skip(out@.len() as int),
            decreases rest@.len(),
        {
            let k = out.len();
            let b = rest.remove(0);
            out.push(Self::from_resolved(b));
            proof {
                assert(orig.skip(k + 1) =~= orig.skip(k as int).drop_first());
            }
        }
        out
    }
}

/// An alternate response (span) offered for a turn.
pub struct AlternateInfo {
    pub span_id: String,
    pub model_id: Option<String>,
    pub model_display_name: Option<String>,
    pub message_count: usize,
    pub is_selected: bool,
}

pub struct DisplayMessage {
    pub role: Role,
    pub content: Vec<DisplayContent>,
    /// Turn this message belongs to.
    pub turn_id: Option<String>,
    /// Span of this message.
    pub span_id: Option<String>,
    /// Alternates for the message's turn, only when there is a choice.
    pub alternates: Option<Vec<AlternateInfo>>,
}

impl DisplayMessage {
    /// A live chat message: its blocks, no turn, span or alternates.
    pub fn from_chat_message(msg: ChatMessage) -> (r: Self)
        ensures
            r.role == msg.role,
            r.content@.len() == msg.payload.content@.len(),
            forall|i: int| 0 <= i < r.content@.len() ==> displays_block(msg.payload.content@[i], #[trigger] r.content@[i]),
            r.turn_id is None,
            r.span_id is None,
            r.alternates is None,
    {
        DisplayMessage {
            role: msg.role,
            content: DisplayContent::from_blocks(msg.payload.content),
            turn_id: None,
            span_id: None,
            alternates: None,
        }
    }

    /// A stored message: its resolved blocks and its turn.
    pub fn from_resolved(msg: ResolvedMessage) -> (r: Self)
        ensures
            r.role == msg.role,
            r.content@.len() == msg.content@.len(),
            forall|i: int| 0 <= i < r.content@.len() ==> displays_resolved(msg.content@[i], #[trigger] r.content@[i]),
            r.turn_id == Some(msg.turn_id),
            r.span_id is None,
            r.alternates is None,
    {
        DisplayMessage {
            role: msg.role,
            content: DisplayContent::from_all_resolved(msg.content),
            turn_id: Some(msg.turn_id),
            span_id: None,
            alternates: None,
        }
    }

    /// A message with its turn and span; alternates are kept only when there
    /// is more than one.
    pub fn with_alternates(
        role: Role,
        content: Vec<DisplayContent>,
        turn_id: String,
        span_id: String,
        alternates: Vec<AlternateInfo>,
    ) -> (r: Self)
        ensures
            r.role == role,
            r.content == content,
            r.turn_id == Some(turn_id),
            r.span_id == Some(span_id),
            alternates@.len() > 1 ==> r.alternates == Some(alternates),
            alternates@.len() <= 1 ==> r.alternates is None,
    {
        let alts = if alternates.len() > 1 {
            Some(alternates)
        } else {
            None
        };
        DisplayMessage {
            role,
            content,
            turn_id: Some(turn_id),
            span_id: Some(span_id),
            alternates: alts,
        }
    }
}

} // verus!
