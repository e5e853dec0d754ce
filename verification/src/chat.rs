//! Chat commands: what is decided between the UI and the daemon.

use vstd::prelude::*;
use crate::display::{AlternateInfo, DisplayMessage};
use crate::model::clone_opt_string;
use crate::text::{to_owned_string, is_blank, is_blank_seq, last_segment, last_segment_of, push_str};

verus! {

/// Input content block sent by the UI for a user message.
pub enum DisplayInputContent {
    Text { text: String },
    DocumentRef { id: String },
    Image { data: String, mime_type: String },
    Audio { data: String, mime_type: String },
    AssetRef { asset_id: String, mime_type: String },
}

/// Input content block as the daemon takes it.
pub enum InputContent {
    Text { text: String },
    DocumentRef { id: String },
    Image { data: String, mime_type: String },
    Audio { data: String, mime_type: String },
    AssetRef { asset_id: String, mime_type: String },
}

pub open spec fn input_of(c: DisplayInputContent) -> InputContent {
    match c {
        DisplayInputContent::Text { text } => InputContent::Text { text },
        DisplayInputContent::DocumentRef { id } => InputContent::DocumentRef { id },
        DisplayInputContent::Image { data, mime_type } => InputContent::Image { data, mime_type },
        DisplayInputContent::Audio { data, mime_type } => InputContent::Audio { data, mime_type },
        DisplayInputContent::AssetRef { asset_id, mime_type } => InputContent::AssetRef { asset_id, mime_type },
    }
}

impl DisplayInputContent {
    pub fn into_input(self) -> (r: InputContent)
        ensures
            r == input_of(self),
    {
        match self {
            DisplayInputContent::Text { text } => InputContent::Text { text },
            DisplayInputContent::DocumentRef { id } => InputContent::DocumentRef { id },
            DisplayInputContent::Image { data, mime_type } => InputContent::Image { data, mime_type },
            DisplayInputContent::Audio { data, mime_type } => InputContent::Audio { data, mime_type },
            DisplayInputContent::AssetRef { asset_id, mime_type } => InputContent::AssetRef {
                asset_id,
                mime_type,
            },
        }
    }
}

/// Empty text blocks carry nothing and are dropped.
pub open spec fn is_empty_text(c: DisplayInputContent) -> bool {
    c matches DisplayInputContent::Text { text } && text@.len() == 0
}

/// The blocks that are sent, in order.
pub open spec fn kept_inputs(s: Seq<DisplayInputContent>) -> Seq<InputContent>
    decreases s.len(),
{
    if s.len() == 0 {
        Seq::empty()
    } else if is_empty_text(s.last()) {
        kept_inputs(s.drop_last())
    } else {
        kept_inputs(s.drop_last()).push(input_of(s.last()))
    }
}

/// Checks and converts the content of a user message: it must not be empty,
/// empty text blocks are dropped, and something must remain.
pub fn prepare_user_content(content: Vec<DisplayInputContent>) -> (r: Result<Vec<InputContent>, String>)
    ensures
        content@.len() == 0 ==> (r matches Err(e) && e@ == "Message must have content"@),
        content@.len() > 0 && kept_inputs(content@).len() == 0 ==> (r matches Err(e) && e@
            == "Message must have text, documents, or attachments"@),
        content@.len() > 0 && kept_inputs(content@).len() > 0 ==> (r matches Ok(v) && v@
            == kept_inputs(content@)),
{
    if content.len() == 0 {
        return Err(to_owned_string("Message must have content"));
    }
    let ghost orig = content@;
    let mut rest = content;
    let mut out: Vec<InputContent> = Vec::new();
    let ghost mut taken: int = 0;
    while rest.len() > 0
        invariant
            0 <= taken <= orig.len(),
            rest@ == orig.skip(taken),
            out@ == kept_inputs(orig.take(taken)),
        decreases rest@.len(),
    {
        let c = rest.remove(0);
        proof {
            assert(orig.take(taken + 1).drop_last() =~= orig.take(taken));
            assert(orig.take(taken + 1).last() == orig[taken]);
            assert(orig.skip(taken + 1) =~= orig.skip(taken).drop_first());
        }
        let empty_text = match &c {
            DisplayInputContent::Text { text } => text.as_str().is_empty(),
            _ => false,
        };
        if !empty_text {
            out.push(c.into_input());
        }
        proof {
            taken = taken + 1;
        }
    }
    proof {
        assert(orig.take(taken) =~= orig);
    }
    if out.len() == 0 {
        return Err(to_owned_string("Message must have text, documents, or attachments"));
    }
    Ok(out)
}

/// Which tools a message may use.
pub struct ToolConfig {
    /// Master switch (defaults to on).
    pub enabled: bool,
    /// Only these MCP servers, when given.
    pub server_ids: Option<Vec<String>>,
    /// Only these tools, when given.
    pub tool_names: Option<Vec<String>>,
}

/// The default for [`ToolConfig::enabled`].
pub fn default_true() -> (b: bool)
    ensures
        b,
{
    true
}

/// The daemon's tool filter for a message.
pub struct ToolFilter {
    pub server_ids: Option<Vec<String>>,
    pub tool_names: Option<Vec<String>>,
}

/// The filter handed to the daemon: the server and tool selections as given
/// while tools are enabled; with tools switched off, a filter that names no
/// tool at all, so that none is available.
pub fn tool_filter(config: Option<ToolConfig>) -> (r: Option<ToolFilter>)
    ensures
        match config {
            None => r is None,
            Some(c) => if c.enabled {
                r matches Some(f) && f.server_ids == c.server_ids && f.tool_names == c.tool_names
            } else {
                r matches Some(f) && f.server_ids == c.server_ids && (f.tool_names matches Some(t) && t@.len()
                    == 0)
            },
        },
{
    match config {
        None => None,
        Some(c) => {
            if c.enabled {
                Some(ToolFilter { server_ids: c.server_ids, tool_names: c.tool_names })
            } else {
                Some(ToolFilter { server_ids: c.server_ids, tool_names: Some(Vec::new()) })
            }
        },
    }
}

/// `provider/model`, the id under which a model is selected.
pub fn full_model_id(provider: &str, model_id: &str) -> (r: String)
    ensures
        r@ == provider@ + seq!['/'] + model_id@,
{
    let mut s = String::new();
    push_str(&mut s, provider);
    crate::text::push_char(&mut s, '/');
    push_str(&mut s, model_id);
    proof {
        assert(s@ =~= provider@ + seq!['/'] + model_id@);
    }
    s
}

/// The name shown for a model id: what follows its last `/`.
pub fn model_display_name(model_id: &str) -> (r: String)
    ensures
        r@ == last_segment(model_id@, '/'),
{
    last_segment_of(model_id, '/')
}

/// The stored name for a rename request: a blank name clears it.
pub fn normalized_conversation_name(name: String) -> (r: Option<String>)
    ensures
        is_blank_seq(name@) ==> r is None,
        !is_blank_seq(name@) ==> r == Some(name),
{
    if is_blank(name.as_str()) {
        None
    } else {
        Some(name)
    }
}

/// A stored span (alternate response) of a turn.
pub struct SpanSummary {
    pub id: String,
    pub model_id: Option<String>,
}

/// The spans of one turn and the span selected at it.
pub struct TurnSpans {
    pub turn_id: String,
    pub spans: Vec<SpanSummary>,
    pub selected: Option<String>,
}

/// The alternate shown for a span.
pub open spec fn alternate_matches(a: AlternateInfo, span: SpanSummary, selected: Option<String>) -> bool {
    &&& a.span_id == span.id
    &&& a.model_id == span.model_id
    &&& a.model_display_name == span.model_id
    &&& a.message_count == 0
    &&& a.is_selected == (selected matches Some(s) && s@ == span.id@)
}

/// The alternates for a turn's spans, one per span, in order.
pub fn alternates_for(spans: &Vec<SpanSummary>, selected: &Option<String>) -> (r: Vec<AlternateInfo>)
    ensures
        r@.len() == spans@.len(),
        forall|i: int| 0 <= i < r@.len() ==> alternate_matches(#[trigger] r@[i], spans@[i], *selected),
{
    let mut out: Vec<AlternateInfo> = Vec::new();
    let n = spans.len();
    let mut i: usize = 0;
    while i < n
        invariant
            n == spans@.len(),
            i <= n,
            out@.len() == i,
            forall|j: int| 0 <= j < i ==> alternate_matches(#[trigger] out@[j], spans@[j], *selected),
        decreases n - i,
    {
        let span = &spans[i];
        let is_selected = match selected {
            Some(s) => *s == span.id,
            None => false,
        };
        out.push(AlternateInfo {
            span_id: span.id.clone(),
            model_id: clone_opt_string(&span.model_id),
            model_display_name: clone_opt_string(&span.model_id),
            message_count: 0,
            is_selected,
        });
        i = i + 1;
    }
    out
}

/// The last entry for turn `t` that has more than one span.
pub open spec fn turn_entry(turns: Seq<TurnSpans>, t: Seq<char>) -> Option<int>
    decreases turns.len(),
{
    if turns.len() == 0 {
        None
    } else if turns.last().turn_id@ == t && turns.last().spans@.len() > 1 {
        Some(turns.len() - 1)
    } else {
        turn_entry(turns.drop_last(), t)
    }
}

proof fn lemma_turn_entry(turns: Seq<TurnSpans>, t: Seq<char>)
    ensures
        turn_entry(turns, t) matches Some(k) ==> 0 <= k < turns.len() && turns[k].turn_id@ == t
            && turns[k].spans@.len() > 1,
    decreases turns.len(),
{
    if turns.len() > 0 {
        lemma_turn_entry(turns.drop_last(), t);
    }
}

fn find_turn(turns: &Vec<TurnSpans>, t: &String) -> (r: Option<usize>)
    ensures
        r matches Some(i) ==> turn_entry(turns@, t@) == Some(i as int),
        r is None ==> turn_entry(turns@, t@) is None,
{
    let mut i: usize = turns.len();
    proof {
        assert(turns@.take(i as int) =~= turns@);
    }
    while i > 0
        invariant
            i <= turns@.len(),
            turn_entry(turns@, t@) == turn_entry(turns@.take(i as int), t@),
        decreases i,
    {
        let e = &turns[i - 1];
        proof {
            assert(turns@.take(i as int).last() == turns@[i - 1]);
            assert(turns@.take(i as int).drop_last() =~= turns@.take(i - 1));
        }
        if e.turn_id == *t && e.spans.len() > 1 {
            return Some(i - 1);
        }
        i = i - 1;
    }
    proof {
        assert(turns@.take(0) =~= Seq::<TurnSpans>::empty());
    }
    None
}

/// The message with the alternates of its turn attached, when the turn has a choice.
pub open spec fn enriched(m: DisplayMessage, r: DisplayMessage, turns: Seq<TurnSpans>) -> bool {
    &&& r.role == m.role
    &&& r.content == m.content
    &&& r.turn_id == m.turn_id
    &&& r.span_id == m.span_id
    &&& match m.turn_id {
        Some(t) => match turn_entry(turns, t@) {
            Some(k) => r.alternates matches Some(v) && v@.len() == turns[k].spans@.len() && forall|j: int|
                0 <= j < v@.len() ==> alternate_matches(#[trigger] v@[j], turns[k].spans@[j], turns[k].selected),
            None => r.alternates == m.alternates,
        },
        None => r.alternates == m.alternates,
    }
}

/// Attaches to each message the alternates of its turn, for turns with more than one span.
pub fn enrich_with_alternates(messages: Vec<DisplayMessage>, turns: &Vec<TurnSpans>) -> (r: Vec<DisplayMessage>)
    ensures
        r@.len() == messages@.len(),
        forall|i: int| 0 <= i < r@.len() ==> enriched(messages@[i], #[trigger] r@[i], turns@),
{
    let ghost orig = messages@;
    let mut rest = messages;
    let mut out: Vec<DisplayMessage> = Vec::new();
    while rest.len() > 0
        invariant
            out@.len() + rest@.len() == orig.len(),
            forall|i: int| 0 <= i < out@.len() ==> enriched(orig[i], #[trigger] out@[i], turns@),
            rest@ == orig.skip(out@.len() as int),
        decreases rest@.len(),
    {
        let k = out.len();
        let mut msg = rest.remove(0);
        proof {
            assert(msg == orig[k as int]);
            assert(orig.skip(k + 1) =~= orig.skip(k as int).drop_first());
        }
        let found = match &msg.turn_id {
            Some(t) => find_turn(turns, t),
            None => None,
        };
        let ghost m0 = msg;
        match found {
            Some(idx) => {
                proof {
                    lemma_turn_entry(turns@, msg.turn_id->0@);
                }
                let entry = &turns[idx];
                let alts = alternates_for(&entry.spans, &entry.selected);
                msg.alternates = Some(alts);
                proof {
                    let t = m0.turn_id->0;
                    assert(turn_entry(turns@, t@) == Some(idx as int));
                    assert(alts@.len() == turns@[idx as int].spans@.len());
                }
                assert(enriched(m0, msg, turns@));
            },
            None => {
                assert(enriched(m0, msg, turns@));
            },
        }
        out.push(msg);
    }
    out
}

/// The turn ids of the messages that have one, in order.
pub open spec fn turn_ids(msgs: Seq<DisplayMessage>) -> Seq<Seq<char>>
    decreases msgs.len(),
{
    if msgs.len() == 0 {
        Seq::empty()
    } else {
        match msgs.last().turn_id {
            Some(t) => turn_ids(msgs.drop_last()).push(t@),
            None => turn_ids(msgs.drop_last()),
        }
    }
}

/// The sequence with every repeat of an earlier item left out.
pub open spec fn dedup(s: Seq<Seq<char>>) -> Seq<Seq<char>>
    decreases s.len(),
{
    if s.len() == 0 {
        Seq::empty()
    } else if dedup(s.drop_last()).contains(s.last()) {
        dedup(s.drop_last())
    } else {
        dedup(s.drop_last()).push(s.last())
    }
}

/// Whether `t` occurs in `v`.
pub fn contains_string(v: &Vec<String>, t: &String) -> (b: bool)
    ensures
        b == v@.map_values(|s: String| s@).contains(t@),
{
    let ghost views = v@.map_values(|s: String| s@);
    let mut j: usize = 0;
    while j < v.len()
        invariant
            j <= v@.len(),
            views == v@.map_values(|s: String| s@),
            forall|x: int| 0 <= x < j ==> #[trigger] views[x] != t@,
        decreases v@.len() - j,
    {
        if v[j] == *t {
            assert(views[j as int] == t@);
            return true;
        }
        j = j + 1;
    }
    false
}

/// The turns whose spans must be looked up: each turn id once, in order of first appearance.
pub fn distinct_turn_ids(messages: &Vec<DisplayMessage>) -> (r: Vec<String>)
    ensures
        r@.map_values(|s: String| s@) == dedup(turn_ids(messages@)),
{
    let mut out: Vec<String> = Vec::new();
    let n = messages.len();
    let mut i: usize = 0;
    while i < n
        invariant
            n == messages@.len(),
            i <= n,
            out@.map_values(|s: String| s@) == dedup(turn_ids(messages@.take(i as int))),
        decreases n - i,
    {
        proof {
            assert(messages@.take(i + 1).drop_last() =~= messages@.take(i as int));
            assert(messages@.take(i + 1).last() == messages@[i as int]);
        }
        match &messages[i].turn_id {
            Some(t) => {
                proof {
                    assert(turn_ids(messages@.take(i + 1)) == turn_ids(messages@.take(i as int)).push(t@));
                    assert(turn_ids(messages@.take(i as int)).push(t@).drop_last() =~= turn_ids(messages@.take(i as int)));
                }
                if !contains_string(&out, t) {
                    let ghost before = out@;
                    out.push(t.clone());
                    assert(out@.map_values(|s: String| s@) =~= before.map_values(|s: String| s@).push(t@));
                }
            },
            None => {},
        }
        i = i + 1;
    }
    proof {
        assert(messages@.take(n as int) =~= messages@);
    }
    out
}

} // verus!
