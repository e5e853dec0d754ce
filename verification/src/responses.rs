//! What the UI is sent about models, providers, spans, forks,
//! subconversations and references, made from the stores' records.

use vstd::prelude::*;
use crate::model::clone_opt_string;
use crate::compose::{join_seq, join_strings};
use crate::text::{push_str, str_equals, to_owned_string};

verus! {

/// The storage configuration of the desktop application (SQLite stores
/// and a file-system blob store); it only names that choice.
pub struct AppStorage;

/// A model the UI can pick.
pub struct ModelInfo {
    pub id: String,
    pub display_name: String,
    pub provider: String,
    /// The names of its capabilities.
    pub capabilities: Vec<String>,
    pub context_window: Option<u32>,
}

/// A model as the daemon lists it.
pub struct ModelListing {
    pub id: String,
    pub name: String,
    pub provider: String,
    /// The names of its capabilities (`Text`, ...).
    pub capabilities: Vec<String>,
    pub context_window: Option<u32>,
}

/// Whether a model generates text.
pub open spec fn is_text_model(m: ModelListing) -> bool {
    exists|i: int| 0 <= i < m.capabilities@.len() && #[trigger] m.capabilities@[i]@ == "Text"@
}

/// The entry of a model in the picker.
pub open spec fn lists_model(m: ModelListing, info: ModelInfo) -> bool {
    &&& info.id == m.id
    &&& info.display_name == m.name
    &&& info.provider == m.provider
    &&& info.capabilities == m.capabilities
    &&& info.context_window == m.context_window
}

/// The text models, in order.
pub open spec fn text_models(ms: Seq<ModelListing>) -> Seq<ModelListing>
    decreases ms.len(),
{
    if ms.len() == 0 {
        Seq::empty()
    } else if is_text_model(ms.last()) {
        text_models(ms.drop_last()).push(ms.last())
    } else {
        text_models(ms.drop_last())
    }
}

fn has_text_capability(m: &ModelListing) -> (b: bool)
    ensures
        b == is_text_model(*m),
{
    let mut i: usize = 0;
    while i < m.capabilities.len()
        invariant
            i <= m.capabilities@.len(),
            forall|j: int| 0 <= j < i ==> m.capabilities@[j]@ != "Text"@,
        decreases m.capabilities@.len() - i,
    {
        if str_equals(m.capabilities[i].as_str(), "Text") {
            return true;
        }
        i = i + 1;
    }
    false
}

/// The models the picker shows: those that generate text, in the order
/// the daemon listed them.
pub fn list_text_models(models: Vec<ModelListing>) -> (r: Vec<ModelInfo>)
    ensures
        r@.len() == text_models(models@).len(),
        forall|i: int| 0 <= i < r@.len() ==> lists_model(text_models(models@)[i], #[trigger] r@[i]),
{
    let ghost orig = models@;
    let total = models.len();
    let mut rest = models;
    let mut out: Vec<ModelInfo> = Vec::new();
    let mut taken: usize = 0;
    while rest.len() > 0
        invariant
            total == orig.len(),
            taken + rest@.len() == orig.len(),
            rest@ == orig.skip(taken as int),
            out@.len() == text_models(orig.take(taken as int)).len(),
            forall|i: int|
                0 <= i < out@.len() ==> lists_model(text_models(orig.take(taken as int))[i], #[trigger] out@[i]),
        decreases rest@.len(),
    {
        let m = rest.remove(0);
        proof {
            assert(m == orig[taken as int]);
            assert(orig.take(taken + 1).drop_last() =~= orig.take(taken as int));
            assert(orig.take(taken + 1).last() == m);
        }
        if has_text_capability(&m) {
            let ModelListing { id, name, provider, capabilities, context_window } = m;
            out.push(ModelInfo { id, display_name: name, provider, capabilities, context_window });
        }
        taken = taken + 1;
        proof {
            assert(rest@ =~= orig.skip(taken as int));
        }
    }
    proof {
        assert(orig.take(taken as int) =~= orig);
    }
    out
}

/// A provider of models, as the settings page shows it.
pub struct ProviderInfoResponse {
    pub name: String,
    pub requires_api_key: bool,
    pub api_key_env: Option<String>,
}

impl ProviderInfoResponse {
    /// A provider needs an API key exactly when it names the environment
    /// variable holding one.
    pub fn from_provider(name: &str, api_key_env: Option<&str>) -> (r: Self)
        ensures
            r.name@ == name@,
            r.requires_api_key == api_key_env is Some,
            r.api_key_env matches Some(e) ==> api_key_env matches Some(x) && e@ == x@,
            r.api_key_env is None ==> api_key_env is None,
    {
        ProviderInfoResponse {
            name: to_owned_string(name),
            requires_api_key: api_key_env.is_some(),
            api_key_env: match api_key_env {
                Some(e) => Some(to_owned_string(e)),
                None => None,
            },
        }
    }
}

/// An alternate response of a turn.
pub struct SpanInfoResponse {
    pub id: String,
    pub model_id: Option<String>,
    pub message_count: usize,
    pub is_selected: bool,
    pub created_at: i64,
}

impl SpanInfoResponse {
    /// A stored span as listed among a turn's alternates; the listing does
    /// not mark a selection.
    pub fn from_span(id: String, model_id: Option<String>, message_count: usize, created_at: i64) -> (r: Self)
        ensures
            r.id == id,
            r.model_id == model_id,
            r.message_count == message_count,
            !r.is_selected,
            r.created_at == created_at,
    {
        SpanInfoResponse { id, model_id, message_count, is_selected: false, created_at }
    }
}

/// A conversation forked from another one, and the turn it was forked at.
pub struct ForkedConversationInfo {
    pub conversation_id: String,
    pub at_turn_id: String,
}

/// The forks of a conversation, from `(fork, turn)` pairs.
pub fn forked_conversations(forks: Vec<(String, String)>) -> (r: Vec<ForkedConversationInfo>)
    ensures
        r@.len() == forks@.len(),
        forall|i: int|
            0 <= i < r@.len() ==> (#[trigger] r@[i]).conversation_id == forks@[i].0 && r@[i].at_turn_id
                == forks@[i].1,
{
    let mut out: Vec<ForkedConversationInfo> = Vec::new();
    let mut i: usize = 0;
    while i < forks.len()
        invariant
            i <= forks@.len(),
            out@.len() == i,
            forall|j: int|
                0 <= j < i ==> (#[trigger] out@[j]).conversation_id == forks@[j].0 && out@[j].at_turn_id
                    == forks@[j].1,
        decreases forks@.len() - i,
    {
        out.push(
            ForkedConversationInfo { conversation_id: forks[i].0.clone(), at_turn_id: forks[i].1.clone() },
        );
        i = i + 1;
    }
    out
}

/// Where a subconversation was spawned from.
pub struct ParentConversationInfo {
    pub parent_conversation_id: String,
    pub at_turn_id: String,
    pub at_span_id: Option<String>,
}

impl ParentConversationInfo {
    pub fn new(parent: (String, String, Option<String>)) -> (r: Self)
        ensures
            r.parent_conversation_id == parent.0,
            r.at_turn_id == parent.1,
            r.at_span_id == parent.2,
    {
        let (parent_conversation_id, at_turn_id, at_span_id) = parent;
        ParentConversationInfo { parent_conversation_id, at_turn_id, at_span_id }
    }
}

/// A subconversation of a conversation, and where it was spawned.
pub struct SubconversationInfo {
    pub conversation_id: String,
    pub at_turn_id: String,
    pub at_span_id: Option<String>,
}

/// The subconversations of a conversation, from `(sub, turn, span)` triples.
pub fn subconversations(subs: Vec<(String, String, Option<String>)>) -> (r: Vec<SubconversationInfo>)
    ensures
        r@.len() == subs@.len(),
        forall|i: int|
            0 <= i < r@.len() ==> {
                &&& (#[trigger] r@[i]).conversation_id == subs@[i].0
                &&& r@[i].at_turn_id == subs@[i].1
                &&& r@[i].at_span_id == subs@[i].2
            },
{
    let mut out: Vec<SubconversationInfo> = Vec::new();
    let mut i: usize = 0;
    while i < subs.len()
        invariant
            i <= subs@.len(),
            out@.len() == i,
            forall|j: int|
                0 <= j < i ==> {
                    &&& (#[trigger] out@[j]).conversation_id == subs@[j].0
                    &&& out@[j].at_turn_id == subs@[j].1
                    &&& out@[j].at_span_id == subs@[j].2
                },
        decreases subs@.len() - i,
    {
        out.push(
            SubconversationInfo {
                conversation_id: subs[i].0.clone(),
                at_turn_id: subs[i].1.clone(),
                at_span_id: clone_opt_string(&subs[i].2),
            },
        );
        i = i + 1;
    }
    out
}

/// A reference between two entities.
pub struct ReferenceInfo {
    pub id: String,
    pub from_entity_id: String,
    pub to_entity_id: String,
    pub relation_type: Option<String>,
    pub context: Option<String>,
    pub created_at: i64,
}

/// A stored reference between two entities.
pub struct ReferenceRecord {
    pub id: String,
    pub from_entity_id: String,
    pub to_entity_id: String,
    pub relation_type: Option<String>,
    pub context: Option<String>,
    pub created_at: i64,
}

impl ReferenceInfo {
    pub fn from_record(r: &ReferenceRecord) -> (info: Self)
        ensures
            info.id == r.id,
            info.from_entity_id == r.from_entity_id,
            info.to_entity_id == r.to_entity_id,
            info.relation_type == r.relation_type,
            info.context == r.context,
            info.created_at == r.created_at,
    {
        ReferenceInfo {
            id: r.id.clone(),
            from_entity_id: r.from_entity_id.clone(),
            to_entity_id: r.to_entity_id.clone(),
            relation_type: clone_opt_string(&r.relation_type),
            context: clone_opt_string(&r.context),
            created_at: r.created_at,
        }
    }
}

/// A document referenced for context in a message.
pub struct ReferencedDocument {
    pub id: String,
    pub title: String,
}

/// A conversation in the sidebar.
pub struct ConversationInfo {
    pub id: String,
    pub name: Option<String>,
    pub message_count: usize,
    /// Private conversations warn before cloud models are used.
    pub is_private: bool,
    pub created_at: i64,
}

/// A stored conversation.
pub struct ConversationRecord {
    pub id: String,
    pub name: Option<String>,
    pub is_private: bool,
    pub created_at: i64,
}

impl ConversationInfo {
    /// A stored conversation with the number of turns of its view.
    pub fn from_parts(conv: &ConversationRecord, turn_count: usize) -> (r: Self)
        ensures
            r.id == conv.id,
            r.name == conv.name,
            r.message_count == turn_count,
            r.is_private == conv.is_private,
            r.created_at == conv.created_at,
    {
        ConversationInfo {
            id: conv.id.clone(),
            name: clone_opt_string(&conv.name),
            message_count: turn_count,
            is_private: conv.is_private,
            created_at: conv.created_at,
        }
    }
}

/// A view (branch) of a conversation.
pub struct ThreadInfoResponse {
    pub id: String,
    pub forked_from_view_id: Option<String>,
    pub forked_at_turn_id: Option<String>,
    pub turn_count: usize,
    pub created_at: i64,
    /// The main view is the one not forked from another.
    pub is_main: bool,
}

/// A stored view: where it forked from (view and turn), if it did.
pub struct ViewRecord {
    pub id: String,
    pub fork: Option<(String, String)>,
    pub turn_count: usize,
    pub created_at: i64,
}

impl ThreadInfoResponse {
    pub fn from_view(view: ViewRecord) -> (r: Self)
        ensures
            r.id == view.id,
            r.is_main == view.fork is None,
            view.fork matches Some((v, t)) ==> r.forked_from_view_id == Some(v) && r.forked_at_turn_id == Some(t),
            view.fork is None ==> r.forked_from_view_id is None && r.forked_at_turn_id is None,
            r.turn_count == view.turn_count,
            r.created_at == view.created_at,
    {
        let is_main = view.fork.is_none();
        let (forked_from_view_id, forked_at_turn_id) = match view.fork {
            Some((v, t)) => (Some(v), Some(t)),
            None => (None, None),
        };
        ThreadInfoResponse {
            id: view.id,
            forked_from_view_id,
            forked_at_turn_id,
            turn_count: view.turn_count,
            created_at: view.created_at,
            is_main,
        }
    }
}

/// Which user the application runs as.
pub enum UserChoice {
    /// The user with the configured e-mail (created if needed).
    ByEmail(String),
    /// No user yet: the default one is created.
    CreateDefault,
    /// The only stored user, at this position.
    Only(usize),
}

/// The user at start-up: the configured e-mail's, else the only stored
/// user, else a new default one; with several stored users and none
/// configured the choice is left to the UI (`MULTIPLE_USERS:` and their
/// e-mails, comma-separated).
pub fn choose_user(configured_email: Option<String>, stored_emails: &Vec<String>) -> (r: Result<UserChoice, String>)
    ensures
        configured_email matches Some(e) ==> (r matches Ok(UserChoice::ByEmail(x)) && x == e),
        configured_email is None && stored_emails@.len() == 0 ==> (r matches Ok(UserChoice::CreateDefault)),
        configured_email is None && stored_emails@.len() == 1 ==> (r matches Ok(UserChoice::Only(i)) && i == 0),
        configured_email is None && stored_emails@.len() > 1 ==> (r matches Err(m) && m@ == "MULTIPLE_USERS:"@
            + join_seq(stored_emails@.map_values(|e: String| e@), ","@)),
{
    match configured_email {
        Some(e) => Ok(UserChoice::ByEmail(e)),
        None => {
            if stored_emails.len() == 0 {
                Ok(UserChoice::CreateDefault)
            } else if stored_emails.len() == 1 {
                Ok(UserChoice::Only(0))
            } else {
                let mut m = to_owned_string("MULTIPLE_USERS:");
                let joined = join_strings(stored_emails, ",");
                push_str(&mut m, joined.as_str());
                Err(m)
            }
        },
    }
}

} // verus!
