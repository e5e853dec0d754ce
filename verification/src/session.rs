//! Per-conversation processing flags kept by the application.

use vstd::prelude::*;
use crate::strmap::StringMap;
use crate::text::to_owned_string;

verus! {

/// Which conversations are generating a reply, and which one voice input feeds.
pub struct ProcessingState {
    processing: StringMap<bool>,
    voice_conversation: Option<String>,
}

impl ProcessingState {
    pub closed spec fn flags(&self) -> Map<Seq<char>, bool> {
        self.processing.view_map()
    }

    pub closed spec fn voice_target(&self) -> Option<Seq<char>> {
        match self.voice_conversation {
            Some(c) => Some(c@),
            None => None,
        }
    }

    pub closed spec fn wf(&self) -> bool {
        self.processing.wf()
    }

    pub fn new() -> (r: Self)
        ensures
            r.wf(),
            r.flags() == Map::<Seq<char>, bool>::empty(),
            r.voice_target() is None,
    {
        ProcessingState { processing: StringMap::new(), voice_conversation: None }
    }

    /// Whether a conversation is generating; unknown conversations are not.
    pub fn is_processing(&self, conversation_id: &String) -> (b: bool)
        requires
            self.wf(),
        ensures
            b == (self.flags().dom().contains(conversation_id@) && self.flags()[conversation_id@]),
    {
        match self.processing.get(conversation_id) {
            Some(v) => *v,
            None => false,
        }
    }

    pub fn set_processing(&mut self, conversation_id: String, processing: bool)
        requires
            old(self).wf(),
        ensures
            final(self).wf(),
            final(self).flags() == old(self).flags().insert(conversation_id@, processing),
            final(self).voice_target() == old(self).voice_target(),
    {
        self.processing.insert(conversation_id, processing);
    }

    /// Whether the conversation voice input goes to is generating.
    pub fn is_voice_conversation_processing(&self) -> (b: bool)
        requires
            self.wf(),
        ensures
            b == (self.voice_target() matches Some(c) && self.flags().dom().contains(c) && self.flags()[c]),
    {
        match &self.voice_conversation {
            Some(c) => self.is_processing(c),
            None => false,
        }
    }

    pub fn set_voice_conversation(&mut self, conversation_id: Option<String>)
        requires
            old(self).wf(),
        ensures
            final(self).wf(),
            final(self).flags() == old(self).flags(),
            final(self).voice_target() == match conversation_id {
                Some(c) => Some(c@),
                None => None::<Seq<char>>,
            },
    {
        self.voice_conversation = conversation_id;
    }
}

/// How many times a command waiting for the daemon's initialization looks
/// for what it needs.
pub const INIT_POLL_LIMIT: u32 = 300;

/// The pause between two looks, in milliseconds (a 30 s budget in all).
pub const INIT_POLL_INTERVAL_MS: u64 = 100;

/// What a command waiting for the daemon's initialization does next.
pub enum InitPoll<T> {
    /// The value is there: answer with it.
    Ready(T),
    /// Not yet: wait this many milliseconds and look again.
    Wait(u64),
    /// The budget is spent: answer with this error.
    TimedOut(String),
}

/// One look of a command waiting for initialization (the daemon's base URL,
/// the admin user): `attempt` looks were made before this one, `value` is
/// what initialization has set so far. Up to [`INIT_POLL_LIMIT`] looks are
/// made, [`INIT_POLL_INTERVAL_MS`] apart; after the last pause the command
/// fails with `Daemon init timed out` without looking again.
pub fn init_poll<T>(attempt: u32, value: Option<T>) -> (r: InitPoll<T>)
    ensures
        attempt >= INIT_POLL_LIMIT ==> (r matches InitPoll::TimedOut(e) && e@ == "Daemon init timed out"@),
        attempt < INIT_POLL_LIMIT ==> match value {
            Some(v) => r == InitPoll::Ready(v),
            None => r == InitPoll::<T>::Wait(INIT_POLL_INTERVAL_MS),
        },
{
    if attempt >= INIT_POLL_LIMIT {
        return InitPoll::TimedOut(to_owned_string("Daemon init timed out"));
    }
    match value {
        Some(v) => InitPoll::Ready(v),
        None => InitPoll::Wait(INIT_POLL_INTERVAL_MS),
    }
}

} // verus!
