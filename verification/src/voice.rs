//! Voice coordination: turns the stream of voice-agent events into chat
//! messages, buffering transcriptions while the assistant is busy.

use vstd::prelude::*;
use crate::text::{is_blank, is_blank_seq, push_char, push_str};

verus! {

/// Events produced by the voice agent.
pub enum VoiceEvent {
    ListeningStarted,
    Transcribing,
    Transcription(String),
    Error(String),
    /// Any event the coordinator does not act on (e.g. speech chunks).
    Other,
}

/// The abstract state of a [`VoiceCoordinator`].
pub ghost struct CoordinatorState {
    pub pending: Seq<Seq<char>>,
    pub listening: bool,
    pub transcribing: bool,
}

/// How one event changes the state.
pub open spec fn step(st: CoordinatorState, e: VoiceEvent) -> CoordinatorState {
    match e {
        VoiceEvent::ListeningStarted => CoordinatorState { listening: true, transcribing: false, ..st },
        VoiceEvent::Transcribing => CoordinatorState { listening: false, transcribing: true, ..st },
        VoiceEvent::Transcription(t) => CoordinatorState {
            pending: if is_blank_seq(t@) { st.pending } else { st.pending.push(t@) },
            listening: false,
            transcribing: false,
        },
        VoiceEvent::Error(_) => CoordinatorState { listening: false, transcribing: false, ..st },
        VoiceEvent::Other => st,
    }
}

/// The state after a sequence of events, applied in order.
pub open spec fn after_events(st: CoordinatorState, events: Seq<VoiceEvent>) -> CoordinatorState
    decreases events.len(),
{
    if events.len() == 0 {
        st
    } else {
        step(after_events(st, events.drop_last()), events.last())
    }
}

/// The error texts carried by a sequence of events, in order.
pub open spec fn error_texts(events: Seq<VoiceEvent>) -> Seq<Seq<char>>
    decreases events.len(),
{
    if events.len() == 0 {
        Seq::empty()
    } else {
        let prev = error_texts(events.drop_last());
        match events.last() {
            VoiceEvent::Error(e) => prev.push(e@),
            _ => prev,
        }
    }
}

/// The non-blank transcriptions carried by a sequence of events, in order.
pub open spec fn transcripts(events: Seq<VoiceEvent>) -> Seq<Seq<char>>
    decreases events.len(),
{
    if events.len() == 0 {
        Seq::empty()
    } else {
        let prev = transcripts(events.drop_last());
        match events.last() {
            VoiceEvent::Transcription(t) => if is_blank_seq(t@) {
                prev
            } else {
                prev.push(t@)
            },
            _ => prev,
        }
    }
}

/// The pieces joined with single spaces.
pub open spec fn join_spaced(parts: Seq<Seq<char>>) -> Seq<char>
    decreases parts.len(),
{
    if parts.len() == 0 {
        Seq::empty()
    } else if parts.len() == 1 {
        parts[0]
    } else {
        join_spaced(parts.drop_last()) + seq![' '] + parts.last()
    }
}

/// Joins strings with single spaces (`parts.join(" ")`).
pub fn join_with_spaces(parts: &Vec<String>) -> (r: String)
    ensures
        r@ == join_spaced(parts@.map_values(|s: String| s@)),
{
    let ghost views = parts@.map_values(|s: String| s@);
    let mut out = String::new();
    let n = parts.len();
    let mut i: usize = 0;
    while i < n
        invariant
            n == parts@.len(),
            views == parts@.map_values(|s: String| s@),
            i <= n,
            out@ == join_spaced(views.take(i as int)),
        decreases n - i,
    {
        proof {
            assert(views.take(i + 1).drop_last() =~= views.take(i as int));
            assert(views.take(i + 1).last() == parts@[i as int]@);
        }
        if i > 0 {
            push_char(&mut out, ' ');
        } else {
            assert(out@ =~= Seq::<char>::empty());
        }
        push_str(&mut out, parts[i].as_str());
        proof {
            if i == 0 {
                assert(out@ =~= views.take(1)[0]);
            }
        }
        i = i + 1;
    }
    proof {
        assert(views.take(n as int) =~= views);
    }
    out
}

/// Tracks listening/transcribing status and the transcriptions waiting to be sent.
pub struct VoiceCoordinator {
    pending_messages: Vec<String>,
    is_listening: bool,
    is_transcribing: bool,
    is_buffering: bool,
}

impl VoiceCoordinator {
    pub closed spec fn state(&self) -> CoordinatorState {
        CoordinatorState {
            pending: self.pending_messages@.map_values(|s: String| s@),
            listening: self.is_listening,
            transcribing: self.is_transcribing,
        }
    }

    pub closed spec fn buffering(&self) -> bool {
        self.is_buffering
    }

    /// A coordinator is never listening and transcribing at once.
    #[verifier::type_invariant]
    closed spec fn flags_inv(&self) -> bool {
        !(self.is_listening && self.is_transcribing)
    }

    /// A coordinator that is idle and has nothing queued.
    pub fn new() -> (r: Self)
        ensures
            r.state().pending == Seq::<Seq<char>>::empty(),
            !r.state().listening,
            !r.state().transcribing,
            !r.buffering(),
    {
        let r = VoiceCoordinator {
            pending_messages: Vec::new(),
            is_listening: false,
            is_transcribing: false,
            is_buffering: false,
        };
        assert(r.state().pending =~= Seq::<Seq<char>>::empty());
        r
    }

    pub fn is_listening(&self) -> (b: bool)
        ensures
            b == self.state().listening,
            flags_exclusive(self.state()),
    {
        proof {
            use_type_invariant(self);
        }
        self.is_listening
    }

    pub fn is_transcribing(&self) -> (b: bool)
        ensures
            b == self.state().transcribing,
            flags_exclusive(self.state()),
    {
        proof {
            use_type_invariant(self);
        }
        self.is_transcribing
    }

    pub fn is_buffering(&self) -> (b: bool)
        ensures
            b == self.buffering(),
    {
        self.is_buffering
    }

    /// Number of transcriptions waiting to be sent.
    pub fn buffered_count(&self) -> (n: usize)
        ensures
            n == self.state().pending.len(),
    {
        self.pending_messages.len()
    }

    /// Applies the events the agent produced since the last call and returns
    /// the message to send (all queued transcriptions joined with spaces) and
    /// the errors reported. While `buffering`, transcriptions are queued and
    /// nothing is returned.
    pub fn process(&mut self, buffering: bool, events: Vec<VoiceEvent>) -> (r: (
        Option<String>,
        Vec<String>,
    ))
        ensures
            ({
                let st = after_events(old(self).state(), events@);
                &&& final(self).state() == call_step(old(self).state(), buffering, events@)
                &&& flags_exclusive(final(self).state())
                &&& final(self).buffering() == buffering
                &&& final(self).state().listening == st.listening
                &&& final(self).state().transcribing == st.transcribing
                &&& r.1@.map_values(|s: String| s@) == error_texts(events@)
                &&& if !buffering && st.pending.len() > 0 {
                    &&& r.0 matches Some(m) && m@ == join_spaced(st.pending)
                    &&& final(self).state().pending == Seq::<Seq<char>>::empty()
                } else {
                    &&& r.0 is None
                    &&& final(self).state().pending == st.pending
                }
            }),
    {
        proof {
            use_type_invariant(&*self);
        }
        let ghost start = self.state();
        let mut pending: Vec<String> = Vec::new();
        std::mem::swap(&mut pending, &mut self.pending_messages);
        let mut errors: Vec<String> = Vec::new();
        self.is_buffering = buffering;
        let n = events.len();
        let mut i: usize = 0;
        proof {
            assert(events@.take(0) =~= Seq::<VoiceEvent>::empty());
        }
        while i < n
            invariant
                n == events@.len(),
                i <= n,
                self.is_buffering == buffering,
                start == old(self).state(),
                (CoordinatorState {
                    pending: pending@.map_values(|s: String| s@),
                    listening: self.is_listening,
                    transcribing: self.is_transcribing,
                }) == after_events(start, events@.take(i as int)),
                errors@.map_values(|s: String| s@) == error_texts(events@.take(i as int)),
            decreases n - i,
        {
            proof {
                use_type_invariant(&*self);
            }
            let ghost before = pending@.map_values(|s: String| s@);
            let ghost errs_before = errors@.map_values(|s: String| s@);
            proof {
                assert(events@.take(i + 1).drop_last() =~= events@.take(i as int));
                assert(events@.take(i + 1).last() == events@[i as int]);
            }
            match &events[i] {
                VoiceEvent::ListeningStarted => {
                    self.is_transcribing = false;
                    self.is_listening = true;
                },
                VoiceEvent::Transcribing => {
                    self.is_listening = false;
                    self.is_transcribing = true;
                },
                VoiceEvent::Transcription(text) => {
                    self.is_listening = false;
                    self.is_transcribing = false;
                    if !is_blank(text.as_str()) {
                        pending.push(text.clone());
                        assert(pending@.map_values(|s: String| s@) =~= before.push(text@));
                    }
                },
                VoiceEvent::Error(e) => {
                    self.is_listening = false;
                    self.is_transcribing = false;
                    errors.push(e.clone());
                    assert(errors@.map_values(|s: String| s@) =~= errs_before.push(e@));
                },
                VoiceEvent::Other => {},
            }
            i = i + 1;
        }
        proof {
            assert(events@.take(n as int) =~= events@);
            use_type_invariant(&*self);
        }
        let message = if !buffering && pending.len() > 0 {
            let combined = join_with_spaces(&pending);
            self.pending_messages = Vec::new();
            assert(self.state().pending =~= Seq::<Seq<char>>::empty());
            Some(combined)
        } else {
            self.pending_messages = pending;
            None
        };
        proof {
            if !buffering {
                assert(self.state().pending =~= Seq::<Seq<char>>::empty());
            }
            assert(self.state() == call_step(old(self).state(), buffering, events@));
        }
        (message, errors)
    }
}

/// Every non-blank transcription is queued once, in the order it arrived,
/// and nothing else is queued: after any events the queue is the old queue
/// followed by the new transcriptions.
pub proof fn lemma_pending_is_transcripts(st: CoordinatorState, events: Seq<VoiceEvent>)
    ensures
        after_events(st, events).pending == st.pending + transcripts(events),
    decreases events.len(),
{
    if events.len() == 0 {
        assert(st.pending + Seq::<Seq<char>>::empty() =~= st.pending);
    } else {
        lemma_pending_is_transcripts(st, events.drop_last());
        let prev = after_events(st, events.drop_last());
        match events.last() {
            VoiceEvent::Transcription(t) => {
                if !is_blank_seq(t@) {
                    assert(prev.pending.push(t@) =~= st.pending + transcripts(
                        events.drop_last(),
                    ).push(t@));
                }
            },
            _ => {},
        }
    }
}

/// Handling events in two batches is the same as handling them in one.
pub proof fn lemma_after_events_concat(
    st: CoordinatorState,
    e1: Seq<VoiceEvent>,
    e2: Seq<VoiceEvent>,
)
    ensures
        after_events(after_events(st, e1), e2) == after_events(st, e1 + e2),
    decreases e2.len(),
{
    if e2.len() == 0 {
        assert(e1 + e2 =~= e1);
    } else {
        lemma_after_events_concat(st, e1, e2.drop_last());
        assert((e1 + e2).drop_last() =~= e1 + e2.drop_last());
        assert((e1 + e2).last() == e2.last());
    }
}

/// Listening and transcribing are never both on.
pub open spec fn flags_exclusive(st: CoordinatorState) -> bool {
    !(st.listening && st.transcribing)
}

/// Whether an event sets the listening and transcribing flags.
pub open spec fn sets_flags(e: VoiceEvent) -> bool {
    !(e is Other)
}

/// The flags an event sets: listening after `ListeningStarted`,
/// transcribing after `Transcribing`, neither after a transcription or an
/// error.
pub open spec fn flags_of(e: VoiceEvent) -> (bool, bool) {
    match e {
        VoiceEvent::ListeningStarted => (true, false),
        VoiceEvent::Transcribing => (false, true),
        _ => (false, false),
    }
}

/// The last event that sets the flags, if any.
pub open spec fn last_flag_setter(events: Seq<VoiceEvent>) -> Option<VoiceEvent>
    decreases events.len(),
{
    if events.len() == 0 {
        None
    } else if sets_flags(events.last()) {
        Some(events.last())
    } else {
        last_flag_setter(events.drop_last())
    }
}

/// The flags follow the last event that sets them, and stay as they were
/// when no event sets them; so, from a state where they are not both on,
/// listening and transcribing are never both on.
pub proof fn lemma_flags_follow_last_event(st: CoordinatorState, events: Seq<VoiceEvent>)
    ensures
        match last_flag_setter(events) {
            Some(e) => (after_events(st, events).listening, after_events(st, events).transcribing)
                == flags_of(e),
            None => after_events(st, events).listening == st.listening && after_events(st, events).transcribing
                == st.transcribing,
        },
        flags_exclusive(st) ==> flags_exclusive(after_events(st, events)),
    decreases events.len(),
{
    if events.len() > 0 {
        lemma_flags_follow_last_event(st, events.drop_last());
    }
}

/// The state after a call of [`VoiceCoordinator::process`] with these
/// arguments: the events applied, then, unless buffering, the queue sent and
/// emptied.
pub open spec fn call_step(st: CoordinatorState, buffering: bool, events: Seq<VoiceEvent>) -> CoordinatorState {
    let after = after_events(st, events);
    if buffering {
        after
    } else {
        CoordinatorState { pending: Seq::empty(), ..after }
    }
}

/// The state after a sequence of `process` calls `(buffering, events)`.
pub open spec fn after_calls(st: CoordinatorState, calls: Seq<(bool, Seq<VoiceEvent>)>) -> CoordinatorState
    decreases calls.len(),
{
    if calls.len() == 0 {
        st
    } else {
        call_step(after_calls(st, calls.drop_last()), calls.last().0, calls.last().1)
    }
}

/// The non-blank transcriptions of the calls since the last call that was
/// not buffering (all of them when there is none), in order.
pub open spec fn transcripts_since_flush(calls: Seq<(bool, Seq<VoiceEvent>)>) -> Seq<Seq<char>>
    decreases calls.len(),
{
    if calls.len() == 0 {
        Seq::empty()
    } else if !calls.last().0 {
        Seq::empty()
    } else {
        transcripts_since_flush(calls.drop_last()) + transcripts(calls.last().1)
    }
}

/// Whether some call was not buffering.
pub open spec fn some_flush(calls: Seq<(bool, Seq<VoiceEvent>)>) -> bool {
    exists|i: int| 0 <= i < calls.len() && !(#[trigger] calls[i]).0
}

/// Over any sequence of `process` calls, the queue holds exactly the
/// non-blank transcriptions received since the last call that was not
/// buffering (after the old queue, when every call was buffering); in
/// particular it is empty right after a call that is not buffering, and
/// `buffered_count` is the number of those transcriptions.
pub proof fn lemma_queue_since_flush(st: CoordinatorState, calls: Seq<(bool, Seq<VoiceEvent>)>)
    ensures
        some_flush(calls) ==> after_calls(st, calls).pending == transcripts_since_flush(calls),
        !some_flush(calls) ==> after_calls(st, calls).pending == st.pending + transcripts_since_flush(calls),
        calls.len() > 0 && !calls.last().0 ==> after_calls(st, calls).pending.len() == 0,
    decreases calls.len(),
{
    if calls.len() > 0 {
        let n = calls.len() - 1;
        let rest = calls.drop_last();
        let last = calls.last();
        lemma_queue_since_flush(st, rest);
        lemma_pending_is_transcripts(after_calls(st, rest), last.1);
        assert(last == calls[n]);
        assert forall|j: int| 0 <= j < n implies #[trigger] calls[j] == rest[j] by {}
        if last.0 {
            if some_flush(rest) {
                let i = choose|i: int| 0 <= i < rest.len() && !(#[trigger] rest[i]).0;
                assert(calls[i] == rest[i]);
            }
            if some_flush(calls) && !some_flush(rest) {
                let i = choose|i: int| 0 <= i < calls.len() && !(#[trigger] calls[i]).0;
                assert(i < n);
                assert(calls[i] == rest[i]);
            }
            assert(st.pending + transcripts_since_flush(rest) + transcripts(last.1) =~= st.pending + (
            transcripts_since_flush(rest) + transcripts(last.1)));
        } else {
            assert(!calls[n].0);
        }
    }
}

/// The voice state shown in the UI.
#[derive(PartialEq, Eq, Structural, Clone, Copy, Debug)]
pub enum VoiceStatus {
    Disabled,
    Enabled,
    Listening,
    Transcribing,
}

impl VoiceStatus {
    /// The status string the UI receives.
    pub fn name(&self) -> (r: &'static str)
        ensures
            *self == VoiceStatus::Disabled ==> r@ == "disabled"@,
            *self == VoiceStatus::Enabled ==> r@ == "enabled"@,
            *self == VoiceStatus::Listening ==> r@ == "listening"@,
            *self == VoiceStatus::Transcribing ==> r@ == "transcribing"@,
    {
        match self {
            VoiceStatus::Disabled => "disabled",
            VoiceStatus::Enabled => "enabled",
            VoiceStatus::Listening => "listening",
            VoiceStatus::Transcribing => "transcribing",
        }
    }
}

/// The status for a coordinator's flags: listening wins over transcribing.
pub open spec fn status_of(st: CoordinatorState) -> VoiceStatus {
    if st.listening {
        VoiceStatus::Listening
    } else if st.transcribing {
        VoiceStatus::Transcribing
    } else {
        VoiceStatus::Enabled
    }
}

/// Status of voice input: disabled without a coordinator, else from its flags.
pub fn voice_status(coordinator: Option<&VoiceCoordinator>) -> (r: VoiceStatus)
    ensures
        r == match coordinator {
            None => VoiceStatus::Disabled,
            Some(c) => status_of(c.state()),
        },
{
    match coordinator {
        None => VoiceStatus::Disabled,
        Some(c) => if c.is_listening() {
            VoiceStatus::Listening
        } else if c.is_transcribing() {
            VoiceStatus::Transcribing
        } else {
            VoiceStatus::Enabled
        },
    }
}

/// What one pass of the voice polling loop reports.
pub struct VoicePoll {
    /// Status from the flags as they were before this pass's events.
    pub status: VoiceStatus,
    pub message: Option<String>,
    pub errors: Vec<String>,
}

/// One pass of the voice loop: report the current status, then process the
/// new events, buffering while a reply is being generated.
pub fn poll_voice(coordinator: &mut VoiceCoordinator, is_processing: bool, events: Vec<VoiceEvent>) -> (r: VoicePoll)
    ensures
        r.status == status_of(old(coordinator).state()),
        ({
            let st = after_events(old(coordinator).state(), events@);
            &&& final(coordinator).buffering() == is_processing
            &&& final(coordinator).state().listening == st.listening
            &&& final(coordinator).state().transcribing == st.transcribing
            &&& r.errors@.map_values(|s: String| s@) == error_texts(events@)
            &&& if !is_processing && st.pending.len() > 0 {
                &&& r.message matches Some(m) && m@ == join_spaced(st.pending)
                &&& final(coordinator).state().pending == Seq::<Seq<char>>::empty()
            } else {
                &&& r.message is None
                &&& final(coordinator).state().pending == st.pending
            }
        }),
{
    let status = voice_status(Some(&*coordinator));
    let (message, errors) = coordinator.process(is_processing, events);
    VoicePoll { status, message, errors }
}

/// Events of the daemon's voice stream.
pub enum DaemonVoiceEvent {
    Listening,
    Transcribing,
    UserTranscript(String),
    ModelTranscript(String),
    Audio,
    TurnEnd,
    Error(String),
}

/// A UI notification: `voice_status`, `voice_transcription` or `voice_error`.
pub enum VoiceEmit {
    Status(VoiceStatus),
    Transcription(String),
    Error(String),
}

/// The UI notifications for one daemon voice event, in the order they are sent.
pub fn daemon_voice_emits(event: DaemonVoiceEvent) -> (r: Vec<VoiceEmit>)
    ensures
        match event {
            DaemonVoiceEvent::Listening => r@.len() == 1 && r@[0] == VoiceEmit::Status(VoiceStatus::Listening),
            DaemonVoiceEvent::Transcribing => r@.len() == 1 && r@[0] == VoiceEmit::Status(VoiceStatus::Transcribing),
            DaemonVoiceEvent::UserTranscript(t) => r@.len() == 2 && r@[0] == VoiceEmit::Status(
                VoiceStatus::Enabled,
            ) && r@[1] == VoiceEmit::Transcription(t),
            DaemonVoiceEvent::ModelTranscript(_) => r@.len() == 0,
            DaemonVoiceEvent::Audio => r@.len() == 0,
            DaemonVoiceEvent::TurnEnd => r@.len() == 1 && r@[0] == VoiceEmit::Status(VoiceStatus::Enabled),
            DaemonVoiceEvent::Error(e) => r@.len() == 2 && r@[0] == VoiceEmit::Error(e) && r@[1]
                == VoiceEmit::Status(VoiceStatus::Enabled),
        },
{
    let mut r: Vec<VoiceEmit> = Vec::new();
    match event {
        DaemonVoiceEvent::Listening => r.push(VoiceEmit::Status(VoiceStatus::Listening)),
        DaemonVoiceEvent::Transcribing => r.push(VoiceEmit::Status(VoiceStatus::Transcribing)),
        DaemonVoiceEvent::UserTranscript(t) => {
            r.push(VoiceEmit::Status(VoiceStatus::Enabled));
            r.push(VoiceEmit::Transcription(t));
        },
        DaemonVoiceEvent::ModelTranscript(_) => {},
        DaemonVoiceEvent::Audio => {},
        DaemonVoiceEvent::TurnEnd => r.push(VoiceEmit::Status(VoiceStatus::Enabled)),
        DaemonVoiceEvent::Error(e) => {
            r.push(VoiceEmit::Error(e));
            r.push(VoiceEmit::Status(VoiceStatus::Enabled));
        },
    }
    r
}

} // verus!
