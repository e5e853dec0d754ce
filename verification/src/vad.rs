//! Voice activity detection as a state machine over audio chunks.
//!
//! The caller decides, per chunk, whether it holds speech (an energy test on
//! the samples) and supplies a millisecond clock; the detector confirms the
//! start of speech after it has lasted long enough, streams speech chunks,
//! and ends an utterance after enough silence, handing back every sample
//! gathered since speech was first suspected.

use vstd::prelude::*;

verus! {

#[derive(PartialEq, Eq, Structural, Clone, Copy, Debug)]
pub enum VadState {
    Silence,
    PossibleSpeech,
    Speech,
    PossibleSilence,
}

/// A stretch of audio and the time it was produced.
pub struct AudioSegment<T> {
    pub timestamp_ms: u64,
    pub audio_data: Vec<T>,
}

impl<T> AudioSegment<T> {
    pub fn new(timestamp_ms: u64, audio_data: Vec<T>) -> (r: Self)
        ensures
            r.timestamp_ms == timestamp_ms,
            r.audio_data@ == audio_data@,
    {
        AudioSegment { timestamp_ms, audio_data }
    }
}

/// What the detector reports for a chunk.
pub enum SpeechEvent<T> {
    SpeechStart { timestamp_ms: u64 },
    SpeechEnd(AudioSegment<T>),
    SpeechChunk(AudioSegment<T>),
}

/// Abstract view of a reported event.
pub ghost enum SpeechEventView<T> {
    SpeechStart(u64),
    SpeechEnd(u64, Seq<T>),
    SpeechChunk(u64, Seq<T>),
}

impl<T> SpeechEvent<T> {
    pub open spec fn view_event(self) -> SpeechEventView<T> {
        match self {
            SpeechEvent::SpeechStart { timestamp_ms } => SpeechEventView::SpeechStart(timestamp_ms),
            SpeechEvent::SpeechEnd(s) => SpeechEventView::SpeechEnd(s.timestamp_ms, s.audio_data@),
            SpeechEvent::SpeechChunk(s) => SpeechEventView::SpeechChunk(s.timestamp_ms, s.audio_data@),
        }
    }
}

/// Abstract state of the detector.
pub ghost struct VadView<T> {
    pub state: VadState,
    pub state_start_ms: u64,
    pub accumulated: Seq<T>,
    pub silence_duration_ms: u64,
    pub speech_duration_ms: u64,
}

/// Time since `start`, zero if the clock is behind it.
pub open spec fn elapsed(start: u64, now: u64) -> int {
    if now >= start {
        now - start
    } else {
        0
    }
}

/// One step of the detector: the new state and the event for this chunk.
pub open spec fn vad_step<T>(v: VadView<T>, is_speech: bool, now: u64, samples: Seq<T>) -> (
    VadView<T>,
    Option<SpeechEventView<T>>,
) {
    let e = elapsed(v.state_start_ms, now);
    match v.state {
        VadState::Silence => if is_speech {
            (VadView { state: VadState::PossibleSpeech, state_start_ms: now, accumulated: samples, ..v }, None)
        } else {
            (v, None)
        },
        VadState::PossibleSpeech => {
            let acc = v.accumulated + samples;
            if is_speech && e >= v.speech_duration_ms {
                (
                    VadView { state: VadState::Speech, state_start_ms: now, accumulated: acc, ..v },
                    Some(SpeechEventView::SpeechStart(now)),
                )
            } else if !is_speech {
                (VadView { state: VadState::Silence, state_start_ms: now, accumulated: acc, ..v }, None)
            } else {
                (VadView { accumulated: acc, ..v }, None)
            }
        },
        VadState::Speech => {
            let acc = v.accumulated + samples;
            if !is_speech {
                (
                    VadView { state: VadState::PossibleSilence, state_start_ms: now, accumulated: acc, ..v },
                    Some(SpeechEventView::SpeechChunk(now, samples)),
                )
            } else {
                (VadView { accumulated: acc, ..v }, Some(SpeechEventView::SpeechChunk(now, samples)))
            }
        },
        VadState::PossibleSilence => {
            let acc = v.accumulated + samples;
            if is_speech {
                (
                    VadView { state: VadState::Speech, state_start_ms: now, accumulated: acc, ..v },
                    Some(SpeechEventView::SpeechChunk(now, samples)),
                )
            } else if e >= v.silence_duration_ms {
                (
                    VadView {
                        state: VadState::Silence,
                        state_start_ms: now,
                        accumulated: Seq::empty(),
                        ..v
                    },
                    Some(SpeechEventView::SpeechEnd(now, acc)),
                )
            } else {
                (VadView { accumulated: acc, ..v }, None)
            }
        },
    }
}

/// Appends a slice to a vector, element by element.
fn append_samples<T: Copy>(acc: &mut Vec<T>, samples: &[T])
    ensures
        final(acc)@ == old(acc)@ + samples@,
{
    let n = samples.len();
    let mut i: usize = 0;
    while i < n
        invariant
            n == samples@.len(),
            i <= n,
            acc@ == old(acc)@ + samples@.take(i as int),
        decreases n - i,
    {
        acc.push(samples[i]);
        proof {
            assert(old(acc)@ + samples@.take(i + 1) =~= (old(acc)@ + samples@.take(i as int)).push(
                samples@[i as int],
            ));
        }
        i = i + 1;
    }
    proof {
        assert(samples@.take(n as int) =~= samples@);
    }
}

fn copy_samples<T: Copy>(samples: &[T]) -> (r: Vec<T>)
    ensures
        r@ == samples@,
{
    let mut r: Vec<T> = Vec::new();
    append_samples(&mut r, samples);
    assert(Seq::<T>::empty() + samples@ =~= samples@);
    r
}

/// Detects the start and end of speech in a stream of audio chunks.
pub struct VoiceActivityDetector<T> {
    silence_duration_ms: u64,
    speech_duration_ms: u64,
    current_state: VadState,
    state_start_ms: u64,
    accumulated_audio: Vec<T>,
}

impl<T: Copy> VoiceActivityDetector<T> {
    pub closed spec fn view_vad(&self) -> VadView<T> {
        VadView {
            state: self.current_state,
            state_start_ms: self.state_start_ms,
            accumulated: self.accumulated_audio@,
            silence_duration_ms: self.silence_duration_ms,
            speech_duration_ms: self.speech_duration_ms,
        }
    }

    /// A detector in silence that confirms speech after 200 ms and ends it
    /// after 500 ms of silence.
    pub fn new(now_ms: u64) -> (r: Self)
        ensures
            r.view_vad().state == VadState::Silence,
            r.view_vad().state_start_ms == now_ms,
            r.view_vad().accumulated == Seq::<T>::empty(),
            r.view_vad().silence_duration_ms == 500,
            r.view_vad().speech_duration_ms == 200,
    {
        VoiceActivityDetector {
            silence_duration_ms: 500,
            speech_duration_ms: 200,
            current_state: VadState::Silence,
            state_start_ms: now_ms,
            accumulated_audio: Vec::new(),
        }
    }

    pub fn state(&self) -> (s: VadState)
        ensures
            s == self.view_vad().state,
    {
        self.current_state
    }

    fn transition_to(&mut self, new_state: VadState, now_ms: u64)
        ensures
            final(self).view_vad() == (VadView {
                state: new_state,
                state_start_ms: now_ms,
                ..old(self).view_vad()
            }),
    {
        self.current_state = new_state;
        self.state_start_ms = now_ms;
    }

    /// Feeds one chunk; `is_speech` says whether the chunk's energy is above
    /// the threshold and `now_ms` is the current time.
    pub fn process_samples(&mut self, is_speech: bool, now_ms: u64, samples: &[T]) -> (r: Option<SpeechEvent<T>>)
        ensures
            ({
                let (v, ev) = vad_step(old(self).view_vad(), is_speech, now_ms, samples@);
                &&& final(self).view_vad() == v
                &&& match r {
                    None => ev is None,
                    Some(e) => ev == Some(e.view_event()),
                }
            }),
    {
        let elapsed_ms: u64 = if now_ms >= self.state_start_ms {
            now_ms - self.state_start_ms
        } else {
            0
        };
        match self.current_state {
            VadState::Silence => {
                if is_speech {
                    self.transition_to(VadState::PossibleSpeech, now_ms);
                    self.accumulated_audio = copy_samples(samples);
                }
                None
            },
            VadState::PossibleSpeech => {
                append_samples(&mut self.accumulated_audio, samples);
                if is_speech && elapsed_ms >= self.speech_duration_ms {
                    self.transition_to(VadState::Speech, now_ms);
                    Some(SpeechEvent::SpeechStart { timestamp_ms: now_ms })
                } else if !is_speech {
                    self.transition_to(VadState::Silence, now_ms);
                    None
                } else {
                    None
                }
            },
            VadState::Speech => {
                append_samples(&mut self.accumulated_audio, samples);
                if !is_speech {
                    self.transition_to(VadState::PossibleSilence, now_ms);
                }
                Some(SpeechEvent::SpeechChunk(AudioSegment::new(now_ms, copy_samples(samples))))
            },
            VadState::PossibleSilence => {
                append_samples(&mut self.accumulated_audio, samples);
                if is_speech {
                    self.transition_to(VadState::Speech, now_ms);
                    Some(SpeechEvent::SpeechChunk(AudioSegment::new(now_ms, copy_samples(samples))))
                } else if elapsed_ms >= self.silence_duration_ms {
                    let mut raw_audio: Vec<T> = Vec::new();
                    std::mem::swap(&mut raw_audio, &mut self.accumulated_audio);
                    self.transition_to(VadState::Silence, now_ms);
                    Some(SpeechEvent::SpeechEnd(AudioSegment::new(now_ms, raw_audio)))
                } else {
                    None
                }
            },
        }
    }
}

/// The detector state after feeding chunks `(is_speech, now_ms, samples)` in order.
pub open spec fn vad_run<T>(v: VadView<T>, inputs: Seq<(bool, u64, Seq<T>)>) -> VadView<T>
    decreases inputs.len(),
{
    if inputs.len() == 0 {
        v
    } else {
        let last = inputs.last();
        vad_step(vad_run(v, inputs.drop_last()), last.0, last.1, last.2).0
    }
}

/// All samples of the chunks, in order.
pub open spec fn concat_samples<T>(inputs: Seq<(bool, u64, Seq<T>)>) -> Seq<T>
    decreases inputs.len(),
{
    if inputs.len() == 0 {
        Seq::empty()
    } else {
        concat_samples(inputs.drop_last()) + inputs.last().2
    }
}

/// An utterance is never cut: starting in silence with a speech chunk, as long
/// as the detector has not fallen back to silence it holds every sample fed
/// since, and the audio of a `SpeechEnd` is exactly all those samples.
pub proof fn lemma_utterance_audio<T>(v: VadView<T>, inputs: Seq<(bool, u64, Seq<T>)>)
    requires
        v.state == VadState::Silence,
        inputs.len() >= 1,
        inputs[0].0,
        forall|k: int| 1 <= k < inputs.len() ==> #[trigger] vad_run(v, inputs.take(k)).state != VadState::Silence,
    ensures
        vad_run(v, inputs).state != VadState::Silence ==> vad_run(v, inputs).accumulated
            == concat_samples(inputs),
        ({
            let last = inputs.last();
            let ev = vad_step(vad_run(v, inputs.drop_last()), last.0, last.1, last.2).1;
            ev matches Some(SpeechEventView::SpeechEnd(_, a)) ==> a == concat_samples(inputs)
        }),
    decreases inputs.len(),
{
    let prefix = inputs.drop_last();
    if inputs.len() == 1 {
        assert(prefix =~= Seq::<(bool, u64, Seq<T>)>::empty());
        assert(inputs.last() == inputs[0]);
        assert(concat_samples(prefix) == Seq::<T>::empty());
        assert(concat_samples(inputs) == concat_samples(prefix) + inputs[0].2);
        assert(concat_samples(inputs) =~= inputs[0].2);
    } else {
        assert forall|k: int| 1 <= k < prefix.len() implies #[trigger] vad_run(v, prefix.take(k)).state
            != VadState::Silence by {
            assert(prefix.take(k) =~= inputs.take(k));
        }
        assert(prefix[0] == inputs[0]);
        lemma_utterance_audio(v, prefix);
        assert(inputs.take(prefix.len() as int) =~= prefix);
        assert(vad_run(v, prefix).state != VadState::Silence);
    }
}

/// The events a run reports, in order.
pub open spec fn vad_events<T>(v: VadView<T>, inputs: Seq<(bool, u64, Seq<T>)>) -> Seq<SpeechEventView<T>>
    decreases inputs.len(),
{
    if inputs.len() == 0 {
        Seq::empty()
    } else {
        let last = inputs.last();
        let prev = vad_events(v, inputs.drop_last());
        match vad_step(vad_run(v, inputs.drop_last()), last.0, last.1, last.2).1 {
            Some(e) => prev.push(e),
            None => prev,
        }
    }
}

/// Whether a sequence of events reads as utterances, each a `SpeechStart`,
/// any number of `SpeechChunk`s and a `SpeechEnd`, the last one possibly
/// still open: `Some(open)` with `open` telling whether the last utterance
/// is still open, `None` when the events do not read so.
pub open spec fn utterances_open<T>(events: Seq<SpeechEventView<T>>) -> Option<bool>
    decreases events.len(),
{
    if events.len() == 0 {
        Some(false)
    } else {
        match utterances_open(events.drop_last()) {
            None => None,
            Some(open) => match events.last() {
                SpeechEventView::SpeechStart(_) => if !open { Some(true) } else { None },
                SpeechEventView::SpeechChunk(_, _) => if open { Some(true) } else { None },
                SpeechEventView::SpeechEnd(_, _) => if open { Some(false) } else { None },
            },
        }
    }
}

/// The detector is inside an utterance: speech was confirmed and has not
/// ended yet.
pub open spec fn in_utterance(s: VadState) -> bool {
    s == VadState::Speech || s == VadState::PossibleSilence
}

/// The events of any run of a detector that starts in silence read as
/// utterances (`SpeechStart SpeechChunk* SpeechEnd`)*, followed by at most
/// one utterance still open (`SpeechStart SpeechChunk*`), and the utterance
/// is open exactly while the detector is in speech or possible silence.
pub proof fn lemma_event_order<T>(v: VadView<T>, inputs: Seq<(bool, u64, Seq<T>)>)
    requires
        v.state == VadState::Silence,
    ensures
        utterances_open(vad_events(v, inputs)) == Some(in_utterance(vad_run(v, inputs).state)),
    decreases inputs.len(),
{
    if inputs.len() > 0 {
        let rest = inputs.drop_last();
        lemma_event_order(v, rest);
        let last = inputs.last();
        let prev = vad_run(v, rest);
        let evs = vad_events(v, rest);
        let step = vad_step(prev, last.0, last.1, last.2);
        assert(vad_run(v, inputs) == step.0);
        match step.1 {
            Some(e) => {
                assert(vad_events(v, inputs) == evs.push(e));
                assert(evs.push(e).drop_last() =~= evs);
                assert(evs.push(e).last() == e);
            },
            None => {
                assert(vad_events(v, inputs) == evs);
            },
        }
    }
}

/// Where a run stands in a phase that waits for time to pass: in possible
/// speech, since call `k` left silence with a speech chunk and every chunk
/// since was speech; in possible silence, since call `k` left speech with a
/// silent chunk and every chunk since was silent. The durations never
/// change.
proof fn lemma_phase_start<T>(v: VadView<T>, inputs: Seq<(bool, u64, Seq<T>)>)
    requires
        v.state == VadState::Silence,
    ensures
        vad_run(v, inputs).speech_duration_ms == v.speech_duration_ms,
        vad_run(v, inputs).silence_duration_ms == v.silence_duration_ms,
        vad_run(v, inputs).state == VadState::PossibleSpeech ==> exists|k: int|
            0 <= k < inputs.len() && #[trigger] vad_run(v, inputs.take(k)).state == VadState::Silence
                && inputs[k].0 && vad_run(v, inputs).state_start_ms == inputs[k].1 && forall|j: int|
                k <= j < inputs.len() ==> (#[trigger] inputs[j]).0,
        vad_run(v, inputs).state == VadState::PossibleSilence ==> exists|k: int|
            0 <= k < inputs.len() && #[trigger] vad_run(v, inputs.take(k)).state == VadState::Speech
                && !inputs[k].0 && vad_run(v, inputs).state_start_ms == inputs[k].1 && forall|j: int|
                k <= j < inputs.len() ==> !(#[trigger] inputs[j]).0,
    decreases inputs.len(),
{
    if inputs.len() > 0 {
        let n = inputs.len() - 1;
        let rest = inputs.drop_last();
        lemma_phase_start(v, rest);
        let prev = vad_run(v, rest);
        let last = inputs.last();
        assert(inputs.take(n) =~= rest);
        assert(last == inputs[n]);
        assert forall|k: int| 0 <= k <= n implies #[trigger] inputs.take(k) == rest.take(k) by {
            assert(inputs.take(k) =~= rest.take(k));
        }
        assert forall|j: int| 0 <= j < n implies #[trigger] inputs[j] == rest[j] by {}
        let now = vad_run(v, inputs);
        if now.state == VadState::PossibleSpeech {
            if prev.state == VadState::Silence {
                assert(vad_run(v, inputs.take(n)).state == VadState::Silence);
            } else {
                let k = choose|k: int|
                    0 <= k < rest.len() && #[trigger] vad_run(v, rest.take(k)).state == VadState::Silence
                        && rest[k].0 && prev.state_start_ms == rest[k].1 && forall|j: int|
                        k <= j < rest.len() ==> (#[trigger] rest[j]).0;
                assert(vad_run(v, inputs.take(k)).state == VadState::Silence);
                assert(inputs[k] == rest[k]);
            }
        }
        if now.state == VadState::PossibleSilence {
            if prev.state == VadState::Speech {
                assert(vad_run(v, inputs.take(n)).state == VadState::Speech);
            } else {
                let k = choose|k: int|
                    0 <= k < rest.len() && #[trigger] vad_run(v, rest.take(k)).state == VadState::Speech
                        && !rest[k].0 && prev.state_start_ms == rest[k].1 && forall|j: int|
                        k <= j < rest.len() ==> !(#[trigger] rest[j]).0;
                assert(vad_run(v, inputs.take(k)).state == VadState::Speech);
                assert(inputs[k] == rest[k]);
            }
        }
    }
}

/// When speech starts and ends, over any run from silence: a `SpeechStart`
/// comes from a speech chunk at least `speech_duration_ms` after the call
/// `k` that left silence, every chunk from `k` on having been speech; a
/// `SpeechEnd` comes from a silent chunk at least `silence_duration_ms`
/// after the call `k` whose chunk fell silent during speech, every chunk
/// from `k` on having been silent.
pub proof fn lemma_event_timing<T>(v: VadView<T>, inputs: Seq<(bool, u64, Seq<T>)>)
    requires
        v.state == VadState::Silence,
        inputs.len() > 0,
    ensures
        ({
            let last = inputs.last();
            vad_step(vad_run(v, inputs.drop_last()), last.0, last.1, last.2).1 matches Some(
                SpeechEventView::SpeechStart(_),
            ) ==> exists|k: int|
                0 <= k < inputs.len() - 1 && #[trigger] vad_run(v, inputs.take(k)).state == VadState::Silence
                    && elapsed(inputs[k].1, last.1) >= v.speech_duration_ms && forall|j: int|
                    k <= j < inputs.len() ==> (#[trigger] inputs[j]).0
        }),
        ({
            let last = inputs.last();
            vad_step(vad_run(v, inputs.drop_last()), last.0, last.1, last.2).1 matches Some(
                SpeechEventView::SpeechEnd(_, _),
            ) ==> exists|k: int|
                0 <= k < inputs.len() - 1 && #[trigger] vad_run(v, inputs.take(k)).state == VadState::Speech
                    && elapsed(inputs[k].1, last.1) >= v.silence_duration_ms && forall|j: int|
                    k <= j < inputs.len() ==> !(#[trigger] inputs[j]).0
        }),
{
    let n = inputs.len() - 1;
    let rest = inputs.drop_last();
    let last = inputs.last();
    lemma_phase_start(v, rest);
    let prev = vad_run(v, rest);
    assert(last == inputs[n]);
    assert forall|k: int| 0 <= k <= n implies #[trigger] inputs.take(k) == rest.take(k) by {
        assert(inputs.take(k) =~= rest.take(k));
    }
    assert forall|j: int| 0 <= j < n implies #[trigger] inputs[j] == rest[j] by {}
    let ev = vad_step(prev, last.0, last.1, last.2).1;
    if ev matches Some(SpeechEventView::SpeechStart(_)) {
        assert(prev.state == VadState::PossibleSpeech);
        let k = choose|k: int|
            0 <= k < rest.len() && #[trigger] vad_run(v, rest.take(k)).state == VadState::Silence && rest[k].0
                && prev.state_start_ms == rest[k].1 && forall|j: int| k <= j < rest.len() ==> (#[trigger] rest[j]).0;
        assert(vad_run(v, inputs.take(k)).state == VadState::Silence);
        assert(inputs[k] == rest[k]);
    }
    if ev matches Some(SpeechEventView::SpeechEnd(_, _)) {
        assert(prev.state == VadState::PossibleSilence);
        let k = choose|k: int|
            0 <= k < rest.len() && #[trigger] vad_run(v, rest.take(k)).state == VadState::Speech && !rest[k].0
                && prev.state_start_ms == rest[k].1 && forall|j: int| k <= j < rest.len() ==> !(#[trigger] rest[j]).0;
        assert(vad_run(v, inputs.take(k)).state == VadState::Speech);
        assert(inputs[k] == rest[k]);
    }
}

/// Every event carries the time of the call that reports it, and a speech
/// chunk carries exactly the samples passed to that call, nothing accumulated
/// before: a streaming consumer receives each sample once.
pub proof fn lemma_chunk_is_input<T>(v: VadView<T>, is_speech: bool, now: u64, samples: Seq<T>)
    ensures
        vad_step(v, is_speech, now, samples).1 matches Some(SpeechEventView::SpeechChunk(t, a)) ==> a == samples
            && t == now,
        vad_step(v, is_speech, now, samples).1 matches Some(SpeechEventView::SpeechStart(t)) ==> t == now,
        vad_step(v, is_speech, now, samples).1 matches Some(SpeechEventView::SpeechEnd(t, _)) ==> t == now,
{
}

} // verus!
