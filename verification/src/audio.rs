//! Audio devices and streams: which device and configuration are used,
//! how captured PCM is framed for the daemon's voice stream, and the
//! backends of builds without audio.

use vstd::prelude::*;
use crate::import::{replace, replace_all};
use crate::text::{push_str, str_equals, to_owned_string};

verus! {

/// An input device the UI can pick.
pub struct AudioDeviceInfo {
    pub id: String,
    pub name: String,
    pub is_default: bool,
}

/// The devices the UI lists, from the names the host reports (`None` for a
/// device whose name cannot be read) and the default device's name.
pub open spec fn device_infos_spec(names: Seq<Option<String>>, default_name: Option<String>) -> Seq<(
    Seq<char>,
    bool,
)>
    decreases names.len(),
{
    if names.len() == 0 {
        Seq::empty()
    } else {
        let rest = device_infos_spec(names.drop_last(), default_name);
        match names.last() {
            Some(n) => rest.push(
                (n@, default_name matches Some(d) && d@ == n@),
            ),
            None => rest,
        }
    }
}

/// Lists the input devices: those with a readable name, named and
/// identified by it, the default one marked.
pub fn audio_device_infos(names: &Vec<Option<String>>, default_name: &Option<String>) -> (r: Vec<
    AudioDeviceInfo,
>)
    ensures
        r@.len() == device_infos_spec(names@, *default_name).len(),
        forall|i: int|
            0 <= i < r@.len() ==> {
                &&& (#[trigger] r@[i]).name@ == device_infos_spec(names@, *default_name)[i].0
                &&& r@[i].id@ == r@[i].name@
                &&& r@[i].is_default == device_infos_spec(names@, *default_name)[i].1
            },
{
    let mut out: Vec<AudioDeviceInfo> = Vec::new();
    let mut i: usize = 0;
    while i < names.len()
        invariant
            i <= names@.len(),
            out@.len() == device_infos_spec(names@.take(i as int), *default_name).len(),
            forall|k: int|
                0 <= k < out@.len() ==> {
                    &&& (#[trigger] out@[k]).name@ == device_infos_spec(names@.take(i as int), *default_name)[k].0
                    &&& out@[k].id@ == out@[k].name@
                    &&& out@[k].is_default == device_infos_spec(names@.take(i as int), *default_name)[k].1
                },
        decreases names@.len() - i,
    {
        proof {
            assert(names@.take(i + 1).drop_last() =~= names@.take(i as int));
            assert(names@.take(i + 1).last() == names@[i as int]);
        }
        match &names[i] {
            Some(n) => {
                let is_default = match default_name {
                    Some(d) => str_equals(d.as_str(), n.as_str()),
                    None => false,
                };
                out.push(AudioDeviceInfo { id: n.clone(), name: n.clone(), is_default });
            },
            None => {},
        }
        i = i + 1;
    }
    proof {
        assert(names@.take(names@.len() as int) =~= names@);
    }
    out
}

/// Which device a stream is opened on.
#[derive(PartialEq, Eq, Structural, Clone, Copy, Debug)]
pub enum DeviceChoice {
    /// The listed device at this position.
    Listed(usize),
    /// The host's default input device.
    Default,
}

/// Whether a listed device has exactly this name.
pub open spec fn named(o: Option<String>, name: Seq<char>) -> bool {
    o matches Some(n) && n@ == name
}

fn find_named(names: &Vec<Option<String>>, name: &str) -> (r: Option<usize>)
    ensures
        r matches Some(i) ==> i < names@.len() && named(names@[i as int], name@) && forall|
            j: int,
        | 0 <= j < i ==> !named(names@[j], name@),
        r is None ==> forall|j: int| 0 <= j < names@.len() ==> !named(#[trigger] names@[j], name@),
{
    let mut i: usize = 0;
    while i < names.len()
        invariant
            i <= names@.len(),
            forall|j: int| 0 <= j < i ==> !named(#[trigger] names@[j], name@),
        decreases names@.len() - i,
    {
        match &names[i] {
            Some(n) => {
                if str_equals(n.as_str(), name) {
                    return Some(i);
                }
            },
            None => {},
        }
        i = i + 1;
    }
    None
}

/// The device voice capture opens: the first device with the requested
/// name (`input device not found: {id}` when there is none), or the
/// default device (`no default input device` when there is none).
pub fn capture_device(requested: Option<&str>, names: &Vec<Option<String>>, has_default: bool) -> (r: Result<
    DeviceChoice,
    String,
>)
    ensures
        requested matches Some(id) ==> match r {
            Ok(DeviceChoice::Listed(i)) => i < names@.len() && named(names@[i as int], id@)
                && forall|j: int| 0 <= j < i ==> !named(names@[j], id@),
            Ok(DeviceChoice::Default) => false,
            Err(e) => e@ == "input device not found: "@ + id@ && forall|j: int|
                0 <= j < names@.len() ==> !named(#[trigger] names@[j], id@),
        },
        requested is None ==> (has_default ==> r == Ok::<DeviceChoice, String>(DeviceChoice::Default)),
        requested is None ==> (!has_default ==> (r matches Err(e) && e@ == "no default input device"@)),
{
    match requested {
        Some(id) => match find_named(names, id) {
            Some(i) => Ok(DeviceChoice::Listed(i)),
            None => {
                let mut e = to_owned_string("input device not found: ");
                push_str(&mut e, id);
                Err(e)
            },
        },
        None => {
            if has_default {
                Ok(DeviceChoice::Default)
            } else {
                Err(to_owned_string("no default input device"))
            }
        },
    }
}

/// The device the streaming thread re-opens, found again by the name the
/// capture had (a device whose name cannot be read counts as unnamed);
/// the default device when the name is empty, the listing fails or no
/// device has it; `None` when that is missing too.
pub fn streaming_device(device_name: &str, names: Option<&Vec<Option<String>>>, has_default: bool) -> (r:
    Option<DeviceChoice>)
    ensures
        ({
            let found = device_name@.len() > 0 && match names {
                Some(ns) => exists|i: int| 0 <= i < ns@.len() && named(#[trigger] ns@[i], device_name@),
                None => false,
            };
            if found {
                &&& r matches Some(DeviceChoice::Listed(i))
                &&& names matches Some(ns)
                &&& i < ns@.len()
                &&& named(ns@[i as int], device_name@)
                &&& forall|j: int| 0 <= j < i ==> !named(ns@[j], device_name@)
            } else if has_default {
                r == Some(DeviceChoice::Default)
            } else {
                r is None
            }
        }),
{
    if device_name.unicode_len() > 0 {
        match names {
            Some(ns) => match find_named(ns, device_name) {
                Some(i) => {
                    return Some(DeviceChoice::Listed(i));
                },
                None => {},
            },
            None => {},
        }
    }
    if has_default {
        Some(DeviceChoice::Default)
    } else {
        None
    }
}

/// A range of stream configurations a device supports.
pub struct ConfigRange {
    pub channels: u16,
    /// Whether its samples are 32-bit floats.
    pub is_f32: bool,
    pub min_rate: u32,
    pub max_rate: u32,
}

/// The configuration a stream is opened with.
#[derive(PartialEq, Eq, Structural, Clone, Copy, Debug)]
pub struct StreamSettings {
    /// The supported range it was chosen from.
    pub config_index: usize,
    pub channels: u16,
    pub sample_rate: u32,
}

/// The rate capture asks for.
pub const CAPTURE_SAMPLE_RATE: u32 = 16000;

/// The first range with at most two channels, preferring float samples.
pub open spec fn usable(c: ConfigRange) -> bool {
    c.channels <= 2
}

fn first_usable(configs: &Vec<ConfigRange>, need_f32: bool) -> (r: Option<usize>)
    ensures
        r matches Some(i) ==> i < configs@.len() && usable(configs@[i as int]) && (need_f32 ==> configs@[i as int].is_f32)
            && forall|j: int| 0 <= j < i ==> !(usable(configs@[j]) && (need_f32 ==> configs@[j].is_f32)),
        r is None ==> forall|j: int|
            0 <= j < configs@.len() ==> !(usable(#[trigger] configs@[j]) && (need_f32 ==> configs@[j].is_f32)),
{
    let mut i: usize = 0;
    while i < configs.len()
        invariant
            i <= configs@.len(),
            forall|j: int| 0 <= j < i ==> !(usable(#[trigger] configs@[j]) && (need_f32 ==> configs@[j].is_f32)),
        decreases configs@.len() - i,
    {
        if configs[i].channels <= 2 && (!need_f32 || configs[i].is_f32) {
            return Some(i);
        }
        i = i + 1;
    }
    None
}

/// The capture configuration: the first usable range with float samples,
/// else the first usable one; 16 kHz when the range allows it, else its
/// lowest rate; at most one channel.
pub fn capture_settings(configs: &Vec<ConfigRange>) -> (r: Result<StreamSettings, String>)
    ensures
        (forall|j: int| 0 <= j < configs@.len() ==> !usable(#[trigger] configs@[j])) ==> (r matches Err(e) && e@
            == "No supported audio input config found"@),
        r matches Ok(s) ==> {
            let c = configs@[s.config_index as int];
            &&& s.config_index < configs@.len()
            &&& usable(c)
            &&& (c.is_f32 || forall|j: int| 0 <= j < configs@.len() ==> !(usable(#[trigger] configs@[j]) && configs@[j].is_f32))
            &&& forall|j: int| 0 <= j < s.config_index ==> !(usable(configs@[j]) && (c.is_f32 ==> configs@[j].is_f32))
            &&& s.sample_rate == (if c.min_rate <= 16000 <= c.max_rate { 16000 } else { c.min_rate })
            &&& s.channels == (if c.channels < 1 { c.channels } else { 1 })
        },
        (exists|j: int| 0 <= j < configs@.len() && usable(#[trigger] configs@[j])) ==> r is Ok,
{
    let chosen = match first_usable(configs, true) {
        Some(i) => Some(i),
        None => first_usable(configs, false),
    };
    match chosen {
        None => Err(to_owned_string("No supported audio input config found")),
        Some(i) => {
            let c = &configs[i];
            let sample_rate = if c.min_rate <= CAPTURE_SAMPLE_RATE && CAPTURE_SAMPLE_RATE <= c.max_rate {
                CAPTURE_SAMPLE_RATE
            } else {
                c.min_rate
            };
            let channels = if c.channels < 1 {
                c.channels
            } else {
                1
            };
            Ok(StreamSettings { config_index: i, channels, sample_rate })
        },
    }
}

/// The playback configuration: a device needs a usable range; playback is
/// mono at 16 kHz.
pub fn playback_settings(configs: &Vec<ConfigRange>) -> (r: Result<StreamSettings, String>)
    ensures
        (forall|j: int| 0 <= j < configs@.len() ==> !usable(#[trigger] configs@[j])) ==> (r matches Err(e) && e@
            == "No supported audio output config found"@),
        r matches Ok(s) ==> s.config_index < configs@.len() && usable(configs@[s.config_index as int])
            && (forall|j: int| 0 <= j < s.config_index ==> !usable(configs@[j])) && s.channels == 1
            && s.sample_rate == 16000,
        (exists|j: int| 0 <= j < configs@.len() && usable(#[trigger] configs@[j])) ==> r is Ok,
{
    match first_usable(configs, false) {
        None => Err(to_owned_string("No supported audio output config found")),
        Some(i) => Ok(StreamSettings { config_index: i, channels: 1, sample_rate: CAPTURE_SAMPLE_RATE }),
    }
}

/// The configuration the streaming thread checks for: the first usable
/// range, or `No supported audio config`.
pub fn streaming_config(configs: &Vec<ConfigRange>) -> (r: Result<usize, String>)
    ensures
        r matches Ok(i) ==> i < configs@.len() && usable(configs@[i as int]) && forall|j: int|
            0 <= j < i ==> !usable(configs@[j]),
        r matches Err(e) ==> e@ == "No supported audio config"@ && forall|j: int|
            0 <= j < configs@.len() ==> !usable(#[trigger] configs@[j]),
{
    match first_usable(configs, false) {
        Some(i) => Ok(i),
        None => Err(to_owned_string("No supported audio config")),
    }
}

/// The daemon's voice stream for a provider: the daemon's REST base with
/// `https://` made `wss://` and `http://` made `ws://`.
pub open spec fn voice_stream_url_spec(base: Seq<char>, provider_id: Seq<char>) -> Seq<char> {
    replace_all(replace_all(base, "https://"@, "wss://"@), "http://"@, "ws://"@) + "/api/voice/stream/"@
        + provider_id
}

pub fn voice_stream_url(base: &str, provider_id: &str) -> (r: String)
    ensures
        r@ == voice_stream_url_spec(base@, provider_id@),
{
    proof {
        reveal_strlit("https://");
        reveal_strlit("http://");
    }
    let a = replace(base, "https://", "wss://");
    let mut b = replace(a.as_str(), "http://", "ws://");
    push_str(&mut b, "/api/voice/stream/");
    push_str(&mut b, provider_id);
    b
}

/// Where voice capture connects: the daemon's voice stream for the
/// provider, or `daemon not initialized` while the daemon's base URL is not
/// known yet.
pub fn voice_stream_target(base: Option<&str>, provider_id: &str) -> (r: Result<String, String>)
    ensures
        match base {
            None => r matches Err(e) && e@ == "daemon not initialized"@,
            Some(b) => r matches Ok(u) && u@ == voice_stream_url_spec(b@, provider_id@),
        },
{
    match base {
        None => Err(to_owned_string("daemon not initialized")),
        Some(b) => Ok(voice_stream_url(b, provider_id)),
    }
}

/// The little-endian bytes of 16-bit samples.
pub open spec fn pcm_bytes(pcm: Seq<i16>) -> Seq<u8>
    decreases pcm.len(),
{
    if pcm.len() == 0 {
        Seq::empty()
    } else {
        let s = pcm.last() as u16;
        pcm_bytes(pcm.drop_last()) + seq![(s % 256) as u8, (s / 256) as u8]
    }
}

/// Frames captured PCM for the voice stream: each sample as two bytes,
/// low byte first.
pub fn pcm_le_bytes(pcm: &[i16]) -> (r: Vec<u8>)
    ensures
        r@ == pcm_bytes(pcm@),
{
    let mut out: Vec<u8> = Vec::new();
    let mut i: usize = 0;
    while i < pcm.len()
        invariant
            i <= pcm@.len(),
            out@ == pcm_bytes(pcm@.take(i as int)),
        decreases pcm@.len() - i,
    {
        proof {
            assert(pcm@.take(i + 1).drop_last() =~= pcm@.take(i as int));
            assert(pcm@.take(i + 1).last() == pcm@[i as int]);
        }
        let s = pcm[i] as u16;
        out.push((s % 256) as u8);
        out.push((s / 256) as u8);
        proof {
            assert(out@ =~= pcm_bytes(pcm@.take(i as int)) + seq![(s % 256) as u8, (s / 256) as u8]);
        }
        i = i + 1;
    }
    proof {
        assert(pcm@.take(pcm@.len() as int) =~= pcm@);
    }
    out
}

/// A frame from the daemon's voice stream.
pub enum WsFrame {
    /// A text frame that is JSON: whether it has `id`, `result` and
    /// `params` members.
    Json { has_id: bool, has_result: bool, has_params: bool },
    /// A text frame that is not JSON.
    BadJson,
    Close,
    /// Any other frame.
    Other,
    /// The connection failed.
    Failed,
}

/// What the voice pump does with a frame.
#[derive(PartialEq, Eq, Structural, Clone, Copy, Debug)]
pub enum WsAction {
    /// Forward the frame's `params` as a `voice_event`.
    EmitParams,
    /// Forward the whole frame as a `voice_event`.
    EmitWhole,
    /// Ignore the frame (the connection's acknowledgement, or noise).
    Skip,
    /// End the pump.
    Stop,
}

/// Notifications are forwarded by their `params`; the acknowledgement of
/// the connection (`id` and `result`) is dropped; a close or a failure
/// ends the pump.
pub fn ws_frame_action(frame: &WsFrame) -> (r: WsAction)
    ensures
        (match *frame {
            WsFrame::Json { has_id, has_result, has_params } => if has_id && has_result {
                r == WsAction::Skip
            } else if has_params {
                r == WsAction::EmitParams
            } else {
                r == WsAction::EmitWhole
            },
            WsFrame::BadJson => r == WsAction::Skip,
            WsFrame::Close => r == WsAction::Stop,
            WsFrame::Other => r == WsAction::Skip,
            WsFrame::Failed => r == WsAction::Stop,
        }),
{
    match frame {
        WsFrame::Json { has_id, has_result, has_params } => {
            if *has_id && *has_result {
                WsAction::Skip
            } else if *has_params {
                WsAction::EmitParams
            } else {
                WsAction::EmitWhole
            }
        },
        WsFrame::BadJson => WsAction::Skip,
        WsFrame::Close => WsAction::Stop,
        WsFrame::Other => WsAction::Skip,
        WsFrame::Failed => WsAction::Stop,
    }
}

/// Audio capture in a build without an audio backend.
pub struct DummyAudioCapture;

impl DummyAudioCapture {
    pub fn new() -> (r: Result<Self, String>)
        ensures
            r matches Err(e) && e@ == "Audio capture is not available in this build (missing 'backend-cpal' feature)"@,
    {
        Err(to_owned_string("Audio capture is not available in this build (missing 'backend-cpal' feature)"))
    }
}

/// Audio playback in a build without an audio backend.
pub struct DummyAudioPlayer;

impl DummyAudioPlayer {
    pub fn new() -> (r: Result<Self, String>)
        ensures
            r matches Err(e) && e@ == "Audio playback is not available in this build (missing 'backend-cpal' feature)"@,
    {
        Err(to_owned_string("Audio playback is not available in this build (missing 'backend-cpal' feature)"))
    }
}

/// Audio streaming in a build without an audio backend.
pub struct DummyAudioStreamer;

impl DummyAudioStreamer {
    pub fn new() -> (r: Result<Self, String>)
        ensures
            r matches Err(e) && e@ == "Audio streaming is not available in this build (missing 'backend-cpal' feature)"@,
    {
        Err(to_owned_string("Audio streaming is not available in this build (missing 'backend-cpal' feature)"))
    }
}

} // verus!
