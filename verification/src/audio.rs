//! Bluetooth audio: the A2DP codec configuration and the bring-up of a sink,
//! source or duplex endpoint, and the hands-free client's volume control and
//! audio resampling.

use vstd::prelude::*;

use crate::error::{EspError, ESP_ERR_INVALID_ARG, ESP_ERR_INVALID_STATE};
use crate::sequence::{ran_until_failure, run_result, run_steps};

verus! {

// ---------------------------------------------------------------------------
// A2DP codecs
// ---------------------------------------------------------------------------

/// Native media codec type: SBC.
pub const ESP_A2D_MCT_SBC: u8 = 0;
/// Native media codec type: MPEG-1/2 audio.
pub const ESP_A2D_MCT_M12: u8 = 1;
/// Native media codec type: MPEG-2/4 AAC.
pub const ESP_A2D_MCT_M24: u8 = 2;
/// Native media codec type: ATRAC.
pub const ESP_A2D_MCT_ATRAC: u8 = 3;

/// A codec configuration and its information elements.
#[derive(Debug, Clone, Copy)]
pub enum Codec {
    Sbc([u8; 4]),
    Mpeg1_2([u8; 4]),
    Mpeg2_4([u8; 6]),
    Atrac([u8; 7]),
    Unknown,
}

/// The sample rate an SBC configuration's first octet selects: bit 6 for
/// 32 kHz, else bit 5 for 44.1 kHz, else bit 4 for 48 kHz, else 16 kHz.
pub open spec fn sbc_sample_rate(oct0: u8) -> u32 {
    if oct0 & 0x40u8 != 0 {
        32000
    } else if oct0 & 0x20u8 != 0 {
        44100
    } else if oct0 & 0x10u8 != 0 {
        48000
    } else {
        16000
    }
}

impl Codec {
    /// The codec of the native type `mct` with the information element
    /// bytes `cie` (at least 7 bytes, the largest element).
    pub fn from_raw(mct: u8, cie: &[u8; 7]) -> (c: Codec)
        ensures
            mct == ESP_A2D_MCT_SBC ==> (c matches Codec::Sbc(d) && d@ == cie@.subrange(0, 4)),
            mct == ESP_A2D_MCT_M12 ==> (c matches Codec::Mpeg1_2(d) && d@ == cie@.subrange(0, 4)),
            mct == ESP_A2D_MCT_M24 ==> (c matches Codec::Mpeg2_4(d) && d@ == cie@.subrange(0, 6)),
            mct == ESP_A2D_MCT_ATRAC ==> (c matches Codec::Atrac(d) && d@ == cie@),
            mct > ESP_A2D_MCT_ATRAC ==> c is Unknown,
    {
        if mct == ESP_A2D_MCT_SBC {
            let d = [cie[0], cie[1], cie[2], cie[3]];
            assert(d@ =~= cie@.subrange(0, 4));
            Codec::Sbc(d)
        } else if mct == ESP_A2D_MCT_M12 {
            let d = [cie[0], cie[1], cie[2], cie[3]];
            assert(d@ =~= cie@.subrange(0, 4));
            Codec::Mpeg1_2(d)
        } else if mct == ESP_A2D_MCT_M24 {
            let d = [cie[0], cie[1], cie[2], cie[3], cie[4], cie[5]];
            assert(d@ =~= cie@.subrange(0, 6));
            Codec::Mpeg2_4(d)
        } else if mct == ESP_A2D_MCT_ATRAC {
            Codec::Atrac(*cie)
        } else {
            Codec::Unknown
        }
    }

    /// The sample rate of an SBC configuration (see `sbc_sample_rate`);
    /// `None` for the other codecs.
    pub fn bitrate(&self) -> (r: Option<u32>)
        ensures
            match *self {
                Codec::Sbc(d) => r == Some(sbc_sample_rate(d@[0])),
                _ => r is None,
            },
    {
        match self {
            Codec::Sbc(d) => {
                let oct0 = d[0];
                let rate = if oct0 & 0x40u8 != 0 {
                    32000
                } else if oct0 & 0x20u8 != 0 {
                    44100
                } else if oct0 & 0x10u8 != 0 {
                    48000
                } else {
                    16000
                };
                Some(rate)
            },
            _ => None,
        }
    }

    /// Whether an SBC configuration is stereo: bit 3 of its first octet
    /// (mono) is clear; `None` for the other codecs.
    pub fn stereo(&self) -> (r: Option<bool>)
        ensures
            match *self {
                Codec::Sbc(d) => r == Some(d@[0] & 0x08u8 == 0),
                _ => r is None,
            },
    {
        match self {
            Codec::Sbc(d) => Some(d[0] & 0x08u8 == 0),
            _ => None,
        }
    }
}

// ---------------------------------------------------------------------------
// A2DP endpoints
// ---------------------------------------------------------------------------

/// The roles of an A2DP endpoint kind.
pub trait A2dpMode {
    /// Whether the endpoint receives audio.
    spec fn spec_sink() -> bool;

    /// Whether the endpoint sends audio.
    spec fn spec_source() -> bool;

    /// Whether the endpoint receives audio.
    fn sink() -> (b: bool)
        ensures
            b == Self::spec_sink();

    /// Whether the endpoint sends audio.
    fn source() -> (b: bool)
        ensures
            b == Self::spec_source();
}

/// Marker for endpoints that receive audio.
pub trait SinkEnabled: A2dpMode {}

/// Marker for endpoints that send audio.
pub trait SourceEnabled: A2dpMode {}

/// An endpoint that receives audio.
pub struct Sink;

/// An endpoint that sends audio.
pub struct Source;

/// An endpoint that both receives and sends audio.
pub struct Duplex;

impl SinkEnabled for Sink {}

impl SourceEnabled for Source {}

impl SinkEnabled for Duplex {}

impl SourceEnabled for Duplex {}

impl A2dpMode for Sink {
    open spec fn spec_sink() -> bool { true }
    open spec fn spec_source() -> bool { false }
    fn sink() -> (b: bool) { true }
    fn source() -> (b: bool) { false }
}

impl A2dpMode for Source {
    open spec fn spec_sink() -> bool { false }
    open spec fn spec_source() -> bool { true }
    fn sink() -> (b: bool) { false }
    fn source() -> (b: bool) { true }
}

impl A2dpMode for Duplex {
    open spec fn spec_sink() -> bool { true }
    open spec fn spec_source() -> bool { true }
    fn sink() -> (b: bool) { true }
    fn source() -> (b: bool) { true }
}

/// One native call of an A2DP endpoint's bring-up.
#[derive(Debug, Clone, Copy, PartialEq, Eq, Structural)]
pub enum A2dpInitStep {
    /// Register the event callback.
    RegisterCallback,
    /// Register the callback that receives audio data.
    RegisterSinkData,
    /// Initialise the sink.
    SinkInit,
    /// Register the callback that supplies audio data.
    RegisterSourceData,
    /// Initialise the source.
    SourceInit,
}

/// The bring-up of an endpoint: the event callback, then the sink's data
/// callback and initialisation when it receives, then the source's when it
/// sends.
pub open spec fn a2dp_init_steps(sink: bool, source: bool) -> Seq<A2dpInitStep> {
    seq![A2dpInitStep::RegisterCallback]
        + (if sink { seq![A2dpInitStep::RegisterSinkData, A2dpInitStep::SinkInit] } else { Seq::empty() })
        + (if source { seq![A2dpInitStep::RegisterSourceData, A2dpInitStep::SourceInit] } else { Seq::empty() })
}

/// Brings an endpoint of kind `S` up through `run`, stopping at the first
/// failure (see `a2dp_init_steps`).
pub fn a2dp_initialize<S: A2dpMode, F: Fn(A2dpInitStep) -> i32>(run: &F) -> (r: Result<(), EspError>)
    requires
        forall|s: A2dpInitStep| call_requires(*run, (s,)),
    ensures
        exists|codes: Seq<i32>| #[trigger] ran_until_failure(a2dp_init_steps(S::spec_sink(), S::spec_source()), codes, *run)
            && match r {
                Ok(()) => run_result(a2dp_init_steps(S::spec_sink(), S::spec_source()).len(), codes) == Ok::<(), i32>(()),
                Err(e) => run_result(a2dp_init_steps(S::spec_sink(), S::spec_source()).len(), codes) == Err::<(), i32>(e.spec_code()),
            },
{
    let mut steps: Vec<A2dpInitStep> = Vec::new();
    steps.push(A2dpInitStep::RegisterCallback);
    if S::sink() {
        steps.push(A2dpInitStep::RegisterSinkData);
        steps.push(A2dpInitStep::SinkInit);
    }
    if S::source() {
        steps.push(A2dpInitStep::RegisterSourceData);
        steps.push(A2dpInitStep::SourceInit);
    }
    assert(steps@ =~= a2dp_init_steps(S::spec_sink(), S::spec_source()));
    run_steps(&steps, run)
}

/// One native call of an A2DP endpoint's teardown.
#[derive(Debug, Clone, Copy, PartialEq, Eq, Structural)]
pub enum A2dpDeinitStep {
    /// Unregister the event callback.
    UnregisterCallback,
    /// Unregister the callback that receives audio data.
    UnregisterSinkData,
    /// Deinitialise the sink.
    SinkDeinit,
    /// Unregister the callback that supplies audio data.
    UnregisterSourceData,
    /// Deinitialise the source.
    SourceDeinit,
}

/// The teardown of an initialised endpoint, in order: the event callback,
/// then the sink's data callback and the sink when it receives, then the
/// source's when it sends. (Each call must succeed; the endpoint's callback
/// slot is cleared afterwards.)
pub open spec fn a2dp_deinit_steps(sink: bool, source: bool) -> Seq<A2dpDeinitStep> {
    seq![A2dpDeinitStep::UnregisterCallback]
        + (if sink { seq![A2dpDeinitStep::UnregisterSinkData, A2dpDeinitStep::SinkDeinit] } else { Seq::empty() })
        + (if source {
        seq![A2dpDeinitStep::UnregisterSourceData, A2dpDeinitStep::SourceDeinit]
    } else {
        Seq::empty()
    })
}

/// The teardown of an endpoint of kind `S`: the steps of
/// `a2dp_deinit_steps` when it was initialised, none otherwise.
pub fn a2dp_teardown<S: A2dpMode>(initialized: bool) -> (steps: Vec<A2dpDeinitStep>)
    ensures
        initialized ==> steps@ == a2dp_deinit_steps(S::spec_sink(), S::spec_source()),
        !initialized ==> steps@.len() == 0,
{
    let mut steps: Vec<A2dpDeinitStep> = Vec::new();
    if initialized {
        steps.push(A2dpDeinitStep::UnregisterCallback);
        if S::sink() {
            steps.push(A2dpDeinitStep::UnregisterSinkData);
            steps.push(A2dpDeinitStep::SinkDeinit);
        }
        if S::source() {
            steps.push(A2dpDeinitStep::UnregisterSourceData);
            steps.push(A2dpDeinitStep::SourceDeinit);
        }
        assert(steps@ =~= a2dp_deinit_steps(S::spec_sink(), S::spec_source()));
    }
    steps
}

/// The native sink delay value for a delay of `micros` microseconds: the
/// delay in units of 100 microseconds, narrowed to 16 bits.
pub fn sink_delay_value(micros: u64) -> (v: u16)
    ensures
        v == (micros / 100) as u16,
{
    (micros / 100) as u16
}

// ---------------------------------------------------------------------------
// Hands-free client
// ---------------------------------------------------------------------------

/// Native volume control target: the speaker.
pub const ESP_HF_VOLUME_CONTROL_TARGET_SPK: u32 = 0;
/// Native volume control target: the microphone.
pub const ESP_HF_VOLUME_CONTROL_TARGET_MIC: u32 = 1;

/// A volume change: of the speaker or the microphone, to a gain.
#[derive(Debug, Clone, Copy, PartialEq, Eq, Structural)]
pub enum Volume {
    Speaker(u8),
    Microphone(u8),
}

/// The native target and gain of a volume change.
pub fn volume_update(volume: Volume) -> (r: (u32, i32))
    ensures
        r == match volume {
            Volume::Speaker(g) => (ESP_HF_VOLUME_CONTROL_TARGET_SPK, g as i32),
            Volume::Microphone(g) => (ESP_HF_VOLUME_CONTROL_TARGET_MIC, g as i32),
        },
{
    match volume {
        Volume::Speaker(g) => (ESP_HF_VOLUME_CONTROL_TARGET_SPK, g as i32),
        Volume::Microphone(g) => (ESP_HF_VOLUME_CONTROL_TARGET_MIC, g as i32),
    }
}

/// One native call of the hands-free client's bring-up.
#[derive(Debug, Clone, Copy, PartialEq, Eq, Structural)]
pub enum HfpcInitStep {
    /// Initialise the client.
    ClientInit,
    /// Register the event callback.
    RegisterCallback,
    /// Register the callbacks that receive and supply audio data.
    RegisterDataCallbacks,
}

/// The bring-up of the client: initialisation and the event callback, then,
/// when audio runs over HCI, the data callbacks.
pub open spec fn hfpc_init_steps(hci_data_path: bool) -> Seq<HfpcInitStep> {
    if hci_data_path {
        seq![HfpcInitStep::ClientInit, HfpcInitStep::RegisterCallback, HfpcInitStep::RegisterDataCallbacks]
    } else {
        seq![HfpcInitStep::ClientInit, HfpcInitStep::RegisterCallback]
    }
}

/// Brings the hands-free client up through `run`, stopping at the first
/// failure (see `hfpc_init_steps`).
pub fn hfpc_initialize<F: Fn(HfpcInitStep) -> i32>(hci_data_path: bool, run: &F) -> (r: Result<(), EspError>)
    requires
        forall|s: HfpcInitStep| call_requires(*run, (s,)),
    ensures
        exists|codes: Seq<i32>| #[trigger] ran_until_failure(hfpc_init_steps(hci_data_path), codes, *run)
            && match r {
                Ok(()) => run_result(hfpc_init_steps(hci_data_path).len(), codes) == Ok::<(), i32>(()),
                Err(e) => run_result(hfpc_init_steps(hci_data_path).len(), codes) == Err::<(), i32>(e.spec_code()),
            },
{
    let steps: Vec<HfpcInitStep> = if hci_data_path {
        vec![HfpcInitStep::ClientInit, HfpcInitStep::RegisterCallback, HfpcInitStep::RegisterDataCallbacks]
    } else {
        vec![HfpcInitStep::ClientInit, HfpcInitStep::RegisterCallback]
    };
    assert(steps@ =~= hfpc_init_steps(hci_data_path));
    run_steps(&steps, run)
}

/// One native call of the hands-free client's teardown.
#[derive(Debug, Clone, Copy, PartialEq, Eq, Structural)]
pub enum HfpcDeinitStep {
    /// Release the resampler.
    ResampleDeinit,
    /// Unregister the audio data callbacks.
    UnregisterDataCallbacks,
    /// Unregister the event callback.
    UnregisterCallback,
    /// Deinitialise the client.
    ClientDeinit,
}

/// The teardown of an initialised client, in order: when audio runs over
/// HCI, the resampler (if one was set up) and the data callbacks; then the
/// event callback and the client. (Each fallible call must succeed; the
/// callback slot is cleared afterwards.)
pub open spec fn hfpc_deinit_steps(hci_data_path: bool, resampling: bool) -> Seq<HfpcDeinitStep> {
    (if hci_data_path && resampling { seq![HfpcDeinitStep::ResampleDeinit] } else { Seq::empty() })
        + (if hci_data_path { seq![HfpcDeinitStep::UnregisterDataCallbacks] } else { Seq::empty() })
        + seq![HfpcDeinitStep::UnregisterCallback, HfpcDeinitStep::ClientDeinit]
}

/// The teardown of the client: the steps of `hfpc_deinit_steps` when it was
/// initialised, none otherwise.
pub fn hfpc_teardown(initialized: bool, hci_data_path: bool, resampling: bool) -> (steps: Vec<HfpcDeinitStep>)
    ensures
        initialized ==> steps@ == hfpc_deinit_steps(hci_data_path, resampling),
        !initialized ==> steps@.len() == 0,
{
    let mut steps: Vec<HfpcDeinitStep> = Vec::new();
    if initialized {
        if hci_data_path && resampling {
            steps.push(HfpcDeinitStep::ResampleDeinit);
        }
        if hci_data_path {
            steps.push(HfpcDeinitStep::UnregisterDataCallbacks);
        }
        steps.push(HfpcDeinitStep::UnregisterCallback);
        steps.push(HfpcDeinitStep::ClientDeinit);
        assert(steps@ =~= hfpc_deinit_steps(hci_data_path, resampling));
    }
    steps
}

/// The audio the client resamples its outgoing data from.
#[derive(Debug, Clone, Copy, PartialEq, Eq, Structural)]
pub struct ResampleSource {
    pub sample_rate_hz: u32,
    pub bits_per_sample: u8,
    pub stereo: bool,
}

/// The number of channels of a resampling source: two when stereo.
pub fn resample_channels(source: &ResampleSource) -> (n: u32)
    ensures
        n == if source.stereo { 2u32 } else { 1u32 },
{
    if source.stereo { 2 } else { 1 }
}

/// Whether a resampling of `src_len` bytes into `dst_len` bytes may run:
/// refused with `ESP_ERR_INVALID_STATE` when the client has no resampling
/// source, and with `ESP_ERR_INVALID_ARG` when the destination is shorter
/// than the source.
pub fn pcm_resample_check(has_source: bool, src_len: usize, dst_len: usize) -> (r: Result<(), EspError>)
    ensures
        !has_source ==> (r matches Err(e) && e.spec_code() == ESP_ERR_INVALID_STATE),
        has_source && dst_len < src_len ==> (r matches Err(e) && e.spec_code() == ESP_ERR_INVALID_ARG),
        has_source && dst_len >= src_len ==> r is Ok,
{
    if !has_source {
        return Err(EspError::from_non_zero(ESP_ERR_INVALID_STATE));
    }
    if dst_len < src_len {
        return Err(EspError::from_non_zero(ESP_ERR_INVALID_ARG));
    }
    Ok(())
}

} // verus!
