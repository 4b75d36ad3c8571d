//! The streaming lifecycle: when a Start may open streams, how large the
//! latency ring is, and which state the manager is in between commands.
//! Opening and closing the device streams is left to the caller, who reports
//! back how it went.
use vstd::prelude::*;
use crate::ring::{SampleRing, ring_items, ring_capacity, silence};

verus! {

/// Delay that playback keeps behind capture, in milliseconds.
pub const TARGET_LATENCY_MS: u32 = 300;

/// A command for the streaming control loop.
#[derive(Clone, Copy, Debug, PartialEq, Eq, Structural)]
pub enum AudioCommand {
    Start,
    Stop,
}

/// Where a stream manager stands.
#[derive(Clone, Copy, Debug, PartialEq, Eq, Structural)]
pub enum StreamState {
    /// No stream is open.
    Idle,
    /// A ring has been handed out and the streams are being opened.
    Starting,
    /// Both streams are open and playing.
    Running,
}

/// What the input device negotiated.
#[derive(Clone, Copy, Debug, PartialEq, Eq, Structural)]
pub struct StreamFormat {
    pub sample_rate: u32,
    pub channels: u16,
}

/// Why a Start did not lead to running streams.
#[derive(Clone, Copy, Debug, PartialEq, Eq, Structural)]
pub enum StartError {
    /// Streams are already open or being opened.
    AlreadyActive,
    /// No input device could be resolved.
    NoInputDevice,
    /// No output device could be resolved.
    NoOutputDevice,
    /// The format gives no latency, or one too large to buffer.
    UnsupportedFormat,
    /// A stream could not be opened or started.
    StreamOpenFailed,
}

/// Samples of delay for a format: whole frames in `target_ms`, times the
/// number of interleaved channels.
pub open spec fn latency_of(sample_rate: nat, channels: nat, target_ms: nat) -> nat {
    (sample_rate * target_ms / 1000) * channels
}

/// Whether a latency can back a ring of twice its size.
pub open spec fn latency_fits(latency: nat) -> bool {
    0 < latency <= isize::MAX / 8
}

/// The latency of a format, in samples, when it can be buffered.
pub fn latency_samples(sample_rate: u32, channels: u16, target_ms: u32) -> (r: Option<usize>)
    ensures
        r is Some <==> latency_fits(latency_of(sample_rate as nat, channels as nat, target_ms as nat)),
        r is Some ==> r->0 == latency_of(sample_rate as nat, channels as nat, target_ms as nat),
{
    let sr = sample_rate as u64;
    let ms = target_ms as u64;
    assert(sr * ms <= 0xffff_ffff * 0xffff_ffffu64) by (nonlinear_arith)
        requires
            sr <= 0xffff_ffff,
            ms <= 0xffff_ffff,
    ;
    let frames: u64 = sr * ms / 1000;
    let fr = frames as u128;
    let ch = channels as u128;
    assert(fr * ch <= 0xffff_ffff_ffff_ffffu128 * 0xffffu128) by (nonlinear_arith)
        requires
            fr <= 0xffff_ffff_ffff_ffff,
            ch <= 0xffff,
    ;
    let samples: u128 = fr * ch;
    if samples == 0 || samples > (isize::MAX / 8) as u128 {
        None
    } else {
        Some(samples as usize)
    }
}

/// What a Start leads to from a given state: the latency of the ring to
/// prime, or the reason it is refused.
pub open spec fn start_result(state: StreamState, input: Option<StreamFormat>, has_output: bool) -> Result<nat, StartError> {
    if state != StreamState::Idle {
        Err(StartError::AlreadyActive)
    } else if input is None {
        Err(StartError::NoInputDevice)
    } else if !has_output {
        Err(StartError::NoOutputDevice)
    } else {
        let lat = latency_of(input->0.sample_rate as nat, input->0.channels as nat, TARGET_LATENCY_MS as nat);
        if latency_fits(lat) {
            Ok(lat)
        } else {
            Err(StartError::UnsupportedFormat)
        }
    }
}

/// The state after a Start from `state`.
pub open spec fn state_after_start(state: StreamState, input: Option<StreamFormat>, has_output: bool) -> StreamState {
    if start_result(state, input, has_output) is Ok {
        StreamState::Starting
    } else {
        state
    }
}

/// The state after the caller reports whether the streams opened.
pub open spec fn state_after_open(state: StreamState, opened: bool) -> StreamState {
    if state == StreamState::Starting {
        if opened {
            StreamState::Running
        } else {
            StreamState::Idle
        }
    } else {
        state
    }
}

/// The state after a Stop: streams are dropped, whatever was open.
pub open spec fn state_after_stop(state: StreamState) -> StreamState {
    StreamState::Idle
}

/// A Start without a resolvable input or output device fails and leaves the
/// state as it was: an idle manager stays idle.
pub proof fn lemma_start_without_devices_fails(state: StreamState, input: Option<StreamFormat>, has_output: bool)
    requires
        input is None || !has_output,
    ensures
        start_result(state, input, has_output) is Err,
        state_after_start(state, input, has_output) == state,
{
}

/// A Stop followed by a Start, from any state, always primes a new ring:
/// the Start is accepted with the format's full latency of silence, and the
/// manager waits for the new streams.
pub proof fn lemma_restart_primes_new_ring(state: StreamState, format: StreamFormat)
    requires
        latency_fits(latency_of(format.sample_rate as nat, format.channels as nat, TARGET_LATENCY_MS as nat)),
    ensures
        start_result(state_after_stop(state), Some(format), true)
            == Ok::<nat, StartError>(latency_of(format.sample_rate as nat, format.channels as nat, TARGET_LATENCY_MS as nat)),
        state_after_start(state_after_stop(state), Some(format), true) == StreamState::Starting,
{
}

/// Owns the lifecycle of one input/output stream pair.
pub struct AudioStreamManager {
    state: StreamState,
}

impl AudioStreamManager {
    pub closed spec fn spec_state(&self) -> StreamState {
        self.state
    }

    /// A manager with no open stream.
    pub fn new() -> (m: AudioStreamManager)
        ensures
            m.spec_state() == StreamState::Idle,
    {
        AudioStreamManager { state: StreamState::Idle }
    }

    /// The current state.
    pub fn state(&self) -> (s: StreamState)
        ensures
            s == self.spec_state(),
    {
        self.state
    }

    /// Handles a Start. When the manager is idle and both devices are known,
    /// returns a fresh ring primed with the latency's worth of silence and
    /// moves to `Starting`; the caller then opens the streams on the ring's
    /// halves and reports with `streams_opened`. Otherwise nothing changes.
    pub fn start(&mut self, input: Option<StreamFormat>, has_output: bool) -> (r: Result<SampleRing, StartError>)
        ensures
            final(self).spec_state() == state_after_start(old(self).spec_state(), input, has_output),
            match start_result(old(self).spec_state(), input, has_output) {
                Ok(lat) => r is Ok && ring_items(r->Ok_0) == silence(lat) && ring_capacity(r->Ok_0) == 2 * lat,
                Err(e) => r is Err && r->Err_0 == e,
            },
    {
        if self.state != StreamState::Idle {
            return Err(StartError::AlreadyActive);
        }
        let format = match input {
            None => {
                return Err(StartError::NoInputDevice);
            },
            Some(f) => f,
        };
        if !has_output {
            return Err(StartError::NoOutputDevice);
        }
        match latency_samples(format.sample_rate, format.channels, TARGET_LATENCY_MS) {
            None => Err(StartError::UnsupportedFormat),
            Some(lat) => {
                let ring = SampleRing::primed(lat);
                self.state = StreamState::Starting;
                Ok(ring)
            },
        }
    }

    /// Records whether both streams were opened and started. On failure the
    /// caller has dropped what it opened, and the manager is idle again.
    pub fn streams_opened(&mut self, opened: bool) -> (r: Result<(), StartError>)
        ensures
            final(self).spec_state() == state_after_open(old(self).spec_state(), opened),
            r is Ok <==> (old(self).spec_state() == StreamState::Starting && opened),
            r is Err ==> r->Err_0 == (if old(self).spec_state() == StreamState::Starting {
                StartError::StreamOpenFailed
            } else {
                StartError::AlreadyActive
            }),
    {
        if self.state != StreamState::Starting {
            return Err(StartError::AlreadyActive);
        }
        if opened {
            self.state = StreamState::Running;
            Ok(())
        } else {
            self.state = StreamState::Idle;
            Err(StartError::StreamOpenFailed)
        }
    }

    /// Handles a Stop: the caller drops both streams and the ring with them.
    pub fn stop(&mut self)
        ensures
            final(self).spec_state() == state_after_stop(old(self).spec_state()),
    {
        self.state = StreamState::Idle;
    }
}

} // verus!
