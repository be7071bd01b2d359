//! Capture controller and shared capture buffer.
//!
//! The controller is the state machine behind one microphone stream:
//! starting a session first retires any live one (its cancellation
//! signal is handed back to the caller to deliver), so at most one
//! session is ever live; sessions are numbered so that a chunk from a
//! retired session can never reach the buffer. The buffer is the
//! shared sample accumulator the capture callback appends to and the
//! orchestrator drains with take-and-replace.

use vstd::prelude::*;
use crate::model::ModelError;

verus! {

/// Shared sample accumulator, tagged with the capturing device's
/// channel count and sample rate.
pub struct CaptureBuffer {
    pub samples: Vec<i16>,
    pub channels: u16,
    pub sample_rate: u32,
}

impl CaptureBuffer {
    /// An empty buffer with the default tag of one channel at 48 kHz.
    pub fn new() -> (b: CaptureBuffer)
        ensures
            b.samples@ == Seq::<i16>::empty(),
            b.channels == 1,
            b.sample_rate == 48000,
    {
        CaptureBuffer { samples: Vec::new(), channels: 1, sample_rate: 48000 }
    }

    /// Reset for a newly selected device: clear the samples and take
    /// the device's stream tag, so a later drain reflects the new
    /// device's format even before any audio arrives.
    pub fn replace_with_config(&mut self, channels: u16, sample_rate: u32)
        ensures
            final(self).samples@ == Seq::<i16>::empty(),
            final(self).channels == channels,
            final(self).sample_rate == sample_rate,
    {
        self.samples = Vec::new();
        self.channels = channels;
        self.sample_rate = sample_rate;
    }

    /// Update the stream tag without touching accumulated samples
    /// (used when a session opens on the already-selected device).
    pub fn update_from_config(&mut self, channels: u16, sample_rate: u32)
        ensures
            final(self).samples@ == old(self).samples@,
            final(self).channels == channels,
            final(self).sample_rate == sample_rate,
    {
        self.channels = channels;
        self.sample_rate = sample_rate;
    }

    /// Take the accumulated samples and their tag, leaving the buffer
    /// empty with the same tag, so samples appended for a newer
    /// session are never lost to a reader.
    pub fn drain(&mut self) -> (r: (Vec<i16>, u16, u32))
        ensures
            r.0@ == old(self).samples@,
            r.1 == old(self).channels,
            r.2 == old(self).sample_rate,
            final(self).samples@ == Seq::<i16>::empty(),
            final(self).channels == old(self).channels,
            final(self).sample_rate == old(self).sample_rate,
    {
        let mut taken: Vec<i16> = Vec::new();
        core::mem::swap(&mut taken, &mut self.samples);
        (taken, self.channels, self.sample_rate)
    }
}

/// Which input device the controller points at.
#[derive(Clone, Copy, Debug, PartialEq, Eq, Structural)]
pub enum DeviceSelection {
    /// The host's default input device.
    DefaultInput,
    /// The input device at this enumeration index.
    Indexed(u8),
}

/// What one `start_capture` call decided.
pub struct StartOutcome {
    /// Whether a session was already live when the call was made.
    pub was_recording: bool,
    /// The session whose cancellation must be signalled and awaited
    /// before the new stream opens, if one was live.
    pub stopped: Option<u64>,
    /// The fresh session's number.
    pub started: u64,
}

/// The capture state machine: at most one live session, a counter
/// handing out fresh session numbers, and the selected device.
pub struct CaptureController {
    pub live: Option<u64>,
    pub next_id: u64,
    pub device: Option<DeviceSelection>,
}

/// Session numbers already handed out stay below the counter.
pub open spec fn controller_wf(c: CaptureController) -> bool {
    match c.live {
        Some(id) => id < c.next_id,
        None => true,
    }
}

/// The controller after starting a session: the fresh session is live
/// and the counter moves past it.
pub open spec fn start_transition(c: CaptureController) -> CaptureController {
    CaptureController {
        live: Some(c.next_id),
        next_id: (c.next_id + 1) as u64,
        device: c.device,
    }
}

/// Whether a chunk stamped with `session` may enter the buffer.
pub open spec fn accepts(c: CaptureController, session: u64) -> bool {
    c.live == Some(session)
}

impl CaptureController {
    /// A controller starts idle; it points at the host default input
    /// when the host has one.
    pub fn new(has_default_device: bool) -> (c: CaptureController)
        ensures
            c.live is None,
            c.next_id == 0,
            has_default_device ==> c.device == Some(DeviceSelection::DefaultInput),
            !has_default_device ==> c.device is None,
            controller_wf(c),
    {
        CaptureController {
            live: None,
            next_id: 0,
            device: if has_default_device {
                Some(DeviceSelection::DefaultInput)
            } else {
                None
            },
        }
    }

    /// Whether a capture session is currently live.
    pub fn is_recording(&self) -> (b: bool)
        ensures
            b == (self.live is Some),
    {
        match self.live {
            Some(_) => true,
            None => false,
        }
    }

    /// Begin a new capture session.
    ///
    /// Any live session is retired first — its number is returned so
    /// the caller signals its cancellation and awaits termination
    /// before opening the new stream — and the fresh session becomes
    /// the only live one.
    pub fn start_capture(&mut self) -> (r: StartOutcome)
        requires
            old(self).next_id < u64::MAX,
        ensures
            r.was_recording == (old(self).live is Some),
            r.stopped == old(self).live,
            r.started == old(self).next_id,
            *final(self) == start_transition(*old(self)),
            controller_wf(*final(self)),
    {
        let stopped = self.live;
        let was_recording = match stopped {
            Some(_) => true,
            None => false,
        };
        let started = self.next_id;
        self.live = Some(started);
        self.next_id = started + 1;
        StartOutcome { was_recording, stopped, started }
    }

    /// Stop the live session, if any: its number is handed back for
    /// the caller to signal, and the controller returns to idle.
    pub fn stop_capture(&mut self) -> (r: Option<u64>)
        ensures
            r == old(self).live,
            final(self).live is None,
            final(self).next_id == old(self).next_id,
            final(self).device == old(self).device,
            controller_wf(*final(self)),
    {
        let r = self.live;
        self.live = None;
        r
    }

    /// Record the device the controller now points at.
    pub fn set_device(&mut self, selection: DeviceSelection)
        ensures
            final(self).device == Some(selection),
            final(self).live == old(self).live,
            final(self).next_id == old(self).next_id,
    {
        self.device = Some(selection);
    }

    /// The currently selected device, if any.
    pub fn current_device(&self) -> (d: Option<DeviceSelection>)
        ensures
            d == self.device,
    {
        self.device
    }

    /// Append a chunk delivered by the capture callback of `session`.
    ///
    /// The chunk enters the buffer exactly when that session is still
    /// the live one; a chunk from a retired session leaves the buffer
    /// untouched.
    pub fn accept_chunk(&self, buf: &mut CaptureBuffer, chunk: &Vec<i16>, session: u64) -> (accepted:
        bool)
        ensures
            accepted == accepts(*self, session),
            accepted ==> final(buf).samples@ == old(buf).samples@ + chunk@,
            !accepted ==> final(buf).samples@ == old(buf).samples@,
            final(buf).channels == old(buf).channels,
            final(buf).sample_rate == old(buf).sample_rate,
    {
        let live_now = match self.live {
            Some(id) => id == session,
            None => false,
        };
        if !live_now {
            return false;
        }
        let mut i: usize = 0;
        while i < chunk.len()
            invariant
                i <= chunk@.len(),
                buf.samples@ == old(buf).samples@ + chunk@.subrange(0, i as int),
                buf.channels == old(buf).channels,
                buf.sample_rate == old(buf).sample_rate,
            decreases chunk@.len() - i,
        {
            buf.samples.push(chunk[i]);
            i += 1;
            proof {
                assert(buf.samples@ =~= old(buf).samples@ + chunk@.subrange(0, i as int));
            }
        }
        proof {
            assert(old(buf).samples@ + chunk@.subrange(0, chunk@.len() as int) =~= old(
                buf,
            ).samples@ + chunk@);
        }
        true
    }
}

/// Decide which input device a selection request lands on.
///
/// An index within the enumerated device count selects that device
/// (a custom selection). An out-of-range index falls back to the
/// host's default input — reported by the `false` flag, not an error —
/// and only when no default input exists either does the call fail.
pub fn choose_input_device(index: u8, device_count: usize, has_default: bool) -> (r: Result<
    (bool, DeviceSelection),
    ModelError,
>)
    ensures
        (index as int) < device_count ==> r == Ok::<(bool, DeviceSelection), ModelError>(
            (true, DeviceSelection::Indexed(index)),
        ),
        (index as int) >= device_count && has_default ==> r == Ok::<
            (bool, DeviceSelection),
            ModelError,
        >((false, DeviceSelection::DefaultInput)),
        (index as int) >= device_count && !has_default ==> (r matches Err(e) && e is Device),
        r is Err <==> (index as int) >= device_count && !has_default,
{
    if (index as usize) < device_count {
        Ok((true, DeviceSelection::Indexed(index)))
    } else if has_default {
        Ok((false, DeviceSelection::DefaultInput))
    } else {
        Err(ModelError::Device(String::from_str("no input device available")))
    }
}

/// Starting twice in a row without an intervening stop still leaves
/// exactly one live session — the second one — and a chunk stamped
/// with the first session's number is no longer accepted once the
/// second has begun.
pub proof fn lemma_start_twice_single_live(c: CaptureController)
    requires
        controller_wf(c),
        c.next_id + 2 <= u64::MAX,
    ensures
        ({
            let first = start_transition(c);
            let second = start_transition(first);
            &&& second.live == Some(first.next_id)
            &&& second.live is Some
            &&& !accepts(second, c.next_id)
            &&& accepts(first, c.next_id)
        }),
{
}


/// Whether the stop signal should be abandoned after this many failed
/// send attempts: the caller retries a bounded number of times and
/// then logs and gives up rather than hanging forever.
pub fn stop_retry_exhausted(attempts: u32) -> (b: bool)
    ensures
        b == (attempts >= 100),
{
    attempts >= 100
}

} // verus!
