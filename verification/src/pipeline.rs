//! The decisions of the capture loop: when the capture starts, when the
//! resolution is announced again, and how frames are numbered.

use bytes::Bytes;
use vstd::prelude::*;

use crate::buffers::bytes_of;
use crate::capture::EncodedFrame;
use crate::protocol::{Codec, MessageModel, Resolution};

pub mod laws;

verus! {

/// How long to wait between construction attempts when the failure is transient
/// (display asleep / screen locked), in seconds.
pub const DISPLAY_RETRY_SECS: u64 = 3;

/// Every so many failed attempts the wait is reported.
pub const REPORT_EVERY: u32 = 20;

/// The capture loop between two frames.
#[derive(Debug, Clone, Copy, PartialEq, Eq, Structural)]
pub struct CaptureLoop {
    pub resolution: Resolution,
    pub seq: u32,
}

/// The number after another.
pub open spec fn next_seq(seq: u32) -> u32 {
    ((seq + 1) % 0x1_0000_0000) as u32
}

impl CaptureLoop {
    pub fn new(resolution: Resolution) -> (r: Self)
        ensures
            r == (CaptureLoop { resolution, seq: 0 }),
    {
        CaptureLoop { resolution, seq: 0 }
    }

    /// A frame of this size was captured; the resolution to announce where it
    /// changed.
    pub fn on_captured(&mut self, size: Resolution) -> (announce: Option<Resolution>)
        ensures
            *final(self) == (CaptureLoop { resolution: size, ..*old(self) }),
            announce == if size != old(self).resolution {
                Some(size)
            } else {
                None
            },
    {
        if size != self.resolution {
            self.resolution = size;
            Some(size)
        } else {
            None
        }
    }

    /// A frame was encoded: number it.
    pub fn on_encoded(&mut self, codec: Codec, timestamp_micros: u64, payload: Bytes) -> (frame:
        EncodedFrame)
        ensures
            *final(self) == (CaptureLoop {
                seq: next_seq(old(self).seq),
                ..*old(self)
            }),
            frame.codec == codec,
            frame.seq == final(self).seq,
            frame.timestamp_micros == timestamp_micros,
            bytes_of(frame.payload) == bytes_of(payload),
            frame.message() == (MessageModel::FrameData {
                codec,
                seq: next_seq(old(self).seq),
                timestamp_micros,
                payload: bytes_of(payload),
            }),
    {
        self.seq = self.seq.wrapping_add(1);
        EncodedFrame { codec, seq: self.seq, timestamp_micros, payload }
    }
}

/// Where the capture thread stands.
#[derive(Debug, Clone, Copy, PartialEq, Eq, Structural)]
pub enum CapturePhase {
    /// The encoder, then the first capturer are under construction.
    Starting,
    /// No display at startup: construction is tried again and again.
    Retrying { attempts: u32 },
    Running(CaptureLoop),
    Stopped,
}

/// What happened to the capture thread.
#[derive(Debug)]
pub enum CaptureEvent {
    /// A capturer was built; its resolution.
    Ready(Resolution),
    /// Building one failed; the reason may pass (display asleep) or not.
    BuildFailed { transient: bool, error: String },
    /// Building the encoder failed.
    EncoderFailed { error: String },
    /// A frame of this size was captured; the bitrate that is asked for at this
    /// time.
    Captured { size: Resolution, requested_kbps: u32 },
    CaptureFailed,
    /// The frame was encoded.
    Encoded { codec: Codec, timestamp_micros: u64, payload: Bytes },
    EncodeFailed,
    /// Nobody receives frames any more.
    Unheard,
}

/// What the capture thread does next, in this order.
#[derive(Debug)]
pub struct CaptureStep {
    /// Report the startup's outcome: success, or the error that fails it.
    pub report: Option<Result<(), String>>,
    /// Announce this resolution.
    pub announce: Option<Resolution>,
    /// Hand this bitrate to the encoder.
    pub set_bitrate: Option<u32>,
    /// Publish this frame.
    pub publish: Option<EncodedFrame>,
    /// Say that the wait for a display goes on.
    pub still_waiting: bool,
    pub next: NextCall,
}

/// The call that the capture thread makes next.
#[derive(Debug, Clone, Copy, PartialEq, Eq, Structural)]
pub enum NextCall {
    /// Wait, then build a capturer.
    RetryLater,
    CaptureFrame,
    EncodeFrame,
    /// End the thread.
    Stop,
}

/// An event as a value.
#[verifier::ext_equal]
pub enum CaptureEventModel {
    Ready(Resolution),
    BuildFailed { transient: bool, error: Seq<char> },
    EncoderFailed { error: Seq<char> },
    Captured { size: Resolution, requested_kbps: u32 },
    CaptureFailed,
    Encoded { codec: Codec, timestamp_micros: u64, payload: Seq<u8> },
    EncodeFailed,
    Unheard,
}

impl View for CaptureEvent {
    type V = CaptureEventModel;

    open spec fn view(&self) -> CaptureEventModel {
        match *self {
            CaptureEvent::Ready(r) => CaptureEventModel::Ready(r),
            CaptureEvent::BuildFailed { transient, error } => CaptureEventModel::BuildFailed {
                transient,
                error: error@,
            },
            CaptureEvent::EncoderFailed { error } => CaptureEventModel::EncoderFailed {
                error: error@,
            },
            CaptureEvent::Captured { size, requested_kbps } => CaptureEventModel::Captured {
                size,
                requested_kbps,
            },
            CaptureEvent::CaptureFailed => CaptureEventModel::CaptureFailed,
            CaptureEvent::Encoded { codec, timestamp_micros, payload } =>
                CaptureEventModel::Encoded {
                    codec,
                    timestamp_micros,
                    payload: bytes_of(payload),
                },
            CaptureEvent::EncodeFailed => CaptureEventModel::EncodeFailed,
            CaptureEvent::Unheard => CaptureEventModel::Unheard,
        }
    }
}

/// A step as a value; the frame as the message that carries it.
#[verifier::ext_equal]
pub struct CaptureStepModel {
    pub report: Option<Result<(), Seq<char>>>,
    pub announce: Option<Resolution>,
    pub set_bitrate: Option<u32>,
    pub publish: Option<MessageModel>,
    pub still_waiting: bool,
    pub next: NextCall,
}

impl View for CaptureStep {
    type V = CaptureStepModel;

    open spec fn view(&self) -> CaptureStepModel {
        CaptureStepModel {
            report: match self.report {
                Some(Ok(())) => Some(Ok(())),
                Some(Err(error)) => Some(Err(error@)),
                None => None,
            },
            announce: self.announce,
            set_bitrate: self.set_bitrate,
            publish: match self.publish {
                Some(f) => Some(f.message()),
                None => None,
            },
            still_waiting: self.still_waiting,
            next: self.next,
        }
    }
}

/// Nothing but the next call.
pub open spec fn only(next: NextCall) -> CaptureStepModel {
    CaptureStepModel {
        report: None,
        announce: None,
        set_bitrate: None,
        publish: None,
        still_waiting: false,
        next,
    }
}

/// The events that can happen in a phase: building before the capture runs,
/// capturing and encoding while it does.
pub open spec fn fits(phase: CapturePhase, ev: CaptureEventModel) -> bool {
    match phase {
        CapturePhase::Starting => ev is Ready || ev is BuildFailed || ev is EncoderFailed,
        CapturePhase::Retrying { attempts } => ev is Ready || (ev is BuildFailed && attempts
            < u32::MAX),
        CapturePhase::Running(_) => !(ev is Ready) && !(ev is BuildFailed) && !(
        ev is EncoderFailed),
        CapturePhase::Stopped => false,
    }
}

/// What an event does to the capture thread.
pub open spec fn advanced(phase: CapturePhase, ev: CaptureEventModel) -> (
    CapturePhase,
    CaptureStepModel,
) {
    match (phase, ev) {
        (CapturePhase::Starting, CaptureEventModel::Ready(r)) => (
            CapturePhase::Running(CaptureLoop { resolution: r, seq: 0 }),
            CaptureStepModel {
                report: Some(Ok(())),
                announce: Some(r),
                ..only(NextCall::CaptureFrame)
            },
        ),
        (CapturePhase::Starting, CaptureEventModel::BuildFailed { transient, error }) => if transient {
            (
                CapturePhase::Retrying { attempts: 0 },
                CaptureStepModel { report: Some(Ok(())), ..only(NextCall::RetryLater) },
            )
        } else {
            (
                CapturePhase::Stopped,
                CaptureStepModel { report: Some(Err(error)), ..only(NextCall::Stop) },
            )
        },
        (CapturePhase::Starting, CaptureEventModel::EncoderFailed { error }) => (
            CapturePhase::Stopped,
            CaptureStepModel { report: Some(Err(error)), ..only(NextCall::Stop) },
        ),
        (CapturePhase::Retrying { .. }, CaptureEventModel::Ready(r)) => (
            CapturePhase::Running(CaptureLoop { resolution: r, seq: 0 }),
            CaptureStepModel { announce: Some(r), ..only(NextCall::CaptureFrame) },
        ),
        (CapturePhase::Retrying { attempts }, _) => (
            CapturePhase::Retrying { attempts: (attempts + 1) as u32 },
            CaptureStepModel {
                still_waiting: (attempts + 1) % REPORT_EVERY as int == 0,
                ..only(NextCall::RetryLater)
            },
        ),
        (CapturePhase::Running(c), CaptureEventModel::Captured { size, requested_kbps }) => (
            CapturePhase::Running(CaptureLoop { resolution: size, ..c }),
            CaptureStepModel {
                announce: if size != c.resolution {
                    Some(size)
                } else {
                    None
                },
                set_bitrate: if requested_kbps != 0 {
                    Some(requested_kbps)
                } else {
                    None
                },
                ..only(NextCall::EncodeFrame)
            },
        ),
        (
            CapturePhase::Running(c),
            CaptureEventModel::Encoded { codec, timestamp_micros, payload },
        ) => {
            let seq = next_seq(c.seq);
            (
                CapturePhase::Running(CaptureLoop { seq, ..c }),
                CaptureStepModel {
                    publish: Some(
                        MessageModel::FrameData { codec, seq, timestamp_micros, payload },
                    ),
                    ..only(NextCall::CaptureFrame)
                },
            )
        },
        (CapturePhase::Running(_), CaptureEventModel::EncodeFailed) => (
            phase,
            only(NextCall::CaptureFrame),
        ),
        _ => (CapturePhase::Stopped, only(NextCall::Stop)),
    }
}

fn plain(next: NextCall) -> (r: CaptureStep)
    ensures
        r@ == only(next),
        r.publish is None,
        r.report is None,
{
    CaptureStep {
        report: None,
        announce: None,
        set_bitrate: None,
        publish: None,
        still_waiting: false,
        next,
    }
}

impl CapturePhase {
    /// Take an event; what to do next. Hard construction errors (e.g. missing
    /// permission) fail daemon startup; a transient one instead reports success
    /// and retries in the background: the daemon must stay reachable while the
    /// display sleeps, because an incoming controller's input is what wakes it.
    pub fn advance(&mut self, event: CaptureEvent) -> (r: CaptureStep)
        requires
            fits(*old(self), event@),
        ensures
            (*final(self), r@) == advanced(*old(self), event@),
    {
        match *self {
            CapturePhase::Starting => match event {
                CaptureEvent::Ready(resolution) => {
                    *self = CapturePhase::Running(CaptureLoop::new(resolution));
                    let mut r: CaptureStep = plain(NextCall::CaptureFrame);
                    r.report = Some(Ok(()));
                    r.announce = Some(resolution);
                    r
                },
                CaptureEvent::BuildFailed { transient, error } => {
                    if transient {
                        *self = CapturePhase::Retrying { attempts: 0 };
                        let mut r: CaptureStep = plain(NextCall::RetryLater);
                        r.report = Some(Ok(()));
                        r
                    } else {
                        *self = CapturePhase::Stopped;
                        let mut r: CaptureStep = plain(NextCall::Stop);
                        r.report = Some(Err(error));
                        r
                    }
                },
                CaptureEvent::EncoderFailed { error } => {
                    *self = CapturePhase::Stopped;
                    let mut r: CaptureStep = plain(NextCall::Stop);
                    r.report = Some(Err(error));
                    r
                },
                _ => {
                    *self = CapturePhase::Stopped;
                    plain(NextCall::Stop)
                },
            },
            CapturePhase::Retrying { attempts } => match event {
                CaptureEvent::Ready(resolution) => {
                    *self = CapturePhase::Running(CaptureLoop::new(resolution));
                    let mut r: CaptureStep = plain(NextCall::CaptureFrame);
                    r.announce = Some(resolution);
                    r
                },
                _ => {
                    let attempts: u32 = attempts + 1;
                    *self = CapturePhase::Retrying { attempts };
                    let mut r: CaptureStep = plain(NextCall::RetryLater);
                    r.still_waiting = attempts % REPORT_EVERY == 0;
                    r
                },
            },
            CapturePhase::Running(mut c) => match event {
                CaptureEvent::Captured { size, requested_kbps } => {
                    let mut r: CaptureStep = plain(NextCall::EncodeFrame);
                    r.announce = c.on_captured(size);
                    if requested_kbps != 0 {
                        r.set_bitrate = Some(requested_kbps);
                    }
                    *self = CapturePhase::Running(c);
                    r
                },
                CaptureEvent::Encoded { codec, timestamp_micros, payload } => {
                    let mut r: CaptureStep = plain(NextCall::CaptureFrame);
                    r.publish = Some(c.on_encoded(codec, timestamp_micros, payload));
                    *self = CapturePhase::Running(c);
                    r
                },
                CaptureEvent::EncodeFailed => plain(NextCall::CaptureFrame),
                _ => {
                    *self = CapturePhase::Stopped;
                    plain(NextCall::Stop)
                },
            },
            CapturePhase::Stopped => plain(NextCall::Stop),
        }
    }
}

/// Startup is reported exactly once: a capturer that is there or may come later
/// is a success; an encoder that cannot be built, or a capturer that cannot, fails
/// it with its own error and ends the thread.
pub proof fn law_startup_is_reported_once(phase: CapturePhase, ev: CaptureEventModel)
    requires
        fits(phase, ev),
    ensures
        advanced(phase, ev).1.report is Some <==> phase is Starting,
        phase is Starting ==> advanced(phase, ev).1.report == match ev {
            CaptureEventModel::EncoderFailed { error } => Some(Err::<(), Seq<char>>(error)),
            CaptureEventModel::BuildFailed { transient: false, error } => Some(
                Err::<(), Seq<char>>(error),
            ),
            _ => Some(Ok::<(), Seq<char>>(())),
        },
        advanced(phase, ev).1.report matches Some(Err(_)) ==> advanced(phase, ev).0
            == CapturePhase::Stopped && advanced(phase, ev).1.next == NextCall::Stop,
        !(advanced(phase, ev).0 is Starting),
{
}

/// Where no display is there at startup, construction is tried again until it
/// succeeds, whatever it fails with meanwhile.
pub proof fn law_construction_is_retried(phase: CapturePhase, ev: CaptureEventModel)
    requires
        fits(phase, ev),
        phase is Retrying || (phase is Starting && ev matches CaptureEventModel::BuildFailed {
            transient: true,
            ..
        }),
    ensures
        if ev is Ready {
            advanced(phase, ev).0 is Running && advanced(phase, ev).1.next
                == NextCall::CaptureFrame
        } else {
            advanced(phase, ev).0 is Retrying && advanced(phase, ev).1.next == NextCall::RetryLater
        },
{
}

/// Frames are numbered from one upward without gaps: a frame that is dropped or
/// fails to encode takes no number.
pub proof fn law_frames_are_numbered_without_gaps(c: CaptureLoop, ev: CaptureEventModel)
    requires
        fits(CapturePhase::Running(c), ev),
    ensures
        ({
            let (after, step) = advanced(CapturePhase::Running(c), ev);
            match step.publish {
                Some(m) => m matches MessageModel::FrameData { seq, .. } && seq == next_seq(c.seq)
                    && after == CapturePhase::Running(CaptureLoop { seq, ..c }),
                None => after matches CapturePhase::Running(d) ==> d.seq == c.seq,
            }
        }),
{
}

/// The resolution that was announced last is the one of the last frame, so a
/// change is announced before the first frame of the new size is encoded.
pub proof fn law_resolution_is_announced_on_change(
    c: CaptureLoop,
    size: Resolution,
    requested_kbps: u32,
)
    ensures
        ({
            let (after, step) = advanced(
                CapturePhase::Running(c),
                CaptureEventModel::Captured { size, requested_kbps },
            );
            &&& after == CapturePhase::Running(CaptureLoop { resolution: size, ..c })
            &&& step.announce is Some <==> size != c.resolution
            &&& step.announce is Some ==> step.announce == Some(size)
            &&& step.next == NextCall::EncodeFrame
        }),
{
}

/// A receiver that reassembles frames by their numbers takes each frame for
/// newer than the one before it, also where the numbers wrap around.
pub proof fn law_numbers_advance(seq: u32)
    ensures
        crate::chunks::older(seq, next_seq(seq)),
        !crate::chunks::older(next_seq(seq), seq),
{
}

} // verus!
