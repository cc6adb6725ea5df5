//! What the capture thread does about each event.

use bytes::Bytes;
use vstd::prelude::*;

use super::{advanced, CaptureEvent, CaptureLoop, CapturePhase, NextCall, DISPLAY_RETRY_SECS};
use crate::buffers::bytes_of;
use crate::protocol::{Codec, MessageModel, Resolution};

verus! {

/// An encoded frame is published whole, with the codec, the time and the bytes it was
/// encoded with, under the number after the last one, 0 after the largest; then the next
/// one is captured. Nothing else happens.
pub proof fn law_frames_are_published_whole(
    c: CaptureLoop,
    codec: Codec,
    timestamp_micros: u64,
    payload: Bytes,
)
    ensures
        ({
            let (after, step) = advanced(
                CapturePhase::Running(c),
                CaptureEvent::Encoded { codec, timestamp_micros, payload }@,
            );
            let number: u32 = if c.seq == 0xffff_ffff {
                0
            } else {
                (c.seq + 1) as u32
            };
            &&& after == CapturePhase::Running(
                CaptureLoop { resolution: c.resolution, seq: number },
            )
            &&& step.publish == Some(
                MessageModel::FrameData {
                    codec,
                    seq: number,
                    timestamp_micros,
                    payload: bytes_of(payload),
                },
            )
            &&& step.next == NextCall::CaptureFrame
            &&& step.report is None && step.announce is None && step.set_bitrate is None
            &&& !step.still_waiting
        }),
{
}

/// A captured frame is encoded next. Its size is announced where it differs from the
/// last one's, and the bitrate that is asked for is handed to the encoder unless it is
/// zero. Nothing is published yet.
pub proof fn law_captures_are_encoded(c: CaptureLoop, size: Resolution, requested_kbps: u32)
    ensures
        ({
            let (after, step) = advanced(
                CapturePhase::Running(c),
                CaptureEvent::Captured { size, requested_kbps }@,
            );
            &&& after == CapturePhase::Running(CaptureLoop { resolution: size, seq: c.seq })
            &&& size == c.resolution ==> step.announce is None
            &&& size != c.resolution ==> step.announce == Some(size)
            &&& requested_kbps == 0 ==> step.set_bitrate is None
            &&& requested_kbps > 0 ==> step.set_bitrate == Some(requested_kbps)
            &&& step.next == NextCall::EncodeFrame
            &&& step.publish is None && step.report is None && !step.still_waiting
        }),
{
}

/// A frame that does not encode is skipped: the next one is captured and nothing else
/// happens. A capture that fails, and nobody to hear, ends the thread.
pub proof fn law_failures_while_running(c: CaptureLoop)
    ensures
        ({
            let (after, step) = advanced(CapturePhase::Running(c), CaptureEvent::EncodeFailed@);
            &&& after == CapturePhase::Running(c)
            &&& step.next == NextCall::CaptureFrame
            &&& step.publish is None && step.report is None && step.announce is None
            &&& step.set_bitrate is None && !step.still_waiting
        }),
        ({
            let (after, step) = advanced(CapturePhase::Running(c), CaptureEvent::CaptureFailed@);
            &&& after == CapturePhase::Stopped
            &&& step.next == NextCall::Stop
            &&& step.publish is None && step.report is None && step.announce is None
            &&& step.set_bitrate is None && !step.still_waiting
        }),
        ({
            let (after, step) = advanced(CapturePhase::Running(c), CaptureEvent::Unheard@);
            &&& after == CapturePhase::Stopped
            &&& step.next == NextCall::Stop
            &&& step.publish is None && step.report is None && step.announce is None
            &&& step.set_bitrate is None && !step.still_waiting
        }),
{
}

/// A capturer that is there, at startup or after waiting for it, runs from number 0 on,
/// and its resolution is announced before the first frame is captured. Only at startup is
/// its success reported.
pub proof fn law_capture_starts(r: Resolution, attempts: u32)
    ensures
        ({
            let (after, step) = advanced(CapturePhase::Starting, CaptureEvent::Ready(r)@);
            &&& after == CapturePhase::Running(CaptureLoop { resolution: r, seq: 0 })
            &&& step.report == Some(Ok::<(), Seq<char>>(()))
            &&& step.announce == Some(r)
            &&& step.next == NextCall::CaptureFrame
            &&& step.publish is None && step.set_bitrate is None && !step.still_waiting
        }),
        ({
            let (after, step) = advanced(
                CapturePhase::Retrying { attempts },
                CaptureEvent::Ready(r)@,
            );
            &&& after == CapturePhase::Running(CaptureLoop { resolution: r, seq: 0 })
            &&& step.report is None
            &&& step.announce == Some(r)
            &&& step.next == NextCall::CaptureFrame
            &&& step.publish is None && step.set_bitrate is None && !step.still_waiting
        }),
{
}

/// A capturer that cannot be built for now is tried again, every three seconds, and
/// startup is reported as a success; every twentieth failure says that the wait goes on. One
/// that cannot be built at all, and an encoder that cannot, fail startup with their own
/// words.
pub proof fn law_builds_that_fail(transient: bool, error: String, attempts: u32)
    requires
        attempts < u32::MAX,
    ensures
        DISPLAY_RETRY_SECS == 3,
        ({
            let (after, step) = advanced(
                CapturePhase::Starting,
                CaptureEvent::BuildFailed { transient, error }@,
            );
            &&& transient ==> after == CapturePhase::Retrying { attempts: 0 } && step.report
                == Some(Ok::<(), Seq<char>>(())) && step.next == NextCall::RetryLater
            &&& !transient ==> after == CapturePhase::Stopped && step.report == Some(
                Err::<(), Seq<char>>(error@),
            ) && step.next == NextCall::Stop
            &&& step.announce is None && step.publish is None && step.set_bitrate is None
            &&& !step.still_waiting
        }),
        ({
            let (after, step) = advanced(
                CapturePhase::Starting,
                CaptureEvent::EncoderFailed { error }@,
            );
            &&& after == CapturePhase::Stopped
            &&& step.report == Some(Err::<(), Seq<char>>(error@))
            &&& step.next == NextCall::Stop
        }),
        ({
            let (after, step) = advanced(
                CapturePhase::Retrying { attempts },
                CaptureEvent::BuildFailed { transient, error }@,
            );
            &&& after == CapturePhase::Retrying { attempts: (attempts + 1) as u32 }
            &&& step.still_waiting <==> (attempts + 1) % 20 == 0
            &&& step.next == NextCall::RetryLater
            &&& step.report is None && step.announce is None && step.publish is None
            &&& step.set_bitrate is None
        }),
{
}

} // verus!
