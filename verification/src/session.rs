//! The audio capture session: a state machine with states Idle and
//! Recording and an ordered buffer of samples.  Exactly one session object
//! is meant to exist process-wide; the caller guards it with its own lock.
//!
//! Samples are 32-bit values: the bit encodings of the device's
//! single-precision float frames.  The session never interprets them, so the
//! encoding is carried as `u32` and converted at the boundary by the caller.

use vstd::prelude::*;
use crate::errors::CaptureError;

verus! {

/// The sample format a device delivers.  Only 32-bit float capture is
/// supported; every other native format is rejected at `start`.
#[derive(Clone, Copy, Debug, PartialEq, Eq, Structural)]
pub enum SampleFormat {
    /// 32-bit IEEE float frames.
    Float32,
    /// Any other native format.
    Other,
}

/// What a successful `start` does: the session moves to Recording with a
/// cleared buffer.
pub open spec fn start_ok(pre: CaptureSession, post: CaptureSession) -> bool {
    &&& !pre.is_recording()
    &&& post.is_recording()
    &&& post.buffer() == Seq::<u32>::empty()
}

/// What appending device frames does: while Recording the frames land at
/// the end of the buffer, in order; otherwise nothing changes.
pub open spec fn append_ok(pre: CaptureSession, post: CaptureSession, frames: Seq<u32>) -> bool {
    &&& post.is_recording() == pre.is_recording()
    &&& post.buffer() == if pre.is_recording() {
        pre.buffer() + frames
    } else {
        pre.buffer()
    }
}

/// What a successful `stop` does: the accumulated buffer comes back whole,
/// the session returns to Idle, and the internal buffer is drained.
pub open spec fn stop_ok(pre: CaptureSession, post: CaptureSession, drained: Seq<u32>) -> bool {
    &&& pre.is_recording()
    &&& !post.is_recording()
    &&& drained == pre.buffer()
    &&& post.buffer() == Seq::<u32>::empty()
}

/// A single capture session: a recording flag and the ordered sample
/// buffer accumulated since the last `start`.
pub struct CaptureSession {
    recording: bool,
    samples: Vec<u32>,
}

impl CaptureSession {
    /// The recording flag: true exactly while a session is active.
    pub closed spec fn is_recording(&self) -> bool {
        self.recording
    }

    /// The ordered sequence of samples accumulated so far.
    pub closed spec fn buffer(&self) -> Seq<u32> {
        self.samples@
    }

    /// A fresh session: Idle, empty buffer.
    pub fn new() -> (s: Self)
        ensures
            !s.is_recording(),
            s.buffer() == Seq::<u32>::empty(),
    {
        CaptureSession { recording: false, samples: Vec::new() }
    }

    /// Whether a session is currently active.
    pub fn recording(&self) -> (r: bool)
        ensures
            r == self.is_recording(),
    {
        self.recording
    }

    /// Starts a capture session.  Fails with `AlreadyRecording` while one
    /// is active and with `UnsupportedSampleFormat` unless the device
    /// delivers 32-bit floats; on either failure the session, its buffer
    /// included, is left exactly as it was.  On success the buffer is
    /// cleared and the session is Recording.
    pub fn start(&mut self, format: SampleFormat) -> (r: Result<(), CaptureError>)
        ensures
            old(self).is_recording() ==> r == Err::<(), CaptureError>(
                CaptureError::AlreadyRecording,
            ) && *final(self) == *old(self),
            !old(self).is_recording() && format != SampleFormat::Float32 ==> r == Err::<
                (),
                CaptureError,
            >(CaptureError::UnsupportedSampleFormat) && *final(self) == *old(self),
            !old(self).is_recording() && format == SampleFormat::Float32 ==> r == Ok::<
                (),
                CaptureError,
            >(()) && start_ok(*old(self), *final(self)),
    {
        if self.recording {
            return Err(CaptureError::AlreadyRecording);
        }
        if !matches!(format, SampleFormat::Float32) {
            return Err(CaptureError::UnsupportedSampleFormat);
        }
        self.samples = Vec::new();
        self.recording = true;
        Ok(())
    }

    /// Appends one batch of device frames, exactly as the driver callback
    /// does: the frames are kept only while the session is Recording.
    pub fn append(&mut self, frames: &Vec<u32>)
        ensures
            append_ok(*old(self), *final(self), frames@),
    {
        if self.recording {
            let mut i: usize = 0;
            while i < frames.len()
                invariant
                    0 <= i <= frames@.len(),
                    self.recording == old(self).recording,
                    self.samples@ == old(self).samples@ + frames@.take(i as int),
                decreases frames@.len() - i,
            {
                self.samples.push(frames[i]);
                proof {
                    assert(old(self).samples@ + frames@.take(i as int) + seq![frames@[i as int]]
                        =~= old(self).samples@ + frames@.take(i + 1));
                }
                i += 1;
            }
            proof {
                assert(frames@.take(frames@.len() as int) =~= frames@);
            }
        }
    }

    /// Stops the session.  Fails with `NotRecording` when no session is
    /// active, leaving everything as it was.  Otherwise the accumulated
    /// buffer is removed and returned whole — an empty buffer is a success,
    /// not an error — and the session returns to Idle.
    pub fn stop(&mut self) -> (r: Result<Vec<u32>, CaptureError>)
        ensures
            !old(self).is_recording() ==> r == Err::<Vec<u32>, CaptureError>(
                CaptureError::NotRecording,
            ) && *final(self) == *old(self),
            old(self).is_recording() ==> r is Ok && stop_ok(
                *old(self),
                *final(self),
                r->Ok_0@,
            ),
    {
        if !self.recording {
            return Err(CaptureError::NotRecording);
        }
        self.recording = false;
        let mut drained = Vec::new();
        core::mem::swap(&mut drained, &mut self.samples);
        Ok(drained)
    }
}

/// What a stop operation reports to the caller.  The samples are the
/// 32-bit encodings of the captured float frames, as everywhere in this
/// crate; an empty buffer is a success.
#[derive(Debug)]
pub struct AudioRecordingResult {
    pub success: bool,
    pub audio_data: Option<Vec<u32>>,
    pub error: Option<String>,
}

/// Wraps a drained buffer as the successful outcome of a stop operation.
pub fn recording_result(samples: Vec<u32>) -> (r: AudioRecordingResult)
    ensures
        r.success,
        r.audio_data == Some(samples),
        r.error is None,
{
    AudioRecordingResult { success: true, audio_data: Some(samples), error: None }
}

/// Starting from Idle and then stopping with no frames appended in between
/// succeeds and returns an empty buffer.
pub proof fn lemma_start_then_stop_is_empty(
    s0: CaptureSession,
    s1: CaptureSession,
    s2: CaptureSession,
    drained: Seq<u32>,
)
    requires
        start_ok(s0, s1),
        stop_ok(s1, s2, drained),
    ensures
        drained == Seq::<u32>::empty(),
        !s2.is_recording(),
{
}

/// Frames appended over any number of batches while Recording come back
/// from `stop` whole and in arrival order.
pub proof fn lemma_capture_round_trip(
    s0: CaptureSession,
    s1: CaptureSession,
    s2: CaptureSession,
    s3: CaptureSession,
    s4: CaptureSession,
    a: Seq<u32>,
    b: Seq<u32>,
    drained: Seq<u32>,
)
    requires
        start_ok(s0, s1),
        append_ok(s1, s2, a),
        append_ok(s2, s3, b),
        stop_ok(s3, s4, drained),
    ensures
        drained == a + b,
{
    assert(Seq::<u32>::empty() + a + b =~= a + b);
}

} // verus!
