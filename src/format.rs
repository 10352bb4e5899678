use vstd::prelude::*;

use crate::error::SourceError;
use crate::frame::{info_of, FrameInfo, RawFrame, VideoFormat};

verus! {

/// Whether a frame of format `observed` has to be proposed to the consumer
/// before it can be emitted.
pub open spec fn needs_renegotiation(negotiated: Option<VideoFormat>, observed: VideoFormat) -> bool {
    negotiated != Some(observed)
}

/// The baseline in force once a frame captured at `ts` has been seen.
pub open spec fn next_baseline(baseline: Option<u64>, ts: u64) -> u64 {
    match baseline {
        Some(b) => b,
        None => ts,
    }
}

/// The output timestamp of a frame captured at `ts`, against `baseline`.
/// A frame captured before the baseline is stamped at zero.
pub open spec fn output_pts(baseline: u64, ts: u64) -> u64 {
    if ts >= baseline {
        (ts - baseline) as u64
    } else {
        0
    }
}

/// One stamping of a frame captured at `ts`: the clock goes from baseline
/// `before` to `after`, and the frame is stamped `pts`.
pub open spec fn stamp_step(before: Option<u64>, ts: u64, after: Option<u64>, pts: u64) -> bool {
    &&& after == Some(next_baseline(before, ts))
    &&& pts == output_pts(next_baseline(before, ts), ts)
}

/// A buffer ready to be handed downstream.
#[derive(Debug)]
pub struct OutputBuffer {
    pub data: Vec<u8>,
    /// Presentation timestamp in nanoseconds, counted from the first frame of
    /// the current start cycle.
    pub pts: u64,
}

/// A frame held back while its format is being proposed to the consumer.
#[derive(Debug)]
pub struct PendingFrame {
    pub info: FrameInfo,
    pub data: Vec<u8>,
    /// The format negotiated before the proposal, restored on rejection.
    pub previous: Option<VideoFormat>,
}

/// A format learned by the internal preroll, to be proposed to the consumer.
#[derive(Clone, Copy, Debug, PartialEq, Eq, Structural)]
pub struct PrerollProposal {
    pub format: VideoFormat,
    /// The format negotiated before the preroll, restored on rejection.
    pub previous: Option<VideoFormat>,
}

/// What to do with a frame that passed translation.
#[derive(Debug)]
pub enum FrameStep {
    /// The frame matches the negotiated format and is ready.
    Emit(OutputBuffer),
    /// The format must be proposed to the consumer first; the outcome goes
    /// to [`FormatState::on_negotiated`] together with the frame.
    Renegotiate(VideoFormat, PendingFrame),
}

/// The answer to a format query from the consumer.
#[derive(Clone, Copy, Debug, PartialEq, Eq, Structural)]
pub enum CapsAnswer {
    /// The format learned so far.
    Known(VideoFormat),
    /// No format has been learned yet.
    Unknown,
    /// Without an internal preroll the host answers with its own defaults.
    HostDefault,
}

/// The negotiated format and the presentation clock.
#[derive(Debug)]
pub struct FormatState {
    /// The format last accepted by the consumer.
    pub negotiated: Option<VideoFormat>,
    /// The capture time of the first frame of the current start cycle.
    pub baseline: Option<u64>,
    /// The frame pulled by the internal preroll, emitted as the first output.
    pub prerolled: Option<RawFrame>,
}

impl FormatState {
    /// The state at the start of a new cycle: the clock and any held preroll
    /// frame are dropped, the negotiated format is kept.
    pub open spec fn restarted(self) -> FormatState {
        FormatState { negotiated: self.negotiated, baseline: None, prerolled: None }
    }

    /// The state after a frame of description `info` was emitted.
    pub open spec fn after_emit(self, info: FrameInfo) -> FormatState {
        FormatState {
            negotiated: Some(info.format()),
            baseline: Some(next_baseline(self.baseline, info.pts)),
            prerolled: self.prerolled,
        }
    }

    pub fn new() -> (r: FormatState)
        ensures
            r.negotiated is None,
            r.baseline is None,
            r.prerolled is None,
    {
        FormatState { negotiated: None, baseline: None, prerolled: None }
    }

    /// Starts a new presentation clock.
    pub fn reset_clock(&mut self)
        ensures
            *final(self) == old(self).restarted(),
    {
        self.baseline = None;
        self.prerolled = None;
    }

    /// Records a format the consumer has accepted.
    pub fn set_format(&mut self, format: VideoFormat)
        ensures
            final(self).negotiated == Some(format),
            final(self).baseline == old(self).baseline,
            final(self).prerolled == old(self).prerolled,
    {
        self.negotiated = Some(format);
    }

    /// Answers a format query with the negotiated format. Before any format
    /// is known, the element answers "unknown" itself when it learns formats
    /// by an internal preroll, and leaves the answer to the host otherwise.
    pub fn caps_query(&self, preroll_enabled: bool) -> (r: CapsAnswer)
        ensures
            r == (match self.negotiated {
                Some(f) => CapsAnswer::Known(f),
                None => if preroll_enabled {
                    CapsAnswer::Unknown
                } else {
                    CapsAnswer::HostDefault
                },
            }),
    {
        match self.negotiated {
            Some(f) => CapsAnswer::Known(f),
            None => if preroll_enabled {
                CapsAnswer::Unknown
            } else {
                CapsAnswer::HostDefault
            },
        }
    }

    /// Stamps a frame captured at `ts`, taking it as the baseline when none
    /// is set yet.
    pub fn timestamp(&mut self, ts: u64) -> (r: u64)
        ensures
            stamp_step(old(self).baseline, ts, final(self).baseline, r),
            final(self).negotiated == old(self).negotiated,
            final(self).prerolled == old(self).prerolled,
    {
        let base: u64 = match self.baseline {
            Some(b) => b,
            None => ts,
        };
        self.baseline = Some(base);
        if ts >= base {
            ts - base
        } else {
            0
        }
    }
    /// Takes the frame held by the internal preroll, if any.
    pub fn take_prerolled(&mut self) -> (r: Option<RawFrame>)
        ensures
            r == old(self).prerolled,
            final(self).prerolled is None,
            final(self).negotiated == old(self).negotiated,
            final(self).baseline == old(self).baseline,
    {
        self.prerolled.take()
    }

    /// Learns the format from the frame pulled right after the backend was
    /// built. The frame becomes the baseline and is held to be emitted first;
    /// its format is to be proposed to the consumer, and the outcome goes to
    /// [`FormatState::finish_preroll`].
    pub fn on_preroll(&mut self, pulled: Option<RawFrame>) -> (r: Result<PrerollProposal, SourceError>)
        ensures
            match pulled {
                None => r == Err::<PrerollProposal, SourceError>(SourceError::Init) && *final(self)
                    == *old(self),
                Some(frame) => match info_of(frame) {
                    None => r == Err::<PrerollProposal, SourceError>(SourceError::Init)
                        && *final(self) == *old(self),
                    Some(info) => r == Ok::<PrerollProposal, SourceError>(
                        PrerollProposal { format: info.format(), previous: old(self).negotiated },
                    ) && *final(self) == (FormatState {
                        negotiated: old(self).negotiated,
                        baseline: Some(info.pts),
                        prerolled: Some(frame),
                    }),
                },
            },
    {
        let frame = match pulled {
            Some(f) => f,
            None => return Err(SourceError::Init),
        };
        let info = match FrameInfo::new(&frame) {
            Some(i) => i,
            None => return Err(SourceError::Init),
        };
        let proposal = PrerollProposal { format: info.format(), previous: self.negotiated };
        self.baseline = Some(info.pts);
        self.prerolled = Some(frame);
        Ok(proposal)
    }

    /// Completes the internal preroll. When the consumer accepted the
    /// proposed format it becomes the negotiated one. Otherwise the start
    /// fails: the earlier format is restored and the clock and held frame are
    /// dropped.
    pub fn finish_preroll(&mut self, proposal: PrerollProposal, accepted: bool) -> (r: Result<
        (),
        SourceError,
    >)
        ensures
            accepted ==> r == Ok::<(), SourceError>(()) && *final(self) == (FormatState {
                negotiated: Some(proposal.format),
                ..*old(self)
            }),
            !accepted ==> r == Err::<(), SourceError>(SourceError::Init) && *final(self) == (
            FormatState { negotiated: proposal.previous, baseline: None, prerolled: None }),
    {
        if accepted {
            self.negotiated = Some(proposal.format);
            Ok(())
        } else {
            self.negotiated = proposal.previous;
            self.baseline = None;
            self.prerolled = None;
            Err(SourceError::Init)
        }
    }

    /// Runs a pulled frame through translation and the format check. A frame
    /// in the negotiated format comes back stamped; any other is handed back
    /// with the format to propose, and the state is left as it was.
    pub fn on_frame(&mut self, pulled: Option<RawFrame>) -> (r: Result<FrameStep, SourceError>)
        ensures
            match pulled {
                None => r matches Err(e) && e == SourceError::BackendRead && *final(self)
                    == *old(self),
                Some(frame) => match info_of(frame) {
                    None => r matches Err(e) && e == SourceError::UnsupportedFormat
                        && *final(self) == *old(self),
                    Some(info) => if needs_renegotiation(old(self).negotiated, info.format()) {
                        &&& r matches Ok(FrameStep::Renegotiate(f, p))
                        &&& f == info.format()
                        &&& p.info == info
                        &&& p.data@ == frame.data@
                        &&& p.previous == old(self).negotiated
                        &&& *final(self) == *old(self)
                    } else {
                        &&& r matches Ok(FrameStep::Emit(b))
                        &&& b.data@ == frame.data@
                        &&& stamp_step(old(self).baseline, info.pts, final(self).baseline, b.pts)
                        &&& *final(self) == old(self).after_emit(info)
                    },
                },
            },
    {
        let frame = match pulled {
            Some(f) => f,
            None => return Err(SourceError::BackendRead),
        };
        let info = match FrameInfo::new(&frame) {
            Some(i) => i,
            None => return Err(SourceError::UnsupportedFormat),
        };
        let format = info.format();
        let matches_negotiated = match self.negotiated {
            Some(n) => n == format,
            None => false,
        };
        if !matches_negotiated {
            return Ok(FrameStep::Renegotiate(format, PendingFrame { info, data: frame.data, previous: self.negotiated }));
        }
        let pts = self.timestamp(info.pts);
        Ok(FrameStep::Emit(OutputBuffer { data: frame.data, pts }))
    }

    /// Completes a frame held back for renegotiation. When the consumer
    /// accepted its format, that format is recorded and the frame stamped;
    /// otherwise the frame is dropped and the earlier format restored.
    pub fn on_negotiated(&mut self, pending: PendingFrame, accepted: bool) -> (r: Result<
        OutputBuffer,
        SourceError,
    >)
        ensures
            !accepted ==> r == Err::<OutputBuffer, SourceError>(SourceError::Negotiation)
                && *final(self) == (FormatState { negotiated: pending.previous, ..*old(self) }),
            accepted ==> {
                &&& r matches Ok(b)
                &&& b.data@ == pending.data@
                &&& stamp_step(old(self).baseline, pending.info.pts, final(self).baseline, b.pts)
                &&& *final(self) == old(self).after_emit(pending.info)
            },
    {
        if !accepted {
            self.negotiated = pending.previous;
            return Err(SourceError::Negotiation);
        }
        self.set_format(pending.info.format());
        let pts = self.timestamp(pending.info.pts);
        Ok(OutputBuffer { data: pending.data, pts })
    }
}

} // verus!
