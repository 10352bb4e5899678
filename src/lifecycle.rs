use vstd::prelude::*;

use crate::error::SourceError;
use crate::format::FormatState;

verus! {

/// A state change the host asks of the element.
#[derive(Clone, Copy, Debug, PartialEq, Eq, Structural)]
pub enum Transition {
    NullToReady,
    ReadyToPaused,
    PausedToPlaying,
    PlayingToPaused,
    PausedToReady,
    ReadyToNull,
    /// A change from a state to itself.
    Stay,
}

/// What the host is told, and has to do, once a state change went through.
#[derive(Clone, Copy, Debug, PartialEq, Eq, Structural)]
pub enum TransitionOutcome {
    Success,
    /// The element is live: it cannot preroll in Paused.
    NoPreroll,
    /// The backend has to be told to start producing frames.
    StartCapture,
}

/// The element's lifecycle state. The capture backend's handle lives inside
/// the two states in which it is valid, so a handle outside them cannot be
/// represented.
#[derive(Debug)]
pub enum Lifecycle<B> {
    Null,
    Ready,
    Paused(B),
    Playing(B),
}

impl<B> Lifecycle<B> {
    /// The backend handle, if the state holds one.
    pub open spec fn handle(self) -> Option<B> {
        match self {
            Lifecycle::Paused(b) => Some(b),
            Lifecycle::Playing(b) => Some(b),
            _ => None,
        }
    }

    pub open spec fn has_backend(self) -> bool {
        self.handle() is Some
    }

    /// The state after a stop: the handle is gone and the element is ready.
    pub open spec fn stopped(self) -> Lifecycle<B> {
        match self {
            Lifecycle::Null => Lifecycle::Null,
            _ => Lifecycle::Ready,
        }
    }

    /// What a stop reports: the handle to shut down, or that there was none.
    pub open spec fn stop_result(self) -> Result<B, SourceError> {
        match self.handle() {
            Some(b) => Ok(b),
            None => Err(SourceError::Shutdown),
        }
    }

    /// Puts `next` in place and hands back the state it replaced.
    fn replace_with(&mut self, next: Lifecycle<B>) -> (r: Lifecycle<B>)
        ensures
            r == *old(self),
            *final(self) == next,
    {
        let mut prev = next;
        core::mem::swap(self, &mut prev);
        prev
    }

    pub fn new() -> (r: Lifecycle<B>)
        ensures
            r is Null,
    {
        Lifecycle::Null
    }

    /// Null to Ready. Other states are left as they are.
    pub fn open(&mut self)
        ensures
            *final(self) == (if *old(self) is Null {
                Lifecycle::Ready
            } else {
                *old(self)
            }),
    {
        if let Lifecycle::Null = self {
            *self = Lifecycle::Ready;
        }
    }

    /// Ready to Null. Other states are left as they are.
    pub fn close(&mut self)
        ensures
            *final(self) == (if *old(self) is Ready {
                Lifecycle::Null
            } else {
                *old(self)
            }),
    {
        if let Lifecycle::Ready = self {
            *self = Lifecycle::Null;
        }
    }

    /// First half of Ready to Paused: hands back a stale handle, if any, for
    /// the caller to stop, and starts a new presentation clock. The caller
    /// then builds a backend from the settings and installs it.
    pub fn begin_start(&mut self, format: &mut FormatState) -> (r: Option<B>)
        ensures
            r == old(self).handle(),
            *final(self) == Lifecycle::<B>::Ready,
            *final(format) == old(format).restarted(),
    {
        format.reset_clock();
        let prev = self.replace_with(Lifecycle::Ready);
        match prev {
            Lifecycle::Paused(b) => Some(b),
            Lifecycle::Playing(b) => Some(b),
            _ => None,
        }
    }

    /// Second half of Ready to Paused: the newly built backend becomes the
    /// element's. A handle that was still installed is handed back to stop.
    pub fn install(&mut self, backend: B) -> (r: Option<B>)
        ensures
            r == old(self).handle(),
            *final(self) == Lifecycle::Paused(backend),
    {
        let prev = self.replace_with(Lifecycle::Paused(backend));
        match prev {
            Lifecycle::Paused(b) => Some(b),
            Lifecycle::Playing(b) => Some(b),
            _ => None,
        }
    }

    /// Second half of Ready to Paused, given the outcome of building the
    /// backend. A failed build fails the start and leaves the state as it
    /// was; a built backend is installed as by [`Lifecycle::install`].
    pub fn finish_start(&mut self, built: Option<B>) -> (r: Result<Option<B>, SourceError>)
        ensures
            match built {
                None => r == Err::<Option<B>, SourceError>(SourceError::Init) && *final(self)
                    == *old(self),
                Some(b) => r == Ok::<Option<B>, SourceError>(old(self).handle()) && *final(self)
                    == Lifecycle::Paused(b),
            },
    {
        match built {
            None => Err(SourceError::Init),
            Some(b) => Ok(self.install(b)),
        }
    }

    /// Paused to Playing. Without a backend the transition fails; the caller
    /// tells the backend to start producing once this succeeds.
    pub fn play(&mut self) -> (r: Result<(), SourceError>)
        ensures
            r is Ok <==> old(self).has_backend(),
            r is Err ==> r == Err::<(), SourceError>(SourceError::Init) && *final(self) == *old(self),
            r is Ok ==> *final(self) == Lifecycle::Playing(old(self).handle().unwrap()),
    {
        let prev = self.replace_with(Lifecycle::Null);
        match prev {
            Lifecycle::Paused(b) => {
                *self = Lifecycle::Playing(b);
                Ok(())
            },
            Lifecycle::Playing(b) => {
                *self = Lifecycle::Playing(b);
                Ok(())
            },
            other => {
                *self = other;
                Err(SourceError::Init)
            },
        }
    }

    /// Playing to Paused. The backend keeps running.
    pub fn pause(&mut self)
        ensures
            *final(self) == (match *old(self) {
                Lifecycle::Playing(b) => Lifecycle::Paused(b),
                other => other,
            }),
    {
        let prev = self.replace_with(Lifecycle::Null);
        *self = match prev {
            Lifecycle::Playing(b) => Lifecycle::Paused(b),
            other => other,
        };
    }

    /// Paused to Ready: takes the handle out for the caller to stop. Without
    /// one the stop is reported, and the element is ready all the same.
    pub fn stop(&mut self) -> (r: Result<B, SourceError>)
        ensures
            r == old(self).stop_result(),
            *final(self) == old(self).stopped(),
    {
        let prev = self.replace_with(Lifecycle::Null);
        match prev {
            Lifecycle::Null => Err(SourceError::Shutdown),
            Lifecycle::Ready => {
                *self = Lifecycle::Ready;
                Err(SourceError::Shutdown)
            },
            Lifecycle::Paused(b) => {
                *self = Lifecycle::Ready;
                Ok(b)
            },
            Lifecycle::Playing(b) => {
                *self = Lifecycle::Ready;
                Ok(b)
            },
        }
    }

    /// The state after the host's half of transition `t` and this element's.
    /// Ready to Paused and Paused to Ready leave the handle alone here: the
    /// host runs them through the start and stop steps.
    pub open spec fn after_transition(self, t: Transition) -> Lifecycle<B> {
        match t {
            Transition::NullToReady => if self is Null {
                Lifecycle::Ready
            } else {
                self
            },
            Transition::ReadyToNull => if self is Ready {
                Lifecycle::Null
            } else {
                self
            },
            Transition::PausedToPlaying => match self {
                Lifecycle::Paused(b) => Lifecycle::Playing(b),
                other => other,
            },
            Transition::PlayingToPaused => match self {
                Lifecycle::Playing(b) => Lifecycle::Paused(b),
                other => other,
            },
            _ => self,
        }
    }

    /// Completes a state change the host has carried out.
    pub fn change_state(&mut self, t: Transition) -> (r: Result<TransitionOutcome, SourceError>)
        ensures
            *final(self) == old(self).after_transition(t),
            r == (match t {
                Transition::ReadyToPaused => Ok(TransitionOutcome::NoPreroll),
                Transition::PausedToPlaying => if old(self).has_backend() {
                    Ok(TransitionOutcome::StartCapture)
                } else {
                    Err(SourceError::Init)
                },
                _ => Ok(TransitionOutcome::Success),
            }),
    {
        match t {
            Transition::NullToReady => {
                self.open();
                Ok(TransitionOutcome::Success)
            },
            Transition::ReadyToPaused => Ok(TransitionOutcome::NoPreroll),
            Transition::PausedToPlaying => match self.play() {
                Ok(()) => Ok(TransitionOutcome::StartCapture),
                Err(e) => Err(e),
            },
            Transition::PlayingToPaused => {
                self.pause();
                Ok(TransitionOutcome::Success)
            },
            Transition::PausedToReady => Ok(TransitionOutcome::Success),
            Transition::ReadyToNull => {
                self.close();
                Ok(TransitionOutcome::Success)
            },
            Transition::Stay => Ok(TransitionOutcome::Success),
        }
    }

    /// The backend to pull a frame from. Production without one is refused.
    pub fn backend(&self) -> (r: Result<&B, SourceError>)
        ensures
            r is Ok <==> self.has_backend(),
            r matches Ok(b) ==> Some(*b) == self.handle(),
            r is Err ==> r == Err::<&B, SourceError>(SourceError::NotNegotiated),
    {
        match self {
            Lifecycle::Paused(b) => Ok(b),
            Lifecycle::Playing(b) => Ok(b),
            _ => Err(SourceError::NotNegotiated),
        }
    }
}

} // verus!
