//! Handing the staged image over: the device path is found afresh, the
//! environment loads the image from memory with that path as its origin,
//! and starts it. Every failure on the way ends the boot.

use vstd::prelude::*;
use crate::device_path::{ResolveStep, Resolution};
use crate::error::FatalError;

verus! {

/// What the boot environment is to do next.
#[derive(Clone, Copy, Debug, PartialEq, Eq)]
pub enum ChainStep {
    /// Open a protocol on the way to the device path of the running image.
    Resolve(ResolveStep),
    /// Load the image from its buffer, with the device path as its origin.
    LoadImage,
    /// Start the loaded image.
    StartImage,
}

/// How far the handing over has come.
#[derive(Clone, Copy, Debug, PartialEq, Eq)]
pub enum ChainState {
    /// The environment has a step to take.
    Pending(ChainStep),
    /// The image was started: the stub has nothing left to do.
    Started,
    /// The boot has failed.
    Failed(FatalError),
}

impl ChainStep {
    /// The place of this step in the order of the steps, from 0.
    pub open spec fn index(self) -> nat {
        match self {
            ChainStep::Resolve(ResolveStep::LoadedImage) => 0,
            ChainStep::Resolve(ResolveStep::DevicePath) => 1,
            ChainStep::LoadImage => 2,
            ChainStep::StartImage => 3,
        }
    }

    /// The handing over once the environment has said whether this step
    /// was taken.
    pub open spec fn after(self, done: bool) -> ChainState {
        match self {
            ChainStep::Resolve(step) => match step.after(done) {
                Resolution::Pending(next) => ChainState::Pending(ChainStep::Resolve(next)),
                Resolution::Resolved => ChainState::Pending(ChainStep::LoadImage),
                Resolution::Unavailable => ChainState::Failed(FatalError::ProtocolUnavailable),
            },
            ChainStep::LoadImage => if done {
                ChainState::Pending(ChainStep::StartImage)
            } else {
                ChainState::Failed(FatalError::LoadImageFailed)
            },
            ChainStep::StartImage => if done {
                ChainState::Started
            } else {
                ChainState::Failed(FatalError::StartImageFailed)
            },
        }
    }

    /// Takes the environment's answer to this step.
    pub fn next(self, done: bool) -> (s: ChainState)
        ensures
            s == self.after(done),
    {
        match self {
            ChainStep::Resolve(step) => match step.next(done) {
                Resolution::Pending(next) => ChainState::Pending(ChainStep::Resolve(next)),
                Resolution::Resolved => ChainState::Pending(ChainStep::LoadImage),
                Resolution::Unavailable => ChainState::Failed(FatalError::ProtocolUnavailable),
            },
            ChainStep::LoadImage => if done {
                ChainState::Pending(ChainStep::StartImage)
            } else {
                ChainState::Failed(FatalError::LoadImageFailed)
            },
            ChainStep::StartImage => if done {
                ChainState::Started
            } else {
                ChainState::Failed(FatalError::StartImageFailed)
            },
        }
    }
}

impl ChainState {
    /// The handing over before its first step.
    pub open spec fn start() -> ChainState {
        ChainState::Pending(ChainStep::Resolve(ResolveStep::LoadedImage))
    }

    /// The handing over after one more answer. Once it has ended, it stays
    /// as it is.
    pub open spec fn after(self, done: bool) -> ChainState {
        match self {
            ChainState::Pending(step) => step.after(done),
            _ => self,
        }
    }

    /// The handing over after each of `answers` in turn.
    pub open spec fn run(self, answers: Seq<bool>) -> ChainState
        decreases answers.len(),
    {
        if answers.len() == 0 {
            self
        } else {
            self.run(answers.drop_last()).after(answers.last())
        }
    }

    /// A handing over that has not begun.
    pub fn begin() -> (s: Self)
        ensures
            s == ChainState::start(),
    {
        ChainState::Pending(ChainStep::Resolve(ResolveStep::LoadedImage))
    }

    /// Takes the environment's answer to the pending step.
    pub fn next(self, done: bool) -> (s: Self)
        ensures
            s == self.after(done),
    {
        match self {
            ChainState::Pending(step) => step.next(done),
            _ => self,
        }
    }
}

/// The image is started exactly when the first four answers are good ones.
/// Otherwise the first bad answer decides: the boot fails with the error of
/// the step that it was given to, and until then a step is pending.
pub proof fn lemma_chain(answers: Seq<bool>)
    ensures
        ChainState::start().run(answers) == ChainState::Started <==> answers.len() >= 4
            && answers[0] && answers[1] && answers[2] && answers[3],
        ChainState::start().run(answers) == ChainState::Failed(FatalError::ProtocolUnavailable)
            <==> (answers.len() >= 1 && !answers[0]) || (answers.len() >= 2 && answers[0]
            && !answers[1]),
        ChainState::start().run(answers) == ChainState::Failed(FatalError::LoadImageFailed)
            <==> answers.len() >= 3 && answers[0] && answers[1] && !answers[2],
        ChainState::start().run(answers) == ChainState::Failed(FatalError::StartImageFailed)
            <==> answers.len() >= 4 && answers[0] && answers[1] && answers[2] && !answers[3],
        ChainState::start().run(answers) is Pending <==> answers.len() < 4 && forall|i: int|
            0 <= i < answers.len() ==> answers[i],
        ChainState::start().run(answers) matches ChainState::Pending(step) ==> step.index()
            == answers.len(),
    decreases answers.len(),
{
    if answers.len() > 0 {
        let front = answers.drop_last();
        lemma_chain(front);
        assert(forall|i: int| 0 <= i < front.len() ==> front[i] == answers[i]);
    }
}

} // verus!
