//! Finding the device path of the running image: first the protocol that
//! describes the image, then the device path protocol of the device that
//! the image came from. Each is opened for exclusive use.

use vstd::prelude::*;

verus! {

/// The protocol to open next.
#[derive(Clone, Copy, Debug, PartialEq, Eq)]
pub enum ResolveStep {
    /// The loaded-image protocol of the running image.
    LoadedImage,
    /// The device path protocol of the device the image was loaded from.
    DevicePath,
}

/// How far the search for the device path has come.
#[derive(Clone, Copy, Debug, PartialEq, Eq)]
pub enum Resolution {
    /// A protocol is still to be opened.
    Pending(ResolveStep),
    /// Both protocols are open: the device path is at hand.
    Resolved,
    /// One of the two could not be opened.
    Unavailable,
}

impl ResolveStep {
    /// Where the search stands once the environment has said whether this
    /// protocol was opened.
    pub open spec fn after(self, opened: bool) -> Resolution {
        if !opened {
            Resolution::Unavailable
        } else {
            match self {
                ResolveStep::LoadedImage => Resolution::Pending(ResolveStep::DevicePath),
                ResolveStep::DevicePath => Resolution::Resolved,
            }
        }
    }

    /// Takes the environment's answer for this protocol.
    pub fn next(self, opened: bool) -> (r: Resolution)
        ensures
            r == self.after(opened),
    {
        if !opened {
            Resolution::Unavailable
        } else {
            match self {
                ResolveStep::LoadedImage => Resolution::Pending(ResolveStep::DevicePath),
                ResolveStep::DevicePath => Resolution::Resolved,
            }
        }
    }
}

impl Resolution {
    /// The search before anything was opened.
    pub open spec fn start() -> Resolution {
        Resolution::Pending(ResolveStep::LoadedImage)
    }

    /// Where the search stands after one more answer. A search that has
    /// ended stays as it is.
    pub open spec fn after(self, opened: bool) -> Resolution {
        match self {
            Resolution::Pending(step) => step.after(opened),
            _ => self,
        }
    }

    /// Where the search stands after each of `answers` in turn.
    pub open spec fn run(self, answers: Seq<bool>) -> Resolution
        decreases answers.len(),
    {
        if answers.len() == 0 {
            self
        } else {
            self.run(answers.drop_last()).after(answers.last())
        }
    }

    /// A fresh search.
    pub fn begin() -> (r: Self)
        ensures
            r == Resolution::start(),
    {
        Resolution::Pending(ResolveStep::LoadedImage)
    }

    /// Takes the environment's answer for the protocol that is pending.
    pub fn next(self, opened: bool) -> (r: Self)
        ensures
            r == self.after(opened),
    {
        match self {
            Resolution::Pending(step) => step.next(opened),
            _ => self,
        }
    }
}

/// The device path is at hand exactly when the first two answers are good
/// ones, and out of reach exactly when one of the two is not.
pub proof fn lemma_resolution(answers: Seq<bool>)
    ensures
        Resolution::start().run(answers) == Resolution::Resolved <==> answers.len() >= 2
            && answers[0] && answers[1],
        Resolution::start().run(answers) == Resolution::Unavailable <==> (answers.len() >= 1
            && !answers[0]) || (answers.len() >= 2 && !answers[1]),
        Resolution::start().run(answers) == Resolution::Pending(ResolveStep::LoadedImage)
            <==> answers.len() == 0,
        Resolution::start().run(answers) == Resolution::Pending(ResolveStep::DevicePath)
            <==> answers.len() == 1 && answers[0],
    decreases answers.len(),
{
    if answers.len() > 0 {
        let front = answers.drop_last();
        lemma_resolution(front);
        assert(forall|i: int| 0 <= i < front.len() ==> front[i] == answers[i]);
    }
}

} // verus!
