//! Staging the kernel image: from the device path of the running image to
//! the file's bytes in freshly zeroed pages.
//!
//! The loader makes no call of its own. It names the step that the boot
//! environment has to take next, takes the environment's answer, and names
//! the step after that, until the image is loaded, found absent, or the
//! boot has failed.

use vstd::prelude::*;
use crate::device_path::{ResolveStep, Resolution};
use crate::error::FatalError;
use crate::pages::ImageExtent;

verus! {

/// The file on the boot volume that holds the kernel image.
pub const KERNEL_IMAGE: &'static str = "vmlinuz-linux.unsigned.efi";

/// What the boot environment is to do next.
#[derive(Clone, Copy, Debug, PartialEq, Eq)]
pub enum LoadStep {
    /// Open a protocol on the way to the device path of the running image.
    Resolve(ResolveStep),
    /// Find, by the device path, the handle that carries the file system.
    LocateFileSystem,
    /// Open the file system on that handle for exclusive use.
    OpenFileSystem,
    /// Open the root of the volume.
    OpenVolume,
    /// Open the image file for reading, with no attributes set.
    OpenFile,
    /// Ask the open file for its length in bytes.
    QueryLength,
    /// Ask the allocator for `pages` pages, and fill all `bytes` bytes of
    /// them with zero.
    Allocate(ImageExtent),
    /// Read `length` bytes, in one read, into the front of the pages.
    Read(ImageExtent),
}

/// What the boot environment answers to a step.
#[derive(Clone, Copy, Debug, PartialEq, Eq)]
pub enum LoadEvent {
    /// The step failed.
    Failed,
    /// The step was taken.
    Done,
    /// The file's length in bytes: the good answer to `QueryLength`.
    Length(u64),
}

/// How far the loading has come.
#[derive(Clone, Copy, Debug, PartialEq, Eq)]
pub enum LoadState {
    /// The environment has a step to take.
    Pending(LoadStep),
    /// The image lies in the first `length` bytes of the pages.
    Loaded(ImageExtent),
    /// The file is not there or cannot be opened. The caller decides what
    /// that means.
    Absent,
    /// The boot has failed.
    Failed(FatalError),
}

impl LoadStep {
    /// The place of this step in the order of the steps, from 0.
    pub open spec fn index(self) -> nat {
        match self {
            LoadStep::Resolve(ResolveStep::LoadedImage) => 0,
            LoadStep::Resolve(ResolveStep::DevicePath) => 1,
            LoadStep::LocateFileSystem => 2,
            LoadStep::OpenFileSystem => 3,
            LoadStep::OpenVolume => 4,
            LoadStep::OpenFile => 5,
            LoadStep::QueryLength => 6,
            LoadStep::Allocate(_) => 7,
            LoadStep::Read(_) => 8,
        }
    }

    /// The loading once the environment has answered this step. An answer
    /// of the wrong kind counts as a failure of the step.
    pub open spec fn after(self, event: LoadEvent) -> LoadState {
        match self {
            LoadStep::Resolve(step) => match step.after(event == LoadEvent::Done) {
                Resolution::Pending(next) => LoadState::Pending(LoadStep::Resolve(next)),
                Resolution::Resolved => LoadState::Pending(LoadStep::LocateFileSystem),
                Resolution::Unavailable => LoadState::Failed(FatalError::ProtocolUnavailable),
            },
            LoadStep::LocateFileSystem => if event == LoadEvent::Done {
                LoadState::Pending(LoadStep::OpenFileSystem)
            } else {
                LoadState::Failed(FatalError::FileSystemNotFound)
            },
            LoadStep::OpenFileSystem => if event == LoadEvent::Done {
                LoadState::Pending(LoadStep::OpenVolume)
            } else {
                LoadState::Failed(FatalError::ProtocolUnavailable)
            },
            LoadStep::OpenVolume => if event == LoadEvent::Done {
                LoadState::Pending(LoadStep::OpenFile)
            } else {
                LoadState::Failed(FatalError::VolumeUnavailable)
            },
            LoadStep::OpenFile => if event == LoadEvent::Done {
                LoadState::Pending(LoadStep::QueryLength)
            } else {
                LoadState::Absent
            },
            LoadStep::QueryLength => match event {
                LoadEvent::Length(length) => if ImageExtent::fits(length as nat) {
                    LoadState::Pending(LoadStep::Allocate(ImageExtent::of(length as nat)))
                } else {
                    LoadState::Failed(FatalError::ImageTooLarge)
                },
                _ => LoadState::Failed(FatalError::LengthUnavailable),
            },
            LoadStep::Allocate(extent) => if event == LoadEvent::Done {
                LoadState::Pending(LoadStep::Read(extent))
            } else {
                LoadState::Failed(FatalError::AllocationFailed)
            },
            LoadStep::Read(extent) => if event == LoadEvent::Done {
                LoadState::Loaded(extent)
            } else {
                LoadState::Failed(FatalError::ReadFailed)
            },
        }
    }

    /// Takes the environment's answer to this step.
    pub fn next(self, event: LoadEvent) -> (s: LoadState)
        ensures
            s == self.after(event),
            LoadState::Pending(self).wf() ==> s.wf(),
    {
        let done = match event {
            LoadEvent::Done => true,
            _ => false,
        };
        match self {
            LoadStep::Resolve(step) => match step.next(done) {
                Resolution::Pending(next) => LoadState::Pending(LoadStep::Resolve(next)),
                Resolution::Resolved => LoadState::Pending(LoadStep::LocateFileSystem),
                Resolution::Unavailable => LoadState::Failed(FatalError::ProtocolUnavailable),
            },
            LoadStep::LocateFileSystem => if done {
                LoadState::Pending(LoadStep::OpenFileSystem)
            } else {
                LoadState::Failed(FatalError::FileSystemNotFound)
            },
            LoadStep::OpenFileSystem => if done {
                LoadState::Pending(LoadStep::OpenVolume)
            } else {
                LoadState::Failed(FatalError::ProtocolUnavailable)
            },
            LoadStep::OpenVolume => if done {
                LoadState::Pending(LoadStep::OpenFile)
            } else {
                LoadState::Failed(FatalError::VolumeUnavailable)
            },
            LoadStep::OpenFile => if done {
                LoadState::Pending(LoadStep::QueryLength)
            } else {
                LoadState::Absent
            },
            LoadStep::QueryLength => match event {
                LoadEvent::Length(length) => match ImageExtent::for_length(length) {
                    Some(extent) => LoadState::Pending(LoadStep::Allocate(extent)),
                    None => LoadState::Failed(FatalError::ImageTooLarge),
                },
                _ => LoadState::Failed(FatalError::LengthUnavailable),
            },
            LoadStep::Allocate(extent) => if done {
                LoadState::Pending(LoadStep::Read(extent))
            } else {
                LoadState::Failed(FatalError::AllocationFailed)
            },
            LoadStep::Read(extent) => if done {
                LoadState::Loaded(extent)
            } else {
                LoadState::Failed(FatalError::ReadFailed)
            },
        }
    }
}

impl LoadState {
    /// The loading before its first step.
    pub open spec fn start() -> LoadState {
        LoadState::Pending(LoadStep::Resolve(ResolveStep::LoadedImage))
    }

    /// The loading after one more answer. Once it has ended, it stays as it
    /// is.
    pub open spec fn after(self, event: LoadEvent) -> LoadState {
        match self {
            LoadState::Pending(step) => step.after(event),
            _ => self,
        }
    }

    /// The loading after each of `events` in turn.
    pub open spec fn run(self, events: Seq<LoadEvent>) -> LoadState
        decreases events.len(),
    {
        if events.len() == 0 {
            self
        } else {
            self.run(events.drop_last()).after(events.last())
        }
    }

    /// Whether every extent that the state holds has the pages that its
    /// length calls for.
    pub open spec fn wf(self) -> bool {
        match self {
            LoadState::Pending(LoadStep::Allocate(extent)) => extent.wf(),
            LoadState::Pending(LoadStep::Read(extent)) => extent.wf(),
            LoadState::Loaded(extent) => extent.wf(),
            _ => true,
        }
    }

    /// A loading that has not begun.
    pub fn begin() -> (s: Self)
        ensures
            s == LoadState::start(),
            s.wf(),
    {
        LoadState::Pending(LoadStep::Resolve(ResolveStep::LoadedImage))
    }

    /// Takes the environment's answer to the pending step.
    pub fn next(self, event: LoadEvent) -> (s: Self)
        ensures
            s == self.after(event),
            self.wf() ==> s.wf(),
    {
        match self {
            LoadState::Pending(step) => step.next(event),
            _ => self,
        }
    }
}

} // verus!
