use guardianboot::device_path::{ResolveStep, Resolution};
use guardianboot::error::FatalError;
use guardianboot::loader::{LoadEvent, LoadState, LoadStep, KERNEL_IMAGE};
use guardianboot::pages::ImageExtent;

fn run(events: &[LoadEvent]) -> LoadState {
    let mut state = LoadState::begin();
    for event in events {
        state = state.next(*event);
    }
    state
}

fn extent(length: usize, pages: usize) -> ImageExtent {
    ImageExtent { length, pages, bytes: pages * 4096 }
}

const DONE: LoadEvent = LoadEvent::Done;
const FAILED: LoadEvent = LoadEvent::Failed;

#[test]
fn missing_file_is_absent_not_fatal() {
    let state = run(&[DONE, DONE, DONE, DONE, DONE, FAILED]);
    assert_eq!(state, LoadState::Absent);
    assert_eq!(state.next(DONE), LoadState::Absent);
    assert_eq!(state.next(FAILED), LoadState::Absent);
    assert_eq!(state.next(LoadEvent::Length(10)), LoadState::Absent);
}

#[test]
fn the_steps_come_in_order() {
    let mut state = LoadState::begin();
    let answers = [DONE, DONE, DONE, DONE, DONE, DONE, LoadEvent::Length(4097), DONE, DONE];
    let steps = [
        LoadStep::Resolve(ResolveStep::LoadedImage),
        LoadStep::Resolve(ResolveStep::DevicePath),
        LoadStep::LocateFileSystem,
        LoadStep::OpenFileSystem,
        LoadStep::OpenVolume,
        LoadStep::OpenFile,
        LoadStep::QueryLength,
        LoadStep::Allocate(extent(4097, 2)),
        LoadStep::Read(extent(4097, 2)),
    ];
    for (step, answer) in steps.iter().zip(answers.iter()) {
        assert_eq!(state, LoadState::Pending(*step));
        state = state.next(*answer);
    }
    assert_eq!(state, LoadState::Loaded(extent(4097, 2)));
    assert_eq!(state.next(FAILED), LoadState::Loaded(extent(4097, 2)));
}

#[test]
fn loaded_pages_follow_the_length() {
    for (length, pages) in [(0u64, 1usize), (1, 1), (4096, 1), (4097, 2), (12_288, 3), (12_289, 4)] {
        let state = run(&[DONE, DONE, DONE, DONE, DONE, DONE, LoadEvent::Length(length), DONE, DONE]);
        assert_eq!(state, LoadState::Loaded(extent(length as usize, pages)));
    }
}

#[test]
fn each_failed_step_has_its_error() {
    let good = [DONE, DONE, DONE, DONE, DONE, DONE, LoadEvent::Length(100), DONE, DONE];
    let expected = [
        LoadState::Failed(FatalError::ProtocolUnavailable),
        LoadState::Failed(FatalError::ProtocolUnavailable),
        LoadState::Failed(FatalError::FileSystemNotFound),
        LoadState::Failed(FatalError::ProtocolUnavailable),
        LoadState::Failed(FatalError::VolumeUnavailable),
        LoadState::Absent,
        LoadState::Failed(FatalError::LengthUnavailable),
        LoadState::Failed(FatalError::AllocationFailed),
        LoadState::Failed(FatalError::ReadFailed),
    ];
    for at in 0..good.len() {
        let mut events = good[..at].to_vec();
        events.push(FAILED);
        assert_eq!(run(&events), expected[at]);
        events.extend_from_slice(&good);
        assert_eq!(run(&events), expected[at]);
    }
}

#[test]
fn a_length_that_does_not_fit_is_fatal() {
    let state = run(&[DONE, DONE, DONE, DONE, DONE, DONE, LoadEvent::Length(u64::MAX)]);
    assert_eq!(state, LoadState::Failed(FatalError::ImageTooLarge));
}

#[test]
fn an_answer_of_the_wrong_kind_fails_the_step() {
    assert_eq!(run(&[LoadEvent::Length(1)]), LoadState::Failed(FatalError::ProtocolUnavailable));
    assert_eq!(
        run(&[DONE, DONE, LoadEvent::Length(1)]),
        LoadState::Failed(FatalError::FileSystemNotFound)
    );
    assert_eq!(run(&[DONE, DONE, DONE, DONE, DONE, LoadEvent::Length(1)]), LoadState::Absent);
    assert_eq!(
        run(&[DONE, DONE, DONE, DONE, DONE, DONE, DONE]),
        LoadState::Failed(FatalError::LengthUnavailable)
    );
    assert_eq!(
        run(&[DONE, DONE, DONE, DONE, DONE, DONE, LoadEvent::Length(1), LoadEvent::Length(1)]),
        LoadState::Failed(FatalError::AllocationFailed)
    );
}

#[test]
fn a_step_answers_like_its_state() {
    assert_eq!(LoadStep::OpenFile.next(FAILED), LoadState::Absent);
    assert_eq!(LoadStep::OpenFile.next(DONE), LoadState::Pending(LoadStep::QueryLength));
    assert_eq!(
        LoadStep::QueryLength.next(LoadEvent::Length(0)),
        LoadState::Pending(LoadStep::Allocate(extent(0, 1)))
    );
    assert_eq!(LoadStep::Read(extent(5, 1)).next(DONE), LoadState::Loaded(extent(5, 1)));
}

#[test]
fn the_kernel_image_has_a_fixed_name() {
    assert_eq!(KERNEL_IMAGE, "vmlinuz-linux.unsigned.efi");
}

#[test]
fn resolving_opens_two_protocols() {
    let start = Resolution::begin();
    assert_eq!(start, Resolution::Pending(ResolveStep::LoadedImage));
    assert_eq!(start.next(true), Resolution::Pending(ResolveStep::DevicePath));
    assert_eq!(start.next(true).next(true), Resolution::Resolved);
    assert_eq!(start.next(false), Resolution::Unavailable);
    assert_eq!(start.next(true).next(false), Resolution::Unavailable);
    assert_eq!(start.next(false).next(true), Resolution::Unavailable);
    assert_eq!(start.next(true).next(true).next(false), Resolution::Resolved);
    assert_eq!(ResolveStep::LoadedImage.next(true), Resolution::Pending(ResolveStep::DevicePath));
    assert_eq!(ResolveStep::DevicePath.next(true), Resolution::Resolved);
    assert_eq!(ResolveStep::DevicePath.next(false), Resolution::Unavailable);
}
