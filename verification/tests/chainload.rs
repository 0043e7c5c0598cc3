use guardianboot::chainload::{ChainState, ChainStep};
use guardianboot::device_path::ResolveStep;
use guardianboot::error::FatalError;

fn chain(answers: &[bool]) -> ChainState {
    let mut state = ChainState::begin();
    for answer in answers {
        state = state.next(*answer);
    }
    state
}

#[test]
fn chainload_resolves_loads_and_starts() {
    assert_eq!(chain(&[]), ChainState::Pending(ChainStep::Resolve(ResolveStep::LoadedImage)));
    assert_eq!(chain(&[true]), ChainState::Pending(ChainStep::Resolve(ResolveStep::DevicePath)));
    assert_eq!(chain(&[true, true]), ChainState::Pending(ChainStep::LoadImage));
    assert_eq!(chain(&[true, true, true]), ChainState::Pending(ChainStep::StartImage));
    assert_eq!(chain(&[true, true, true, true]), ChainState::Started);
    assert_eq!(chain(&[true, true, true, true, false]), ChainState::Started);
}

#[test]
fn chainload_failures_are_fatal() {
    assert_eq!(chain(&[false]), ChainState::Failed(FatalError::ProtocolUnavailable));
    assert_eq!(chain(&[true, false]), ChainState::Failed(FatalError::ProtocolUnavailable));
    assert_eq!(chain(&[true, true, false]), ChainState::Failed(FatalError::LoadImageFailed));
    assert_eq!(chain(&[true, true, true, false]), ChainState::Failed(FatalError::StartImageFailed));
    assert_eq!(chain(&[true, true, false, true, true]), ChainState::Failed(FatalError::LoadImageFailed));
}

#[test]
fn a_chain_step_answers_like_its_state() {
    assert_eq!(ChainStep::LoadImage.next(true), ChainState::Pending(ChainStep::StartImage));
    assert_eq!(ChainStep::StartImage.next(true), ChainState::Started);
    assert_eq!(
        ChainStep::Resolve(ResolveStep::DevicePath).next(true),
        ChainState::Pending(ChainStep::LoadImage)
    );
}
