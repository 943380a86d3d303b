use br_primitives::bootstrap::{BootstrapSequencer, BootstrapState, InvalidPhaseTransition};

const PHASES: [BootstrapState; 5] = [
	BootstrapState::NodeSyncing,
	BootstrapState::BootstrapRoundUpPhase1,
	BootstrapState::BootstrapRoundUpPhase2,
	BootstrapState::BootstrapBridgeRelay,
	BootstrapState::NormalStart,
];

#[test]
fn sequencer_visits_every_phase_in_order() {
	let mut seq = BootstrapSequencer::new();
	let mut visited = vec![seq.state()];
	while let Some(next) = seq.advance() {
		visited.push(next);
	}
	assert_eq!(visited, PHASES.to_vec());
	assert!(seq.is_complete());
	assert_eq!(seq.advance(), None);
	assert_eq!(seq.state(), BootstrapState::NormalStart);
}

#[test]
fn transition_to_adjacent_phases_succeeds() {
	let mut seq = BootstrapSequencer::new();
	for phase in PHASES.iter().skip(1) {
		assert_eq!(seq.transition_to(*phase), Ok(()));
		assert_eq!(seq.state(), *phase);
	}
	assert!(seq.is_complete());
}

#[test]
fn transition_to_non_adjacent_or_earlier_fails() {
	let mut seq = BootstrapSequencer::new();
	assert_eq!(
		seq.transition_to(BootstrapState::BootstrapRoundUpPhase2),
		Err(InvalidPhaseTransition {
			from: BootstrapState::NodeSyncing,
			to: BootstrapState::BootstrapRoundUpPhase2
		})
	);
	assert_eq!(seq.state(), BootstrapState::NodeSyncing);
	assert!(seq.transition_to(BootstrapState::NodeSyncing).is_err());
	seq.transition_to(BootstrapState::BootstrapRoundUpPhase1).unwrap();
	seq.transition_to(BootstrapState::BootstrapRoundUpPhase2).unwrap();
	assert!(seq.transition_to(BootstrapState::BootstrapRoundUpPhase1).is_err());
	assert!(seq.transition_to(BootstrapState::NormalStart).is_err());
	assert_eq!(seq.state(), BootstrapState::BootstrapRoundUpPhase2);
}

#[test]
fn next_phase_of_each_state() {
	for i in 0..4 {
		assert_eq!(PHASES[i].next(), Some(PHASES[i + 1]));
	}
	assert_eq!(BootstrapState::NormalStart.next(), None);
}
