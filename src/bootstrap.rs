//! The ordered phases a relayer passes through once on startup before it
//! follows the chain head.
use vstd::prelude::*;

verus! {

/// The state for bootstrapping.
#[derive(Clone, Copy, Debug, PartialEq, Eq, Structural)]
pub enum BootstrapState {
    /// Phase 0: wait while the node is syncing.
    NodeSyncing,
    /// Phase 1-1: emit all pushed RoundUp events.
    BootstrapRoundUpPhase1,
    /// Phase 1-2: bootstrap for RoundUp events.
    BootstrapRoundUpPhase2,
    /// Phase 2: bootstrap for Bridge events.
    BootstrapBridgeRelay,
    /// Phase 3: process the latest blocks as normal.
    NormalStart,
}

/// The position of a phase in the bootstrap order.
pub open spec fn phase_rank(s: BootstrapState) -> nat {
    match s {
        BootstrapState::NodeSyncing => 0,
        BootstrapState::BootstrapRoundUpPhase1 => 1,
        BootstrapState::BootstrapRoundUpPhase2 => 2,
        BootstrapState::BootstrapBridgeRelay => 3,
        BootstrapState::NormalStart => 4,
    }
}

/// The phases in the order a relayer passes through them.
pub open spec fn phase_order() -> Seq<BootstrapState> {
    seq![
        BootstrapState::NodeSyncing,
        BootstrapState::BootstrapRoundUpPhase1,
        BootstrapState::BootstrapRoundUpPhase2,
        BootstrapState::BootstrapBridgeRelay,
        BootstrapState::NormalStart,
    ]
}

/// A move from `from` to `to` is allowed only to the phase right after `from`.
pub open spec fn is_step(from: BootstrapState, to: BootstrapState) -> bool {
    phase_rank(to) == phase_rank(from) + 1
}

impl BootstrapState {
    /// The phase that follows this one, or `None` for the terminal phase.
    pub fn next(&self) -> (r: Option<BootstrapState>)
        ensures
            r is None <==> *self == BootstrapState::NormalStart,
            r matches Some(n) ==> is_step(*self, n),
    {
        match self {
            BootstrapState::NodeSyncing => Some(BootstrapState::BootstrapRoundUpPhase1),
            BootstrapState::BootstrapRoundUpPhase1 => Some(BootstrapState::BootstrapRoundUpPhase2),
            BootstrapState::BootstrapRoundUpPhase2 => Some(BootstrapState::BootstrapBridgeRelay),
            BootstrapState::BootstrapBridgeRelay => Some(BootstrapState::NormalStart),
            BootstrapState::NormalStart => None,
        }
    }
}

/// A refused phase change: the target is not the phase right after the current one.
#[derive(Clone, Copy, Debug, PartialEq, Eq, Structural)]
pub struct InvalidPhaseTransition {
    pub from: BootstrapState,
    pub to: BootstrapState,
}

/// The bootstrap phase of one relayer; it only ever moves one phase forward.
pub struct BootstrapSequencer {
    state: BootstrapState,
}

impl BootstrapSequencer {
    pub closed spec fn phase(&self) -> BootstrapState {
        self.state
    }

    /// A sequencer at the initial phase, `NodeSyncing`.
    pub fn new() -> (r: Self)
        ensures
            r.phase() == BootstrapState::NodeSyncing,
    {
        BootstrapSequencer { state: BootstrapState::NodeSyncing }
    }

    /// The current phase.
    pub fn state(&self) -> (r: BootstrapState)
        ensures
            r == self.phase(),
    {
        self.state
    }

    /// Whether the terminal phase has been reached.
    pub fn is_complete(&self) -> (r: bool)
        ensures
            r <==> self.phase() == BootstrapState::NormalStart,
    {
        self.state == BootstrapState::NormalStart
    }

    /// Moves to `to` if it is the phase right after the current one; any other
    /// target, earlier, equal or further ahead, is refused and nothing changes.
    pub fn transition_to(&mut self, to: BootstrapState) -> (r: Result<(), InvalidPhaseTransition>)
        ensures
            r is Ok <==> is_step(old(self).phase(), to),
            r is Ok ==> final(self).phase() == to,
            r is Err ==> final(self).phase() == old(self).phase(),
            r is Err ==> r == Err::<(), InvalidPhaseTransition>(
                InvalidPhaseTransition { from: old(self).phase(), to },
            ),
    {
        match self.state.next() {
            Some(n) => {
                if n == to {
                    self.state = to;
                    return Ok(());
                }
            },
            None => {},
        }
        Err(InvalidPhaseTransition { from: self.state, to })
    }

    /// Moves to the next phase and returns it; at the terminal phase it
    /// returns `None` and stays there.
    pub fn advance(&mut self) -> (r: Option<BootstrapState>)
        ensures
            r is None <==> old(self).phase() == BootstrapState::NormalStart,
            r is None ==> final(self).phase() == old(self).phase(),
            r matches Some(n) ==> is_step(old(self).phase(), n) && final(self).phase() == n,
    {
        let n = self.state.next();
        match n {
            Some(s) => {
                self.state = s;
            },
            None => {},
        }
        n
    }
}

/// Each phase has exactly one successor: the one next in the phase order.
pub proof fn lemma_step_is_unique(from: BootstrapState, a: BootstrapState, b: BootstrapState)
    requires
        is_step(from, a),
        is_step(from, b),
    ensures
        a == b,
{
}

/// A run of accepted transitions that starts at `NodeSyncing` and ends at
/// `NormalStart` visits exactly the phase order, with no phase skipped or
/// repeated.
pub proof fn lemma_complete_run(run: Seq<BootstrapState>)
    requires
        run.len() > 0,
        run[0] == BootstrapState::NodeSyncing,
        run.last() == BootstrapState::NormalStart,
        forall|i: int| 0 <= i < run.len() - 1 ==> is_step(#[trigger] run[i], run[i + 1]),
    ensures
        run == phase_order(),
{
    assert forall|i: int| 0 <= i < run.len() implies phase_rank(#[trigger] run[i]) == i by {
        lemma_rank_along_run(run, i);
    }
    assert(run.len() == 5);
    assert(run =~= phase_order());
}

proof fn lemma_rank_along_run(run: Seq<BootstrapState>, i: int)
    requires
        run.len() > 0,
        run[0] == BootstrapState::NodeSyncing,
        forall|j: int| 0 <= j < run.len() - 1 ==> is_step(#[trigger] run[j], run[j + 1]),
        0 <= i < run.len(),
    ensures
        phase_rank(run[i]) == i,
    decreases i,
{
    if i > 0 {
        lemma_rank_along_run(run, i - 1);
        assert(is_step(run[i - 1], run[i]));
    }
}

} // verus!
