use vstd::prelude::*;

verus! {

/// What the host reports about one backing resource when it polls.
#[derive(Clone, Copy, Debug, PartialEq, Eq, Structural)]
pub enum AssetStatus {
    /// No handle for the resource has been registered yet.
    Unregistered,
    /// The handle is registered; decoding or upload is still under way.
    Pending,
    /// The resource is fully loaded.
    Loaded,
    /// Loading the resource ended in an error.
    Failed,
}

/// Where a map stands on its way to being usable.
#[derive(Clone, Copy, Debug, PartialEq, Eq, Structural)]
pub enum LoadState {
    Unloaded,
    Loading,
    Ready,
    Failed,
}

/// Progress of the one-time initializer that fills the grid before the map
/// becomes ready.
#[derive(Clone, Copy, Debug, PartialEq, Eq, Structural)]
pub enum Initializer {
    /// The map was built without an initializer.
    Absent,
    /// An initializer was supplied and has not been asked to run.
    Pending,
    /// The host was told to run the initializer and has not reported back.
    Running,
    /// The initializer has run.
    Done,
}

/// What the host has to do after a poll.
#[derive(Clone, Copy, Debug, PartialEq, Eq, Structural)]
pub enum LoadAction {
    Nothing,
    /// Run the initializer on the map's indexer, then report completion.
    RunInitializer,
}

/// Something that happens to a loading map.
#[derive(Clone, Copy, Debug, PartialEq, Eq, Structural)]
pub enum LoadEvent {
    /// The host polled and found the atlas and the tile-index texture in the
    /// given states.
    Poll { atlas: AssetStatus, tiles: AssetStatus },
    /// The host reports that the initializer has returned.
    InitializerFinished,
}

/// Load state of a map together with the progress of its initializer.
#[derive(Clone, Copy, Debug, PartialEq, Eq, Structural)]
pub struct LoadPhase {
    pub state: LoadState,
    pub initializer: Initializer,
}

/// Outcome of one poll: the state the map is in now, and what the host has
/// to do.
#[derive(Clone, Copy, Debug, PartialEq, Eq, Structural)]
pub struct LoadStep {
    pub state: LoadState,
    pub action: LoadAction,
}

impl LoadState {
    /// Position of the state along the way `Unloaded`, `Loading`, then
    /// `Ready` or `Failed`.
    pub open spec fn rank(self) -> nat {
        match self {
            LoadState::Unloaded => 0,
            LoadState::Loading => 1,
            LoadState::Ready => 2,
            LoadState::Failed => 2,
        }
    }

    /// No event leads out of the state.
    pub open spec fn terminal(self) -> bool {
        self == LoadState::Ready || self == LoadState::Failed
    }
}

impl Initializer {
    /// How many times the host has been told to run the initializer.
    pub open spec fn runs(self) -> nat {
        match self {
            Initializer::Absent => 0,
            Initializer::Pending => 0,
            Initializer::Running => 1,
            Initializer::Done => 1,
        }
    }
}

/// Both resources have a registered handle.
pub open spec fn registered(atlas: AssetStatus, tiles: AssetStatus) -> bool {
    atlas != AssetStatus::Unregistered && tiles != AssetStatus::Unregistered
}

/// At least one resource failed to load.
pub open spec fn any_failed(atlas: AssetStatus, tiles: AssetStatus) -> bool {
    atlas == AssetStatus::Failed || tiles == AssetStatus::Failed
}

/// Both resources are fully loaded.
pub open spec fn all_loaded(atlas: AssetStatus, tiles: AssetStatus) -> bool {
    atlas == AssetStatus::Loaded && tiles == AssetStatus::Loaded
}

impl LoadPhase {
    /// The combinations of state and initializer progress that occur: the
    /// initializer runs only while the map is loading, has run only in a
    /// ready map, and a ready map has no initializer left to run.
    pub open spec fn wf(self) -> bool {
        match self.initializer {
            Initializer::Absent => true,
            Initializer::Pending => self.state != LoadState::Ready,
            Initializer::Running => self.state == LoadState::Loading,
            Initializer::Done => self.state == LoadState::Ready,
        }
    }

    /// Phase of a map that has just been built.
    pub open spec fn start(with_initializer: bool) -> LoadPhase {
        LoadPhase {
            state: LoadState::Unloaded,
            initializer: if with_initializer {
                Initializer::Pending
            } else {
                Initializer::Absent
            },
        }
    }

    /// Phase after a poll that found the resources in the given states.
    ///
    /// An unloaded map starts loading once both handles are registered. A
    /// loading map fails if a resource failed; once both are loaded it either
    /// becomes ready, or, with an initializer still pending, hands the
    /// initializer to the host and waits for it. While the initializer runs,
    /// and in the states `Ready` and `Failed`, a poll changes nothing.
    pub open spec fn poll(self, atlas: AssetStatus, tiles: AssetStatus) -> LoadPhase {
        match self.state {
            LoadState::Unloaded => if registered(atlas, tiles) {
                LoadPhase { state: LoadState::Loading, initializer: self.initializer }
            } else {
                self
            },
            LoadState::Loading => if self.initializer == Initializer::Running {
                self
            } else if any_failed(atlas, tiles) {
                LoadPhase { state: LoadState::Failed, initializer: self.initializer }
            } else if all_loaded(atlas, tiles) {
                if self.initializer == Initializer::Pending {
                    LoadPhase { state: LoadState::Loading, initializer: Initializer::Running }
                } else {
                    LoadPhase { state: LoadState::Ready, initializer: self.initializer }
                }
            } else {
                self
            },
            LoadState::Ready => self,
            LoadState::Failed => self,
        }
    }

    /// What the host has to do after that poll: run the initializer exactly
    /// when the poll handed it over.
    pub open spec fn poll_action(self, atlas: AssetStatus, tiles: AssetStatus) -> LoadAction {
        if self.initializer == Initializer::Pending && self.poll(atlas, tiles).initializer
            == Initializer::Running {
            LoadAction::RunInitializer
        } else {
            LoadAction::Nothing
        }
    }

    /// Phase after the host reports that the initializer has returned: a map
    /// that waited for it becomes ready; otherwise nothing changes.
    pub open spec fn initializer_finished(self) -> LoadPhase {
        if self.initializer == Initializer::Running {
            LoadPhase { state: LoadState::Ready, initializer: Initializer::Done }
        } else {
            self
        }
    }

    /// Phase after one event.
    pub open spec fn step(self, event: LoadEvent) -> LoadPhase {
        match event {
            LoadEvent::Poll { atlas, tiles } => self.poll(atlas, tiles),
            LoadEvent::InitializerFinished => self.initializer_finished(),
        }
    }

    /// What the host has to do after one event.
    pub open spec fn action(self, event: LoadEvent) -> LoadAction {
        match event {
            LoadEvent::Poll { atlas, tiles } => self.poll_action(atlas, tiles),
            LoadEvent::InitializerFinished => LoadAction::Nothing,
        }
    }

    /// Phase after a sequence of events, in order.
    pub open spec fn run(self, events: Seq<LoadEvent>) -> LoadPhase
        decreases events.len(),
    {
        if events.len() == 0 {
            self
        } else {
            self.run(events.drop_last()).step(events.last())
        }
    }

    /// Number of times the host is told to run the initializer while the
    /// events are handled.
    pub open spec fn initializer_calls(self, events: Seq<LoadEvent>) -> nat
        decreases events.len(),
    {
        if events.len() == 0 {
            0
        } else {
            let before = self.run(events.drop_last());
            let earlier = self.initializer_calls(events.drop_last());
            if before.action(events.last()) == LoadAction::RunInitializer {
                earlier + 1
            } else {
                earlier
            }
        }
    }
}

/// The load state machine of one map. It starts out unloaded and is driven
/// by the host's polls; its phase is always one that `LoadPhase::wf` admits.
#[derive(Debug)]
pub struct Loader {
    phase: LoadPhase,
}

impl View for Loader {
    type V = LoadPhase;

    closed spec fn view(&self) -> LoadPhase {
        self.phase
    }
}

impl Loader {
    /// Every loader is in a well-formed phase.
    #[verifier::type_invariant]
    pub open spec fn inv(&self) -> bool {
        self@.wf()
    }

    /// Loader of a map that has just been built: unloaded, its initializer,
    /// if any, not yet run.
    pub fn new(with_initializer: bool) -> (loader: Loader)
        ensures
            loader@ == LoadPhase::start(with_initializer),
    {
        Loader {
            phase: LoadPhase {
                state: LoadState::Unloaded,
                initializer: if with_initializer {
                    Initializer::Pending
                } else {
                    Initializer::Absent
                },
            },
        }
    }

    /// The current phase.
    pub fn phase(&self) -> (phase: LoadPhase)
        ensures
            phase == self@,
            phase.wf(),
    {
        proof {
            use_type_invariant(self);
        }
        self.phase
    }

    /// Handles one poll that found the atlas and the tile-index texture in
    /// the given states, and returns what the host has to do.
    pub fn poll(&mut self, atlas: AssetStatus, tiles: AssetStatus) -> (action: LoadAction)
        ensures
            old(self)@.wf(),
            final(self)@ == old(self)@.poll(atlas, tiles),
            action == old(self)@.poll_action(atlas, tiles),
    {
        proof {
            use_type_invariant(&*self);
        }
        let initializer: Initializer = self.phase.initializer;
        match self.phase.state {
            LoadState::Unloaded => {
                if atlas != AssetStatus::Unregistered && tiles != AssetStatus::Unregistered {
                    self.phase = LoadPhase { state: LoadState::Loading, initializer };
                }
                LoadAction::Nothing
            },
            LoadState::Loading => {
                if initializer == Initializer::Running {
                    LoadAction::Nothing
                } else if atlas == AssetStatus::Failed || tiles == AssetStatus::Failed {
                    self.phase = LoadPhase { state: LoadState::Failed, initializer };
                    LoadAction::Nothing
                } else if atlas == AssetStatus::Loaded && tiles == AssetStatus::Loaded {
                    if initializer == Initializer::Pending {
                        self.phase = LoadPhase {
                            state: LoadState::Loading,
                            initializer: Initializer::Running,
                        };
                        LoadAction::RunInitializer
                    } else {
                        self.phase = LoadPhase { state: LoadState::Ready, initializer };
                        LoadAction::Nothing
                    }
                } else {
                    LoadAction::Nothing
                }
            },
            LoadState::Ready => LoadAction::Nothing,
            LoadState::Failed => LoadAction::Nothing,
        }
    }

    /// Handles the host's report that the initializer has returned.
    pub fn initializer_finished(&mut self)
        ensures
            old(self)@.wf(),
            final(self)@ == old(self)@.initializer_finished(),
    {
        proof {
            use_type_invariant(&*self);
        }
        if self.phase.initializer == Initializer::Running {
            self.phase = LoadPhase { state: LoadState::Ready, initializer: Initializer::Done };
        }
    }
}

impl Clone for Loader {
    fn clone(&self) -> (copy: Loader)
        ensures
            copy@ == self@,
    {
        proof {
            use_type_invariant(self);
        }
        Loader { phase: self.phase }
    }
}

/// Every event leads from a well-formed phase to a well-formed phase.
pub proof fn lemma_step_preserves_wf(phase: LoadPhase, event: LoadEvent)
    requires
        phase.wf(),
    ensures
        phase.step(event).wf(),
{
}

/// `Ready` and `Failed` are final: no event changes the phase or asks the
/// host for anything.
pub proof fn lemma_terminal_states_stay(phase: LoadPhase, event: LoadEvent)
    requires
        phase.wf(),
        phase.state.terminal(),
    ensures
        phase.step(event) == phase,
        phase.action(event) == LoadAction::Nothing,
{
}

/// A map never goes back: no event lowers the rank of its state.
pub proof fn lemma_state_never_regresses(phase: LoadPhase, event: LoadEvent)
    requires
        phase.wf(),
    ensures
        phase.step(event).state.rank() >= phase.state.rank(),
{
}

/// The host is told to run the initializer exactly when an event moves it
/// from pending to running, and the initializer never returns to pending.
pub proof fn lemma_action_counts_runs(phase: LoadPhase, event: LoadEvent)
    requires
        phase.wf(),
    ensures
        phase.step(event).initializer.runs() == phase.initializer.runs() + if phase.action(event)
            == LoadAction::RunInitializer {
            1nat
        } else {
            0nat
        },
        phase.initializer == Initializer::Absent <==> phase.step(event).initializer
            == Initializer::Absent,
{
}

/// Over any sequence of events the phase stays well formed, the state never
/// regresses, and the number of times the host is told to run the
/// initializer is the growth of the initializer's run count: at most one.
pub proof fn lemma_run(phase: LoadPhase, events: Seq<LoadEvent>)
    requires
        phase.wf(),
    ensures
        phase.run(events).wf(),
        phase.run(events).state.rank() >= phase.state.rank(),
        phase.initializer.runs() + phase.initializer_calls(events) == phase.run(
            events,
        ).initializer.runs(),
        phase.initializer_calls(events) <= 1,
        phase.initializer == Initializer::Absent <==> phase.run(events).initializer
            == Initializer::Absent,
    decreases events.len(),
{
    if events.len() > 0 {
        lemma_run(phase, events.drop_last());
        let before = phase.run(events.drop_last());
        lemma_step_preserves_wf(before, events.last());
        lemma_state_never_regresses(before, events.last());
        lemma_action_counts_runs(before, events.last());
    }
}

/// Readiness gating. A map built with an initializer starts out not ready
/// with the initializer not run. Whatever the host then reports, the
/// initializer has been handed over exactly once by the time the map is
/// ready, and never if the map has not left `Unloaded` or has failed.
/// A map built without an initializer never asks for one.
pub proof fn lemma_initializer_runs_once(with_initializer: bool, events: Seq<LoadEvent>)
    ensures
        LoadPhase::start(with_initializer).state == LoadState::Unloaded,
        LoadPhase::start(with_initializer).initializer.runs() == 0,
        ({
            let start = LoadPhase::start(with_initializer);
            let end = start.run(events);
            let calls = start.initializer_calls(events);
            &&& calls <= 1
            &&& !with_initializer ==> calls == 0
            &&& end.state == LoadState::Ready && with_initializer ==> calls == 1
                && end.initializer == Initializer::Done
            &&& end.state == LoadState::Unloaded || end.state == LoadState::Failed ==> calls == 0
        }),
{
    lemma_run(LoadPhase::start(with_initializer), events);
}

/// Loaded resources lead to a ready map: unless it has failed, a map whose
/// resources are reported loaded on two polls, and whose host reports the
/// initializer back if it was handed one, is ready. A resource that is
/// reported failed on two polls fails every map that is not ready yet and not
/// waiting for its initializer.
pub proof fn lemma_polls_settle(phase: LoadPhase, atlas: AssetStatus, tiles: AssetStatus)
    requires
        phase.wf(),
    ensures
        all_loaded(atlas, tiles) && phase.state != LoadState::Failed ==> phase.poll(
            atlas,
            tiles,
        ).poll(atlas, tiles).initializer_finished().state == LoadState::Ready,
        any_failed(atlas, tiles) && registered(atlas, tiles) && phase.state != LoadState::Ready
            && phase.initializer != Initializer::Running ==> phase.poll(atlas, tiles).poll(
            atlas,
            tiles,
        ).state == LoadState::Failed,
{
}

/// Once a map is ready or has failed it stays so, and nothing that happens
/// afterwards runs the initializer.
pub proof fn lemma_terminal_is_final(phase: LoadPhase, events: Seq<LoadEvent>)
    requires
        phase.wf(),
        phase.state.terminal(),
    ensures
        phase.run(events) == phase,
        phase.initializer_calls(events) == 0,
    decreases events.len(),
{
    if events.len() > 0 {
        lemma_terminal_is_final(phase, events.drop_last());
        lemma_terminal_states_stay(phase, events.last());
    }
}

} // verus!
