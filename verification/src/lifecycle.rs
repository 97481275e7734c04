//! Cancellable confirmation workflows.
//!
//! A workflow chain sequences the user-facing gates that protect an
//! irreversible terminal action (closing the main window, exiting, or loading
//! new splits over the current ones): first the destructive-action gate (the
//! timer is mid-run), then the unsaved-changes gate (the model is dirty). All
//! gates share one cancellation token; once any gate cancels, the terminal
//! action can never be emitted. The chain itself performs no I/O: the caller
//! presents the dialogs the emitted actions ask for and feeds the answers back
//! in as events.
use vstd::prelude::*;

verus! {

/// The answer to the three-way unsaved-changes prompt.
#[derive(Clone, Copy, Debug, PartialEq, Eq, Structural)]
pub enum SaveChoice {
    /// Save the splits, then proceed.
    Save,
    /// Proceed without saving.
    Discard,
    /// Cancel the whole chain.
    Cancel,
}

/// What the terminal action of a chain is for. The gates are the same either
/// way; the caller uses this to know what to run when the chain finishes.
#[derive(Clone, Copy, Debug, PartialEq, Eq, Structural)]
pub enum ChainPurpose {
    /// Close the main window and exit.
    CloseMainWindow,
    /// Load different splits over the current run.
    LoadSplits,
}

/// An answer arriving from one of the asynchronous gate dialogs.
#[derive(Clone, Copy, Debug, PartialEq, Eq, Structural)]
pub enum ChainEvent {
    /// The destructive-action prompt was answered; `true` means "quit anyway".
    DestructiveAnswered(bool),
    /// The unsaved-changes prompt was answered.
    SaveChoiceMade(SaveChoice),
    /// The save-path picker closed; `true` means a path was chosen.
    SavePathPicked(bool),
}

/// What the caller must do next after feeding an event to the chain.
#[derive(Clone, Copy, Debug, PartialEq, Eq, Structural)]
pub enum ChainAction {
    /// Present the "timer is running, quit anyway?" prompt.
    AskDestructive,
    /// Present the save/discard/cancel prompt.
    AskSaveChoice,
    /// Present the save-path picker.
    PickSavePath,
    /// Save to the picked path, then run the terminal action.
    SaveThenFinish,
    /// Run the terminal action.
    Finish,
    /// Nothing: the chain is over or the event did not apply.
    Stop,
}

/// Which answer the chain is currently suspended on.
#[derive(Clone, Copy, Debug, PartialEq, Eq, Structural)]
pub enum ChainPhase {
    /// Waiting for the destructive-action prompt.
    AwaitingDestructive,
    /// Waiting for the save/discard/cancel prompt.
    AwaitingSaveChoice,
    /// Waiting for the save-path picker.
    AwaitingSavePath,
    /// The terminal action was released.
    Finished,
    /// A gate cancelled the chain.
    Cancelled,
}

/// One in-flight confirmation workflow.
///
/// The `cancelled` field holds the shared cancellation token. A gate that
/// cancels sets it, and the transition that would release the terminal
/// action checks it, so an answer of "No" or "Cancel" anywhere in the chain
/// prevents the terminal action even though each link resolves
/// asynchronously.
#[derive(Clone, Copy, Debug, PartialEq, Eq, Structural)]
pub struct WorkflowChain {
    /// What the terminal action does.
    pub purpose: ChainPurpose,
    /// Which answer the chain currently waits for.
    pub phase: ChainPhase,
    /// Whether the unsaved-changes gate still has to run.
    pub dirty_gate: bool,
    /// The cancellation token shared by every link of the chain.
    pub cancelled: bool,
}

impl WorkflowChain {
    /// A chain is well formed when its token agrees with its phase: the token
    /// is set exactly when a gate cancelled the chain.
    pub open spec fn wf(self) -> bool {
        self.cancelled <==> self.phase is Cancelled
    }
}

/// The state a freshly started chain suspends in, before any event arrived.
pub open spec fn spec_start(
    purpose: ChainPurpose,
    destructive_gate: bool,
    dirty_gate: bool,
) -> WorkflowChain {
    WorkflowChain {
        purpose,
        phase: if destructive_gate {
            ChainPhase::AwaitingDestructive
        } else if dirty_gate {
            ChainPhase::AwaitingSaveChoice
        } else {
            ChainPhase::Finished
        },
        dirty_gate,
        cancelled: false,
    }
}

/// The action a freshly started chain asks for.
pub open spec fn spec_start_action(destructive_gate: bool, dirty_gate: bool) -> ChainAction {
    if destructive_gate {
        ChainAction::AskDestructive
    } else if dirty_gate {
        ChainAction::AskSaveChoice
    } else {
        ChainAction::Finish
    }
}

/// The state after one event. An event that does not match the phase the
/// chain is suspended on leaves the chain unchanged.
pub open spec fn chain_next(c: WorkflowChain, e: ChainEvent) -> WorkflowChain {
    match (c.phase, e) {
        (ChainPhase::AwaitingDestructive, ChainEvent::DestructiveAnswered(yes)) => {
            if !yes {
                WorkflowChain { phase: ChainPhase::Cancelled, cancelled: true, ..c }
            } else if c.dirty_gate {
                WorkflowChain { phase: ChainPhase::AwaitingSaveChoice, ..c }
            } else {
                WorkflowChain { phase: ChainPhase::Finished, ..c }
            }
        },
        (ChainPhase::AwaitingSaveChoice, ChainEvent::SaveChoiceMade(choice)) => {
            match choice {
                SaveChoice::Cancel => WorkflowChain {
                    phase: ChainPhase::Cancelled,
                    cancelled: true,
                    ..c
                },
                SaveChoice::Discard => WorkflowChain { phase: ChainPhase::Finished, ..c },
                SaveChoice::Save => WorkflowChain { phase: ChainPhase::AwaitingSavePath, ..c },
            }
        },
        (ChainPhase::AwaitingSavePath, ChainEvent::SavePathPicked(picked)) => {
            if picked {
                WorkflowChain { phase: ChainPhase::Finished, ..c }
            } else {
                WorkflowChain { phase: ChainPhase::Cancelled, cancelled: true, ..c }
            }
        },
        _ => c,
    }
}

/// The action released by one event, in the same cases as [`chain_next`].
pub open spec fn chain_action(c: WorkflowChain, e: ChainEvent) -> ChainAction {
    match (c.phase, e) {
        (ChainPhase::AwaitingDestructive, ChainEvent::DestructiveAnswered(yes)) => {
            if !yes {
                ChainAction::Stop
            } else if c.dirty_gate {
                ChainAction::AskSaveChoice
            } else {
                ChainAction::Finish
            }
        },
        (ChainPhase::AwaitingSaveChoice, ChainEvent::SaveChoiceMade(choice)) => {
            match choice {
                SaveChoice::Cancel => ChainAction::Stop,
                SaveChoice::Discard => ChainAction::Finish,
                SaveChoice::Save => ChainAction::PickSavePath,
            }
        },
        (ChainPhase::AwaitingSavePath, ChainEvent::SavePathPicked(picked)) => {
            if picked {
                ChainAction::SaveThenFinish
            } else {
                ChainAction::Stop
            }
        },
        _ => ChainAction::Stop,
    }
}

impl WorkflowChain {
    /// Starts a chain. The destructive gate runs first, so a user who does
    /// not even want to quit is never asked the save question; the
    /// unsaved-changes gate runs second; with no gate to run the terminal
    /// action is released at once.
    pub fn start(purpose: ChainPurpose, destructive_gate: bool, dirty_gate: bool) -> (r: (
        WorkflowChain,
        ChainAction,
    ))
        ensures
            r.0 == spec_start(purpose, destructive_gate, dirty_gate),
            r.1 == spec_start_action(destructive_gate, dirty_gate),
            r.0.wf(),
    {
        let phase = if destructive_gate {
            ChainPhase::AwaitingDestructive
        } else if dirty_gate {
            ChainPhase::AwaitingSaveChoice
        } else {
            ChainPhase::Finished
        };
        let action = if destructive_gate {
            ChainAction::AskDestructive
        } else if dirty_gate {
            ChainAction::AskSaveChoice
        } else {
            ChainAction::Finish
        };
        (WorkflowChain { purpose, phase, dirty_gate, cancelled: false }, action)
    }

    /// Feeds one dialog answer to the chain and returns what to do next.
    /// The terminal action is released only if no gate has cancelled: the
    /// token is checked on the very transition that releases it.
    pub fn step(&mut self, e: ChainEvent) -> (r: ChainAction)
        requires
            old(self).wf(),
        ensures
            *final(self) == chain_next(*old(self), e),
            r == chain_action(*old(self), e),
            final(self).wf(),
            final(self).purpose == old(self).purpose,
            old(self).cancelled ==> final(self).cancelled,
            (r == ChainAction::Finish || r == ChainAction::SaveThenFinish) ==> !final(self).cancelled,
    {
        match (self.phase, e) {
            (ChainPhase::AwaitingDestructive, ChainEvent::DestructiveAnswered(yes)) => {
                if !yes {
                    self.phase = ChainPhase::Cancelled;
                    self.cancelled = true;
                    ChainAction::Stop
                } else if self.dirty_gate {
                    self.phase = ChainPhase::AwaitingSaveChoice;
                    ChainAction::AskSaveChoice
                } else {
                    self.phase = ChainPhase::Finished;
                    ChainAction::Finish
                }
            },
            (ChainPhase::AwaitingSaveChoice, ChainEvent::SaveChoiceMade(choice)) => {
                match choice {
                    SaveChoice::Cancel => {
                        self.phase = ChainPhase::Cancelled;
                        self.cancelled = true;
                        ChainAction::Stop
                    },
                    SaveChoice::Discard => {
                        self.phase = ChainPhase::Finished;
                        ChainAction::Finish
                    },
                    SaveChoice::Save => {
                        self.phase = ChainPhase::AwaitingSavePath;
                        ChainAction::PickSavePath
                    },
                }
            },
            (ChainPhase::AwaitingSavePath, ChainEvent::SavePathPicked(picked)) => {
                if picked {
                    self.phase = ChainPhase::Finished;
                    ChainAction::SaveThenFinish
                } else {
                    self.phase = ChainPhase::Cancelled;
                    self.cancelled = true;
                    ChainAction::Stop
                }
            },
            _ => ChainAction::Stop,
        }
    }
}

/// Starts the load-splits workflow. Loading is refused outright while the
/// timer is mid-run, so no chain is started at all; otherwise the chain has
/// no destructive gate and an unsaved-changes gate exactly when the model is
/// dirty.
pub fn start_load_workflow(mid_run: bool, dirty: bool) -> (r: Option<(WorkflowChain, ChainAction)>)
    ensures
        mid_run ==> r is None,
        !mid_run ==> (r matches Some(p) && p.0 == spec_start(ChainPurpose::LoadSplits, false, dirty)
            && p.1 == spec_start_action(false, dirty)),
{
    if mid_run {
        None
    } else {
        Some(WorkflowChain::start(ChainPurpose::LoadSplits, false, dirty))
    }
}

/// Starts the main-window close workflow: the destructive gate runs exactly
/// when the timer is mid-run, the unsaved-changes gate exactly when the model
/// is dirty.
pub fn start_close_workflow(mid_run: bool, dirty: bool) -> (r: (WorkflowChain, ChainAction))
    ensures
        r.0 == spec_start(ChainPurpose::CloseMainWindow, mid_run, dirty),
        r.1 == spec_start_action(mid_run, dirty),
{
    WorkflowChain::start(ChainPurpose::CloseMainWindow, mid_run, dirty)
}

/// The chain state after a whole sequence of events.
pub open spec fn chain_run(c: WorkflowChain, evs: Seq<ChainEvent>) -> WorkflowChain
    decreases evs.len(),
{
    if evs.len() == 0 {
        c
    } else {
        chain_run(chain_next(c, evs[0]), evs.skip(1))
    }
}

/// A cancelled chain stays cancelled: no later event changes its state.
pub proof fn lemma_cancelled_is_absorbing(c: WorkflowChain, evs: Seq<ChainEvent>)
    requires
        c.wf(),
        c.cancelled,
    ensures
        chain_run(c, evs) == c,
    decreases evs.len(),
{
    if evs.len() > 0 {
        assert(chain_next(c, evs[0]) == c);
        lemma_cancelled_is_absorbing(c, evs.skip(1));
    }
}

/// Once a gate has cancelled a chain, no later event releases any action:
/// the terminal action never runs, no prompt is presented again, and the
/// save path is never picked, however the pending dialogs resolve.
pub proof fn lemma_cancelled_emits_nothing(c: WorkflowChain, evs: Seq<ChainEvent>, i: int)
    requires
        c.wf(),
        c.cancelled,
        0 <= i < evs.len(),
    ensures
        chain_action(chain_run(c, evs.take(i)), evs[i]) == ChainAction::Stop,
{
    lemma_cancelled_is_absorbing(c, evs.take(i));
}

/// Answering "No" at the destructive-action gate cancels the whole chain:
/// the unsaved-changes gate is never presented afterwards and the terminal
/// action never runs (this also covers a later event of the same chain).
pub proof fn lemma_destructive_no_blocks_chain(
    purpose: ChainPurpose,
    dirty: bool,
    evs: Seq<ChainEvent>,
    i: int,
)
    requires
        0 <= i < evs.len(),
    ensures
        ({
            let c0 = spec_start(purpose, true, dirty);
            let c1 = chain_next(c0, ChainEvent::DestructiveAnswered(false));
            chain_action(c0, ChainEvent::DestructiveAnswered(false)) == ChainAction::Stop
                && chain_action(chain_run(c1, evs.take(i)), evs[i]) == ChainAction::Stop
        }),
{
    let c0 = spec_start(purpose, true, dirty);
    let c1 = chain_next(c0, ChainEvent::DestructiveAnswered(false));
    lemma_cancelled_emits_nothing(c1, evs, i);
}

/// The three outcomes of the unsaved-changes gate, from a chain suspended on
/// it: *Cancel* cancels the chain, so the terminal action never runs and the
/// save path is never asked for; *Discard* releases the terminal action at
/// once, without any save; *Save* asks for the save path first, and the
/// terminal action runs only after a path was picked, bundled with the save.
pub proof fn lemma_save_gate_outcomes(c: WorkflowChain, evs: Seq<ChainEvent>, i: int)
    requires
        c.wf(),
        c.phase is AwaitingSaveChoice,
        0 <= i < evs.len(),
    ensures
        ({
            let cancel = chain_next(c, ChainEvent::SaveChoiceMade(SaveChoice::Cancel));
            chain_action(c, ChainEvent::SaveChoiceMade(SaveChoice::Cancel)) == ChainAction::Stop
                && chain_action(chain_run(cancel, evs.take(i)), evs[i]) == ChainAction::Stop
        }),
        chain_action(c, ChainEvent::SaveChoiceMade(SaveChoice::Discard)) == ChainAction::Finish,
        chain_action(c, ChainEvent::SaveChoiceMade(SaveChoice::Save)) == ChainAction::PickSavePath,
        ({
            let saving = chain_next(c, ChainEvent::SaveChoiceMade(SaveChoice::Save));
            &&& chain_action(saving, ChainEvent::SavePathPicked(true)) == ChainAction::SaveThenFinish
            &&& chain_action(saving, ChainEvent::SavePathPicked(false)) == ChainAction::Stop
            &&& chain_next(saving, ChainEvent::SavePathPicked(false)).cancelled
        }),
{
    let cancel = chain_next(c, ChainEvent::SaveChoiceMade(SaveChoice::Cancel));
    lemma_cancelled_emits_nothing(cancel, evs, i);
}

} // verus!
