//! The decisions of placing the current process in a process group that terminates its
//! child processes when the current process exits.
//!
//! The first successful call creates the group, configures it and assigns the current
//! process to it; later calls do nothing. A failed call leaves no group behind, so a later
//! call tries again.
use vstd::prelude::*;

verus! {

/// Whether the current process has been assigned to the process group.
#[derive(PartialEq, Eq, Structural, Clone, Copy, Debug)]
pub enum ProcessGroupState {
    Unassigned,
    Assigned,
}

/// What a call does, given the state it finds.
#[derive(PartialEq, Eq, Structural, Clone, Copy, Debug)]
pub enum ProcessGroupAction {
    /// The process is already in the group: return success without doing anything.
    AlreadyAssigned,
    /// Create and configure the group, then assign the current process to it.
    CreateAndAssign,
}

/// How creating and assigning the group ended.
#[derive(PartialEq, Eq, Structural, Clone, Copy, Debug)]
pub enum SetupOutcome {
    /// The group could not be created or configured.
    CreateFailed,
    /// The group was created but the current process could not be assigned to it.
    AssignFailed,
    /// The current process is in the group.
    Assigned,
}

/// Which step of the setup failed.
#[derive(PartialEq, Eq, Structural, Clone, Copy, Debug)]
pub enum SetupFailure {
    Create,
    Assign,
}

/// The action for a call that finds `state`.
pub open spec fn action_for(state: ProcessGroupState) -> ProcessGroupAction {
    match state {
        ProcessGroupState::Unassigned => ProcessGroupAction::CreateAndAssign,
        ProcessGroupState::Assigned => ProcessGroupAction::AlreadyAssigned,
    }
}

/// Decides what a call does. The caller asks again under its initialization lock before
/// acting, so two racing first calls set the group up once.
pub fn process_group_action(state: ProcessGroupState) -> (r: ProcessGroupAction)
    ensures
        r == action_for(state),
{
    match state {
        ProcessGroupState::Unassigned => ProcessGroupAction::CreateAndAssign,
        ProcessGroupState::Assigned => ProcessGroupAction::AlreadyAssigned,
    }
}

/// The state and the result of a call that attempted the setup with `outcome`.
pub open spec fn setup_result(outcome: SetupOutcome) -> (ProcessGroupState, Result<(), SetupFailure>) {
    match outcome {
        SetupOutcome::CreateFailed => (ProcessGroupState::Unassigned, Err(SetupFailure::Create)),
        SetupOutcome::AssignFailed => (ProcessGroupState::Unassigned, Err(SetupFailure::Assign)),
        SetupOutcome::Assigned => (ProcessGroupState::Assigned, Ok(())),
    }
}

/// Records the outcome of a setup attempt: only a completed assignment counts, and a
/// failure is returned to the caller.
pub fn finish_setup(outcome: SetupOutcome) -> (r: (ProcessGroupState, Result<(), SetupFailure>))
    ensures
        r == setup_result(outcome),
{
    match outcome {
        SetupOutcome::CreateFailed => (ProcessGroupState::Unassigned, Err(SetupFailure::Create)),
        SetupOutcome::AssignFailed => (ProcessGroupState::Unassigned, Err(SetupFailure::Assign)),
        SetupOutcome::Assigned => (ProcessGroupState::Assigned, Ok(())),
    }
}

/// The state after one call: `outcome` is what the setup would give if the call attempts it.
pub open spec fn state_after_call(state: ProcessGroupState, outcome: SetupOutcome) -> ProcessGroupState {
    match action_for(state) {
        ProcessGroupAction::AlreadyAssigned => state,
        ProcessGroupAction::CreateAndAssign => setup_result(outcome).0,
    }
}

/// The state after a sequence of calls, each given the outcome its setup would have.
pub open spec fn state_after_calls(state: ProcessGroupState, outcomes: Seq<SetupOutcome>) -> ProcessGroupState
    decreases outcomes.len(),
{
    if outcomes.len() == 0 {
        state
    } else {
        state_after_calls(state_after_call(state, outcomes[0]), outcomes.drop_first())
    }
}

/// Once a call has assigned the process, every later call is a successful no-op; until
/// then, every call attempts the setup again, so a failure is retried by the next call.
pub proof fn law_setup_once_then_no_op(outcomes: Seq<SetupOutcome>)
    ensures
        (exists|i: int| 0 <= i < outcomes.len() && outcomes[i] == SetupOutcome::Assigned)
            <==> state_after_calls(ProcessGroupState::Unassigned, outcomes) == ProcessGroupState::Assigned,
        forall|k: int| 0 <= k <= outcomes.len() ==>
            ((exists|i: int| 0 <= i < k && outcomes[i] == SetupOutcome::Assigned)
                <==> action_for(#[trigger] state_after_calls(ProcessGroupState::Unassigned, outcomes.take(k)))
                    == ProcessGroupAction::AlreadyAssigned),
{
    lemma_calls(ProcessGroupState::Unassigned, outcomes);
    assert forall|k: int| 0 <= k <= outcomes.len() implies
        ((exists|i: int| 0 <= i < k && outcomes[i] == SetupOutcome::Assigned)
            <==> action_for(#[trigger] state_after_calls(ProcessGroupState::Unassigned, outcomes.take(k)))
                == ProcessGroupAction::AlreadyAssigned) by {
        let prefix = outcomes.take(k);
        lemma_calls(ProcessGroupState::Unassigned, prefix);
        if exists|i: int| 0 <= i < k && outcomes[i] == SetupOutcome::Assigned {
            let i = choose|i: int| 0 <= i < k && outcomes[i] == SetupOutcome::Assigned;
            assert(prefix[i] == SetupOutcome::Assigned);
        }
        if exists|i: int| 0 <= i < prefix.len() && prefix[i] == SetupOutcome::Assigned {
            let i = choose|i: int| 0 <= i < prefix.len() && prefix[i] == SetupOutcome::Assigned;
            assert(outcomes[i] == SetupOutcome::Assigned);
        }
    }
}

proof fn lemma_calls(state: ProcessGroupState, outcomes: Seq<SetupOutcome>)
    ensures
        state == ProcessGroupState::Assigned ==> state_after_calls(state, outcomes) == ProcessGroupState::Assigned,
        state == ProcessGroupState::Unassigned ==> ((exists|i: int| 0 <= i < outcomes.len() && outcomes[i] == SetupOutcome::Assigned)
            <==> state_after_calls(state, outcomes) == ProcessGroupState::Assigned),
    decreases outcomes.len(),
{
    if outcomes.len() > 0 {
        let next = state_after_call(state, outcomes[0]);
        let rest = outcomes.drop_first();
        lemma_calls(next, rest);
        if state == ProcessGroupState::Unassigned {
            if exists|i: int| 0 <= i < outcomes.len() && outcomes[i] == SetupOutcome::Assigned {
                let i = choose|i: int| 0 <= i < outcomes.len() && outcomes[i] == SetupOutcome::Assigned;
                if i > 0 && outcomes[0] != SetupOutcome::Assigned {
                    assert(rest[i - 1] == SetupOutcome::Assigned);
                }
            }
            if state_after_calls(state, outcomes) == ProcessGroupState::Assigned && outcomes[0] != SetupOutcome::Assigned {
                let i = choose|i: int| 0 <= i < rest.len() && rest[i] == SetupOutcome::Assigned;
                assert(outcomes[i + 1] == SetupOutcome::Assigned);
            }
        }
    }
}

} // verus!
