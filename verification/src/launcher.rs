use vstd::prelude::*;

use crate::mask::{affinity_mask, affinity_mask_spec, AFFINITY_WORD_BITS};
use crate::win_path::{is_absolute_path, is_absolute_spec, parent_directory, parent_spec};

verus! {

/// The OS primitive a failed step was running.
#[derive(Clone, Copy, Debug, PartialEq, Eq, Structural)]
pub enum OsCall {
    /// Setting the launcher's own CPU affinity.
    SetAffinity,
    /// Creating the child process.
    CreateProcess,
}

/// Why a launch failed.
#[derive(Clone, Copy, Debug, PartialEq, Eq, Structural)]
pub enum LaunchError {
    /// The command path was not absolute, or the CPU count was zero or
    /// larger than the affinity word.
    InvalidArgument,
    /// An OS primitive reported failure; `last_error` carries the platform
    /// error code verbatim.
    OsCallFailed { call: OsCall, last_error: u32 },
}

/// A request to launch a command pinned to the low `cpu_count` CPUs.
#[derive(Clone, Debug)]
pub struct Invocation {
    /// How many CPUs the launcher may run on.
    pub cpu_count: u32,
    /// The command to start; it must be an absolute path.
    pub command_path: String,
    /// The child's working directory; the parent directory of
    /// `command_path` when omitted.
    pub working_directory: Option<String>,
}

/// An invocation the launcher accepts: an absolute command path and a CPU
/// count within the affinity word.
pub open spec fn invocation_valid(inv: Invocation) -> bool {
    &&& is_absolute_spec(inv.command_path@)
    &&& 1 <= inv.cpu_count <= AFFINITY_WORD_BITS
}

/// The working directory a launch runs with: the one supplied, used
/// verbatim, or else the parent directory of the command path.
pub open spec fn resolved_directory_spec(inv: Invocation) -> Seq<char> {
    match inv.working_directory {
        Option::Some(d) => d@,
        Option::None => parent_spec(inv.command_path@),
    }
}

/// Everything the OS steps need, computed before any OS call is made.
#[derive(Clone, Debug)]
pub struct LaunchPlan {
    /// The mask to apply to the launcher's own process.
    pub affinity_mask: u64,
    /// The command to start.
    pub command_path: String,
    /// The child's working directory.
    pub working_directory: String,
}

/// The plan a valid invocation resolves to.
pub open spec fn plan_matches(plan: LaunchPlan, inv: Invocation) -> bool {
    &&& plan.affinity_mask == affinity_mask_spec(inv.cpu_count)
    &&& plan.command_path@ == inv.command_path@
    &&& plan.working_directory@ == resolved_directory_spec(inv)
}

/// Validates an invocation and computes its launch plan.
///
/// A relative command path is rejected. A CPU count of zero or beyond the
/// affinity word would under- or overflow the mask; such a count is
/// rejected rather than computed with.
pub fn prepare(inv: &Invocation) -> (r: Result<LaunchPlan, LaunchError>)
    ensures
        r is Ok <==> invocation_valid(*inv),
        (r matches Ok(plan) ==> plan_matches(plan, *inv)),
        (r matches Err(e) ==> e == LaunchError::InvalidArgument),
{
    if inv.cpu_count < 1 || inv.cpu_count > AFFINITY_WORD_BITS {
        return Err(LaunchError::InvalidArgument);
    }
    if !is_absolute_path(inv.command_path.as_str()) {
        return Err(LaunchError::InvalidArgument);
    }
    let mask = affinity_mask(inv.cpu_count);
    let dir = match &inv.working_directory {
        Option::Some(d) => d.clone(),
        Option::None => parent_directory(inv.command_path.as_str()),
    };
    Ok(LaunchPlan {
        affinity_mask: mask,
        command_path: inv.command_path.clone(),
        working_directory: dir,
    })
}

/// Where a launch stands. The steps run in order,
/// `Validated -> AffinitySet -> Spawned -> Done`, and the first failure
/// moves to `Failed`, which no step leaves.
#[derive(Clone, Debug)]
pub enum LaunchState {
    /// Validation passed; the affinity mask is owed to the OS next.
    Validated { plan: LaunchPlan },
    /// The launcher's affinity is set; the child is owed next.
    AffinitySet { plan: LaunchPlan },
    /// The child runs; the launcher owes it a wait.
    Spawned,
    /// The child has terminated; the launch succeeded.
    Done,
    /// A step failed; no further OS call is owed.
    Failed { error: LaunchError },
}

/// What an OS step reported, handed back by the embedding program.
#[derive(Clone, Copy, Debug, PartialEq, Eq, Structural)]
pub enum StepOutcome {
    /// The call succeeded.
    Succeeded,
    /// The call failed with this platform error code.
    Failed { last_error: u32 },
}

/// Starts a launch: validation and planning, before any OS call. An invalid
/// invocation starts `Failed`, so no OS step is ever owed for it.
pub fn start(inv: &Invocation) -> (s: LaunchState)
    ensures
        s is Validated <==> invocation_valid(*inv),
        (s matches LaunchState::Validated { plan } ==> plan_matches(plan, *inv)),
        !invocation_valid(*inv) ==> s == (LaunchState::Failed {
            error: LaunchError::InvalidArgument,
        }),
{
    match prepare(inv) {
        Ok(plan) => LaunchState::Validated { plan },
        Err(error) => LaunchState::Failed { error },
    }
}

/// The state one step's outcome moves the launch to.
///
/// A failed affinity call fails the launch with `SetAffinity` and the
/// reported error code, before any child exists; a failed creation call
/// fails it with `CreateProcess`, and no wait is owed after it. The wait's
/// own result is not inspected: the launch is done once the wait returns.
/// `Done` and `Failed` are terminal.
pub open spec fn step_spec(s: LaunchState, outcome: StepOutcome) -> LaunchState {
    match s {
        LaunchState::Validated { plan } => match outcome {
            StepOutcome::Succeeded => LaunchState::AffinitySet { plan },
            StepOutcome::Failed { last_error } => LaunchState::Failed {
                error: LaunchError::OsCallFailed { call: OsCall::SetAffinity, last_error },
            },
        },
        LaunchState::AffinitySet { plan } => match outcome {
            StepOutcome::Succeeded => LaunchState::Spawned,
            StepOutcome::Failed { last_error } => LaunchState::Failed {
                error: LaunchError::OsCallFailed { call: OsCall::CreateProcess, last_error },
            },
        },
        LaunchState::Spawned => LaunchState::Done,
        LaunchState::Done => LaunchState::Done,
        LaunchState::Failed { error } => LaunchState::Failed { error },
    }
}

/// Advances the launch by one step, as `step_spec` says.
pub fn step(s: LaunchState, outcome: StepOutcome) -> (t: LaunchState)
    ensures
        t == step_spec(s, outcome),
{
    match s {
        LaunchState::Validated { plan } => match outcome {
            StepOutcome::Succeeded => LaunchState::AffinitySet { plan },
            StepOutcome::Failed { last_error } => LaunchState::Failed {
                error: LaunchError::OsCallFailed { call: OsCall::SetAffinity, last_error },
            },
        },
        LaunchState::AffinitySet { plan: _ } => match outcome {
            StepOutcome::Succeeded => LaunchState::Spawned,
            StepOutcome::Failed { last_error } => LaunchState::Failed {
                error: LaunchError::OsCallFailed { call: OsCall::CreateProcess, last_error },
            },
        },
        LaunchState::Spawned => LaunchState::Done,
        LaunchState::Done => LaunchState::Done,
        LaunchState::Failed { error } => LaunchState::Failed { error },
    }
}

/// The final result once the launch has stopped: success after the wait, or
/// the error that stopped it; `None` while a step is still owed.
pub fn outcome(s: &LaunchState) -> (r: Option<Result<(), LaunchError>>)
    ensures
        s is Done ==> r == Some(Result::<(), LaunchError>::Ok(())),
        (s matches LaunchState::Failed { error } ==> r == Some(
            Result::<(), LaunchError>::Err(*error),
        )),
        s is Validated || s is AffinitySet || s is Spawned ==> r is None,
{
    match s {
        LaunchState::Done => Some(Ok(())),
        LaunchState::Failed { error } => Some(Err(*error)),
        _ => None,
    }
}

/// Law: a failed launch stays failed, whatever outcome is reported: no OS
/// step leads out of `Failed`.
pub proof fn lemma_failed_is_terminal(error: LaunchError, outcome: StepOutcome)
    ensures
        step_spec((LaunchState::Failed { error }), outcome) == (LaunchState::Failed { error }),
{
}

/// Law: when every OS step succeeds, the launch runs
/// `Validated -> AffinitySet -> Spawned -> Done`, applying exactly the
/// plan's steps in order.
pub proof fn lemma_successful_run(plan: LaunchPlan)
    ensures
        step_spec((LaunchState::Validated { plan }), StepOutcome::Succeeded) == (
        LaunchState::AffinitySet { plan }),
        step_spec((LaunchState::AffinitySet { plan }), StepOutcome::Succeeded)
            == LaunchState::Spawned,
        step_spec(LaunchState::Spawned, StepOutcome::Succeeded) == LaunchState::Done,
{
}

} // verus!
