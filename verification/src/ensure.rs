use vstd::prelude::*;

use crate::resource::{EnsureOutcome, Presence, RemoveOutcome, ResourceError};

verus! {

/// Everything the external system contributes to one ensure of one
/// resource: what the presence probe reports, what the user would answer if
/// prompted, and how the install action would end if run.  The driver
/// gathers these by real I/O; the decision logic is a function of them.
pub struct Surroundings {
    /// What `checkPresence` reported.
    pub presence: Presence,
    /// The answer the confirmation prompt would receive.
    pub user_accepts: bool,
    /// How the install action would end, were it invoked.
    pub install_result: Result<(), String>,
}

/// The trace one ensure leaves: its outcome, and which side effects ran.
pub struct EnsureRun {
    /// Success with how the resource was left, or the error surfaced.
    pub outcome: Result<EnsureOutcome, ResourceError>,
    /// Whether the install action was invoked.
    pub installed: bool,
    /// Whether the user was prompted.
    pub prompted: bool,
}

/// What one ensure does, as a function of its surroundings: return at once
/// on `Present`; surface a `CheckFailed` without installing; on `Absent`,
/// install directly when confirmed, otherwise only with the user's consent.
pub open spec fn ensure_spec(env: Surroundings, confirmed: bool) -> EnsureRun {
    match env.presence {
        Presence::Present => EnsureRun {
            outcome: Ok(EnsureOutcome::AlreadyPresent),
            installed: false,
            prompted: false,
        },
        Presence::CheckFailed(reason) => EnsureRun {
            outcome: Err(ResourceError::CheckFailed(reason)),
            installed: false,
            prompted: false,
        },
        Presence::Absent => {
            if confirmed || env.user_accepts {
                EnsureRun {
                    outcome: match env.install_result {
                        Ok(()) => Ok(EnsureOutcome::Installed),
                        Err(report) => Err(ResourceError::InstallFailed(report)),
                    },
                    installed: true,
                    prompted: !confirmed,
                }
            } else {
                EnsureRun { outcome: Err(ResourceError::Declined), installed: false, prompted: true }
            }
        },
    }
}

/// What the driver must do next while converging one resource.
pub enum EnsureStep {
    /// Run the install action now, then report how it went.
    Install,
    /// Put the confirmation prompt to the user, then report the answer.
    AskUser,
    /// The ensure is decided; nothing more runs.
    Done(Result<EnsureOutcome, ResourceError>),
}

/// Decide what follows the presence probe.  `Present` ends the ensure with
/// no side effects; `CheckFailed` surfaces the reason without installing;
/// `Absent` installs at once when confirmed and prompts first otherwise.
pub fn ensure_after_check(presence: Presence, confirmed: bool) -> (step: EnsureStep)
    ensures
        presence is Present ==> step == EnsureStep::Done(
            Ok::<EnsureOutcome, ResourceError>(EnsureOutcome::AlreadyPresent),
        ),
        presence matches Presence::CheckFailed(reason) ==> step == EnsureStep::Done(
            Err::<EnsureOutcome, ResourceError>(ResourceError::CheckFailed(reason)),
        ),
        presence is Absent && confirmed ==> step == EnsureStep::Install,
        presence is Absent && !confirmed ==> step == EnsureStep::AskUser,
{
    match presence {
        Presence::Present => EnsureStep::Done(Ok(EnsureOutcome::AlreadyPresent)),
        Presence::CheckFailed(reason) => EnsureStep::Done(Err(ResourceError::CheckFailed(reason))),
        Presence::Absent => if confirmed {
            EnsureStep::Install
        } else {
            EnsureStep::AskUser
        },
    }
}

/// Decide what follows the confirmation prompt: install on consent, abort
/// with the declined error on refusal.
pub fn ensure_after_answer(accepted: bool) -> (step: EnsureStep)
    ensures
        accepted ==> step == EnsureStep::Install,
        !accepted ==> step == EnsureStep::Done(
            Err::<EnsureOutcome, ResourceError>(ResourceError::Declined),
        ),
{
    if accepted {
        EnsureStep::Install
    } else {
        EnsureStep::Done(Err(ResourceError::Declined))
    }
}

/// Decide what the ensure reports once the install action has run: its
/// error is surfaced verbatim as an install failure.
pub fn ensure_after_install(ran: Result<(), String>) -> (out: Result<EnsureOutcome, ResourceError>)
    ensures
        ran is Ok ==> out == Ok::<EnsureOutcome, ResourceError>(EnsureOutcome::Installed),
        ran matches Err(report) ==> out == Err::<EnsureOutcome, ResourceError>(
            ResourceError::InstallFailed(report),
        ),
{
    match ran {
        Ok(()) => Ok(EnsureOutcome::Installed),
        Err(report) => Err(ResourceError::InstallFailed(report)),
    }
}

/// One whole ensure over scripted surroundings, composed from the same
/// decision steps the driver takes one at a time.  A `CheckFailed` probe
/// never reaches the install action, and a declined prompt installs
/// nothing and reports the declined error.
pub fn ensure_model(env: Surroundings, confirmed: bool) -> (run: EnsureRun)
    ensures
        run == ensure_spec(env, confirmed),
        run.installed <==> (env.presence is Absent && (confirmed || env.user_accepts)),
        run.prompted <==> (env.presence is Absent && !confirmed),
        env.presence is CheckFailed ==> !run.installed && run.outcome is Err,
        env.presence is Absent && !confirmed && !env.user_accepts ==> !run.installed && run.outcome
            == Err::<EnsureOutcome, ResourceError>(ResourceError::Declined),
{
    let Surroundings { presence, user_accepts, install_result } = env;
    let mut prompted = false;
    let mut step = ensure_after_check(presence, confirmed);
    if let EnsureStep::AskUser = step {
        prompted = true;
        step = ensure_after_answer(user_accepts);
    }
    match step {
        EnsureStep::Install => EnsureRun {
            outcome: ensure_after_install(install_result),
            installed: true,
            prompted,
        },
        EnsureStep::Done(outcome) => EnsureRun { outcome, installed: false, prompted },
        EnsureStep::AskUser => EnsureRun { outcome: Err(ResourceError::Declined), installed: false, prompted },
    }
}

/// What the presence probe reports after a run, when nothing else touches
/// the external system: a successful install converges the resource to
/// present, and everything else leaves it exactly as found.
pub open spec fn settled_presence(before: Presence, run: EnsureRun) -> Presence {
    if run.installed && run.outcome is Ok {
        Presence::Present
    } else {
        before
    }
}

/// Ensure is idempotent: after a successful ensure, with no intervening
/// external change, a second ensure observes `Present`, performs no install
/// and no prompt, and succeeds again — at most one install across the two
/// calls.
pub proof fn lemma_ensure_idempotent(
    first: Surroundings,
    second: Surroundings,
    confirmed_first: bool,
    confirmed_second: bool,
)
    requires
        ensure_spec(first, confirmed_first).outcome is Ok,
        second.presence == settled_presence(first.presence, ensure_spec(first, confirmed_first)),
    ensures
        ensure_spec(second, confirmed_second).outcome == Ok::<EnsureOutcome, ResourceError>(
            EnsureOutcome::AlreadyPresent,
        ),
        !ensure_spec(second, confirmed_second).installed,
        !ensure_spec(second, confirmed_second).prompted,
{
}

/// A `CheckFailed` probe stops the ensure before the install action: the
/// reason is surfaced unchanged and nothing is installed or prompted.
pub proof fn lemma_check_failed_never_installs(env: Surroundings, confirmed: bool, reason: String)
    requires
        env.presence == Presence::CheckFailed(reason),
    ensures
        !ensure_spec(env, confirmed).installed,
        !ensure_spec(env, confirmed).prompted,
        ensure_spec(env, confirmed).outcome == Err::<EnsureOutcome, ResourceError>(
            ResourceError::CheckFailed(reason),
        ),
{
}

/// Everything the external system contributes to one teardown: what the
/// user would answer if prompted, and how the removal action would end —
/// `Ok(true)` when it took something down, `Ok(false)` when it found
/// nothing to take down.
pub struct RemoveSurroundings {
    /// The answer the confirmation prompt would receive.
    pub user_accepts: bool,
    /// How the removal action would end, were it invoked.
    pub remove_result: Result<bool, String>,
}

/// The trace one teardown leaves.
pub struct TeardownRun {
    /// Success with how the resource was left, or the error surfaced.
    pub outcome: Result<RemoveOutcome, ResourceError>,
    /// Whether the removal action was invoked.
    pub removed: bool,
    /// Whether the user was prompted.
    pub prompted: bool,
}

/// What one teardown does: a resource without a removal action is a no-op
/// that reports nothing to remove; otherwise the same confirm-or-prompt
/// gate as ensure, then the removal action, whose "nothing there" answer is
/// still a success.
pub open spec fn teardown_spec(
    removable: bool,
    env: RemoveSurroundings,
    confirmed: bool,
) -> TeardownRun {
    if !removable {
        TeardownRun {
            outcome: Ok(RemoveOutcome::NothingToRemove),
            removed: false,
            prompted: false,
        }
    } else if confirmed || env.user_accepts {
        TeardownRun {
            outcome: match env.remove_result {
                Ok(true) => Ok(RemoveOutcome::Removed),
                Ok(false) => Ok(RemoveOutcome::NothingToRemove),
                Err(report) => Err(ResourceError::RemoveFailed(report)),
            },
            removed: true,
            prompted: !confirmed,
        }
    } else {
        TeardownRun { outcome: Err(ResourceError::Declined), removed: false, prompted: true }
    }
}

/// What the driver must do next while tearing one resource down.
pub enum TeardownStep {
    /// Run the removal action now, then report how it went.
    Remove,
    /// Put the confirmation prompt to the user, then report the answer.
    AskUser,
    /// The teardown is decided; nothing more runs.
    Done(Result<RemoveOutcome, ResourceError>),
}

/// Decide how a teardown opens: a resource without a removal action ends at
/// once with nothing to remove; otherwise the confirm-or-prompt gate.
pub fn teardown_start(removable: bool, confirmed: bool) -> (step: TeardownStep)
    ensures
        !removable ==> step == TeardownStep::Done(
            Ok::<RemoveOutcome, ResourceError>(RemoveOutcome::NothingToRemove),
        ),
        removable && confirmed ==> step == TeardownStep::Remove,
        removable && !confirmed ==> step == TeardownStep::AskUser,
{
    if !removable {
        TeardownStep::Done(Ok(RemoveOutcome::NothingToRemove))
    } else if confirmed {
        TeardownStep::Remove
    } else {
        TeardownStep::AskUser
    }
}

/// Decide what follows the teardown prompt: remove on consent, abort with
/// the declined error on refusal.
pub fn teardown_after_answer(accepted: bool) -> (step: TeardownStep)
    ensures
        accepted ==> step == TeardownStep::Remove,
        !accepted ==> step == TeardownStep::Done(
            Err::<RemoveOutcome, ResourceError>(ResourceError::Declined),
        ),
{
    if accepted {
        TeardownStep::Remove
    } else {
        TeardownStep::Done(Err(ResourceError::Declined))
    }
}

/// Decide what the teardown reports once the removal action has run.
/// Removal is idempotent: finding nothing to take down is a success.
pub fn teardown_after_remove(ran: Result<bool, String>) -> (out: Result<
    RemoveOutcome,
    ResourceError,
>)
    ensures
        ran == Ok::<bool, String>(true) ==> out == Ok::<RemoveOutcome, ResourceError>(
            RemoveOutcome::Removed,
        ),
        ran == Ok::<bool, String>(false) ==> out == Ok::<RemoveOutcome, ResourceError>(
            RemoveOutcome::NothingToRemove,
        ),
        ran matches Err(report) ==> out == Err::<RemoveOutcome, ResourceError>(
            ResourceError::RemoveFailed(report),
        ),
{
    match ran {
        Ok(true) => Ok(RemoveOutcome::Removed),
        Ok(false) => Ok(RemoveOutcome::NothingToRemove),
        Err(report) => Err(ResourceError::RemoveFailed(report)),
    }
}

/// One whole teardown over scripted surroundings, composed from the same
/// decision steps the driver takes one at a time.
pub fn teardown_model(removable: bool, env: RemoveSurroundings, confirmed: bool) -> (run:
    TeardownRun)
    ensures
        run == teardown_spec(removable, env, confirmed),
        run.removed <==> (removable && (confirmed || env.user_accepts)),
        run.prompted <==> (removable && !confirmed),
{
    let RemoveSurroundings { user_accepts, remove_result } = env;
    let mut prompted = false;
    let mut step = teardown_start(removable, confirmed);
    if let TeardownStep::AskUser = step {
        prompted = true;
        step = teardown_after_answer(user_accepts);
    }
    match step {
        TeardownStep::Remove => TeardownRun {
            outcome: teardown_after_remove(remove_result),
            removed: true,
            prompted,
        },
        TeardownStep::Done(outcome) => TeardownRun { outcome, removed: false, prompted },
        TeardownStep::AskUser => TeardownRun {
            outcome: Err(ResourceError::Declined),
            removed: false,
            prompted,
        },
    }
}

/// The stop command's process outcome: exit zero for every successful
/// teardown — the nothing-to-remove outcome included — and non-zero only
/// when the teardown itself failed.
pub fn stop_exit_code(outcome: &Result<RemoveOutcome, ResourceError>) -> (code: i32)
    ensures
        code == 0 <==> outcome is Ok,
{
    match outcome {
        Ok(_) => 0,
        Err(_) => 1,
    }
}

/// Stopping an already-stopped server succeeds: when the removal action
/// finds nothing bound to take down, the teardown reports nothing to
/// remove, not an error.
pub proof fn lemma_stop_already_stopped(env: RemoveSurroundings, confirmed: bool)
    requires
        env.remove_result == Ok::<bool, String>(false),
        confirmed || env.user_accepts,
    ensures
        teardown_spec(true, env, confirmed).outcome == Ok::<RemoveOutcome, ResourceError>(
            RemoveOutcome::NothingToRemove,
        ),
{
}

} // verus!
