use vstd::prelude::*;
use vstd::string::StringExecFns;

use crate::config::{Config, Mode};
use crate::resource::Presence;

verus! {

/// What a health request against the configured local port observed.
pub enum HealthProbe {
    /// Nothing accepted the connection: no server is there.
    NoListener,
    /// Something holds the port but did not answer the health contract —
    /// a stale or crashed container, or an unrelated process; carries what
    /// went wrong with the answer.
    Unhealthy(String),
    /// A successful, well-formed health response: the server can accept
    /// inference requests.
    Healthy,
}

/// What the server's presence check concludes: present only on a
/// successful health response — a port that is merely open reads as
/// check-failed, never as present.
pub open spec fn server_presence_spec(probe: HealthProbe) -> Presence {
    match probe {
        HealthProbe::Healthy => Presence::Present,
        HealthProbe::NoListener => Presence::Absent,
        HealthProbe::Unhealthy(reason) => Presence::CheckFailed(reason),
    }
}

/// Classify the server's presence from a health probe.
pub fn server_presence(probe: HealthProbe) -> (r: Presence)
    ensures
        r == server_presence_spec(probe),
        r is Present <==> probe is Healthy,
{
    match probe {
        HealthProbe::Healthy => Presence::Present,
        HealthProbe::NoListener => Presence::Absent,
        HealthProbe::Unhealthy(reason) => Presence::CheckFailed(reason),
    }
}

/// A process that holds the port without answering the health contract is
/// never read as present: only a healthy response is.
pub proof fn lemma_occupied_port_never_present(probe: HealthProbe)
    requires
        !(probe is Healthy),
    ensures
        !(server_presence_spec(probe) is Present),
{
}

/// How many health probes an install makes before giving up.
pub const HEALTH_POLL_ATTEMPTS: u32 = 10;

/// How long the first wait between health probes is.
pub const HEALTH_POLL_FIRST_WAIT_MS: u64 = 500;

/// The ceiling the backoff never exceeds.
pub const HEALTH_POLL_MAX_WAIT_MS: u64 = 8000;

/// Where the bounded health poll stands: how many probes are left, and how
/// long the next wait is.
pub struct PollState {
    /// Probes left before the install fails.
    pub attempts_left: u32,
    /// The wait before the next probe.
    pub wait_ms: u64,
}

/// The wait after a failed probe: doubled, up to the ceiling.
pub open spec fn backoff_spec(wait_ms: u64) -> u64 {
    if wait_ms <= HEALTH_POLL_MAX_WAIT_MS / 2 {
        (2 * wait_ms) as u64
    } else {
        HEALTH_POLL_MAX_WAIT_MS
    }
}

/// The poll an install starts with: the full budget of attempts and the
/// first wait.
pub fn poll_begin() -> (s: PollState)
    ensures
        s.attempts_left == HEALTH_POLL_ATTEMPTS,
        s.wait_ms == HEALTH_POLL_FIRST_WAIT_MS,
{
    PollState { attempts_left: HEALTH_POLL_ATTEMPTS, wait_ms: HEALTH_POLL_FIRST_WAIT_MS }
}

/// What the driver does after one health probe of the poll.
pub enum PollVerdict {
    /// Wait the given milliseconds, probe again, and continue from the new
    /// state — which always has strictly fewer attempts left, so the poll
    /// is bounded, not an unbounded retry.
    Again(PollState, u64),
    /// The server answered healthy: the install is done.
    Ready,
    /// The budget is spent; carries the last health-check failure so the
    /// error is diagnosable.
    GaveUp(String),
}

/// What the give-up report says: the last probe's own failure.
pub open spec fn last_failure_spec(probe: HealthProbe) -> Seq<char> {
    match probe {
        HealthProbe::Unhealthy(reason) => reason@,
        HealthProbe::NoListener => "nothing is listening on the configured port"@,
        HealthProbe::Healthy => Seq::empty(),
    }
}

/// Decide how the poll goes on after one health probe: done on a healthy
/// answer; on any other answer, spend one attempt and back off, or give up
/// with the last failure once the budget is spent.
pub fn poll_step(state: PollState, probe: HealthProbe) -> (v: PollVerdict)
    ensures
        probe is Healthy ==> v == PollVerdict::Ready,
        !(probe is Healthy) && state.attempts_left > 0 ==> (v matches PollVerdict::Again(
            next,
            wait,
        ) && next.attempts_left == state.attempts_left - 1 && next.wait_ms == backoff_spec(
            state.wait_ms,
        ) && wait == state.wait_ms),
        !(probe is Healthy) && state.attempts_left == 0 ==> (v matches PollVerdict::GaveUp(last)
            && last@ == last_failure_spec(probe)),
{
    match probe {
        HealthProbe::Healthy => PollVerdict::Ready,
        HealthProbe::NoListener => {
            if state.attempts_left > 0 {
                PollVerdict::Again(
                    PollState {
                        attempts_left: state.attempts_left - 1,
                        wait_ms: backoff(state.wait_ms),
                    },
                    state.wait_ms,
                )
            } else {
                PollVerdict::GaveUp(String::from_str("nothing is listening on the configured port"))
            }
        },
        HealthProbe::Unhealthy(reason) => {
            if state.attempts_left > 0 {
                PollVerdict::Again(
                    PollState {
                        attempts_left: state.attempts_left - 1,
                        wait_ms: backoff(state.wait_ms),
                    },
                    state.wait_ms,
                )
            } else {
                PollVerdict::GaveUp(reason)
            }
        },
    }
}

/// The wait after a failed probe: doubled, up to the ceiling.
fn backoff(wait_ms: u64) -> (r: u64)
    ensures
        r == backoff_spec(wait_ms),
{
    if wait_ms <= HEALTH_POLL_MAX_WAIT_MS / 2 {
        2 * wait_ms
    } else {
        HEALTH_POLL_MAX_WAIT_MS
    }
}

/// How the container runtime reports the server's container.
pub enum ContainerStatus {
    /// No container of the server's name exists.
    Missing,
    /// The container exists but is not running.
    Stopped,
    /// The container is running.
    Running,
}

/// What an install does about the container before polling: create it when
/// it is missing, start it when it merely stopped, touch nothing when it
/// already runs.
#[derive(Clone, Copy, PartialEq, Eq, Structural, Debug)]
pub enum StartAction {
    /// Create the container, then start it.
    CreateAndStart,
    /// Start the existing container.
    StartExisting,
    /// The container already runs; go straight to the health poll.
    NoStartNeeded,
}

/// Decide how an install brings the container up.
pub fn server_start_plan(found: ContainerStatus) -> (a: StartAction)
    ensures
        found is Missing ==> a == StartAction::CreateAndStart,
        found is Stopped ==> a == StartAction::StartExisting,
        found is Running ==> a == StartAction::NoStartNeeded,
{
    match found {
        ContainerStatus::Missing => StartAction::CreateAndStart,
        ContainerStatus::Stopped => StartAction::StartExisting,
        ContainerStatus::Running => StartAction::NoStartNeeded,
    }
}

/// What a removal does about the container: stop it first when it runs,
/// delete it when it merely exists, and nothing when nothing is there.
#[derive(Clone, Copy, PartialEq, Eq, Structural, Debug)]
pub enum RemoveAction {
    /// Stop the running container, then delete it.
    StopAndDelete,
    /// Delete the stopped container.
    DeleteOnly,
    /// Nothing exists; the removal reports nothing to remove.
    NothingThere,
}

/// Decide how a removal takes the container down; removing an absent
/// container asks for no action at all.
pub fn server_remove_plan(found: ContainerStatus) -> (a: RemoveAction)
    ensures
        found is Running ==> a == RemoveAction::StopAndDelete,
        found is Stopped ==> a == RemoveAction::DeleteOnly,
        found is Missing ==> a == RemoveAction::NothingThere,
{
    match found {
        ContainerStatus::Running => RemoveAction::StopAndDelete,
        ContainerStatus::Stopped => RemoveAction::DeleteOnly,
        ContainerStatus::Missing => RemoveAction::NothingThere,
    }
}

/// Everything a create-and-start needs: the image for the mode, the port
/// binding, and the two mounts.
pub struct ServerLaunch {
    /// The image the container runs; the GPU modes pick the GPU build.
    pub image: &'static str,
    /// The host port the server binds.
    pub port: u16,
    /// The artifact path mounted into the container.
    pub model_path: String,
    /// The data directory mounted into the container.
    pub data_path: String,
    /// Whether the container asks for GPU access.
    pub gpu: bool,
}

/// Assemble the launch for the configured mode: GPU against CPU changes
/// only the image and the GPU flag, nothing else.
pub fn server_launch(cfg: &Config) -> (l: ServerLaunch)
    requires
        cfg.mode.is_local_spec(),
    ensures
        l.port == cfg.cria_port,
        l.model_path@ == cfg.model_path@,
        l.data_path@ == cfg.data_path@,
        l.gpu == (cfg.mode == Mode::LocalGpu),
        l.gpu ==> l.image@ == "cria:gpu"@,
        !l.gpu ==> l.image@ == "cria:cpu"@,
{
    let gpu = match cfg.mode {
        Mode::LocalGpu => true,
        _ => false,
    };
    ServerLaunch {
        image: if gpu {
            "cria:gpu"
        } else {
            "cria:cpu"
        },
        port: cfg.cria_port,
        model_path: cfg.model_path.clone(),
        data_path: cfg.data_path.clone(),
        gpu,
    }
}

} // verus!
