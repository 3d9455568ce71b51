use vstd::prelude::*;
use vstd::string::StringExecFns;

use crate::resource::{Presence, ResourceError};

verus! {

/// What probing the container runtime's control socket found.
pub enum SocketProbe {
    /// The runtime's service answered: it is installed and running.
    Responding,
    /// Nothing answered: the runtime is not installed, or not running.
    NotResponding,
    /// The probe itself could not run; carries the reason.
    ProbeError(String),
}

/// What the runtime's presence check concludes from the socket probe.
pub open spec fn runtime_presence_spec(probe: SocketProbe) -> Presence {
    match probe {
        SocketProbe::Responding => Presence::Present,
        SocketProbe::NotResponding => Presence::Absent,
        SocketProbe::ProbeError(reason) => Presence::CheckFailed(reason),
    }
}

/// Classify the runtime's presence from a socket probe.
pub fn runtime_presence(probe: SocketProbe) -> (r: Presence)
    ensures
        r == runtime_presence_spec(probe),
{
    match probe {
        SocketProbe::Responding => Presence::Present,
        SocketProbe::NotResponding => Presence::Absent,
        SocketProbe::ProbeError(reason) => Presence::CheckFailed(reason),
    }
}

/// The kind of host the tool runs on, as far as the runtime install cares.
pub enum HostPlatform {
    /// A Linux host: the runtime comes up through the service manager.
    Linux,
    /// A macOS host: the runtime comes up through its desktop application.
    Mac,
    /// Anything else: the install fails fatally as unsupported.
    Unsupported,
}

/// The one start action the install runs for a host; there is no second
/// strategy to fall back to.
#[derive(Clone, Copy, PartialEq, Eq, Structural, Debug)]
pub enum RuntimeAction {
    /// Start the runtime's system service.
    StartDaemon,
    /// Launch the runtime's desktop application.
    LaunchDesktop,
}

/// Decide how the runtime install begins: one action per supported host,
/// and a fatal, unretried failure on an unsupported one.
pub fn runtime_install_plan(host: HostPlatform) -> (r: Result<RuntimeAction, ResourceError>)
    ensures
        host is Linux ==> r == Ok::<RuntimeAction, ResourceError>(RuntimeAction::StartDaemon),
        host is Mac ==> r == Ok::<RuntimeAction, ResourceError>(RuntimeAction::LaunchDesktop),
        host is Unsupported ==> (r matches Err(e) && e matches ResourceError::InstallFailed(m)
            && m@ == "this platform cannot install the container runtime"@),
{
    match host {
        HostPlatform::Linux => Ok(RuntimeAction::StartDaemon),
        HostPlatform::Mac => Ok(RuntimeAction::LaunchDesktop),
        HostPlatform::Unsupported => Err(
            ResourceError::InstallFailed(
                String::from_str("this platform cannot install the container runtime"),
            ),
        ),
    }
}

/// Decide what the runtime install reports once the start action has run
/// and the socket has been probed again: the action's own error is fatal,
/// and a runtime that still does not answer is an install failure, not
/// something to retry.
pub fn runtime_install_finish(ran: Result<(), String>, reprobe: SocketProbe) -> (r: Result<
    (),
    ResourceError,
>)
    ensures
        ran matches Err(report) ==> r == Err::<(), ResourceError>(
            ResourceError::InstallFailed(report),
        ),
        ran is Ok && reprobe is Responding ==> r is Ok,
        ran is Ok && !(reprobe is Responding) ==> (r matches Err(e) && e
            matches ResourceError::InstallFailed(m) && m@
            == "the container runtime did not answer after the start action"@),
{
    match ran {
        Err(report) => Err(ResourceError::InstallFailed(report)),
        Ok(()) => match reprobe {
            SocketProbe::Responding => Ok(()),
            _ => Err(
                ResourceError::InstallFailed(
                    String::from_str("the container runtime did not answer after the start action"),
                ),
            ),
        },
    }
}

} // verus!
