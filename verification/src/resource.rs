use vstd::prelude::*;

verus! {

/// The units of external environment state the tool converges, in the
/// identity the orchestrator and the diagnostics use.  No resource is
/// instantiated twice in one run.
#[derive(Clone, Copy, PartialEq, Eq, Structural, Debug)]
pub enum ResourceId {
    /// The container runtime that hosts the local inference server.
    Runtime,
    /// The large model file, identified by a URL and a local path.
    Artifact,
    /// The local inference server process bound to the configured port.
    Server,
    /// The cloud API key; checkable but never installable by the tool.
    Credential,
}

/// Which resources expose a removal action.  In the current scope only the
/// inference server can be torn down again.
pub open spec fn has_remove(id: ResourceId) -> bool {
    id == ResourceId::Server
}

/// Whether a resource exposes a removal action.
pub fn removable(id: ResourceId) -> (r: bool)
    ensures
        r == has_remove(id),
{
    match id {
        ResourceId::Server => true,
        _ => false,
    }
}

/// The diagnostic label each resource carries in error reports.
pub open spec fn name_spec(id: ResourceId) -> Seq<char> {
    match id {
        ResourceId::Runtime => "docker"@,
        ResourceId::Artifact => "model"@,
        ResourceId::Server => "cria"@,
        ResourceId::Credential => "gpt_sdk"@,
    }
}

/// The diagnostic label each resource carries in error reports.
pub fn resource_name(id: ResourceId) -> (r: &'static str)
    ensures
        r@ == name_spec(id),
{
    match id {
        ResourceId::Runtime => "docker",
        ResourceId::Artifact => "model",
        ResourceId::Server => "cria",
        ResourceId::Credential => "gpt_sdk",
    }
}

/// What a presence check reported: the tri-state result every resource's
/// read-only probe produces.
#[derive(Debug, PartialEq, Eq)]
pub enum Presence {
    /// The resource is in its required state.
    Present,
    /// The resource is missing and an install may converge it.
    Absent,
    /// The probe could not diagnose the state; the reason is surfaced and
    /// nothing is installed over it.
    CheckFailed(String),
}

/// Why an ensure or teardown did not converge its resource.  Every variant
/// is surfaced verbatim to the user together with the resource's name.
#[derive(Debug, PartialEq, Eq)]
pub enum ResourceError {
    /// The presence check itself failed; carries the probe's reason.
    CheckFailed(String),
    /// The resource was absent and the user refused the confirmation prompt.
    Declined,
    /// The install action errored; carries the action's report.
    InstallFailed(String),
    /// The removal action errored; carries the action's report.
    RemoveFailed(String),
    /// The configuration cannot support the request at all.
    ConfigError(String),
}

/// How a successful ensure left its resource.
#[derive(Clone, Copy, PartialEq, Eq, Structural, Debug)]
pub enum EnsureOutcome {
    /// The presence check already held; nothing was touched.
    AlreadyPresent,
    /// The install action ran and converged the resource.
    Installed,
}

/// How a successful teardown left its resource.
#[derive(Clone, Copy, PartialEq, Eq, Structural, Debug)]
pub enum RemoveOutcome {
    /// The removal action ran and took the resource down.
    Removed,
    /// There was nothing to remove: the resource has no removal action, or
    /// it was already absent.
    NothingToRemove,
}

} // verus!
