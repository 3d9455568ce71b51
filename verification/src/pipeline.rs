use vstd::prelude::*;

use crate::config::Mode;
use crate::ensure::{ensure_model, ensure_spec, EnsureRun, Surroundings};
use crate::resource::{has_remove, removable, ResourceId};

verus! {

/// The fixed resource chain a mode converges, in order: the cloud mode
/// needs only the credential; the local modes need the runtime, then the
/// artifact, then the server (GPU against CPU changes flags inside the
/// server resource, never the chain).
pub open spec fn pipeline_spec(mode: Mode) -> Seq<ResourceId> {
    if mode == Mode::Cloud {
        seq![ResourceId::Credential]
    } else {
        seq![ResourceId::Runtime, ResourceId::Artifact, ResourceId::Server]
    }
}

/// Build the resource chain the orchestrator ensures for a mode.  No
/// resource appears twice in one run.
pub fn pipeline_for(mode: Mode) -> (ids: Vec<ResourceId>)
    ensures
        ids@ == pipeline_spec(mode),
        forall|i: int, j: int| 0 <= i < j < ids@.len() ==> ids@[i] != ids@[j],
{
    let mut ids: Vec<ResourceId> = Vec::new();
    match mode {
        Mode::Cloud => {
            ids.push(ResourceId::Credential);
        },
        Mode::LocalCpu | Mode::LocalGpu => {
            ids.push(ResourceId::Runtime);
            ids.push(ResourceId::Artifact);
            ids.push(ResourceId::Server);
        },
    }
    proof {
        assert(ids@ =~= pipeline_spec(mode));
    }
    ids
}

/// One attempted resource in a pipeline report: which resource, and the
/// trace its ensure left.
pub struct EnsureRecord {
    /// The resource the entry is about.
    pub id: ResourceId,
    /// The trace its ensure left.
    pub run: EnsureRun,
}

/// What running the pipeline does: ensure each resource strictly in order,
/// one report entry per resource attempted, stopping at the first failure —
/// later resources are never attempted and have no entry.
pub open spec fn orchestrate(
    ids: Seq<ResourceId>,
    envs: Seq<Surroundings>,
    confirmed: bool,
) -> Seq<EnsureRecord>
    decreases ids.len(),
{
    if ids.len() == 0 {
        Seq::empty()
    } else {
        let run = ensure_spec(envs[0], confirmed);
        let rec = EnsureRecord { id: ids[0], run };
        if rec.run.outcome is Ok {
            seq![rec] + orchestrate(ids.drop_first(), envs.drop_first(), confirmed)
        } else {
            seq![rec]
        }
    }
}

/// Run the pipeline over scripted surroundings, one entry per resource: the
/// executable counterpart of `orchestrate`, and what the driver's loop does
/// with live probes.
pub fn run_pipeline(ids: Vec<ResourceId>, envs: Vec<Surroundings>, confirmed: bool) -> (report:
    Vec<EnsureRecord>)
    requires
        ids@.len() == envs@.len(),
    ensures
        report@ == orchestrate(ids@, envs@, confirmed),
    decreases ids@.len(),
{
    let mut ids = ids;
    let mut envs = envs;
    if ids.len() == 0 {
        let report: Vec<EnsureRecord> = Vec::new();
        proof {
            assert(report@ =~= orchestrate(ids@, envs@, confirmed));
        }
        report
    } else {
        let ghost all_ids = ids@;
        let ghost all_envs = envs@;
        let id = ids.remove(0);
        let env = envs.remove(0);
        proof {
            assert(ids@ =~= all_ids.drop_first());
            assert(envs@ =~= all_envs.drop_first());
        }
        let run = ensure_model(env, confirmed);
        let ok = match &run.outcome {
            Ok(_) => true,
            Err(_) => false,
        };
        let mut report: Vec<EnsureRecord> = Vec::new();
        report.push(EnsureRecord { id, run });
        if ok {
            let mut rest = run_pipeline(ids, envs, confirmed);
            report.append(&mut rest);
        }
        proof {
            assert(report@ =~= orchestrate(all_ids, all_envs, confirmed));
        }
        report
    }
}

/// The pipeline short-circuits: when every resource before position `at`
/// ensures successfully and the resource at `at` fails, the report holds
/// exactly the first `at + 1` resources — the failing one is the last and
/// names itself, and nothing after it is attempted.
pub proof fn lemma_pipeline_short_circuit(
    ids: Seq<ResourceId>,
    envs: Seq<Surroundings>,
    confirmed: bool,
    at: int,
)
    requires
        ids.len() == envs.len(),
        0 <= at < ids.len(),
        forall|j: int|
            0 <= j < at ==> (#[trigger] ensure_spec(envs[j], confirmed)).outcome is Ok,
        !(ensure_spec(envs[at], confirmed).outcome is Ok),
    ensures
        orchestrate(ids, envs, confirmed).len() == at + 1,
        forall|k: int|
            0 <= k <= at ==> (#[trigger] orchestrate(ids, envs, confirmed)[k]).id == ids[k]
                && orchestrate(ids, envs, confirmed)[k].run == ensure_spec(envs[k], confirmed),
    decreases at,
{
    if at == 0 {
    } else {
        assert(ensure_spec(envs[0], confirmed).outcome is Ok);
        lemma_pipeline_short_circuit(ids.drop_first(), envs.drop_first(), confirmed, at - 1);
        assert forall|k: int| 0 <= k <= at implies (#[trigger] orchestrate(ids, envs, confirmed)[k]).id
            == ids[k] && orchestrate(ids, envs, confirmed)[k].run == ensure_spec(
            envs[k],
            confirmed,
        ) by {
            if k > 0 {
                assert(orchestrate(ids, envs, confirmed)[k] == orchestrate(
                    ids.drop_first(),
                    envs.drop_first(),
                    confirmed,
                )[k - 1]);
            }
        }
    }
}

/// When every resource ensures successfully, the report holds one entry per
/// resource of the chain, each with its own ensure's trace.
pub proof fn lemma_pipeline_all_ok(ids: Seq<ResourceId>, envs: Seq<Surroundings>, confirmed: bool)
    requires
        ids.len() == envs.len(),
        forall|j: int|
            0 <= j < ids.len() ==> (#[trigger] ensure_spec(envs[j], confirmed)).outcome is Ok,
    ensures
        orchestrate(ids, envs, confirmed).len() == ids.len(),
        forall|k: int|
            0 <= k < ids.len() ==> (#[trigger] orchestrate(ids, envs, confirmed)[k]).id == ids[k]
                && orchestrate(ids, envs, confirmed)[k].run == ensure_spec(envs[k], confirmed),
    decreases ids.len(),
{
    if ids.len() == 0 {
    } else {
        lemma_pipeline_all_ok(ids.drop_first(), envs.drop_first(), confirmed);
        assert forall|k: int| 0 <= k < ids.len() implies (#[trigger] orchestrate(
            ids,
            envs,
            confirmed,
        )[k]).id == ids[k] && orchestrate(ids, envs, confirmed)[k].run == ensure_spec(
            envs[k],
            confirmed,
        ) by {
            if k > 0 {
                assert(orchestrate(ids, envs, confirmed)[k] == orchestrate(
                    ids.drop_first(),
                    envs.drop_first(),
                    confirmed,
                )[k - 1]);
            }
        }
    }
}

/// A declined prompt aborts the pipeline: when the resource at `at` is
/// absent, confirmation is off and the user refuses, nothing is installed
/// for it, its entry reports the declined error, and no later resource is
/// attempted.
pub proof fn lemma_declined_aborts_pipeline(
    ids: Seq<ResourceId>,
    envs: Seq<Surroundings>,
    at: int,
)
    requires
        ids.len() == envs.len(),
        0 <= at < ids.len(),
        forall|j: int| 0 <= j < at ==> (#[trigger] ensure_spec(envs[j], false)).outcome is Ok,
        envs[at].presence is Absent,
        !envs[at].user_accepts,
    ensures
        orchestrate(ids, envs, false).len() == at + 1,
        orchestrate(ids, envs, false)[at].id == ids[at],
        orchestrate(ids, envs, false)[at].run.outcome == Err::<
            crate::resource::EnsureOutcome,
            crate::resource::ResourceError,
        >(crate::resource::ResourceError::Declined),
        !orchestrate(ids, envs, false)[at].run.installed,
{
    lemma_pipeline_short_circuit(ids, envs, false, at);
}

/// The teardown pass over a chain: the resources that expose a removal
/// action, in reverse dependency order, so dependents come down before what
/// they depend on.
pub open spec fn removables_reversed(ids: Seq<ResourceId>) -> Seq<ResourceId>
    decreases ids.len(),
{
    if ids.len() == 0 {
        Seq::empty()
    } else {
        let rest = removables_reversed(ids.drop_first());
        if has_remove(ids.first()) {
            rest.push(ids.first())
        } else {
            rest
        }
    }
}

/// Build the order the stop command tears resources down in: the
/// removal-capable resources of the local chain, dependents first.  In the
/// current scope only the server implements removal.
pub fn teardown_order() -> (ids: Vec<ResourceId>)
    ensures
        ids@ == removables_reversed(pipeline_spec(Mode::LocalCpu)),
        ids@ == seq![ResourceId::Server],
{
    let chain = pipeline_for(Mode::LocalCpu);
    let mut ids: Vec<ResourceId> = Vec::new();
    let mut i: usize = chain.len();
    while i > 0
        invariant
            i <= chain@.len(),
            ids@ == removables_reversed(chain@.skip(i as int)),
        decreases i,
    {
        i = i - 1;
        proof {
            assert(chain@.skip(i as int).drop_first() =~= chain@.skip(i as int + 1));
        }
        if removable(chain[i]) {
            ids.push(chain[i]);
        }
    }
    proof {
        reveal_with_fuel(removables_reversed, 4);
        assert(chain@.skip(0) =~= chain@);
        let local = pipeline_spec(Mode::LocalCpu);
        assert(local.drop_first() =~= seq![ResourceId::Artifact, ResourceId::Server]);
        assert(seq![ResourceId::Artifact, ResourceId::Server].drop_first() =~= seq![
            ResourceId::Server,
        ]);
        assert(seq![ResourceId::Server].drop_first() =~= Seq::<ResourceId>::empty());
        assert(removables_reversed(seq![ResourceId::Server]) =~= seq![ResourceId::Server]);
        assert(removables_reversed(local) =~= seq![ResourceId::Server]);
    }
    ids
}

} // verus!
