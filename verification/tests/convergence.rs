use augre::ensure::{
    ensure_after_answer, stop_exit_code, ensure_after_check, ensure_after_install, ensure_model, teardown_model,
    teardown_start, EnsureStep, RemoveSurroundings, Surroundings, TeardownStep,
};
use augre::config::Mode;
use augre::pipeline::{pipeline_for, run_pipeline, teardown_order};
use augre::resource::{
    removable, resource_name, EnsureOutcome, Presence, RemoveOutcome, ResourceError, ResourceId,
};

fn absent(install: Result<(), String>, accepts: bool) -> Surroundings {
    Surroundings { presence: Presence::Absent, user_accepts: accepts, install_result: install }
}

#[test]
fn ensure_present_is_a_no_op() {
    let env = Surroundings {
        presence: Presence::Present,
        user_accepts: false,
        install_result: Ok(()),
    };
    let run = ensure_model(env, true);
    assert_eq!(run.outcome, Ok(EnsureOutcome::AlreadyPresent));
    assert!(!run.installed);
    assert!(!run.prompted);
}

#[test]
fn ensure_twice_installs_at_most_once() {
    // First call: absent, confirmed, install succeeds.
    let first = ensure_model(absent(Ok(()), false), true);
    assert_eq!(first.outcome, Ok(EnsureOutcome::Installed));
    assert!(first.installed);
    // With no intervening external change, a successful install leaves the
    // resource present, so the second call observes it and is a no-op.
    let second = ensure_model(
        Surroundings { presence: Presence::Present, user_accepts: false, install_result: Ok(()) },
        true,
    );
    assert_eq!(second.outcome, Ok(EnsureOutcome::AlreadyPresent));
    assert!(!second.installed);
}

#[test]
fn check_failed_never_installs() {
    let env = Surroundings {
        presence: Presence::CheckFailed("socket probe timed out".to_string()),
        user_accepts: true,
        install_result: Ok(()),
    };
    let run = ensure_model(env, true);
    assert_eq!(
        run.outcome,
        Err(ResourceError::CheckFailed("socket probe timed out".to_string()))
    );
    assert!(!run.installed);
    assert!(!run.prompted);
}

#[test]
fn declined_prompt_installs_nothing() {
    let run = ensure_model(absent(Ok(()), false), false);
    assert_eq!(run.outcome, Err(ResourceError::Declined));
    assert!(!run.installed);
    assert!(run.prompted);
}

#[test]
fn accepted_prompt_installs() {
    let run = ensure_model(absent(Ok(()), true), false);
    assert_eq!(run.outcome, Ok(EnsureOutcome::Installed));
    assert!(run.installed);
    assert!(run.prompted);
}

#[test]
fn install_failure_is_surfaced_verbatim() {
    let run = ensure_model(absent(Err("disk full".to_string()), false), true);
    assert_eq!(run.outcome, Err(ResourceError::InstallFailed("disk full".to_string())));
    assert!(run.installed);
}

#[test]
fn ensure_steps_match_the_gate() {
    assert!(matches!(
        ensure_after_check(Presence::Present, false),
        EnsureStep::Done(Ok(EnsureOutcome::AlreadyPresent))
    ));
    assert!(matches!(ensure_after_check(Presence::Absent, true), EnsureStep::Install));
    assert!(matches!(ensure_after_check(Presence::Absent, false), EnsureStep::AskUser));
    assert!(matches!(ensure_after_answer(true), EnsureStep::Install));
    assert!(matches!(
        ensure_after_answer(false),
        EnsureStep::Done(Err(ResourceError::Declined))
    ));
    assert_eq!(ensure_after_install(Ok(())), Ok(EnsureOutcome::Installed));
    assert_eq!(
        ensure_after_install(Err("no such image".to_string())),
        Err(ResourceError::InstallFailed("no such image".to_string()))
    );
}

#[test]
fn pipeline_shape_follows_the_mode() {
    assert_eq!(pipeline_for(Mode::Cloud), vec![ResourceId::Credential]);
    assert_eq!(
        pipeline_for(Mode::LocalCpu),
        vec![ResourceId::Runtime, ResourceId::Artifact, ResourceId::Server]
    );
    assert_eq!(
        pipeline_for(Mode::LocalGpu),
        vec![ResourceId::Runtime, ResourceId::Artifact, ResourceId::Server]
    );
}

#[test]
fn pipeline_short_circuits_on_the_second_resource() {
    let ids = pipeline_for(Mode::LocalCpu);
    let envs = vec![
        Surroundings { presence: Presence::Present, user_accepts: false, install_result: Ok(()) },
        absent(Err("connection reset".to_string()), false),
        Surroundings { presence: Presence::Present, user_accepts: false, install_result: Ok(()) },
    ];
    let report = run_pipeline(ids, envs, true);
    // Resource three was never attempted: no entry exists for it.
    assert_eq!(report.len(), 2);
    // The reported error names resource two.
    assert_eq!(report[1].id, ResourceId::Artifact);
    assert_eq!(resource_name(report[1].id), "model");
    assert_eq!(
        report[1].run.outcome,
        Err(ResourceError::InstallFailed("connection reset".to_string()))
    );
    assert_eq!(report[0].id, ResourceId::Runtime);
    assert_eq!(report[0].run.outcome, Ok(EnsureOutcome::AlreadyPresent));
}

#[test]
fn pipeline_decline_aborts_the_chain() {
    let ids = pipeline_for(Mode::LocalCpu);
    let envs = vec![
        absent(Ok(()), false),
        Surroundings { presence: Presence::Present, user_accepts: false, install_result: Ok(()) },
        Surroundings { presence: Presence::Present, user_accepts: false, install_result: Ok(()) },
    ];
    let report = run_pipeline(ids, envs, false);
    assert_eq!(report.len(), 1);
    assert_eq!(report[0].id, ResourceId::Runtime);
    assert_eq!(report[0].run.outcome, Err(ResourceError::Declined));
    assert!(!report[0].run.installed);
}

#[test]
fn pipeline_runs_every_resource_when_all_succeed() {
    let ids = pipeline_for(Mode::LocalCpu);
    let envs = vec![absent(Ok(()), false), absent(Ok(()), false), absent(Ok(()), false)];
    let report = run_pipeline(ids, envs, true);
    assert_eq!(report.len(), 3);
    for entry in &report {
        assert_eq!(entry.run.outcome, Ok(EnsureOutcome::Installed));
    }
}

#[test]
fn stop_on_an_already_stopped_server_succeeds() {
    // The removal action finds nothing bound to take down.
    let env = RemoveSurroundings { user_accepts: false, remove_result: Ok(false) };
    let run = teardown_model(true, env, true);
    assert_eq!(run.outcome, Ok(RemoveOutcome::NothingToRemove));
    assert!(run.removed);
}

#[test]
fn stop_exits_zero_even_with_nothing_to_remove() {
    assert_eq!(stop_exit_code(&Ok(RemoveOutcome::NothingToRemove)), 0);
    assert_eq!(stop_exit_code(&Ok(RemoveOutcome::Removed)), 0);
    assert_eq!(
        stop_exit_code(&Err(ResourceError::RemoveFailed("daemon hung".to_string()))),
        1
    );
}

#[test]
fn teardown_without_remove_capability_is_a_no_op() {
    let env = RemoveSurroundings { user_accepts: true, remove_result: Ok(true) };
    let run = teardown_model(false, env, true);
    assert_eq!(run.outcome, Ok(RemoveOutcome::NothingToRemove));
    assert!(!run.removed);
    assert!(!run.prompted);
    assert!(matches!(
        teardown_start(false, false),
        TeardownStep::Done(Ok(RemoveOutcome::NothingToRemove))
    ));
}

#[test]
fn teardown_removes_and_reports_failures() {
    let removed = teardown_model(
        true,
        RemoveSurroundings { user_accepts: false, remove_result: Ok(true) },
        true,
    );
    assert_eq!(removed.outcome, Ok(RemoveOutcome::Removed));

    let failed = teardown_model(
        true,
        RemoveSurroundings { user_accepts: false, remove_result: Err("daemon hung".to_string()) },
        true,
    );
    assert_eq!(failed.outcome, Err(ResourceError::RemoveFailed("daemon hung".to_string())));

    let declined = teardown_model(
        true,
        RemoveSurroundings { user_accepts: false, remove_result: Ok(true) },
        false,
    );
    assert_eq!(declined.outcome, Err(ResourceError::Declined));
    assert!(!declined.removed);
}

#[test]
fn teardown_order_is_the_server_alone() {
    assert_eq!(teardown_order(), vec![ResourceId::Server]);
    assert!(removable(ResourceId::Server));
    assert!(!removable(ResourceId::Runtime));
    assert!(!removable(ResourceId::Artifact));
    assert!(!removable(ResourceId::Credential));
}

#[test]
fn resource_names_are_the_diagnostic_labels() {
    assert_eq!(resource_name(ResourceId::Runtime), "docker");
    assert_eq!(resource_name(ResourceId::Artifact), "model");
    assert_eq!(resource_name(ResourceId::Server), "cria");
    assert_eq!(resource_name(ResourceId::Credential), "gpt_sdk");
}
