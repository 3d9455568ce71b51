use augre::artifact::{
    artifact_presence, download_model, resume_offset, temp_download_path, DownloadIssue,
    FileProbe, TransferAnswer,
};
use augre::config::Mode;
use augre::resource::{Presence, ResourceError};
use augre::runtime::{
    runtime_install_finish, runtime_install_plan, runtime_presence, HostPlatform, RuntimeAction,
    SocketProbe,
};
use augre::server::{
    poll_begin, poll_step, server_launch, server_presence, server_remove_plan, server_start_plan,
    ContainerStatus, HealthProbe, PollVerdict, RemoveAction, StartAction,
    HEALTH_POLL_ATTEMPTS, HEALTH_POLL_FIRST_WAIT_MS, HEALTH_POLL_MAX_WAIT_MS,
};

#[test]
fn runtime_presence_follows_the_socket() {
    assert_eq!(runtime_presence(SocketProbe::Responding), Presence::Present);
    assert_eq!(runtime_presence(SocketProbe::NotResponding), Presence::Absent);
    assert_eq!(
        runtime_presence(SocketProbe::ProbeError("permission denied".to_string())),
        Presence::CheckFailed("permission denied".to_string())
    );
}

#[test]
fn runtime_install_is_per_platform_and_fatal_elsewhere() {
    assert_eq!(runtime_install_plan(HostPlatform::Linux), Ok(RuntimeAction::StartDaemon));
    assert_eq!(runtime_install_plan(HostPlatform::Mac), Ok(RuntimeAction::LaunchDesktop));
    assert_eq!(
        runtime_install_plan(HostPlatform::Unsupported),
        Err(ResourceError::InstallFailed(
            "this platform cannot install the container runtime".to_string()
        ))
    );
}

#[test]
fn runtime_install_finish_reprobes() {
    assert_eq!(runtime_install_finish(Ok(()), SocketProbe::Responding), Ok(()));
    assert_eq!(
        runtime_install_finish(Err("service not found".to_string()), SocketProbe::Responding),
        Err(ResourceError::InstallFailed("service not found".to_string()))
    );
    assert_eq!(
        runtime_install_finish(Ok(()), SocketProbe::NotResponding),
        Err(ResourceError::InstallFailed(
            "the container runtime did not answer after the start action".to_string()
        ))
    );
}

#[test]
fn artifact_presence_rejects_truncated_files() {
    assert_eq!(artifact_presence(FileProbe::Found(250), Some(250)), Presence::Present);
    // A file of the wrong length is a truncated download, never present.
    assert_eq!(artifact_presence(FileProbe::Found(100), Some(250)), Presence::Absent);
    assert_eq!(artifact_presence(FileProbe::Found(7), None), Presence::Present);
    assert_eq!(artifact_presence(FileProbe::NotFound, Some(250)), Presence::Absent);
    assert_eq!(
        artifact_presence(FileProbe::StatFailed("io error".to_string()), None),
        Presence::CheckFailed("io error".to_string())
    );
}

#[test]
fn download_resumes_from_the_partial_length() {
    // A partial file of 100 bytes of a 250-byte artifact: the range request
    // starts at 100, the remaining 150 bytes complete it, one rename.
    let run = download_model(Some(100), 250, TransferAnswer::Resumed(150));
    assert_eq!(run.request_start, 100);
    assert_eq!(run.temp_len_after, 250);
    assert!(run.renamed);
    assert_eq!(run.outcome, Ok(()));
}

#[test]
fn download_restarts_when_ranges_are_not_supported() {
    let run = download_model(Some(100), 250, TransferAnswer::Restarted(250));
    assert_eq!(run.request_start, 100);
    assert_eq!(run.temp_len_after, 250);
    assert!(run.renamed);
    assert_eq!(run.outcome, Ok(()));
}

#[test]
fn failed_download_leaves_the_partial_file() {
    let run = download_model(Some(100), 250, TransferAnswer::Rejected(503));
    assert!(!run.renamed);
    assert_eq!(run.temp_len_after, 100);
    assert_eq!(run.outcome, Err(DownloadIssue::Rejected(503)));

    let net = download_model(None, 250, TransferAnswer::NetworkFailed("timed out".to_string()));
    assert!(!net.renamed);
    assert_eq!(net.temp_len_after, 0);
    assert_eq!(net.outcome, Err(DownloadIssue::Network("timed out".to_string())));
}

#[test]
fn short_transfer_is_an_error_and_keeps_the_bytes() {
    let run = download_model(Some(100), 250, TransferAnswer::Resumed(50));
    assert!(!run.renamed);
    assert_eq!(run.temp_len_after, 150);
    assert_eq!(run.outcome, Err(DownloadIssue::WrongLength { got: 150, want: 250 }));
}

#[test]
fn resume_offset_is_the_partial_length_or_zero() {
    assert_eq!(resume_offset(Some(1234)), 1234);
    assert_eq!(resume_offset(None), 0);
}

#[test]
fn temp_path_carries_the_in_progress_suffix() {
    assert_eq!(temp_download_path("model.bin"), "model.bin.partial".to_string());
}

#[test]
fn server_presence_needs_a_healthy_answer() {
    assert_eq!(server_presence(HealthProbe::Healthy), Presence::Present);
    assert_eq!(server_presence(HealthProbe::NoListener), Presence::Absent);
    // A port held by something that does not answer the health contract is
    // never present.
    assert_eq!(
        server_presence(HealthProbe::Unhealthy("status 500".to_string())),
        Presence::CheckFailed("status 500".to_string())
    );
}

#[test]
fn poll_is_bounded_with_doubling_backoff() {
    let start = poll_begin();
    assert_eq!(start.attempts_left, HEALTH_POLL_ATTEMPTS);
    assert_eq!(start.wait_ms, HEALTH_POLL_FIRST_WAIT_MS);

    match poll_step(start, HealthProbe::NoListener) {
        PollVerdict::Again(next, wait) => {
            assert_eq!(wait, HEALTH_POLL_FIRST_WAIT_MS);
            assert_eq!(next.attempts_left, HEALTH_POLL_ATTEMPTS - 1);
            assert_eq!(next.wait_ms, 2 * HEALTH_POLL_FIRST_WAIT_MS);

            // The backoff never exceeds its ceiling.
            let mut state = next;
            while state.attempts_left > 1 {
                state = match poll_step(state, HealthProbe::NoListener) {
                    PollVerdict::Again(s, _) => s,
                    _ => panic!("the poll gave up before its budget was spent"),
                };
                assert!(state.wait_ms <= HEALTH_POLL_MAX_WAIT_MS);
            }
        },
        _ => panic!("a failing probe with budget left must poll again"),
    }
}

#[test]
fn poll_gives_up_with_the_last_failure() {
    let mut state = poll_begin();
    let mut gave_up = None;
    for _ in 0..=HEALTH_POLL_ATTEMPTS {
        match poll_step(state, HealthProbe::Unhealthy("connection reset".to_string())) {
            PollVerdict::Again(next, _) => state = next,
            PollVerdict::GaveUp(last) => {
                gave_up = Some(last);
                break;
            },
            PollVerdict::Ready => panic!("an unhealthy probe cannot end the poll successfully"),
        }
    }
    assert_eq!(gave_up, Some("connection reset".to_string()));
}

#[test]
fn poll_ends_at_once_on_a_healthy_answer() {
    assert!(matches!(poll_step(poll_begin(), HealthProbe::Healthy), PollVerdict::Ready));
}

#[test]
fn container_plans_cover_every_status() {
    assert_eq!(server_start_plan(ContainerStatus::Missing), StartAction::CreateAndStart);
    assert_eq!(server_start_plan(ContainerStatus::Stopped), StartAction::StartExisting);
    assert_eq!(server_start_plan(ContainerStatus::Running), StartAction::NoStartNeeded);

    assert_eq!(server_remove_plan(ContainerStatus::Running), RemoveAction::StopAndDelete);
    assert_eq!(server_remove_plan(ContainerStatus::Stopped), RemoveAction::DeleteOnly);
    assert_eq!(server_remove_plan(ContainerStatus::Missing), RemoveAction::NothingThere);
}

#[test]
fn launch_differs_only_in_gpu_selection() {
    let cfg = augre::config::Config::new(
        ".augre".to_string(),
        "model.bin".to_string(),
        "https://example.com/model.bin".to_string(),
        "https://api.openai.com".to_string(),
        None,
        Mode::LocalGpu,
        3000,
    )
    .expect("the configuration is well-formed");
    let gpu = server_launch(&cfg);
    assert_eq!(gpu.image, "cria:gpu");
    assert!(gpu.gpu);
    assert_eq!(gpu.port, 3000);
    assert_eq!(gpu.model_path, "model.bin");
    assert_eq!(gpu.data_path, ".augre");

    let cfg_cpu = augre::config::Config::new(
        ".augre".to_string(),
        "model.bin".to_string(),
        "https://example.com/model.bin".to_string(),
        "https://api.openai.com".to_string(),
        None,
        Mode::LocalCpu,
        3000,
    )
    .expect("the configuration is well-formed");
    let cpu = server_launch(&cfg_cpu);
    assert_eq!(cpu.image, "cria:cpu");
    assert!(!cpu.gpu);
}
