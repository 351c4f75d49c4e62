use emoji_archiver::errors::{FailureReason, FetchError, FetchOutcome, RunAbortedError};
use emoji_archiver::model::{AssetDescriptor, ServerContext, Timestamp};
use emoji_archiver::plan::plan;
use emoji_archiver::run::{compose_summary, ArchiveRun, RunState};

fn resolved_run() -> ArchiveRun {
    let mut run = ArchiveRun::new("/dev/shm".to_string());
    assert!(run.on_message("!archive"));
    let server = ServerContext { server_id: 1, server_name: "Test Server".to_string() };
    let ts = Timestamp::new(2024, 1, 1, 0, 0, 0).unwrap();
    run.on_server_resolved(server, ts);
    run
}

#[test]
fn trigger_requires_exact_command() {
    let mut run = ArchiveRun::new("/dev/shm".to_string());
    assert!(!run.on_message("hello"));
    assert_eq!(run.state, RunState::Idle);
    assert!(!run.on_message("!archive please"));
    assert_eq!(run.state, RunState::Idle);
    assert!(run.on_message("!archive"));
    assert_eq!(run.state, RunState::Resolving);
    // A second trigger while the run is underway is a no-op.
    assert!(!run.on_message("!archive"));
    assert_eq!(run.state, RunState::Resolving);
}

#[test]
fn resolve_failure_aborts_run() {
    let mut run = ArchiveRun::new("/dev/shm".to_string());
    assert!(run.on_message("!archive"));
    let e = run.on_resolve_failed();
    assert_eq!(e, RunAbortedError::ServerUnresolved);
    assert_eq!(run.state, RunState::Idle);
    assert!(run.manifest.is_none());
    assert_eq!(e.message(), "Archive could not start: server could not be resolved.");
}

#[test]
fn listing_failure_aborts_with_no_manifest() {
    let mut run = resolved_run();
    assert_eq!(run.state, RunState::Listing);
    let e = run.on_listing_failed();
    assert_eq!(e, RunAbortedError::ListingFailed);
    assert_eq!(run.state, RunState::Idle);
    // No manifest: nothing was planned, so nothing can be written.
    assert!(run.manifest.is_none());
    assert_eq!(e.message(), "Archive could not start: asset listing failed.");
}

#[test]
fn empty_listing_completes_with_zero_counts() {
    let mut run = resolved_run();
    run.on_listing(Vec::new());
    assert_eq!(run.state, RunState::Downloading);
    assert!(run.all_outcomes_recorded());
    let summary = run.finish_downloads();
    assert_eq!(summary, "Archive complete. 0 succeeded, 0 failed.");
    assert_eq!(run.state, RunState::Completing);
    run.on_reply_sent();
    assert_eq!(run.state, RunState::Idle);
}

#[test]
fn one_failure_does_not_abort_siblings() {
    let mut run = resolved_run();
    let assets = vec![
        AssetDescriptor::new("bad".to_string(), "https://c/e/bad.gif".to_string(), true),
        AssetDescriptor::new("good".to_string(), "https://c/e/good.png".to_string(), false),
    ];
    run.on_listing(assets);
    assert!(!run.all_outcomes_recorded());
    run.record_outcome(
        0,
        FetchOutcome::Failure { reason: FailureReason::Fetch(FetchError::Network) },
    );
    assert!(!run.all_outcomes_recorded());
    run.record_outcome(
        1,
        FetchOutcome::Success { bytes_written: 512, path: "/dev/shm/x/good.png".to_string() },
    );
    assert!(run.all_outcomes_recorded());
    let summary = run.finish_downloads();
    assert_eq!(summary, "Archive complete. 1 succeeded, 1 failed.");
    assert_eq!(run.state, RunState::Completing);
}

#[test]
fn every_asset_has_one_outcome_before_reply() {
    let mut run = resolved_run();
    let assets = vec![
        AssetDescriptor::new("a".to_string(), "https://c/e/a.gif".to_string(), true),
        AssetDescriptor::new("b".to_string(), "https://c/e/b.png".to_string(), false),
        AssetDescriptor::new("c".to_string(), "https://c/e/c".to_string(), false),
    ];
    run.on_listing(assets);
    let manifest = run.manifest.as_ref().unwrap();
    assert_eq!(manifest.outcomes.len(), manifest.assets.len());
    assert!(manifest.outcomes.iter().all(|o| o.is_none()));
    for i in 0..3 {
        run.record_outcome(
            i,
            FetchOutcome::Success { bytes_written: 1, path: format!("/dev/shm/x/{}", i) },
        );
    }
    let manifest = run.manifest.as_ref().unwrap();
    assert!(manifest.outcomes.iter().all(|o| o.is_some()));
    run.finish_downloads();
    assert_eq!(run.state, RunState::Completing);
}

#[test]
fn reply_failure_still_ends_run() {
    let mut run = resolved_run();
    run.on_listing(Vec::new());
    run.finish_downloads();
    run.on_reply_failed();
    assert_eq!(run.state, RunState::Idle);
}

#[test]
fn summary_counts_are_exact() {
    assert_eq!(compose_summary(2, 0), "Archive complete. 2 succeeded, 0 failed.");
    assert_eq!(compose_summary(0, 13), "Archive complete. 0 succeeded, 13 failed.");
}

#[test]
fn end_to_end_two_assets() {
    let mut run = ArchiveRun::new("/dev/shm".to_string());
    assert!(run.on_message("!archive"));
    let server = ServerContext { server_id: 42, server_name: "Test Server".to_string() };
    let ts = Timestamp::new(2024, 1, 1, 0, 0, 0).unwrap();
    run.on_server_resolved(server, ts);
    let dir = run.directory.clone().unwrap();
    assert_eq!(dir, "/dev/shm/test-server-2024-01-01T00-00-00");

    let wave =
        AssetDescriptor::new("wave".to_string(), "https://c/e/wave.gif".to_string(), true);
    let smile =
        AssetDescriptor::new("smile".to_string(), "https://c/e/smile.png?x=1".to_string(), false);
    let wave_path = plan(&dir, &wave).unwrap();
    let smile_path = plan(&dir, &smile).unwrap();
    assert_eq!(wave_path, "/dev/shm/test-server-2024-01-01T00-00-00/wave.gif");
    assert_eq!(smile_path, "/dev/shm/test-server-2024-01-01T00-00-00/smile.png");

    run.on_listing(vec![wave, smile]);
    run.record_outcome(0, FetchOutcome::Success { bytes_written: 2048, path: wave_path });
    run.record_outcome(1, FetchOutcome::Success { bytes_written: 1024, path: smile_path });
    assert!(run.all_outcomes_recorded());
    let summary = run.finish_downloads();
    assert_eq!(summary, "Archive complete. 2 succeeded, 0 failed.");
    run.on_reply_sent();
    assert_eq!(run.state, RunState::Idle);
}

#[test]
fn outcome_succeeded_matches_variant() {
    let ok = FetchOutcome::Success { bytes_written: 1, path: "/p".to_string() };
    let bad = FetchOutcome::Failure { reason: FailureReason::Write };
    assert!(ok.succeeded());
    assert!(!bad.succeeded());
}
