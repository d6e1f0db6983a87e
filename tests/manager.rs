use rsearx::manager::{Executor, InitAction, InitEvent, InitStage};

fn ok() -> InitEvent {
    InitEvent::Completed { outcome: Ok(()) }
}

fn failed(cause: &str) -> InitEvent {
    InitEvent::Completed { outcome: Err(cause.to_string()) }
}

#[test]
fn test_init_when_dir_not_exist() {
    let mut executor = Executor::new();
    assert_eq!(executor.step(InitEvent::Begin), InitAction::CheckDir);
    assert_eq!(executor.step(InitEvent::DirExists { exists: false }), InitAction::FetchRelease);
    assert_eq!(executor.step(ok()), InitAction::DownloadRelease);
    assert_eq!(executor.step(ok()), InitAction::UnzipRelease);
    assert_eq!(executor.step(ok()), InitAction::RemoveZipFile);
    assert_eq!(executor.step(ok()), InitAction::Finish { outcome: Ok(()) });
    assert_eq!(executor.stage, InitStage::Finished);
}

#[test]
fn test_init_when_dir_exist() {
    let mut executor = Executor::new();
    assert_eq!(executor.step(InitEvent::Begin), InitAction::CheckDir);
    assert_eq!(executor.step(InitEvent::DirExists { exists: true }), InitAction::RemoveFolder);
    assert_eq!(executor.step(ok()), InitAction::FetchRelease);
    assert_eq!(executor.step(ok()), InitAction::DownloadRelease);
    assert_eq!(executor.step(ok()), InitAction::UnzipRelease);
    assert_eq!(executor.step(ok()), InitAction::RemoveZipFile);
    assert_eq!(executor.step(ok()), InitAction::Finish { outcome: Ok(()) });
}

#[test]
fn test_init_but_failed_to_fetch() {
    let mut executor = Executor::new();
    executor.step(InitEvent::Begin);
    executor.step(InitEvent::DirExists { exists: true });
    executor.step(ok());
    let action = executor.step(failed("Failed to fetch"));
    assert_eq!(action, InitAction::Finish { outcome: Err("Failed to fetch".to_string()) });
    assert!(!executor.accepts(&ok()));
}

#[test]
fn test_init_but_failed_to_download() {
    let mut executor = Executor::new();
    executor.step(InitEvent::Begin);
    executor.step(InitEvent::DirExists { exists: true });
    executor.step(ok());
    assert_eq!(executor.step(ok()), InitAction::DownloadRelease);
    let action = executor.step(failed("Failed to download release"));
    assert_eq!(
        action,
        InitAction::Finish { outcome: Err("Failed to download release".to_string()) }
    );
}

#[test]
fn test_init_but_failed_to_unzip() {
    let mut executor = Executor::new();
    executor.step(InitEvent::Begin);
    executor.step(InitEvent::DirExists { exists: true });
    executor.step(ok());
    executor.step(ok());
    assert_eq!(executor.step(ok()), InitAction::UnzipRelease);
    let action = executor.step(failed("Failed to unzip release"));
    assert_eq!(action, InitAction::Finish { outcome: Err("Failed to unzip release".to_string()) });
}

#[test]
fn folder_removal_failure_is_ignored() {
    let mut executor = Executor::new();
    executor.step(InitEvent::Begin);
    executor.step(InitEvent::DirExists { exists: true });
    assert_eq!(executor.step(failed("busy")), InitAction::FetchRelease);
}

#[test]
fn executor_accepts_only_awaited_events() {
    let executor = Executor::new();
    assert!(executor.accepts(&InitEvent::Begin));
    assert!(!executor.accepts(&ok()));
    assert!(!executor.accepts(&InitEvent::DirExists { exists: true }));
}
