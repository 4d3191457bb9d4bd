use applog::init::{Action, Event, InitError, LoggerInitializer, Phase};

fn expect_open(a: Action) -> (String, bool, bool, bool) {
    match a {
        Action::OpenLogFile { path, create, append, truncate } => (path, create, append, truncate),
        other => panic!("expected an open action, got {:?}", other),
    }
}

#[test]
fn test_success_path() {
    let mut l = LoggerInitializer::new();
    assert_eq!(l.step(Event::Begin), Action::ResolveConfigDir);
    let a = l.step(Event::DirResolved {
        outcome: Ok(Some(String::from("/tmp/app-config"))),
    });
    let (path, create, append, truncate) = expect_open(a);
    assert_eq!(path, "/tmp/app-config/app.log");
    assert!(create);
    assert!(append);
    assert!(!truncate);
    assert_eq!(l.step(Event::FileOpened { outcome: Ok(()) }), Action::InstallSink);
    assert_eq!(l.step(Event::SinkReady { outcome: Ok(()) }), Action::Finish(Ok(())));
    assert_eq!(l.phase, Phase::Complete);
}

#[test]
fn test_second_init_returns_already_initialized() {
    let mut l = LoggerInitializer::new();
    l.step(Event::Begin);
    l.step(Event::DirResolved { outcome: Ok(Some(String::from("/tmp/app-config"))) });
    l.step(Event::FileOpened { outcome: Ok(()) });
    l.step(Event::SinkReady { outcome: Ok(()) });
    // A second attempt is rejected outright: no resolver run, no reopening.
    let a = l.step(Event::Begin);
    assert_eq!(a, Action::Finish(Err(InitError::AlreadyInitialized)));
    assert_eq!(l.phase, Phase::Complete);
    let a = l.step(Event::Begin);
    assert_eq!(a, Action::Finish(Err(InitError::AlreadyInitialized)));
}

#[test]
fn test_unsupported_platform_creates_no_file() {
    let mut l = LoggerInitializer::new();
    assert_eq!(l.step(Event::Begin), Action::ResolveConfigDir);
    let a = l.step(Event::DirResolved { outcome: Ok(None) });
    assert_eq!(a, Action::Finish(Err(InitError::UnsupportedPlatform)));
    // The attempt is over without any request to open or create a file.
    assert_eq!(l.phase, Phase::Ready);
}

#[test]
fn test_config_dir_error_carries_cause() {
    let mut l = LoggerInitializer::new();
    l.step(Event::Begin);
    let a = l.step(Event::DirResolved { outcome: Err(String::from("permission denied")) });
    assert_eq!(
        a,
        Action::Finish(Err(InitError::ConfigDirError(String::from("permission denied"))))
    );
    assert_eq!(l.phase, Phase::Ready);
}

#[test]
fn test_open_failure_reports_path_and_cause() {
    let mut l = LoggerInitializer::new();
    l.step(Event::Begin);
    l.step(Event::DirResolved { outcome: Ok(Some(String::from("/etc"))) });
    let a = l.step(Event::FileOpened { outcome: Err(String::from("is a directory")) });
    assert_eq!(
        a,
        Action::Finish(Err(InitError::LogFileOpenError {
            path: String::from("/etc/app.log"),
            cause: String::from("is a directory"),
        }))
    );
    assert_eq!(l.phase, Phase::Ready);
}

#[test]
fn test_install_rejected_then_retry_possible() {
    let mut l = LoggerInitializer::new();
    l.step(Event::Begin);
    l.step(Event::DirResolved { outcome: Ok(Some(String::from("/tmp/app-config"))) });
    l.step(Event::FileOpened { outcome: Ok(()) });
    let a = l.step(Event::SinkReady { outcome: Err(String::from("logger already set")) });
    assert_eq!(
        a,
        Action::Finish(Err(InitError::InstallError(String::from("logger already set"))))
    );
    // The caller decides whether to retry; the machine allows a new attempt.
    assert_eq!(l.phase, Phase::Ready);
    assert_eq!(l.step(Event::Begin), Action::ResolveConfigDir);
}

#[test]
fn test_open_flags_never_truncate() {
    // Whatever directory comes back, the one open request asks for
    // create-if-absent and append, never truncation of existing content.
    for dir in ["/tmp/app-config", "/home/user/.config/app", "/"] {
        let mut l = LoggerInitializer::new();
        l.step(Event::Begin);
        let a = l.step(Event::DirResolved { outcome: Ok(Some(String::from(dir))) });
        let (_, create, append, truncate) = expect_open(a);
        assert!(create);
        assert!(append);
        assert!(!truncate);
    }
}
