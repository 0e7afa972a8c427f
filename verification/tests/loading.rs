use flowfabric::error::ServerError;
use flowfabric::library::{assemble, extract_version, is_fit_version, sources};
use flowfabric::loader::{
    after_check, after_load, after_report, after_verify, after_wait, ensure_library, force_reload,
    is_permanent_load_error, LoadError, LoadStep,
};
use flowfabric::retry::ErrorKind;

fn server_err(kind: ErrorKind, theirs: ferriskey::ErrorKind, detail: &str) -> ServerError {
    let e = ferriskey::Error::from((theirs, "server error", detail.to_string()));
    ServerError { kind, text: e.to_string() }
}

#[test]
fn readonly_is_not_permanent() {
    let e = server_err(
        ErrorKind::ReadOnly,
        ferriskey::ErrorKind::ReadOnly,
        "You can't write against a read only replica.",
    );
    assert!(!is_permanent_load_error(&e), "READONLY must be transient; got permanent for {e:?}");
}

#[test]
fn moved_is_not_permanent() {
    let e = server_err(ErrorKind::Moved, ferriskey::ErrorKind::Moved, "3999 127.0.0.1:7002");
    assert!(!is_permanent_load_error(&e), "MOVED must be transient; got {e:?}");
}

#[test]
fn tryagain_is_not_permanent() {
    let e =
        server_err(ErrorKind::TryAgain, ferriskey::ErrorKind::TryAgain, "resharding in progress");
    assert!(!is_permanent_load_error(&e), "TRYAGAIN must be transient; got {e:?}");
}

#[test]
fn clusterdown_is_not_permanent() {
    let e =
        server_err(ErrorKind::ClusterDown, ferriskey::ErrorKind::ClusterDown, "The cluster is down");
    assert!(!is_permanent_load_error(&e), "CLUSTERDOWN must be transient; got {e:?}");
}

#[test]
fn lua_syntax_error_is_permanent() {
    let e = server_err(
        ErrorKind::ResponseError,
        ferriskey::ErrorKind::ResponseError,
        "Error compiling function: user_script:12: syntax error near 'end'",
    );
    assert!(
        is_permanent_load_error(&e),
        "Lua compilation failure must be permanent; got transient for {e:?}"
    );
}

fn passing() -> ServerError {
    ServerError { kind: ErrorKind::ReadOnly, text: "READONLY".to_owned() }
}

#[test]
fn a_loaded_library_is_left_alone() {
    assert!(matches!(ensure_library(false), LoadStep::Check));
    assert!(matches!(ensure_library(true), LoadStep::Load { attempt: 1 }));
    assert!(matches!(after_check(&Ok("4".to_owned()), "4"), LoadStep::Ready));
    assert!(matches!(after_check(&Ok("3".to_owned()), "4"), LoadStep::Load { attempt: 1 }));
    assert!(matches!(after_check(&Err(passing()), "4"), LoadStep::Load { attempt: 1 }));
}

#[test]
fn loads_are_tried_six_times() {
    let mut pauses = Vec::new();
    let mut attempt = 1;
    loop {
        match after_load(attempt, Err(passing())) {
            LoadStep::Wait { attempt: a, backoff_ms } => {
                pauses.push(backoff_ms);
                attempt = match after_wait(a) {
                    LoadStep::Load { attempt } => attempt,
                    other => panic!("{other:?}"),
                };
            }
            LoadStep::Failed(e) => {
                assert_eq!(e.valkey_kind(), Some(ErrorKind::ReadOnly));
                assert_eq!(e.text(), "valkey: READONLY");
                break;
            }
            other => panic!("{other:?}"),
        }
    }
    assert_eq!(attempt, 6);
    assert_eq!(pauses, vec![500, 1_000, 2_000, 4_000, 7_000]);
}

#[test]
fn a_fault_that_stays_is_final() {
    let e = ServerError { kind: ErrorKind::ResponseError, text: "ERR Error x".to_owned() };
    assert!(matches!(after_load(1, Err(e)), LoadStep::Failed(LoadError::Valkey(_))));
    assert!(matches!(after_load(1, Ok(())), LoadStep::Verify));
}

#[test]
fn the_version_is_checked_at_the_end() {
    assert!(matches!(after_verify(Ok("4".to_owned()), "4"), LoadStep::Ready));
    assert!(matches!(after_verify(Ok("3".to_owned()), "4"), LoadStep::Report));
    assert!(matches!(after_verify(Err(passing()), "4"), LoadStep::Failed(LoadError::Valkey(_))));
    match after_report(Ok("3".to_owned()), "4") {
        LoadStep::Failed(e) => {
            assert_eq!(e.text(), "version mismatch after load: expected 4, got 3");
            assert_eq!(e.valkey_kind(), None);
        }
        other => panic!("{other:?}"),
    }
    match after_report(Err(passing()), "4") {
        LoadStep::Failed(e) => {
            assert_eq!(e.text(), "version mismatch after load: expected 4, got ")
        }
        other => panic!("{other:?}"),
    }
}

#[test]
fn the_setting_is_trimmed_and_folded() {
    for v in ["1", " true ", "YES", "\tTrue\n"] {
        assert!(force_reload(Some(v)), "{v:?}");
    }
    for v in ["", "0", "on", "ye s"] {
        assert!(!force_reload(Some(v)), "{v:?}");
    }
    assert!(!force_reload(None));
}

#[test]
fn sources_are_joined_under_their_names() {
    assert_eq!(sources().len(), 11);
    assert_eq!(sources()[0], "helpers.lua");
    let parts = vec![
        ("a.lua".to_owned(), "x".to_owned()),
        ("b.lua".to_owned(), "y\n".to_owned()),
    ];
    assert_eq!(
        assemble(&parts),
        "#!lua name=flowfabric\n\n-- source: lua/a.lua\nx\n\n-- source: lua/b.lua\ny\n\n"
    );
}

#[test]
fn the_version_is_found_past_comments() {
    let source = "-- return 'X' is what the body says\n\n  -- return 'Y'\nlocal a = 1\r\n  return '12'\nreturn '13'\n";
    assert_eq!(extract_version(source).as_deref(), Some("12"));
    assert_eq!(extract_version("return 'open\nreturn 'ok'").as_deref(), Some("ok"));
    assert_eq!(extract_version("return ''").as_deref(), Some(""));
    assert_eq!(extract_version("nothing"), None);
    assert_eq!(extract_version(""), None);
    assert!(is_fit_version("12"));
    assert!(!is_fit_version(""));
    assert!(!is_fit_version("a\nb"));
    assert!(!is_fit_version(&"x".repeat(64)));
    assert!(is_fit_version(&"x".repeat(63)));
}
