//! Tests that drive the guarded lifecycle with a simulated engine: each
//! test performs the steps a session instructs and feeds back the outcome a
//! real engine would give in the scenario under test.

use diesel_load_extension::loader::{
    begin_load_extension, begin_load_extensions, load_failure_message, load_result,
    toggle_result, BatchSession, EngineStep, StepOutcome,
};
use diesel_load_extension::{ExtensionRequest, LoadExtensionError};

fn requests(list: &[(&str, Option<&str>)]) -> Vec<ExtensionRequest> {
    list.iter()
        .map(|(path, entry)| {
            ExtensionRequest::new(path.to_string(), entry.map(|e| e.to_string()))
        })
        .collect()
}

/// Drives a session to completion against a simulated engine: toggle calls
/// always succeed, and the reply to the load of request `i` is
/// `load_replies[i]` (`None` for success, `Some(text)` for a failure with
/// that diagnostic text). Returns the run's result and the engine call
/// history.
fn run(
    mut session: BatchSession,
    load_replies: &[Option<&str>],
) -> (Result<(), LoadExtensionError>, Vec<EngineStep>) {
    let mut history = Vec::new();
    while !session.is_finished() {
        let step = session.next_step();
        history.push(step);
        let outcome = match step {
            EngineStep::Toggle(_) => StepOutcome::Succeeded,
            EngineStep::Load(i) => match load_replies[i] {
                None => StepOutcome::Succeeded,
                Some(text) => StepOutcome::Failed(text.to_string()),
            },
        };
        session = session.apply(outcome);
    }
    (session.finish(), history)
}

#[test]
fn test_load_nonexistent_extension() {
    let session = begin_load_extension("/nonexistent/path/to/extension.so".to_string(), None)
        .expect("a valid path must yield a session");
    let (result, _) = run(session, &[Some("unable to open shared library")]);
    assert!(result.is_err());
    assert!(
        matches!(result.unwrap_err(), LoadExtensionError::LoadFailed(_)),
        "Expected LoadFailed error"
    );
}

#[test]
fn test_load_extension_disables_after_failure() {
    let mut session = begin_load_extension("/nonexistent/extension.so".to_string(), None)
        .expect("a valid path must yield a session");
    assert!(matches!(session.next_step(), EngineStep::Toggle(true)));
    session = session.apply(StepOutcome::Succeeded);
    assert!(matches!(session.next_step(), EngineStep::Load(0)));
    session = session.apply(StepOutcome::Failed("unable to open".to_string()));
    // The failure moves straight to the disable call.
    assert!(matches!(session.next_step(), EngineStep::Toggle(false)));
    session = session.apply(StepOutcome::Succeeded);
    assert!(session.is_finished());
    match session.finish() {
        Err(LoadExtensionError::LoadFailed(msg)) => {
            assert!(!msg.is_empty(), "Expected non-empty error message");
        }
        err => panic!("Expected LoadFailed, got: {err:?}"),
    }
}

#[test]
fn test_load_extension_with_entry_point() {
    let session = begin_load_extension(
        "/nonexistent/extension.so".to_string(),
        Some("my_init".to_string()),
    )
    .expect("a valid path and entry point must yield a session");
    let (result, _) = run(session, &[Some("unable to open shared library")]);
    assert!(result.is_err());
    assert!(matches!(
        result.unwrap_err(),
        LoadExtensionError::LoadFailed(_)
    ));
}

#[test]
fn test_invalid_path_null_byte() {
    let result = begin_load_extension("path\0with_null".to_string(), None);
    assert!(matches!(result, Err(LoadExtensionError::InvalidPath)));
}

#[test]
fn test_invalid_entry_point_null_byte() {
    let result = begin_load_extension(
        "some_extension".to_string(),
        Some("entry\0point".to_string()),
    );
    assert!(matches!(result, Err(LoadExtensionError::InvalidEntryPoint)));
}

#[test]
fn test_enable_load_extension_idempotent() {
    // The engine tolerates redundant toggles; the library judges each
    // reply on its own, so repeated identical toggles each succeed.
    toggle_result(StepOutcome::Succeeded).unwrap();
    toggle_result(StepOutcome::Succeeded).unwrap();
    toggle_result(StepOutcome::Succeeded).unwrap();
    toggle_result(StepOutcome::Succeeded).unwrap();
}

#[test]
fn test_load_extensions_empty_list() {
    let outcome = begin_load_extensions(requests(&[]))
        .expect("Loading empty extension list should succeed");
    assert!(outcome.is_none(), "an empty batch needs no engine call");
}

#[test]
fn test_load_extensions_nonexistent() {
    let session = begin_load_extensions(requests(&[
        ("/nonexistent/ext1.so", None),
        ("/nonexistent/ext2.so", None),
    ]))
    .expect("valid paths must yield a session")
    .expect("a non-empty batch needs a session");
    let (result, _) = run(session, &[Some("unable to open"), Some("unable to open")]);
    assert!(result.is_err());
    assert!(matches!(
        result.unwrap_err(),
        LoadExtensionError::LoadFailed(_)
    ));
}

#[test]
fn test_load_extensions_invalid_path() {
    let result = begin_load_extensions(requests(&[("valid_path", None), ("path\0null", None)]));
    assert!(matches!(result, Err(LoadExtensionError::InvalidPath)));
}

#[test]
fn test_load_extensions_disables_after_failure() {
    let mut session = begin_load_extensions(requests(&[("/nonexistent/ext.so", None)]))
        .expect("a valid path must yield a session")
        .expect("a non-empty batch needs a session");
    session = session.apply(StepOutcome::Succeeded);
    session = session.apply(StepOutcome::Failed("unable to open".to_string()));
    // The disable call is issued even though the load failed.
    assert!(matches!(session.next_step(), EngineStep::Toggle(false)));
    session = session.apply(StepOutcome::Succeeded);
    match session.finish() {
        Err(LoadExtensionError::LoadFailed(msg)) => {
            assert!(!msg.is_empty(), "Expected non-empty error message");
        }
        err => panic!("Expected LoadFailed, got: {err:?}"),
    }
}

#[test]
fn test_load_extension_auto_enables_and_disables() {
    let session = begin_load_extension("/nonexistent/extension.so".to_string(), None)
        .expect("a valid path must yield a session");
    let (result, history) = run(session, &[Some("unable to open shared library")]);
    match result {
        Err(LoadExtensionError::LoadFailed(msg)) => {
            assert!(!msg.is_empty(), "Expected non-empty error message");
        }
        err => panic!("Expected LoadFailed, got: {err:?}"),
    }
    // The run both enabled and disabled the toggle around the load.
    assert_eq!(
        history,
        vec![
            EngineStep::Toggle(true),
            EngineStep::Load(0),
            EngineStep::Toggle(false),
        ]
    );
}

#[test]
fn test_manual_enable_disable_workflow() {
    toggle_result(StepOutcome::Succeeded).expect("enable should succeed");
    toggle_result(StepOutcome::Succeeded).expect("disable should succeed");
}

#[test]
fn test_multiple_connections_are_independent() {
    // Two sessions, as two connections would hold: driving one to a load
    // failure leaves the other untouched and both end disabled.
    let first = begin_load_extension("/nonexistent/extension.so".to_string(), None)
        .expect("a valid path must yield a session");
    let second = begin_load_extension("/nonexistent/extension.so".to_string(), None)
        .expect("a valid path must yield a session");
    let (first_result, first_history) = run(first, &[Some("unable to open")]);
    match first_result {
        Err(LoadExtensionError::LoadFailed(msg)) => {
            assert!(!msg.is_empty(), "Expected non-empty error message");
        }
        err => panic!("Expected LoadFailed, got: {err:?}"),
    }
    let (second_result, second_history) = run(second, &[None]);
    assert!(second_result.is_ok());
    assert_eq!(*first_history.last().unwrap(), EngineStep::Toggle(false));
    assert_eq!(*second_history.last().unwrap(), EngineStep::Toggle(false));
}

#[test]
fn test_error_messages_are_meaningful() {
    let session = begin_load_extension("/nonexistent/extension.so".to_string(), None)
        .expect("a valid path must yield a session");
    let (result, _) = run(session, &[Some("unable to open shared library")]);
    let msg = result.unwrap_err().message();
    assert!(!msg.is_empty(), "Error message should not be empty");
    assert!(
        msg.contains("Failed to load extension"),
        "Error message should mention loading failure, got: {msg}"
    );
}

#[test]
fn test_empty_path() {
    // An empty path holds no null byte, so it passes validation and fails
    // only at the engine.
    let session = begin_load_extension(String::new(), None)
        .expect("an empty path is a valid input");
    let (result, _) = run(session, &[Some("unable to open shared library")]);
    assert!(result.is_err());
}

#[test]
fn test_invalid_inputs() {
    let result = begin_load_extension("path\0null".to_string(), None);
    assert!(matches!(result, Err(LoadExtensionError::InvalidPath)));

    let result =
        begin_load_extension("valid_path".to_string(), Some("entry\0null".to_string()));
    assert!(matches!(result, Err(LoadExtensionError::InvalidEntryPoint)));
}

#[test]
fn test_load_extensions_batch() {
    let session = begin_load_extensions(requests(&[
        ("/nonexistent/ext1.so", None),
        ("/nonexistent/ext2.so", Some("init")),
    ]))
    .expect("valid requests must yield a session")
    .expect("a non-empty batch needs a session");
    let (result, history) = run(session, &[Some("unable to open"), Some("unable to open")]);
    assert!(result.is_err());
    assert!(matches!(
        result.unwrap_err(),
        LoadExtensionError::LoadFailed(_)
    ));
    // The first failure stops the batch: the second load is never issued.
    assert_eq!(
        history,
        vec![
            EngineStep::Toggle(true),
            EngineStep::Load(0),
            EngineStep::Toggle(false),
        ]
    );
}

#[test]
fn test_load_extensions_validates_all_inputs_upfront() {
    let result =
        begin_load_extensions(requests(&[("valid_extension", None), ("path\0null", None)]));
    assert!(matches!(result, Err(LoadExtensionError::InvalidPath)));
}

#[test]
fn test_load_extensions_empty() {
    let outcome = begin_load_extensions(requests(&[]))
        .expect("Loading empty extension list should succeed");
    assert!(outcome.is_none());
}

#[test]
fn invalid_path_rejected_before_any_engine_call() {
    let result = begin_load_extension("bad\0path".to_string(), None);
    assert!(matches!(result, Err(LoadExtensionError::InvalidPath)));
}

#[test]
fn invalid_later_element_blocks_whole_batch() {
    let result = begin_load_extensions(requests(&[("ok_path", None), ("bad\0path", None)]));
    assert!(matches!(result, Err(LoadExtensionError::InvalidPath)));
}

#[test]
fn first_failure_decides_batch_error() {
    let session = begin_load_extensions(requests(&[
        ("/bad1.so", None),
        ("/bad2.so", Some("init")),
    ]))
    .expect("valid requests must yield a session")
    .expect("a non-empty batch needs a session");
    let (result, history) = run(session, &[Some("first failed"), Some("second failed")]);
    match result {
        Err(LoadExtensionError::LoadFailed(msg)) => {
            assert_eq!(msg, "first failed");
        }
        err => panic!("Expected LoadFailed, got: {err:?}"),
    }
    assert_eq!(*history.last().unwrap(), EngineStep::Toggle(false));
}

#[test]
fn successful_batch_loads_all_in_order() {
    let session = begin_load_extensions(requests(&[
        ("/a.so", None),
        ("/b.so", Some("init_b")),
        ("/c.so", None),
    ]))
    .expect("valid requests must yield a session")
    .expect("a non-empty batch needs a session");
    let (result, history) = run(session, &[None, None, None]);
    assert!(result.is_ok());
    assert_eq!(
        history,
        vec![
            EngineStep::Toggle(true),
            EngineStep::Load(0),
            EngineStep::Load(1),
            EngineStep::Load(2),
            EngineStep::Toggle(false),
        ]
    );
}

#[test]
fn enable_failure_returned_immediately() {
    let mut session = begin_load_extension("/a.so".to_string(), None)
        .expect("a valid path must yield a session");
    assert!(matches!(session.next_step(), EngineStep::Toggle(true)));
    session = session.apply(StepOutcome::Failed("not authorized".to_string()));
    // A refused enable finishes the run at once: the toggle was never
    // engaged, so no disable call follows.
    assert!(session.is_finished());
    match session.finish() {
        Err(LoadExtensionError::EnableFailed(msg)) => {
            assert_eq!(msg, "not authorized");
        }
        err => panic!("Expected EnableFailed, got: {err:?}"),
    }
}

#[test]
fn disable_failure_reported_when_loads_succeed() {
    let mut session = begin_load_extension("/a.so".to_string(), None)
        .expect("a valid path must yield a session");
    session = session.apply(StepOutcome::Succeeded);
    session = session.apply(StepOutcome::Succeeded);
    assert!(matches!(session.next_step(), EngineStep::Toggle(false)));
    session = session.apply(StepOutcome::Failed("not authorized".to_string()));
    match session.finish() {
        Err(LoadExtensionError::EnableFailed(msg)) => {
            assert_eq!(msg, "not authorized");
        }
        err => panic!("Expected EnableFailed, got: {err:?}"),
    }
}

#[test]
fn load_failure_wins_over_disable_failure() {
    let mut session = begin_load_extension("/a.so".to_string(), None)
        .expect("a valid path must yield a session");
    session = session.apply(StepOutcome::Succeeded);
    session = session.apply(StepOutcome::Failed("unable to open".to_string()));
    // The disable call also fails; the load failure still wins.
    session = session.apply(StepOutcome::Failed("not authorized".to_string()));
    match session.finish() {
        Err(LoadExtensionError::LoadFailed(msg)) => {
            assert_eq!(msg, "unable to open");
        }
        err => panic!("Expected LoadFailed, got: {err:?}"),
    }
}

#[test]
fn toggle_result_maps_each_reply() {
    assert!(toggle_result(StepOutcome::Succeeded).is_ok());
    match toggle_result(StepOutcome::Failed("not authorized".to_string())) {
        Err(LoadExtensionError::EnableFailed(msg)) => assert_eq!(msg, "not authorized"),
        r => panic!("Expected EnableFailed, got: {r:?}"),
    }
}

#[test]
fn load_result_maps_each_reply() {
    assert!(load_result(StepOutcome::Succeeded).is_ok());
    match load_result(StepOutcome::Failed("unable to open".to_string())) {
        Err(LoadExtensionError::LoadFailed(msg)) => assert_eq!(msg, "unable to open"),
        r => panic!("Expected LoadFailed, got: {r:?}"),
    }
}

#[test]
fn load_failure_message_prefers_engine_message() {
    assert_eq!(
        load_failure_message(Some("from out-parameter".to_string()), "last error".to_string()),
        "from out-parameter"
    );
    assert_eq!(
        load_failure_message(None, "last error".to_string()),
        "last error"
    );
}
