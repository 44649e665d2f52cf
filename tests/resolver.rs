use relay_zed::resolver::{resolve, Action, Event, InstallStatus, ResolveError, ResolveState};
use relay_zed::{PACKAGE_NAME, SERVER_PATH};

fn server_path() -> String {
    SERVER_PATH.to_string()
}

/// Answers each action from the given host responses and returns every
/// action handed out, the final one last.
fn drive(
    path_to_relay: Option<String>,
    present: &[bool],
    latest: Result<String, String>,
    installed: Result<(), String>,
) -> Vec<Action> {
    let mut present = present.iter().copied();
    let mut latest = Some(latest);
    let mut installed = Some(installed);
    let (mut state, mut action) = resolve(path_to_relay);
    let mut actions = Vec::new();
    loop {
        let event = match &action {
            Action::Finish(_) => {
                actions.push(action);
                return actions;
            }
            Action::Warn(_) | Action::ReportStatus(_) => Event::Performed,
            Action::CheckServer => Event::ServerPresent(present.next().expect("unexpected check")),
            Action::FetchLatestVersion { .. } => {
                Event::LatestVersion(latest.take().expect("second lookup"))
            }
            Action::Install { .. } => Event::Installed(installed.take().expect("second install")),
        };
        actions.push(action);
        let (s, a) = state.step(event);
        state = s;
        action = a;
    }
}

fn is_host_query(a: &Action) -> bool {
    matches!(a, Action::CheckServer | Action::FetchLatestVersion { .. } | Action::Install { .. })
}

fn count<F: Fn(&Action) -> bool>(actions: &[Action], f: F) -> usize {
    actions.iter().filter(|a| f(a)).count()
}

#[test]
fn override_path_is_returned_without_host_queries() {
    let actions = drive(
        Some("/opt/relay/bin/relay-compiler".to_string()),
        &[],
        Ok("1.0.0".to_string()),
        Ok(()),
    );
    assert_eq!(actions.len(), 2);
    assert!(matches!(actions[0], Action::Warn(_)));
    assert_eq!(actions[1], Action::Finish(Ok("/opt/relay/bin/relay-compiler".to_string())));
    assert_eq!(count(&actions, is_host_query), 0);
}

#[test]
fn override_warning_is_not_empty() {
    let (state, action) = resolve(Some("relay".to_string()));
    assert_eq!(state, ResolveState::Warned("relay".to_string()));
    match action {
        Action::Warn(message) => assert!(message.contains("pathToRelay")),
        other => panic!("expected a warning, got {:?}", other),
    }
}

#[test]
fn present_server_is_used_without_registry_calls() {
    let actions = drive(None, &[true], Ok("1.0.0".to_string()), Ok(()));
    assert_eq!(actions, vec![Action::CheckServer, Action::Finish(Ok(server_path()))]);
}

#[test]
fn absent_server_is_installed_at_latest_version() {
    let actions = drive(None, &[false, true], Ok("18.2.0".to_string()), Ok(()));
    assert_eq!(
        actions,
        vec![
            Action::CheckServer,
            Action::ReportStatus(InstallStatus::CheckingForUpdate),
            Action::FetchLatestVersion { package: PACKAGE_NAME.to_string() },
            Action::ReportStatus(InstallStatus::Downloading),
            Action::Install { package: "relay-compiler".to_string(), version: "18.2.0".to_string() },
            Action::CheckServer,
            Action::Finish(Ok("node_modules/.bin/relay-compiler".to_string())),
        ]
    );
    assert_eq!(count(&actions, |a| matches!(a, Action::FetchLatestVersion { .. })), 1);
    assert_eq!(count(&actions, |a| matches!(a, Action::Install { .. })), 1);
}

#[test]
fn failed_install_with_script_present_succeeds() {
    let actions = drive(None, &[false, true], Ok("18.2.0".to_string()), Err("EACCES".to_string()));
    assert_eq!(actions.last(), Some(&Action::Finish(Ok(server_path()))));
}

#[test]
fn successful_install_without_script_fails_naming_path() {
    let actions = drive(None, &[false, false], Ok("18.2.0".to_string()), Ok(()));
    assert_eq!(actions.last(), Some(&Action::Finish(Err(ResolveError::MissingAfterInstall))));
    let message = ResolveError::MissingAfterInstall.message();
    assert_eq!(
        message,
        "installed package 'relay-compiler' did not contain expected path 'node_modules/.bin/relay-compiler'"
    );
    assert!(message.contains(SERVER_PATH));
}

#[test]
fn failed_install_without_script_reports_install_error() {
    let actions = drive(None, &[false, false], Ok("18.2.0".to_string()), Err("network down".to_string()));
    let last = actions.last().unwrap();
    assert_eq!(last, &Action::Finish(Err(ResolveError::InstallFailed("network down".to_string()))));
    match last {
        Action::Finish(Err(e)) => assert_eq!(e.message(), "network down"),
        _ => unreachable!(),
    }
}

#[test]
fn failed_lookup_is_fatal_and_installs_nothing() {
    let actions = drive(None, &[false], Err("registry unreachable".to_string()), Ok(()));
    assert_eq!(
        actions,
        vec![
            Action::CheckServer,
            Action::ReportStatus(InstallStatus::CheckingForUpdate),
            Action::FetchLatestVersion { package: "relay-compiler".to_string() },
            Action::Finish(Err(ResolveError::LookupFailed("registry unreachable".to_string()))),
        ]
    );
    assert_eq!(
        ResolveError::LookupFailed("registry unreachable".to_string()).message(),
        "registry unreachable"
    );
}

#[test]
fn event_out_of_turn_ends_resolution() {
    let (state, _) = resolve(None);
    let (state, action) = state.step(Event::Performed);
    assert_eq!(state, ResolveState::Finished);
    assert_eq!(action, Action::Finish(Err(ResolveError::UnexpectedEvent)));
    assert!(!ResolveError::UnexpectedEvent.message().is_empty());
    let (state, action) = state.step(Event::ServerPresent(true));
    assert_eq!(state, ResolveState::Finished);
    assert_eq!(action, Action::Finish(Err(ResolveError::UnexpectedEvent)));
}

#[test]
fn lookups_and_installs_stay_at_one_under_any_answers() {
    let answers = [
        Event::ServerPresent(false),
        Event::Performed,
        Event::LatestVersion(Ok("1.0.0".to_string())),
        Event::Performed,
        Event::Installed(Ok(())),
        Event::Performed,
        Event::LatestVersion(Ok("2.0.0".to_string())),
        Event::Installed(Ok(())),
        Event::ServerPresent(false),
    ];
    let (mut state, first) = resolve(None);
    let mut actions = vec![first];
    for event in answers {
        let (s, a) = state.step(event);
        state = s;
        actions.push(a);
    }
    assert_eq!(count(&actions, |a| matches!(a, Action::FetchLatestVersion { .. })), 1);
    assert_eq!(count(&actions, |a| matches!(a, Action::Install { .. })), 1);
}
