//! Deciding which script the host should launch.
//!
//! Resolution prefers, in order, a path from the settings, a script already
//! installed under the working directory, and one freshly installed from
//! npm. Each host capability is an `Action` handed out by the resolver; the
//! host performs it and feeds back what came of it as an `Event`.
use vstd::prelude::*;
use vstd::string::*;
use crate::{PACKAGE_NAME, SERVER_PATH};

verus! {

/// Installation progress shown to the user while the server is fetched.
#[derive(Clone, Copy, Debug, PartialEq, Eq, Structural)]
pub enum InstallStatus {
    CheckingForUpdate,
    Downloading,
}

/// Why no script could be resolved.
#[derive(Clone, Debug, PartialEq, Eq)]
pub enum ResolveError {
    /// The registry lookup of the latest version failed with this message.
    LookupFailed(String),
    /// The install failed with this message and left no script behind.
    InstallFailed(String),
    /// The install reported success but left no script behind.
    MissingAfterInstall,
    /// An event came that does not answer the pending action.
    UnexpectedEvent,
}

/// A `ResolveError` with its messages as sequences of characters.
pub enum ResolveErrorView {
    LookupFailed(Seq<char>),
    InstallFailed(Seq<char>),
    MissingAfterInstall,
    UnexpectedEvent,
}

impl View for ResolveError {
    type V = ResolveErrorView;

    open spec fn view(&self) -> ResolveErrorView {
        match self {
            ResolveError::LookupFailed(m) => ResolveErrorView::LookupFailed(m@),
            ResolveError::InstallFailed(m) => ResolveErrorView::InstallFailed(m@),
            ResolveError::MissingAfterInstall => ResolveErrorView::MissingAfterInstall,
            ResolveError::UnexpectedEvent => ResolveErrorView::UnexpectedEvent,
        }
    }
}

/// The message of a missing script after a reported successful install.
pub open spec fn missing_message() -> Seq<char> {
    "installed package '"@ + PACKAGE_NAME@ + "' did not contain expected path '"@ + SERVER_PATH@
        + "'"@
}

/// The message shown for an event out of turn.
pub open spec fn unexpected_message() -> Seq<char> {
    "unexpected event while resolving the language server"@
}

/// The message that the host shows for an error: the host's own message,
/// verbatim, where the error came from the host.
pub open spec fn error_message(e: ResolveErrorView) -> Seq<char> {
    match e {
        ResolveErrorView::LookupFailed(m) => m,
        ResolveErrorView::InstallFailed(m) => m,
        ResolveErrorView::MissingAfterInstall => missing_message(),
        ResolveErrorView::UnexpectedEvent => unexpected_message(),
    }
}

impl ResolveError {
    pub fn message(&self) -> (r: String)
        ensures
            r@ == error_message(self@),
    {
        match self {
            ResolveError::LookupFailed(m) => m.clone(),
            ResolveError::InstallFailed(m) => m.clone(),
            ResolveError::MissingAfterInstall => {
                let mut r = String::from_str("installed package '");
                r.append(PACKAGE_NAME);
                r.append("' did not contain expected path '");
                r.append(SERVER_PATH);
                r.append("'");
                r
            },
            ResolveError::UnexpectedEvent => String::from_str(
                "unexpected event while resolving the language server",
            ),
        }
    }
}

/// What the resolver asks the host to do next.
#[derive(Debug, PartialEq, Eq)]
pub enum Action {
    /// Tell the user this; answered by `Event::Performed`.
    Warn(String),
    /// Report installation progress; answered by `Event::Performed`.
    ReportStatus(InstallStatus),
    /// Check whether `SERVER_PATH` is a regular file under the working
    /// directory; answered by `Event::ServerPresent`.
    CheckServer,
    /// Look up the latest published version of the package; answered by
    /// `Event::LatestVersion`.
    FetchLatestVersion { package: String },
    /// Install the package at this version; answered by `Event::Installed`.
    Install { package: String, version: String },
    /// Resolution is over: launch this script, or report this error.
    Finish(Result<String, ResolveError>),
}

/// An `Action` with its strings as sequences of characters.
pub enum ActionView {
    Warn(Seq<char>),
    ReportStatus(InstallStatus),
    CheckServer,
    FetchLatestVersion { package: Seq<char> },
    Install { package: Seq<char>, version: Seq<char> },
    Finish(Result<Seq<char>, ResolveErrorView>),
}

impl View for Action {
    type V = ActionView;

    open spec fn view(&self) -> ActionView {
        match self {
            Action::Warn(m) => ActionView::Warn(m@),
            Action::ReportStatus(s) => ActionView::ReportStatus(*s),
            Action::CheckServer => ActionView::CheckServer,
            Action::FetchLatestVersion { package } => ActionView::FetchLatestVersion {
                package: package@,
            },
            Action::Install { package, version } => ActionView::Install {
                package: package@,
                version: version@,
            },
            Action::Finish(Ok(p)) => ActionView::Finish(Ok(p@)),
            Action::Finish(Err(e)) => ActionView::Finish(Err(e@)),
        }
    }
}

/// What came of the last action.
#[derive(Debug, PartialEq, Eq)]
pub enum Event {
    /// A warning or a status report was delivered.
    Performed,
    /// Whether `SERVER_PATH` is a regular file.
    ServerPresent(bool),
    /// The latest version, or the registry's error.
    LatestVersion(Result<String, String>),
    /// The install's own report: success, or its error.
    Installed(Result<(), String>),
}

/// An `Event` with its strings as sequences of characters.
pub enum EventView {
    Performed,
    ServerPresent(bool),
    LatestVersion(Result<Seq<char>, Seq<char>>),
    Installed(Result<(), Seq<char>>),
}

impl View for Event {
    type V = EventView;

    open spec fn view(&self) -> EventView {
        match self {
            Event::Performed => EventView::Performed,
            Event::ServerPresent(b) => EventView::ServerPresent(*b),
            Event::LatestVersion(Ok(v)) => EventView::LatestVersion(Ok(v@)),
            Event::LatestVersion(Err(m)) => EventView::LatestVersion(Err(m@)),
            Event::Installed(Ok(())) => EventView::Installed(Ok(())),
            Event::Installed(Err(m)) => EventView::Installed(Err(m@)),
        }
    }
}

/// Where resolution stands: each state but `Finished` waits for the answer
/// to one action.
#[derive(Debug, PartialEq, Eq)]
pub enum ResolveState {
    /// The override path was warned about.
    Warned(String),
    /// The installed script is being looked for.
    Checking,
    /// "Checking for update" is being reported.
    ReportedChecking,
    /// The latest version is being looked up.
    Fetching,
    /// "Downloading" is being reported before installing this version.
    ReportedDownloading(String),
    /// The package is being installed.
    Installing,
    /// The script is looked for again after an install that reported this.
    Rechecking(Result<(), String>),
    Finished,
}

/// A `ResolveState` with its strings as sequences of characters.
pub enum ResolveStateView {
    Warned(Seq<char>),
    Checking,
    ReportedChecking,
    Fetching,
    ReportedDownloading(Seq<char>),
    Installing,
    Rechecking(Result<(), Seq<char>>),
    Finished,
}

impl View for ResolveState {
    type V = ResolveStateView;

    open spec fn view(&self) -> ResolveStateView {
        match self {
            ResolveState::Warned(p) => ResolveStateView::Warned(p@),
            ResolveState::Checking => ResolveStateView::Checking,
            ResolveState::ReportedChecking => ResolveStateView::ReportedChecking,
            ResolveState::Fetching => ResolveStateView::Fetching,
            ResolveState::ReportedDownloading(v) => ResolveStateView::ReportedDownloading(v@),
            ResolveState::Installing => ResolveStateView::Installing,
            ResolveState::Rechecking(Ok(())) => ResolveStateView::Rechecking(Ok(())),
            ResolveState::Rechecking(Err(m)) => ResolveStateView::Rechecking(Err(m@)),
            ResolveState::Finished => ResolveStateView::Finished,
        }
    }
}

/// The warning given when the settings name the script to run.
pub open spec fn override_warning() -> Seq<char> {
    "Using the language server at the configured 'pathToRelay': its version cannot be checked against this extension."@
}

/// The first state and action: an override is warned about and then used
/// unchecked; otherwise the installed script is looked for.
pub open spec fn start(path_to_relay: Option<Seq<char>>) -> (ResolveStateView, ActionView) {
    match path_to_relay {
        Some(p) => (ResolveStateView::Warned(p), ActionView::Warn(override_warning())),
        None => (ResolveStateView::Checking, ActionView::CheckServer),
    }
}

/// Ends resolution with `r`.
pub open spec fn finish(r: Result<Seq<char>, ResolveErrorView>) -> (ResolveStateView, ActionView) {
    (ResolveStateView::Finished, ActionView::Finish(r))
}

/// The state and action that follow `event` in state `s`. A present script
/// is used without any registry call; an absent one is always installed at
/// the latest version. After the install the script decides: present, it is
/// used whatever the install reported; absent, the install's error, or the
/// missing path, ends resolution.
pub open spec fn next(s: ResolveStateView, event: EventView) -> (ResolveStateView, ActionView) {
    let out_of_turn = finish(Err(ResolveErrorView::UnexpectedEvent));
    match s {
        ResolveStateView::Warned(p) => match event {
            EventView::Performed => finish(Ok(p)),
            _ => out_of_turn,
        },
        ResolveStateView::Checking => match event {
            EventView::ServerPresent(true) => finish(Ok(SERVER_PATH@)),
            EventView::ServerPresent(false) => (
                ResolveStateView::ReportedChecking,
                ActionView::ReportStatus(InstallStatus::CheckingForUpdate),
            ),
            _ => out_of_turn,
        },
        ResolveStateView::ReportedChecking => match event {
            EventView::Performed => (
                ResolveStateView::Fetching,
                ActionView::FetchLatestVersion { package: PACKAGE_NAME@ },
            ),
            _ => out_of_turn,
        },
        ResolveStateView::Fetching => match event {
            EventView::LatestVersion(Ok(v)) => (
                ResolveStateView::ReportedDownloading(v),
                ActionView::ReportStatus(InstallStatus::Downloading),
            ),
            EventView::LatestVersion(Err(m)) => finish(Err(ResolveErrorView::LookupFailed(m))),
            _ => out_of_turn,
        },
        ResolveStateView::ReportedDownloading(v) => match event {
            EventView::Performed => (
                ResolveStateView::Installing,
                ActionView::Install { package: PACKAGE_NAME@, version: v },
            ),
            _ => out_of_turn,
        },
        ResolveStateView::Installing => match event {
            EventView::Installed(r) => (ResolveStateView::Rechecking(r), ActionView::CheckServer),
            _ => out_of_turn,
        },
        ResolveStateView::Rechecking(r) => match event {
            EventView::ServerPresent(true) => finish(Ok(SERVER_PATH@)),
            EventView::ServerPresent(false) => match r {
                Ok(()) => finish(Err(ResolveErrorView::MissingAfterInstall)),
                Err(m) => finish(Err(ResolveErrorView::InstallFailed(m))),
            },
            _ => out_of_turn,
        },
        ResolveStateView::Finished => out_of_turn,
    }
}

fn out_of_turn() -> (r: (ResolveState, Action))
    ensures
        (r.0@, r.1@) == finish(Err(ResolveErrorView::UnexpectedEvent)),
{
    (ResolveState::Finished, Action::Finish(Err(ResolveError::UnexpectedEvent)))
}

/// Starts resolving: `path_to_relay` is the override from the settings.
pub fn resolve(path_to_relay: Option<String>) -> (r: (ResolveState, Action))
    ensures
        (r.0@, r.1@) == start(path_to_relay.deep_view()),
{
    match path_to_relay {
        Some(p) => {
            let warning = String::from_str(
                "Using the language server at the configured 'pathToRelay': its version cannot be checked against this extension.",
            );
            (ResolveState::Warned(p), Action::Warn(warning))
        },
        None => (ResolveState::Checking, Action::CheckServer),
    }
}

impl ResolveState {
    /// Takes what came of the pending action and gives the next one.
    pub fn step(self, event: Event) -> (r: (ResolveState, Action))
        ensures
            (r.0@, r.1@) == next(self@, event@),
    {
        match self {
            ResolveState::Warned(p) => match event {
                Event::Performed => (ResolveState::Finished, Action::Finish(Ok(p))),
                _ => out_of_turn(),
            },
            ResolveState::Checking => match event {
                Event::ServerPresent(true) => (
                    ResolveState::Finished,
                    Action::Finish(Ok(String::from_str(SERVER_PATH))),
                ),
                Event::ServerPresent(false) => (
                    ResolveState::ReportedChecking,
                    Action::ReportStatus(InstallStatus::CheckingForUpdate),
                ),
                _ => out_of_turn(),
            },
            ResolveState::ReportedChecking => match event {
                Event::Performed => (
                    ResolveState::Fetching,
                    Action::FetchLatestVersion { package: String::from_str(PACKAGE_NAME) },
                ),
                _ => out_of_turn(),
            },
            ResolveState::Fetching => match event {
                Event::LatestVersion(Ok(v)) => (
                    ResolveState::ReportedDownloading(v),
                    Action::ReportStatus(InstallStatus::Downloading),
                ),
                Event::LatestVersion(Err(m)) => (
                    ResolveState::Finished,
                    Action::Finish(Err(ResolveError::LookupFailed(m))),
                ),
                _ => out_of_turn(),
            },
            ResolveState::ReportedDownloading(v) => match event {
                Event::Performed => (
                    ResolveState::Installing,
                    Action::Install { package: String::from_str(PACKAGE_NAME), version: v },
                ),
                _ => out_of_turn(),
            },
            ResolveState::Installing => match event {
                Event::Installed(r) => (ResolveState::Rechecking(r), Action::CheckServer),
                _ => out_of_turn(),
            },
            ResolveState::Rechecking(r) => match event {
                Event::ServerPresent(true) => (
                    ResolveState::Finished,
                    Action::Finish(Ok(String::from_str(SERVER_PATH))),
                ),
                Event::ServerPresent(false) => match r {
                    Ok(()) => (
                        ResolveState::Finished,
                        Action::Finish(Err(ResolveError::MissingAfterInstall)),
                    ),
                    Err(m) => (
                        ResolveState::Finished,
                        Action::Finish(Err(ResolveError::InstallFailed(m))),
                    ),
                },
                _ => out_of_turn(),
            },
            ResolveState::Finished => out_of_turn(),
        }
    }
}

} // verus!
