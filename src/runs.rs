//! Whole resolutions: what a resolver hands out over a sequence of events,
//! and the laws that hold of it.
use vstd::prelude::*;
use crate::resolver::{error_message, missing_message, next, override_warning, start, ActionView, EventView, InstallStatus, ResolveErrorView, ResolveStateView};

use crate::{PACKAGE_NAME, SERVER_PATH};

verus! {

/// The state reached, and the actions handed out, when `events` answer one
/// by one the actions of a resolver in state `s`.
pub open spec fn run(s: ResolveStateView, events: Seq<EventView>) -> (
    ResolveStateView,
    Seq<ActionView>,
)
    decreases events.len(),
{
    if events.len() == 0 {
        (s, seq![])
    } else {
        let (s1, a) = next(s, events[0]);
        let (s2, rest) = run(s1, events.drop_first());
        (s2, seq![a] + rest)
    }
}

/// An action that reads the file system or calls the registry.
pub open spec fn is_host_query(a: ActionView) -> bool {
    a is CheckServer || a is FetchLatestVersion || a is Install
}

/// An action that calls the registry.
pub open spec fn is_registry_call(a: ActionView) -> bool {
    a is FetchLatestVersion || a is Install
}

/// How many of `actions` look up the latest version.
pub open spec fn count_lookups(actions: Seq<ActionView>) -> nat
    decreases actions.len(),
{
    if actions.len() == 0 {
        0
    } else {
        (if actions[0] is FetchLatestVersion { 1nat } else { 0nat }) + count_lookups(
            actions.drop_first(),
        )
    }
}

/// How many of `actions` install the package.
pub open spec fn count_installs(actions: Seq<ActionView>) -> nat
    decreases actions.len(),
{
    if actions.len() == 0 {
        0
    } else {
        (if actions[0] is Install { 1nat } else { 0nat }) + count_installs(actions.drop_first())
    }
}

/// The lookups that a resolver in state `s` may still make.
pub open spec fn lookups_left(s: ResolveStateView) -> nat {
    match s {
        ResolveStateView::Checking | ResolveStateView::ReportedChecking => 1,
        _ => 0,
    }
}

/// The installs that a resolver in state `s` may still make.
pub open spec fn installs_left(s: ResolveStateView) -> nat {
    match s {
        ResolveStateView::Checking
        | ResolveStateView::ReportedChecking
        | ResolveStateView::Fetching
        | ResolveStateView::ReportedDownloading(_) => 1,
        _ => 0,
    }
}

/// The events of a resolution that finds no script, installs `version`,
/// hears `installed` from the install and then finds the script present or
/// not.
pub open spec fn install_events(
    version: Seq<char>,
    installed: Result<(), Seq<char>>,
    present_after: bool,
) -> Seq<EventView> {
    seq![
        EventView::ServerPresent(false),
        EventView::Performed,
        EventView::LatestVersion(Ok(version)),
        EventView::Performed,
        EventView::Installed(installed),
        EventView::ServerPresent(present_after),
    ]
}

/// How an install ends: a script that is there is used; otherwise the
/// install's own error, or the missing path where it reported success.
pub open spec fn install_outcome(installed: Result<(), Seq<char>>, present_after: bool) -> Result<
    Seq<char>,
    ResolveErrorView,
> {
    if present_after {
        Ok(SERVER_PATH@)
    } else {
        match installed {
            Ok(()) => Err(ResolveErrorView::MissingAfterInstall),
            Err(m) => Err(ResolveErrorView::InstallFailed(m)),
        }
    }
}

proof fn lemma_run_unfold(s: ResolveStateView, events: Seq<EventView>)
    requires
        events.len() > 0,
    ensures
        run(s, events).0 == run(next(s, events[0]).0, events.drop_first()).0,
        run(s, events).1 == seq![next(s, events[0]).1] + run(
            next(s, events[0]).0,
            events.drop_first(),
        ).1,
{
}

/// Once finished, a resolver stays finished and answers every event with
/// an error, asking the host for nothing.
pub proof fn lemma_finished_stays_quiet(events: Seq<EventView>)
    ensures
        run(ResolveStateView::Finished, events).0 == ResolveStateView::Finished,
        forall|i: int|
            0 <= i < run(ResolveStateView::Finished, events).1.len() ==> !is_host_query(
                #[trigger] run(ResolveStateView::Finished, events).1[i],
            ),
    decreases events.len(),
{
    if events.len() > 0 {
        lemma_finished_stays_quiet(events.drop_first());
    }
}

/// A path from the settings is used as it is: once its warning is given the
/// resolver finishes with that path, and whatever the host answers, it never
/// reads the file system or calls the registry.
pub proof fn lemma_override_is_used_unchecked(p: Seq<char>, events: Seq<EventView>)
    ensures
        start(Some(p)) == (ResolveStateView::Warned(p), ActionView::Warn(override_warning())),
        run(ResolveStateView::Warned(p), seq![EventView::Performed]) == (
            ResolveStateView::Finished,
            seq![ActionView::Finish(Ok(p))],
        ),
        forall|i: int|
            0 <= i < run(ResolveStateView::Warned(p), events).1.len() ==> !is_host_query(
                #[trigger] run(ResolveStateView::Warned(p), events).1[i],
            ),
{
    let one = seq![EventView::Performed];
    lemma_run_unfold(ResolveStateView::Warned(p), one);
    assert(run(ResolveStateView::Finished, one.drop_first()).1 =~= seq![]);
    assert(run(ResolveStateView::Warned(p), one).1 =~= seq![ActionView::Finish(Ok(p))]);
    if events.len() > 0 {
        lemma_run_unfold(ResolveStateView::Warned(p), events);
        lemma_finished_stays_quiet(events.drop_first());
        let acts = run(ResolveStateView::Warned(p), events).1;
        assert forall|i: int| 0 <= i < acts.len() implies !is_host_query(#[trigger] acts[i]) by {
            if i > 0 {
                assert(acts[i] == run(ResolveStateView::Finished, events.drop_first()).1[i - 1]);
            }
        }
    }
}

/// A script that is already installed is used at once: the resolver
/// finishes with `SERVER_PATH` after the one check, and whatever the host
/// answers after that, it never calls the registry.
pub proof fn lemma_present_server_is_used(events: Seq<EventView>)
    ensures
        start(None) == (ResolveStateView::Checking, ActionView::CheckServer),
        run(ResolveStateView::Checking, seq![EventView::ServerPresent(true)] + events).1[0]
            == ActionView::Finish(Ok(SERVER_PATH@)),
        forall|i: int|
            0 <= i < run(
                ResolveStateView::Checking,
                seq![EventView::ServerPresent(true)] + events,
            ).1.len() ==> !is_registry_call(
                #[trigger] run(
                    ResolveStateView::Checking,
                    seq![EventView::ServerPresent(true)] + events,
                ).1[i],
            ),
{
    let all = seq![EventView::ServerPresent(true)] + events;
    assert(all.drop_first() =~= events);
    lemma_run_unfold(ResolveStateView::Checking, all);
    lemma_finished_stays_quiet(events);
    let acts = run(ResolveStateView::Checking, all).1;
    assert forall|i: int| 0 <= i < acts.len() implies !is_registry_call(#[trigger] acts[i]) by {
        if i > 0 {
            assert(acts[i] == run(ResolveStateView::Finished, events).1[i - 1]);
        }
    }
}

proof fn lemma_counts_bounded(s: ResolveStateView, events: Seq<EventView>)
    ensures
        count_lookups(run(s, events).1) <= lookups_left(s),
        count_installs(run(s, events).1) <= installs_left(s),
    decreases events.len(),
{
    if events.len() > 0 {
        let (s1, a) = next(s, events[0]);
        lemma_run_unfold(s, events);
        lemma_counts_bounded(s1, events.drop_first());
        let rest = run(s1, events.drop_first()).1;
        assert((seq![a] + rest).drop_first() =~= rest);
    }
}

/// Whatever the host answers, a resolution without an override looks up
/// the latest version at most once and installs at most once.
pub proof fn lemma_at_most_one_lookup_and_install(events: Seq<EventView>)
    ensures
        count_lookups(run(start(None).0, events).1) <= 1,
        count_installs(run(start(None).0, events).1) <= 1,
{
    lemma_counts_bounded(start(None).0, events);
}

/// A resolution that finds no script looks up the latest version once,
/// installs that version once and checks for the script again; the check
/// then decides the outcome.
pub proof fn lemma_absent_server_is_installed(
    version: Seq<char>,
    installed: Result<(), Seq<char>>,
    present_after: bool,
)
    ensures
        run(ResolveStateView::Checking, install_events(version, installed, present_after)) == (
            ResolveStateView::Finished,
            seq![
                ActionView::ReportStatus(InstallStatus::CheckingForUpdate),
                ActionView::FetchLatestVersion { package: PACKAGE_NAME@ },
                ActionView::ReportStatus(InstallStatus::Downloading),
                ActionView::Install { package: PACKAGE_NAME@, version },
                ActionView::CheckServer,
                ActionView::Finish(install_outcome(installed, present_after)),
            ],
        ),
        count_lookups(
            run(ResolveStateView::Checking, install_events(version, installed, present_after)).1,
        ) == 1,
        count_installs(
            run(ResolveStateView::Checking, install_events(version, installed, present_after)).1,
        ) == 1,
{
    let evs = install_events(version, installed, present_after);
    reveal_with_fuel(run, 7);
    reveal_with_fuel(count_lookups, 7);
    reveal_with_fuel(count_installs, 7);
    let acts = seq![
        ActionView::ReportStatus(InstallStatus::CheckingForUpdate),
        ActionView::FetchLatestVersion { package: PACKAGE_NAME@ },
        ActionView::ReportStatus(InstallStatus::Downloading),
        ActionView::Install { package: PACKAGE_NAME@, version },
        ActionView::CheckServer,
        ActionView::Finish(install_outcome(installed, present_after)),
    ];
    assert(evs.drop_first().drop_first().drop_first().drop_first().drop_first().drop_first()
        =~= seq![]);
    assert(run(ResolveStateView::Checking, evs).1 =~= acts);
    assert(acts.drop_first().drop_first().drop_first().drop_first().drop_first().drop_first()
        =~= seq![]);
}

/// A failed lookup of the latest version ends resolution with the
/// registry's error, after that one lookup and with no install.
pub proof fn lemma_lookup_failure_is_fatal(m: Seq<char>)
    ensures
        run(
            ResolveStateView::Checking,
            seq![
                EventView::ServerPresent(false),
                EventView::Performed,
                EventView::LatestVersion(Err(m)),
            ],
        ) == (
            ResolveStateView::Finished,
            seq![
                ActionView::ReportStatus(InstallStatus::CheckingForUpdate),
                ActionView::FetchLatestVersion { package: PACKAGE_NAME@ },
                ActionView::Finish(Err(ResolveErrorView::LookupFailed(m))),
            ],
        ),
{
    let evs = seq![
        EventView::ServerPresent(false),
        EventView::Performed,
        EventView::LatestVersion(Err(m)),
    ];
    reveal_with_fuel(run, 4);
    assert(evs.drop_first().drop_first().drop_first() =~= seq![]);
    assert(run(ResolveStateView::Checking, evs).1 =~= seq![
        ActionView::ReportStatus(InstallStatus::CheckingForUpdate),
        ActionView::FetchLatestVersion { package: PACKAGE_NAME@ },
        ActionView::Finish(Err(ResolveErrorView::LookupFailed(m))),
    ]);
}

/// A script found after the install is used, whatever the install
/// reported.
pub proof fn lemma_present_after_install_is_used(
    version: Seq<char>,
    installed: Result<(), Seq<char>>,
)
    ensures
        run(ResolveStateView::Checking, install_events(version, installed, true)).1.last()
            == ActionView::Finish(Ok(SERVER_PATH@)),
{
    lemma_absent_server_is_installed(version, installed, true);
}

/// An install that reports success but leaves no script ends resolution
/// with an error whose message names `SERVER_PATH`.
pub proof fn lemma_missing_after_install_fails(version: Seq<char>)
    ensures
        run(ResolveStateView::Checking, install_events(version, Ok(()), false)).1.last()
            == ActionView::Finish(Err(ResolveErrorView::MissingAfterInstall)),
        exists|k: int|
            0 <= k && k + SERVER_PATH@.len() <= error_message(
                ResolveErrorView::MissingAfterInstall,
            ).len() && #[trigger] error_message(ResolveErrorView::MissingAfterInstall).subrange(
                k,
                k + SERVER_PATH@.len(),
            ) == SERVER_PATH@,
{
    lemma_absent_server_is_installed(version, Ok(()), false);
    let head = "installed package '"@ + PACKAGE_NAME@ + "' did not contain expected path '"@;
    let k = head.len() as int;
    assert(missing_message() == head + SERVER_PATH@ + "'"@);
    assert(missing_message().subrange(k, k + SERVER_PATH@.len()) =~= SERVER_PATH@);
    assert(error_message(ResolveErrorView::MissingAfterInstall).subrange(
        k,
        k + SERVER_PATH@.len(),
    ) == SERVER_PATH@);
}

} // verus!
