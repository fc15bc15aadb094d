//! What the RPC calls of the front-end do to the runtime, and what they answer.
//! Calls that wait on outside work are split into the step before that work and the
//! step after it.

use vstd::prelude::*;
use crate::control::{
    recover_step, ControlRuntime, DownloadStatus, RunningStatus, RuntimeView,
    download_status_text, running_status_text,
};
use crate::helper::{get_file_path, local_file_path};
use crate::paths::joined;
use crate::settings::{
    subscriptions_dir, subscriptions_path, EnhancedMode, SettingsView, Subscription,
    SubscriptionView,
};

verus! {

/// Whether Clash runs; settings that claim it is enabled while it does not run are
/// corrected first.
pub fn get_clash_status(runtime: &mut ControlRuntime, clash_running: bool) -> (r: bool)
    ensures
        r == clash_running,
        final(runtime)@ == recover_step(old(runtime)@, clash_running).0,
{
    runtime.recover(clash_running);
    clash_running
}

/// What has to happen to Clash for a status change.
pub enum ClashCommand {
    /// Clash already has the requested status.
    Keep,
    /// Clash cannot be started: no profile is chosen and none is known.
    NoProfile,
    /// Start Clash with this profile and these options.
    Start { config: String, skip_proxy: bool, override_dns: bool, enhanced_mode: EnhancedMode },
    /// Stop Clash.
    Stop,
}

/// The mathematical form of a [`ClashCommand`].
pub enum ClashCommandView {
    Keep,
    NoProfile,
    Start { config: Seq<char>, skip_proxy: bool, override_dns: bool, enhanced_mode: EnhancedMode },
    Stop,
}

/// The mathematical form of a [`ClashCommand`].
pub open spec fn command_view(c: ClashCommand) -> ClashCommandView {
    match c {
        ClashCommand::Keep => ClashCommandView::Keep,
        ClashCommand::NoProfile => ClashCommandView::NoProfile,
        ClashCommand::Start { config, skip_proxy, override_dns, enhanced_mode } => ClashCommandView::Start {
            config: config@,
            skip_proxy,
            override_dns,
            enhanced_mode,
        },
        ClashCommand::Stop => ClashCommandView::Stop,
    }
}

/// The command that carries out the change to `enabled` with the settings of `r`.
pub open spec fn command_for(r: RuntimeView, enabled: bool) -> ClashCommandView {
    if enabled {
        ClashCommandView::Start {
            config: r.settings.current_sub,
            skip_proxy: r.settings.skip_proxy,
            override_dns: r.settings.override_dns,
            enhanced_mode: r.settings.enhanced_mode,
        }
    } else {
        ClashCommandView::Stop
    }
}

/// The first half of a status change to `enabled`: nothing happens when Clash already has
/// that status; otherwise the change is in progress, a missing profile choice falls back
/// to the first subscription, and with no subscription at all the change fails.
pub open spec fn begin_status_change(r: RuntimeView, enabled: bool) -> (RuntimeView, ClashCommandView) {
    if r.settings.enable == enabled {
        (r, ClashCommandView::Keep)
    } else {
        let r1 = RuntimeView { running_status: RunningStatus::Loading, ..r };
        if r.settings.current_sub.len() == 0 {
            if r.settings.subscriptions.len() > 0 {
                let r2 = RuntimeView {
                    settings: SettingsView {
                        current_sub: r.settings.subscriptions[0].path,
                        ..r.settings
                    },
                    ..r1
                };
                (r2, command_for(r2, enabled))
            } else {
                (RuntimeView { running_status: RunningStatus::Failed, ..r1 }, ClashCommandView::NoProfile)
            }
        } else {
            (r1, command_for(r1, enabled))
        }
    }
}

/// The second half of a status change to `enabled`, once Clash was started or stopped:
/// on success the settings record the new status and are to be saved; on failure the
/// change is marked failed. The answer is the new status, or `false` on failure.
pub open spec fn finish_status_change(r: RuntimeView, enabled: bool, succeeded: bool) -> (RuntimeView, bool) {
    if succeeded {
        (
            RuntimeView {
                settings: SettingsView { enable: enabled, ..r.settings },
                dirty: true,
                running_status: RunningStatus::Success,
                ..r
            },
            enabled,
        )
    } else {
        (RuntimeView { running_status: RunningStatus::Failed, ..r }, false)
    }
}

/// The first half of a status change to `enabled` (see [`begin_status_change`]).
pub fn set_clash_status(runtime: &mut ControlRuntime, enabled: bool) -> (r: ClashCommand)
    ensures
        (final(runtime)@, command_view(r)) == begin_status_change(old(runtime)@, enabled),
        match r {
            ClashCommand::Start { config, skip_proxy, override_dns, enhanced_mode } => {
                &&& enabled
                &&& config@ == final(runtime)@.settings.current_sub
                &&& skip_proxy == old(runtime)@.settings.skip_proxy
                &&& override_dns == old(runtime)@.settings.override_dns
                &&& enhanced_mode == old(runtime)@.settings.enhanced_mode
            },
            _ => true,
        },
        old(runtime)@.settings.enable != enabled && old(runtime)@.settings.current_sub.len() == 0
            && old(runtime)@.settings.subscriptions.len() > 0 ==> final(runtime)@.settings.current_sub
            == old(runtime)@.settings.subscriptions[0].path,
        old(runtime)@.settings.current_sub.len() > 0 ==> final(runtime)@.settings.current_sub == old(
            runtime,
        )@.settings.current_sub,
{
    if runtime.settings.enable == enabled {
        return ClashCommand::Keep;
    }
    runtime.running_status = RunningStatus::Loading;
    if runtime.settings.current_sub.as_str().unicode_len() == 0 {
        if runtime.settings.subscriptions.len() > 0 {
            runtime.settings.current_sub = runtime.settings.subscriptions[0].path.clone();
        } else {
            runtime.running_status = RunningStatus::Failed;
            return ClashCommand::NoProfile;
        }
    }
    if enabled {
        ClashCommand::Start {
            config: runtime.settings.current_sub.clone(),
            skip_proxy: runtime.settings.skip_proxy,
            override_dns: runtime.settings.override_dns,
            enhanced_mode: runtime.settings.enhanced_mode,
        }
    } else {
        ClashCommand::Stop
    }
}

/// The second half of a status change (see [`finish_status_change`]).
pub fn finish_set_clash_status(runtime: &mut ControlRuntime, enabled: bool, succeeded: bool) -> (r: bool)
    ensures
        (final(runtime)@, r) == finish_status_change(old(runtime)@, enabled, succeeded),
{
    if succeeded {
        runtime.settings.enable = enabled;
        runtime.state.dirty = true;
        runtime.running_status = RunningStatus::Success;
        enabled
    } else {
        runtime.running_status = RunningStatus::Failed;
        false
    }
}

/// The answer to a status change that needs no work on Clash: the requested status when
/// Clash already has it, `false` when no profile can be started; `None` when Clash has to
/// be started or stopped first.
pub fn answer_without_clash(command: &ClashCommand, enabled: bool) -> (r: Option<bool>)
    ensures
        r == (match command_view(*command) {
            ClashCommandView::Keep => Some(enabled),
            ClashCommandView::NoProfile => Some(false),
            _ => None::<bool>,
        }),
{
    match command {
        ClashCommand::Keep => Some(enabled),
        ClashCommand::NoProfile => Some(false),
        ClashCommand::Start { .. } => None,
        ClashCommand::Stop => None,
    }
}

/// Asking for the status Clash already has changes nothing.
pub proof fn lemma_status_change_same(r: RuntimeView)
    ensures
        begin_status_change(r, r.settings.enable) == (r, ClashCommandView::Keep),
{
}

/// A change that Clash carried out leaves the settings with the requested status, marks
/// them to be saved, and the next saving step writes that status.
pub proof fn lemma_status_change_done(r: RuntimeView, enabled: bool)
    requires
        begin_status_change(r, enabled).1 is Start || begin_status_change(r, enabled).1 is Stop,
    ensures
        ({
            let done = finish_status_change(begin_status_change(r, enabled).0, enabled, true);
            &&& done.1 == enabled
            &&& done.0.settings.enable == enabled
            &&& done.0.running_status == RunningStatus::Success
            &&& crate::control::persist_step(done.0).1 matches Some(saved) && saved.1.enable == enabled
        }),
{
}

/// The first half of a download: the download is in progress; the answer is the
/// directory the subscription is stored in.
pub open spec fn begin_download(r: RuntimeView) -> (RuntimeView, Seq<char>) {
    (RuntimeView { download_status: DownloadStatus::Downloading, ..r }, joined(r.home, subscriptions_dir()))
}

/// How a download ended.
pub enum DownloadOutcome {
    /// The profile was stored at `path`; it came from `url`.
    Saved { path: String, url: String },
    /// What was fetched is not a usable profile, or the local file could not be read.
    Rejected,
    /// The subscription could not be fetched.
    Unreachable,
    /// The profile could not be written.
    Unsaved,
}

/// The second half of a download: a stored profile becomes a subscription and the settings
/// are to be saved; a rejected profile is an error; an unreachable one a failure; a profile
/// that could not be written leaves everything as it was.
pub open spec fn finish_download(r: RuntimeView, outcome: DownloadOutcome) -> RuntimeView {
    match outcome {
        DownloadOutcome::Saved { path, url } => RuntimeView {
            download_status: DownloadStatus::Success,
            settings: SettingsView {
                subscriptions: r.settings.subscriptions.push(SubscriptionView { path: path@, url: url@ }),
                ..r.settings
            },
            dirty: true,
            ..r
        },
        DownloadOutcome::Rejected => RuntimeView { download_status: DownloadStatus::Error, ..r },
        DownloadOutcome::Unreachable => RuntimeView { download_status: DownloadStatus::Failed, ..r },
        DownloadOutcome::Unsaved => r,
    }
}

/// What the work of a download reported.
pub enum DownloadEvent {
    /// The local file does not exist.
    FileMissing,
    /// The local file could not be read.
    FileUnreadable,
    /// The subscription could not be fetched.
    FetchFailed,
    /// What was read or fetched is not a usable profile.
    NotAProfile,
    /// The directory for subscriptions could not be created.
    DirectoryFailed,
    /// Writing the profile to `path` failed; it came from `url`, a local file when `local`.
    WriteFailed { path: String, url: String, local: bool },
    /// The profile was written to `path`; it came from `url`.
    Written { path: String, url: String },
}

/// How a download ends after `event`: a missing, unreadable or unusable profile and a
/// directory that could not be created are rejected; a failed fetch is unreachable; a
/// local profile that could not be written is left unsaved, while a fetched one is
/// recorded as saved all the same; a written profile is saved.
pub open spec fn event_outcome(event: DownloadEvent) -> DownloadOutcome {
    match event {
        DownloadEvent::FileMissing => DownloadOutcome::Rejected,
        DownloadEvent::FileUnreadable => DownloadOutcome::Rejected,
        DownloadEvent::FetchFailed => DownloadOutcome::Unreachable,
        DownloadEvent::NotAProfile => DownloadOutcome::Rejected,
        DownloadEvent::DirectoryFailed => DownloadOutcome::Rejected,
        DownloadEvent::WriteFailed { path, url, local } => {
            if local {
                DownloadOutcome::Unsaved
            } else {
                DownloadOutcome::Saved { path, url }
            }
        },
        DownloadEvent::Written { path, url } => DownloadOutcome::Saved { path, url },
    }
}

/// How a download ends after `event` (see [`event_outcome`]).
pub fn download_outcome(event: DownloadEvent) -> (r: DownloadOutcome)
    ensures
        r == event_outcome(event),
{
    match event {
        DownloadEvent::FileMissing => DownloadOutcome::Rejected,
        DownloadEvent::FileUnreadable => DownloadOutcome::Rejected,
        DownloadEvent::FetchFailed => DownloadOutcome::Unreachable,
        DownloadEvent::NotAProfile => DownloadOutcome::Rejected,
        DownloadEvent::DirectoryFailed => DownloadOutcome::Rejected,
        DownloadEvent::WriteFailed { path, url, local } => {
            if local {
                DownloadOutcome::Unsaved
            } else {
                DownloadOutcome::Saved { path, url }
            }
        },
        DownloadEvent::Written { path, url } => DownloadOutcome::Saved { path, url },
    }
}

/// The first half of a download (see [`begin_download`]).
pub fn download_sub(runtime: &mut ControlRuntime) -> (r: String)
    ensures
        (final(runtime)@, r@) == begin_download(old(runtime)@),
{
    runtime.downlaod_status = DownloadStatus::Downloading;
    subscriptions_path(runtime.state.home.as_str())
}

/// The second half of a download (see [`finish_download`]).
pub fn finish_download_sub(runtime: &mut ControlRuntime, outcome: DownloadOutcome)
    ensures
        final(runtime)@ == finish_download(old(runtime)@, outcome),
{
    match outcome {
        DownloadOutcome::Saved { path, url } => {
            runtime.downlaod_status = DownloadStatus::Success;
            let ghost before = runtime.settings.subscriptions@;
            runtime.settings.subscriptions.push(Subscription::new(path, url));
            runtime.state.dirty = true;
            assert(crate::settings::subscriptions_view(runtime.settings.subscriptions@)
                =~= crate::settings::subscriptions_view(before).push(runtime.settings.subscriptions@.last()@));
        },
        DownloadOutcome::Rejected => {
            runtime.downlaod_status = DownloadStatus::Error;
        },
        DownloadOutcome::Unreachable => {
            runtime.downlaod_status = DownloadStatus::Failed;
        },
        DownloadOutcome::Unsaved => {},
    }
}

/// The download status's name.
pub fn get_download_status(runtime: &ControlRuntime) -> (r: String)
    ensures
        r@ == download_status_text(runtime.downlaod_status),
{
    runtime.downlaod_status.to_text()
}

/// The update status's name.
pub fn get_update_status(runtime: &ControlRuntime) -> (r: String)
    ensures
        r@ == download_status_text(runtime.update_status),
{
    runtime.update_status.to_text()
}

/// The running status's name.
pub fn get_running_status(runtime: &ControlRuntime) -> (r: String)
    ensures
        r@ == running_status_text(runtime.running_status),
{
    runtime.running_status.to_text()
}

/// The profile Clash runs with.
pub fn get_current_sub(runtime: &ControlRuntime) -> (r: String)
    ensures
        r@ == runtime.settings.current_sub@,
{
    runtime.settings.current_sub.clone()
}

/// Forgetting the subscription at `index`: when there is one, it leaves the list, and
/// when it was the chosen profile no profile is chosen any more. Either way the settings
/// are to be saved.
pub open spec fn delete_step(r: RuntimeView, index: int) -> RuntimeView {
    if 0 <= index < r.settings.subscriptions.len() {
        let removed = r.settings.subscriptions[index];
        RuntimeView {
            settings: SettingsView {
                current_sub: if r.settings.current_sub == removed.path {
                    Seq::empty()
                } else {
                    r.settings.current_sub
                },
                subscriptions: r.settings.subscriptions.remove(index),
                ..r.settings
            },
            dirty: true,
            ..r
        }
    } else {
        RuntimeView { dirty: true, ..r }
    }
}

/// Forgets the subscription at `index` (see [`delete_step`]) and returns it, so that its
/// profile file can be deleted.
pub fn delete_sub(runtime: &mut ControlRuntime, index: usize) -> (r: Option<Subscription>)
    ensures
        final(runtime)@ == delete_step(old(runtime)@, index as int),
        index < old(runtime)@.settings.subscriptions.len() ==> final(runtime)@.settings.subscriptions
            == old(runtime)@.settings.subscriptions.remove(index as int),
        index < old(runtime)@.settings.subscriptions.len()
            && old(runtime)@.settings.subscriptions[index as int].path != old(runtime)@.settings.current_sub
            ==> final(runtime)@.settings.current_sub == old(runtime)@.settings.current_sub,
        index < old(runtime)@.settings.subscriptions.len()
            && old(runtime)@.settings.subscriptions[index as int].path == old(runtime)@.settings.current_sub
            ==> final(runtime)@.settings.current_sub.len() == 0,
        index >= old(runtime)@.settings.subscriptions.len() ==> final(runtime)@.settings
            == old(runtime)@.settings,
        match r {
            Some(s) => index < old(runtime)@.settings.subscriptions.len() && s@
                == old(runtime)@.settings.subscriptions[index as int],
            None => index >= old(runtime)@.settings.subscriptions.len(),
        },
{
    let ghost before = runtime.settings.subscriptions@;
    let removed = if index < runtime.settings.subscriptions.len() {
        if runtime.settings.current_sub == runtime.settings.subscriptions[index].path {
            runtime.settings.current_sub = String::new();
        }
        let s = runtime.settings.subscriptions.remove(index);
        assert(crate::settings::subscriptions_view(runtime.settings.subscriptions@)
            =~= crate::settings::subscriptions_view(before).remove(index as int));
        Some(s)
    } else {
        None
    };
    runtime.state.dirty = true;
    removed
}

/// Choosing `path` as the profile: the settings and Clash both use it, and the settings
/// are to be saved.
pub open spec fn select_step(r: RuntimeView, path: Seq<char>) -> RuntimeView {
    RuntimeView {
        settings: SettingsView { current_sub: path, ..r.settings },
        dirty: true,
        clash_config: path,
        ..r
    }
}

/// Chooses `path` as the profile (see [`select_step`]).
pub fn set_sub(runtime: &mut ControlRuntime, path: &String)
    ensures
        final(runtime)@ == select_step(old(runtime)@, path@),
        final(runtime).clash_state.config@ == path@,
        final(runtime).settings.current_sub@ == path@,
        final(runtime)@.settings.subscriptions == old(runtime)@.settings.subscriptions,
        final(runtime)@.settings.enable == old(runtime)@.settings.enable,
{
    runtime.settings.current_sub = path.clone();
    runtime.state.dirty = true;
    runtime.clash_state.update_config_path(path);
}

/// Forgetting a subscription takes exactly that entry out of the list; the chosen profile
/// is dropped when, and only when, it is the forgotten subscription's file; an index past
/// the list changes no setting.
pub proof fn lemma_delete_forgets_only_its_profile(r: RuntimeView, index: int)
    ensures
        0 <= index < r.settings.subscriptions.len() ==> {
            let after = delete_step(r, index).settings;
            &&& after.subscriptions.len() == r.settings.subscriptions.len() - 1
            &&& forall|j: int| 0 <= j < index ==> after.subscriptions[j] == r.settings.subscriptions[j]
            &&& forall|j: int|
                index <= j < after.subscriptions.len() ==> after.subscriptions[j]
                    == r.settings.subscriptions[j + 1]
            &&& (r.settings.subscriptions[index].path != r.settings.current_sub ==> after.current_sub
                == r.settings.current_sub)
            &&& (r.settings.subscriptions[index].path == r.settings.current_sub
                ==> after.current_sub.len() == 0)
            &&& after.enable == r.settings.enable
        },
        !(0 <= index < r.settings.subscriptions.len()) ==> delete_step(r, index).settings
            == r.settings,
{
}

/// Choosing a profile makes it both the chosen profile and the file Clash's configuration
/// is made from, whether or not Clash is enabled, and leaves the subscriptions as they were.
pub proof fn lemma_select_points_clash_at_profile(r: RuntimeView, path: Seq<char>)
    ensures
        select_step(r, path).settings.current_sub == path,
        select_step(r, path).clash_config == path,
        select_step(r, path).settings.subscriptions == r.settings.subscriptions,
        select_step(r, path).settings.enable == r.settings.enable,
{
}

/// A start that a status change asks for runs the chosen profile with the saved options;
/// when no profile was chosen the first subscription is chosen; a chosen profile is kept.
pub proof fn lemma_start_uses_saved_choices(r: RuntimeView, enabled: bool)
    ensures
        match begin_status_change(r, enabled).1 {
            ClashCommandView::Start { config, skip_proxy, override_dns, enhanced_mode } => {
                &&& enabled
                &&& r.settings.enable != enabled
                &&& config == begin_status_change(r, enabled).0.settings.current_sub
                &&& skip_proxy == r.settings.skip_proxy
                &&& override_dns == r.settings.override_dns
                &&& enhanced_mode == r.settings.enhanced_mode
            },
            _ => true,
        },
        r.settings.enable != enabled && r.settings.current_sub.len() == 0
            && r.settings.subscriptions.len() > 0 ==> begin_status_change(r, enabled).0.settings.current_sub
            == r.settings.subscriptions[0].path,
        r.settings.enable != enabled && r.settings.current_sub.len() == 0
            && r.settings.subscriptions.len() > 0 && enabled ==> begin_status_change(r, enabled).1
            == (ClashCommandView::Start {
            config: r.settings.subscriptions[0].path,
            skip_proxy: r.settings.skip_proxy,
            override_dns: r.settings.override_dns,
            enhanced_mode: r.settings.enhanced_mode,
        }),
        r.settings.current_sub.len() > 0 ==> begin_status_change(r, enabled).0.settings.current_sub
            == r.settings.current_sub,
{
}

/// A subscription is updated from the network unless it is a local file.
pub open spec fn is_remote(s: SubscriptionView) -> bool {
    local_file_path(s.url) is None
}

/// The first half of updating the subscriptions: the update is in progress; the answer is
/// every subscription that is not a local file, in order.
pub fn update_subs(runtime: &mut ControlRuntime) -> (r: Vec<Subscription>)
    ensures
        final(runtime)@ == (RuntimeView { update_status: DownloadStatus::Downloading, ..old(runtime)@ }),
        crate::settings::subscriptions_view(r@) == old(runtime)@.settings.subscriptions.filter(
            |s: SubscriptionView| is_remote(s),
        ),
{
    runtime.update_status = DownloadStatus::Downloading;
    let subs = &runtime.settings.subscriptions;
    let ghost all = crate::settings::subscriptions_view(subs@);
    let mut out: Vec<Subscription> = Vec::new();
    let mut i: usize = 0;
    while i < subs.len()
        invariant
            i <= subs@.len(),
            all == crate::settings::subscriptions_view(subs@),
            crate::settings::subscriptions_view(out@) == all.subrange(0, i as int).filter(
                |s: SubscriptionView| is_remote(s),
            ),
        decreases subs@.len() - i,
    {
        let local = get_file_path(subs[i].url.clone());
        let ghost before = out@;
        if local.is_none() {
            out.push(subs[i].duplicate());
        }
        proof {
            reveal(Seq::filter);
            assert(all.subrange(0, i + 1).drop_last() =~= all.subrange(0, i as int));
            assert(crate::settings::subscriptions_view(out@) =~= all.subrange(0, i + 1).filter(
                |s: SubscriptionView| is_remote(s),
            ));
        }
        i = i + 1;
    }
    assert(all.subrange(0, i as int) =~= all);
    out
}

/// The second half of updating the subscriptions: the update counts as done.
pub fn finish_update_subs(runtime: &mut ControlRuntime)
    ensures
        final(runtime)@ == (RuntimeView { update_status: DownloadStatus::Success, ..old(runtime)@ }),
{
    runtime.update_status = DownloadStatus::Success;
}

/// Every change a call makes to the settings is saved by the next saving step: choosing a
/// profile, storing a downloaded subscription, forgetting one, and completing a status change.
pub proof fn lemma_changes_are_saved(r: RuntimeView, path: Seq<char>, index: int, outcome_path: Seq<char>)
    ensures
        crate::control::persist_step(select_step(r, path)).1 == Some(
            (joined(r.home, crate::settings::settings_file()), select_step(r, path).settings),
        ),
        crate::control::persist_step(delete_step(r, index)).1 == Some(
            (joined(r.home, crate::settings::settings_file()), delete_step(r, index).settings),
        ),
        finish_status_change(r, true, true).0.dirty,
        finish_status_change(r, false, true).0.dirty,
        forall|path: String, url: String|
            #![trigger finish_download(r, DownloadOutcome::Saved { path, url })]
            crate::control::persist_step(finish_download(r, DownloadOutcome::Saved { path, url })).1
                == Some(
                (
                    joined(r.home, crate::settings::settings_file()),
                    finish_download(r, DownloadOutcome::Saved { path, url }).settings,
                ),
            ),
{
}


/// The report line on whether Clash runs.
pub open spec fn status_line(clash_running: bool) -> Seq<char> {
    "Clash status : "@ + (if clash_running {
        "true"@
    } else {
        "false"@
    }) + "\n"@
}

/// The report line on whether Clash runs.
pub fn clash_status_line(clash_running: bool) -> (r: String)
    ensures
        r@ == status_line(clash_running),
{
    let mut out = String::from_str("Clash status : ");
    if clash_running {
        out.append("true");
    } else {
        out.append("false");
    }
    out.append("\n");
    out
}

/// What the report says in place of a file that could not be read.
pub fn unreadable_file_note(subject: &str, error: &str) -> (r: String)
    ensures
        r@ == "can not get "@ + subject@ + ", error message: "@ + error@ + " \n"@,
{
    let mut out = String::from_str("can not get ");
    out.append(subject);
    out.append(", error message: ");
    out.append(error);
    out.append(" \n");
    out
}

/// The debug report: the status line, the settings file, the plugin's log and Clash's log,
/// each under its heading.
pub open spec fn debug_report(status: Seq<char>, config: Seq<char>, tomoon_log: Seq<char>, clash_log: Seq<char>) -> Seq<char> {
    "\n        "@ + status + "\n\n        ToMoon config:\n\n        "@ + config
        + "\n\n        ToMoon log:\n\n        "@ + tomoon_log + "\n\n        Clash log:\n\n        "@
        + clash_log + "\n\n        "@
}

/// The debug report (see [`debug_report`]).
pub fn create_debug_log(status: &str, config: &str, tomoon_log: &str, clash_log: &str) -> (r: String)
    ensures
        r@ == debug_report(status@, config@, tomoon_log@, clash_log@),
{
    let mut out = String::from_str("\n        ");
    out.append(status);
    out.append("\n\n        ToMoon config:\n\n        ");
    out.append(config);
    out.append("\n\n        ToMoon log:\n\n        ");
    out.append(tomoon_log);
    out.append("\n\n        Clash log:\n\n        ");
    out.append(clash_log);
    out.append("\n\n        ");
    out
}

} // verus!
