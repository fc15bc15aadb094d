//! The runtime state of the plugin: settings, Clash's location, and the status of
//! long-running work, with the steps that change them.

use vstd::prelude::*;
use crate::paths::{join_path, joined};
use crate::settings::{
    settings_file, settings_path, Settings, SettingsView, State,
};

verus! {

/// Progress of starting or stopping Clash.
#[derive(Debug, Clone, Copy, PartialEq, Eq, Structural)]
pub enum RunningStatus {
    Loading,
    Failed,
    Success,
    Unset,
}

/// Progress of downloading or updating subscriptions.
#[derive(Debug, Clone, Copy, PartialEq, Eq, Structural)]
pub enum DownloadStatus {
    Downloading,
    Failed,
    Success,
    Error,
    Unset,
}

/// The name of a running status, as the front-end shows it.
pub open spec fn running_status_text(s: RunningStatus) -> Seq<char> {
    match s {
        RunningStatus::Loading => "Loading"@,
        RunningStatus::Failed => "Failed"@,
        RunningStatus::Success => "Success"@,
        RunningStatus::Unset => "None"@,
    }
}

/// The name of a download status, as the front-end shows it.
pub open spec fn download_status_text(s: DownloadStatus) -> Seq<char> {
    match s {
        DownloadStatus::Downloading => "Downloading"@,
        DownloadStatus::Failed => "Failed"@,
        DownloadStatus::Success => "Success"@,
        DownloadStatus::Error => "Error"@,
        DownloadStatus::Unset => "None"@,
    }
}

impl RunningStatus {
    /// The status's name.
    pub fn to_text(&self) -> (r: String)
        ensures
            r@ == running_status_text(*self),
    {
        match self {
            RunningStatus::Loading => String::from_str("Loading"),
            RunningStatus::Failed => String::from_str("Failed"),
            RunningStatus::Success => String::from_str("Success"),
            RunningStatus::Unset => String::from_str("None"),
        }
    }
}

impl DownloadStatus {
    /// The status's name.
    pub fn to_text(&self) -> (r: String)
        ensures
            r@ == download_status_text(*self),
    {
        match self {
            DownloadStatus::Downloading => String::from_str("Downloading"),
            DownloadStatus::Failed => String::from_str("Failed"),
            DownloadStatus::Success => String::from_str("Success"),
            DownloadStatus::Error => String::from_str("Error"),
            DownloadStatus::Unset => String::from_str("None"),
        }
    }
}

/// What went wrong while handling a request.
#[derive(Debug, Clone, Copy, PartialEq, Eq, Structural)]
pub enum ClashErrorKind {
    ConfigFormatError,
    ConfigNotFound,
    NetworkError,
    InnerError,
    Default,
    CpDbError,
}

/// The name of an error kind.
pub open spec fn error_kind_text(k: ClashErrorKind) -> Seq<char> {
    match k {
        ClashErrorKind::ConfigFormatError => "ConfigFormatError"@,
        ClashErrorKind::ConfigNotFound => "ConfigNotFound"@,
        ClashErrorKind::NetworkError => "NetworkError"@,
        ClashErrorKind::InnerError => "InnerError"@,
        ClashErrorKind::Default => "Default"@,
        ClashErrorKind::CpDbError => "CpDbError"@,
    }
}

/// An error with its kind and a message.
#[allow(non_snake_case)]
#[derive(Debug)]
pub struct ClashError {
    pub Message: String,
    pub ErrorKind: ClashErrorKind,
}

impl ClashError {
    /// An error of the default kind with an empty message.
    pub fn new() -> (r: Self)
        ensures
            r.Message@ == Seq::<char>::empty(),
            r.ErrorKind == ClashErrorKind::Default,
    {
        Self { Message: String::new(), ErrorKind: ClashErrorKind::Default }
    }

    /// An error of kind `kind` with the message `message`.
    pub fn with(kind: ClashErrorKind, message: String) -> (r: Self)
        ensures
            r.Message == message,
            r.ErrorKind == kind,
    {
        Self { Message: message, ErrorKind: kind }
    }

    /// The error as a line of text: its kind and its message.
    pub fn describe(&self) -> (r: String)
        ensures
            r@ == "Error Kind: "@ + error_kind_text(self.ErrorKind) + ", Error Message: "@
                + self.Message@ + ")"@,
    {
        let mut out = String::from_str("Error Kind: ");
        let kind = match self.ErrorKind {
            ClashErrorKind::ConfigFormatError => "ConfigFormatError",
            ClashErrorKind::ConfigNotFound => "ConfigNotFound",
            ClashErrorKind::NetworkError => "NetworkError",
            ClashErrorKind::InnerError => "InnerError",
            ClashErrorKind::Default => "Default",
            ClashErrorKind::CpDbError => "CpDbError",
        };
        out.append(kind);
        out.append(", Error Message: ");
        out.append(self.Message.as_str());
        out.append(")");
        out
    }

    /// The HTTP status answered for this error: 404 when a configuration was not found,
    /// 500 otherwise.
    pub fn http_status(&self) -> (r: u16)
        ensures
            r == (if self.ErrorKind == ClashErrorKind::ConfigNotFound {
                404u16
            } else {
                500u16
            }),
    {
        if self.ErrorKind == ClashErrorKind::ConfigNotFound {
            404
        } else {
            500
        }
    }
}

/// A step of the work around a request that can fail.
#[derive(Debug, Clone, Copy, PartialEq, Eq, Structural)]
pub enum FailedStep {
    /// Copying one of Clash's databases next to its configuration.
    CopyDatabase,
    /// Rewriting the profile into the configuration Clash runs with.
    RewriteConfig,
    /// Starting the Clash process.
    StartProcess,
    /// Rewriting the running configuration for a reload.
    ReloadConfig,
    /// Reading a local subscription file.
    ReadProfile,
    /// Reading the settings.
    ReadSettings,
    /// Taking hold of the shared runtime state.
    AcquireState,
    /// Creating the directory subscriptions are stored in.
    CreateDirectory,
    /// Writing a subscription file.
    WriteProfile,
    /// Fetching a subscription over the network.
    Download,
}

/// The kind of error a failed step is answered with.
pub open spec fn step_error_kind(step: FailedStep) -> ClashErrorKind {
    match step {
        FailedStep::CopyDatabase => ClashErrorKind::CpDbError,
        FailedStep::RewriteConfig => ClashErrorKind::ConfigFormatError,
        FailedStep::StartProcess => ClashErrorKind::Default,
        FailedStep::ReloadConfig => ClashErrorKind::InnerError,
        FailedStep::ReadProfile => ClashErrorKind::ConfigNotFound,
        FailedStep::ReadSettings => ClashErrorKind::ConfigNotFound,
        FailedStep::AcquireState => ClashErrorKind::InnerError,
        FailedStep::CreateDirectory => ClashErrorKind::InnerError,
        FailedStep::WriteProfile => ClashErrorKind::InnerError,
        FailedStep::Download => ClashErrorKind::NetworkError,
    }
}

/// The error a failed step is answered with, given what the failure said: its kind is the
/// step's, and it carries that message, except that a failed start of the Clash process
/// is answered with the default error and no message.
pub fn failure(step: FailedStep, message: String) -> (r: ClashError)
    ensures
        r.ErrorKind == step_error_kind(step),
        r.Message@ == (if step == FailedStep::StartProcess {
            Seq::<char>::empty()
        } else {
            message@
        }),
{
    match step {
        FailedStep::CopyDatabase => ClashError::with(ClashErrorKind::CpDbError, message),
        FailedStep::RewriteConfig => ClashError::with(ClashErrorKind::ConfigFormatError, message),
        FailedStep::StartProcess => ClashError::new(),
        FailedStep::ReloadConfig => ClashError::with(ClashErrorKind::InnerError, message),
        FailedStep::ReadProfile => ClashError::with(ClashErrorKind::ConfigNotFound, message),
        FailedStep::ReadSettings => ClashError::with(ClashErrorKind::ConfigNotFound, message),
        FailedStep::AcquireState => ClashError::with(ClashErrorKind::InnerError, message),
        FailedStep::CreateDirectory => ClashError::with(ClashErrorKind::InnerError, message),
        FailedStep::WriteProfile => ClashError::with(ClashErrorKind::InnerError, message),
        FailedStep::Download => ClashError::with(ClashErrorKind::NetworkError, message),
    }
}

/// Where the Clash executable and the profile it runs live.
pub struct Clash {
    pub path: String,
    pub config: String,
}

/// The Clash executable, relative to the plugin directory.
pub open spec fn bundled_clash() -> Seq<char> {
    "bin/core/clash"@
}

impl Clash {
    /// The executable and profile shipped in the plugin directory `cwd`.
    pub fn new_in(cwd: &str) -> (r: Self)
        ensures
            r.path@ == joined(cwd@, bundled_clash()),
            r.config@ == joined(cwd@, crate::settings::bundled_profile()),
    {
        Clash { path: join_path(cwd, "bin/core/clash"), config: join_path(cwd, "bin/core/config.yaml") }
    }

    /// The configuration Clash is run with, made from the profile `profile` with the
    /// options of the settings and the web UI of the plugin directory `cwd`.
    pub fn change_config(
        &self,
        profile: crate::yaml::Yaml,
        skip_proxy: bool,
        override_dns: bool,
        enhanced_mode: crate::settings::EnhancedMode,
        cwd: &str,
    ) -> (r: crate::yaml::Yaml)
        requires
            crate::yaml::is_rewritable(crate::yaml::yaml_view(profile)),
        ensures
            crate::yaml::yaml_view(r) == crate::yaml::YamlView::Mapping(
                crate::yaml::rewritten_config(
                    crate::yaml::document_entries(crate::yaml::yaml_view(profile)),
                    skip_proxy,
                    override_dns,
                    enhanced_mode,
                    joined(cwd@, "bin/core/web"@),
                ),
            ),
            crate::yaml::well_formed(crate::yaml::yaml_view(profile)) ==> crate::yaml::well_formed(
                crate::yaml::yaml_view(r),
            ),
    {
        let webui = webui_dir(cwd);
        crate::yaml::change_config_document(profile, skip_proxy, override_dns, enhanced_mode, webui.as_str())
    }

    /// Makes `path` the profile Clash runs.
    pub fn update_config_path(&mut self, path: &String)
        ensures
            final(self).config@ == path@,
            final(self).path == old(self).path,
    {
        self.config = path.clone();
    }
}

/// The plugin's data directory, relative to the plugin directory.
pub open spec fn data_dir_rel() -> Seq<char> {
    "../../data/tomoon"@
}

/// The plugin's data directory for the plugin directory `cwd`.
pub fn get_decky_data_dir(cwd: &str) -> (r: String)
    ensures
        r@ == joined(cwd@, data_dir_rel()),
{
    join_path(cwd, "../../data/tomoon")
}

/// The web UI Clash serves, for the plugin directory `cwd`.
pub fn webui_dir(cwd: &str) -> (r: String)
    ensures
        r@ == joined(cwd@, "bin/core/web"@),
{
    join_path(cwd, "bin/core/web")
}

/// The configuration file Clash is started with, in the data directory `data_dir`.
pub fn running_config_path(data_dir: &str) -> (r: String)
    ensures
        r@ == joined(data_dir@, "running_config.yaml"@),
{
    join_path(data_dir, "running_config.yaml")
}

/// What starting Clash needs: the data directory, the databases to copy into it when
/// missing (bundled file, installed file), the configuration it runs, and its arguments.
pub struct LaunchPlan {
    pub data_dir: String,
    pub databases: Vec<(String, String)>,
    pub run_config: String,
    pub arguments: Vec<String>,
}

/// The geo databases Clash needs, by file name.
pub open spec fn database_names() -> Seq<Seq<char>> {
    seq!["country.mmdb"@, "asn.mmdb"@, "geosite.dat"@]
}

fn database_pair(cwd: &str, data_dir: &str, name: &str) -> (r: (String, String))
    ensures
        r.0@ == joined(joined(cwd@, "bin/core"@), name@),
        r.1@ == joined(data_dir@, name@),
{
    let core = join_path(cwd, "bin/core");
    (join_path(core.as_str(), name), join_path(data_dir, name))
}

/// The plan for starting Clash from the plugin directory `cwd`.
pub fn launch_plan(cwd: &str) -> (r: LaunchPlan)
    ensures
        r.data_dir@ == joined(cwd@, data_dir_rel()),
        r.databases@.len() == 3,
        forall|i: int|
            0 <= i < 3 ==> (#[trigger] r.databases@[i]).0@ == joined(
                joined(cwd@, "bin/core"@),
                database_names()[i],
            ) && r.databases@[i].1@ == joined(r.data_dir@, database_names()[i]),
        r.run_config@ == joined(r.data_dir@, "running_config.yaml"@),
        r.arguments@.len() == 4,
        r.arguments@[0]@ == "-d"@,
        r.arguments@[1]@ == r.data_dir@,
        r.arguments@[2]@ == "-f"@,
        r.arguments@[3]@ == r.run_config@,
{
    let data_dir = get_decky_data_dir(cwd);
    let mut databases: Vec<(String, String)> = Vec::new();
    databases.push(database_pair(cwd, data_dir.as_str(), "country.mmdb"));
    databases.push(database_pair(cwd, data_dir.as_str(), "asn.mmdb"));
    databases.push(database_pair(cwd, data_dir.as_str(), "geosite.dat"));
    let run_config = running_config_path(data_dir.as_str());
    let mut arguments: Vec<String> = Vec::new();
    arguments.push(String::from_str("-d"));
    arguments.push(data_dir.clone());
    arguments.push(String::from_str("-f"));
    arguments.push(run_config.clone());
    LaunchPlan { data_dir, databases, run_config, arguments }
}

/// The runtime state of the plugin.
pub struct ControlRuntime {
    pub settings: Settings,
    pub state: State,
    pub clash_state: Clash,
    pub downlaod_status: DownloadStatus,
    pub update_status: DownloadStatus,
    pub running_status: RunningStatus,
}

/// The mathematical form of a [`ControlRuntime`].
pub struct RuntimeView {
    pub settings: SettingsView,
    pub home: Seq<char>,
    pub dirty: bool,
    pub clash_path: Seq<char>,
    pub clash_config: Seq<char>,
    pub download_status: DownloadStatus,
    pub update_status: DownloadStatus,
    pub running_status: RunningStatus,
}

impl View for ControlRuntime {
    type V = RuntimeView;

    open spec fn view(&self) -> RuntimeView {
        RuntimeView {
            settings: self.settings@,
            home: self.state.home@,
            dirty: self.state.dirty,
            clash_path: self.clash_state.path@,
            clash_config: self.clash_state.config@,
            download_status: self.downlaod_status,
            update_status: self.update_status,
            running_status: self.running_status,
        }
    }
}

/// Settings to be written to a file.
pub struct PersistRequest {
    pub path: String,
    pub settings: Settings,
}

/// The mathematical form of an optional save request: the file and the settings.
pub open spec fn persist_request_view(r: Option<PersistRequest>) -> Option<(Seq<char>, SettingsView)> {
    match r {
        Some(p) => Some((p.path@, p.settings@)),
        None => None,
    }
}

/// One step of the saving loop: unsaved settings are handed out to be written to the
/// settings file of the home directory and count as saved from then on.
pub open spec fn persist_step(r: RuntimeView) -> (RuntimeView, Option<(Seq<char>, SettingsView)>) {
    if r.dirty {
        (RuntimeView { dirty: false, ..r }, Some((joined(r.home, settings_file()), r.settings)))
    } else {
        (r, None)
    }
}

/// The start-up check: settings that say Clash is enabled while it does not run are
/// corrected, and the network has to be reset.
pub open spec fn recover_step(r: RuntimeView, clash_running: bool) -> (RuntimeView, bool) {
    if !clash_running && r.settings.enable {
        (RuntimeView { settings: SettingsView { enable: false, ..r.settings }, ..r }, true)
    } else {
        (r, false)
    }
}

impl ControlRuntime {
    /// A runtime over the loaded `settings`, the `state` of the home directory and the
    /// `clash` installation, with nothing in progress.
    pub fn new(settings: Settings, state: State, clash: Clash) -> (r: Self)
        ensures
            r.settings == settings,
            r.state == state,
            r.clash_state == clash,
            r.downlaod_status == DownloadStatus::Unset,
            r.update_status == DownloadStatus::Unset,
            r.running_status == RunningStatus::Unset,
    {
        ControlRuntime {
            settings,
            state,
            clash_state: clash,
            downlaod_status: DownloadStatus::Unset,
            update_status: DownloadStatus::Unset,
            running_status: RunningStatus::Unset,
        }
    }

    /// One step of the saving loop (see [`persist_step`]).
    pub fn persist(&mut self) -> (r: Option<PersistRequest>)
        ensures
            (final(self)@, persist_request_view(r)) == persist_step(old(self)@),
    {
        if self.state.dirty {
            let path = settings_path(self.state.home.as_str());
            let settings = self.settings.duplicate();
            self.state.dirty = false;
            Some(PersistRequest { path, settings })
        } else {
            None
        }
    }

    /// The start-up check (see [`recover_step`]); returns whether the network has to be reset.
    pub fn recover(&mut self, clash_running: bool) -> (r: bool)
        ensures
            (final(self)@, r) == recover_step(old(self)@, clash_running),
    {
        if !clash_running && self.settings.enable {
            self.settings.enable = false;
            true
        } else {
            false
        }
    }
}

/// Once settings have been handed out to be saved, a second saving step has nothing to do.
pub proof fn lemma_persist_settles(r: RuntimeView)
    ensures
        persist_step(persist_step(r).0).1 is None,
        persist_step(persist_step(r).0).0 == persist_step(r).0,
{
}

/// After the start-up check the settings never claim that Clash runs when it does not.
pub proof fn lemma_recover_consistent(r: RuntimeView, clash_running: bool)
    ensures
        recover_step(r, clash_running).0.settings.enable ==> clash_running,
        recover_step(recover_step(r, clash_running).0, clash_running).1 == false,
{
}

} // verus!
