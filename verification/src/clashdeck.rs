//! The smaller back-end: an on/off switch for Clash with saved settings.

use vstd::prelude::*;
use crate::paths::{join_path, joined};

verus! {

/// The settings that are saved between runs.
pub struct Settings {
    pub enable: bool,
    pub tun_mode: bool,
    pub subscriptions: Vec<String>,
}

impl Default for Settings {
    fn default() -> (r: Self)
        ensures
            !r.enable,
            r.tun_mode,
            r.subscriptions@.len() == 0,
    {
        Settings { enable: false, tun_mode: true, subscriptions: Vec::new() }
    }
}

impl Settings {
    /// A copy of these settings.
    pub fn duplicate(&self) -> (r: Self)
        ensures
            r.enable == self.enable,
            r.tun_mode == self.tun_mode,
            r.subscriptions@.len() == self.subscriptions@.len(),
            forall|i: int| 0 <= i < r.subscriptions@.len() ==> (#[trigger] r.subscriptions@[i])@ == self.subscriptions@[i]@,
    {
        let mut subscriptions: Vec<String> = Vec::new();
        let mut i: usize = 0;
        while i < self.subscriptions.len()
            invariant
                i <= self.subscriptions@.len(),
                subscriptions@.len() == i,
                forall|j: int| 0 <= j < i ==> (#[trigger] subscriptions@[j])@ == self.subscriptions@[j]@,
            decreases self.subscriptions@.len() - i,
        {
            subscriptions.push(self.subscriptions[i].clone());
            i = i + 1;
        }
        Settings { enable: self.enable, tun_mode: self.tun_mode, subscriptions }
    }
}

/// Where the back-end keeps its data, and whether the settings still have to be saved.
pub struct State {
    pub home: String,
    pub dirty: bool,
}

impl Default for State {
    fn default() -> (r: Self)
        ensures
            r.home@ == "/home/deck"@,
            r.dirty,
    {
        State { home: String::from_str("/home/deck"), dirty: true }
    }
}

impl State {
    /// The state for the home directory `home`, falling back to the default one; the
    /// settings start out unsaved.
    pub fn new(home: Option<String>) -> (r: Self)
        ensures
            r.home@ == (match home {
                Some(h) => h@,
                None => "/home/deck"@,
            }),
            r.dirty,
    {
        match home {
            Some(h) => State { home: h, dirty: true },
            None => State::default(),
        }
    }
}

/// Where the settings of the home directory `home` are saved.
pub fn settings_path(home: &str) -> (r: String)
    ensures
        r@ == joined(home@, ".config/clashdeck/clashdeck.json"@),
{
    join_path(home, ".config/clashdeck/clashdeck.json")
}

/// Where the Clash executable and its configuration live.
#[allow(non_camel_case_types)]
pub struct clash {
    pub path: String,
    pub config: String,
}

impl clash {
    /// The executable and configuration in the working directory `cwd`.
    pub fn new_in(cwd: &str) -> (r: Self)
        ensures
            r.path@ == cwd@,
            r.config@ == joined(cwd@, "config.yaml"@),
    {
        clash { path: String::from_str(cwd), config: join_path(cwd, "config.yaml") }
    }
}

/// The runtime state of the back-end.
pub struct ControlRuntime {
    pub settings: Settings,
    pub state: State,
}

/// What has to happen to Clash for a status change.
#[derive(Debug, Clone, Copy, PartialEq, Eq, Structural)]
pub enum Switch {
    Keep,
    Start,
    Stop,
}

impl ControlRuntime {
    /// A runtime over the loaded `settings` and the `state` of the home directory.
    pub fn new(settings: Settings, state: State) -> (r: Self)
        ensures
            r.settings == settings,
            r.state == state,
    {
        ControlRuntime { settings, state }
    }

    /// One step of the saving loop: unsaved settings are handed out to be written to the
    /// settings file and count as saved from then on.
    pub fn persist(&mut self) -> (r: Option<(String, Settings)>)
        ensures
            final(self).settings == old(self).settings,
            final(self).state.home == old(self).state.home,
            !final(self).state.dirty,
            match r {
                Some((path, s)) => old(self).state.dirty && path@ == joined(
                    old(self).state.home@,
                    ".config/clashdeck/clashdeck.json"@,
                ) && s.enable == old(self).settings.enable && s.tun_mode == old(self).settings.tun_mode
                    && s.subscriptions@.len() == old(self).settings.subscriptions@.len() && (forall|i: int|
                    0 <= i < s.subscriptions@.len() ==> (#[trigger] s.subscriptions@[i])@
                        == old(self).settings.subscriptions@[i]@),
                None => !old(self).state.dirty,
            },
    {
        if self.state.dirty {
            let path = settings_path(self.state.home.as_str());
            let s = self.settings.duplicate();
            self.state.dirty = false;
            Some((path, s))
        } else {
            None
        }
    }
}

/// Whether Clash is enabled, as the settings say.
pub fn get_clash_status(runtime: &ControlRuntime) -> (r: bool)
    ensures
        r == runtime.settings.enable,
{
    runtime.settings.enable
}

/// A status change to `enabled`: when it differs from the current status Clash is to be
/// started or stopped, and the settings record the new status and are to be saved whatever
/// starting or stopping gives. The answer is `enabled`.
pub fn set_clash_status(runtime: &mut ControlRuntime, enabled: bool) -> (r: Switch)
    ensures
        final(runtime).settings.enable == enabled,
        final(runtime).settings.tun_mode == old(runtime).settings.tun_mode,
        final(runtime).settings.subscriptions == old(runtime).settings.subscriptions,
        final(runtime).state.home == old(runtime).state.home,
        final(runtime).state.dirty == (old(runtime).state.dirty || old(runtime).settings.enable != enabled),
        r == (if old(runtime).settings.enable == enabled {
            Switch::Keep
        } else if enabled {
            Switch::Start
        } else {
            Switch::Stop
        }),
{
    if runtime.settings.enable == enabled {
        return Switch::Keep;
    }
    runtime.settings.enable = enabled;
    runtime.state.dirty = true;
    if enabled {
        Switch::Start
    } else {
        Switch::Stop
    }
}

} // verus!
