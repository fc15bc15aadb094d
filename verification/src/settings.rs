//! Persistent settings, subscriptions and the in-memory state around them.

use vstd::prelude::*;
use crate::paths::{join_path, joined};

verus! {

/// How Clash's DNS resolves names.
#[derive(Debug, Clone, Copy, PartialEq, Eq, Structural)]
pub enum EnhancedMode {
    RedirHost,
    FakeIp,
}

/// A downloaded subscription: where its profile is stored and where it came from.
#[derive(Debug)]
pub struct Subscription {
    pub path: String,
    pub url: String,
}

/// The mathematical form of a [`Subscription`].
pub struct SubscriptionView {
    pub path: Seq<char>,
    pub url: Seq<char>,
}

impl View for Subscription {
    type V = SubscriptionView;

    open spec fn view(&self) -> SubscriptionView {
        SubscriptionView { path: self.path@, url: self.url@ }
    }
}

impl Subscription {
    /// A subscription stored at `path` and downloaded from `url`.
    pub fn new(path: String, url: String) -> (r: Self)
        ensures
            r.path == path,
            r.url == url,
    {
        Self { path: path, url: url }
    }

    /// A copy of this subscription.
    pub fn duplicate(&self) -> (r: Self)
        ensures
            r@ == self@,
    {
        Self { path: self.path.clone(), url: self.url.clone() }
    }
}

/// The settings that are saved between runs.
pub struct Settings {
    pub enable: bool,
    pub tun_mode: bool,
    pub skip_proxy: bool,
    pub override_dns: bool,
    pub allow_remote_access: bool,
    pub enhanced_mode: EnhancedMode,
    pub current_sub: String,
    pub subscriptions: Vec<Subscription>,
}

/// The mathematical form of [`Settings`].
pub struct SettingsView {
    pub enable: bool,
    pub tun_mode: bool,
    pub skip_proxy: bool,
    pub override_dns: bool,
    pub allow_remote_access: bool,
    pub enhanced_mode: EnhancedMode,
    pub current_sub: Seq<char>,
    pub subscriptions: Seq<SubscriptionView>,
}

/// The mathematical form of each subscription of a list.
pub open spec fn subscriptions_view(subs: Seq<Subscription>) -> Seq<SubscriptionView> {
    subs.map_values(|s: Subscription| s@)
}

impl View for Settings {
    type V = SettingsView;

    open spec fn view(&self) -> SettingsView {
        SettingsView {
            enable: self.enable,
            tun_mode: self.tun_mode,
            skip_proxy: self.skip_proxy,
            override_dns: self.override_dns,
            allow_remote_access: self.allow_remote_access,
            enhanced_mode: self.enhanced_mode,
            current_sub: self.current_sub@,
            subscriptions: subscriptions_view(self.subscriptions@),
        }
    }
}

/// Whether Clash is enabled when nothing was saved.
pub fn default_enable() -> (r: bool)
    ensures
        r == false,
{
    false
}

/// Whether TUN mode is on when nothing was saved.
pub fn default_tun_mode() -> (r: bool)
    ensures
        r == true,
{
    true
}

/// Whether Steam's own servers bypass the proxy when nothing was saved.
pub fn default_skip_proxy() -> (r: bool)
    ensures
        r == true,
{
    true
}

/// Whether the plugin's DNS settings replace the profile's when nothing was saved.
pub fn default_override_dns() -> (r: bool)
    ensures
        r == true,
{
    true
}

/// Whether the controller accepts remote connections when nothing was saved.
pub fn default_allow_remote_access() -> (r: bool)
    ensures
        r == false,
{
    false
}

/// The DNS mode when nothing was saved.
pub fn default_enhanced_mode() -> (r: EnhancedMode)
    ensures
        r == EnhancedMode::FakeIp,
{
    EnhancedMode::FakeIp
}

/// The profile shipped with the plugin, relative to the plugin's directory.
pub open spec fn bundled_profile() -> Seq<char> {
    "bin/core/config.yaml"@
}

/// The bundled profile under the plugin directory `cwd`.
pub fn default_current_sub(cwd: &str) -> (r: String)
    ensures
        r@ == joined(cwd@, bundled_profile()),
{
    join_path(cwd, "bin/core/config.yaml")
}

/// No subscriptions.
pub fn default_subscriptions() -> (r: Vec<Subscription>)
    ensures
        r@.len() == 0,
{
    Vec::new()
}

/// A copy of `subs`.
pub fn copy_subscriptions(subs: &Vec<Subscription>) -> (r: Vec<Subscription>)
    ensures
        subscriptions_view(r@) == subscriptions_view(subs@),
{
    let mut out: Vec<Subscription> = Vec::new();
    let mut i: usize = 0;
    while i < subs.len()
        invariant
            i <= subs@.len(),
            out@.len() == i,
            forall|j: int| 0 <= j < i ==> (#[trigger] out@[j])@ == subs@[j]@,
        decreases subs@.len() - i,
    {
        out.push(subs[i].duplicate());
        i = i + 1;
    }
    assert(subscriptions_view(out@) =~= subscriptions_view(subs@));
    out
}

impl Settings {
    /// The settings used when none were saved, for the plugin directory `cwd`.
    pub fn defaults(cwd: &str) -> (r: Self)
        ensures
            r@ == (SettingsView {
                enable: false,
                tun_mode: true,
                skip_proxy: true,
                override_dns: true,
                allow_remote_access: false,
                enhanced_mode: EnhancedMode::FakeIp,
                current_sub: joined(cwd@, bundled_profile()),
                subscriptions: Seq::empty(),
            }),
    {
        let r = Settings {
            enable: default_enable(),
            tun_mode: default_tun_mode(),
            skip_proxy: default_skip_proxy(),
            override_dns: default_override_dns(),
            allow_remote_access: default_allow_remote_access(),
            enhanced_mode: default_enhanced_mode(),
            current_sub: default_current_sub(cwd),
            subscriptions: default_subscriptions(),
        };
        assert(subscriptions_view(r.subscriptions@) =~= Seq::empty());
        r
    }

    /// A copy of these settings.
    pub fn duplicate(&self) -> (r: Self)
        ensures
            r@ == self@,
    {
        Settings {
            enable: self.enable,
            tun_mode: self.tun_mode,
            skip_proxy: self.skip_proxy,
            override_dns: self.override_dns,
            allow_remote_access: self.allow_remote_access,
            enhanced_mode: self.enhanced_mode,
            current_sub: self.current_sub.clone(),
            subscriptions: copy_subscriptions(&self.subscriptions),
        }
    }
}

/// Where the plugin keeps its data, and whether the settings still have to be saved.
pub struct State {
    pub home: String,
    pub dirty: bool,
}

/// The home directory used when none is known.
pub open spec fn default_home() -> Seq<char> {
    "/home/deck"@
}

impl Default for State {
    fn default() -> (r: Self)
        ensures
            r.home@ == default_home(),
            r.dirty,
    {
        State { home: String::from_str("/home/deck"), dirty: true }
    }
}

impl State {
    /// The state for the home directory `home`, falling back to the default one; the
    /// settings start out unsaved.
    pub fn new(home: Option<String>) -> (r: Self)
        ensures
            r.home@ == (match home {
                Some(h) => h@,
                None => default_home(),
            }),
            r.dirty,
    {
        let def = State::default();
        match home {
            Some(h) => State { home: h, dirty: true },
            None => def,
        }
    }
}

/// The settings file, relative to the home directory.
pub open spec fn settings_file() -> Seq<char> {
    ".config/tomoon/tomoon.json"@
}

/// Where the settings of the home directory `home` are saved.
pub fn settings_path(home: &str) -> (r: String)
    ensures
        r@ == joined(home@, settings_file()),
{
    join_path(home, ".config/tomoon/tomoon.json")
}

/// The subscription directory, relative to the home directory.
pub open spec fn subscriptions_dir() -> Seq<char> {
    ".config/tomoon/subs/"@
}

/// Where the subscriptions of the home directory `home` are stored.
pub fn subscriptions_path(home: &str) -> (r: String)
    ensures
        r@ == joined(home@, subscriptions_dir()),
{
    join_path(home, ".config/tomoon/subs/")
}

} // verus!
