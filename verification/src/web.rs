//! What the HTTP endpoints of the plugin do to the runtime and what they answer,
//! and how a downloaded subscription is named.

use vstd::prelude::*;
use std::collections::HashMap;
use crate::control::{failure, ClashError, ClashErrorKind, ControlRuntime, FailedStep, RuntimeView};
use crate::helper::{gen_random_name, get_file_path, is_ascii_alphanumeric, local_file_path, subconverter_url, subconverter_request, subconverter_rules};
use crate::settings::{EnhancedMode, SettingsView, Subscription, SubscriptionView, subscriptions_view};
use crate::text::{has_suffix, ends_with, split_first, split_second, split_last, remove_char, without_char, first_piece, second_piece, last_piece, first_occurrence};
use vstd::string::StringSliceAdditionalSpecFns;
use crate::paths::{join_path, joined, final_component, has_plain_parent, before_last_segment};

verus! {

/// Form of a subscription download request: the link, and whether it goes through the
/// subscription converter.
pub struct GenLinkParams {
    pub link: String,
    pub subconv: bool,
}

/// Form that switches Steam's servers around the proxy.
pub struct SkipProxyParams {
    pub skip_proxy: bool,
}

/// Form that switches remote access to the controller.
pub struct AllowRemoteAccessParams {
    pub allow_remote_access: bool,
}

/// Form that switches replacing the profile's DNS settings.
pub struct OverrideDNSParams {
    pub override_dns: bool,
}

/// Form that chooses the DNS mode.
pub struct EnhancedModeParams {
    pub enhanced_mode: EnhancedMode,
}

/// Answer to a download or reload request.
pub struct GenLinkResponse {
    pub status_code: u16,
    pub message: String,
}

/// Answer to switching Steam's servers around the proxy.
pub struct SkipProxyResponse {
    pub status_code: u16,
    pub message: String,
}

/// Answer to a change of the DNS or access settings.
pub struct OverrideDNSResponse {
    pub status_code: u16,
    pub message: String,
}

/// Query asking for the link stored under a code.
pub struct GetLinkParams {
    pub code: u16,
}

/// Answer with the link stored under a code, if any.
pub struct GetLinkResponse {
    pub status_code: u16,
    pub link: Option<String>,
}

/// Answer with the configurable options.
pub struct GetConfigResponse {
    pub status_code: u16,
    pub skip_proxy: bool,
    pub override_dns: bool,
    pub enhanced_mode: EnhancedMode,
    pub allow_remote_access: bool,
}

/// Answer with the device's address on the local network, if known.
pub struct GetLocalIpAddressResponse {
    pub status_code: u16,
    pub ip: Option<String>,
}

/// What the HTTP endpoints share: links stored under codes, and the runtime.
pub struct AppState {
    pub link_table: HashMap<u16, String>,
    pub runtime: ControlRuntime,
}

/// The message of a successful settings change.
pub open spec fn changed_message() -> Seq<char> {
    "\u{4fee}\u{6539}\u{6210}\u{529f}"@
}

/// The message of a successful download.
pub open spec fn downloaded_message() -> Seq<char> {
    "\u{4e0b}\u{8f7d}\u{6210}\u{529f}"@
}

/// The message of a successful reload.
pub open spec fn reloaded_message() -> Seq<char> {
    "\u{91cd}\u{8f7d}\u{6210}\u{529f}"@
}

fn changed_answer() -> (r: OverrideDNSResponse)
    ensures
        r.status_code == 200,
        r.message@ == changed_message(),
{
    OverrideDNSResponse { status_code: 200, message: String::from_str("\u{4fee}\u{6539}\u{6210}\u{529f}") }
}

/// One setting changed and the settings are to be saved.
pub open spec fn with_settings(r: RuntimeView, s: SettingsView) -> RuntimeView {
    RuntimeView { settings: s, dirty: true, ..r }
}

/// Switches Steam's servers around the proxy.
pub fn skip_proxy(runtime: &mut ControlRuntime, params: SkipProxyParams) -> (r: SkipProxyResponse)
    ensures
        final(runtime)@ == with_settings(
            old(runtime)@,
            SettingsView { skip_proxy: params.skip_proxy, ..old(runtime)@.settings },
        ),
        r.status_code == 200,
        r.message@ == changed_message(),
{
    runtime.settings.skip_proxy = params.skip_proxy;
    runtime.state.dirty = true;
    let a = changed_answer();
    SkipProxyResponse { status_code: a.status_code, message: a.message }
}

/// Switches replacing the profile's DNS settings.
pub fn override_dns(runtime: &mut ControlRuntime, params: OverrideDNSParams) -> (r: OverrideDNSResponse)
    ensures
        final(runtime)@ == with_settings(
            old(runtime)@,
            SettingsView { override_dns: params.override_dns, ..old(runtime)@.settings },
        ),
        r.status_code == 200,
        r.message@ == changed_message(),
{
    runtime.settings.override_dns = params.override_dns;
    runtime.state.dirty = true;
    changed_answer()
}

/// Switches remote access to the controller.
pub fn allow_remote_access(runtime: &mut ControlRuntime, params: AllowRemoteAccessParams) -> (r: OverrideDNSResponse)
    ensures
        final(runtime)@ == with_settings(
            old(runtime)@,
            SettingsView { allow_remote_access: params.allow_remote_access, ..old(runtime)@.settings },
        ),
        r.status_code == 200,
        r.message@ == changed_message(),
{
    runtime.settings.allow_remote_access = params.allow_remote_access;
    runtime.state.dirty = true;
    changed_answer()
}

/// Chooses the DNS mode.
pub fn enhanced_mode(runtime: &mut ControlRuntime, params: EnhancedModeParams) -> (r: OverrideDNSResponse)
    ensures
        final(runtime)@ == with_settings(
            old(runtime)@,
            SettingsView { enhanced_mode: params.enhanced_mode, ..old(runtime)@.settings },
        ),
        r.status_code == 200,
        r.message@ == changed_message(),
{
    runtime.settings.enhanced_mode = params.enhanced_mode;
    runtime.state.dirty = true;
    changed_answer()
}

/// The configurable options.
pub fn get_config(runtime: &ControlRuntime) -> (r: GetConfigResponse)
    ensures
        r.status_code == 200,
        r.skip_proxy == runtime.settings.skip_proxy,
        r.override_dns == runtime.settings.override_dns,
        r.enhanced_mode == runtime.settings.enhanced_mode,
        r.allow_remote_access == runtime.settings.allow_remote_access,
{
    GetConfigResponse {
        skip_proxy: runtime.settings.skip_proxy,
        override_dns: runtime.settings.override_dns,
        enhanced_mode: runtime.settings.enhanced_mode,
        allow_remote_access: runtime.settings.allow_remote_access,
        status_code: 200,
    }
}

/// The link stored under the code asked for: 200 with the link, or 404 with none.
pub fn get_link(state: &AppState, info: GetLinkParams) -> (r: GetLinkResponse)
    ensures
        state.link_table@.contains_key(info.code) ==> (r.status_code == 200 && r.link == Some(
            state.link_table@[info.code],
        )),
        !state.link_table@.contains_key(info.code) ==> r.status_code == 404 && r.link is None,
{
    broadcast use vstd::std_specs::hash::group_hash_axioms;

    match state.link_table.get(&info.code) {
        Some(x) => GetLinkResponse { link: Some(x.clone()), status_code: 200 },
        None => GetLinkResponse { link: None, status_code: 404 },
    }
}

/// The answer to an address lookup: 200 with the address when it was found, 404 otherwise.
pub fn get_local_web_address(ip: Option<String>) -> (r: GetLocalIpAddressResponse)
    ensures
        r.ip == ip,
        r.status_code == (if ip is Some {
            200u16
        } else {
            404u16
        }),
{
    match ip {
        Some(x) => GetLocalIpAddressResponse { status_code: 200, ip: Some(x) },
        None => GetLocalIpAddressResponse { status_code: 404, ip: None },
    }
}

/// The answer to a successful download.
pub fn downloaded_response() -> (r: GenLinkResponse)
    ensures
        r.status_code == 200,
        r.message@ == downloaded_message(),
{
    GenLinkResponse { status_code: 200, message: String::from_str("\u{4e0b}\u{8f7d}\u{6210}\u{529f}") }
}

/// The answer to a successful reload.
pub fn reloaded_response() -> (r: GenLinkResponse)
    ensures
        r.status_code == 200,
        r.message@ == reloaded_message(),
{
    GenLinkResponse { status_code: 200, message: String::from_str("\u{91cd}\u{8f7d}\u{6210}\u{529f}") }
}

/// Where a subscription download comes from.
pub enum DownloadSource {
    /// A file on the device.
    Local(String),
    /// A URL to fetch.
    Remote(String),
}

/// Where the subscription `link` is fetched from: a `file://` link names a local file;
/// any other link is fetched, through the converter when `subconv` is set.
pub fn download_source(params: &GenLinkParams) -> (r: DownloadSource)
    ensures
        match local_file_path(params.link@) {
            Some(p) => r matches DownloadSource::Local(q) && q@ == p,
            None => r matches DownloadSource::Remote(u) && u@ == (if params.subconv {
                subconverter_request(params.link@, vstd::utf8::encode_utf8(params.link@), subconverter_rules().spec_bytes())
            } else {
                params.link@
            }),
        },
{
    match get_file_path(params.link.clone()) {
        Some(p) => DownloadSource::Local(p),
        None => {
            if params.subconv {
                DownloadSource::Remote(subconverter_url(params.link.as_str()))
            } else {
                DownloadSource::Remote(params.link.clone())
            }
        },
    }
}

/// The name that `String::to_lowercase` gives `s` in lower case.
pub uninterp spec fn lowercase_of(s: Seq<char>) -> Seq<char>;

/// `str::to_lowercase`: the lower-case form of `s` by the Unicode lower-case mapping.
/// The mapping itself is not stated; it is named by [`lowercase_of`].
#[verifier::external_body]
fn to_lowercase(s: &str) -> (r: String)
    ensures
        r@ == lowercase_of(s@),
{
    s.to_lowercase()
}

/// `std::path::Path::file_name`: the final component of `path` read as a Unix path, `None`
/// when the path ends in `..` or has no component. Repeated separators, a trailing
/// separator and `.` segments are passed over, as the documentation of `Path::components`
/// says; [`final_component`] states the result.
#[verifier::external_body]
fn path_file_name(path: &str) -> (r: Option<String>)
    ensures
        match r {
            Some(n) => final_component(path@) == Some(n@),
            None => final_component(path@) is None,
        },
{
    match std::path::Path::new(path).file_name() {
        Some(n) => n.to_str().map(String::from),
        None => None,
    }
}

/// Whether a lower-cased file name ends in a YAML extension.
pub open spec fn has_yaml_extension(lowered: Seq<char>) -> bool {
    has_suffix(lowered, ".yaml"@) || has_suffix(lowered, ".yml"@)
}

/// `name` as a YAML file name: kept when its lower-case form `lowered` ends in `.yaml` or
/// `.yml`, with `.yaml` appended otherwise.
pub open spec fn yaml_file_name(name: Seq<char>, lowered: Seq<char>) -> Seq<char> {
    if has_yaml_extension(lowered) {
        name
    } else {
        name + ".yaml"@
    }
}

/// `name` as a YAML file name, given its lower-case form `lowered`.
pub fn with_yaml_extension_given(name: String, lowered: &str) -> (r: String)
    ensures
        r@ == yaml_file_name(name@, lowered@),
{
    if ends_with(lowered, ".yaml") || ends_with(lowered, ".yml") {
        name
    } else {
        let mut out = name;
        out.append(".yaml");
        out
    }
}

/// `name` as a YAML file name.
pub fn with_yaml_extension(name: String) -> (r: String)
    ensures
        r@ == yaml_file_name(name@, lowercase_of(name@)),
{
    let lowered = to_lowercase(name.as_str());
    with_yaml_extension_given(name, lowered.as_str())
}

/// A random file name: five ASCII letters and digits, then `.yaml`.
pub open spec fn is_fresh_file_name(n: Seq<char>) -> bool {
    &&& n.len() == 10
    &&& n.subrange(5, 10) == ".yaml"@
    &&& forall|i: int| 0 <= i < 5 ==> is_ascii_alphanumeric(#[trigger] n[i])
}

/// A random file name for a subscription.
pub fn fresh_subscription_file_name() -> (r: String)
    ensures
        is_fresh_file_name(r@),
{
    let mut name = gen_random_name();
    let ghost random = name@;
    name.append(".yaml");
    proof {
        reveal_strlit(".yaml");
        assert(name@.subrange(5, 10) =~= ".yaml"@);
        assert forall|i: int| 0 <= i < 5 implies is_ascii_alphanumeric(#[trigger] name@[i]) by {
            assert(name@[i] == random[i]);
        }
    }
    name
}

/// The file name a local subscription is stored under: the file's own name as a YAML file
/// name, or a random name when the path has no file name.
pub fn local_subscription_file_name(local_path: &str) -> (r: String)
    ensures
        match final_component(local_path@) {
            Some(n) => r@ == yaml_file_name(n, lowercase_of(n)),
            None => is_fresh_file_name(r@),
        },
{
    match path_file_name(local_path) {
        Some(n) => with_yaml_extension(n),
        None => fresh_subscription_file_name(),
    }
}

/// The file name a `Content-Disposition` header gives: the text after the first
/// `filename=`, up to the next `filename=` and then up to the first `;`, without quotes.
pub open spec fn disposition_file_name(header: Seq<char>) -> Seq<char> {
    without_char(first_piece(second_piece(header, "filename="@), ";"@), '"')
}

/// The file name at the end of a URL: the text after the last `/`, up to the first `?`.
pub open spec fn url_file_name(url: Seq<char>) -> Seq<char> {
    first_piece(last_piece(url, '/'), "?"@)
}

/// The file name a `Content-Disposition` header gives; the header holds `filename=`.
pub fn content_disposition_file_name(header: &str) -> (r: String)
    requires
        first_occurrence(header@, "filename="@, 0) is Some,
    ensures
        r@ == disposition_file_name(header@),
{
    let after = split_second(header, "filename=");
    let before = split_first(after.as_str(), ";");
    remove_char(before.as_str(), '"')
}

/// The file name at the end of `url`.
pub fn file_name_from_url(url: &str) -> (r: String)
    ensures
        r@ == url_file_name(url@),
{
    let last = split_last(url, '/');
    split_first(last.as_str(), "?")
}

/// The name, before the extension check, of a subscription fetched from `url`: the one its
/// `Content-Disposition` header gives, else the one at the end of the URL.
pub open spec fn remote_base_name(content_disposition: Option<Seq<char>>, url: Seq<char>) -> Seq<char> {
    match content_disposition {
        Some(h) => disposition_file_name(h),
        None => url_file_name(url),
    }
}

/// The file name a subscription fetched from `url` is stored under: the name from its
/// `Content-Disposition` header, else from the URL, as a YAML file name; a random name when
/// that is empty. A given header holds `filename=`.
pub fn remote_subscription_file_name(content_disposition: Option<String>, url: &str) -> (r: String)
    requires
        content_disposition matches Some(h) ==> first_occurrence(h@, "filename="@, 0) is Some,
    ensures
        ({
            let base = remote_base_name(
                match content_disposition {
                    Some(h) => Some(h@),
                    None => None,
                },
                url@,
            );
            if base.len() > 0 {
                r@ == yaml_file_name(base, lowercase_of(base))
            } else {
                is_fresh_file_name(r@)
            }
        }),
{
    let base = match content_disposition {
        Some(h) => content_disposition_file_name(h.as_str()),
        None => file_name_from_url(url),
    };
    if base.as_str().unicode_len() == 0 {
        fresh_subscription_file_name()
    } else {
        with_yaml_extension(base)
    }
}

/// The directory part of a path as `std::path::Path::parent` gives it.
pub uninterp spec fn parent_of(path: Seq<char>) -> Option<Seq<char>>;

/// `std::path::Path::parent`: `path` without its final component, `None` when the path
/// is empty or ends in a root. Which prefix that is in general is named by [`parent_of`];
/// stated is the case the documentation's examples show: for `dir/name`, with a plain
/// name and a directory part in plain form, it is `dir`.
#[verifier::external_body]
fn path_parent(path: &str) -> (r: Option<String>)
    ensures
        match r {
            Some(p) => parent_of(path@) == Some(p@),
            None => parent_of(path@) is None,
        },
        path@.len() == 0 ==> r is None,
        match r {
            Some(p) => has_plain_parent(path@) ==> p@ == before_last_segment(path@),
            None => !has_plain_parent(path@),
        },
{
    match std::path::Path::new(path).parent() {
        Some(p) => p.to_str().map(String::from),
        None => None,
    }
}

/// Whether `path` is a random file name, as [`is_fresh_file_name`] describes it, in `dir`.
pub open spec fn is_fresh_path_in(path: Seq<char>, dir: Seq<char>) -> bool {
    exists|g: Seq<char>| is_fresh_file_name(g) && path == #[trigger] joined(dir, g)
}

/// The path a fetched subscription is written to, given the path its name leads to and
/// whether a file is already there: that path when it is free, else a random file name in
/// the same directory. `None` when the path is taken and has no directory part.
pub fn stored_subscription_path(candidate: &str, taken: bool) -> (r: Option<String>)
    ensures
        !taken ==> (r matches Some(p) && p@ == candidate@),
        taken ==> match parent_of(candidate@) {
            Some(dir) => (r matches Some(p) && is_fresh_path_in(p@, dir)),
            None => r is None,
        },
        taken && has_plain_parent(candidate@) ==> (r matches Some(p) && is_fresh_path_in(
            p@,
            before_last_segment(candidate@),
        )),
{
    if !taken {
        return Some(String::from_str(candidate));
    }
    match path_parent(candidate) {
        Some(dir) => {
            let name = fresh_subscription_file_name();
            let p = join_path(dir.as_str(), name.as_str());
            assert(is_fresh_file_name(name@) && p@ == joined(dir@, name@));
            Some(p)
        },
        None => None,
    }
}

/// The error answered when what was fetched is not a usable profile.
pub fn illegal_profile_error() -> (r: ClashError)
    ensures
        r.ErrorKind == ClashErrorKind::ConfigFormatError,
        r.Message@ == "The downloaded subscription is not a legal profile."@,
{
    ClashError::with(
        ClashErrorKind::ConfigFormatError,
        String::from_str("The downloaded subscription is not a legal profile."),
    )
}

/// The error answered when the local file `path` does not exist.
pub fn missing_file_error(path: &str) -> (r: ClashError)
    ensures
        r.ErrorKind == ClashErrorKind::InnerError,
        r.Message@ == "Cannt found file "@ + path@,
{
    let mut message = String::from_str("Cannt found file ");
    message.append(path);
    ClashError::with(ClashErrorKind::InnerError, message)
}

/// The path a subscription is written to, given the path its name leads to and whether a
/// file is already there: a local file's copy goes to that path in any case; a fetched
/// profile avoids a taken path (see [`stored_subscription_path`]).
pub fn store_target(candidate: &str, local: bool, taken: bool) -> (r: Option<String>)
    ensures
        local ==> (r matches Some(p) && p@ == candidate@),
        !local && !taken ==> (r matches Some(p) && p@ == candidate@),
        !local && taken ==> match parent_of(candidate@) {
            Some(dir) => (r matches Some(p) && is_fresh_path_in(p@, dir)),
            None => r is None,
        },
{
    if local {
        Some(String::from_str(candidate))
    } else {
        stored_subscription_path(candidate, taken)
    }
}

/// What the work of an HTTP subscription download reported: the first step that failed,
/// with what the failure said, or where the profile was written.
pub enum WebDownloadEvent {
    /// The local file `path` does not exist.
    FileMissing { path: String },
    /// The local file could not be read.
    FileUnreadable { message: String },
    /// The subscription could not be fetched.
    FetchFailed { message: String },
    /// What was read or fetched is not a usable profile.
    NotAProfile,
    /// The directory for subscriptions could not be created.
    DirectoryFailed { message: String },
    /// The profile could not be written.
    WriteFailed { message: String },
    /// The profile was written to `path`; it came from `url`.
    Stored { path: String, url: String },
}

/// The error an HTTP download answers after the failing step `event`: a missing local
/// file with its own message, an unreadable one as a configuration not found, a failed
/// fetch as a network error, an unusable profile as a format error, a failed directory or
/// write as an inner error.
pub open spec fn web_download_error(event: WebDownloadEvent, e: ClashError) -> bool {
    match event {
        WebDownloadEvent::FileMissing { path } => e.ErrorKind == ClashErrorKind::InnerError
            && e.Message@ == "Cannt found file "@ + path@,
        WebDownloadEvent::FileUnreadable { message } => e.ErrorKind == ClashErrorKind::ConfigNotFound
            && e.Message@ == message@,
        WebDownloadEvent::FetchFailed { message } => e.ErrorKind == ClashErrorKind::NetworkError
            && e.Message@ == message@,
        WebDownloadEvent::NotAProfile => e.ErrorKind == ClashErrorKind::ConfigFormatError
            && e.Message@ == "The downloaded subscription is not a legal profile."@,
        WebDownloadEvent::DirectoryFailed { message } => e.ErrorKind == ClashErrorKind::InnerError
            && e.Message@ == message@,
        WebDownloadEvent::WriteFailed { message } => e.ErrorKind == ClashErrorKind::InnerError
            && e.Message@ == message@,
        WebDownloadEvent::Stored { .. } => false,
    }
}

/// Ends an HTTP subscription download after `event`: a stored profile joins the
/// subscriptions, the settings are to be saved and the download is answered as done; after
/// a failed step nothing changes and the step's error is answered.
pub fn finish_web_download(runtime: &mut ControlRuntime, event: WebDownloadEvent) -> (r: Result<
    GenLinkResponse,
    ClashError,
>)
    ensures
        match event {
            WebDownloadEvent::Stored { path, url } => {
                &&& final(runtime)@ == add_step(old(runtime)@, path@, url@)
                &&& r matches Ok(resp)
                &&& resp.status_code == 200
                &&& resp.message@ == downloaded_message()
            },
            _ => {
                &&& final(runtime)@ == old(runtime)@
                &&& r matches Err(e)
                &&& web_download_error(event, e)
            },
        },
{
    match event {
        WebDownloadEvent::FileMissing { path } => Err(missing_file_error(path.as_str())),
        WebDownloadEvent::FileUnreadable { message } => Err(failure(FailedStep::ReadProfile, message)),
        WebDownloadEvent::FetchFailed { message } => Err(failure(FailedStep::Download, message)),
        WebDownloadEvent::NotAProfile => Err(illegal_profile_error()),
        WebDownloadEvent::DirectoryFailed { message } => Err(failure(FailedStep::CreateDirectory, message)),
        WebDownloadEvent::WriteFailed { message } => Err(failure(FailedStep::WriteProfile, message)),
        WebDownloadEvent::Stored { path, url } => {
            add_subscription(runtime, path, url);
            Ok(downloaded_response())
        },
    }
}

/// A stored subscription joins the list and the settings are to be saved.
pub open spec fn add_step(r: RuntimeView, path: Seq<char>, url: Seq<char>) -> RuntimeView {
    with_settings(
        r,
        SettingsView {
            subscriptions: r.settings.subscriptions.push(SubscriptionView { path, url }),
            ..r.settings
        },
    )
}

/// Records the subscription stored at `path` and fetched from `url`.
pub fn add_subscription(runtime: &mut ControlRuntime, path: String, url: String)
    ensures
        final(runtime)@ == add_step(old(runtime)@, path@, url@),
{
    let ghost before = runtime.settings.subscriptions@;
    runtime.settings.subscriptions.push(Subscription::new(path, url));
    runtime.state.dirty = true;
    assert(subscriptions_view(runtime.settings.subscriptions@) =~= subscriptions_view(before).push(
        runtime.settings.subscriptions@.last()@,
    ));
}


/// Every change an HTTP endpoint makes to the settings is saved by the next saving step:
/// storing a subscription and each of the four option switches.
pub proof fn lemma_web_changes_are_saved(r: RuntimeView, path: Seq<char>, url: Seq<char>, s: SettingsView)
    ensures
        crate::control::persist_step(add_step(r, path, url)).1 == Some(
            (crate::paths::joined(r.home, crate::settings::settings_file()), add_step(r, path, url).settings),
        ),
        crate::control::persist_step(with_settings(r, s)).1 == Some(
            (crate::paths::joined(r.home, crate::settings::settings_file()), s),
        ),
{
}

} // verus!
