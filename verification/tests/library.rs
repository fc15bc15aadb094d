use tomoon::clashdeck;
use std::collections::HashMap;

use tomoon::api::{
    clash_status_line, create_debug_log, delete_sub, download_sub, finish_download_sub,
    finish_set_clash_status, finish_update_subs, get_clash_status, get_current_sub,
    get_download_status, get_running_status, get_update_status, set_clash_status, set_sub,
    unreadable_file_note, update_subs, ClashCommand, DownloadOutcome,
};
use tomoon::control::{
    get_decky_data_dir, launch_plan, Clash, ClashError, ClashErrorKind, ControlRuntime,
    DownloadStatus, RunningStatus,
};
use tomoon::helper::{gen_random_name, get_file_path, is_clash_running, subconverter_url};
use tomoon::paths::join_path;
use tomoon::settings::{
    default_current_sub, settings_path, subscriptions_path, EnhancedMode, Settings, State,
    Subscription,
};
use tomoon::text::{find_from, remove_char};
use tomoon::web::{
    add_subscription, allow_remote_access, content_disposition_file_name, download_source,
    downloaded_response, enhanced_mode, file_name_from_url, fresh_subscription_file_name,
    get_config, get_link, get_local_web_address, illegal_profile_error,
    local_subscription_file_name, missing_file_error, override_dns, reloaded_response,
    remote_subscription_file_name, skip_proxy, with_yaml_extension, AllowRemoteAccessParams,
    AppState, DownloadSource, EnhancedModeParams, GenLinkParams, GetLinkParams, OverrideDNSParams,
    SkipProxyParams,
};

fn runtime_with(subs: &[(&str, &str)], current: &str) -> ControlRuntime {
    let mut settings = Settings::defaults("/plugin");
    settings.current_sub = current.to_string();
    for (p, u) in subs {
        settings.subscriptions.push(Subscription::new(p.to_string(), u.to_string()));
    }
    let mut state = State::new(Some("/home/deck".to_string()));
    state.dirty = false;
    ControlRuntime::new(settings, state, Clash::new_in("/plugin"))
}

#[test]
fn join_path_adds_one_separator() {
    assert_eq!(join_path("/home/deck", ".config/x"), "/home/deck/.config/x");
    assert_eq!(join_path("/home/deck/", ".config/x"), "/home/deck/.config/x");
    assert_eq!(join_path("", "a"), "a");
    assert_eq!(join_path("/a", "/b"), "/b");
    assert_eq!(join_path("/a", ""), "/a/");
}

#[test]
fn join_path_matches_pathbuf() {
    for (base, rel) in [("/home/deck", "x/y"), ("rel", "z"), ("/", "a"), ("/a/", "/abs"), ("a", "")] {
        let expected = std::path::PathBuf::from(base).join(rel);
        assert_eq!(join_path(base, rel), expected.to_str().unwrap());
    }
}

#[test]
fn settings_locations() {
    assert_eq!(settings_path("/home/deck"), "/home/deck/.config/tomoon/tomoon.json");
    assert_eq!(subscriptions_path("/home/deck"), "/home/deck/.config/tomoon/subs/");
    assert_eq!(default_current_sub("/plugin"), "/plugin/bin/core/config.yaml");
    assert_eq!(get_decky_data_dir("/plugin"), "/plugin/../../data/tomoon");
}

#[test]
fn default_settings_and_state() {
    let s = Settings::defaults("/p");
    assert!(!s.enable);
    assert!(s.tun_mode);
    assert!(s.skip_proxy);
    assert!(s.override_dns);
    assert!(!s.allow_remote_access);
    assert_eq!(s.enhanced_mode, EnhancedMode::FakeIp);
    assert_eq!(s.current_sub, "/p/bin/core/config.yaml");
    assert!(s.subscriptions.is_empty());
    let st = State::default();
    assert_eq!(st.home, "/home/deck");
    assert!(st.dirty);
    assert_eq!(State::new(None).home, "/home/deck");
    assert_eq!(State::new(Some("./tmp".to_string())).home, "./tmp");
}

#[test]
fn file_urls_name_local_files() {
    assert_eq!(get_file_path("file:///a/b.yaml".to_string()), Some("/a/b.yaml".to_string()));
    assert_eq!(get_file_path("https://x/file:///a".to_string()), None);
    assert_eq!(get_file_path("file:/a".to_string()), None);
    assert_eq!(get_file_path("file://".to_string()), Some(String::new()));
}

#[test]
fn clash_process_detection() {
    assert!(!is_clash_running(&vec![]));
    assert!(!is_clash_running(&vec!["clash-meta".to_string(), "Clash".to_string()]));
    assert!(is_clash_running(&vec!["bash".to_string(), "clash".to_string()]));
}

#[test]
fn random_names_are_five_alphanumerics() {
    let n = gen_random_name();
    assert_eq!(n.len(), 5);
    assert!(n.chars().all(|c| c.is_ascii_alphanumeric()));
    let f = fresh_subscription_file_name();
    assert_eq!(f.len(), 10);
    assert!(f.ends_with(".yaml"));
}

#[test]
fn subconverter_url_encodes_both_links() {
    let u = subconverter_url("https://example.com/sub?token=a b&x=~_.-");
    assert_eq!(
        u,
        "http://127.0.0.1:25500/sub?target=clash&url=https%3A%2F%2Fexample.com%2Fsub%3Ftoken%3Da%20b%26x%3D~_.-&insert=false&config=http%3A%2F%2F127.0.0.1%3A55556%2FACL4SSR_Online.ini&emoji=true&list=false&tfo=false&scv=true&fdn=false&expand=true&sort=false&new_name=true"
    );
    let v = subconverter_url("é");
    assert!(v.contains("url=%C3%A9&"));
}

#[test]
fn text_helpers() {
    assert_eq!(find_from("abcabc", "bc", 0), Some(1));
    assert_eq!(find_from("abcabc", "bc", 2), Some(4));
    assert_eq!(find_from("abc", "x", 0), None);
    assert_eq!(remove_char("\"a\"b\"", '"'), "ab");
}

#[test]
fn file_name_from_headers_and_urls() {
    assert_eq!(content_disposition_file_name("attachment; filename=\"My Sub.yaml\""), "My Sub.yaml");
    assert_eq!(content_disposition_file_name("attachment; filename=abc; size=3"), "abc");
    assert_eq!(content_disposition_file_name("filename=a filename=b"), "a ");
    assert_eq!(file_name_from_url("https://host/path/profile.yml?token=1"), "profile.yml");
    assert_eq!(file_name_from_url("https://host/"), "");
    assert_eq!(file_name_from_url("noslash?x"), "noslash");
}

#[test]
fn yaml_extensions() {
    assert_eq!(with_yaml_extension("a.yaml".to_string()), "a.yaml");
    assert_eq!(with_yaml_extension("A.YML".to_string()), "A.YML");
    assert_eq!(with_yaml_extension("a.txt".to_string()), "a.txt.yaml");
    assert_eq!(with_yaml_extension("".to_string()), ".yaml");
}

#[test]
fn subscription_file_names() {
    assert_eq!(local_subscription_file_name("/home/deck/b.yaml"), "b.yaml");
    assert_eq!(local_subscription_file_name("/home/deck/b"), "b.yaml");
    let random = local_subscription_file_name("/home/..");
    assert_eq!(random.len(), 10);
    assert_eq!(
        remote_subscription_file_name(Some("attachment; filename=\"clash\"".to_string()), "https://x/y"),
        "clash.yaml"
    );
    assert_eq!(remote_subscription_file_name(None, "https://x/sub.YAML?a=b"), "sub.YAML");
    let random = remote_subscription_file_name(None, "https://x/");
    assert_eq!(random.len(), 10);
    assert!(random.ends_with(".yaml"));
}

#[test]
fn download_sources() {
    match download_source(&GenLinkParams { link: "file:///tmp/a.yaml".to_string(), subconv: true }) {
        DownloadSource::Local(p) => assert_eq!(p, "/tmp/a.yaml"),
        DownloadSource::Remote(_) => panic!("a file:// link is local"),
    }
    match download_source(&GenLinkParams { link: "https://a/b".to_string(), subconv: false }) {
        DownloadSource::Remote(u) => assert_eq!(u, "https://a/b"),
        DownloadSource::Local(_) => panic!("an https link is remote"),
    }
    match download_source(&GenLinkParams { link: "https://a/b".to_string(), subconv: true }) {
        DownloadSource::Remote(u) => assert!(u.starts_with("http://127.0.0.1:25500/sub?target=clash&url=https%3A%2F%2Fa%2Fb&")),
        DownloadSource::Local(_) => panic!("an https link is remote"),
    }
}

#[test]
fn error_values() {
    let e = ClashError::new();
    assert_eq!(e.Message, "");
    assert_eq!(e.ErrorKind, ClashErrorKind::Default);
    assert_eq!(e.http_status(), 500);
    assert_eq!(e.describe(), "Error Kind: Default, Error Message: )");
    let nf = ClashError::with(ClashErrorKind::ConfigNotFound, "gone".to_string());
    assert_eq!(nf.http_status(), 404);
    assert_eq!(nf.describe(), format!("Error Kind: {:?}, Error Message: {})", nf.ErrorKind, nf.Message));
    for kind in [
        ClashErrorKind::ConfigFormatError,
        ClashErrorKind::NetworkError,
        ClashErrorKind::InnerError,
        ClashErrorKind::CpDbError,
    ] {
        let e = ClashError::with(kind, "m".to_string());
        assert_eq!(e.http_status(), 500);
        assert_eq!(e.describe(), format!("Error Kind: {:?}, Error Message: m)", kind));
    }
    let illegal = illegal_profile_error();
    assert_eq!(illegal.ErrorKind, ClashErrorKind::ConfigFormatError);
    assert_eq!(illegal.Message, "The downloaded subscription is not a legal profile.");
    let missing = missing_file_error("/x");
    assert_eq!(missing.ErrorKind, ClashErrorKind::InnerError);
    assert_eq!(missing.Message, "Cannt found file /x");
}

#[test]
fn status_names() {
    for s in [RunningStatus::Loading, RunningStatus::Failed, RunningStatus::Success] {
        assert_eq!(s.to_text(), format!("{:?}", s));
    }
    assert_eq!(RunningStatus::Unset.to_text(), "None");
    for s in [DownloadStatus::Downloading, DownloadStatus::Failed, DownloadStatus::Success, DownloadStatus::Error] {
        assert_eq!(s.to_text(), format!("{:?}", s));
    }
    assert_eq!(DownloadStatus::Unset.to_text(), "None");
}

#[test]
fn persist_saves_once() {
    let mut rt = runtime_with(&[], "/p.yaml");
    assert!(rt.persist().is_none());
    rt.state.dirty = true;
    let req = rt.persist().expect("unsaved settings are handed out");
    assert_eq!(req.path, "/home/deck/.config/tomoon/tomoon.json");
    assert_eq!(req.settings.current_sub, "/p.yaml");
    assert!(!rt.state.dirty);
    assert!(rt.persist().is_none());
}

#[test]
fn recover_after_unclean_exit() {
    let mut rt = runtime_with(&[], "/p.yaml");
    rt.settings.enable = true;
    assert!(rt.recover(false));
    assert!(!rt.settings.enable);
    assert!(!rt.recover(false));
    let mut rt = runtime_with(&[], "/p.yaml");
    rt.settings.enable = true;
    assert!(!rt.recover(true));
    assert!(rt.settings.enable);
}

#[test]
fn clash_status_is_corrected() {
    let mut rt = runtime_with(&[], "/p.yaml");
    rt.settings.enable = true;
    assert_eq!(get_clash_status(&mut rt, false), false);
    assert!(!rt.settings.enable);
    rt.settings.enable = true;
    assert_eq!(get_clash_status(&mut rt, true), true);
    assert!(rt.settings.enable);
}

#[test]
fn status_change_start_success() {
    let mut rt = runtime_with(&[("/s/a.yaml", "https://a")], "/p.yaml");
    match set_clash_status(&mut rt, true) {
        ClashCommand::Start { config, skip_proxy, override_dns, enhanced_mode } => {
            assert_eq!(config, "/p.yaml");
            assert!(skip_proxy);
            assert!(override_dns);
            assert_eq!(enhanced_mode, EnhancedMode::FakeIp);
        }
        _ => panic!("enabling starts Clash"),
    }
    assert_eq!(rt.running_status, RunningStatus::Loading);
    assert_eq!(finish_set_clash_status(&mut rt, true, true), true);
    assert!(rt.settings.enable);
    assert!(rt.state.dirty);
    assert_eq!(rt.running_status, RunningStatus::Success);
    assert_eq!(get_running_status(&rt), "Success");
    match set_clash_status(&mut rt, true) {
        ClashCommand::Keep => {}
        _ => panic!("the status already holds"),
    }
}

#[test]
fn status_change_failure_and_fallback() {
    let mut rt = runtime_with(&[("/s/a.yaml", "https://a")], "");
    match set_clash_status(&mut rt, true) {
        ClashCommand::Start { config, .. } => assert_eq!(config, "/s/a.yaml"),
        _ => panic!("the first subscription is used"),
    }
    assert_eq!(rt.settings.current_sub, "/s/a.yaml");
    assert_eq!(finish_set_clash_status(&mut rt, true, false), false);
    assert_eq!(rt.running_status, RunningStatus::Failed);
    assert!(!rt.settings.enable);

    let mut rt = runtime_with(&[], "");
    match set_clash_status(&mut rt, true) {
        ClashCommand::NoProfile => {}
        _ => panic!("nothing to run"),
    }
    assert_eq!(rt.running_status, RunningStatus::Failed);

    let mut rt = runtime_with(&[], "/p.yaml");
    rt.settings.enable = true;
    match set_clash_status(&mut rt, false) {
        ClashCommand::Stop => {}
        _ => panic!("disabling stops Clash"),
    }
    assert_eq!(finish_set_clash_status(&mut rt, false, true), false);
    assert!(!rt.settings.enable);
}

#[test]
fn download_lifecycle() {
    let mut rt = runtime_with(&[], "/p.yaml");
    assert_eq!(get_download_status(&rt), "None");
    assert_eq!(download_sub(&mut rt), "/home/deck/.config/tomoon/subs/");
    assert_eq!(get_download_status(&rt), "Downloading");
    finish_download_sub(&mut rt, DownloadOutcome::Unsaved);
    assert_eq!(get_download_status(&rt), "Downloading");
    finish_download_sub(&mut rt, DownloadOutcome::Rejected);
    assert_eq!(rt.downlaod_status, DownloadStatus::Error);
    finish_download_sub(&mut rt, DownloadOutcome::Unreachable);
    assert_eq!(rt.downlaod_status, DownloadStatus::Failed);
    finish_download_sub(
        &mut rt,
        DownloadOutcome::Saved { path: "/s/x.yaml".to_string(), url: "https://x".to_string() },
    );
    assert_eq!(rt.downlaod_status, DownloadStatus::Success);
    assert_eq!(rt.settings.subscriptions.len(), 1);
    assert_eq!(rt.settings.subscriptions[0].path, "/s/x.yaml");
    assert!(rt.state.dirty);
}

#[test]
fn delete_and_select_subscriptions() {
    let mut rt = runtime_with(&[("/s/a.yaml", "https://a"), ("/s/b.yaml", "https://b")], "/s/a.yaml");
    let removed = delete_sub(&mut rt, 0).expect("index 0 exists");
    assert_eq!(removed.path, "/s/a.yaml");
    assert_eq!(rt.settings.current_sub, "");
    assert_eq!(rt.settings.subscriptions.len(), 1);
    assert!(rt.state.dirty);
    rt.state.dirty = false;
    assert!(delete_sub(&mut rt, 5).is_none());
    assert!(rt.state.dirty);
    set_sub(&mut rt, &"/s/b.yaml".to_string());
    assert_eq!(get_current_sub(&rt), "/s/b.yaml");
    assert_eq!(rt.clash_state.config, "/s/b.yaml");
    let removed = delete_sub(&mut rt, 0).unwrap();
    assert_eq!(removed.url, "https://b");
    assert_eq!(rt.settings.current_sub, "");
}

#[test]
fn updates_skip_local_files() {
    let mut rt = runtime_with(&[("/s/a.yaml", "file:///a.yaml"), ("/s/b.yaml", "https://b"), ("/s/c.yaml", "https://c")], "");
    assert_eq!(get_update_status(&rt), "None");
    let jobs = update_subs(&mut rt);
    assert_eq!(get_update_status(&rt), "Downloading");
    assert_eq!(jobs.len(), 2);
    assert_eq!(jobs[0].url, "https://b");
    assert_eq!(jobs[1].path, "/s/c.yaml");
    finish_update_subs(&mut rt);
    assert_eq!(get_update_status(&rt), "Success");
}

#[test]
fn web_settings_changes() {
    let mut rt = runtime_with(&[], "/p.yaml");
    let r = skip_proxy(&mut rt, SkipProxyParams { skip_proxy: false });
    assert_eq!(r.status_code, 200);
    assert_eq!(r.message, "修改成功");
    assert!(!rt.settings.skip_proxy);
    assert!(rt.state.dirty);
    let r = override_dns(&mut rt, OverrideDNSParams { override_dns: false });
    assert_eq!((r.status_code, r.message.as_str()), (200, "修改成功"));
    let r = allow_remote_access(&mut rt, AllowRemoteAccessParams { allow_remote_access: true });
    assert_eq!(r.status_code, 200);
    let r = enhanced_mode(&mut rt, EnhancedModeParams { enhanced_mode: EnhancedMode::RedirHost });
    assert_eq!(r.status_code, 200);
    let c = get_config(&rt);
    assert_eq!(c.status_code, 200);
    assert!(!c.skip_proxy);
    assert!(!c.override_dns);
    assert!(c.allow_remote_access);
    assert_eq!(c.enhanced_mode, EnhancedMode::RedirHost);
    add_subscription(&mut rt, "/s/z.yaml".to_string(), "https://z".to_string());
    assert_eq!(rt.settings.subscriptions[0].url, "https://z");
}

#[test]
fn web_lookups_and_answers() {
    let mut table = HashMap::new();
    table.insert(7u16, "https://link".to_string());
    let state = AppState { link_table: table, runtime: runtime_with(&[], "") };
    let found = get_link(&state, GetLinkParams { code: 7 });
    assert_eq!((found.status_code, found.link), (200, Some("https://link".to_string())));
    let missing = get_link(&state, GetLinkParams { code: 8 });
    assert_eq!((missing.status_code, missing.link), (404, None));
    let ip = get_local_web_address(Some("192.168.1.2".to_string()));
    assert_eq!((ip.status_code, ip.ip), (200, Some("192.168.1.2".to_string())));
    let none = get_local_web_address(None);
    assert_eq!((none.status_code, none.ip), (404, None));
    assert_eq!(downloaded_response().message, "下载成功");
    assert_eq!(reloaded_response().message, "重载成功");
}

#[test]
fn launch_plan_paths() {
    let plan = launch_plan("/plugin");
    assert_eq!(plan.data_dir, "/plugin/../../data/tomoon");
    assert_eq!(plan.databases[0], ("/plugin/bin/core/country.mmdb".to_string(), "/plugin/../../data/tomoon/country.mmdb".to_string()));
    assert_eq!(plan.databases[2].1, "/plugin/../../data/tomoon/geosite.dat");
    assert_eq!(plan.run_config, "/plugin/../../data/tomoon/running_config.yaml");
    assert_eq!(plan.arguments, vec!["-d", "/plugin/../../data/tomoon", "-f", "/plugin/../../data/tomoon/running_config.yaml"]);
    let c = Clash::new_in("/plugin");
    assert_eq!(c.path, "/plugin/bin/core/clash");
    assert_eq!(c.config, "/plugin/bin/core/config.yaml");
}

#[test]
fn debug_report_text() {
    let status = clash_status_line(true);
    assert_eq!(status, format!("Clash status : {}\n", true));
    assert_eq!(clash_status_line(false), "Clash status : false\n");
    let note = unreadable_file_note("Tomoon log", "No such file");
    assert_eq!(note, format!("can not get Tomoon log, error message: {} \n", "No such file"));
    let report = create_debug_log(&status, "cfg", "log", "clog");
    let expected = format!(
        "
        {}\n
        ToMoon config:\n
        {}\n
        ToMoon log:\n
        {}\n
        Clash log:\n
        {}\n
        ",
        status, "cfg", "log", "clog",
    );
    assert_eq!(report, expected);
}

#[test]
fn legacy_backend() {
    let mut rt = clashdeck::ControlRuntime::new(clashdeck::Settings::default(), clashdeck::State::new(None));
    assert!(!clashdeck::get_clash_status(&rt));
    assert_eq!(clashdeck::set_clash_status(&mut rt, true), clashdeck::Switch::Start);
    assert!(clashdeck::get_clash_status(&rt));
    assert_eq!(clashdeck::set_clash_status(&mut rt, true), clashdeck::Switch::Keep);
    let (path, saved) = rt.persist().unwrap();
    assert_eq!(path, "/home/deck/.config/clashdeck/clashdeck.json");
    assert!(saved.enable);
    assert!(rt.persist().is_none());
    assert_eq!(clashdeck::set_clash_status(&mut rt, false), clashdeck::Switch::Stop);
    let c = clashdeck::clash::new_in("/w");
    assert_eq!(c.config, "/w/config.yaml");
}

#[test]
fn changes_are_saved_by_next_persist() {
    let mut rt = runtime_with(&[("/s/a.yaml", "https://a")], "/s/a.yaml");
    set_sub(&mut rt, &"/s/b.yaml".to_string());
    let saved = rt.persist().expect("choosing a profile is saved");
    assert_eq!(saved.settings.current_sub, "/s/b.yaml");
    assert!(rt.persist().is_none());

    let _ = skip_proxy(&mut rt, SkipProxyParams { skip_proxy: false });
    let saved = rt.persist().expect("an option switch is saved");
    assert!(!saved.settings.skip_proxy);

    add_subscription(&mut rt, "/s/c.yaml".to_string(), "https://c".to_string());
    let saved = rt.persist().expect("a stored subscription is saved");
    assert_eq!(saved.settings.subscriptions.len(), 2);

    let _ = delete_sub(&mut rt, 0);
    let saved = rt.persist().expect("forgetting a subscription is saved");
    assert_eq!(saved.settings.subscriptions[0].path, "/s/c.yaml");

    match set_clash_status(&mut rt, true) {
        ClashCommand::Start { .. } => {}
        _ => panic!("enabling starts Clash"),
    }
    assert!(finish_set_clash_status(&mut rt, true, true));
    let saved = rt.persist().expect("a completed status change is saved");
    assert_eq!(saved.path, "/home/deck/.config/tomoon/tomoon.json");
    assert!(saved.settings.enable);

    finish_download_sub(&mut rt, DownloadOutcome::Saved { path: "/s/d.yaml".to_string(), url: "https://d".to_string() });
    let saved = rt.persist().expect("a downloaded subscription is saved");
    assert_eq!(saved.settings.subscriptions.last().unwrap().url, "https://d");
}
