use tomoon::api::{
    answer_without_clash, download_outcome, download_sub, finish_download_sub, ClashCommand,
    DownloadEvent, DownloadOutcome,
};
use tomoon::control::{failure, Clash, ClashErrorKind, ControlRuntime, DownloadStatus, FailedStep};
use tomoon::settings::{EnhancedMode, Settings, State};
use tomoon::web::{
    finish_web_download, local_subscription_file_name, remote_subscription_file_name, store_target,
    stored_subscription_path, WebDownloadEvent,
};

fn is_fresh(name: &str) -> bool {
    name.len() == 10
        && name.ends_with(".yaml")
        && name[..5].chars().all(|c| c.is_ascii_alphanumeric())
}

#[test]
fn events_map_to_outcomes() {
    assert!(matches!(download_outcome(DownloadEvent::FileMissing), DownloadOutcome::Rejected));
    assert!(matches!(download_outcome(DownloadEvent::FileUnreadable), DownloadOutcome::Rejected));
    assert!(matches!(download_outcome(DownloadEvent::FetchFailed), DownloadOutcome::Unreachable));
    assert!(matches!(download_outcome(DownloadEvent::NotAProfile), DownloadOutcome::Rejected));
    assert!(matches!(download_outcome(DownloadEvent::DirectoryFailed), DownloadOutcome::Rejected));
    let local = DownloadEvent::WriteFailed {
        path: "/s/a.yaml".to_string(),
        url: "file:///tmp/a.yaml".to_string(),
        local: true,
    };
    assert!(matches!(download_outcome(local), DownloadOutcome::Unsaved));
    let remote = DownloadEvent::WriteFailed {
        path: "/s/b.yaml".to_string(),
        url: "https://b".to_string(),
        local: false,
    };
    match download_outcome(remote) {
        DownloadOutcome::Saved { path, url } => {
            assert_eq!(path, "/s/b.yaml");
            assert_eq!(url, "https://b");
        }
        _ => panic!("a fetched profile is recorded even when writing failed"),
    }
    let written = DownloadEvent::Written { path: "/s/c.yaml".to_string(), url: "https://c".to_string() };
    match download_outcome(written) {
        DownloadOutcome::Saved { path, url } => {
            assert_eq!(path, "/s/c.yaml");
            assert_eq!(url, "https://c");
        }
        _ => panic!("a written profile is saved"),
    }
}

#[test]
fn download_event_drives_status() {
    let settings = Settings::defaults("/plugin");
    let state = State::new(Some("/home/deck".to_string()));
    let mut rt = ControlRuntime::new(settings, state, Clash::new_in("/plugin"));
    download_sub(&mut rt);
    finish_download_sub(&mut rt, download_outcome(DownloadEvent::FetchFailed));
    assert_eq!(rt.downlaod_status, DownloadStatus::Failed);
    download_sub(&mut rt);
    let ev = DownloadEvent::WriteFailed { path: "/s/a.yaml".to_string(), url: "file:///a".to_string(), local: true };
    finish_download_sub(&mut rt, download_outcome(ev));
    assert_eq!(rt.downlaod_status, DownloadStatus::Downloading);
    assert!(rt.settings.subscriptions.is_empty());
}

#[test]
fn answers_without_clash() {
    assert_eq!(answer_without_clash(&ClashCommand::Keep, true), Some(true));
    assert_eq!(answer_without_clash(&ClashCommand::Keep, false), Some(false));
    assert_eq!(answer_without_clash(&ClashCommand::NoProfile, true), Some(false));
    assert_eq!(answer_without_clash(&ClashCommand::Stop, false), None);
    let start = ClashCommand::Start {
        config: "/p.yaml".to_string(),
        skip_proxy: true,
        override_dns: true,
        enhanced_mode: EnhancedMode::FakeIp,
    };
    assert_eq!(answer_without_clash(&start, true), None);
}

#[test]
fn failed_steps_answer_their_kind() {
    let cases = [
        (FailedStep::CopyDatabase, ClashErrorKind::CpDbError),
        (FailedStep::RewriteConfig, ClashErrorKind::ConfigFormatError),
        (FailedStep::ReloadConfig, ClashErrorKind::InnerError),
        (FailedStep::ReadProfile, ClashErrorKind::ConfigNotFound),
        (FailedStep::ReadSettings, ClashErrorKind::ConfigNotFound),
        (FailedStep::AcquireState, ClashErrorKind::InnerError),
        (FailedStep::CreateDirectory, ClashErrorKind::InnerError),
        (FailedStep::WriteProfile, ClashErrorKind::InnerError),
        (FailedStep::Download, ClashErrorKind::NetworkError),
    ];
    for (step, kind) in cases {
        let e = failure(step, "it broke".to_string());
        assert_eq!(e.ErrorKind, kind);
        assert_eq!(e.Message, "it broke");
    }
    let e = failure(FailedStep::StartProcess, "no such file".to_string());
    assert_eq!(e.ErrorKind, ClashErrorKind::Default);
    assert_eq!(e.Message, "");
    assert_eq!(failure(FailedStep::ReadProfile, "x".to_string()).http_status(), 404);
    assert_eq!(failure(FailedStep::Download, "x".to_string()).http_status(), 500);
}

#[test]
fn stored_path_avoids_taken_names() {
    let candidate = "/home/deck/.config/tomoon/subs/clash.yaml";
    assert_eq!(stored_subscription_path(candidate, false), Some(candidate.to_string()));
    let other = stored_subscription_path(candidate, true).unwrap();
    assert_ne!(other, candidate);
    let dir = "/home/deck/.config/tomoon/subs/";
    assert!(other.starts_with(dir));
    assert!(is_fresh(&other[dir.len()..]));
    assert_eq!(stored_subscription_path("/", true), None);
    assert_eq!(stored_subscription_path("", true), None);
    assert_eq!(stored_subscription_path("/", false), Some("/".to_string()));
}

#[test]
fn remote_name_without_base_is_random() {
    let n = remote_subscription_file_name(Some("attachment; filename=\"\"".to_string()), "https://x/y");
    assert!(is_fresh(&n));
    let n = remote_subscription_file_name(None, "https://x/?token=1");
    assert!(is_fresh(&n));
}

#[test]
fn store_target_overwrites_only_local_copies() {
    let candidate = "/home/deck/.config/tomoon/subs/a.yaml";
    assert_eq!(store_target(candidate, true, true), Some(candidate.to_string()));
    assert_eq!(store_target(candidate, true, false), Some(candidate.to_string()));
    assert_eq!(store_target(candidate, false, false), Some(candidate.to_string()));
    let moved = store_target(candidate, false, true).unwrap();
    assert!(moved.starts_with("/home/deck/.config/tomoon/subs/"));
    assert!(is_fresh(&moved["/home/deck/.config/tomoon/subs/".len()..]));
}

fn runtime() -> ControlRuntime {
    let settings = Settings::defaults("/plugin");
    let mut state = State::new(Some("/home/deck".to_string()));
    state.dirty = false;
    ControlRuntime::new(settings, state, Clash::new_in("/plugin"))
}

#[test]
fn web_download_answers() {
    let mut rt = runtime();
    let e = finish_web_download(&mut rt, WebDownloadEvent::FileMissing { path: "/tmp/x.yaml".to_string() })
        .err()
        .unwrap();
    assert_eq!(e.ErrorKind, ClashErrorKind::InnerError);
    assert_eq!(e.Message, "Cannt found file /tmp/x.yaml");
    let e = finish_web_download(&mut rt, WebDownloadEvent::FileUnreadable { message: "denied".to_string() })
        .err()
        .unwrap();
    assert_eq!(e.ErrorKind, ClashErrorKind::ConfigNotFound);
    assert_eq!(e.http_status(), 404);
    let e = finish_web_download(&mut rt, WebDownloadEvent::FetchFailed { message: "timeout".to_string() })
        .err()
        .unwrap();
    assert_eq!(e.ErrorKind, ClashErrorKind::NetworkError);
    assert_eq!(e.Message, "timeout");
    let e = finish_web_download(&mut rt, WebDownloadEvent::NotAProfile).err().unwrap();
    assert_eq!(e.ErrorKind, ClashErrorKind::ConfigFormatError);
    assert_eq!(e.Message, "The downloaded subscription is not a legal profile.");
    let e = finish_web_download(&mut rt, WebDownloadEvent::DirectoryFailed { message: "ro".to_string() })
        .err()
        .unwrap();
    assert_eq!(e.ErrorKind, ClashErrorKind::InnerError);
    let e = finish_web_download(&mut rt, WebDownloadEvent::WriteFailed { message: "full".to_string() })
        .err()
        .unwrap();
    assert_eq!(e.ErrorKind, ClashErrorKind::InnerError);
    assert_eq!(e.Message, "full");
    assert!(rt.settings.subscriptions.is_empty());
    assert!(!rt.state.dirty);
    let ok = finish_web_download(
        &mut rt,
        WebDownloadEvent::Stored { path: "/s/a.yaml".to_string(), url: "https://a".to_string() },
    )
    .ok()
    .unwrap();
    assert_eq!(ok.status_code, 200);
    assert_eq!(ok.message, "\u{4e0b}\u{8f7d}\u{6210}\u{529f}");
    assert_eq!(rt.settings.subscriptions.len(), 1);
    assert_eq!(rt.settings.subscriptions[0].path, "/s/a.yaml");
    assert_eq!(rt.settings.subscriptions[0].url, "https://a");
    assert!(rt.state.dirty);
}

#[test]
fn local_names_follow_the_final_component() {
    assert_eq!(local_subscription_file_name("/usr/bin/"), "bin.yaml");
    assert_eq!(local_subscription_file_name("foo.YML/."), "foo.YML");
    assert_eq!(local_subscription_file_name("foo.txt/.//"), "foo.txt.yaml");
    assert!(is_fresh(&local_subscription_file_name("foo.txt/..")));
    assert!(is_fresh(&local_subscription_file_name("/")));
    assert!(is_fresh(&local_subscription_file_name(".")));
}
