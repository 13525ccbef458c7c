use deskmsg::http::{
    check_parent, download, hello_world, join_path, upload, AuthHeader, AuthMiddleware, AuthOutcome,
    DownloadOutcome, HTTPConfig, HttpSettings, Reply, UploadAction, UploadEvent, UploadState,
};

fn cfg(token: &str) -> HTTPConfig {
    HTTPConfig { basic_path: "/data".to_string(), auth_token: token.to_string() }
}

fn refused(o: AuthOutcome) -> Reply {
    match o {
        AuthOutcome::Refuse(r) => r,
        AuthOutcome::Pass => panic!("expected a refusal"),
    }
}

#[test]
fn unconfigured_service_lets_everything_pass() {
    assert!(matches!(AuthMiddleware {}.handle(None, &AuthHeader::Missing), AuthOutcome::Pass));
}

#[test]
fn empty_token_lets_everything_pass() {
    let c = cfg("");
    assert!(matches!(AuthMiddleware {}.handle(Some(&c), &AuthHeader::Missing), AuthOutcome::Pass));
    assert!(matches!(AuthMiddleware {}.handle(Some(&c), &AuthHeader::Unreadable), AuthOutcome::Pass));
}

#[test]
fn right_token_passes() {
    let c = cfg("t0k");
    let o = AuthMiddleware {}.handle(Some(&c), &AuthHeader::Text("t0k".to_string()));
    assert!(matches!(o, AuthOutcome::Pass));
}

#[test]
fn wrong_missing_or_unreadable_token_refused() {
    let c = cfg("t0k");
    let r = refused(AuthMiddleware {}.handle(Some(&c), &AuthHeader::Text("t0K".to_string())));
    assert_eq!(r.status, 403);
    assert_eq!(r.body.as_deref(), Some("Forbidden: Invalid token"));
    let r = refused(AuthMiddleware {}.handle(Some(&c), &AuthHeader::Missing));
    assert_eq!(r.status, 403);
    assert_eq!(r.body.as_deref(), Some("Forbidden: Missing X-AUTH header"));
    let r = refused(AuthMiddleware {}.handle(Some(&c), &AuthHeader::Unreadable));
    assert_eq!(r.status, 400);
    assert_eq!(r.body.as_deref(), Some("Forbidden: Invalid X-AUTH header format"));
}

#[test]
fn join_path_inserts_slash() {
    assert_eq!(join_path("/data", "a/b.txt"), "/data/a/b.txt");
    assert_eq!(join_path("", "x"), "/x");
}

#[test]
fn download_sends_file_under_basic_path() {
    let c = cfg("");
    match download(Some("docs/readme.md".to_string()), Some(&c)) {
        DownloadOutcome::SendFile(p) => assert_eq!(p, "/data/docs/readme.md"),
        DownloadOutcome::Refuse(_) => panic!("expected a file"),
    }
}

#[test]
fn download_refusals() {
    match download(Some("x".to_string()), None) {
        DownloadOutcome::Refuse(r) => {
            assert_eq!(r.status, 400);
            assert_eq!(r.body.as_deref(), Some("HTTP Service not configured"));
        }
        _ => panic!(),
    }
    let c = cfg("");
    match download(None, Some(&c)) {
        DownloadOutcome::Refuse(r) => {
            assert_eq!(r.status, 404);
            assert_eq!(r.body.as_deref(), Some(""));
        }
        _ => panic!(),
    }
}

#[test]
fn first_generation_download() {
    let base = "/".to_string();
    match hello_world(Some("f".to_string()), Some(&base)) {
        DownloadOutcome::SendFile(p) => assert_eq!(p, "//f"),
        _ => panic!(),
    }
    match hello_world(None, None) {
        DownloadOutcome::Refuse(r) => {
            assert_eq!(r.status, 400);
            assert_eq!(r.body.as_deref(), Some("Basic Path does not config"));
        }
        _ => panic!(),
    }
}

fn respond(a: UploadAction) -> Reply {
    match a {
        UploadAction::Respond(r) => r,
        _ => panic!("expected a reply"),
    }
}

#[test]
fn upload_without_config() {
    let (s, a) = upload(UploadState::Start, UploadEvent::Config(None));
    assert!(matches!(s, UploadState::Done));
    let r = respond(a);
    assert_eq!(r.status, 400);
    assert_eq!(r.body.as_deref(), Some("HTTP Service not configured"));
}

#[test]
fn upload_happy_path_with_directory_creation() {
    let (s, a) = upload(UploadState::Start, UploadEvent::Config(Some(cfg(""))));
    match a {
        UploadAction::CheckDir(d) => assert_eq!(d, "/data/upload"),
        _ => panic!(),
    }
    let (s, a) = upload(s, UploadEvent::DirExists(false));
    match a {
        UploadAction::CreateDir(d) => assert_eq!(d, "/data/upload"),
        _ => panic!(),
    }
    let (s, a) = upload(s, UploadEvent::DirCreated);
    match a {
        UploadAction::FetchFile(f) => assert_eq!(f, "file"),
        _ => panic!(),
    }
    let (s, a) = upload(s, UploadEvent::File { name: "photo.png".to_string(), temp_path: "/tmp/x1".to_string() });
    let event = match a {
        UploadAction::CheckParent { path, dir } => {
            assert_eq!(path, "/data/upload/photo.png");
            assert_eq!(dir, "/data/upload");
            check_parent(&path, &dir)
        }
        _ => panic!(),
    };
    assert!(matches!(event, UploadEvent::ParentChecked(true)));
    let (s, a) = upload(s, event);
    match a {
        UploadAction::Copy { from, to } => {
            assert_eq!(from, "/tmp/x1");
            assert_eq!(to, "/data/upload/photo.png");
        }
        _ => panic!(),
    }
    let (s, a) = upload(s, UploadEvent::Copied);
    assert!(matches!(s, UploadState::Done));
    let r = respond(a);
    assert_eq!(r.status, 200);
    assert!(r.body.is_none());
}

#[test]
fn upload_target_outside_directory_is_refused_without_copy() {
    let (s, _) = upload(UploadState::Start, UploadEvent::Config(Some(cfg(""))));
    let (s, _) = upload(s, UploadEvent::DirExists(true));
    let (s, a) = upload(s, UploadEvent::File { name: "../evil.txt".to_string(), temp_path: "/tmp/t".to_string() });
    let event = match a {
        UploadAction::CheckParent { path, dir } => {
            assert_eq!(path, "/data/upload/../evil.txt");
            assert_eq!(dir, "/data/upload");
            check_parent(&path, &dir)
        }
        _ => panic!("expected the target to be checked"),
    };
    assert!(matches!(event, UploadEvent::ParentChecked(false)));
    let (s, a) = upload(s, event);
    assert!(matches!(s, UploadState::Done));
    let r = respond(a);
    assert_eq!(r.status, 500);
    assert_eq!(r.body.as_deref(), Some("bad file name"));
}

#[test]
fn upload_target_in_subdirectory_is_refused() {
    let (s, _) = upload(UploadState::Start, UploadEvent::Config(Some(cfg(""))));
    let (s, _) = upload(s, UploadEvent::DirExists(true));
    let (s, a) = upload(s, UploadEvent::File { name: "sub/evil.txt".to_string(), temp_path: "/tmp/t".to_string() });
    let event = match a {
        UploadAction::CheckParent { path, dir } => check_parent(&path, &dir),
        _ => panic!(),
    };
    let (_, a) = upload(s, event);
    assert_eq!(respond(a).body.as_deref(), Some("bad file name"));
}

#[test]
fn check_parent_of_plain_name() {
    assert!(matches!(check_parent("/data/upload/a.txt", "/data/upload"), UploadEvent::ParentChecked(true)));
    assert!(matches!(check_parent("/data/upload/a.txt", "/data"), UploadEvent::ParentChecked(false)));
    assert!(matches!(check_parent("/", "/"), UploadEvent::ParentChecked(false)));
}

#[test]
fn check_parent_of_names_with_separators() {
    let dir = "/data/upload";
    assert!(matches!(check_parent("/data/upload/../evil.txt", dir), UploadEvent::ParentChecked(false)));
    assert!(matches!(check_parent("/data/upload/sub/x.txt", dir), UploadEvent::ParentChecked(false)));
    assert!(matches!(check_parent("/data/upload/a.b.txt", dir), UploadEvent::ParentChecked(true)));
    assert!(matches!(check_parent("upload/a.txt", "upload"), UploadEvent::ParentChecked(true)));
}

#[test]
fn http_settings_keep_the_first() {
    let mut s = HttpSettings::new();
    assert!(s.config().is_none());
    assert!(s.set_http_config("/data".to_string(), "tok".to_string()));
    assert!(!s.set_http_config("/other".to_string(), "x".to_string()));
    let c = s.config().unwrap();
    assert_eq!(c.basic_path, "/data");
    assert_eq!(c.auth_token, "tok");
}

#[test]
fn http_config_clones_its_fields() {
    let c = cfg("tok");
    let d = c.clone();
    assert_eq!(d.basic_path, "/data");
    assert_eq!(d.auth_token, "tok");
}

#[test]
fn upload_failures() {
    let (s, _) = upload(UploadState::Start, UploadEvent::Config(Some(cfg(""))));
    let (s, _) = upload(s, UploadEvent::DirExists(false));
    let (_, a) = upload(s, UploadEvent::DirFailed("denied".to_string()));
    let r = respond(a);
    assert_eq!(r.status, 500);
    assert_eq!(r.body.as_deref(), Some("Failed to create upload directory: denied"));

    let (s, _) = upload(UploadState::Start, UploadEvent::Config(Some(cfg(""))));
    let (s, _) = upload(s, UploadEvent::DirExists(true));
    let (_, a) = upload(s, UploadEvent::NoFile);
    let r = respond(a);
    assert_eq!(r.status, 400);
    assert_eq!(r.body.as_deref(), Some("No file uploaded with the name 'file'"));

    let (s, _) = upload(UploadState::Start, UploadEvent::Config(Some(cfg(""))));
    let (s, _) = upload(s, UploadEvent::DirExists(true));
    let (_, a) = upload(s, UploadEvent::NoName);
    assert_eq!(respond(a).body.as_deref(), Some("upload file has no name"));

    let (s, _) = upload(UploadState::Start, UploadEvent::Config(Some(cfg(""))));
    let (s, _) = upload(s, UploadEvent::DirExists(true));
    let (s, _) = upload(s, UploadEvent::File { name: "a".to_string(), temp_path: "/t".to_string() });
    let (s, _) = upload(s, UploadEvent::ParentChecked(true));
    let (_, a) = upload(s, UploadEvent::CopyFailed("disk full".to_string()));
    let r = respond(a);
    assert_eq!(r.status, 500);
    assert_eq!(r.body.as_deref(), Some("Failed to save file: disk full"));
}
