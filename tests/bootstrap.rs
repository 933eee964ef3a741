use lapce_powershell::archive::{ArchiveError, ExtractStep};
use lapce_powershell::bootstrap::{Action, Bootstrap, BootstrapError, Event, LaunchSpec, Phase};
use lapce_powershell::json::Json;
use lapce_powershell::launch::default_args;
use std::io::Write;

const URL: &str = "https://github.com/PowerShell/PowerShellEditorServices/releases/download/v3.5.1/PowerShellEditorServices.zip";

fn options(lsp: Vec<(&str, Json)>) -> Option<Json> {
    let lsp = Json::Object(lsp.into_iter().map(|(k, v)| (k.to_string(), v)).collect());
    Some(Json::Object(vec![("lsp".to_string(), lsp)]))
}

fn launched(a: Action) -> LaunchSpec {
    match a {
        Action::Launch(s) => s,
        other => panic!("expected a launch, got {other:?}"),
    }
}

fn assert_selector(s: &LaunchSpec) {
    assert_eq!(s.selector.len(), 1);
    assert_eq!(s.selector[0].language, "powershell");
    assert_eq!(s.selector[0].pattern, "**/*.ps1");
}

fn started(platform: &str, opts: Option<Json>) -> (Bootstrap, Action) {
    Bootstrap::start("/work".to_string(), platform.to_string(), &opts).unwrap()
}

fn package_zip() -> Vec<u8> {
    let mut w = zip::ZipWriter::new(std::io::Cursor::new(Vec::new()));
    let opts = zip::write::FileOptions::default();
    w.start_file("PowerShellEditorServices/Start-EditorServices.ps1", opts).unwrap();
    w.write_all(b"param()").unwrap();
    w.finish().unwrap().into_inner()
}

#[test]
fn full_override_launches_at_once_with_default_args() {
    let (b, a) = started("linux", options(vec![
        ("serverPath", Json::Str("foo".to_string())),
        ("serverArgs", Json::Array(vec![])),
    ]));
    assert_eq!(b.phase, Phase::Finished);
    let s = launched(a);
    assert_eq!(s.executable, "urn:foo");
    assert_eq!(s.server_uri.as_str(), "urn:foo");
    assert_eq!(s.server_uri_text, "urn:foo");
    assert_eq!(s.args, default_args("/work", "linux"));
    assert_selector(&s);
}

#[test]
fn full_override_with_args() {
    let (_, a) = started("windows", options(vec![
        ("serverPath", Json::Str("/opt/pses".to_string())),
        ("serverArgs", Json::Array(vec![Json::Str("-x".to_string())])),
    ]));
    let s = launched(a);
    assert_eq!(s.executable, "urn:/opt/pses");
    assert_eq!(s.args, vec!["-x".to_string()]);
    assert_selector(&s);
}

#[test]
fn invalid_override_locator_is_config_error() {
    let opts = options(vec![("serverPath", Json::Str("//[".to_string()))]);
    let r = Bootstrap::start("/work".to_string(), "linux".to_string(), &opts);
    assert_eq!(r.err(), Some(BootstrapError::Config));
}

#[test]
fn default_path_checks_install_first() {
    let (b, a) = started("linux", None);
    assert_eq!(b.phase, Phase::CheckingInstall);
    assert!(matches!(a, Action::CheckInstalled { sentinel }
        if sentinel == "/work/PSES/PowerShellEditorServices/Start-EditorServices.ps1"));
}

#[test]
fn installed_package_launches_without_fetch() {
    let (mut b, _) = started("linux", None);
    let s = launched(b.step(Event::InstallChecked(true)).unwrap());
    assert_eq!(b.phase, Phase::Finished);
    assert_eq!(s.executable, "urn:pwsh");
    assert_eq!(s.server_uri_text, "urn:pwsh");
    assert_eq!(s.server_uri.as_str(), "urn:pwsh");
    assert_eq!(s.args, default_args("/work", "linux"));
    assert_selector(&s);
}

#[test]
fn args_override_replaces_whole_list() {
    let opts = options(vec![(
        "serverArgs",
        Json::Array(vec![Json::Str("--bar".to_string()), Json::Str("--baz".to_string())]),
    )]);
    let (mut b, _) = started("windows", opts);
    let s = launched(b.step(Event::InstallChecked(true)).unwrap());
    assert_eq!(s.executable, "urn:powershell.exe");
    assert_eq!(s.args, vec!["--bar".to_string(), "--baz".to_string()]);
    assert_selector(&s);
}

#[test]
fn missing_package_is_fetched_then_extracted_then_launched() {
    let (mut b, _) = started("linux", None);
    match b.step(Event::InstallChecked(false)).unwrap() {
        Action::Fetch { url, stale_archive } => {
            assert_eq!(url, URL);
            assert_eq!(stale_archive, "/work/PowerShellEditorServices.zip");
        }
        other => panic!("expected a fetch, got {other:?}"),
    }
    assert_eq!(b.phase, Phase::Fetching);
    match b.step(Event::Fetched { status: 200, body: Some(package_zip()) }).unwrap() {
        Action::Extract { steps } => assert_eq!(
            steps,
            vec![ExtractStep::WriteFile {
                path: "/work/PSES/PowerShellEditorServices/Start-EditorServices.ps1".to_string(),
                contents: b"param()".to_vec(),
            }]
        ),
        other => panic!("expected an extraction, got {other:?}"),
    }
    assert_eq!(b.phase, Phase::Extracting);
    let s = launched(b.step(Event::Extracted).unwrap());
    assert_eq!(s.executable, "urn:pwsh");
    assert_selector(&s);
}

#[test]
fn failed_download_is_download_error() {
    let (mut b, _) = started("linux", None);
    b.step(Event::InstallChecked(false)).unwrap();
    let r = b.step(Event::Fetched { status: 404, body: Some(vec![]) });
    assert_eq!(r.err(), Some(BootstrapError::Download { status: 404 }));
    assert_eq!(b.phase, Phase::Finished);

    let (mut b, _) = started("linux", None);
    b.step(Event::InstallChecked(false)).unwrap();
    let r = b.step(Event::Fetched { status: 200, body: None });
    assert_eq!(r.err(), Some(BootstrapError::Download { status: 200 }));
}

#[test]
fn corrupt_download_is_archive_error() {
    let (mut b, _) = started("linux", None);
    b.step(Event::InstallChecked(false)).unwrap();
    let r = b.step(Event::Fetched { status: 200, body: Some(vec![0, 1, 2]) });
    assert_eq!(r.err(), Some(BootstrapError::Archive(ArchiveError::Unreadable)));
}

#[test]
fn unexpected_event_changes_nothing() {
    let (mut b, _) = started("linux", None);
    let r = b.step(Event::Extracted);
    assert_eq!(r.err(), Some(BootstrapError::UnexpectedEvent));
    assert_eq!(b.phase, Phase::CheckingInstall);
}
