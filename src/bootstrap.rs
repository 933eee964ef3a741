//! The bootstrap sequence as a state machine: the caller performs each action
//! (a file check, a download, the extraction steps, the registration of the
//! server) and reports back with an event; the machine decides what comes next.
use vstd::prelude::*;
use crate::archive::{
    extraction_ok, plan_extraction, plan_spec, steps_view, under_root, ArchiveError, ExtractStep,
};
use crate::config::{effective_args_spec, opt_strings_view, resolve, resolve_spec, ResolvedConfig};
use crate::json::Json;
use crate::launch::{
    default_args, default_executable, default_executable_spec, default_args_spec, document_selector,
    entry_script_path, is_powershell_selector, package_path, strings_view,
    windows_spec, DocumentFilter, ENTRY_SCRIPT, MODULE_DIR, PACKAGE_DIR,
};
use crate::text::{join, join_spec};
use url::{ParseError, Url};

verus! {

/// url::Url, carried through opaquely: a parsed server locator.
#[verifier::external_type_specification]
#[verifier::external_body]
pub struct ExUrl(Url);

/// url::ParseError, the URL parser's error.
#[verifier::external_type_specification]
#[verifier::external_body]
pub struct ExParseError(ParseError);

/// Whether the url crate accepts `s` as an absolute URL.
pub uninterp spec fn url_accepts(s: Seq<char>) -> bool;

/// The text of the URL that the url crate parses from `s`, as serialised by
/// url::Url::as_str.
pub uninterp spec fn url_text(s: Seq<char>) -> Seq<char>;

/// Relies on url::Url::parse: whether it accepts a string, and the URL it
/// gives, depend on the string alone. The URL comes with its serialisation,
/// read by url::Url::as_str.
#[verifier::external_body]
fn parse_url(s: &str) -> (r: Result<(Url, String), ParseError>)
    ensures
        r.is_ok() == url_accepts(s@),
        r matches Ok((_, t)) ==> t@ == url_text(s@),
{
    match Url::parse(s) {
        Ok(u) => {
            let t = u.as_str().to_string();
            Ok((u, t))
        },
        Err(e) => Err(e),
    }
}

/// Version of the server package that is fetched.
pub const SERVER_VERSION: &'static str = "3.5.1";
/// File name of the server package, and of its archive on disk.
pub const ARCHIVE_NAME: &'static str = "PowerShellEditorServices.zip";
/// Where the releases of the server package are published.
pub const RELEASES_URL: &'static str = "https://github.com/PowerShell/PowerShellEditorServices/releases/download/v";

/// The address the server package is fetched from.
pub open spec fn download_url_spec() -> Seq<char> {
    RELEASES_URL@ + SERVER_VERSION@ + "/"@ + ARCHIVE_NAME@
}

/// Path of the downloaded archive under `w`.
pub open spec fn archive_path(w: Seq<char>) -> Seq<char> {
    join_spec(w, ARCHIVE_NAME@)
}

/// The locator of a server that the user names.
pub open spec fn override_locator(path: Seq<char>) -> Seq<char> {
    "urn:"@ + path
}

/// A fully resolved server to start.
#[derive(Debug)]
pub struct LaunchSpec {
    /// The executable's locator, as text.
    pub executable: String,
    /// The executable's locator, as parsed.
    pub server_uri: Url,
    /// The text of `server_uri`.
    pub server_uri_text: String,
    /// The argument list, in order.
    pub args: Vec<String>,
    /// The files routed to the server.
    pub selector: Vec<DocumentFilter>,
}

/// Whether `s` starts `exe` with `args` on PowerShell scripts.
pub open spec fn launches(s: LaunchSpec, exe: Seq<char>, args: Seq<Seq<char>>) -> bool {
    &&& s.executable@ == exe
    &&& s.server_uri_text@ == url_text(exe)
    &&& strings_view(s.args@) == args
    &&& is_powershell_selector(s.selector@)
}

/// Where the bootstrap stands.
#[derive(Debug, Clone, Copy, PartialEq, Eq)]
pub enum Phase {
    /// Waiting to learn whether the package is installed.
    CheckingInstall,
    /// Waiting for the package's download.
    Fetching,
    /// Waiting for the extraction steps to be carried out.
    Extracting,
    /// A server was handed out, or the bootstrap failed.
    Finished,
}

/// What the caller is to do next.
#[derive(Debug)]
pub enum Action {
    /// Report whether the file `sentinel` exists.
    CheckInstalled { sentinel: String },
    /// Remove `stale_archive` if it exists, then fetch `url` and report the outcome.
    Fetch { url: String, stale_archive: String },
    /// Carry out `steps` in order and report when done.
    Extract { steps: Vec<ExtractStep> },
    /// Register this server with the host; the bootstrap is over.
    Launch(LaunchSpec),
}

/// What the caller reports.
#[derive(Debug, Clone, PartialEq, Eq)]
pub enum Event {
    /// Whether the package's entry script exists.
    InstallChecked(bool),
    /// The status of the download and its body, if it could be read whole.
    Fetched { status: u16, body: Option<Vec<u8>> },
    /// All extraction steps were carried out.
    Extracted,
}

/// Why the bootstrap stopped.
#[derive(Debug, Clone, Copy, PartialEq, Eq)]
pub enum BootstrapError {
    /// A server locator is not a valid URL.
    Config,
    /// The download failed or its body could not be read.
    Download { status: u16 },
    /// The archive could not be read.
    Archive(ArchiveError),
    /// An event came that the current phase does not wait for.
    UnexpectedEvent,
}

/// A bootstrap in progress.
#[derive(Debug, Clone, PartialEq, Eq)]
pub struct Bootstrap {
    /// The host's working directory.
    pub workdir: String,
    /// The host's platform identifier.
    pub platform: String,
    /// The user's argument list, if one was given.
    pub args_override: Option<Vec<String>>,
    /// Where the bootstrap stands.
    pub phase: Phase,
}

/// Every launched server is routed exactly the PowerShell scripts: one filter,
/// language `powershell`, pattern `**/*.ps1`, whatever its executable and
/// arguments.
pub proof fn lemma_selector_is_fixed(s: LaunchSpec, exe: Seq<char>, args: Seq<Seq<char>>)
    requires
        launches(s, exe, args),
    ensures
        s.selector@.len() == 1,
        s.selector@[0].language@ == "powershell"@,
        s.selector@[0].pattern@ == "**/*.ps1"@,
{
}

/// Once the package is found installed, the next action launches the default
/// server: nothing is fetched or extracted.
pub proof fn lemma_installed_package_is_not_fetched(b: Bootstrap, r: Result<Action, BootstrapError>)
    requires
        b.launches_default(r),
    ensures
        r matches Ok(a) ==> a matches Action::Launch(s) && launches(s, b.default_exe(), b.launch_args()),
        !(r matches Ok(Action::Fetch { .. })),
        !(r matches Ok(Action::Extract { .. })),
{
}

impl Bootstrap {
    /// Whether the platform is Windows.
    pub open spec fn windows(self) -> bool {
        self.platform@ == windows_spec()
    }

    /// The locator of the default executable.
    pub open spec fn default_exe(self) -> Seq<char> {
        default_executable_spec(self.windows())
    }

    /// The argument list of the default server.
    pub open spec fn launch_args(self) -> Seq<Seq<char>> {
        effective_args_spec(
            default_args_spec(self.workdir@, self.windows()),
            opt_strings_view(self.args_override),
        )
    }

    /// Whether `r` hands out the default server of `self`, or fails because
    /// its locator is not a valid URL.
    pub open spec fn launches_default(self, r: Result<Action, BootstrapError>) -> bool {
        &&& r.is_ok() == url_accepts(self.default_exe())
        &&& match r {
            Ok(Action::Launch(s)) => launches(s, self.default_exe(), self.launch_args()),
            Ok(_) => false,
            Err(e) => e == BootstrapError::Config,
        }
    }

    /// Starts a bootstrap. A full override launches the user's server at once;
    /// otherwise the first action is to check for the installed package.
    pub fn start(workdir: String, platform: String, options: &Option<Json>) -> (r: Result<
        (Bootstrap, Action),
        BootstrapError,
    >)
        ensures
            match resolve_spec(*options).0 {
                Some(path) => match r {
                    Ok((b, a)) => {
                        &&& url_accepts(override_locator(path))
                        &&& b.phase == Phase::Finished
                        &&& match a {
                            Action::Launch(s) => launches(
                                s,
                                override_locator(path),
                                effective_args_spec(
                                    default_args_spec(workdir@, platform@ == windows_spec()),
                                    resolve_spec(*options).1,
                                ),
                            ),
                            _ => false,
                        }
                    },
                    Err(e) => !url_accepts(override_locator(path)) && e == BootstrapError::Config,
                },
                None => match r {
                    Ok((b, a)) => {
                        &&& b.phase == Phase::CheckingInstall
                        &&& b.workdir@ == workdir@
                        &&& b.platform@ == platform@
                        &&& opt_strings_view(b.args_override) == resolve_spec(*options).1
                        &&& match a {
                            Action::CheckInstalled { sentinel } => sentinel@ == entry_script_path(workdir@),
                            _ => false,
                        }
                    },
                    Err(_) => false,
                },
            },
    {
        match resolve(options) {
            ResolvedConfig::FullOverride { server_path, args_override } => {
                let mut locator = "urn:".to_string();
                locator.append(server_path.as_str());
                let (server_uri, server_uri_text) = match parse_url(locator.as_str()) {
                    Ok(u) => u,
                    Err(_) => return Err(BootstrapError::Config),
                };
                let args = match args_override {
                    Some(a) => a,
                    None => default_args(workdir.as_str(), platform.as_str()),
                };
                let spec = LaunchSpec {
                    executable: locator,
                    server_uri,
                    server_uri_text,
                    args,
                    selector: document_selector(),
                };
                let b = Bootstrap { workdir, platform, args_override: None, phase: Phase::Finished };
                Ok((b, Action::Launch(spec)))
            },
            ResolvedConfig::UseDefaults { args_override } => {
                let package = join(workdir.as_str(), PACKAGE_DIR);
                let sentinel = join(&join(&package, MODULE_DIR), ENTRY_SCRIPT);
                let b = Bootstrap { workdir, platform, args_override, phase: Phase::CheckingInstall };
                Ok((b, Action::CheckInstalled { sentinel }))
            },
        }
    }

    /// Takes the caller's report of the last action and decides the next one.
    /// A package found installed leads straight to the launch, with no download.
    pub fn step(&mut self, event: Event) -> (r: Result<Action, BootstrapError>)
        ensures
            final(self).workdir == old(self).workdir,
            final(self).platform == old(self).platform,
            final(self).args_override == old(self).args_override,
            match (old(self).phase, event) {
                (Phase::CheckingInstall, Event::InstallChecked(true)) => {
                    &&& old(self).launches_default(r)
                    &&& final(self).phase == Phase::Finished
                },
                (Phase::CheckingInstall, Event::InstallChecked(false)) => {
                    &&& final(self).phase == Phase::Fetching
                    &&& match r {
                        Ok(Action::Fetch { url, stale_archive }) => {
                            &&& url@ == download_url_spec()
                            &&& stale_archive@ == archive_path(old(self).workdir@)
                        },
                        _ => false,
                    }
                },
                (Phase::Fetching, Event::Fetched { status, body }) => if 200 <= status < 300
                    && body is Some {
                    if extraction_ok(body.unwrap()@) {
                        match r {
                            Ok(Action::Extract { steps }) => {
                                &&& final(self).phase == Phase::Extracting
                                &&& steps_view(steps@) == plan_spec(
                                    package_path(old(self).workdir@),
                                    body.unwrap()@,
                                )
                                &&& forall|k: int|
                                    0 <= k < steps@.len() ==> under_root(
                                        package_path(old(self).workdir@),
                                        #[trigger] steps@[k].path_view(),
                                    )
                            },
                            _ => false,
                        }
                    } else {
                        match r {
                            Err(BootstrapError::Archive(_)) => final(self).phase == Phase::Finished,
                            _ => false,
                        }
                    }
                } else {
                    &&& r == Err::<Action, BootstrapError>(BootstrapError::Download { status })
                    &&& final(self).phase == Phase::Finished
                },
                (Phase::Extracting, Event::Extracted) => {
                    &&& old(self).launches_default(r)
                    &&& final(self).phase == Phase::Finished
                },
                _ => {
                    &&& r == Err::<Action, BootstrapError>(BootstrapError::UnexpectedEvent)
                    &&& final(self).phase == old(self).phase
                },
            },
    {
        match (&self.phase, event) {
            (Phase::CheckingInstall, Event::InstallChecked(installed)) => {
                if installed {
                    let r = self.launch_default();
                    self.phase = Phase::Finished;
                    r
                } else {
                    let mut url = RELEASES_URL.to_string();
                    url.append(SERVER_VERSION);
                    url.append("/");
                    url.append(ARCHIVE_NAME);
                    let stale_archive = join(self.workdir.as_str(), ARCHIVE_NAME);
                    self.phase = Phase::Fetching;
                    Ok(Action::Fetch { url, stale_archive })
                }
            },
            (Phase::Fetching, Event::Fetched { status, body }) => {
                self.phase = Phase::Finished;
                if status < 200 || status >= 300 {
                    return Err(BootstrapError::Download { status });
                }
                let bytes = match body {
                    Some(b) => b,
                    None => return Err(BootstrapError::Download { status }),
                };
                let root = join(self.workdir.as_str(), PACKAGE_DIR);
                match plan_extraction(bytes, root.as_str()) {
                    Ok(steps) => {
                        self.phase = Phase::Extracting;
                        Ok(Action::Extract { steps })
                    },
                    Err(e) => Err(BootstrapError::Archive(e)),
                }
            },
            (Phase::Extracting, Event::Extracted) => {
                let r = self.launch_default();
                self.phase = Phase::Finished;
                r
            },
            _ => Err(BootstrapError::UnexpectedEvent),
        }
    }

    /// The default server of this bootstrap.
    fn launch_default(&self) -> (r: Result<Action, BootstrapError>)
        ensures
            self.launches_default(r),
    {
        let executable = default_executable(self.platform.as_str());
        let (server_uri, server_uri_text) = match parse_url(executable.as_str()) {
            Ok(u) => u,
            Err(_) => return Err(BootstrapError::Config),
        };
        let args = match &self.args_override {
            Some(a) => a.clone(),
            None => default_args(self.workdir.as_str(), self.platform.as_str()),
        };
        Ok(Action::Launch(LaunchSpec {
            executable,
            server_uri,
            server_uri_text,
            args,
            selector: document_selector(),
        }))
    }
}

} // verus!
