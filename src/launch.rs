//! The default launch command of the server: executable, argument list and the
//! document selector that routes files to it.
use vstd::prelude::*;
use crate::text::{join, join_spec, str_eq};

verus! {

/// Directory, under the working directory, that the server package is unpacked into.
pub const PACKAGE_DIR: &'static str = "PSES";
/// Directory inside the package that holds the server's modules.
pub const MODULE_DIR: &'static str = "PowerShellEditorServices";
/// The server's entry script, inside the module directory.
pub const ENTRY_SCRIPT: &'static str = "Start-EditorServices.ps1";

/// The platform identifier on which the Windows shell is launched.
pub open spec fn windows_spec() -> Seq<char> {
    "windows"@
}

/// Path of the unpacked package under `w`.
pub open spec fn package_path(w: Seq<char>) -> Seq<char> {
    join_spec(w, PACKAGE_DIR@)
}

/// Path of the server's entry script under `w`.
pub open spec fn entry_script_path(w: Seq<char>) -> Seq<char> {
    join_spec(join_spec(package_path(w), MODULE_DIR@), ENTRY_SCRIPT@)
}

/// Path of the server's log file under `w`.
pub open spec fn log_path(w: Seq<char>) -> Seq<char> {
    join_spec(w, "logs.log"@)
}

/// Path of the server's session-details file under `w`.
pub open spec fn session_path(w: Seq<char>) -> Seq<char> {
    join_spec(w, "session.json"@)
}

/// The command string handed to the shell: it runs the entry script with the
/// module, log and session paths and the fixed host parameters.
pub open spec fn command_spec(w: Seq<char>) -> Seq<char> {
    "'& \""@ + entry_script_path(w) + "\" -BundledModulesPath \""@ + package_path(w)
        + "\" -LogPath \""@ + log_path(w) + "\" -SessionDetailsPath \""@ + session_path(w)
        + "\" -HostName \"Lapce Host\" -HostProfileId lapce -HostVersion 1.0.0 -Stdio -LogLevel Diagnostic'"@
}

/// The execution-policy pair that leads the argument list on Windows.
pub open spec fn policy_prefix(windows: bool) -> Seq<Seq<char>> {
    if windows {
        seq!["-ExecutionPolicy"@, "Bypass"@]
    } else {
        seq![]
    }
}

/// The default argument list for working directory `w`.
pub open spec fn default_args_spec(w: Seq<char>, windows: bool) -> Seq<Seq<char>> {
    policy_prefix(windows) + seq![
        "-NoLogo"@,
        "-NoProfile"@,
        "-NoExit"@,
        "-Interactive"@,
        "-Command"@,
        command_spec(w),
    ]
}

/// The locator of the default executable.
pub open spec fn default_executable_spec(windows: bool) -> Seq<char> {
    if windows {
        "urn:powershell.exe"@
    } else {
        "urn:pwsh"@
    }
}

/// The characters of each string of `v`.
pub open spec fn strings_view(v: Seq<String>) -> Seq<Seq<char>> {
    v.map_values(|s: String| s@)
}

/// Whether the platform identifier names Windows.
pub fn is_windows(platform: &str) -> (r: bool)
    ensures
        r == (platform@ == windows_spec()),
{
    str_eq(platform, "windows")
}

/// The command string for working directory `workdir`.
pub fn build_command(workdir: &str) -> (r: String)
    ensures
        r@ == command_spec(workdir@),
{
    let package = join(workdir, PACKAGE_DIR);
    let script = join(&join(&package, MODULE_DIR), ENTRY_SCRIPT);
    let log = join(workdir, "logs.log");
    let session = join(workdir, "session.json");
    let mut r = "'& \"".to_string();
    r.append(&script);
    r.append("\" -BundledModulesPath \"");
    r.append(&package);
    r.append("\" -LogPath \"");
    r.append(&log);
    r.append("\" -SessionDetailsPath \"");
    r.append(&session);
    r.append(
        "\" -HostName \"Lapce Host\" -HostProfileId lapce -HostVersion 1.0.0 -Stdio -LogLevel Diagnostic'",
    );
    r
}

/// The default argument list: the execution-policy pair on Windows only, then
/// the fixed shell flags and the command string, in this order.
pub fn default_args(workdir: &str, platform: &str) -> (r: Vec<String>)
    ensures
        strings_view(r@) == default_args_spec(workdir@, platform@ == windows_spec()),
{
    let windows = is_windows(platform);
    let mut r: Vec<String> = Vec::new();
    if windows {
        r.push("-ExecutionPolicy".to_string());
        r.push("Bypass".to_string());
    }
    r.push("-NoLogo".to_string());
    r.push("-NoProfile".to_string());
    r.push("-NoExit".to_string());
    r.push("-Interactive".to_string());
    r.push("-Command".to_string());
    r.push(build_command(workdir));
    assert(strings_view(r@) =~= default_args_spec(workdir@, windows));
    r
}

/// The locator of the default executable for the platform.
pub fn default_executable(platform: &str) -> (r: String)
    ensures
        r@ == default_executable_spec(platform@ == windows_spec()),
{
    if is_windows(platform) {
        "urn:powershell.exe".to_string()
    } else {
        "urn:pwsh".to_string()
    }
}

/// On Windows the default argument list opens with the execution-policy pair
/// followed by the no-logo flag; on any other platform it opens with the
/// no-logo flag, and the pair is absent.
pub proof fn lemma_policy_pair_only_on_windows(w: Seq<char>, windows: bool)
    ensures
        windows ==> {
            let a = default_args_spec(w, windows);
            &&& a.len() == 8
            &&& a[0] == "-ExecutionPolicy"@
            &&& a[1] == "Bypass"@
            &&& a[2] == "-NoLogo"@
        },
        !windows ==> {
            let a = default_args_spec(w, windows);
            &&& a.len() == 6
            &&& a[0] == "-NoLogo"@
        },
{
}

/// One filter of a document selector: a language identifier and a file glob.
#[derive(Debug, Clone, PartialEq, Eq)]
pub struct DocumentFilter {
    pub language: String,
    pub pattern: String,
}

/// Whether `s` is the selector of this server: one filter for PowerShell scripts.
pub open spec fn is_powershell_selector(s: Seq<DocumentFilter>) -> bool {
    &&& s.len() == 1
    &&& s[0].language@ == "powershell"@
    &&& s[0].pattern@ == "**/*.ps1"@
}

/// The document selector of the server.
pub fn document_selector() -> (r: Vec<DocumentFilter>)
    ensures
        is_powershell_selector(r@),
{
    let mut r: Vec<DocumentFilter> = Vec::new();
    r.push(DocumentFilter { language: "powershell".to_string(), pattern: "**/*.ps1".to_string() });
    r
}

} // verus!
