//! The fixed recipe: every hard-coded URL, path and argument list of the
//! provisioning sequence, grouped here so the pipeline itself carries no
//! stray constants, plus the recipe-as-data form of the package-manager
//! command sequence.

use vstd::prelude::*;
use vstd::string::StringExecFns;

verus! {

/// The fixed download URL of the native runtime redistributable.
pub fn runtime_download_url() -> (r: &'static str)
    ensures
        r@ == "https://aka.ms/vs/17/release/vc_redist.x64.exe"@,
{
    "https://aka.ms/vs/17/release/vc_redist.x64.exe"
}

/// The file name the runtime installer is cached under in the temporary
/// directory; a file already there short-circuits the download.
pub fn runtime_installer_file_name() -> (r: &'static str)
    ensures
        r@ == "vc_redist.x64.exe"@,
{
    "vc_redist.x64.exe"
}

/// The repository whose latest release provides the toolchain installer.
pub fn installer_repository() -> (r: &'static str)
    ensures
        r@ == "msys2/msys2-installer"@,
{
    "msys2/msys2-installer"
}

/// The release-metadata URL for a repository's latest published release.
pub fn release_metadata_url(repo: &str) -> (r: String)
    ensures
        r@ == "https://api.github.com/repos/"@ + repo@ + "/releases/latest"@,
{
    let mut s = "https://api.github.com/repos/".to_owned();
    s.append(repo);
    s.append("/releases/latest");
    s
}

/// The identifying client header sent with metadata requests, required by
/// the remote API.
pub fn client_header() -> (r: (&'static str, &'static str))
    ensures
        r.0@ == "User-Agent"@,
        r.1@ == "reqwest"@,
{
    ("User-Agent", "reqwest")
}

/// The fixed root the toolchain is installed under, as handed to the
/// installer's `--root` argument.
pub fn toolchain_root() -> (r: &'static str)
    ensures
        r@ == "C:/msys64"@,
{
    "C:/msys64"
}

/// The fixed absolute path of the toolchain's command interpreter.
pub fn interpreter_path() -> (r: &'static str)
    ensures
        r@ == "C:\\msys64\\usr\\bin\\bash.exe"@,
{
    "C:\\msys64\\usr\\bin\\bash.exe"
}

/// The artifact whose appearance under the toolchain root marks the
/// asynchronous installation as complete, relative to that root.
pub fn readiness_artifact() -> (r: &'static str)
    ensures
        r@ == "usr/bin/bash.exe"@,
{
    "usr/bin/bash.exe"
}

/// The toolchain binary directory that the PATH update appends.
pub fn toolchain_bin_dir() -> (r: &'static str)
    ensures
        r@ == "C:\\msys64\\ucrt64\\bin"@,
{
    "C:\\msys64\\ucrt64\\bin"
}

/// The silent, no-restart argument list for the runtime installer.
pub fn silent_install_args() -> (r: Vec<&'static str>)
    ensures
        r@.len() == 2,
        r@[0]@ == "/quiet"@,
        r@[1]@ == "/norestart"@,
{
    let mut v: Vec<&'static str> = Vec::new();
    v.push("/quiet");
    v.push("/norestart");
    v
}

/// The prompt-suppressing argument list for the toolchain installer, ending
/// with the fixed installation root.
pub fn toolchain_install_args() -> (r: Vec<&'static str>)
    ensures
        r@.len() == 5,
        r@[0]@ == "in"@,
        r@[1]@ == "--confirm-command"@,
        r@[2]@ == "--accept-messages"@,
        r@[3]@ == "--root"@,
        r@[4]@ == "C:/msys64"@,
{
    let mut v: Vec<&'static str> = Vec::new();
    v.push("in");
    v.push("--confirm-command");
    v.push("--accept-messages");
    v.push("--root");
    v.push(toolchain_root());
    v
}

/// The argument pair that runs one inline command string through the
/// command interpreter as a login shell.
pub fn shell_invocation_args(cmd: &str) -> (r: (&'static str, &str))
    ensures
        r.0@ == "-lc"@,
        r.1@ == cmd@,
{
    ("-lc", cmd)
}

/// The recipe as data: the ordered package-manager command strings the
/// pipeline runs once the toolchain is ready, and whether the downloaded
/// toolchain installer is deleted after successful use. Both near-duplicate
/// variants of the provisioning sequence are expressible as values of this
/// type rather than as separate code paths.
pub struct Recipe {
    pub commands: Vec<String>,
    pub cleanup_installer: bool,
}

/// An arbitrary recipe from its parts.
pub fn custom_recipe(commands: Vec<String>, cleanup_installer: bool) -> (r: Recipe)
    ensures
        r.commands@ == commands@,
        r.cleanup_installer == cleanup_installer,
{
    Recipe { commands, cleanup_installer }
}

/// The standard recipe: update the package database, install the GUI
/// toolkit package set, and delete the downloaded installer afterwards.
pub fn standard_recipe() -> (r: Recipe)
    ensures
        r.commands@.len() == 2,
        r.commands@[0]@ == "pacman -Syu --noconfirm"@,
        r.commands@[1]@
            == "pacman -S --noconfirm mingw-w64-ucrt-x86_64-gtk4 mingw-w64-ucrt-x86_64-glade mingw-w64-ucrt-x86_64-toolchain mingw-w64-ucrt-x86_64-pkg-config"@,
        r.cleanup_installer == true,
{
    let mut commands: Vec<String> = Vec::new();
    commands.push("pacman -Syu --noconfirm".to_owned());
    commands.push(
        "pacman -S --noconfirm mingw-w64-ucrt-x86_64-gtk4 mingw-w64-ucrt-x86_64-glade mingw-w64-ucrt-x86_64-toolchain mingw-w64-ucrt-x86_64-pkg-config".to_owned(),
    );
    Recipe { commands, cleanup_installer: true }
}

} // verus!
