//! Presence checks: the side-effect-free decisions that gate each install
//! step. The filesystem probes themselves happen outside; these functions
//! build the paths to probe and turn the probe results into a verdict, so a
//! missing path is always an ordinary `false`, never a failure.

use vstd::prelude::*;
use vstd::string::StringExecFns;

verus! {

/// The system library directory: the OS root joined with `System32` when the
/// root lookup succeeded, and the conventional absolute default otherwise.
pub fn system_library_dir(system_root: Option<&str>) -> (r: String)
    ensures
        match system_root {
            Some(root) => r@ == root@ + "\\System32"@,
            None => r@ == "C:\\Windows\\System32"@,
        },
{
    match system_root {
        Some(root) => {
            let mut s = root.to_owned();
            s.append("\\System32");
            s
        },
        None => "C:\\Windows\\System32".to_owned(),
    }
}

/// The runtime library file names whose presence under the system directory
/// means the native runtime redistributable is already installed.
pub fn runtime_dll_names() -> (r: Vec<&'static str>)
    ensures
        r@.len() == 3,
        r@[0]@ == "vcruntime140.dll"@,
        r@[1]@ == "msvcp140.dll"@,
        r@[2]@ == "vcruntime140_1.dll"@,
{
    let mut v: Vec<&'static str> = Vec::new();
    v.push("vcruntime140.dll");
    v.push("msvcp140.dll");
    v.push("vcruntime140_1.dll");
    v
}

/// A directory joined with one file name, in the platform convention.
pub fn join_path(dir: &str, file: &str) -> (r: String)
    ensures
        r@ == dir@ + "\\"@ + file@,
{
    let mut s = dir.to_owned();
    s.append("\\");
    s.append(file);
    s
}

/// Some probe in the sequence came back positive.
pub open spec fn spec_any(flags: Seq<bool>) -> bool {
    exists|i: int| 0 <= i < flags.len() && flags[i]
}

/// Runtime presence decision: true exactly when at least one of the candidate
/// library files was found. An empty or all-negative probe result is an
/// ordinary `false`.
pub fn runtime_present(found: &Vec<bool>) -> (r: bool)
    ensures
        r == spec_any(found@),
{
    let n = found.len();
    let mut i: usize = 0;
    while i < n
        invariant
            n == found@.len(),
            i <= n,
            forall|k: int| 0 <= k < i ==> !found@[k],
        decreases n - i,
    {
        if found[i] {
            return true;
        }
        i += 1;
    }
    false
}

/// Toolchain presence decision: the fixed root directory exists and the
/// command interpreter exists beneath it.
pub fn toolchain_present(root_exists: bool, interpreter_exists: bool) -> (r: bool)
    ensures
        r == (root_exists && interpreter_exists),
{
    root_exists && interpreter_exists
}

/// A nonexistent path never fails a presence check: when every probe came
/// back negative, the verdict is `false`, not an error.
pub proof fn lemma_absent_paths_report_false(flags: Seq<bool>)
    requires
        forall|i: int| 0 <= i < flags.len() ==> !flags[i],
    ensures
        !spec_any(flags),
{
}

} // verus!
