//! Verified core of a desktop host shell that supervises a long-running
//! companion server process: integrity-checked launch, idempotent lifecycle
//! control, resource sampling with a derived throttling signal, and the
//! rendering of crash-safe state snapshots.

pub mod feed;
pub mod integrity;
pub mod render;
pub mod resources;
pub mod supervisor;
pub mod text;

use vstd::prelude::*;
use vstd::string::StringExecFns;

verus! {

/// File name of the companion server executable for the given platform
/// flavour (`windows` selects the `.exe` suffix).
pub fn sidecar_filename(windows: bool) -> (r: &'static str)
    ensures
        windows ==> r@ == "project-dawn-server.exe"@,
        !windows ==> r@ == "project-dawn-server"@,
{
    if windows {
        "project-dawn-server.exe"
    } else {
        "project-dawn-server"
    }
}

/// Name of the digest file published beside an executable: the executable's
/// file name with `.sha256` appended.
pub fn checksum_filename(name: &str) -> (r: String)
    ensures
        r@ == name@ + ".sha256"@,
{
    let mut s = name.to_owned();
    s.append(".sha256");
    s
}

} // verus!
