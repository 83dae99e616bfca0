use vstd::prelude::*;
use crate::locator::{first_present, locate, SidecarError, SidecarPath};
use crate::platform::{spec_creation_flags, spec_sidecar_name, Platform};

verus! {

/// Everything needed to start the sidecar: the executable, the process
/// creation flags, and whether its standard output and standard error are
/// captured through pipes instead of being inherited from the host.
pub struct SpawnRequest {
    pub program: SidecarPath,
    pub creation_flags: u32,
    pub capture_stdout: bool,
    pub capture_stderr: bool,
}

/// How the sidecar at `program` is started on `platform`: both output
/// streams piped, and no console window on Windows.
pub fn spawn_request(program: SidecarPath, platform: Platform) -> (r: SpawnRequest)
    ensures
        r.program@ == program@,
        r.creation_flags == spec_creation_flags(platform),
        r.capture_stdout,
        r.capture_stderr,
{
    SpawnRequest {
        program,
        creation_flags: platform.creation_flags(),
        capture_stdout: true,
        capture_stderr: true,
    }
}

/// Locates the sidecar built for `platform` among `candidates` (with
/// `present[i]` telling whether `candidates[i]` exists) and says how to spawn
/// it. Fails with `NotFound` carrying the executable's name when no
/// candidate exists.
pub fn plan_launch(platform: Platform, candidates: Vec<SidecarPath>, present: &Vec<bool>) -> (r:
    Result<SpawnRequest, SidecarError>)
    requires
        candidates.len() == present.len(),
    ensures
        first_present(present@) < present.len() ==> match r {
            Ok(req) => {
                &&& req.program@ == candidates@[first_present(present@) as int]@
                &&& req.creation_flags == spec_creation_flags(platform)
                &&& req.capture_stdout
                &&& req.capture_stderr
            },
            Err(_) => false,
        },
        first_present(present@) >= present.len() ==> match r {
            Err(SidecarError::NotFound(name)) => name@ == spec_sidecar_name(platform),
            _ => false,
        },
{
    let name = platform.sidecar_name();
    match locate(name, candidates, present) {
        Ok(program) => Ok(spawn_request(program, platform)),
        Err(e) => Err(e),
    }
}

} // verus!
