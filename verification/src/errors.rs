use vstd::prelude::*;

verus! {

/// Every way a resolution step can fail.  Each fallible lookup returns a
/// structured error instead of aborting, so the caller can report it and
/// exit; none of the library's own functions panic.
#[derive(Debug, PartialEq, Eq)]
pub enum MachError {
    /// The requested environment has no entry under the table looked at
    /// (the server table, or the resource table for tunnels).
    EnvironmentNotFound(String),
    /// The requested machine is not in the environment's server map.
    MachineNotFound(String),
    /// A machine's `jump` field names a machine absent from the same environment.
    JumpTargetNotFound(String),
    /// The jump target exists but has no `ip`; jump hosts must be addressed by IP.
    JumpMissingIp,
    /// The target machine has neither `ip` nor `name`, so no destination exists.
    DestinationMissing,
    /// The requested resource is not in the environment's resource map.
    ResourceNotFound(String),
    /// The username directive `env:<NAME>` named an unset environment variable.
    EnvVarMissing(String),
}

} // verus!
