//! Summing up a run of diagnostics.

use vstd::prelude::*;

verus! {

/// What the checks found.
#[derive(Debug, Clone, Copy, PartialEq, Eq, Structural)]
pub struct Findings {
    /// The configuration could be read.
    pub config_loaded: bool,
    /// The active profile exists.
    pub profile_found: bool,
    /// The active profile holds a storage API key.
    pub has_api_key: bool,
    /// The keys could be listed.
    pub keys_listed: bool,
    /// The network could be reached.
    pub network_reachable: bool,
}

/// Whether every check passed. The profile and its API key are looked at
/// only once the configuration is read, so a configuration that cannot be
/// read fails the run whatever the other two say.
pub fn run(findings: &Findings) -> (all_ok: bool)
    ensures
        all_ok == (findings.config_loaded && findings.profile_found && findings.has_api_key
            && findings.keys_listed && findings.network_reachable),
{
    findings.config_loaded && findings.profile_found && findings.has_api_key
        && findings.keys_listed && findings.network_reachable
}

/// The closing line of a run.
pub fn summary(all_ok: bool) -> (line: &'static str)
    ensures
        line@ == (if all_ok {
            "All checks passed!"@
        } else {
            "Some checks failed. Please review the issues above."@
        }),
{
    if all_ok {
        "All checks passed!"
    } else {
        "Some checks failed. Please review the issues above."
    }
}

} // verus!
