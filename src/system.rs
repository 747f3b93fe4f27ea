//! What the shell reports about the machine it runs on.

use vstd::prelude::*;

verus! {

/// Facts about the host: operating system name, CPU architecture, number of
/// CPUs available, and host name.
#[derive(Debug)]
pub struct SystemInfo {
    pub platform: String,
    pub arch: String,
    pub cpu_count: usize,
    pub hostname: String,
}

/// The CPU count reported for a reading of the available parallelism: the
/// reading itself, or one when there is none (a reading of zero counts as none).
pub open spec fn cpu_count_of(parallelism: Option<usize>) -> usize {
    match parallelism {
        Some(n) => if n == 0 { 1 } else { n },
        None => 1,
    }
}

/// Chooses the CPU count for a reading of the available parallelism.
pub fn cpu_count(parallelism: Option<usize>) -> (r: usize)
    ensures
        r == cpu_count_of(parallelism),
        r >= 1,
{
    match parallelism {
        Some(n) => if n == 0 { 1 } else { n },
        None => 1,
    }
}

/// The record of the host's facts, as read by the caller.
pub fn system_info(platform: String, arch: String, parallelism: Option<usize>, hostname: String) -> (r: SystemInfo)
    ensures
        r.platform == platform,
        r.arch == arch,
        r.cpu_count == cpu_count_of(parallelism),
        r.cpu_count >= 1,
        r.hostname == hostname,
{
    SystemInfo { platform, arch, cpu_count: cpu_count(parallelism), hostname }
}

/// Relies on gethostname::gethostname: the host name of this machine, with any
/// bytes that are not valid Unicode replaced (`to_string_lossy`). It depends on
/// the machine, so nothing is promised of the value.
#[verifier::external_body]
fn host_name() -> (r: String) {
    gethostname::gethostname().to_string_lossy().into_owned()
}

/// The record for this machine, from the operating system name, architecture
/// and parallelism reading that the caller supplies, and the host name looked up here.
pub fn get_system_info(platform: String, arch: String, parallelism: Option<usize>) -> (r: SystemInfo)
    ensures
        r.platform == platform,
        r.arch == arch,
        r.cpu_count == cpu_count_of(parallelism),
        r.cpu_count >= 1,
{
    system_info(platform, arch, parallelism, host_name())
}

} // verus!
