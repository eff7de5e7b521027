//! A default hardening profile for containers, and the container
//! configuration derived from it.
use vstd::prelude::*;
use crate::config::{ContainerConfig, HostLimits, MIB, CPU_PERIOD, CPU_QUOTA};
use crate::container::WORKING_DIR;
use crate::text::{push_signed_decimal, signed_decimal, strings};

verus! {

/// Memory cap of the default profile, in bytes (512 MiB).
pub const PROFILE_MEMORY: i64 = 536870912;

/// Security option of the default profile.
pub const SECCOMP_UNCONFINED: &'static str = "seccomp=unconfined";

/// A container hardening profile.
#[derive(Debug, Clone)]
pub struct SecurityConfig {
    pub host_config: HostLimits,
}

/// Integer division rounding toward zero, as Rust's `/` does.
pub open spec fn trunc_div(a: int, b: int) -> int {
    if a >= 0 {
        a / b
    } else {
        -((-a) / b)
    }
}

/// `a` and `b` hold the same limits.
pub open spec fn same_limits(a: HostLimits, b: HostLimits) -> bool {
    &&& a.memory == b.memory
    &&& a.memory_swap == b.memory_swap
    &&& a.cpu_period == b.cpu_period
    &&& a.cpu_quota == b.cpu_quota
    &&& (a.security_opt is Some <==> b.security_opt is Some)
    &&& (a.security_opt matches Some(x) ==> b.security_opt matches Some(y) && strings(x@) == strings(y@))
    &&& (a.network_mode is Some <==> b.network_mode is Some)
    &&& (a.network_mode matches Some(x) ==> b.network_mode matches Some(y) && x@ == y@)
}

fn clone_strings(v: &Vec<String>) -> (r: Vec<String>)
    ensures
        strings(r@) == strings(v@),
{
    let mut r: Vec<String> = Vec::new();
    let mut i: usize = 0;
    while i < v.len()
        invariant
            i <= v.len(),
            strings(r@) == strings(v@.subrange(0, i as int)),
        decreases v.len() - i,
    {
        let ghost before = r@;
        r.push(v[i].clone());
        assert(strings(r@) =~= strings(before).push(v@[i as int]@));
        assert(strings(v@.subrange(0, i + 1)) =~= strings(v@.subrange(0, i as int)).push(v@[i as int]@));
        i = i + 1;
    }
    assert(v@.subrange(0, v.len() as int) =~= v@);
    r
}

fn clone_limits(h: &HostLimits) -> (r: HostLimits)
    ensures
        same_limits(r, *h),
{
    HostLimits {
        memory: h.memory,
        memory_swap: h.memory_swap,
        cpu_period: h.cpu_period,
        cpu_quota: h.cpu_quota,
        security_opt: match &h.security_opt {
            Some(o) => Some(clone_strings(o)),
            None => None,
        },
        network_mode: match &h.network_mode {
            Some(m) => Some(m.clone()),
            None => None,
        },
    }
}

/// The default profile: 512 MiB of memory and no swap, half of one core,
/// and seccomp left unconfined.
pub fn create_seccomp_profile() -> (r: SecurityConfig)
    ensures
        r.host_config.memory == Some(PROFILE_MEMORY),
        r.host_config.memory_swap == Some(PROFILE_MEMORY),
        r.host_config.cpu_period == Some(CPU_PERIOD),
        r.host_config.cpu_quota == Some(CPU_QUOTA),
        r.host_config.security_opt matches Some(o) && strings(o@) == seq![SECCOMP_UNCONFINED@],
        r.host_config.network_mode is None,
{
    let mut opts: Vec<String> = Vec::new();
    opts.push(SECCOMP_UNCONFINED.to_owned());
    assert(strings(opts@) =~= seq![SECCOMP_UNCONFINED@]);
    SecurityConfig {
        host_config: HostLimits {
            memory: Some(PROFILE_MEMORY),
            memory_swap: Some(PROFILE_MEMORY),
            cpu_period: Some(CPU_PERIOD),
            cpu_quota: Some(CPU_QUOTA),
            security_opt: Some(opts),
            network_mode: None,
        },
    }
}

impl SecurityConfig {
    /// A container configuration carrying this profile: its limits, the
    /// memory limit in MiB in the environment, the working directory, and
    /// networking disabled unless a network mode is set.
    pub fn apply_to_container_config(&self) -> (r: ContainerConfig)
        requires
            self.host_config.memory is Some,
        ensures
            r.host_config matches Some(h) && same_limits(h, self.host_config),
            r.env matches Some(e) && strings(e@) == seq![
                "MEMORY_LIMIT="@ + signed_decimal(trunc_div(self.host_config.memory.unwrap() as int, MIB as int)),
            ],
            r.working_dir matches Some(w) && w@ == WORKING_DIR@,
            r.network_disabled == Some(self.host_config.network_mode is None),
            r.image is None && r.cmd is None && r.open_stdin is None,
    {
        let m = match self.host_config.memory {
            Some(m) => m,
            None => 0,
        };
        let q: i64 = if m >= 0 {
            m / MIB
        } else {
            let n: i128 = -(m as i128);
            -((n / (MIB as i128)) as i64)
        };
        let mut var = String::new();
        var.append("MEMORY_LIMIT=");
        push_signed_decimal(&mut var, q);
        let mut env: Vec<String> = Vec::new();
        env.push(var);
        assert(strings(env@) =~= seq![
            "MEMORY_LIMIT="@ + signed_decimal(trunc_div(m as int, MIB as int)),
        ]);
        ContainerConfig {
            image: None,
            cmd: None,
            host_config: Some(clone_limits(&self.host_config)),
            working_dir: Some(WORKING_DIR.to_owned()),
            env: Some(env),
            network_disabled: Some(self.host_config.network_mode.is_none()),
            open_stdin: None,
        }
    }
}

} // verus!
