//! The container backend: image selection, container planning and the
//! identifier of each execution.
use vstd::prelude::*;
pub use crate::status::ExecutionStatus;
pub use crate::result::ExecutionResult;
use crate::config::{ContainerConfig, HostLimits, memory_bytes, MIB, CPU_PERIOD, CPU_QUOTA};
use crate::error::ExecError;
use crate::text::{decimal, str_is, strings, text_concat, text_with_decimal};

verus! {

/// Directory inside the sandbox in which user code runs.
pub const WORKING_DIR: &'static str = "/workspace";

/// Hardening option that forbids privilege escalation.
pub const NO_NEW_PRIVILEGES: &'static str = "no-new-privileges";

/// The container image that serves a language and version, if any.
pub open spec fn image_for(language: Seq<char>, version: Seq<char>) -> Option<Seq<char>> {
    if language == "cpp"@ && version == "23"@ {
        Some("code-executor-cpp-23"@)
    } else if language == "python"@ && version == "3.12"@ {
        Some("code-executor-python-3.12"@)
    } else if language == "ruby"@ && version == "3.2"@ {
        Some("code-executor-ruby-3.2"@)
    } else {
        None
    }
}

/// Looks up the container image of a language and version.
pub fn image_name(language: &str, version: &str) -> (r: Option<&'static str>)
    ensures
        r is None <==> image_for(language@, version@) is None,
        r matches Some(i) ==> image_for(language@, version@) == Some(i@),
{
    if str_is(language, "cpp") && str_is(version, "23") {
        Some("code-executor-cpp-23")
    } else if str_is(language, "python") && str_is(version, "3.12") {
        Some("code-executor-python-3.12")
    } else if str_is(language, "ruby") && str_is(version, "3.2") {
        Some("code-executor-ruby-3.2")
    } else {
        None
    }
}

/// Whether the images of a language wrap the program in a timing utility
/// that writes a timing block into stderr.
pub open spec fn timed_language(language: Seq<char>) -> bool {
    language == "python"@ || language == "ruby"@
}

pub fn has_timing_block(language: &str) -> (r: bool)
    ensures
        r == timed_language(language@),
{
    str_is(language, "python") || str_is(language, "ruby")
}

/// The environment handed to the sandbox's entrypoint.
pub open spec fn env_for(code: Seq<char>, timeout_seconds: nat, memory_limit_mb: nat, id: Seq<char>) -> Seq<Seq<char>> {
    seq![
        "MEMORY_LIMIT="@ + decimal(memory_limit_mb),
        "TIMEOUT="@ + decimal(timeout_seconds),
        "USER_CODE="@ + code,
        "EXECUTION_ID="@ + id,
    ]
}

/// The host limits of a container with the given memory limit in MiB.
pub open spec fn container_limits_ok(h: HostLimits, memory_limit_mb: nat) -> bool {
    &&& h.memory == Some((memory_limit_mb * MIB) as i64)
    &&& h.memory_swap == h.memory
    &&& h.cpu_period == Some(CPU_PERIOD)
    &&& h.cpu_quota == Some(CPU_QUOTA)
    &&& h.security_opt matches Some(o) && strings(o@) == seq![NO_NEW_PRIVILEGES@]
    &&& h.network_mode is None
}

/// Everything needed to create the container of one execution.
#[derive(Debug, Clone)]
pub struct ContainerPlan {
    /// The container's name, unique to the execution.
    pub name: String,
    /// The opaque identifier of the execution.
    pub execution_id: String,
    pub config: ContainerConfig,
    /// Whether stderr carries a timing block to extract.
    pub timing_block: bool,
}

/// The plan is the one for this request and identifier.
pub open spec fn plan_matches(
    p: ContainerPlan,
    code: Seq<char>,
    language: Seq<char>,
    image: Seq<char>,
    timeout_seconds: nat,
    memory_limit_mb: nat,
    id: Seq<char>,
) -> bool {
    &&& p.name@ == "code-exec-"@ + language + "-"@ + id
    &&& p.execution_id@ == id
    &&& p.timing_block == timed_language(language)
    &&& p.config.image matches Some(i) && i@ == image
    &&& p.config.cmd matches Some(c) && c@.len() == 0
    &&& p.config.host_config matches Some(h) && container_limits_ok(h, memory_limit_mb)
    &&& p.config.working_dir matches Some(w) && w@ == WORKING_DIR@
    &&& p.config.env matches Some(e) && strings(e@) == env_for(code, timeout_seconds, memory_limit_mb, id)
    &&& p.config.network_disabled == Some(true)
    &&& p.config.open_stdin == Some(true)
}

/// Builds the container plan of a request whose image is known.
pub fn plan_container(
    code: &str,
    language: &str,
    image: &str,
    timeout_seconds: u32,
    memory_limit_mb: u32,
    execution_id: &str,
) -> (r: ContainerPlan)
    ensures
        plan_matches(r, code@, language@, image@, timeout_seconds as nat, memory_limit_mb as nat, execution_id@),
{
    let mut name = text_concat("code-exec-", language);
    name.append("-");
    name.append(execution_id);
    let mut env: Vec<String> = Vec::new();
    env.push(text_with_decimal("MEMORY_LIMIT=", memory_limit_mb as u64));
    env.push(text_with_decimal("TIMEOUT=", timeout_seconds as u64));
    env.push(text_concat("USER_CODE=", code));
    env.push(text_concat("EXECUTION_ID=", execution_id));
    assert(strings(env@) =~= env_for(code@, timeout_seconds as nat, memory_limit_mb as nat, execution_id@));
    let mut opts: Vec<String> = Vec::new();
    opts.push(NO_NEW_PRIVILEGES.to_owned());
    assert(strings(opts@) =~= seq![NO_NEW_PRIVILEGES@]);
    let mem = memory_bytes(memory_limit_mb);
    let host = HostLimits {
        memory: Some(mem),
        memory_swap: Some(mem),
        cpu_period: Some(CPU_PERIOD),
        cpu_quota: Some(CPU_QUOTA),
        security_opt: Some(opts),
        network_mode: None,
    };
    let config = ContainerConfig {
        image: Some(image.to_owned()),
        cmd: Some(Vec::new()),
        host_config: Some(host),
        working_dir: Some(WORKING_DIR.to_owned()),
        env: Some(env),
        network_disabled: Some(true),
        open_stdin: Some(true),
    };
    ContainerPlan {
        name,
        execution_id: execution_id.to_owned(),
        config,
        timing_block: has_timing_block(language),
    }
}

/// Whether `c` is a lower-case hexadecimal digit.
pub open spec fn is_lower_hex(c: char) -> bool {
    ('0' as u32 <= c as u32 <= '9' as u32) || ('a' as u32 <= c as u32 <= 'f' as u32)
}

/// The hyphenated lower-case text of a UUID: 36 characters, hyphens at 8,
/// 13, 18 and 23, hexadecimal digits elsewhere.
pub open spec fn is_uuid_text(s: Seq<char>) -> bool {
    &&& s.len() == 36
    &&& forall|i: int|
        0 <= i < 36 ==> if i == 8 || i == 13 || i == 18 || i == 23 {
            #[trigger] s[i] == '-'
        } else {
            is_lower_hex(s[i])
        }
}

/// Relies on `uuid::Uuid::new_v4` and its `Display`, which writes the
/// hyphenated lower-case form; the value itself is random.
#[verifier::external_body]
fn new_execution_id() -> (r: String)
    ensures
        is_uuid_text(r@),
{
    uuid::Uuid::new_v4().to_string()
}

/// Plans the container of a request. An unsupported language and version
/// fails here, before any identifier is drawn or any resource allocated.
pub fn prepare_container(
    code: &str,
    language: &str,
    version: &str,
    timeout_seconds: u32,
    memory_limit_mb: u32,
) -> (r: Result<ContainerPlan, ExecError>)
    ensures
        r is Err <==> image_for(language@, version@) is None,
        r matches Err(e) ==> e matches ExecError::UnsupportedRuntime { language: l, version: v }
            && l@ == language@ && v@ == version@,
        r matches Ok(p) ==> is_uuid_text(p.execution_id@) && plan_matches(
            p,
            code@,
            language@,
            image_for(language@, version@).unwrap(),
            timeout_seconds as nat,
            memory_limit_mb as nat,
            p.execution_id@,
        ),
{
    match image_name(language, version) {
        None => Err(
            ExecError::UnsupportedRuntime {
                language: language.to_owned(),
                version: version.to_owned(),
            },
        ),
        Some(image) => {
            let id = new_execution_id();
            let p = plan_container(code, language, image, timeout_seconds, memory_limit_mb, id.as_str());
            Ok(p)
        },
    }
}

} // verus!
