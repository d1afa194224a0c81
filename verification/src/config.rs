//! Configuration of the supervisor: the keyed document the process starts
//! from, the offer-query parameters, and the contemplant settings handed to
//! rented instances.
//!
//! The I/O shell reads the configuration file and the environment; this
//! module holds the defaults, the environment-override merge (environment
//! wins), the required-field validation, and the two encoders: the offer
//! query document and the contemplant environment exports. Fractional
//! query parameters (reliability, CUDA version, duration, price) are
//! carried as fixed-point milli units (thousandths).

use vstd::prelude::*;

use crate::numbers::{dec_str, milli_str, u64_to_string, format_milli};
use crate::vast::opt_ids;

verus! {

/// Default verification timeout: how long a contemplant may stay silent.
pub fn default_contemplant_verification_timeout_secs() -> (r: u64)
    ensures
        r == 180,
{
    180
}

/// Default backoff between rate-limited marketplace calls.
pub fn vast_api_call_backoff_secs() -> (r: u64)
    ensures
        r == 10,
{
    10
}

/// Default period of the reconciliation tick.
pub fn default_task_polling_interval_secs() -> (r: u64)
    ensures
        r == 30,
{
    30
}

/// Default control-plane port.
pub fn default_http_port() -> (r: u16)
    ensures
        r == 8555,
{
    8555
}

/// Default contemplant prover type.
pub fn default_prover_type() -> (r: String)
    ensures
        r@ == "cpu"@,
{
    "cpu".to_owned()
}

/// Default contemplant health-check port.
pub fn default_contemplant_http_port() -> (r: u16)
    ensures
        r == 9011,
{
    9011
}

/// Default contemplant heartbeat interval.
pub fn default_heartbeat_interval_seconds() -> (r: u64)
    ensures
        r == 30,
{
    30
}

/// Default number of finished proofs a contemplant keeps in memory.
pub fn default_max_proofs_stored() -> (r: usize)
    ensures
        r == 2,
{
    2
}

/// Default contemplant progress-log path.
pub fn default_moongate_log_path() -> (r: String)
    ensures
        r@ == "./moongate.log"@,
{
    "./moongate.log".to_owned()
}

/// Default contemplant log-polling interval.
pub fn default_watcher_polling_interval_ms() -> (r: u64)
    ensures
        r == 2000,
{
    2000
}

/// Settings for the contemplants this supervisor spawns, exported to each
/// rented instance through its onstart environment.
pub struct ContemplantConfig {
    /// Prover type: "cpu" or "cuda".
    pub prover_type: String,
    /// Human-readable name for contemplants.
    pub contemplant_name: Option<String>,
    /// Port for the contemplant's HTTP health-check server.
    pub http_port: u16,
    /// CUDA prover endpoint, if any.
    pub moongate_endpoint: Option<String>,
    /// Heartbeat interval in seconds.
    pub heartbeat_interval_seconds: u64,
    /// Maximum number of finished proofs kept in memory.
    pub max_proofs_stored: usize,
    /// Path of the progress-tracking log file.
    pub moongate_log_path: String,
    /// Log polling interval in milliseconds.
    pub watcher_polling_interval_ms: u64,
    /// Newline-separated SSH public keys for debugging access, if any.
    pub ssh_authorized_keys: Option<String>,
}

/// A value copy of an optional string.
fn clone_opt_string(s: &Option<String>) -> (r: Option<String>)
    ensures
        r == *s,
{
    match s {
        Some(v) => Some(v.clone()),
        None => None,
    }
}

impl Clone for ContemplantConfig {
    fn clone(&self) -> (r: Self)
        ensures
            r == *self,
    {
        ContemplantConfig {
            prover_type: self.prover_type.clone(),
            contemplant_name: clone_opt_string(&self.contemplant_name),
            http_port: self.http_port,
            moongate_endpoint: clone_opt_string(&self.moongate_endpoint),
            heartbeat_interval_seconds: self.heartbeat_interval_seconds,
            max_proofs_stored: self.max_proofs_stored,
            moongate_log_path: self.moongate_log_path.clone(),
            watcher_polling_interval_ms: self.watcher_polling_interval_ms,
            ssh_authorized_keys: clone_opt_string(&self.ssh_authorized_keys),
        }
    }
}

impl Default for ContemplantConfig {
    /// The default contemplant settings.
    fn default() -> (r: Self)
        ensures
            r.prover_type@ == "cpu"@,
            r.contemplant_name is None,
            r.http_port == 9011,
            r.moongate_endpoint is None,
            r.heartbeat_interval_seconds == 30,
            r.max_proofs_stored == 2,
            r.moongate_log_path@ == "./moongate.log"@,
            r.watcher_polling_interval_ms == 2000,
            r.ssh_authorized_keys is None,
    {
        ContemplantConfig {
            prover_type: default_prover_type(),
            contemplant_name: None,
            http_port: default_contemplant_http_port(),
            moongate_endpoint: None,
            heartbeat_interval_seconds: default_heartbeat_interval_seconds(),
            max_proofs_stored: default_max_proofs_stored(),
            moongate_log_path: default_moongate_log_path(),
            watcher_polling_interval_ms: default_watcher_polling_interval_ms(),
            ssh_authorized_keys: None,
        }
    }
}

/// One character of an SSH-key value, escaped for the shell export line:
/// a backslash doubles, a double quote and a newline gain a backslash.
pub open spec fn shell_escaped_char(c: char) -> Seq<char> {
    if c == '\\' {
        seq!['\\', '\\']
    } else if c == '"' {
        seq!['\\', '"']
    } else if c == '\n' {
        seq!['\\', 'n']
    } else {
        seq![c]
    }
}

/// An SSH-key value escaped character by character.
pub open spec fn shell_escaped(s: Seq<char>) -> Seq<char>
    decreases s.len(),
{
    if s.len() == 0 {
        Seq::<char>::empty()
    } else {
        shell_escaped(s.drop_last()) + shell_escaped_char(s.last())
    }
}

/// Escapes an SSH-key value for its shell export line.
fn escape_ssh_keys(s: &str) -> (r: String)
    ensures
        r@ == shell_escaped(s@),
{
    let len = s.unicode_len();
    let mut r = String::new();
    let mut i: usize = 0;
    proof {
        assert(shell_escaped(s@.subrange(0, 0)) =~= Seq::<char>::empty());
    }
    while i < len
        invariant
            0 <= i <= len,
            len == s@.len(),
            r@ == shell_escaped(s@.subrange(0, i as int)),
        decreases len - i,
    {
        proof {
            let pre = s@.subrange(0, i as int);
            let cur = s@.subrange(0, i + 1);
            assert(cur.drop_last() =~= pre);
            assert(shell_escaped(cur) == shell_escaped(pre) + shell_escaped_char(s@[i as int]));
            reveal_strlit("\\\\");
            reveal_strlit("\\\"");
            reveal_strlit("\\n");
        }
        let c = s.get_char(i);
        if c == '\\' {
            r.append("\\\\");
            proof {
                assert(r@ =~= shell_escaped(s@.subrange(0, i + 1)));
            }
        } else if c == '"' {
            r.append("\\\"");
            proof {
                assert(r@ =~= shell_escaped(s@.subrange(0, i + 1)));
            }
        } else if c == '\n' {
            r.append("\\n");
            proof {
                assert(r@ =~= shell_escaped(s@.subrange(0, i + 1)));
            }
        } else {
            let piece = s.substring_char(i, i + 1);
            r.append(piece);
            proof {
                assert(r@ =~= shell_escaped(s@.subrange(0, i + 1)));
            }
        }
        i += 1;
    }
    proof {
        assert(s@.subrange(0, len as int) =~= s@);
    }
    r
}

/// One shell export: `export KEY=\"VALUE\"` (the quotes themselves
/// escaped, since the whole line is later embedded in a quoted command).
pub open spec fn export_kv(key: Seq<char>, value: Seq<char>) -> Seq<char> {
    "export "@ + key + "=\\\""@ + value + "\\\""@
}

/// Appends one shell export to the command being built.
fn append_export(s: &mut String, key: &str, value: &str)
    ensures
        final(s)@ == old(s)@ + export_kv(key@, value@),
{
    s.append("export ");
    s.append(key);
    s.append("=\\\"");
    s.append(value);
    s.append("\\\"");
}

/// The environment exports a contemplant receives: prover type, ports and
/// intervals always; name, endpoint and SSH keys only when set; joined by
/// `; ` in a fixed order.
pub open spec fn env_exports_spec(c: ContemplantConfig) -> Seq<char> {
    export_kv("PROVER_TYPE"@, c.prover_type@) + (match c.contemplant_name {
        Some(n) => "; "@ + export_kv("CONTEMPLANT_NAME"@, n@),
        None => Seq::<char>::empty(),
    }) + "; "@ + export_kv("HTTP_PORT"@, dec_str(c.http_port as nat)) + (
    match c.moongate_endpoint {
        Some(e) => "; "@ + export_kv("MOONGATE_ENDPOINT"@, e@),
        None => Seq::<char>::empty(),
    }) + "; "@ + export_kv("HEARTBEAT_INTERVAL_SECONDS"@, dec_str(c.heartbeat_interval_seconds as nat))
        + "; "@ + export_kv("MAX_PROOFS_STORED"@, dec_str(c.max_proofs_stored as nat)) + "; "@
        + export_kv("MOONGATE_LOG_PATH"@, c.moongate_log_path@) + "; "@ + export_kv(
        "WATCHER_POLLING_INTERVAL_MS"@,
        dec_str(c.watcher_polling_interval_ms as nat),
    ) + (match c.ssh_authorized_keys {
        Some(k) => "; "@ + export_kv("SSH_AUTHORIZED_KEYS"@, shell_escaped(k@)),
        None => Seq::<char>::empty(),
    })
}

impl ContemplantConfig {
    /// Renders the environment-variable exports for the onstart command
    /// handed to contemplants spawned on rented instances.
    pub fn to_env_exports(&self) -> (r: String)
        ensures
            r@ == env_exports_spec(*self),
    {
        let mut s = String::new();
        append_export(&mut s, "PROVER_TYPE", self.prover_type.as_str());
        match &self.contemplant_name {
            Some(n) => {
                s.append("; ");
                append_export(&mut s, "CONTEMPLANT_NAME", n.as_str());
            },
            None => {},
        }
        s.append("; ");
        let port = u64_to_string(self.http_port as u64);
        append_export(&mut s, "HTTP_PORT", port.as_str());
        match &self.moongate_endpoint {
            Some(e) => {
                s.append("; ");
                append_export(&mut s, "MOONGATE_ENDPOINT", e.as_str());
            },
            None => {},
        }
        s.append("; ");
        let heartbeat = u64_to_string(self.heartbeat_interval_seconds);
        append_export(&mut s, "HEARTBEAT_INTERVAL_SECONDS", heartbeat.as_str());
        s.append("; ");
        let max_proofs = u64_to_string(self.max_proofs_stored as u64);
        append_export(&mut s, "MAX_PROOFS_STORED", max_proofs.as_str());
        s.append("; ");
        append_export(&mut s, "MOONGATE_LOG_PATH", self.moongate_log_path.as_str());
        s.append("; ");
        let watcher = u64_to_string(self.watcher_polling_interval_ms);
        append_export(&mut s, "WATCHER_POLLING_INTERVAL_MS", watcher.as_str());
        match &self.ssh_authorized_keys {
            Some(k) => {
                s.append("; ");
                let escaped = escape_ssh_keys(k.as_str());
                append_export(&mut s, "SSH_AUTHORIZED_KEYS", escaped.as_str());
            },
            None => {},
        }
        proof {
            assert(s@ =~= env_exports_spec(*self));
        }
        s
    }
}

/// Parameters of the offer search. Fractional values are fixed-point
/// milli units: a reliability of 0.98 is 980, a price ceiling of $0.53 an
/// hour is 530.
pub struct VastQueryConfig {
    /// Storage to allocate, in GB.
    pub allocated_storage: u16,
    /// GPU model the offers must carry, e.g. "RTX 4090".
    pub gpu_name: String,
    /// Minimum reliability, in thousandths of 1.
    pub reliability_milli: u64,
    /// Minimum CUDA version, in thousandths.
    pub min_cuda_version_milli: u64,
    /// Minimum GPU RAM, in GB; the query emits it in MB.
    pub gpu_ram: u64,
    /// Minimum disk space, in GB.
    pub disk_space: u64,
    /// Minimum rental duration, in thousandths of a second.
    pub duration_milli: u64,
    /// Maximum cost per hour, in thousandths of a dollar.
    pub cost_per_hour_milli: u64,
}

impl Clone for VastQueryConfig {
    fn clone(&self) -> (r: Self)
        ensures
            r == *self,
    {
        VastQueryConfig {
            allocated_storage: self.allocated_storage,
            gpu_name: self.gpu_name.clone(),
            reliability_milli: self.reliability_milli,
            min_cuda_version_milli: self.min_cuda_version_milli,
            gpu_ram: self.gpu_ram,
            disk_space: self.disk_space,
            duration_milli: self.duration_milli,
            cost_per_hour_milli: self.cost_per_hour_milli,
        }
    }
}

/// The offer filter document: one compact JSON object carrying the disk,
/// reliability, duration, verified-only, price-ceiling, GPU RAM (in MB:
/// the GB value with `000` appended), score-descending sort, rentable,
/// CUDA, GPU-name, allocated-storage and ask-type constraints.
pub open spec fn query_string_spec(q: VastQueryConfig) -> Seq<char> {
    "{\"disk_space\":{\"gte\": "@ + dec_str(q.disk_space as nat)
        + "},\"reliability2\":{\"gte\":"@ + milli_str(q.reliability_milli as nat)
        + "},\"duration\":{\"gte\":"@ + milli_str(q.duration_milli as nat)
        + "},\"verified\":{\"eq\":true}, \"dph_total\":{\"lte\":"@ + milli_str(
        q.cost_per_hour_milli as nat,
    ) + "},\"gpu_ram\":{\"gte\":"@ + dec_str(q.gpu_ram as nat)
        + "000},\"sort_option\": {\"0\":[\"score\", \"desc\"]},\"rentable\":{\"eq\":true}, \"cuda_max_good\":{\"gte\":\""@
        + milli_str(q.min_cuda_version_milli as nat) + "\"},\"gpu_name\":{\"in\":[\""@
        + q.gpu_name@ + "\"]},\"allocated_storage\":"@ + dec_str(q.allocated_storage as nat)
        + ",\"order\": [[\"score\", \"desc\"]],\"type\":\"ask\"}"@
}

impl VastQueryConfig {
    /// Renders the offer filter document sent as the `q` parameter of the
    /// list-offers call.
    pub fn to_query_string(&self) -> (r: String)
        ensures
            r@ == query_string_spec(*self),
    {
        let mut s = "{\"disk_space\":{\"gte\": ".to_owned();
        let disk = u64_to_string(self.disk_space);
        s.append(disk.as_str());
        s.append("},\"reliability2\":{\"gte\":");
        let rel = format_milli(self.reliability_milli);
        s.append(rel.as_str());
        s.append("},\"duration\":{\"gte\":");
        let dur = format_milli(self.duration_milli);
        s.append(dur.as_str());
        s.append("},\"verified\":{\"eq\":true}, \"dph_total\":{\"lte\":");
        let cost = format_milli(self.cost_per_hour_milli);
        s.append(cost.as_str());
        s.append("},\"gpu_ram\":{\"gte\":");
        let ram = u64_to_string(self.gpu_ram);
        s.append(ram.as_str());
        s.append(
            "000},\"sort_option\": {\"0\":[\"score\", \"desc\"]},\"rentable\":{\"eq\":true}, \"cuda_max_good\":{\"gte\":\"",
        );
        let cuda = format_milli(self.min_cuda_version_milli);
        s.append(cuda.as_str());
        s.append("\"},\"gpu_name\":{\"in\":[\"");
        s.append(self.gpu_name.as_str());
        s.append("\"]},\"allocated_storage\":");
        let alloc = u64_to_string(self.allocated_storage as u64);
        s.append(alloc.as_str());
        s.append(",\"order\": [[\"score\", \"desc\"]],\"type\":\"ask\"}");
        s
    }
}

/// The supervisor's configuration: control-plane address and port, the
/// upstream coordinator, the marketplace credentials and query, the tick
/// and backoff timings, the fleet size, the host/machine block- and
/// allowlists, and the contemplant settings.
pub struct Config {
    /// Port the control plane listens on.
    pub http_port: u16,
    /// Externally reachable address of this supervisor, handed to
    /// contemplants for drop requests.
    pub this_magister_addr: String,
    /// Address of the upstream coordinator, handed to contemplants.
    pub hierophant_ip: String,
    /// HTTP port of the upstream coordinator.
    pub hierophant_http_port: u16,
    /// The offer search parameters.
    pub vast_query: VastQueryConfig,
    /// Bearer token for the marketplace API.
    pub vast_api_key: String,
    /// Base backoff between rate-limited marketplace calls, in seconds.
    pub vast_api_call_backoff_secs: u64,
    /// Period of the reconciliation tick, in seconds.
    pub task_polling_interval_secs: u64,
    /// How long an unverified instance may live, in seconds.
    pub contemplant_verification_timeout_secs: u64,
    /// Marketplace template the instances are made from.
    pub template_hash: String,
    /// How many instances this supervisor keeps running.
    pub number_instances: usize,
    /// Hosts never rented from.
    pub bad_hosts: Option<Vec<u64>>,
    /// Machines never rented from.
    pub bad_machines: Option<Vec<u64>>,
    /// Hosts preferred when ranking offers.
    pub good_hosts: Option<Vec<u64>>,
    /// Machines preferred when ranking offers.
    pub good_machines: Option<Vec<u64>>,
    /// Settings for the contemplants this supervisor spawns.
    pub contemplant: ContemplantConfig,
}

/// A value copy of an optional id list.
fn clone_opt_ids(v: &Option<Vec<u64>>) -> (r: Option<Vec<u64>>)
    ensures
        opt_ids(r) == opt_ids(*v),
{
    match v {
        Some(ids) => {
            let c = ids.clone();
            proof {
                assert(c@ =~= ids@);
            }
            Some(c)
        },
        None => None,
    }
}

impl Clone for Config {
    fn clone(&self) -> (r: Self)
        ensures
            r.http_port == self.http_port,
            r.this_magister_addr == self.this_magister_addr,
            r.hierophant_ip == self.hierophant_ip,
            r.hierophant_http_port == self.hierophant_http_port,
            r.vast_query == self.vast_query,
            r.vast_api_key == self.vast_api_key,
            r.vast_api_call_backoff_secs == self.vast_api_call_backoff_secs,
            r.task_polling_interval_secs == self.task_polling_interval_secs,
            r.contemplant_verification_timeout_secs == self.contemplant_verification_timeout_secs,
            r.template_hash == self.template_hash,
            r.number_instances == self.number_instances,
            opt_ids(r.bad_hosts) == opt_ids(self.bad_hosts),
            opt_ids(r.bad_machines) == opt_ids(self.bad_machines),
            opt_ids(r.good_hosts) == opt_ids(self.good_hosts),
            opt_ids(r.good_machines) == opt_ids(self.good_machines),
            r.contemplant == self.contemplant,
    {
        Config {
            http_port: self.http_port,
            this_magister_addr: self.this_magister_addr.clone(),
            hierophant_ip: self.hierophant_ip.clone(),
            hierophant_http_port: self.hierophant_http_port,
            vast_query: self.vast_query.clone(),
            vast_api_key: self.vast_api_key.clone(),
            vast_api_call_backoff_secs: self.vast_api_call_backoff_secs,
            task_polling_interval_secs: self.task_polling_interval_secs,
            contemplant_verification_timeout_secs: self.contemplant_verification_timeout_secs,
            template_hash: self.template_hash.clone(),
            number_instances: self.number_instances,
            bad_hosts: clone_opt_ids(&self.bad_hosts),
            bad_machines: clone_opt_ids(&self.bad_machines),
            good_hosts: clone_opt_ids(&self.good_hosts),
            good_machines: clone_opt_ids(&self.good_machines),
            contemplant: self.contemplant.clone(),
        }
    }
}

/// Why a configuration was rejected: a required value is missing (empty or
/// zero where the field has no meaningful zero).
#[derive(Clone, Copy, Debug, PartialEq, Eq, Structural)]
pub enum ConfigError {
    MissingThisMagisterAddr,
    MissingHierophantIp,
    MissingHierophantHttpPort,
    MissingVastApiKey,
    MissingTemplateHash,
    MissingNumberInstances,
}

/// What validation answers: the first missing required field, checked in a
/// fixed order, or success.
pub open spec fn validate_spec(c: Config) -> Result<(), ConfigError> {
    if c.this_magister_addr@.len() == 0 {
        Err(ConfigError::MissingThisMagisterAddr)
    } else if c.hierophant_ip@.len() == 0 {
        Err(ConfigError::MissingHierophantIp)
    } else if c.hierophant_http_port == 0 {
        Err(ConfigError::MissingHierophantHttpPort)
    } else if c.vast_api_key@.len() == 0 {
        Err(ConfigError::MissingVastApiKey)
    } else if c.template_hash@.len() == 0 {
        Err(ConfigError::MissingTemplateHash)
    } else if c.number_instances == 0 {
        Err(ConfigError::MissingNumberInstances)
    } else {
        Ok(())
    }
}

/// Environment-variable overrides, already parsed to their field types by
/// the caller (string values as read; numbers through the verified decimal
/// parsers; fractional values as milli units).
pub struct EnvOverrides {
    pub http_port: Option<u16>,
    pub this_magister_addr: Option<String>,
    pub hierophant_ip: Option<String>,
    pub hierophant_http_port: Option<u16>,
    pub vast_api_key: Option<String>,
    pub vast_api_call_backoff_secs: Option<u64>,
    pub task_polling_interval_secs: Option<u64>,
    pub contemplant_verification_timeout_secs: Option<u64>,
    pub template_hash: Option<String>,
    pub number_instances: Option<usize>,
    pub query_allocated_storage: Option<u16>,
    pub query_gpu_name: Option<String>,
    pub query_reliability_milli: Option<u64>,
    pub query_min_cuda_version_milli: Option<u64>,
    pub query_gpu_ram: Option<u64>,
    pub query_disk_space: Option<u64>,
    pub query_duration_milli: Option<u64>,
    pub query_cost_per_hour_milli: Option<u64>,
    pub bad_hosts: Option<Vec<u64>>,
    pub bad_machines: Option<Vec<u64>>,
    pub good_hosts: Option<Vec<u64>>,
    pub good_machines: Option<Vec<u64>>,
    pub contemplant_prover_type: Option<String>,
    pub contemplant_name: Option<String>,
    pub contemplant_http_port: Option<u16>,
    pub contemplant_moongate_endpoint: Option<String>,
    pub contemplant_heartbeat_interval_seconds: Option<u64>,
    pub contemplant_max_proofs_stored: Option<usize>,
    pub contemplant_moongate_log_path: Option<String>,
    pub contemplant_watcher_polling_interval_ms: Option<u64>,
    pub contemplant_ssh_authorized_keys: Option<String>,
}

impl Config {
    /// The configuration used when no file is given: required fields empty
    /// (so that validation rejects them unless the environment fills them),
    /// everything else at its default.
    pub fn defaults() -> (r: Config)
        ensures
            r.http_port == 8555,
            r.this_magister_addr@.len() == 0,
            r.hierophant_ip@.len() == 0,
            r.hierophant_http_port == 0,
            r.vast_query.allocated_storage == 0,
            r.vast_query.gpu_name@.len() == 0,
            r.vast_query.reliability_milli == 0,
            r.vast_query.min_cuda_version_milli == 0,
            r.vast_query.gpu_ram == 0,
            r.vast_query.disk_space == 0,
            r.vast_query.duration_milli == 0,
            r.vast_query.cost_per_hour_milli == 0,
            r.vast_api_key@.len() == 0,
            r.vast_api_call_backoff_secs == 10,
            r.task_polling_interval_secs == 30,
            r.contemplant_verification_timeout_secs == 180,
            r.template_hash@.len() == 0,
            r.number_instances == 0,
            r.bad_hosts is None,
            r.bad_machines is None,
            r.good_hosts is None,
            r.good_machines is None,
            r.contemplant.prover_type@ == "cpu"@,
            r.contemplant.contemplant_name is None,
            r.contemplant.http_port == 9011,
            r.contemplant.moongate_endpoint is None,
            r.contemplant.heartbeat_interval_seconds == 30,
            r.contemplant.max_proofs_stored == 2,
            r.contemplant.moongate_log_path@ == "./moongate.log"@,
            r.contemplant.watcher_polling_interval_ms == 2000,
            r.contemplant.ssh_authorized_keys is None,
    {
        Config {
            http_port: default_http_port(),
            this_magister_addr: String::new(),
            hierophant_ip: String::new(),
            hierophant_http_port: 0,
            vast_query: VastQueryConfig {
                allocated_storage: 0,
                gpu_name: String::new(),
                reliability_milli: 0,
                min_cuda_version_milli: 0,
                gpu_ram: 0,
                disk_space: 0,
                duration_milli: 0,
                cost_per_hour_milli: 0,
            },
            vast_api_key: String::new(),
            vast_api_call_backoff_secs: vast_api_call_backoff_secs(),
            task_polling_interval_secs: default_task_polling_interval_secs(),
            contemplant_verification_timeout_secs: default_contemplant_verification_timeout_secs(),
            template_hash: String::new(),
            number_instances: 0,
            bad_hosts: None,
            bad_machines: None,
            good_hosts: None,
            good_machines: None,
            contemplant: ContemplantConfig::default(),
        }
    }

    /// Merges environment overrides over this configuration: for every
    /// field, the environment value wins when present, the existing value
    /// stays otherwise.
    pub fn apply_env(self, env: EnvOverrides) -> (r: Config)
        ensures
            r.http_port == (match env.http_port {
                Some(v) => v,
                None => self.http_port,
            }),
            r.this_magister_addr == (match env.this_magister_addr {
                Some(v) => v,
                None => self.this_magister_addr,
            }),
            r.hierophant_ip == (match env.hierophant_ip {
                Some(v) => v,
                None => self.hierophant_ip,
            }),
            r.hierophant_http_port == (match env.hierophant_http_port {
                Some(v) => v,
                None => self.hierophant_http_port,
            }),
            r.vast_api_key == (match env.vast_api_key {
                Some(v) => v,
                None => self.vast_api_key,
            }),
            r.vast_api_call_backoff_secs == (match env.vast_api_call_backoff_secs {
                Some(v) => v,
                None => self.vast_api_call_backoff_secs,
            }),
            r.task_polling_interval_secs == (match env.task_polling_interval_secs {
                Some(v) => v,
                None => self.task_polling_interval_secs,
            }),
            r.contemplant_verification_timeout_secs == (
            match env.contemplant_verification_timeout_secs {
                Some(v) => v,
                None => self.contemplant_verification_timeout_secs,
            }),
            r.template_hash == (match env.template_hash {
                Some(v) => v,
                None => self.template_hash,
            }),
            r.number_instances == (match env.number_instances {
                Some(v) => v,
                None => self.number_instances,
            }),
            r.vast_query.allocated_storage == (match env.query_allocated_storage {
                Some(v) => v,
                None => self.vast_query.allocated_storage,
            }),
            r.vast_query.gpu_name == (match env.query_gpu_name {
                Some(v) => v,
                None => self.vast_query.gpu_name,
            }),
            r.vast_query.reliability_milli == (match env.query_reliability_milli {
                Some(v) => v,
                None => self.vast_query.reliability_milli,
            }),
            r.vast_query.min_cuda_version_milli == (match env.query_min_cuda_version_milli {
                Some(v) => v,
                None => self.vast_query.min_cuda_version_milli,
            }),
            r.vast_query.gpu_ram == (match env.query_gpu_ram {
                Some(v) => v,
                None => self.vast_query.gpu_ram,
            }),
            r.vast_query.disk_space == (match env.query_disk_space {
                Some(v) => v,
                None => self.vast_query.disk_space,
            }),
            r.vast_query.duration_milli == (match env.query_duration_milli {
                Some(v) => v,
                None => self.vast_query.duration_milli,
            }),
            r.vast_query.cost_per_hour_milli == (match env.query_cost_per_hour_milli {
                Some(v) => v,
                None => self.vast_query.cost_per_hour_milli,
            }),
            r.bad_hosts == (match env.bad_hosts {
                Some(v) => Some(v),
                None => self.bad_hosts,
            }),
            r.bad_machines == (match env.bad_machines {
                Some(v) => Some(v),
                None => self.bad_machines,
            }),
            r.good_hosts == (match env.good_hosts {
                Some(v) => Some(v),
                None => self.good_hosts,
            }),
            r.good_machines == (match env.good_machines {
                Some(v) => Some(v),
                None => self.good_machines,
            }),
            r.contemplant.prover_type == (match env.contemplant_prover_type {
                Some(v) => v,
                None => self.contemplant.prover_type,
            }),
            r.contemplant.contemplant_name == (match env.contemplant_name {
                Some(v) => Some(v),
                None => self.contemplant.contemplant_name,
            }),
            r.contemplant.http_port == (match env.contemplant_http_port {
                Some(v) => v,
                None => self.contemplant.http_port,
            }),
            r.contemplant.moongate_endpoint == (match env.contemplant_moongate_endpoint {
                Some(v) => Some(v),
                None => self.contemplant.moongate_endpoint,
            }),
            r.contemplant.heartbeat_interval_seconds == (
            match env.contemplant_heartbeat_interval_seconds {
                Some(v) => v,
                None => self.contemplant.heartbeat_interval_seconds,
            }),
            r.contemplant.max_proofs_stored == (match env.contemplant_max_proofs_stored {
                Some(v) => v,
                None => self.contemplant.max_proofs_stored,
            }),
            r.contemplant.moongate_log_path == (match env.contemplant_moongate_log_path {
                Some(v) => v,
                None => self.contemplant.moongate_log_path,
            }),
            r.contemplant.watcher_polling_interval_ms == (
            match env.contemplant_watcher_polling_interval_ms {
                Some(v) => v,
                None => self.contemplant.watcher_polling_interval_ms,
            }),
            r.contemplant.ssh_authorized_keys == (match env.contemplant_ssh_authorized_keys {
                Some(v) => Some(v),
                None => self.contemplant.ssh_authorized_keys,
            }),
    {
        Config {
            http_port: match env.http_port {
                Some(v) => v,
                None => self.http_port,
            },
            this_magister_addr: match env.this_magister_addr {
                Some(v) => v,
                None => self.this_magister_addr,
            },
            hierophant_ip: match env.hierophant_ip {
                Some(v) => v,
                None => self.hierophant_ip,
            },
            hierophant_http_port: match env.hierophant_http_port {
                Some(v) => v,
                None => self.hierophant_http_port,
            },
            vast_query: VastQueryConfig {
                allocated_storage: match env.query_allocated_storage {
                    Some(v) => v,
                    None => self.vast_query.allocated_storage,
                },
                gpu_name: match env.query_gpu_name {
                    Some(v) => v,
                    None => self.vast_query.gpu_name,
                },
                reliability_milli: match env.query_reliability_milli {
                    Some(v) => v,
                    None => self.vast_query.reliability_milli,
                },
                min_cuda_version_milli: match env.query_min_cuda_version_milli {
                    Some(v) => v,
                    None => self.vast_query.min_cuda_version_milli,
                },
                gpu_ram: match env.query_gpu_ram {
                    Some(v) => v,
                    None => self.vast_query.gpu_ram,
                },
                disk_space: match env.query_disk_space {
                    Some(v) => v,
                    None => self.vast_query.disk_space,
                },
                duration_milli: match env.query_duration_milli {
                    Some(v) => v,
                    None => self.vast_query.duration_milli,
                },
                cost_per_hour_milli: match env.query_cost_per_hour_milli {
                    Some(v) => v,
                    None => self.vast_query.cost_per_hour_milli,
                },
            },
            vast_api_key: match env.vast_api_key {
                Some(v) => v,
                None => self.vast_api_key,
            },
            vast_api_call_backoff_secs: match env.vast_api_call_backoff_secs {
                Some(v) => v,
                None => self.vast_api_call_backoff_secs,
            },
            task_polling_interval_secs: match env.task_polling_interval_secs {
                Some(v) => v,
                None => self.task_polling_interval_secs,
            },
            contemplant_verification_timeout_secs: match env
                .contemplant_verification_timeout_secs {
                Some(v) => v,
                None => self.contemplant_verification_timeout_secs,
            },
            template_hash: match env.template_hash {
                Some(v) => v,
                None => self.template_hash,
            },
            number_instances: match env.number_instances {
                Some(v) => v,
                None => self.number_instances,
            },
            bad_hosts: match env.bad_hosts {
                Some(v) => Some(v),
                None => self.bad_hosts,
            },
            bad_machines: match env.bad_machines {
                Some(v) => Some(v),
                None => self.bad_machines,
            },
            good_hosts: match env.good_hosts {
                Some(v) => Some(v),
                None => self.good_hosts,
            },
            good_machines: match env.good_machines {
                Some(v) => Some(v),
                None => self.good_machines,
            },
            contemplant: ContemplantConfig {
                prover_type: match env.contemplant_prover_type {
                    Some(v) => v,
                    None => self.contemplant.prover_type,
                },
                contemplant_name: match env.contemplant_name {
                    Some(v) => Some(v),
                    None => self.contemplant.contemplant_name,
                },
                http_port: match env.contemplant_http_port {
                    Some(v) => v,
                    None => self.contemplant.http_port,
                },
                moongate_endpoint: match env.contemplant_moongate_endpoint {
                    Some(v) => Some(v),
                    None => self.contemplant.moongate_endpoint,
                },
                heartbeat_interval_seconds: match env.contemplant_heartbeat_interval_seconds {
                    Some(v) => v,
                    None => self.contemplant.heartbeat_interval_seconds,
                },
                max_proofs_stored: match env.contemplant_max_proofs_stored {
                    Some(v) => v,
                    None => self.contemplant.max_proofs_stored,
                },
                moongate_log_path: match env.contemplant_moongate_log_path {
                    Some(v) => v,
                    None => self.contemplant.moongate_log_path,
                },
                watcher_polling_interval_ms: match env.contemplant_watcher_polling_interval_ms {
                    Some(v) => v,
                    None => self.contemplant.watcher_polling_interval_ms,
                },
                ssh_authorized_keys: match env.contemplant_ssh_authorized_keys {
                    Some(v) => Some(v),
                    None => self.contemplant.ssh_authorized_keys,
                },
            },
        }
    }

    /// Rejects a configuration whose required fields are missing, naming
    /// the first one found: the supervisor's address, the coordinator's
    /// address and port, the marketplace key, the template, and a non-zero
    /// fleet size.
    pub fn validate(&self) -> (r: Result<(), ConfigError>)
        ensures
            r == validate_spec(*self),
    {
        if self.this_magister_addr.as_str().unicode_len() == 0 {
            Err(ConfigError::MissingThisMagisterAddr)
        } else if self.hierophant_ip.as_str().unicode_len() == 0 {
            Err(ConfigError::MissingHierophantIp)
        } else if self.hierophant_http_port == 0 {
            Err(ConfigError::MissingHierophantHttpPort)
        } else if self.vast_api_key.as_str().unicode_len() == 0 {
            Err(ConfigError::MissingVastApiKey)
        } else if self.template_hash.as_str().unicode_len() == 0 {
            Err(ConfigError::MissingTemplateHash)
        } else if self.number_instances == 0 {
            Err(ConfigError::MissingNumberInstances)
        } else {
            Ok(())
        }
    }
}

} // verus!

