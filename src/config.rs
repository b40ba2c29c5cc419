use vstd::prelude::*;
use crate::error::CwbError;
use crate::text::{str_eq, str_views_of, to_owned_all, views_of};

verus! {

/// The configuration document: the default environment and the settings of
/// each configured environment. `dev` is always present; `staging` and
/// `prod` are optional overlays.
#[derive(Clone, Debug)]
pub struct ProjectConfig {
    /// Name of the environment used when none is requested.
    pub env: String,
    pub dev: EnvConfig,
    pub staging: Option<EnvConfig>,
    pub prod: Option<EnvConfig>,
}

/// The settings of one environment.
#[derive(Clone, Debug)]
pub struct EnvConfig {
    /// Named cloud CLI profile, if any.
    pub aws_profile: Option<String>,
    pub deployment_name: String,
    /// Cloud account identifier.
    pub account_number: String,
    pub region: String,
    pub deployment_stage: String,
    pub app_name: String,
    pub log_level: String,
    /// Platform that container images are built for.
    pub target_platform: String,
    pub removal_policy: String,
    pub run_cdk_nag: bool,
    pub ui_config: UiConfig,
    pub vpc_config: VpcConfig,
    pub cognito_auth_config: CognitoAuthConfig,
    pub load_balancer_config: LoadBalancerConfig,
    pub waf_config: WafConfig,
    pub alarm_config: AlarmConfig,
    pub auth_config: AuthConfig,
    pub rest_api_config: RestApiConfig,
    pub data_config: DataConfig,
    /// Resource tags, in document order.
    pub tags: Vec<Tag>,
}

#[derive(Clone, Debug)]
pub struct UiConfig {
    pub title: String,
}

/// Network placement; without `vpc_id` a new network is created.
#[derive(Clone, Debug)]
pub struct VpcConfig {
    pub vpc_id: Option<String>,
    pub public_subnet_ids: Vec<String>,
    pub private_subnet_ids: Vec<String>,
    pub isolated_subnet_ids: Vec<String>,
}

#[derive(Clone, Debug)]
pub struct CognitoAuthConfig {
    pub user_pool_name: String,
    pub user_pool_domain_name: String,
}

#[derive(Clone, Debug)]
pub struct LoadBalancerConfig {
    pub idle_timeout: u32,
    pub alb_placement: String,
    pub ssl_certificate_arn: Option<String>,
}

#[derive(Clone, Debug)]
pub struct WafConfig {
    pub managed_rules: ManagedRules,
    pub rate_limiting: RateLimiting,
    pub logging: WafLogging,
}

#[derive(Clone, Debug)]
pub struct ManagedRules {
    pub core_rule_set: bool,
    pub known_bad_inputs: bool,
    pub amazon_ip_reputation: bool,
}

#[derive(Clone, Debug)]
pub struct RateLimiting {
    pub enabled: bool,
    pub requests_per_minute: u32,
}

#[derive(Clone, Debug)]
pub struct WafLogging {
    pub enabled: bool,
}

#[derive(Clone, Debug)]
pub struct AlarmConfig {
    pub enable: bool,
    pub period: u32,
    pub threshold: u32,
    pub evaluation_periods: u32,
    pub logging_filter_patterns: Vec<String>,
    pub email_addresses: Option<Vec<String>>,
}

#[derive(Clone, Debug)]
pub struct AuthConfig {
    pub enable_auth: bool,
    pub authority: String,
    pub client_id: String,
    pub secret_name: String,
}

#[derive(Clone, Debug)]
pub struct RestApiConfig {
    pub api_version: String,
    pub container_config: ContainerConfig,
    pub health_check_config: HealthCheckConfig,
    pub auto_scaling_config: AutoScalingConfig,
}

#[derive(Clone, Debug)]
pub struct ContainerConfig {
    pub cpu_limit: u32,
    pub memory_limit: u32,
    pub health_check_config: ContainerHealthCheckConfig,
}

#[derive(Clone, Debug)]
pub struct ContainerHealthCheckConfig {
    pub command: Vec<String>,
    pub interval: u32,
    pub start_period: u32,
    pub timeout: u32,
    pub retries: u32,
}

#[derive(Clone, Debug)]
pub struct HealthCheckConfig {
    pub path: String,
    pub interval: u32,
    pub timeout: u32,
    pub healthy_threshold_count: u32,
    pub unhealthy_threshold_count: u32,
}

#[derive(Clone, Debug)]
pub struct AutoScalingConfig {
    pub min_capacity: u32,
    pub max_capacity: u32,
    pub default_instance_warmup: u32,
    pub cooldown: u32,
    pub metric_config: MetricConfig,
}

#[derive(Clone, Debug)]
pub struct MetricConfig {
    pub alb_metric_name: String,
    pub target_value: u32,
    pub duration: u32,
    pub estimated_instance_warmup: u32,
}

/// Data services of an environment.
#[derive(Clone, Debug)]
pub struct DataConfig {
    pub elasti_cache_storage_limit_gb: u32,
    pub elasti_cache_ecpu_limit: u32,
    pub file_storage_enabled: bool,
    pub file_storage_type: String,
    pub open_search_enabled: bool,
    pub open_search_default_index: String,
    pub open_search_standby_replicas: bool,
    pub neptune_enabled: bool,
    pub bedrock_knowledge_base_enabled: bool,
    pub embedding_model_id: String,
    pub vector_index_name: String,
}

/// A resource tag.
#[derive(Clone, Debug)]
pub struct Tag {
    pub key: String,
    pub value: String,
}

/// The view of an optional slice as an optional character sequence.
pub open spec fn opt_str_view(o: Option<&str>) -> Option<Seq<char>> {
    match o {
        Some(s) => Some(s@),
        None => None,
    }
}

impl ProjectConfig {
    /// The environment configured under `name`, if any.
    pub open spec fn environment(&self, name: Seq<char>) -> Option<EnvConfig> {
        if name == "dev"@ {
            Some(self.dev)
        } else if name == "staging"@ {
            self.staging
        } else if name == "prod"@ {
            self.prod
        } else {
            None
        }
    }

    /// The names of the configured environments: dev, then staging and
    /// prod where they are configured.
    pub open spec fn environment_names(&self) -> Seq<Seq<char>> {
        seq!["dev"@] + (if self.staging is Some {
            seq!["staging"@]
        } else {
            Seq::empty()
        }) + (if self.prod is Some {
            seq!["prod"@]
        } else {
            Seq::empty()
        })
    }

    /// The environment name that a request stands for: the requested one,
    /// else the document's default.
    pub open spec fn requested_name(&self, requested: Option<Seq<char>>) -> Seq<char> {
        match requested {
            Some(n) => n,
            None => self.env@,
        }
    }

    /// `r` is the outcome of looking up `name`: the environment configured
    /// under it, or `UnknownEnvironment` naming it and listing the
    /// configured environments.
    pub open spec fn lookup_result(&self, name: Seq<char>, r: Result<&EnvConfig, CwbError>) -> bool {
        match self.environment(name) {
            Some(c) => r matches Ok(found) && *found == c,
            None => r matches Err(CwbError::UnknownEnvironment { requested, valid }) && requested@
                == name && views_of(valid@) == self.environment_names(),
        }
    }

    /// Looks up the environment configured under `env`.
    pub fn get_env_config(&self, env: &str) -> (r: Result<&EnvConfig, CwbError>)
        ensures
            self.lookup_result(env@, r),
    {
        proof {
            reveal_strlit("dev");
            reveal_strlit("staging");
            reveal_strlit("prod");
            assert("dev"@.len() == 3 && "staging"@.len() == 7 && "prod"@.len() == 4);
        }
        if str_eq(env, "dev") {
            return Ok(&self.dev);
        }
        if str_eq(env, "staging") {
            if let Some(c) = &self.staging {
                return Ok(c);
            }
        }
        if str_eq(env, "prod") {
            if let Some(c) = &self.prod {
                return Ok(c);
            }
        }
        let names = self.get_available_environments();
        Err(CwbError::UnknownEnvironment { requested: env.to_owned(), valid: to_owned_all(&names) })
    }

    /// The name of the default environment.
    pub fn get_default_env(&self) -> (r: &str)
        ensures
            r@ == self.env@,
    {
        self.env.as_str()
    }

    /// The names of the configured environments, in the order dev, staging, prod.
    pub fn get_available_environments(&self) -> (r: Vec<&str>)
        ensures
            str_views_of(r@) == self.environment_names(),
    {
        let mut envs: Vec<&str> = Vec::new();
        envs.push("dev");
        if self.staging.is_some() {
            envs.push("staging");
        }
        if self.prod.is_some() {
            envs.push("prod");
        }
        envs
    }

    /// Resolves a request for an environment: the requested name, or the
    /// default environment when none is requested, looked up in the document.
    pub fn resolve(&self, requested: Option<&str>) -> (r: Result<&EnvConfig, CwbError>)
        ensures
            self.lookup_result(self.requested_name(opt_str_view(requested)), r),
    {
        let name = match requested {
            Some(n) => n,
            None => self.get_default_env(),
        };
        self.get_env_config(name)
    }

    /// The setting that `key` names for the environment `name`, whose
    /// settings are `c`; none for an unsupported key.
    pub open spec fn setting(&self, name: Seq<char>, c: EnvConfig, key: Seq<char>) -> Option<Seq<char>> {
        if key == "env"@ {
            Some(name)
        } else if key == "default_env"@ {
            Some(self.env@)
        } else if key == "deployment_name"@ {
            Some(c.deployment_name@)
        } else if key == "account_number"@ {
            Some(c.account_number@)
        } else if key == "region"@ {
            Some(c.region@)
        } else if key == "app_name"@ {
            Some(c.app_name@)
        } else if key == "log_level"@ {
            Some(c.log_level@)
        } else if key == "aws_profile"@ {
            match c.aws_profile {
                Some(p) => Some(p@),
                None => Some("default"@),
            }
        } else {
            None
        }
    }

    /// Reads one setting of the environment `env`. The environment must be
    /// configured, as for `get_env_config`; an unknown key fails with
    /// `UnsupportedKey`.
    pub fn config_value(&self, key: &str, env: &str) -> (r: Result<String, CwbError>)
        ensures
            self.environment(env@) is None ==> (r matches Err(
                CwbError::UnknownEnvironment { requested, valid },
            ) && requested@ == env@ && views_of(valid@) == self.environment_names()),
            self.environment(env@) matches Some(c) ==> match self.setting(env@, c, key@) {
                Some(v) => r matches Ok(s) && s@ == v,
                None => r matches Err(CwbError::UnsupportedKey { key: k }) && k@ == key@,
            },
    {
        let c = match self.get_env_config(env) {
            Ok(c) => c,
            Err(e) => return Err(e),
        };
        if str_eq(key, "env") {
            Ok(env.to_owned())
        } else if str_eq(key, "default_env") {
            Ok(self.env.clone())
        } else if str_eq(key, "deployment_name") {
            Ok(c.deployment_name.clone())
        } else if str_eq(key, "account_number") {
            Ok(c.account_number.clone())
        } else if str_eq(key, "region") {
            Ok(c.region.clone())
        } else if str_eq(key, "app_name") {
            Ok(c.app_name.clone())
        } else if str_eq(key, "log_level") {
            Ok(c.log_level.clone())
        } else if str_eq(key, "aws_profile") {
            match &c.aws_profile {
                Some(p) => Ok(p.clone()),
                None => Ok("default".to_owned()),
            }
        } else {
            Err(CwbError::UnsupportedKey { key: key.to_owned() })
        }
    }
}

/// Two resolution outcomes agree: the same environment settings, or the same
/// `UnknownEnvironment` error with the same list of valid names.
pub open spec fn same_resolution(r1: Result<&EnvConfig, CwbError>, r2: Result<&EnvConfig, CwbError>) -> bool {
    match (r1, r2) {
        (Ok(a), Ok(b)) => *a == *b,
        (
            Err(CwbError::UnknownEnvironment { requested: n1, valid: v1 }),
            Err(CwbError::UnknownEnvironment { requested: n2, valid: v2 }),
        ) => n1@ == n2@ && views_of(v1@) == views_of(v2@),
        _ => false,
    }
}

/// An environment is configured under a name exactly when the name is
/// among the listed environment names.
pub proof fn lemma_environment_listed(doc: ProjectConfig, name: Seq<char>)
    ensures
        doc.environment(name) is Some <==> doc.environment_names().contains(name),
{
    reveal_strlit("dev");
    reveal_strlit("staging");
    reveal_strlit("prod");
    assert("dev"@.len() == 3 && "staging"@.len() == 7 && "prod"@.len() == 4);
    let names = doc.environment_names();
    if doc.environment(name) is Some {
        if name == "dev"@ {
            assert(names[0] == name);
        } else if name == "staging"@ {
            assert(names[1] == name);
        } else {
            assert(names[names.len() - 1] == name);
        }
    }
    if names.contains(name) {
        let i = choose|i: int| 0 <= i < names.len() && names[i] == name;
        assert(name == "dev"@ || name == "staging"@ || name == "prod"@);
    }
}

/// Resolving without a request, against a document whose default
/// environment is not among its configured environments, fails with
/// `UnknownEnvironment` for the default name.
pub proof fn lemma_missing_default_environment_fails(doc: ProjectConfig, r: Result<&EnvConfig, CwbError>)
    requires
        !doc.environment_names().contains(doc.env@),
        doc.lookup_result(doc.requested_name(None), r),
    ensures
        r matches Err(CwbError::UnknownEnvironment { requested, valid }) && requested@ == doc.env@
            && views_of(valid@) == doc.environment_names(),
{
    lemma_environment_listed(doc, doc.env@);
}

/// Resolution is deterministic: two resolutions of the same request against
/// the same document give the same outcome.
pub proof fn lemma_resolve_deterministic(
    doc: ProjectConfig,
    requested: Option<Seq<char>>,
    r1: Result<&EnvConfig, CwbError>,
    r2: Result<&EnvConfig, CwbError>,
)
    requires
        doc.lookup_result(doc.requested_name(requested), r1),
        doc.lookup_result(doc.requested_name(requested), r2),
    ensures
        same_resolution(r1, r2),
{
}

/// Which of the two recognised file names was found.
#[derive(Clone, Copy, Debug, PartialEq, Eq, Structural)]
pub enum ConfigFileKind {
    /// `config.yaml`
    Primary,
    /// `config.yaml.example`, the fallback
    Example,
}

impl ConfigFileKind {
    /// The file name of this kind.
    pub fn file_name(&self) -> (r: &'static str)
        ensures
            *self == ConfigFileKind::Primary ==> r@ == "config.yaml"@,
            *self == ConfigFileKind::Example ==> r@ == "config.yaml.example"@,
    {
        match self {
            ConfigFileKind::Primary => "config.yaml",
            ConfigFileKind::Example => "config.yaml.example",
        }
    }
}

/// What one directory of the upward search holds.
#[derive(Clone, Copy, Debug, PartialEq, Eq, Structural)]
pub struct DirProbe {
    pub primary_exists: bool,
    pub example_exists: bool,
}

impl DirProbe {
    pub open spec fn holds_config(self) -> bool {
        self.primary_exists || self.example_exists
    }
}

/// Where the configuration file was found: the number of steps up from the
/// start directory, and which file name matched.
#[derive(Clone, Copy, Debug, PartialEq, Eq, Structural)]
pub struct ConfigMatch {
    pub level: usize,
    pub kind: ConfigFileKind,
}

/// Picks the configuration file from the probes of the start directory and
/// each of its ancestors, nearest first: the nearest directory that holds
/// one wins, and there the primary name before the example name.
pub fn find_config_file(probes: &Vec<DirProbe>) -> (r: Result<ConfigMatch, CwbError>)
    ensures
        r is Ok <==> exists|i: int| 0 <= i < probes@.len() && #[trigger] probes@[i].holds_config(),
        r matches Ok(m) ==> {
            &&& m.level < probes@.len()
            &&& probes@[m.level as int].holds_config()
            &&& forall|j: int| 0 <= j < m.level ==> !#[trigger] probes@[j].holds_config()
            &&& (m.kind == ConfigFileKind::Primary <==> probes@[m.level as int].primary_exists)
        },
        r matches Err(e) ==> e is ConfigNotFound,
{
    let mut i: usize = 0;
    while i < probes.len()
        invariant
            i <= probes@.len(),
            forall|j: int| 0 <= j < i ==> !#[trigger] probes@[j].holds_config(),
        decreases probes@.len() - i,
    {
        let p = probes[i];
        assert(p.holds_config() ==> probes@[i as int].holds_config());
        if p.primary_exists {
            return Ok(ConfigMatch { level: i, kind: ConfigFileKind::Primary });
        }
        if p.example_exists {
            return Ok(ConfigMatch { level: i, kind: ConfigFileKind::Example });
        }
        i = i + 1;
    }
    Err(CwbError::ConfigNotFound)
}

/// Default placement of the application load balancer.
pub fn default_alb_placement() -> (r: String)
    ensures
        r@ == "public"@,
{
    "public".to_owned()
}

pub fn default_true() -> (r: bool)
    ensures
        r,
{
    true
}

/// Requests per minute allowed by the rate limiter.
pub fn default_rate_limit() -> (r: u32)
    ensures
        r == 2000,
{
    2000
}

/// Alarm period, threshold and evaluation periods.
pub fn default_one() -> (r: u32)
    ensures
        r == 1,
{
    1
}

/// CPU units of the API container.
pub fn default_cpu_limit() -> (r: u32)
    ensures
        r == 1024,
{
    1024
}

/// Memory of the API container, in MiB.
pub fn default_memory_limit() -> (r: u32)
    ensures
        r == 2048,
{
    2048
}

/// The container health check command: a shell that exits successfully.
pub fn default_health_command() -> (r: Vec<String>)
    ensures
        views_of(r@) == seq!["CMD-SHELL"@, "exit 0"@],
{
    let mut v: Vec<String> = Vec::new();
    v.push("CMD-SHELL".to_owned());
    v.push("exit 0".to_owned());
    assert(views_of(v@) =~= seq!["CMD-SHELL"@, "exit 0"@]);
    v
}

/// Seconds between container health checks.
pub fn default_interval() -> (r: u32)
    ensures
        r == 10,
{
    10
}

/// Grace period of a container before health checks count, in seconds.
pub fn default_start_period() -> (r: u32)
    ensures
        r == 30,
{
    30
}

/// Seconds before a container health check times out.
pub fn default_timeout() -> (r: u32)
    ensures
        r == 5,
{
    5
}

/// Failed container health checks before the container is unhealthy.
pub fn default_retries() -> (r: u32)
    ensures
        r == 3,
{
    3
}

/// Seconds between load-balancer health checks.
pub fn default_health_interval() -> (r: u32)
    ensures
        r == 60,
{
    60
}

/// Seconds before a load-balancer health check times out.
pub fn default_health_timeout() -> (r: u32)
    ensures
        r == 30,
{
    30
}

/// Successful checks before a target counts as healthy.
pub fn default_healthy_threshold() -> (r: u32)
    ensures
        r == 2,
{
    2
}

/// Failed checks before a target counts as unhealthy.
pub fn default_unhealthy_threshold() -> (r: u32)
    ensures
        r == 10,
{
    10
}

/// Fewest tasks that auto scaling keeps.
pub fn default_min_capacity() -> (r: u32)
    ensures
        r == 1,
{
    1
}

/// Most tasks that auto scaling starts.
pub fn default_max_capacity() -> (r: u32)
    ensures
        r == 5,
{
    5
}

/// Seconds before a new instance counts towards metrics.
pub fn default_instance_warmup() -> (r: u32)
    ensures
        r == 120,
{
    120
}

/// Seconds between two scaling activities.
pub fn default_cooldown() -> (r: u32)
    ensures
        r == 300,
{
    300
}

/// Seconds over which the scaling metric is measured.
pub fn default_duration() -> (r: u32)
    ensures
        r == 60,
{
    60
}

/// Estimated warm-up of an instance for target tracking, in seconds.
pub fn default_estimated_warmup() -> (r: u32)
    ensures
        r == 60,
{
    60
}

/// Cache storage limit, in GB.
pub fn default_storage_limit() -> (r: u32)
    ensures
        r == 50,
{
    50
}

/// Cache compute limit, in ECPUs.
pub fn default_ecpu_limit() -> (r: u32)
    ensures
        r == 10000,
{
    10000
}

/// Version segment of the REST API.
pub fn default_api_version() -> (r: String)
    ensures
        r@ == "v1"@,
{
    "v1".to_owned()
}

/// Backend of the file storage.
pub fn default_storage_type() -> (r: String)
    ensures
        r@ == "s3"@,
{
    "s3".to_owned()
}

/// Name of the default search and vector index.
pub fn default_index_name() -> (r: String)
    ensures
        r@ == "documents"@,
{
    "documents".to_owned()
}

/// Model that computes embeddings.
pub fn default_embedding_model() -> (r: String)
    ensures
        r@ == "amazon.titan-embed-text-v1"@,
{
    "amazon.titan-embed-text-v1".to_owned()
}
} // verus!
