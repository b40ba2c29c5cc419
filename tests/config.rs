use cwb::config::{
    find_config_file, ConfigFileKind, DirProbe, AlarmConfig, AuthConfig, AutoScalingConfig, CognitoAuthConfig, ContainerConfig, ContainerHealthCheckConfig, DataConfig, EnvConfig, HealthCheckConfig, LoadBalancerConfig, ManagedRules, MetricConfig, ProjectConfig, RateLimiting, RestApiConfig, Tag, UiConfig, VpcConfig, WafConfig, WafLogging,
    default_alb_placement, default_api_version, default_cooldown, default_cpu_limit, default_duration, default_ecpu_limit, default_embedding_model, default_estimated_warmup, default_health_command, default_health_interval, default_health_timeout, default_healthy_threshold, default_index_name, default_instance_warmup, default_interval, default_max_capacity, default_memory_limit, default_min_capacity, default_one, default_rate_limit, default_retries, default_start_period, default_storage_limit, default_storage_type, default_timeout, default_true, default_unhealthy_threshold,
};
use cwb::error::CwbError;

fn sample_env(account: &str, region: &str) -> EnvConfig {
    EnvConfig {
        aws_profile: None,
        deployment_name: "chat-dev".to_string(),
        account_number: account.to_string(),
        region: region.to_string(),
        deployment_stage: "dev".to_string(),
        app_name: "chat".to_string(),
        log_level: "INFO".to_string(),
        target_platform: "linux/amd64".to_string(),
        removal_policy: "destroy".to_string(),
        run_cdk_nag: false,
        ui_config: UiConfig { title: "Chat".to_string() },
        vpc_config: VpcConfig {
            vpc_id: None,
            public_subnet_ids: vec![],
            private_subnet_ids: vec![],
            isolated_subnet_ids: vec![],
        },
        cognito_auth_config: CognitoAuthConfig {
            user_pool_name: "pool".to_string(),
            user_pool_domain_name: "pool-domain".to_string(),
        },
        load_balancer_config: LoadBalancerConfig {
            idle_timeout: 60,
            alb_placement: default_alb_placement(),
            ssl_certificate_arn: None,
        },
        waf_config: WafConfig {
            managed_rules: ManagedRules {
                core_rule_set: false,
                known_bad_inputs: default_true(),
                amazon_ip_reputation: default_true(),
            },
            rate_limiting: RateLimiting { enabled: true, requests_per_minute: default_rate_limit() },
            logging: WafLogging { enabled: false },
        },
        alarm_config: AlarmConfig {
            enable: false,
            period: default_one(),
            threshold: default_one(),
            evaluation_periods: default_one(),
            logging_filter_patterns: vec![],
            email_addresses: None,
        },
        auth_config: AuthConfig {
            enable_auth: true,
            authority: "https://issuer".to_string(),
            client_id: "client".to_string(),
            secret_name: "secret".to_string(),
        },
        rest_api_config: RestApiConfig {
            api_version: default_api_version(),
            container_config: ContainerConfig {
                cpu_limit: default_cpu_limit(),
                memory_limit: default_memory_limit(),
                health_check_config: ContainerHealthCheckConfig {
                    command: default_health_command(),
                    interval: default_interval(),
                    start_period: default_start_period(),
                    timeout: default_timeout(),
                    retries: default_retries(),
                },
            },
            health_check_config: HealthCheckConfig {
                path: "/health".to_string(),
                interval: default_health_interval(),
                timeout: default_health_timeout(),
                healthy_threshold_count: default_healthy_threshold(),
                unhealthy_threshold_count: default_unhealthy_threshold(),
            },
            auto_scaling_config: AutoScalingConfig {
                min_capacity: default_min_capacity(),
                max_capacity: default_max_capacity(),
                default_instance_warmup: default_instance_warmup(),
                cooldown: default_cooldown(),
                metric_config: MetricConfig {
                    alb_metric_name: "RequestCountPerTarget".to_string(),
                    target_value: 1000,
                    duration: default_duration(),
                    estimated_instance_warmup: default_estimated_warmup(),
                },
            },
        },
        data_config: DataConfig {
            elasti_cache_storage_limit_gb: default_storage_limit(),
            elasti_cache_ecpu_limit: default_ecpu_limit(),
            file_storage_enabled: true,
            file_storage_type: default_storage_type(),
            open_search_enabled: false,
            open_search_default_index: default_index_name(),
            open_search_standby_replicas: false,
            neptune_enabled: false,
            bedrock_knowledge_base_enabled: false,
            embedding_model_id: default_embedding_model(),
            vector_index_name: default_index_name(),
        },
        tags: vec![Tag { key: "Project".to_string(), value: "chat".to_string() }],
    }
}

fn dev_only(default_env: &str) -> ProjectConfig {
    ProjectConfig {
        env: default_env.to_string(),
        dev: sample_env("111111111111", "us-east-1"),
        staging: None,
        prod: None,
    }
}

#[test]
fn resolve_without_request_uses_default() {
    let doc = dev_only("dev");
    let env = doc.resolve(None).ok().unwrap();
    assert_eq!(env.account_number, "111111111111");
    assert_eq!(env.region, "us-east-1");
}

#[test]
fn resolve_unknown_staging_lists_dev() {
    let doc = dev_only("dev");
    match doc.resolve(Some("staging")) {
        Err(CwbError::UnknownEnvironment { requested, valid }) => {
            assert_eq!(requested, "staging");
            assert_eq!(valid, vec!["dev".to_string()]);
        }
        _ => panic!("expected UnknownEnvironment"),
    }
}

#[test]
fn resolve_missing_default_fails() {
    let doc = dev_only("qa");
    match doc.resolve(None) {
        Err(CwbError::UnknownEnvironment { requested, valid }) => {
            assert_eq!(requested, "qa");
            assert_eq!(valid, vec!["dev".to_string()]);
        }
        _ => panic!("expected UnknownEnvironment"),
    }
}

#[test]
fn resolve_is_repeatable() {
    let mut doc = dev_only("prod");
    doc.prod = Some(sample_env("222222222222", "eu-west-1"));
    let a = doc.resolve(None).ok().unwrap();
    let b = doc.resolve(None).ok().unwrap();
    assert_eq!(a.account_number, b.account_number);
    assert_eq!(a.region, "eu-west-1");
    assert_eq!(b.region, "eu-west-1");
}

#[test]
fn explicit_request_overrides_default() {
    let mut doc = dev_only("dev");
    doc.staging = Some(sample_env("333333333333", "us-west-2"));
    let env = doc.resolve(Some("staging")).ok().unwrap();
    assert_eq!(env.account_number, "333333333333");
}

#[test]
fn available_environments_in_order() {
    let mut doc = dev_only("dev");
    assert_eq!(doc.get_available_environments(), vec!["dev"]);
    doc.prod = Some(sample_env("1", "r"));
    assert_eq!(doc.get_available_environments(), vec!["dev", "prod"]);
    doc.staging = Some(sample_env("2", "r"));
    assert_eq!(doc.get_available_environments(), vec!["dev", "staging", "prod"]);
    assert_eq!(doc.get_default_env(), "dev");
}

#[test]
fn unconfigured_prod_is_unknown() {
    let mut doc = dev_only("dev");
    doc.staging = Some(sample_env("2", "r"));
    match doc.get_env_config("prod") {
        Err(CwbError::UnknownEnvironment { valid, .. }) => {
            assert_eq!(valid, vec!["dev".to_string(), "staging".to_string()]);
        }
        _ => panic!("expected UnknownEnvironment"),
    }
    assert!(doc.get_env_config("Dev").is_err());
}

#[test]
fn defaults_have_documented_values() {
    assert_eq!(default_alb_placement(), "public");
    assert!(default_true());
    assert_eq!(default_rate_limit(), 2000);
    assert_eq!(default_one(), 1);
    assert_eq!(default_api_version(), "v1");
    assert_eq!(default_cpu_limit(), 1024);
    assert_eq!(default_memory_limit(), 2048);
    assert_eq!(default_health_command(), vec!["CMD-SHELL".to_string(), "exit 0".to_string()]);
    assert_eq!(default_interval(), 10);
    assert_eq!(default_start_period(), 30);
    assert_eq!(default_timeout(), 5);
    assert_eq!(default_retries(), 3);
    assert_eq!(default_health_interval(), 60);
    assert_eq!(default_health_timeout(), 30);
    assert_eq!(default_healthy_threshold(), 2);
    assert_eq!(default_unhealthy_threshold(), 10);
    assert_eq!(default_min_capacity(), 1);
    assert_eq!(default_max_capacity(), 5);
    assert_eq!(default_instance_warmup(), 120);
    assert_eq!(default_cooldown(), 300);
    assert_eq!(default_duration(), 60);
    assert_eq!(default_estimated_warmup(), 60);
    assert_eq!(default_storage_limit(), 50);
    assert_eq!(default_ecpu_limit(), 10000);
    assert_eq!(default_storage_type(), "s3");
    assert_eq!(default_index_name(), "documents");
    assert_eq!(default_embedding_model(), "amazon.titan-embed-text-v1");
}

#[test]
fn config_search_prefers_nearest_directory() {
    let probes = vec![
        DirProbe { primary_exists: false, example_exists: false },
        DirProbe { primary_exists: false, example_exists: true },
        DirProbe { primary_exists: true, example_exists: false },
    ];
    match find_config_file(&probes) {
        Ok(m) => {
            assert_eq!(m.level, 1);
            assert_eq!(m.kind, ConfigFileKind::Example);
            assert_eq!(m.kind.file_name(), "config.yaml.example");
        }
        Err(_) => panic!("expected a match"),
    }
}

#[test]
fn config_search_prefers_primary_name() {
    let probes = vec![DirProbe { primary_exists: true, example_exists: true }];
    let m = find_config_file(&probes).ok().unwrap();
    assert_eq!(m.level, 0);
    assert_eq!(m.kind, ConfigFileKind::Primary);
    assert_eq!(m.kind.file_name(), "config.yaml");
}

#[test]
fn config_search_without_file_fails() {
    let probes = vec![
        DirProbe { primary_exists: false, example_exists: false },
        DirProbe { primary_exists: false, example_exists: false },
    ];
    assert!(matches!(find_config_file(&probes), Err(CwbError::ConfigNotFound)));
    assert!(matches!(find_config_file(&vec![]), Err(CwbError::ConfigNotFound)));
}

#[test]
fn config_values_by_key() {
    let mut doc = dev_only("dev");
    assert_eq!(doc.config_value("region", "dev").ok().unwrap(), "us-east-1");
    assert_eq!(doc.config_value("env", "dev").ok().unwrap(), "dev");
    assert_eq!(doc.config_value("default_env", "dev").ok().unwrap(), "dev");
    assert_eq!(doc.config_value("aws_profile", "dev").ok().unwrap(), "default");
    doc.dev.aws_profile = Some("team".to_string());
    assert_eq!(doc.config_value("aws_profile", "dev").ok().unwrap(), "team");
    match doc.config_value("vpc.id", "dev") {
        Err(CwbError::UnsupportedKey { key }) => assert_eq!(key, "vpc.id"),
        _ => panic!("expected UnsupportedKey"),
    }
    assert!(matches!(
        doc.config_value("region", "prod"),
        Err(CwbError::UnknownEnvironment { .. })
    ));
}
