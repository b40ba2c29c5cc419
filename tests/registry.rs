use cwb::components::{
    detect_project_structure, ComponentAction, ComponentConfig, ComponentRegistry, LayoutProbe, PackageManager,
};
use cwb::error::CwbError;

fn custom_component(name: &str) -> ComponentConfig {
    ComponentConfig {
        name: name.to_string(),
        path: format!("./{}", name),
        language: "go".to_string(),
        package_manager: PackageManager::Unknown,
        test_command: Some("go test ./...".to_string()),
        lint_command: None,
        build_command: Some("go build".to_string()),
        format_command: None,
        dev_command: None,
    }
}

#[test]
fn default_components_in_order() {
    let r = ComponentConfig::get_default_components();
    assert_eq!(r.names(), vec!["backend".to_string(), "frontend".to_string(), "infrastructure".to_string()]);
    let all = r.all();
    assert_eq!(all[0].path, "./backend");
    assert_eq!(all[0].package_manager, PackageManager::Uv);
    assert_eq!(all[0].build_command, None);
    assert_eq!(all[1].path, "./ui");
    assert_eq!(all[1].dev_command.as_deref(), Some("npm run dev"));
    assert_eq!(all[2].path, "./infrastructure/cdk");
    assert_eq!(all[2].format_command, None);
}

#[test]
fn lookup_finds_registered_component() {
    let r = ComponentConfig::get_default_components();
    let c = r.lookup("frontend").ok().unwrap();
    assert_eq!(c.language, "typescript");
    assert_eq!(c.command(ComponentAction::Build).as_deref(), Some("npm run build"));
    assert!(r.contains("backend"));
    assert!(!r.contains("docs"));
}

#[test]
fn lookup_unknown_lists_known_names() {
    let r = ComponentConfig::get_default_components();
    match r.lookup("mobile") {
        Err(CwbError::UnknownComponent { requested, known }) => {
            assert_eq!(requested, "mobile");
            assert_eq!(known, vec!["backend".to_string(), "frontend".to_string(), "infrastructure".to_string()]);
        }
        _ => panic!("expected UnknownComponent"),
    }
}

#[test]
fn duplicate_registration_is_refused() {
    let mut r = ComponentRegistry::new();
    assert!(r.register(custom_component("worker")).is_ok());
    match r.register(custom_component("worker")) {
        Err(CwbError::DuplicateComponent { name }) => assert_eq!(name, "worker"),
        _ => panic!("expected DuplicateComponent"),
    }
    assert_eq!(r.names(), vec!["worker".to_string()]);
    assert!(r.register(custom_component("api")).is_ok());
    assert_eq!(r.names(), vec!["worker".to_string(), "api".to_string()]);
}

#[test]
fn package_manager_names() {
    assert_eq!(PackageManager::from_name("pnpm"), PackageManager::Pnpm);
    assert_eq!(PackageManager::from_name("bun"), PackageManager::Bun);
    assert_eq!(PackageManager::from_name("pip"), PackageManager::Unknown);
    assert_eq!(PackageManager::Yarn.name(), "yarn");
    assert_eq!(PackageManager::Unknown.name(), "");
}

#[test]
fn detection_moves_and_retools_components() {
    let mut r = ComponentConfig::get_default_components();
    let probe = LayoutProbe {
        backend_dir: true,
        ui_dir: true,
        frontend_dir: false,
        cdk_dir: true,
        infra_dir: true,
        backend_pyproject: true,
        ui_package_json: true,
        ui_yarn_lock: false,
        ui_pnpm_lock: true,
        ui_bun_lockb: true,
    };
    detect_project_structure(&mut r, &probe);
    let all = r.all();
    assert_eq!(all[0].path, "./backend");
    assert_eq!(all[0].package_manager, PackageManager::Uv);
    assert_eq!(all[1].path, "./ui");
    assert_eq!(all[1].package_manager, PackageManager::Pnpm);
    assert_eq!(all[2].path, "./infra");
    assert_eq!(all[2].package_manager, PackageManager::Npm);
}

#[test]
fn detection_without_findings_changes_nothing() {
    let mut r = ComponentConfig::get_default_components();
    let probe = LayoutProbe {
        backend_dir: false,
        ui_dir: false,
        frontend_dir: true,
        cdk_dir: false,
        infra_dir: false,
        backend_pyproject: false,
        ui_package_json: false,
        ui_yarn_lock: true,
        ui_pnpm_lock: false,
        ui_bun_lockb: false,
    };
    detect_project_structure(&mut r, &probe);
    let all = r.all();
    assert_eq!(all[0].path, "./backend");
    assert_eq!(all[1].path, "./frontend");
    assert_eq!(all[1].package_manager, PackageManager::Npm);
    assert_eq!(all[2].path, "./infrastructure/cdk");
}
