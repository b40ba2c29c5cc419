use cwb::components::ComponentConfig;
use cwb::deps::{dependency_plan, DepsAction};
use cwb::dev::{
    dev_plan, lint_extra_args, pre_commit_step, step_from_words, test_extra_args, DevAction, DevOptions,
};
use cwb::error::CwbError;
use cwb::flow::PlanStep;

fn summary(steps: &[PlanStep]) -> Vec<String> {
    steps.iter().map(|s| {
        let dir = s.request.working_dir.clone().unwrap_or_else(|| "-".to_string());
        let mark = if s.tolerate_failure { "?" } else { "" };
        format!("{}{} @ {}", s.request.command_line(), mark, dir)
    }).collect()
}

fn no_options() -> DevOptions {
    DevOptions { coverage: false, test_filter: None, fix: false }
}

#[test]
fn install_all_covers_each_area() {
    let r = ComponentConfig::get_default_components();
    let plan = dependency_plan(DepsAction::Install, "all", &r).ok().unwrap();
    assert_eq!(summary(&plan), vec![
        "uv sync @ -".to_string(),
        "npm install @ ui".to_string(),
        "npm install @ infrastructure/cdk".to_string(),
    ]);
}

#[test]
fn update_backend_locks_then_syncs() {
    let r = ComponentConfig::get_default_components();
    let plan = dependency_plan(DepsAction::Update, "backend", &r).ok().unwrap();
    assert_eq!(summary(&plan), vec![
        "uv lock --upgrade @ ./backend".to_string(),
        "uv sync @ ./backend".to_string(),
    ]);
}

#[test]
fn outdated_failures_are_tolerated() {
    let r = ComponentConfig::get_default_components();
    let plan = dependency_plan(DepsAction::Outdated, "all", &r).ok().unwrap();
    assert_eq!(summary(&plan), vec![
        "uv lock --dry-run? @ -".to_string(),
        "npm outdated? @ ui".to_string(),
        "npm outdated? @ infrastructure/cdk".to_string(),
    ]);
}

#[test]
fn sync_ignores_component_argument() {
    let r = ComponentConfig::get_default_components();
    let plan = dependency_plan(DepsAction::Sync, "frontend", &r).ok().unwrap();
    assert_eq!(summary(&plan), vec![
        "uv sync @ -".to_string(),
        "npm ci @ ui".to_string(),
        "npm ci @ infrastructure/cdk".to_string(),
    ]);
}

#[test]
fn dependency_plan_unknown_component() {
    let r = ComponentConfig::get_default_components();
    assert!(matches!(
        dependency_plan(DepsAction::Install, "docs", &r),
        Err(CwbError::UnknownComponent { .. })
    ));
}

#[test]
fn backend_tests_with_coverage_and_filter() {
    let r = ComponentConfig::get_default_components();
    let opts = DevOptions { coverage: true, test_filter: Some("login".to_string()), fix: false };
    let plan = dev_plan(DevAction::Test, "backend", &r, &opts).ok().unwrap();
    assert_eq!(summary(&plan), vec!["pytest --cov -k login @ ./backend".to_string()]);
}

#[test]
fn frontend_tests_with_filter() {
    let r = ComponentConfig::get_default_components();
    let opts = DevOptions { coverage: true, test_filter: Some("nav".to_string()), fix: false };
    let plan = dev_plan(DevAction::Test, "frontend", &r, &opts).ok().unwrap();
    assert_eq!(summary(&plan), vec!["npm test --testNamePattern nav @ ./ui".to_string()]);
}

#[test]
fn lint_fix_only_for_known_linters() {
    let r = ComponentConfig::get_default_components();
    let opts = DevOptions { coverage: false, test_filter: None, fix: true };
    let plan = dev_plan(DevAction::Lint, "all", &r, &opts).ok().unwrap();
    assert_eq!(summary(&plan), vec![
        "ruff check --fix @ ./backend".to_string(),
        "npm run lint @ ./ui".to_string(),
        "npm run lint @ ./infrastructure/cdk".to_string(),
    ]);
}

#[test]
fn build_all_skips_components_without_build() {
    let r = ComponentConfig::get_default_components();
    let plan = dev_plan(DevAction::Build, "all", &r, &no_options()).ok().unwrap();
    assert_eq!(summary(&plan), vec![
        "npm run build @ ./ui".to_string(),
        "npm run build @ ./infrastructure/cdk".to_string(),
    ]);
}

#[test]
fn start_all_runs_backend_then_frontend() {
    let r = ComponentConfig::get_default_components();
    let plan = dev_plan(DevAction::Start, "all", &r, &no_options()).ok().unwrap();
    assert_eq!(summary(&plan), vec![
        "python -m app.api.main @ ./backend".to_string(),
        "npm run dev @ ./ui".to_string(),
    ]);
}

#[test]
fn typecheck_only_typescript() {
    let r = ComponentConfig::get_default_components();
    assert!(dev_plan(DevAction::Typecheck, "backend", &r, &no_options()).ok().unwrap().is_empty());
    let plan = dev_plan(DevAction::Typecheck, "all", &r, &no_options()).ok().unwrap();
    assert_eq!(summary(&plan), vec![
        "npx tsc --noEmit @ ./ui".to_string(),
        "npx tsc --noEmit @ ./infrastructure/cdk".to_string(),
    ]);
}

#[test]
fn format_skips_missing_template() {
    let r = ComponentConfig::get_default_components();
    assert!(dev_plan(DevAction::Format, "infrastructure", &r, &no_options()).ok().unwrap().is_empty());
    assert!(matches!(
        dev_plan(DevAction::Format, "mobile", &r, &no_options()),
        Err(CwbError::UnknownComponent { .. })
    ));
}

#[test]
fn template_words_split_on_whitespace() {
    let words = vec!["npm".to_string(), "run".to_string(), "dev".to_string()];
    let plan = step_from_words(&words, &vec!["--host".to_string()], "./ui");
    assert_eq!(summary(&plan), vec!["npm run dev --host @ ./ui".to_string()]);
    assert!(step_from_words(&vec![], &vec![], "./ui").is_empty());
}

#[test]
fn extra_arguments_by_runner() {
    assert_eq!(test_extra_args(cwb::components::PackageManager::Uv, "uv run pytest", true, None), vec!["--cov".to_string()]);
    assert!(test_extra_args(cwb::components::PackageManager::Uv, "unittest", true, Some("a")).is_empty());
    assert_eq!(lint_extra_args("eslint .", true), vec!["--fix".to_string()]);
    assert!(lint_extra_args("eslint .", false).is_empty());
    assert_eq!(summary(&[pre_commit_step()]), vec!["pre-commit run --all-files @ -".to_string()]);
}

#[test]
fn empty_registry_plans_nothing() {
    let r = cwb::components::ComponentRegistry::new();
    assert!(dependency_plan(DepsAction::Install, "all", &r).ok().unwrap().is_empty());
    assert!(dev_plan(DevAction::Build, "all", &r, &no_options()).ok().unwrap().is_empty());
    assert!(dev_plan(DevAction::Start, "all", &r, &no_options()).ok().unwrap().is_empty());
    match dependency_plan(DepsAction::Update, "backend", &r) {
        Err(CwbError::UnknownComponent { known, .. }) => assert!(known.is_empty()),
        _ => panic!("expected UnknownComponent"),
    }
}
