use vstd::prelude::*;
use crate::components::{first_named, ComponentRegistry, PackageManager};
use crate::error::CwbError;
use crate::flow::{step_views, streamed_step, PlanStep, StepView};
use crate::text::{str_eq, views_of};

verus! {

/// The dependency commands.
#[derive(Clone, Copy, Debug, PartialEq, Eq, Structural)]
pub enum DepsAction {
    /// Install what the lock files name.
    Install,
    /// Move dependencies to their newest allowed versions.
    Update,
    /// Show outdated packages; a failure here is reported, never fatal.
    Outdated,
    /// Make every component match its lock file.
    Sync,
}

/// A streamed step.
pub open spec fn sv(program: Seq<char>, args: Seq<Seq<char>>, dir: Option<Seq<char>>, tolerate: bool) -> StepView {
    (program, args, dir, true, tolerate)
}

/// The backend's steps when the whole project is handled; they run in the
/// current directory.
pub open spec fn backend_steps(action: DepsAction) -> Seq<StepView> {
    match action {
        DepsAction::Install => seq![sv("uv"@, seq!["sync"@], None, false)],
        DepsAction::Sync => seq![sv("uv"@, seq!["sync"@], None, false)],
        DepsAction::Update => seq![
            sv("uv"@, seq!["lock"@, "--upgrade"@], None, false),
            sv("uv"@, seq!["sync"@], None, false),
        ],
        DepsAction::Outdated => seq![sv("uv"@, seq!["lock"@, "--dry-run"@], None, true)],
    }
}

/// The steps of a Node component in `dir` when the whole project is handled.
pub open spec fn node_steps(action: DepsAction, dir: Seq<char>) -> Seq<StepView> {
    match action {
        DepsAction::Install => seq![sv("npm"@, seq!["install"@], Some(dir), false)],
        DepsAction::Update => seq![sv("npm"@, seq!["update"@], Some(dir), false)],
        DepsAction::Outdated => seq![sv("npm"@, seq!["outdated"@], Some(dir), true)],
        DepsAction::Sync => seq![sv("npm"@, seq!["ci"@], Some(dir), false)],
    }
}

/// The steps for the whole project: backend, frontend and infrastructure,
/// each only where it is registered.
pub open spec fn all_steps(action: DepsAction, names: Seq<Seq<char>>) -> Seq<StepView> {
    (if names.contains("backend"@) {
        backend_steps(action)
    } else {
        Seq::empty()
    }) + (if names.contains("frontend"@) {
        node_steps(action, "ui"@)
    } else {
        Seq::empty()
    }) + (if names.contains("infrastructure"@) {
        node_steps(action, "infrastructure/cdk"@)
    } else {
        Seq::empty()
    })
}

/// The steps for one component, by its package manager, in its directory.
/// A package manager without commands here gives no steps.
pub open spec fn component_steps(action: DepsAction, pm: PackageManager, path: Seq<char>) -> Seq<StepView> {
    let d = Some(path);
    match (action, pm) {
        (DepsAction::Update, PackageManager::Uv) => seq![
            sv("uv"@, seq!["lock"@, "--upgrade"@], d, false),
            sv("uv"@, seq!["sync"@], d, false),
        ],
        (DepsAction::Update, PackageManager::Npm) => seq![sv("npm"@, seq!["update"@], d, false)],
        (DepsAction::Update, PackageManager::Yarn) => seq![sv("yarn"@, seq!["upgrade"@], d, false)],
        (DepsAction::Update, PackageManager::Pnpm) => seq![sv("pnpm"@, seq!["update"@], d, false)],
        (DepsAction::Outdated, PackageManager::Uv) => seq![sv("uv"@, seq!["lock"@, "--dry-run"@], d, true)],
        (DepsAction::Outdated, PackageManager::Npm) => seq![sv("npm"@, seq!["outdated"@], d, true)],
        (DepsAction::Outdated, PackageManager::Yarn) => seq![sv("yarn"@, seq!["outdated"@], d, true)],
        (DepsAction::Outdated, PackageManager::Pnpm) => seq![sv("pnpm"@, seq!["outdated"@], d, true)],
        (DepsAction::Update, _) => Seq::empty(),
        (DepsAction::Outdated, _) => Seq::empty(),
        (_, PackageManager::Uv) => seq![sv("uv"@, seq!["sync"@], d, false)],
        (_, PackageManager::Npm) => seq![sv("npm"@, seq!["install"@], d, false)],
        (_, PackageManager::Yarn) => seq![sv("yarn"@, seq!["install"@], d, false)],
        (_, PackageManager::Pnpm) => seq![sv("pnpm"@, seq!["install"@], d, false)],
        (_, _) => Seq::empty(),
    }
}

fn backend_plan(action: DepsAction) -> (r: Vec<PlanStep>)
    ensures
        step_views(r@) == backend_steps(action),
{
    let mut v: Vec<PlanStep> = Vec::new();
    match action {
        DepsAction::Install | DepsAction::Sync => {
            v.push(streamed_step("uv", &["sync"], None, false));
            assert(step_views(v@) =~~= backend_steps(action));
        },
        DepsAction::Update => {
            v.push(streamed_step("uv", &["lock", "--upgrade"], None, false));
            v.push(streamed_step("uv", &["sync"], None, false));
            assert(step_views(v@) =~~= backend_steps(action));
        },
        DepsAction::Outdated => {
            v.push(streamed_step("uv", &["lock", "--dry-run"], None, true));
            assert(step_views(v@) =~~= backend_steps(action));
        },
    }
    v
}

fn node_plan(action: DepsAction, dir: &str) -> (r: Vec<PlanStep>)
    ensures
        step_views(r@) == node_steps(action, dir@),
{
    let mut v: Vec<PlanStep> = Vec::new();
    let step = match action {
        DepsAction::Install => streamed_step("npm", &["install"], Some(dir), false),
        DepsAction::Update => streamed_step("npm", &["update"], Some(dir), false),
        DepsAction::Outdated => streamed_step("npm", &["outdated"], Some(dir), true),
        DepsAction::Sync => streamed_step("npm", &["ci"], Some(dir), false),
    };
    v.push(step);
    assert(step_views(v@) =~~= node_steps(action, dir@));
    v
}

fn component_plan(action: DepsAction, pm: PackageManager, path: &str) -> (r: Vec<PlanStep>)
    ensures
        step_views(r@) == component_steps(action, pm, path@),
{
    let d = Some(path);
    let mut v: Vec<PlanStep> = Vec::new();
    match (action, pm) {
        (DepsAction::Update, PackageManager::Uv) => {
            v.push(streamed_step("uv", &["lock", "--upgrade"], d, false));
            v.push(streamed_step("uv", &["sync"], d, false));
        },
        (DepsAction::Update, PackageManager::Npm) => v.push(streamed_step("npm", &["update"], d, false)),
        (DepsAction::Update, PackageManager::Yarn) => v.push(streamed_step("yarn", &["upgrade"], d, false)),
        (DepsAction::Update, PackageManager::Pnpm) => v.push(streamed_step("pnpm", &["update"], d, false)),
        (DepsAction::Outdated, PackageManager::Uv) => v.push(streamed_step("uv", &["lock", "--dry-run"], d, true)),
        (DepsAction::Outdated, PackageManager::Npm) => v.push(streamed_step("npm", &["outdated"], d, true)),
        (DepsAction::Outdated, PackageManager::Yarn) => v.push(streamed_step("yarn", &["outdated"], d, true)),
        (DepsAction::Outdated, PackageManager::Pnpm) => v.push(streamed_step("pnpm", &["outdated"], d, true)),
        (DepsAction::Update, _) => {},
        (DepsAction::Outdated, _) => {},
        (_, PackageManager::Uv) => v.push(streamed_step("uv", &["sync"], d, false)),
        (_, PackageManager::Npm) => v.push(streamed_step("npm", &["install"], d, false)),
        (_, PackageManager::Yarn) => v.push(streamed_step("yarn", &["install"], d, false)),
        (_, PackageManager::Pnpm) => v.push(streamed_step("pnpm", &["install"], d, false)),
        (_, _) => {},
    }
    assert(step_views(v@) =~~= component_steps(action, pm, path@));
    v
}

/// The steps of a dependency command. `Sync`, and any action for the
/// component `all`, covers the whole project; otherwise the named component
/// is looked up, and an unregistered name fails with `UnknownComponent`.
pub fn dependency_plan(action: DepsAction, component: &str, registry: &ComponentRegistry) -> (r:
    Result<Vec<PlanStep>, CwbError>)
    ensures
        action == DepsAction::Sync || component@ == "all"@ ==> (r matches Ok(v) && step_views(v@)
            == all_steps(action, registry.spec_names())),
        action != DepsAction::Sync && component@ != "all"@ && registry.spec_names().contains(
            component@,
        ) ==> (r matches Ok(v) && first_named(registry@, component@) matches Some(c) && step_views(
            v@,
        ) == component_steps(action, c.package_manager, c.path@)),
        action != DepsAction::Sync && component@ != "all"@ && !registry.spec_names().contains(
            component@,
        ) ==> (r matches Err(CwbError::UnknownComponent { requested, known }) && requested@
            == component@ && views_of(known@) == registry.spec_names()),
{
    if action == DepsAction::Sync || str_eq(component, "all") {
        let mut v: Vec<PlanStep> = Vec::new();
        if registry.contains("backend") {
            let mut b = backend_plan(action);
            v.append(&mut b);
        }
        let ghost after_backend = v@;
        if registry.contains("frontend") {
            let mut f = node_plan(action, "ui");
            v.append(&mut f);
        }
        let ghost after_frontend = v@;
        if registry.contains("infrastructure") {
            let mut n = node_plan(action, "infrastructure/cdk");
            v.append(&mut n);
        }
        proof {
            let names = registry.spec_names();
            let b = if names.contains("backend"@) { backend_steps(action) } else { Seq::empty() };
            let f = if names.contains("frontend"@) { node_steps(action, "ui"@) } else { Seq::empty() };
            assert(step_views(after_backend) =~~= b);
            assert(step_views(after_frontend) =~~= b + f);
            assert(step_views(v@) =~~= all_steps(action, names));
        }
        return Ok(v);
    }
    match registry.lookup(component) {
        Ok(c) => Ok(component_plan(action, c.package_manager, c.path.as_str())),
        Err(e) => Err(e),
    }
}

} // verus!
