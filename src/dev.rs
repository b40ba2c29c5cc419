use vstd::prelude::*;
use crate::components::{first_named, ComponentAction, ComponentConfig, ComponentRegistry, PackageManager};
use crate::config::opt_str_view;
use crate::error::CwbError;
use crate::executor::CommandBuilder;
use crate::flow::{step_views, streamed_step, PlanStep, StepView};
use crate::text::{contains_str, has_substring, split_words, str_eq, views_of, whitespace_words};

verus! {

/// The development commands.
#[derive(Clone, Copy, Debug, PartialEq, Eq, Structural)]
pub enum DevAction {
    Start,
    Build,
    Test,
    Lint,
    Format,
    Typecheck,
}

/// Options of the development commands.
#[derive(Debug)]
pub struct DevOptions {
    /// Ask the test runner for a coverage report.
    pub coverage: bool,
    /// Run only the tests that match this name.
    pub test_filter: Option<String>,
    /// Let the linter fix what it can.
    pub fix: bool,
}

pub open spec fn opt_string_view(o: Option<String>) -> Option<Seq<char>> {
    match o {
        Some(s) => Some(s@),
        None => None,
    }
}

/// The step that a command template gives once split into words: the
/// first word is the program, the others and then `extra` its arguments,
/// run in `dir`. A template without words gives no step.
pub open spec fn template_step(words: Seq<Seq<char>>, extra: Seq<Seq<char>>, dir: Seq<char>) -> Seq<
    StepView,
> {
    if words.len() == 0 {
        Seq::empty()
    } else {
        seq![(words[0], words.drop_first() + extra, Some(dir), true, false)]
    }
}

/// Builds the step of a template that was split into `words`.
pub fn step_from_words(words: &Vec<String>, extra: &Vec<String>, dir: &str) -> (r: Vec<PlanStep>)
    ensures
        step_views(r@) == template_step(views_of(words@), views_of(extra@), dir@),
{
    let mut v: Vec<PlanStep> = Vec::new();
    if words.len() == 0 {
        assert(step_views(v@) =~~= template_step(views_of(words@), views_of(extra@), dir@));
        return v;
    }
    let ghost w = views_of(words@);
    let ghost e = views_of(extra@);
    let mut b = CommandBuilder::new(words[0].as_str());
    assert(b.spec_args() =~= w.subrange(1, 1));
    let mut i: usize = 1;
    while i < words.len()
        invariant
            1 <= i <= words@.len(),
            w == views_of(words@),
            b.spec_command() == w[0],
            b.spec_args() == w.subrange(1, i as int),
            b.spec_working_dir() is None,
            b.spec_env().len() == 0,
        decreases words@.len() - i,
    {
        b = b.arg(words[i].as_str());
        assert(w.subrange(1, i + 1) =~= w.subrange(1, i as int).push(w[i as int]));
        i = i + 1;
    }
    assert(w.subrange(1, w.len() as int) =~= w.drop_first());
    let mut j: usize = 0;
    while j < extra.len()
        invariant
            j <= extra@.len(),
            w == views_of(words@),
            e == views_of(extra@),
            b.spec_command() == w[0],
            b.spec_args() == w.drop_first() + e.subrange(0, j as int),
            b.spec_working_dir() is None,
            b.spec_env().len() == 0,
        decreases extra@.len() - j,
    {
        b = b.arg(extra[j].as_str());
        assert(w.drop_first() + e.subrange(0, j + 1) =~= (w.drop_first() + e.subrange(0, j as int)).push(
            e[j as int],
        ));
        j = j + 1;
    }
    assert(e.subrange(0, e.len() as int) =~= e);
    b = b.working_dir(dir);
    let request = b.build();
    v.push(PlanStep { request, streaming: true, tolerate_failure: false });
    assert(step_views(v@) =~~= template_step(w, e, dir@));
    v
}

pub open spec fn is_node(pm: PackageManager) -> bool {
    pm == PackageManager::Npm || pm == PackageManager::Yarn || pm == PackageManager::Pnpm
}

/// The arguments added to a test command: a coverage flag for pytest under
/// uv, and a name filter in the form of the test runner.
pub open spec fn test_extra(pm: PackageManager, cmd: Seq<char>, coverage: bool, filter: Option<Seq<char>>) -> Seq<
    Seq<char>,
> {
    let pytest = pm == PackageManager::Uv && has_substring(cmd, "pytest"@);
    (if coverage && pytest {
        seq!["--cov"@]
    } else {
        Seq::empty()
    }) + match filter {
        Some(f) => if is_node(pm) {
            seq!["--testNamePattern"@, f]
        } else if pytest {
            seq!["-k"@, f]
        } else {
            Seq::empty()
        },
        None => Seq::empty(),
    }
}

pub fn test_extra_args(pm: PackageManager, cmd: &str, coverage: bool, filter: Option<&str>) -> (r: Vec<String>)
    ensures
        views_of(r@) == test_extra(pm, cmd@, coverage, opt_str_view(filter)),
{
    let pytest = pm == PackageManager::Uv && contains_str(cmd, "pytest");
    let node = pm == PackageManager::Npm || pm == PackageManager::Yarn || pm == PackageManager::Pnpm;
    let mut r: Vec<String> = Vec::new();
    if coverage && pytest {
        r.push("--cov".to_owned());
    }
    let ghost first = views_of(r@);
    if let Some(f) = filter {
        if node {
            r.push("--testNamePattern".to_owned());
            r.push(f.to_owned());
        } else if pytest {
            r.push("-k".to_owned());
            r.push(f.to_owned());
        }
    }
    assert(views_of(r@) =~~= test_extra(pm, cmd@, coverage, opt_str_view(filter)));
    r
}

/// The arguments added to a lint command: `--fix` for ruff or eslint when
/// fixing is asked for.
pub open spec fn lint_extra(cmd: Seq<char>, fix: bool) -> Seq<Seq<char>> {
    if fix && (has_substring(cmd, "ruff"@) || has_substring(cmd, "eslint"@)) {
        seq!["--fix"@]
    } else {
        Seq::empty()
    }
}

pub fn lint_extra_args(cmd: &str, fix: bool) -> (r: Vec<String>)
    ensures
        views_of(r@) == lint_extra(cmd@, fix),
{
    let mut r: Vec<String> = Vec::new();
    if fix && (contains_str(cmd, "ruff") || contains_str(cmd, "eslint")) {
        r.push("--fix".to_owned());
    }
    assert(views_of(r@) =~~= lint_extra(cmd@, fix));
    r
}

/// The command template that an action runs.
pub open spec fn template_action(action: DevAction) -> ComponentAction {
    match action {
        DevAction::Start => ComponentAction::Dev,
        DevAction::Build => ComponentAction::Build,
        DevAction::Test => ComponentAction::Test,
        DevAction::Lint => ComponentAction::Lint,
        _ => ComponentAction::Format,
    }
}

/// The arguments that options add to a template of an action.
pub open spec fn extra_for(action: DevAction, c: ComponentConfig, cmd: Seq<char>, opts: DevOptions) -> Seq<
    Seq<char>,
> {
    match action {
        DevAction::Test => test_extra(c.package_manager, cmd, opts.coverage, opt_string_view(opts.test_filter)),
        DevAction::Lint => lint_extra(cmd, opts.fix),
        _ => Seq::empty(),
    }
}

/// The steps of an action on one component: type checking runs the
/// TypeScript compiler on TypeScript components; every other action runs
/// the component's template for it, if it has one.
pub open spec fn component_dev_steps(action: DevAction, c: ComponentConfig, opts: DevOptions) -> Seq<
    StepView,
> {
    if action == DevAction::Typecheck {
        if c.language@ == "typescript"@ {
            seq![("npx"@, seq!["tsc"@, "--noEmit"@], Some(c.path@), true, false)]
        } else {
            Seq::empty()
        }
    } else {
        match c.spec_command(template_action(action)) {
            Some(cmd) => template_step(whitespace_words(cmd@), extra_for(action, c, cmd@, opts), c.path@),
            None => Seq::empty(),
        }
    }
}

/// The steps of an action on each component in turn.
pub open spec fn components_dev_steps(action: DevAction, comps: Seq<ComponentConfig>, opts: DevOptions) -> Seq<
    StepView,
>
    decreases comps.len(),
{
    if comps.len() == 0 {
        Seq::empty()
    } else {
        components_dev_steps(action, comps.drop_last(), opts) + component_dev_steps(
            action,
            comps.last(),
            opts,
        )
    }
}

/// The steps of an action on the component of that name, if there is one.
pub open spec fn named_dev_steps(action: DevAction, comps: Seq<ComponentConfig>, name: Seq<char>, opts: DevOptions) -> Seq<
    StepView,
> {
    match first_named(comps, name) {
        Some(c) => component_dev_steps(action, c, opts),
        None => Seq::empty(),
    }
}

/// The steps of an action on the whole project: starting brings up the
/// backend, then the frontend; every other action covers each component in
/// order of registration.
pub open spec fn all_dev_steps(action: DevAction, comps: Seq<ComponentConfig>, opts: DevOptions) -> Seq<
    StepView,
> {
    if action == DevAction::Start {
        named_dev_steps(action, comps, "backend"@, opts) + named_dev_steps(action, comps, "frontend"@, opts)
    } else {
        components_dev_steps(action, comps, opts)
    }
}

fn component_dev_plan(action: DevAction, c: &ComponentConfig, opts: &DevOptions) -> (r: Vec<PlanStep>)
    ensures
        step_views(r@) == component_dev_steps(action, *c, *opts),
{
    if action == DevAction::Typecheck {
        let mut v: Vec<PlanStep> = Vec::new();
        if str_eq(c.language.as_str(), "typescript") {
            v.push(streamed_step("npx", &["tsc", "--noEmit"], Some(c.path.as_str()), false));
        }
        assert(step_views(v@) =~~= component_dev_steps(action, *c, *opts));
        return v;
    }
    let which = match action {
        DevAction::Start => ComponentAction::Dev,
        DevAction::Build => ComponentAction::Build,
        DevAction::Test => ComponentAction::Test,
        DevAction::Lint => ComponentAction::Lint,
        _ => ComponentAction::Format,
    };
    match c.command(which) {
        Some(cmd) => {
            let words = split_words(cmd.as_str());
            let extra = match action {
                DevAction::Test => {
                    let filter = match &opts.test_filter {
                        Some(f) => Some(f.as_str()),
                        None => None,
                    };
                    test_extra_args(c.package_manager, cmd.as_str(), opts.coverage, filter)
                },
                DevAction::Lint => lint_extra_args(cmd.as_str(), opts.fix),
                _ => {
                    let e: Vec<String> = Vec::new();
                    assert(views_of(e@) =~= Seq::<Seq<char>>::empty());
                    e
                },
            };
            step_from_words(&words, &extra, c.path.as_str())
        },
        None => {
            let v: Vec<PlanStep> = Vec::new();
            assert(step_views(v@) =~~= component_dev_steps(action, *c, *opts));
            v
        },
    }
}

fn named_dev_plan(action: DevAction, registry: &ComponentRegistry, name: &str, opts: &DevOptions) -> (r: Vec<PlanStep>)
    ensures
        step_views(r@) == named_dev_steps(action, registry@, name@, *opts),
{
    match registry.lookup(name) {
        Ok(c) => component_dev_plan(action, c, opts),
        Err(_) => {
            let v: Vec<PlanStep> = Vec::new();
            assert(step_views(v@) =~~= named_dev_steps(action, registry@, name@, *opts));
            v
        },
    }
}

/// The steps of a development command. For `all` they cover the whole
/// project; otherwise the named component, and an unregistered name fails
/// with `UnknownComponent`.
pub fn dev_plan(action: DevAction, component: &str, registry: &ComponentRegistry, opts: &DevOptions) -> (r:
    Result<Vec<PlanStep>, CwbError>)
    ensures
        component@ == "all"@ ==> (r matches Ok(v) && step_views(v@) == all_dev_steps(
            action,
            registry@,
            *opts,
        )),
        component@ != "all"@ && registry.spec_names().contains(component@) ==> (r matches Ok(v)
            && step_views(v@) == named_dev_steps(action, registry@, component@, *opts)),
        component@ != "all"@ && !registry.spec_names().contains(component@) ==> (r matches Err(
            CwbError::UnknownComponent { requested, known },
        ) && requested@ == component@ && views_of(known@) == registry.spec_names()),
{
    if str_eq(component, "all") {
        if action == DevAction::Start {
            let mut v = named_dev_plan(action, registry, "backend", opts);
            let ghost first = v@;
            let mut f = named_dev_plan(action, registry, "frontend", opts);
            v.append(&mut f);
            assert(step_views(v@) =~~= step_views(first) + named_dev_steps(action, registry@, "frontend"@, *opts));
            return Ok(v);
        }
        let comps = registry.all();
        let mut v: Vec<PlanStep> = Vec::new();
        let mut i: usize = 0;
        while i < comps.len()
            invariant
                i <= comps@.len(),
                comps@ == registry@,
                step_views(v@) == components_dev_steps(action, comps@.subrange(0, i as int), *opts),
            decreases comps@.len() - i,
        {
            let ghost before = v@;
            let mut s = component_dev_plan(action, &comps[i], opts);
            v.append(&mut s);
            proof {
                let pre = comps@.subrange(0, i + 1);
                assert(pre.drop_last() =~= comps@.subrange(0, i as int));
                assert(pre.last() == comps@[i as int]);
                assert(step_views(v@) =~~= step_views(before) + component_dev_steps(action, comps@[i as int], *opts));
            }
            i = i + 1;
        }
        assert(comps@.subrange(0, comps@.len() as int) =~= comps@);
        return Ok(v);
    }
    match registry.lookup(component) {
        Ok(c) => Ok(component_dev_plan(action, c, opts)),
        Err(e) => Err(e),
    }
}

/// The step that runs the pre-commit hooks over every file, from the
/// current directory; it runs only once a probe has found `pre-commit`.
pub fn pre_commit_step() -> (r: PlanStep)
    ensures
        r.view_of() == ("pre-commit"@, seq!["run"@, "--all-files"@], None::<Seq<char>>, true, false),
        r.request.env@.len() == 0,
{
    streamed_step("pre-commit", &["run", "--all-files"], None, false)
}

} // verus!
