use vstd::prelude::*;
use crate::config::{opt_str_view, EnvConfig};
use crate::executor::ExecutionRequest;
use crate::flow::{PlanStep, StepView};
use crate::text::{push_str, split_lines, trim, lines_of, trimmed, views_of};

verus! {

/// The variables of a child's environment as character sequences.
pub open spec fn env_view(env: Seq<(String, String)>) -> Seq<(Seq<char>, Seq<char>)> {
    env.map_values(|kv: (String, String)| (kv.0@, kv.1@))
}

/// The variables that deployment tools read: region and account, under
/// both their names, and the profile where one is configured.
pub open spec fn cdk_env(env: EnvConfig) -> Seq<(Seq<char>, Seq<char>)> {
    seq![("AWS_REGION"@, env.region@), ("AWS_ACCOUNT"@, env.account_number@)] + (match env.aws_profile {
        Some(p) => seq![("AWS_PROFILE"@, p@)],
        None => Seq::empty(),
    }) + seq![("CDK_DEFAULT_REGION"@, env.region@), ("CDK_DEFAULT_ACCOUNT"@, env.account_number@)]
}

/// The variables set on each deployment tool's process; they are passed to
/// the child alone and never set on this process.
pub fn cdk_environment(env: &EnvConfig) -> (r: Vec<(String, String)>)
    ensures
        env_view(r@) == cdk_env(*env),
{
    let mut v: Vec<(String, String)> = Vec::new();
    v.push(("AWS_REGION".to_owned(), env.region.clone()));
    v.push(("AWS_ACCOUNT".to_owned(), env.account_number.clone()));
    if let Some(p) = &env.aws_profile {
        v.push(("AWS_PROFILE".to_owned(), p.clone()));
    }
    v.push(("CDK_DEFAULT_REGION".to_owned(), env.region.clone()));
    v.push(("CDK_DEFAULT_ACCOUNT".to_owned(), env.account_number.clone()));
    assert(env_view(v@) =~~= cdk_env(*env));
    v
}

/// A streamed step of the deployment tool in the infrastructure directory.
pub open spec fn cdk_view(args: Seq<Seq<char>>) -> StepView {
    ("cdk"@, args, Some("./infrastructure/cdk"@), true, false)
}

fn cdk_step(args: Vec<String>, env: &EnvConfig) -> (r: PlanStep)
    ensures
        r.view_of() == cdk_view(views_of(args@)),
        env_view(r.request.env@) == cdk_env(*env),
{
    let request = ExecutionRequest {
        program: "cdk".to_owned(),
        args,
        working_dir: Some("./infrastructure/cdk".to_owned()),
        env: cdk_environment(env),
    };
    PlanStep { request, streaming: true, tolerate_failure: false }
}

/// The arguments of a deployment: every stack, or the named one; with
/// neither the stack must first be chosen.
pub open spec fn deploy_args(stack: Option<Seq<char>>, all: bool) -> Option<Seq<Seq<char>>> {
    if all {
        Some(seq!["deploy"@, "--all"@, "--require-approval"@, "never"@])
    } else {
        match stack {
            Some(s) => Some(seq!["deploy"@, s, "--require-approval"@, "never"@]),
            None => None,
        }
    }
}

/// The deployment step; none when no stack is named and not all are asked
/// for, in which case a stack is chosen from `stack_list_request`.
pub fn deploy_step(stack: Option<&str>, all: bool, env: &EnvConfig) -> (r: Option<PlanStep>)
    ensures
        r is Some <==> deploy_args(opt_str_view(stack), all) is Some,
        r matches Some(s) ==> s.view_of() == cdk_view(deploy_args(opt_str_view(stack), all)->0)
            && env_view(s.request.env@) == cdk_env(*env),
{
    let mut args: Vec<String> = Vec::new();
    args.push("deploy".to_owned());
    if all {
        args.push("--all".to_owned());
    } else {
        match stack {
            Some(s) => args.push(s.to_owned()),
            None => return None,
        }
    }
    args.push("--require-approval".to_owned());
    args.push("never".to_owned());
    assert(views_of(args@) =~~= deploy_args(opt_str_view(stack), all)->0);
    Some(cdk_step(args, env))
}

/// The arguments of a teardown: every stack, or the named one.
pub open spec fn destroy_args(stack: Option<Seq<char>>, all: bool) -> Option<Seq<Seq<char>>> {
    if all {
        Some(seq!["destroy"@, "--all"@, "--force"@])
    } else {
        match stack {
            Some(s) => Some(seq!["destroy"@, s, "--force"@]),
            None => None,
        }
    }
}

/// The teardown step; none when no stack is named and not all are asked for.
pub fn destroy_step(stack: Option<&str>, all: bool, env: &EnvConfig) -> (r: Option<PlanStep>)
    ensures
        r is Some <==> destroy_args(opt_str_view(stack), all) is Some,
        r matches Some(s) ==> s.view_of() == cdk_view(destroy_args(opt_str_view(stack), all)->0)
            && env_view(s.request.env@) == cdk_env(*env),
{
    let mut args: Vec<String> = Vec::new();
    args.push("destroy".to_owned());
    if all {
        args.push("--all".to_owned());
    } else {
        match stack {
            Some(s) => args.push(s.to_owned()),
            None => return None,
        }
    }
    args.push("--force".to_owned());
    assert(views_of(args@) =~~= destroy_args(opt_str_view(stack), all)->0);
    Some(cdk_step(args, env))
}

/// What a teardown is about, as the confirmation question names it.
pub open spec fn destroy_target_text(stack: Option<Seq<char>>, all: bool, deployment: Seq<char>) -> Seq<char> {
    (if all {
        "all stacks"@
    } else {
        match stack {
            Some(s) => s,
            None => "selected stack"@,
        }
    }) + " in "@ + deployment
}

pub fn destroy_target(stack: Option<&str>, all: bool, env: &EnvConfig) -> (r: String)
    ensures
        r@ == destroy_target_text(opt_str_view(stack), all, env.deployment_name@),
{
    let mut t = if all {
        "all stacks".to_owned()
    } else {
        match stack {
            Some(s) => s.to_owned(),
            None => "selected stack".to_owned(),
        }
    };
    push_str(&mut t, " in ");
    push_str(&mut t, env.deployment_name.as_str());
    t
}

/// Lists the stacks of the deployment.
pub fn status_step(env: &EnvConfig) -> (r: PlanStep)
    ensures
        r.view_of() == cdk_view(seq!["list"@]),
        env_view(r.request.env@) == cdk_env(*env),
{
    let mut args: Vec<String> = Vec::new();
    args.push("list".to_owned());
    assert(views_of(args@) =~~= seq!["list"@]);
    cdk_step(args, env)
}

/// Shows what a deployment would change, for one stack or for all.
pub fn diff_step(stack: Option<&str>, env: &EnvConfig) -> (r: PlanStep)
    ensures
        r.view_of() == cdk_view(
            match opt_str_view(stack) {
                Some(s) => seq!["diff"@, s],
                None => seq!["diff"@],
            },
        ),
        env_view(r.request.env@) == cdk_env(*env),
{
    let mut args: Vec<String> = Vec::new();
    args.push("diff".to_owned());
    if let Some(s) = stack {
        args.push(s.to_owned());
    }
    assert(views_of(args@) =~~= match opt_str_view(stack) {
        Some(s) => seq!["diff"@, s],
        None => seq!["diff"@],
    });
    cdk_step(args, env)
}

/// Prepares an account and region for deployments: the given region, or
/// else the environment's.
pub fn bootstrap_step(region: Option<&str>, env: &EnvConfig) -> (r: PlanStep)
    ensures
        r.view_of() == cdk_view(
            seq![
                "bootstrap"@,
                "--region"@,
                match opt_str_view(region) {
                    Some(g) => g,
                    None => env.region@,
                },
            ],
        ),
        env_view(r.request.env@) == cdk_env(*env),
{
    let mut args: Vec<String> = Vec::new();
    args.push("bootstrap".to_owned());
    args.push("--region".to_owned());
    match region {
        Some(g) => args.push(g.to_owned()),
        None => args.push(env.region.clone()),
    }
    assert(views_of(args@) =~~= seq![
        "bootstrap"@,
        "--region"@,
        match opt_str_view(region) {
            Some(g) => g,
            None => env.region@,
        },
    ]);
    cdk_step(args, env)
}

/// The captured request that lists the stacks to choose from.
pub fn stack_list_request(env: &EnvConfig) -> (r: ExecutionRequest)
    ensures
        r.program@ == "cdk"@,
        views_of(r.args@) == seq!["list"@],
        r.working_dir matches Some(d) && d@ == "./infrastructure/cdk"@,
        env_view(r.env@) == cdk_env(*env),
{
    status_step(env).request
}

/// The captured request that removes the deployment tool's output.
pub fn clean_request() -> (r: ExecutionRequest)
    ensures
        r.program@ == "rm"@,
        views_of(r.args@) == seq!["-rf"@, "./infrastructure/cdk/cdk.out"@],
        r.working_dir is None,
        r.env@.len() == 0,
{
    let mut args: Vec<String> = Vec::new();
    args.push("-rf".to_owned());
    args.push("./infrastructure/cdk/cdk.out".to_owned());
    assert(views_of(args@) =~~= seq!["-rf"@, "./infrastructure/cdk/cdk.out"@]);
    ExecutionRequest { program: "rm".to_owned(), args, working_dir: None, env: Vec::new() }
}

/// The non-empty entries of a list, in order.
pub open spec fn nonempty_only(s: Seq<Seq<char>>) -> Seq<Seq<char>>
    decreases s.len(),
{
    if s.len() == 0 {
        Seq::empty()
    } else if s.last().len() == 0 {
        nonempty_only(s.drop_last())
    } else {
        nonempty_only(s.drop_last()).push(s.last())
    }
}

/// Keeps the non-empty entries, in order.
pub fn keep_nonempty(entries: Vec<String>) -> (r: Vec<String>)
    ensures
        views_of(r@) == nonempty_only(views_of(entries@)),
{
    let ghost all = views_of(entries@);
    let mut r: Vec<String> = Vec::new();
    let mut rest = entries;
    let mut i: usize = 0;
    let n: usize = rest.len();
    while i < n
        invariant
            i <= n,
            n == all.len(),
            rest@.len() == n - i,
            views_of(rest@) == all.subrange(i as int, n as int),
            views_of(r@) == nonempty_only(all.subrange(0, i as int)),
        decreases n - i,
    {
        let ghost rest_before = rest@;
        let e = rest.remove(0);
        proof {
            let pre = all.subrange(0, i + 1);
            assert(e == rest_before[0]);
            assert(views_of(rest_before)[0] == all[i as int]);
            assert(pre.drop_last() =~= all.subrange(0, i as int));
            assert(pre.last() == e@);
            assert(views_of(rest@) =~= views_of(rest_before).drop_first());
        }
        if !e.as_str().is_empty() {
            r.push(e);
        }
        i = i + 1;
    }
    assert(all.subrange(0, n as int) =~= all);
    r
}

/// The stacks named in the output of the stack listing: its lines,
/// trimmed, without the empty ones.
pub open spec fn listed_stacks(output: Seq<char>) -> Seq<Seq<char>> {
    nonempty_only(lines_of(output).map_values(|l: Seq<char>| trimmed(l)))
}

pub fn parse_stack_list(output: &str) -> (r: Vec<String>)
    ensures
        views_of(r@) == listed_stacks(output@),
{
    let lines = split_lines(output);
    let ghost ls = views_of(lines@);
    let mut t: Vec<String> = Vec::new();
    for i in 0..lines.len()
        invariant
            ls == views_of(lines@),
            views_of(t@) == ls.subrange(0, i as int).map_values(|l: Seq<char>| trimmed(l)),
    {
        t.push(trim(lines[i].as_str()));
        assert(ls.subrange(0, i + 1).map_values(|l: Seq<char>| trimmed(l)) =~= ls.subrange(
            0,
            i as int,
        ).map_values(|l: Seq<char>| trimmed(l)).push(trimmed(ls[i as int])));
    }
    assert(ls.subrange(0, ls.len() as int) =~= ls);
    keep_nonempty(t)
}

} // verus!
