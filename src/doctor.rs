use vstd::prelude::*;
use crate::config::{EnvConfig, ProjectConfig};
use crate::executor::ExecutionRequest;
use crate::text::{join, push_str, separated, str_eq, views_of};

verus! {

/// The problem found in a document whose default environment is not
/// configured.
pub open spec fn default_env_issue(name: Seq<char>) -> Seq<char> {
    "Default environment '"@ + name + "' is not available in configuration"@
}

/// The problems of the loaded configuration: one when the default
/// environment is not among the configured ones, none otherwise.
pub fn config_file_issues(project: &ProjectConfig) -> (r: Vec<String>)
    ensures
        project.environment_names().contains(project.env@) ==> r@.len() == 0,
        !project.environment_names().contains(project.env@) ==> views_of(r@) == seq![
            default_env_issue(project.env@),
        ],
{
    let mut issues: Vec<String> = Vec::new();
    let envs = project.get_available_environments();
    let default_env = project.get_default_env();
    let mut found = false;
    let mut i: usize = 0;
    while i < envs.len()
        invariant
            i <= envs@.len(),
            crate::text::str_views_of(envs@) == project.environment_names(),
            default_env@ == project.env@,
            found == exists|j: int| 0 <= j < i && #[trigger] envs@[j]@ == project.env@,
        decreases envs@.len() - i,
    {
        if str_eq(envs[i], default_env) {
            found = true;
        }
        i = i + 1;
    }
    proof {
        let names = project.environment_names();
        if names.contains(project.env@) {
            let k = choose|k: int| 0 <= k < names.len() && names[k] == project.env@;
            assert(envs@[k]@ == project.env@);
        }
        if found {
            let j = choose|j: int| 0 <= j < envs@.len() && #[trigger] envs@[j]@ == project.env@;
            assert(names[j] == project.env@);
        }
    }
    if !found {
        let mut m = "Default environment '".to_owned();
        push_str(&mut m, default_env);
        push_str(&mut m, "' is not available in configuration");
        issues.push(m);
        assert(views_of(issues@) =~= seq![default_env_issue(project.env@)]);
    }
    issues
}

/// The tools that a working setup needs, each with its description.
pub open spec fn spec_required_tools() -> Seq<(Seq<char>, Seq<char>)> {
    seq![
        ("git"@, "Git version control"@),
        ("docker"@, "Docker container runtime"@),
        ("node"@, "Node.js runtime"@),
        ("npm"@, "Node package manager"@),
        ("python3"@, "Python runtime"@),
        ("uv"@, "Python package manager (uv)"@),
        ("aws"@, "AWS CLI"@),
        ("cdk"@, "AWS CDK CLI"@),
    ]
}

pub fn required_tools() -> (r: Vec<(&'static str, &'static str)>)
    ensures
        r@.map_values(|t: (&str, &str)| (t.0@, t.1@)) == spec_required_tools(),
{
    let mut v: Vec<(&'static str, &'static str)> = Vec::new();
    v.push(("git", "Git version control"));
    v.push(("docker", "Docker container runtime"));
    v.push(("node", "Node.js runtime"));
    v.push(("npm", "Node package manager"));
    v.push(("python3", "Python runtime"));
    v.push(("uv", "Python package manager (uv)"));
    v.push(("aws", "AWS CLI"));
    v.push(("cdk", "AWS CDK CLI"));
    assert(v@.map_values(|t: (&str, &str)| (t.0@, t.1@)) =~~= spec_required_tools());
    v
}

/// The problem of a tool that is not on the search path.
pub open spec fn missing_tool_text(tool: Seq<char>, description: Seq<char>) -> Seq<char> {
    description + " ("@ + tool + ") not found in PATH"@
}

pub fn missing_tool_issue(tool: &str, description: &str) -> (r: String)
    ensures
        r@ == missing_tool_text(tool@, description@),
{
    let mut m = description.to_owned();
    push_str(&mut m, " (");
    push_str(&mut m, tool);
    push_str(&mut m, ") not found in PATH");
    m
}

/// The directories of the standard project layout, each with its
/// description.
pub open spec fn spec_expected_paths() -> Seq<(Seq<char>, Seq<char>)> {
    seq![
        ("./backend"@, "Backend directory"@),
        ("./ui"@, "Frontend directory"@),
        ("./infrastructure/cdk"@, "CDK infrastructure directory"@),
    ]
}

pub fn expected_paths() -> (r: Vec<(&'static str, &'static str)>)
    ensures
        r@.map_values(|t: (&str, &str)| (t.0@, t.1@)) == spec_expected_paths(),
{
    let mut v: Vec<(&'static str, &'static str)> = Vec::new();
    v.push(("./backend", "Backend directory"));
    v.push(("./ui", "Frontend directory"));
    v.push(("./infrastructure/cdk", "CDK infrastructure directory"));
    assert(v@.map_values(|t: (&str, &str)| (t.0@, t.1@)) =~~= spec_expected_paths());
    v
}

/// The problem of a layout that lacks the described directories; none when
/// nothing is missing.
pub open spec fn structure_issue_text(missing: Seq<Seq<char>>) -> Option<Seq<char>> {
    if missing.len() == 0 {
        None
    } else {
        Some("Some expected directories are missing: "@ + separated(missing, ", "@))
    }
}

pub fn structure_issue(missing: &Vec<String>) -> (r: Option<String>)
    ensures
        match r {
            Some(m) => structure_issue_text(views_of(missing@)) == Some(m@),
            None => structure_issue_text(views_of(missing@)) is None,
        },
{
    if missing.len() == 0 {
        return None;
    }
    let mut m = "Some expected directories are missing: ".to_owned();
    let list = join(missing, ", ");
    push_str(&mut m, list.as_str());
    Some(m)
}

/// The profile that cloud calls use: the configured one, or `default`.
pub open spec fn profile_of(env: EnvConfig) -> Seq<char> {
    match env.aws_profile {
        Some(p) => p@,
        None => "default"@,
    }
}

/// The captured request that asks the cloud for the caller's identity,
/// under the configured profile unless that is the default one.
pub fn identity_request(env: &EnvConfig) -> (r: ExecutionRequest)
    ensures
        r.program@ == "aws"@,
        views_of(r.args@) == (if profile_of(*env) == "default"@ {
            seq!["sts"@, "get-caller-identity"@]
        } else {
            seq!["sts"@, "get-caller-identity"@, "--profile"@, profile_of(*env)]
        }),
        r.working_dir is None,
        r.env@.len() == 0,
{
    let profile = match &env.aws_profile {
        Some(p) => p.as_str(),
        None => "default",
    };
    let mut args: Vec<String> = Vec::new();
    args.push("sts".to_owned());
    args.push("get-caller-identity".to_owned());
    if !str_eq(profile, "default") {
        args.push("--profile".to_owned());
        args.push(profile.to_owned());
    }
    assert(views_of(args@) =~~= (if profile_of(*env) == "default"@ {
        seq!["sts"@, "get-caller-identity"@]
    } else {
        seq!["sts"@, "get-caller-identity"@, "--profile"@, profile_of(*env)]
    }));
    ExecutionRequest { program: "aws".to_owned(), args, working_dir: None, env: Vec::new() }
}

/// The problem reported when the identity request failed.
pub open spec fn credentials_issue_text(profile: Seq<char>) -> Seq<char> {
    if profile == "default"@ {
        "AWS credentials not configured. Run 'aws configure' or set environment variables."@
    } else {
        "AWS profile '"@ + profile + "' not configured. Run 'aws configure --profile "@ + profile
            + "'."@
    }
}

pub fn credentials_issue(env: &EnvConfig) -> (r: String)
    ensures
        r@ == credentials_issue_text(profile_of(*env)),
{
    let profile = match &env.aws_profile {
        Some(p) => p.as_str(),
        None => "default",
    };
    if str_eq(profile, "default") {
        return "AWS credentials not configured. Run 'aws configure' or set environment variables.".to_owned();
    }
    let mut m = "AWS profile '".to_owned();
    push_str(&mut m, profile);
    push_str(&mut m, "' not configured. Run 'aws configure --profile ");
    push_str(&mut m, profile);
    push_str(&mut m, "'.");
    m
}

/// The problem reported when the credentials belong to another account
/// than the configured one; none when the accounts agree or the identity
/// names no account.
pub open spec fn account_issue_text(account: Option<Seq<char>>, expected: Seq<char>) -> Option<Seq<char>> {
    match account {
        Some(a) => if a != expected {
            Some("AWS account mismatch: credentials show '"@ + a + "' but config expects '"@
                + expected + "'"@)
        } else {
            None
        },
        None => None,
    }
}

pub fn account_mismatch_issue(account: Option<&str>, expected: &str) -> (r: Option<String>)
    ensures
        match r {
            Some(m) => account_issue_text(crate::config::opt_str_view(account), expected@) == Some(m@),
            None => account_issue_text(crate::config::opt_str_view(account), expected@) is None,
        },
{
    match account {
        Some(a) => {
            if str_eq(a, expected) {
                None
            } else {
                let mut m = "AWS account mismatch: credentials show '".to_owned();
                push_str(&mut m, a);
                push_str(&mut m, "' but config expects '");
                push_str(&mut m, expected);
                push_str(&mut m, "'");
                Some(m)
            }
        },
        None => None,
    }
}

/// The string member `key` of the top-level object of a JSON text; none
/// when the text is not JSON, is not an object, lacks the member or the
/// member is not a string.
pub uninterp spec fn json_string_member(text: Seq<char>, key: Seq<char>) -> Option<Seq<char>>;

/// Relies on `serde_json::from_str` into a `serde_json::Value`, then
/// `Value::get` and `Value::as_str`: the string member of that name, if the
/// text parses and has one.
#[verifier::external_body]
fn json_string_member_of(text: &str, key: &str) -> (r: Option<String>)
    ensures
        match r {
            Some(s) => json_string_member(text@, key@) == Some(s@),
            None => json_string_member(text@, key@) is None,
        },
{
    let value = serde_json::from_str::<serde_json::Value>(text).ok()?;
    value.get(key).and_then(|v| v.as_str()).map(|s| s.to_owned())
}

/// The problem found by the identity check: `output` is the captured
/// output of the identity request, or `None` when it failed.
pub open spec fn identity_issue_text(output: Option<Seq<char>>, env: EnvConfig) -> Option<Seq<char>> {
    match output {
        Some(text) => account_issue_text(json_string_member(text, "Account"@), env.account_number@),
        None => Some(credentials_issue_text(profile_of(env))),
    }
}

pub fn identity_issue(output: Option<&str>, env: &EnvConfig) -> (r: Option<String>)
    ensures
        match r {
            Some(m) => identity_issue_text(crate::config::opt_str_view(output), *env) == Some(m@),
            None => identity_issue_text(crate::config::opt_str_view(output), *env) is None,
        },
{
    match output {
        Some(text) => {
            let account = json_string_member_of(text, "Account");
            let a = match &account {
                Some(s) => Some(s.as_str()),
                None => None,
            };
            account_mismatch_issue(a, env.account_number.as_str())
        },
        None => Some(credentials_issue(env)),
    }
}

} // verus!
