use vstd::prelude::*;
use crate::error::CwbError;
use crate::text::{str_eq, views_of};

verus! {

/// The package managers that components are built with.
#[derive(Clone, Copy, Debug, PartialEq, Eq, Structural)]
pub enum PackageManager {
    Uv,
    Npm,
    Yarn,
    Pnpm,
    Bun,
    Unknown,
}

impl PackageManager {
    /// The command name of each package manager; `Unknown` has none.
    pub open spec fn spec_name(self) -> Seq<char> {
        match self {
            PackageManager::Uv => "uv"@,
            PackageManager::Npm => "npm"@,
            PackageManager::Yarn => "yarn"@,
            PackageManager::Pnpm => "pnpm"@,
            PackageManager::Bun => "bun"@,
            PackageManager::Unknown => Seq::empty(),
        }
    }

    pub fn name(&self) -> (r: &'static str)
        ensures
            r@ == self.spec_name(),
    {
        proof {
            reveal_strlit("");
        }
        match self {
            PackageManager::Uv => "uv",
            PackageManager::Npm => "npm",
            PackageManager::Yarn => "yarn",
            PackageManager::Pnpm => "pnpm",
            PackageManager::Bun => "bun",
            PackageManager::Unknown => "",
        }
    }

    /// The package manager with the given command name, else `Unknown`.
    pub fn from_name(s: &str) -> (r: PackageManager)
        ensures
            r != PackageManager::Unknown ==> r.spec_name() == s@,
            r == PackageManager::Unknown ==> forall|p: PackageManager|
                p != PackageManager::Unknown ==> #[trigger] p.spec_name() != s@,
    {
        if str_eq(s, "uv") {
            PackageManager::Uv
        } else if str_eq(s, "npm") {
            PackageManager::Npm
        } else if str_eq(s, "yarn") {
            PackageManager::Yarn
        } else if str_eq(s, "pnpm") {
            PackageManager::Pnpm
        } else if str_eq(s, "bun") {
            PackageManager::Bun
        } else {
            PackageManager::Unknown
        }
    }
}

/// The actions that a component may support.
#[derive(Clone, Copy, Debug, PartialEq, Eq, Structural)]
pub enum ComponentAction {
    Test,
    Lint,
    Build,
    Format,
    Dev,
}

/// One buildable and testable unit of the project. An absent command
/// template means that the component does not support that action.
#[derive(Clone, Debug)]
pub struct ComponentConfig {
    pub name: String,
    pub path: String,
    pub language: String,
    pub package_manager: PackageManager,
    pub test_command: Option<String>,
    pub lint_command: Option<String>,
    pub build_command: Option<String>,
    pub format_command: Option<String>,
    pub dev_command: Option<String>,
}

impl ComponentConfig {
    /// The command template of an action, if the component supports it.
    pub open spec fn spec_command(&self, action: ComponentAction) -> Option<String> {
        match action {
            ComponentAction::Test => self.test_command,
            ComponentAction::Lint => self.lint_command,
            ComponentAction::Build => self.build_command,
            ComponentAction::Format => self.format_command,
            ComponentAction::Dev => self.dev_command,
        }
    }

    pub fn command(&self, action: ComponentAction) -> (r: &Option<String>)
        ensures
            *r == self.spec_command(action),
    {
        match action {
            ComponentAction::Test => &self.test_command,
            ComponentAction::Lint => &self.lint_command,
            ComponentAction::Build => &self.build_command,
            ComponentAction::Format => &self.format_command,
            ComponentAction::Dev => &self.dev_command,
        }
    }

    /// The components of the standard project layout: a Python backend, a
    /// TypeScript frontend and the TypeScript infrastructure code, in that
    /// order.
    pub fn get_default_components() -> (r: ComponentRegistry)
        ensures
            r@.len() == 3,
            is_default_backend(r@[0]),
            is_default_frontend(r@[1]),
            is_default_infrastructure(r@[2]),
    {
        let mut registry = ComponentRegistry::new();
        let backend = ComponentConfig {
            name: "backend".to_owned(),
            path: "./backend".to_owned(),
            language: "python".to_owned(),
            package_manager: PackageManager::Uv,
            test_command: Some("pytest".to_owned()),
            lint_command: Some("ruff check".to_owned()),
            build_command: None,
            format_command: Some("ruff format".to_owned()),
            dev_command: Some("python -m app.api.main".to_owned()),
        };
        let frontend = ComponentConfig {
            name: "frontend".to_owned(),
            path: "./ui".to_owned(),
            language: "typescript".to_owned(),
            package_manager: PackageManager::Npm,
            test_command: Some("npm test".to_owned()),
            lint_command: Some("npm run lint".to_owned()),
            build_command: Some("npm run build".to_owned()),
            format_command: Some("npm run format".to_owned()),
            dev_command: Some("npm run dev".to_owned()),
        };
        let infrastructure = ComponentConfig {
            name: "infrastructure".to_owned(),
            path: "./infrastructure/cdk".to_owned(),
            language: "typescript".to_owned(),
            package_manager: PackageManager::Npm,
            test_command: Some("npm test".to_owned()),
            lint_command: Some("npm run lint".to_owned()),
            build_command: Some("npm run build".to_owned()),
            format_command: None,
            dev_command: None,
        };
        proof {
            reveal_strlit("backend");
            reveal_strlit("frontend");
            reveal_strlit("infrastructure");
        }
        assert("backend"@.len() == 7 && "frontend"@.len() == 8 && "infrastructure"@.len() == 14);
        let _ = registry.register(backend);
        assert(registry.spec_names() =~= seq!["backend"@]);
        let _ = registry.register(frontend);
        assert(registry.spec_names() =~= seq!["backend"@, "frontend"@]);
        let _ = registry.register(infrastructure);
        registry
    }
}

/// An optional string holding exactly `s`.
pub open spec fn some_str(o: Option<String>, s: Seq<char>) -> bool {
    o matches Some(v) && v@ == s
}

pub open spec fn is_default_backend(c: ComponentConfig) -> bool {
    &&& c.name@ == "backend"@
    &&& c.path@ == "./backend"@
    &&& c.language@ == "python"@
    &&& c.package_manager == PackageManager::Uv
    &&& some_str(c.test_command, "pytest"@)
    &&& some_str(c.lint_command, "ruff check"@)
    &&& c.build_command is None
    &&& some_str(c.format_command, "ruff format"@)
    &&& some_str(c.dev_command, "python -m app.api.main"@)
}

pub open spec fn is_default_frontend(c: ComponentConfig) -> bool {
    &&& c.name@ == "frontend"@
    &&& c.path@ == "./ui"@
    &&& c.language@ == "typescript"@
    &&& c.package_manager == PackageManager::Npm
    &&& some_str(c.test_command, "npm test"@)
    &&& some_str(c.lint_command, "npm run lint"@)
    &&& some_str(c.build_command, "npm run build"@)
    &&& some_str(c.format_command, "npm run format"@)
    &&& some_str(c.dev_command, "npm run dev"@)
}

pub open spec fn is_default_infrastructure(c: ComponentConfig) -> bool {
    &&& c.name@ == "infrastructure"@
    &&& c.path@ == "./infrastructure/cdk"@
    &&& c.language@ == "typescript"@
    &&& c.package_manager == PackageManager::Npm
    &&& some_str(c.test_command, "npm test"@)
    &&& some_str(c.lint_command, "npm run lint"@)
    &&& some_str(c.build_command, "npm run build"@)
    &&& c.format_command is None
    &&& c.dev_command is None
}

/// `b` is `a` moved to `path` with the package manager `pm`.
pub open spec fn relaid(a: ComponentConfig, b: ComponentConfig, path: Seq<char>, pm: PackageManager) -> bool {
    &&& b.name == a.name
    &&& b.path@ == path
    &&& b.language == a.language
    &&& b.package_manager == pm
    &&& b.test_command == a.test_command
    &&& b.lint_command == a.lint_command
    &&& b.build_command == a.build_command
    &&& b.format_command == a.format_command
    &&& b.dev_command == a.dev_command
}

/// The registered components, in order of registration, no two under the
/// same name.
#[derive(Debug)]
pub struct ComponentRegistry {
    components: Vec<ComponentConfig>,
}

/// The first component of the sequence registered under `name`.
pub open spec fn first_named(s: Seq<ComponentConfig>, name: Seq<char>) -> Option<ComponentConfig>
    decreases s.len(),
{
    if s.len() == 0 {
        None
    } else if s[0].name@ == name {
        Some(s[0])
    } else {
        first_named(s.drop_first(), name)
    }
}

/// `first_named` finds the component at `i` when no earlier one bears the
/// name, and finds none when no component among the first `i` bears it and
/// `i` is the length.
proof fn lemma_first_named(s: Seq<ComponentConfig>, name: Seq<char>, i: int)
    requires
        0 <= i <= s.len(),
        forall|j: int| 0 <= j < i ==> s[j].name@ != name,
    ensures
        i < s.len() && s[i].name@ == name ==> first_named(s, name) == Some(s[i]),
        i == s.len() ==> first_named(s, name) is None,
    decreases i,
{
    if i > 0 {
        assert(s[0].name@ != name);
        let t = s.drop_first();
        assert forall|j: int| 0 <= j < i - 1 implies t[j].name@ != name by {
            assert(t[j] == s[j + 1]);
        }
        lemma_first_named(t, name, i - 1);
        if i < s.len() {
            assert(t[i - 1] == s[i]);
        }
    }
}

/// What `first_named` finds stands in the sequence under that name.
proof fn lemma_first_named_found(s: Seq<ComponentConfig>, name: Seq<char>)
    ensures
        first_named(s, name) matches Some(c) ==> exists|k: int|
            0 <= k < s.len() && #[trigger] s[k] == c && c.name@ == name,
    decreases s.len(),
{
    if s.len() > 0 && s[0].name@ != name {
        let t = s.drop_first();
        lemma_first_named_found(t, name);
        if let Some(c) = first_named(t, name) {
            let k = choose|k: int| 0 <= k < t.len() && #[trigger] t[k] == c && c.name@ == name;
            assert(s[k + 1] == c);
        }
    }
}

/// The names of a sequence of components.
pub open spec fn component_names(s: Seq<ComponentConfig>) -> Seq<Seq<char>> {
    s.map_values(|c: ComponentConfig| c.name@)
}

impl View for ComponentRegistry {
    type V = Seq<ComponentConfig>;

    closed spec fn view(&self) -> Seq<ComponentConfig> {
        self.components@
    }
}

impl ComponentRegistry {
    /// The registered names.
    pub open spec fn spec_names(&self) -> Seq<Seq<char>> {
        component_names(self@)
    }

    #[verifier::type_invariant]
    spec fn unique_names(&self) -> bool {
        component_names(self.components@).no_duplicates()
    }

    pub fn new() -> (r: ComponentRegistry)
        ensures
            r@ == Seq::<ComponentConfig>::empty(),
    {
        let r = ComponentRegistry { components: Vec::new() };
        assert(component_names(r.components@) =~= Seq::<Seq<char>>::empty());
        r
    }

    /// Whether a component is registered under `name`.
    pub fn contains(&self, name: &str) -> (r: bool)
        ensures
            r == self.spec_names().contains(name@),
    {
        match self.position(name) {
            Some(_) => true,
            None => false,
        }
    }

    /// The index of the component registered under `name`.
    fn position(&self, name: &str) -> (r: Option<usize>)
        ensures
            r matches Some(i) ==> i < self@.len() && self@[i as int].name@ == name@ && first_named(
                self@,
                name@,
            ) == Some(self@[i as int]),
            r is None <==> !self.spec_names().contains(name@),
            r is None <==> first_named(self@, name@) is None,
    {
        let mut i: usize = 0;
        while i < self.components.len()
            invariant
                i <= self.components@.len(),
                self@ == self.components@,
                forall|j: int| 0 <= j < i ==> self.components@[j].name@ != name@,
            decreases self.components@.len() - i,
        {
            if str_eq(self.components[i].name.as_str(), name) {
                assert(self.spec_names()[i as int] == name@);
                proof {
                    lemma_first_named(self@, name@, i as int);
                }
                return Some(i);
            }
            i = i + 1;
        }
        proof {
            lemma_first_named(self@, name@, i as int);
            if self.spec_names().contains(name@) {
                let k = choose|k: int| 0 <= k < self.spec_names().len() && self.spec_names()[k] == name@;
                assert(self.components@[k].name@ == name@);
            }
        }
        None
    }

    /// Adds a component. A name that is already registered is refused with
    /// `DuplicateComponent`, and the registry is left as it was.
    pub fn register(&mut self, c: ComponentConfig) -> (r: Result<(), CwbError>)
        ensures
            old(self).spec_names().contains(c.name@) ==> {
                &&& r matches Err(CwbError::DuplicateComponent { name }) && name@ == c.name@
                &&& final(self)@ == old(self)@
            },
            !old(self).spec_names().contains(c.name@) ==> {
                &&& r is Ok
                &&& final(self)@ == old(self)@.push(c)
            },
    {
        proof {
            use_type_invariant(&*self);
        }
        if self.contains(c.name.as_str()) {
            let name = c.name.clone();
            return Err(CwbError::DuplicateComponent { name });
        }
        proof {
            let old_names = component_names(self.components@);
            assert(component_names(self.components@.push(c)) == old_names.push(c.name@));
        }
        let mut components: Vec<ComponentConfig> = Vec::new();
        std::mem::swap(&mut self.components, &mut components);
        components.push(c);
        self.components = components;
        Ok(())
    }

    /// The component registered under `name`, or `UnknownComponent`
    /// listing the registered names.
    pub fn lookup(&self, name: &str) -> (r: Result<&ComponentConfig, CwbError>)
        ensures
            self.spec_names().contains(name@) ==> (r matches Ok(c) && first_named(self@, name@)
                == Some(*c)),
            self.spec_names().contains(name@) <==> first_named(self@, name@) is Some,
            r matches Ok(c) ==> forall|i: int|
                0 <= i < self@.len() && #[trigger] self@[i].name@ == name@ ==> self@[i] == *c,
            !self.spec_names().contains(name@) ==> (r matches Err(
                CwbError::UnknownComponent { requested, known },
            ) && requested@ == name@ && views_of(known@) == self.spec_names()),
    {
        proof {
            use_type_invariant(self);
            lemma_first_named_found(self@, name@);
            if let Some(c) = first_named(self@, name@) {
                let k = choose|k: int| 0 <= k < self@.len() && #[trigger] self@[k] == c && c.name@ == name@;
                assert forall|i: int| 0 <= i < self@.len() && #[trigger] self@[i].name@ == name@ implies self@[i] == c by {
                    assert(self.spec_names()[i] == self.spec_names()[k]);
                }
            }
        }
        match self.position(name) {
            Some(i) => Ok(&self.components[i]),
            None => Err(CwbError::UnknownComponent { requested: name.to_owned(), known: self.names() }),
        }
    }

    /// The registered names, in order of registration.
    pub fn names(&self) -> (r: Vec<String>)
        ensures
            views_of(r@) == self.spec_names(),
    {
        let mut r: Vec<String> = Vec::new();
        for i in 0..self.components.len()
            invariant
                self@ == self.components@,
                views_of(r@) == component_names(self.components@.subrange(0, i as int)),
        {
            r.push(self.components[i].name.clone());
            assert(component_names(self.components@.subrange(0, i + 1)) == component_names(
                self.components@.subrange(0, i as int),
            ).push(self.components@[i as int].name@));
        }
        assert(self.components@.subrange(0, self.components@.len() as int) == self.components@);
        r
    }

    /// Moves the component registered under `name` to `path` and gives it
    /// the package manager `pm`; other components, and its other fields,
    /// stay as they were. Without such a component nothing changes.
    pub fn set_layout(&mut self, name: &str, path: &str, pm: PackageManager)
        ensures
            final(self)@.len() == old(self)@.len(),
            forall|i: int|
                0 <= i < old(self)@.len() ==> if old(self)@[i].name@ == name@ {
                    relaid(old(self)@[i], #[trigger] final(self)@[i], path@, pm)
                } else {
                    final(self)@[i] == old(self)@[i]
                },
    {
        proof {
            use_type_invariant(&*self);
        }
        match self.position(name) {
            None => {
                proof {
                    assert forall|j: int| 0 <= j < self@.len() implies self@[j].name@ != name@ by {
                        assert(self.spec_names()[j] == self@[j].name@);
                    }
                }
            },
            Some(i) => {
                let ghost before = self.components@;
                let mut components: Vec<ComponentConfig> = Vec::new();
                std::mem::swap(&mut self.components, &mut components);
                let mut c = components.remove(i);
                c.path = path.to_owned();
                c.package_manager = pm;
                components.insert(i, c);
                proof {
                    assert forall|j: int| 0 <= j < before.len() && j != i implies components@[j] == before[j] by {
                        if j < i {
                            assert(components@[j] == before[j]);
                        } else {
                            assert(components@[j] == before[j]);
                        }
                    }
                    let names = component_names(before);
                    assert forall|j: int| 0 <= j < before.len() && j != i implies before[j].name@ != name@ by {
                        assert(names[j] == before[j].name@);
                        assert(names[i as int] == before[i as int].name@);
                    }
                    assert(component_names(components@) =~= names);
                }
                self.components = components;
            },
        }
    }

    /// Every registered component, in order of registration.
    pub fn all(&self) -> (r: &Vec<ComponentConfig>)
        ensures
            r@ == self@,
    {
        &self.components
    }
}

/// Which parts of the standard layout exist on disk.
#[derive(Clone, Copy, Debug, PartialEq, Eq, Structural)]
pub struct LayoutProbe {
    /// `./backend`
    pub backend_dir: bool,
    /// `./ui`
    pub ui_dir: bool,
    /// `./frontend`
    pub frontend_dir: bool,
    /// `./infrastructure/cdk`
    pub cdk_dir: bool,
    /// `./infra`
    pub infra_dir: bool,
    /// `./backend/pyproject.toml`
    pub backend_pyproject: bool,
    /// `./ui/package.json`
    pub ui_package_json: bool,
    /// `./ui/yarn.lock`
    pub ui_yarn_lock: bool,
    /// `./ui/pnpm-lock.yaml`
    pub ui_pnpm_lock: bool,
    /// `./ui/bun.lockb`
    pub ui_bun_lockb: bool,
}

/// Where a component lives after detection: the last existing of its
/// candidate directories, else where it was.
pub open spec fn detected_path(name: Seq<char>, current: Seq<char>, p: LayoutProbe) -> Seq<char> {
    if name == "backend"@ {
        if p.backend_dir {
            "./backend"@
        } else {
            current
        }
    } else if name == "frontend"@ {
        if p.frontend_dir {
            "./frontend"@
        } else if p.ui_dir {
            "./ui"@
        } else {
            current
        }
    } else if name == "infrastructure"@ {
        if p.infra_dir {
            "./infra"@
        } else if p.cdk_dir {
            "./infrastructure/cdk"@
        } else {
            current
        }
    } else {
        current
    }
}

/// The package manager of a component after detection: uv for a backend
/// with a `pyproject.toml`; for a frontend with a `package.json`, the one
/// whose lock file is present (yarn, then pnpm, then bun); else unchanged.
pub open spec fn detected_pm(name: Seq<char>, current: PackageManager, p: LayoutProbe) -> PackageManager {
    if name == "backend"@ && p.backend_pyproject {
        PackageManager::Uv
    } else if name == "frontend"@ && p.ui_package_json {
        if p.ui_yarn_lock {
            PackageManager::Yarn
        } else if p.ui_pnpm_lock {
            PackageManager::Pnpm
        } else if p.ui_bun_lockb {
            PackageManager::Bun
        } else {
            current
        }
    } else {
        current
    }
}

fn detect_component(registry: &mut ComponentRegistry, name: &str, probe: &LayoutProbe)
    ensures
        final(registry)@.len() == old(registry)@.len(),
        forall|i: int|
            0 <= i < old(registry)@.len() ==> if old(registry)@[i].name@ == name@ {
                relaid(
                    old(registry)@[i],
                    #[trigger] final(registry)@[i],
                    detected_path(name@, old(registry)@[i].path@, *probe),
                    detected_pm(name@, old(registry)@[i].package_manager, *probe),
                )
            } else {
                final(registry)@[i] == old(registry)@[i]
            },
{
    proof {
        reveal_strlit("backend");
        reveal_strlit("frontend");
        reveal_strlit("infrastructure");
        assert("backend"@.len() == 7 && "frontend"@.len() == 8 && "infrastructure"@.len() == 14);
    }
    let ghost before = registry@;
    let (path, pm) = match registry.lookup(name) {
        Ok(c) => {
            let is_backend = str_eq(name, "backend");
            let is_frontend = str_eq(name, "frontend");
            let is_infra = str_eq(name, "infrastructure");
            let path: &str = if is_backend && probe.backend_dir {
                "./backend"
            } else if is_frontend && probe.frontend_dir {
                "./frontend"
            } else if is_frontend && probe.ui_dir {
                "./ui"
            } else if is_infra && probe.infra_dir {
                "./infra"
            } else if is_infra && probe.cdk_dir {
                "./infrastructure/cdk"
            } else {
                c.path.as_str()
            };
            let pm = if is_backend && probe.backend_pyproject {
                PackageManager::Uv
            } else if is_frontend && probe.ui_package_json && probe.ui_yarn_lock {
                PackageManager::Yarn
            } else if is_frontend && probe.ui_package_json && probe.ui_pnpm_lock {
                PackageManager::Pnpm
            } else if is_frontend && probe.ui_package_json && probe.ui_bun_lockb {
                PackageManager::Bun
            } else {
                c.package_manager
            };
            assert(path@ == detected_path(name@, c.path@, *probe));
            assert(pm == detected_pm(name@, c.package_manager, *probe));
            (path.to_owned(), pm)
        },
        Err(_) => {
            proof {
                assert forall|i: int| 0 <= i < registry@.len() implies registry@[i].name@ != name@ by {
                    assert(registry.spec_names()[i] == registry@[i].name@);
                }
            }
            return;
        },
    };
    registry.set_layout(name, path.as_str(), pm);
    assert forall|i: int| 0 <= i < before.len() && before[i].name@ == name@ implies relaid(
        before[i],
        #[trigger] registry@[i],
        detected_path(name@, before[i].path@, *probe),
        detected_pm(name@, before[i].package_manager, *probe),
    ) by {
        assert(relaid(before[i], registry@[i], path@, pm));
    }
}

/// Adjusts the registered components to the layout found on disk: each of
/// backend, frontend and infrastructure moves to the directory where it was
/// found and takes the package manager that its files show.
pub fn detect_project_structure(registry: &mut ComponentRegistry, probe: &LayoutProbe)
    ensures
        final(registry)@.len() == old(registry)@.len(),
        forall|i: int|
            0 <= i < old(registry)@.len() ==> relaid(
                old(registry)@[i],
                #[trigger] final(registry)@[i],
                detected_path(old(registry)@[i].name@, old(registry)@[i].path@, *probe),
                detected_pm(old(registry)@[i].name@, old(registry)@[i].package_manager, *probe),
            ),
{
    proof {
        reveal_strlit("backend");
        reveal_strlit("frontend");
        reveal_strlit("infrastructure");
        assert("backend"@.len() == 7 && "frontend"@.len() == 8 && "infrastructure"@.len() == 14);
    }
    let ghost s0 = registry@;
    detect_component(registry, "backend", probe);
    let ghost s1 = registry@;
    detect_component(registry, "frontend", probe);
    let ghost s2 = registry@;
    detect_component(registry, "infrastructure", probe);
    proof {
        assert forall|i: int| 0 <= i < s0.len() implies relaid(
            s0[i],
            #[trigger] registry@[i],
            detected_path(s0[i].name@, s0[i].path@, *probe),
            detected_pm(s0[i].name@, s0[i].package_manager, *probe),
        ) by {
            assert(s1[i].name == s0[i].name);
            assert(s2[i].name == s0[i].name);
        }
    }
}

} // verus!
