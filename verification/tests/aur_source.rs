use deploytix::aur::rpc::{HttpGet, InfoResult, RpcResponse, AUR_REPO};
use deploytix::aur::source::{system_source, AurSource, CompositeSource};
use deploytix::error::{DeploytixError, Result};
use deploytix::pkgdeps::model::{Dep, InstallPlan, Package};
use deploytix::pkgdeps::source::MetadataSource;
use std::sync::Mutex;

fn entry(name: &str, version: &str, depends: &[&str]) -> InfoResult {
    InfoResult {
        name: name.to_string(),
        version: version.to_string(),
        description: None,
        url: None,
        license: Vec::new(),
        groups: Vec::new(),
        depends: depends.iter().map(|d| d.to_string()).collect(),
        make_depends: Vec::new(),
        check_depends: Vec::new(),
        opt_depends: Vec::new(),
        provides: Vec::new(),
        conflicts: Vec::new(),
        replaces: Vec::new(),
    }
}

fn answer(results: Vec<InfoResult>) -> RpcResponse {
    RpcResponse { kind: "multiinfo".to_string(), error: None, results }
}

struct Canned {
    by_url: Vec<(String, RpcResponse)>,
    calls: Mutex<Vec<String>>,
}

impl Canned {
    fn new(pairs: &[(&str, RpcResponse)]) -> Self {
        Self {
            by_url: pairs
                .iter()
                .map(|(k, v)| (k.to_string(), v.clone()))
                .collect(),
            calls: Mutex::new(Vec::new()),
        }
    }
}

impl HttpGet for Canned {
    fn get(&mut self, url: &str) -> Result<RpcResponse> {
        self.calls.lock().unwrap().push(url.to_string());
        for (fragment, body) in &self.by_url {
            if url.contains(fragment.as_str()) {
                return Ok(body.clone());
            }
        }
        Ok(answer(Vec::new()))
    }
}

struct Offline;

impl HttpGet for Offline {
    fn get(&mut self, _url: &str) -> Result<RpcResponse> {
        Err(DeploytixError::CommandFailed {
            command: "curl".into(),
            stderr: "network unreachable".into(),
        })
    }
}

fn hhd_body() -> RpcResponse {
    answer(vec![entry("hhd-git", "3.1.3-1", &["python", "python-evdev"])])
}

/// Packages that are simply listed.
#[derive(Default)]
struct MockSource {
    packages: Vec<Package>,
    installed: Vec<String>,
}

impl MockSource {
    fn insert(&mut self, p: Package) {
        self.packages.push(p);
    }
    fn mark_installed(&mut self, name: &str) {
        self.installed.push(name.to_string());
    }
}

impl MetadataSource for MockSource {
    fn package(&mut self, name: &str) -> Result<Option<Package>> {
        Ok(self.packages.iter().find(|p| p.name == name).cloned())
    }
    fn provider_of(&mut self, name: &str) -> Result<Option<String>> {
        Ok(self
            .packages
            .iter()
            .find(|p| p.provides.iter().any(|d| d.name == name))
            .map(|p| p.name.clone()))
    }
    fn required_by(&self, name: &str) -> Result<Vec<String>> {
        Ok(self
            .packages
            .iter()
            .filter(|p| p.depends.iter().any(|d| d.name == name))
            .map(|p| p.name.clone())
            .collect())
    }
    fn optional_for(&self, _name: &str) -> Result<Vec<String>> {
        Ok(Vec::new())
    }
    fn is_installed(&self, name: &str) -> Result<bool> {
        Ok(self.installed.iter().any(|n| n == name))
    }
    fn databases(&self) -> Vec<String> {
        vec!["core".to_string(), "extra".to_string()]
    }
    fn staleness_warnings(&self) -> Vec<String> {
        Vec::new()
    }
    fn install_plan(&self, targets: &[&str], clean_root: bool) -> Result<InstallPlan> {
        Ok(InstallPlan {
            targets: targets.iter().map(|t| t.to_string()).collect(),
            clean_root,
            warnings: Vec::new(),
        })
    }
}

/// Everything that the roots depend on, and the names that nothing has.
struct Closure {
    nodes: Vec<Package>,
    unresolved: Vec<String>,
}

fn resolve_closure<S: MetadataSource>(source: &mut S, roots: &[&str]) -> Closure {
    let mut waiting: Vec<String> = roots.iter().map(|r| r.to_string()).collect();
    let mut seen: Vec<String> = Vec::new();
    let mut closure = Closure { nodes: Vec::new(), unresolved: Vec::new() };
    while let Some(name) = waiting.pop() {
        if seen.contains(&name) {
            continue;
        }
        seen.push(name.clone());
        match source.package(&name).unwrap() {
            Some(p) => {
                for d in &p.depends {
                    waiting.push(d.name.clone());
                }
                closure.nodes.push(p);
            }
            None => match source.provider_of(&name).unwrap() {
                Some(n) => waiting.push(n),
                None => closure.unresolved.push(name),
            },
        }
    }
    closure
}

fn repo_source() -> MockSource {
    let mut s = MockSource::default();
    let mut python = Package::new("python", "3.12", "extra");
    python.depends = vec![Dep::unversioned("glibc")];
    s.insert(python);
    s.insert(Package::new("python-evdev", "1.7", "extra"));
    s.insert(Package::new("glibc", "2.39", "core"));
    s
}

#[test]
fn an_aur_package_resolves_and_its_repo_dependencies_come_from_the_repo() {
    let mut composite = CompositeSource::new(
        repo_source(),
        AurSource::new(Canned::new(&[("arg[]=hhd-git", hhd_body())])),
    );
    let closure = resolve_closure(&mut composite, &["hhd-git"]);

    let names: Vec<&str> = closure.nodes.iter().map(|p| p.name.as_str()).collect();
    assert!(names.contains(&"hhd-git"), "{names:?}");
    assert!(names.contains(&"python"), "{names:?}");
    assert!(names.contains(&"python-evdev"), "{names:?}");
    assert!(names.contains(&"glibc"), "{names:?}");
    assert!(closure.unresolved.is_empty(), "{:?}", closure.unresolved);
}

#[test]
fn resolved_packages_carry_the_universe_they_came_from() {
    let mut composite = CompositeSource::new(
        repo_source(),
        AurSource::new(Canned::new(&[("arg[]=hhd-git", hhd_body())])),
    );
    let closure = resolve_closure(&mut composite, &["hhd-git"]);
    let hhd = closure.nodes.iter().find(|p| p.name == "hhd-git").unwrap();
    let python = closure.nodes.iter().find(|p| p.name == "python").unwrap();
    assert_eq!(
        hhd.repo, AUR_REPO,
        "must be identifiable as needing a build"
    );
    assert_ne!(python.repo, AUR_REPO);
}

#[test]
fn the_repository_wins_when_a_name_exists_in_both() {
    let mut repo = MockSource::default();
    repo.insert(Package::new("shared", "1.0", "extra"));
    let aur = AurSource::new(Canned::new(&[(
        "arg[]=shared",
        answer(vec![entry("shared", "9.9", &[])]),
    )]));
    let mut composite = CompositeSource::new(repo, aur);
    let pkg = composite.package("shared").unwrap().unwrap();
    assert_eq!(pkg.repo, "extra");
    assert_eq!(pkg.version, "1.0");
}

#[test]
fn an_all_repo_selection_never_touches_the_network() {
    let canned = Canned::new(&[]);
    let mut composite = CompositeSource::new(repo_source(), AurSource::new(canned));
    resolve_closure(&mut composite, &["python"]);
    assert_eq!(
        composite.fallback().rpc_calls(),
        0,
        "repo-only resolution must stay local"
    );
}

#[test]
fn a_name_is_looked_up_once_however_often_it_is_asked_for() {
    let mut source = AurSource::new(Canned::new(&[("arg[]=hhd-git", hhd_body())]));
    for _ in 0..5 {
        source.package("hhd-git").unwrap();
    }
    assert_eq!(source.rpc_calls(), 1);
}

#[test]
fn a_confirmed_miss_is_cached_too() {
    let mut source = AurSource::new(Canned::new(&[]));
    for _ in 0..5 {
        assert!(source.package("glibc").unwrap().is_none());
    }
    assert_eq!(source.rpc_calls(), 1);
}

#[test]
fn prefetch_collapses_many_lookups_into_one_request() {
    let mut source = AurSource::new(Canned::new(&[("arg[]=hhd-git", hhd_body())]));
    source.prefetch(&["hhd-git", "paru", "yay"]);
    assert_eq!(source.rpc_calls(), 1);
    source.package("hhd-git").unwrap();
    source.package("paru").unwrap();
    assert_eq!(source.rpc_calls(), 1);
}

#[test]
fn an_unreachable_aur_still_lets_repo_resolution_finish() {
    let mut composite = CompositeSource::new(repo_source(), AurSource::new(Offline));
    let closure = resolve_closure(&mut composite, &["python"]);
    let names: Vec<&str> = closure.nodes.iter().map(|p| p.name.as_str()).collect();
    assert!(names.contains(&"python"));
    assert!(names.contains(&"glibc"));
}

#[test]
fn an_unreachable_aur_says_so_rather_than_reporting_no_such_package() {
    let mut source = AurSource::new(Offline);
    assert!(source.package("hhd-git").unwrap().is_none());
    let warnings = source.staleness_warnings();
    assert!(!warnings.is_empty(), "a network failure must be reported");
    assert!(warnings[0].contains("network unreachable"), "{warnings:?}");
    assert_eq!(source.errors().len(), 1);
}

#[test]
fn installed_state_always_comes_from_the_local_database() {
    let mut repo = MockSource::default();
    repo.insert(Package::new("hhd-git", "3.1.3", "extra"));
    repo.mark_installed("hhd-git");
    let composite = CompositeSource::new(repo, AurSource::new(Canned::new(&[])));
    assert!(composite.is_installed("hhd-git").unwrap());
}

#[test]
fn databases_list_both_universes() {
    let composite = CompositeSource::new(repo_source(), AurSource::new(Canned::new(&[])));
    assert!(composite.databases().iter().any(|d| d == AUR_REPO));
}

#[test]
fn the_first_provider_by_alphabet_is_chosen() {
    let mut source = AurSource::new(Canned::new(&[(
        "/search/hhd?by=provides",
        answer(vec![
            entry("hhd-git", "2", &[]),
            entry("hhd-bin", "1", &[]),
            entry("hhd-user", "3", &[]),
        ]),
    )]));
    assert_eq!(source.provider_of("hhd").unwrap().as_deref(), Some("hhd-bin"));
    assert_eq!(source.rpc_calls(), 2);
}

#[test]
fn a_package_provides_its_own_name() {
    let mut source = AurSource::new(Canned::new(&[("arg[]=hhd-git", hhd_body())]));
    assert_eq!(source.provider_of("hhd-git").unwrap().as_deref(), Some("hhd-git"));
    assert_eq!(source.rpc_calls(), 1);
}

#[test]
fn what_only_pacman_knows_is_not_made_up() {
    let source = AurSource::new(Offline);
    assert!(source.required_by("x").unwrap().is_empty());
    assert!(source.optional_for("x").unwrap().is_empty());
    assert!(!source.is_installed("x").unwrap());
    let plan = source.install_plan(&["a", "b"], true).unwrap();
    assert_eq!(plan.targets, vec!["a", "b"]);
    assert!(plan.clean_root);
    assert!(plan.warnings[0].contains("built, not installed"));
}

#[test]
fn the_composite_hands_out_both_of_its_sources() {
    let composite = CompositeSource::new(repo_source(), AurSource::new(Offline));
    assert_eq!(composite.primary().databases(), vec!["core", "extra"]);
    assert_eq!(composite.fallback().databases(), vec![AUR_REPO]);
    assert_eq!(composite.required_by("glibc").unwrap(), vec!["python"]);
}

#[test]
fn a_dependency_is_read_as_pacman_writes_it() {
    let d = Dep::parse("foo>=1:2.0: for epochs");
    assert_eq!(d.name, "foo");
    assert_eq!(d.constraint.as_deref(), Some(">=1:2.0"));
    assert_eq!(d.description.as_deref(), Some("for epochs"));
}

#[test]
fn the_system_source_asks_pacman_first_and_the_aur_behind_it() {
    let mut source = system_source(repo_source(), Canned::new(&[("arg[]=hhd-git", hhd_body())]));
    assert_eq!(source.package("python").unwrap().unwrap().name, "python");
    assert_eq!(source.fallback().rpc_calls(), 0);
    assert_eq!(source.package("hhd-git").unwrap().unwrap().repo, AUR_REPO);
    assert_eq!(source.fallback().rpc_calls(), 1);
}

#[test]
fn only_requests_that_leave_are_counted() {
    let mut source = AurSource::new(Canned::new(&[]));
    assert!(source.package("!!!").unwrap().is_none());
    assert!(source.provider_of("a b").unwrap().is_none());
    source.prefetch(&["bad&name", ""]);
    assert_eq!(source.rpc_calls(), 0);
    assert!(source.rpc.http.calls.lock().unwrap().is_empty());

    let names: Vec<String> = (0..120).map(|i| format!("pkg{i}")).collect();
    let refs: Vec<&str> = names.iter().map(String::as_str).collect();
    source.prefetch(&refs);
    assert_eq!(source.rpc_calls(), 3);
    assert_eq!(source.rpc.http.calls.lock().unwrap().len(), 3);
    source.prefetch(&refs);
    assert_eq!(source.rpc_calls(), 3);
}

#[test]
fn a_lookup_stops_counting_where_a_page_fails() {
    let names: Vec<String> = (0..120).map(|i| format!("pkg{i}")).collect();
    let refs: Vec<&str> = names.iter().map(String::as_str).collect();
    let mut source = AurSource::new(Offline);
    source.prefetch(&refs);
    assert_eq!(source.rpc_calls(), 1);
    assert_eq!(source.errors().len(), 1);
}

#[test]
fn who_provides_a_name_is_looked_up_once() {
    let mut source = AurSource::new(Canned::new(&[(
        "/search/hhd?by=provides",
        answer(vec![entry("hhd-git", "2", &[]), entry("hhd-bin", "1", &[])]),
    )]));
    for _ in 0..3 {
        assert_eq!(source.provider_of("hhd").unwrap().as_deref(), Some("hhd-bin"));
        assert_eq!(source.provider_of("nothing-here").unwrap(), None);
    }
    assert_eq!(source.rpc_calls(), 4);
}
