use findex_config::bootstrap::{build_registry, register_plugin, LoadOutcome, Notice};
use findex_config::config::Plugin;
use findex_config::registry::{PluginHandle, Registry};

fn s(x: &str) -> String {
    x.to_string()
}

fn plugin(prefix: Option<&str>, path: &str) -> Plugin {
    Plugin { prefix: prefix.map(s), path: s(path), config: Vec::new() }
}

fn loaded(prefix: &str, initialized: bool) -> LoadOutcome {
    LoadOutcome::Loaded { default_prefix: s(prefix), initialized }
}

fn failed(reason: &str) -> LoadOutcome {
    LoadOutcome::Failed { reason: s(reason) }
}

#[test]
fn broken_plugin_is_left_out_and_reported_once() {
    let plugins = vec![
        (s("github-repo"), plugin(None, "/p/github_repo.so")),
        (s("broken"), plugin(None, "/p/missing.so")),
        (s("urlopen"), plugin(None, "/p/urlopen.so")),
    ];
    let outcomes = vec![loaded("gh", true), failed("file not found"), loaded("url", true)];
    let mut registry = Registry::new();
    let notices = build_registry(&mut registry, &plugins, &outcomes);
    assert_eq!(registry.len(), 2);
    assert_eq!(registry.get(&s("gh")).unwrap().name, "github-repo");
    assert_eq!(registry.get(&s("url")).unwrap().name, "urlopen");
    assert_eq!(notices.len(), 1);
    assert_eq!(notices[0].message(), "Failed to load plugin broken: file not found");
}

#[test]
fn declared_prefix_overrides_reported_one() {
    let plugins = vec![(s("urlopen"), plugin(Some("open"), "/p/urlopen.so"))];
    let outcomes = vec![loaded("url", true)];
    let mut registry = Registry::new();
    let notices = build_registry(&mut registry, &plugins, &outcomes);
    assert!(notices.is_empty());
    assert_eq!(registry.len(), 1);
    let h = registry.get(&s("open")).unwrap();
    assert_eq!(h.name, "urlopen");
    assert_eq!(h.prefix, "open");
    assert!(registry.get(&s("url")).is_none());
}

#[test]
fn colliding_prefixes_keep_the_last() {
    let plugins = vec![
        (s("first"), plugin(None, "/p/a.so")),
        (s("second"), plugin(Some("x"), "/p/b.so")),
    ];
    let outcomes = vec![loaded("x", true), loaded("y", true)];
    let mut registry = Registry::new();
    build_registry(&mut registry, &plugins, &outcomes);
    assert_eq!(registry.len(), 1);
    assert_eq!(registry.get(&s("x")).unwrap().name, "second");
}

#[test]
fn failed_initializer_is_reported_and_still_registered() {
    let mut registry = Registry::new();
    let n = register_plugin(&mut registry, &s("calc"), &plugin(None, "/p/calc.so"), &loaded("=", false));
    let n = n.unwrap();
    assert!(matches!(&n, Notice::InitFailed { name } if name == "calc"));
    assert_eq!(n.message(), "Plugin \"calc\" failed to initialize");
    let h = registry.get(&s("=")).unwrap();
    assert!(!h.initialized);
}

#[test]
fn load_failure_leaves_registry_unchanged() {
    let mut registry = Registry::new();
    registry.insert(s("gh"), PluginHandle { name: s("github-repo"), prefix: s("gh"), initialized: true });
    let n = register_plugin(&mut registry, &s("gh2"), &plugin(Some("gh"), "/nowhere.so"), &failed("no symbol"));
    assert!(matches!(n, Some(Notice::LoadFailed { .. })));
    assert_eq!(registry.len(), 1);
    assert_eq!(registry.get(&s("gh")).unwrap().name, "github-repo");
}

#[test]
fn empty_declaration_gives_empty_registry() {
    let mut registry = Registry::new();
    let notices = build_registry(&mut registry, &Vec::new(), &Vec::new());
    assert!(notices.is_empty());
    assert_eq!(registry.len(), 0);
}
