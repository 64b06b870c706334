use vantis::dependency::{
    Constraint, ConstraintOp, Dependency, DependencyError, DependencyGraph, DependencyNode,
    DependencyResolver, PluginVersionInfo, ResolutionStrategy, VersionConstraint,
};

fn version(v: &str, deps: Vec<Dependency>) -> PluginVersionInfo {
    PluginVersionInfo { version: v.to_string(), dependencies: deps, api_version: 1 }
}

fn dep(id: &str, constraint: VersionConstraint) -> Dependency {
    Dependency { plugin_id: id.to_string(), version_constraint: constraint, optional: false, features: vec![] }
}

#[test]
fn test_version_constraint_exact() {
    let constraint = VersionConstraint::exact("1.0.0");
    assert!(constraint.satisfies("1.0.0"));
    assert!(!constraint.satisfies("1.0.1"));
}

#[test]
fn test_version_constraint_range() {
    let constraint = VersionConstraint::range("1.0.0", "2.0.0");
    assert!(constraint.satisfies("1.0.0"));
    assert!(constraint.satisfies("1.5.0"));
    assert!(!constraint.satisfies("2.0.0"));
    assert!(!constraint.satisfies("0.9.0"));
}

#[test]
fn test_dependency_resolver_creation() {
    let resolver = DependencyResolver::new();
    assert_eq!(resolver.plugin_count(), 0);
}

#[test]
fn test_register_plugin() {
    let mut resolver = DependencyResolver::new();
    resolver.register_plugin("test-plugin", PluginVersionInfo {
        version: "1.0.0".to_string(),
        dependencies: vec![],
        api_version: 1,
    });

    assert!(resolver.has_plugin("test-plugin"));
}

#[test]
fn test_resolution_simple() {
    let mut resolver = DependencyResolver::new();
    resolver.register_plugin("root", PluginVersionInfo {
        version: "1.0.0".to_string(),
        dependencies: vec![],
        api_version: 1,
    });

    let result = resolver.resolve("root", "1.0.0").unwrap();
    assert!(result.is_complete);
    assert_eq!(result.resolved.len(), 1);
}

#[test]
fn test_topological_sort() {
    let mut graph = DependencyGraph::new();

    graph.insert_node(DependencyNode {
        plugin_id: "a".to_string(),
        version_constraint: VersionConstraint::exact("1.0.0"),
        resolved_version: None,
        optional: false,
        priority: 0,
    });
    graph.insert_node(DependencyNode {
        plugin_id: "b".to_string(),
        version_constraint: VersionConstraint::exact("1.0.0"),
        resolved_version: None,
        optional: false,
        priority: 1,
    });

    assert!(graph.add_edge("a", "b"));

    let order = graph.topological_sort().unwrap();
    assert_eq!(order, vec!["b", "a"]);
}

#[test]
fn constraint_texts_and_operators() {
    assert_eq!(VersionConstraint::range("1.0", "2.0").raw, ">=1.0,<2.0");
    assert_eq!(VersionConstraint::compatible("1.2.3").raw, "^1.2.3");
    assert!(VersionConstraint::compatible("1.2.3").satisfies("1.2.3"));
    assert!(!VersionConstraint::compatible("1.2.3").satisfies("3.0.0"));
    assert!(VersionConstraint::compatible("1.2.3").satisfies("1.9.0"));
    assert!(!VersionConstraint::compatible("1.2.3").satisfies("1.2.2"));
    let gt = Constraint { op: ConstraintOp::Greater, version: "1.0".to_string() };
    assert!(gt.satisfies("1.1"));
    assert!(!gt.satisfies("1.0"));
    let le = Constraint { op: ConstraintOp::LessEqual, version: "1.0".to_string() };
    assert!(le.satisfies("1.0"));
    assert!(!le.satisfies("1.01"));
    let any = Constraint { op: ConstraintOp::Wildcard, version: String::new() };
    assert!(any.satisfies("whatever"));
}

#[test]
fn resolve_orders_dependencies_first_and_reports_missing() {
    let mut resolver = DependencyResolver::new();
    resolver.register_plugin("app", version("1.0.0", vec![
        dep("lib", VersionConstraint::range("1.0.0", "2.0.0")),
        dep("ghost", VersionConstraint::exact("1.0.0")),
    ]));
    resolver.register_plugin("lib", version("1.5.0", vec![dep("core", VersionConstraint::compatible("0.1.0"))]));
    resolver.register_plugin("lib", version("1.2.0", vec![]));
    resolver.register_plugin("core", version("0.3.0", vec![]));

    let result = resolver.resolve("app", "1.0.0").unwrap();
    assert!(!result.is_complete);
    assert!(result.conflicts.is_empty());
    let resolved: Vec<(String, String)> =
        result.resolved.iter().map(|r| (r.plugin_id.clone(), r.version.clone())).collect();
    let pos = |id: &str| resolved.iter().position(|(p, _)| p == id).unwrap();
    assert!(pos("core") < pos("lib"));
    assert!(pos("lib") < pos("app"));
    assert_eq!(resolved[pos("lib")].1, "1.5.0");
    assert_eq!(result.resolved[pos("lib")].required_by, vec!["app".to_string()]);
    assert_eq!(result.missing.len(), 1);
    assert_eq!(result.missing[0].plugin_id, "ghost");
    assert_eq!(result.missing[0].required_by, vec!["app".to_string()]);

    let order = resolver.get_installation_order(&result.resolved);
    assert_eq!(order, vec!["core".to_string(), "lib".to_string(), "app".to_string()]);
}

#[test]
fn oldest_strategy_picks_least_matching_version() {
    let mut resolver = DependencyResolver::new().with_strategy(ResolutionStrategy::Oldest);
    resolver.register_plugin("app", version("1.0.0", vec![dep("lib", VersionConstraint::range("1.0.0", "2.0.0"))]));
    resolver.register_plugin_versions("lib", vec![version("1.5.0", vec![]), version("1.2.0", vec![]), version("2.5.0", vec![])]);
    let result = resolver.resolve("app", "1.0.0").unwrap();
    let lib = result.resolved.iter().find(|r| r.plugin_id == "lib").unwrap();
    assert_eq!(lib.version, "1.2.0");
}

#[test]
fn resolve_errors() {
    let mut resolver = DependencyResolver::new();
    assert_eq!(resolver.resolve("none", "1.0.0").unwrap_err(), DependencyError::PluginNotFound("none".to_string()));
    resolver.register_plugin("a", version("1.0.0", vec![dep("b", VersionConstraint::exact("1.0.0"))]));
    assert_eq!(resolver.resolve("a", "2.0.0").unwrap_err(), DependencyError::VersionNotFound("2.0.0".to_string()));
    resolver.register_plugin("b", version("1.0.0", vec![dep("a", VersionConstraint::exact("1.0.0"))]));
    assert_eq!(resolver.resolve("a", "1.0.0").unwrap_err(), DependencyError::CircularDependency);
}

#[test]
fn graph_rejects_unknown_endpoints_and_cycles() {
    let mut graph = DependencyGraph::new();
    for id in ["x", "y"] {
        graph.insert_node(DependencyNode {
            plugin_id: id.to_string(),
            version_constraint: VersionConstraint::exact("1"),
            resolved_version: None,
            optional: false,
            priority: 0,
        });
    }
    assert!(!graph.add_edge("x", "z"));
    assert!(graph.add_edge("x", "y"));
    assert!(graph.add_edge("y", "x"));
    assert_eq!(graph.topological_sort(), Err(DependencyError::CircularDependency));
    assert_eq!(graph.find_node("y"), Some(1));
    assert_eq!(graph.dependents(1), vec!["x".to_string()]);
}

#[test]
fn versions_compare_as_numbers() {
    let c = Constraint { op: ConstraintOp::Compatible, version: "1.2.3".to_string() };
    let g = Constraint { op: ConstraintOp::GreaterEqual, version: "1.9.0".to_string() };
    assert!(c.satisfies("1.5.0"));
    assert!(!c.satisfies("2.0.0"));
    assert!(g.satisfies("1.10.0"));
    let lt = Constraint { op: ConstraintOp::Less, version: "1.10.0".to_string() };
    assert!(lt.satisfies("1.9.9"));
    assert!(!lt.satisfies("not-a-version"));
    assert!(!g.satisfies("x.y"));
    let eq = Constraint { op: ConstraintOp::Exact, version: "1.0".to_string() };
    assert!(!eq.satisfies("1.0.0"));
}

#[test]
fn strategy_picks_newest_or_oldest_by_version() {
    let c = VersionConstraint::range("1.0.0", "2.0.0");
    let mut newest = DependencyResolver::new();
    newest.register_plugin("lib", version("1.0.0", vec![]));
    newest.register_plugin("lib", version("1.2.0", vec![]));
    newest.register_plugin("lib", version("1.10.0", vec![]));
    newest.register_plugin("lib", version("2.0.0", vec![]));
    assert_eq!(newest.find_compatible_version("lib", &c).as_deref(), Some("1.10.0"));
    let mut oldest = DependencyResolver::new().with_strategy(ResolutionStrategy::Oldest);
    oldest.register_plugin("lib", version("1.2.0", vec![]));
    oldest.register_plugin("lib", version("1.0.0", vec![]));
    oldest.register_plugin("lib", version("1.0.0", vec![]));
    assert_eq!(oldest.find_compatible_version("lib", &c).as_deref(), Some("1.0.0"));
    assert_eq!(oldest.find_compatible_version("lib", &VersionConstraint::exact("3.0.0")), None);
    assert_eq!(oldest.find_compatible_version("nothing", &c), None);
}

#[test]
fn installation_order_puts_dependencies_first() {
    let mut r = DependencyResolver::new();
    r.register_plugin("root", version("1.0.0", vec![dep("lib", VersionConstraint::range("1.0.0", "2.0.0"))]));
    r.register_plugin("lib", version("1.0.0", vec![]));
    let res = r.resolve("root", "1.0.0").unwrap();
    assert_eq!(r.get_installation_order(&res.resolved), vec!["lib".to_string(), "root".to_string()]);
}
