use std::collections::HashMap;
use vantis::versioning::{
    BreakingChange, BreakingChangeSeverity, CompatibilityChecker, CompatibilityInfo,
    CompatibilityLevel, Deprecation, SemanticVersion, VersionParseError, VersionRange,
};

#[test]
fn test_semantic_version_parse() {
    let v = SemanticVersion::parse("1.2.3").unwrap();
    assert_eq!(v.major, 1);
    assert_eq!(v.minor, 2);
    assert_eq!(v.patch, 3);
}

#[test]
fn test_semantic_version_prerelease() {
    let v = SemanticVersion::parse("1.0.0-beta.1").unwrap();
    assert!(v.is_prerelease());
    assert_eq!(v.pre_release, Some("beta.1".to_string()));
}

#[test]
fn test_semantic_version_comparison() {
    let v1 = SemanticVersion::parse("1.0.0").unwrap();
    let v2 = SemanticVersion::parse("2.0.0").unwrap();

    assert!(v1 < v2);
    assert!(v1.is_compatible_with(&v1));
    assert!(!v1.is_compatible_with(&v2));
}

#[test]
fn test_version_range() {
    let range = VersionRange::new(
        SemanticVersion::parse("1.0.0").unwrap(),
        Some(SemanticVersion::parse("2.0.0").unwrap()),
    );

    assert!(range.contains(&SemanticVersion::parse("1.5.0").unwrap()));
    assert!(!range.contains(&SemanticVersion::parse("2.0.0").unwrap()));
    assert!(!range.contains(&SemanticVersion::parse("0.9.0").unwrap()));
}

#[test]
fn test_compatibility_checker() {
    let checker = CompatibilityChecker::new(1);

    let info = CompatibilityInfo {
        plugin_id: "test-plugin".to_string(),
        version: SemanticVersion::parse("1.0.0").unwrap(),
        min_api_version: 1,
        max_api_version: 1,
        plugin_compatibility: HashMap::new(),
        breaking_changes: vec![],
        deprecations: vec![],
        migration_notes: None,
    };

    assert_eq!(checker.check_api_compatibility(&info), CompatibilityLevel::Full);
}

#[test]
fn test_breaking_change_detection() {
    let mut checker = CompatibilityChecker::new(1);

    let info = CompatibilityInfo {
        plugin_id: "test-plugin".to_string(),
        version: SemanticVersion::parse("2.0.0").unwrap(),
        min_api_version: 1,
        max_api_version: 1,
        plugin_compatibility: HashMap::new(),
        breaking_changes: vec![BreakingChange {
            id: "BC001".to_string(),
            description: "API changed".to_string(),
            affected_areas: vec!["core".to_string()],
            migration_guide: None,
            severity: BreakingChangeSeverity::High,
        }],
        deprecations: vec![],
        migration_notes: None,
    };

    checker.register(info);

    let from = SemanticVersion::parse("1.0.0").unwrap();
    let to = SemanticVersion::parse("2.0.0").unwrap();

    assert!(checker.requires_migration("test-plugin", &from, &to));
}

fn info(id: &str, version: &str, min_api: u32, max_api: u32) -> CompatibilityInfo {
    CompatibilityInfo {
        plugin_id: id.to_string(),
        version: SemanticVersion::parse(version).unwrap(),
        min_api_version: min_api,
        max_api_version: max_api,
        plugin_compatibility: HashMap::new(),
        breaking_changes: vec![],
        deprecations: vec![],
        migration_notes: None,
    }
}

#[test]
fn parse_defaults_missing_parts_and_strips_v() {
    let v = SemanticVersion::parse("v2").unwrap();
    assert_eq!((v.major, v.minor, v.patch), (2, 0, 0));
    let v = SemanticVersion::parse("vv3.4").unwrap();
    assert_eq!((v.major, v.minor, v.patch), (3, 4, 0));
    assert_eq!(v.pre_release, None);
    assert_eq!(v.build, None);
}

#[test]
fn parse_reports_the_failing_component() {
    assert_eq!(SemanticVersion::parse("x.1.2"), Err(VersionParseError::InvalidMajor));
    assert_eq!(SemanticVersion::parse("1.y.2"), Err(VersionParseError::InvalidMinor));
    assert_eq!(SemanticVersion::parse("1.2.z"), Err(VersionParseError::InvalidPatch));
    assert_eq!(SemanticVersion::parse(""), Err(VersionParseError::InvalidMajor));
    assert_eq!(SemanticVersion::parse("4294967296"), Err(VersionParseError::InvalidMajor));
}

#[test]
fn parse_build_metadata() {
    let v = SemanticVersion::parse("1.0.0-rc+b7").unwrap();
    assert_eq!(v.pre_release, Some("rc+b7".to_string()));
    assert_eq!(v.build, Some("b7".to_string()));
}

#[test]
fn to_string_renders_all_parts() {
    let mut v = SemanticVersion::new(10, 0, 7);
    assert_eq!(v.to_string(), "10.0.7");
    v.pre_release = Some("alpha".to_string());
    v.build = Some("42".to_string());
    assert_eq!(v.to_string(), "10.0.7-alpha+42");
}

#[test]
fn to_string_then_parse_round_trips() {
    let mut v = SemanticVersion::new(3, 14, 159);
    v.pre_release = Some("beta.2".to_string());
    assert_eq!(SemanticVersion::parse(&v.to_string()).unwrap(), v);
}

#[test]
fn next_versions() {
    let v = SemanticVersion::parse("1.2.3").unwrap();
    assert_eq!(v.next_major(), SemanticVersion::new(2, 0, 0));
    assert_eq!(v.next_minor(), SemanticVersion::new(1, 3, 0));
    assert_eq!(v.next_patch(), SemanticVersion::new(1, 2, 4));
}

#[test]
fn compare_matches_derived_order() {
    let a = SemanticVersion::parse("1.0.0-alpha").unwrap();
    let b = SemanticVersion::parse("1.0.0-beta").unwrap();
    let c = SemanticVersion::parse("1.0.0").unwrap();
    assert_eq!(a.compare(&b), vantis::text::Order::Less);
    assert!(a < b);
    assert_eq!(c.compare(&a), vantis::text::Order::Less);
    assert!(c < a);
    assert_eq!(b.compare(&b), vantis::text::Order::Equal);
}

#[test]
fn api_compatibility_levels() {
    let checker = CompatibilityChecker::new(3);
    assert_eq!(checker.check_api_compatibility(&info("p", "1.0.0", 4, 5)), CompatibilityLevel::Incompatible);
    assert_eq!(checker.check_api_compatibility(&info("p", "1.0.0", 1, 2)), CompatibilityLevel::Breaking);
    let mut partial = info("p", "1.0.0", 1, 3);
    partial.breaking_changes.push(BreakingChange {
        id: "x".to_string(),
        description: String::new(),
        affected_areas: vec![],
        migration_guide: None,
        severity: BreakingChangeSeverity::Low,
    });
    assert_eq!(checker.check_api_compatibility(&partial), CompatibilityLevel::Partial);
    partial.breaking_changes[0].severity = BreakingChangeSeverity::Critical;
    assert_eq!(checker.check_api_compatibility(&partial), CompatibilityLevel::Breaking);
    let mut deprecated = info("p", "1.0.0", 1, 3);
    deprecated.deprecations.push(Deprecation {
        feature: "old".to_string(),
        deprecated_in: SemanticVersion::new(1, 0, 0),
        removal_version: SemanticVersion::new(2, 0, 0),
        replacement: None,
        message: String::new(),
    });
    assert_eq!(checker.check_api_compatibility(&deprecated), CompatibilityLevel::Deprecated);
}

#[test]
fn version_compatibility_uses_best_match() {
    let mut checker = CompatibilityChecker::new(2);
    assert_eq!(
        checker.check_version_compatibility("p", &SemanticVersion::new(1, 0, 0)),
        CompatibilityLevel::Full
    );
    checker.register(info("p", "1.0.0", 1, 2));
    checker.register(info("p", "2.0.0", 3, 4));
    assert_eq!(
        checker.check_version_compatibility("p", &SemanticVersion::new(0, 5, 0)),
        CompatibilityLevel::Incompatible
    );
    assert_eq!(
        checker.check_version_compatibility("p", &SemanticVersion::new(1, 5, 0)),
        CompatibilityLevel::Full
    );
    assert_eq!(
        checker.check_version_compatibility("p", &SemanticVersion::new(2, 1, 0)),
        CompatibilityLevel::Incompatible
    );
}

#[test]
fn plugin_matrix_is_symmetric_and_defaults_to_full() {
    let mut checker = CompatibilityChecker::new(1);
    assert_eq!(checker.check_plugin_compatibility("a", "b"), CompatibilityLevel::Full);
    checker.set_plugin_compatibility("a", "b", CompatibilityLevel::Partial);
    assert_eq!(checker.check_plugin_compatibility("a", "b"), CompatibilityLevel::Partial);
    assert_eq!(checker.check_plugin_compatibility("b", "a"), CompatibilityLevel::Partial);
    checker.set_plugin_compatibility("b", "a", CompatibilityLevel::Incompatible);
    assert_eq!(checker.check_plugin_compatibility("a", "b"), CompatibilityLevel::Incompatible);
    assert_eq!(checker.check_plugin_compatibility("a", "c"), CompatibilityLevel::Full);
}

#[test]
fn breaking_changes_deprecations_and_guides() {
    let mut checker = CompatibilityChecker::new(1);
    let mut v2 = info("p", "2.0.0", 1, 1);
    v2.breaking_changes.push(BreakingChange {
        id: "B2".to_string(),
        description: String::new(),
        affected_areas: vec![],
        migration_guide: None,
        severity: BreakingChangeSeverity::Medium,
    });
    v2.migration_notes = Some("see v2 notes".to_string());
    v2.deprecations.push(Deprecation {
        feature: "f".to_string(),
        deprecated_in: SemanticVersion::new(2, 0, 0),
        removal_version: SemanticVersion::new(3, 0, 0),
        replacement: None,
        message: String::new(),
    });
    let mut v3 = info("p", "3.0.0", 1, 1);
    v3.breaking_changes.push(BreakingChange {
        id: "B3".to_string(),
        description: String::new(),
        affected_areas: vec![],
        migration_guide: None,
        severity: BreakingChangeSeverity::Low,
    });
    checker.register(v2);
    checker.register(v3);
    let one = SemanticVersion::new(1, 0, 0);
    let three = SemanticVersion::new(3, 0, 0);
    let ids: Vec<String> = checker.get_breaking_changes("p", &one, &three).iter().map(|b| b.id.clone()).collect();
    assert_eq!(ids, vec!["B2".to_string(), "B3".to_string()]);
    assert!(!checker.requires_migration("p", &one, &three));
    assert_eq!(checker.get_deprecations("p", &SemanticVersion::new(2, 0, 0)).len(), 1);
    assert_eq!(checker.get_deprecations("p", &three).len(), 0);
    assert_eq!(checker.get_migration_guide("p", &one, &three), Some("see v2 notes".to_string()));
    assert_eq!(checker.get_migration_guide("p", &SemanticVersion::new(2, 0, 0), &three), None);
    assert_eq!(checker.get_migration_guide("q", &one, &three), None);
}

#[test]
fn plain_versions_round_trip_through_text() {
    for (a, b, c) in [(0u32, 0u32, 0u32), (1, 10, 3), (4294967295, 7, 1000)] {
        let v = SemanticVersion::new(a, b, c);
        assert_eq!(SemanticVersion::parse(&v.to_string()).unwrap(), v);
    }
    let mut with_build = SemanticVersion::new(1, 2, 3);
    with_build.build = Some("b1".to_string());
    assert_eq!(SemanticVersion::parse(&with_build.to_string()), Err(VersionParseError::InvalidPatch));
}
