use cauldron::metadata::{
    ContributorsList, PluginMetadataCauldron, PluginMetadataCauldronMetadata, PluginMetadataDependency,
    PluginMetadataDetailedDependency, PluginMetadataSchemaVersionOnly, PluginMetadataV0, StringOrStringVec,
};
use cauldron::plugins::{arrange_plugins, validate_plugins, CauldronLoader, PluginContainer, PluginError};
use cauldron::summary::{plugin_row, plugin_table};
use cauldron::version::{CauldronGameType, GameInfo, GameVersion};
use cauldron::versioning::{PluginVersion, VersionRequirement};

fn meta(id: &str, version: &str, deps: &[(&str, PluginMetadataDependency)]) -> PluginMetadataV0 {
    PluginMetadataV0 {
        schema_version: 0,
        cauldron: PluginMetadataCauldron {
            id: id.to_string(),
            version: version.to_string(),
            metadata: None,
            dependencies: if deps.is_empty() {
                None
            } else {
                Some(deps.iter().map(|(n, d)| (n.to_string(), d.clone())).collect())
            },
        },
        extra: vec![],
    }
}

fn plain(req: &str) -> PluginMetadataDependency {
    PluginMetadataDependency::Plain(req.to_string())
}

fn detailed(req: &str, optional: bool) -> PluginMetadataDependency {
    PluginMetadataDependency::Detailed(PluginMetadataDetailedDependency {
        version: req.to_string(),
        reason: Some("because".to_string()),
        optional,
    })
}

fn loader(metas: Vec<PluginMetadataV0>) -> CauldronLoader<usize> {
    CauldronLoader {
        plugins: metas
            .into_iter()
            .enumerate()
            .map(|(i, metadata)| PluginContainer { plugin: i, metadata })
            .collect(),
        game: GameInfo {
            game_type: CauldronGameType::HorizonForbiddenWest,
            version: GameVersion { major: 1, minor: 2, patch: 3, build: 4 },
        },
    }
}

fn order(l: &CauldronLoader<usize>) -> Vec<String> {
    l.plugins.iter().map(|p| p.metadata.cauldron.id.clone()).collect()
}

#[test]
fn dependencies_load_first() {
    let mut l = loader(vec![
        meta("a", "1.0.0", &[("c", plain("^1.0"))]),
        meta("b", "1.0.0", &[]),
        meta("c", "1.2.0", &[]),
    ]);
    assert!(l.sort_and_validate_plugins().is_ok());
    assert_eq!(order(&l), vec!["b", "c", "a"]);
}

#[test]
fn chain_of_dependencies_is_ordered() {
    let mut l = loader(vec![
        meta("a", "1.0.0", &[("b", plain("*"))]),
        meta("b", "1.0.0", &[("c", plain("*"))]),
        meta("c", "1.0.0", &[]),
    ]);
    assert!(l.sort_and_validate_plugins().is_ok());
    assert_eq!(order(&l), vec!["c", "b", "a"]);
}

#[test]
fn independent_plugins_keep_their_order() {
    let mut l = loader(vec![meta("z", "1.0.0", &[]), meta("y", "2.0.0", &[]), meta("x", "0.1.0", &[])]);
    assert!(l.sort_and_validate_plugins().is_ok());
    assert_eq!(order(&l), vec!["z", "y", "x"]);
    assert_eq!(l.plugins.iter().map(|p| p.plugin).collect::<Vec<_>>(), vec![0, 1, 2]);
}

#[test]
fn mutual_dependency_is_circular() {
    let mut l = loader(vec![
        meta("a", "1.0.0", &[("b", plain("*"))]),
        meta("b", "1.0.0", &[("a", plain("*"))]),
    ]);
    match l.sort_and_validate_plugins() {
        Err(PluginError::CircularDependency { first, second }) => {
            assert_eq!(first, "a");
            assert_eq!(second, "b");
        }
        other => panic!("unexpected {:?}", other),
    }
}

#[test]
fn longer_cycle_is_left_in_order_and_accepted() {
    let mut plugins = vec![
        PluginContainer { plugin: 0, metadata: meta("a", "1.0.0", &[("b", plain("*"))]) },
        PluginContainer { plugin: 1, metadata: meta("b", "1.0.0", &[("c", plain("*"))]) },
        PluginContainer { plugin: 2, metadata: meta("c", "1.0.0", &[("a", plain("*"))]) },
        PluginContainer { plugin: 3, metadata: meta("free", "1.0.0", &[]) },
    ];
    let r = arrange_plugins(&mut plugins);
    assert_eq!(r, Some(("a".to_string(), "b".to_string())));
    assert_eq!(plugins.iter().map(|p| p.plugin).collect::<Vec<_>>(), vec![3, 0, 1, 2]);

    let mut l = loader(vec![
        meta("a", "1.0.0", &[("b", plain("*"))]),
        meta("b", "1.0.0", &[("c", plain("*"))]),
        meta("c", "1.0.0", &[("a", plain("*"))]),
        meta("free", "1.0.0", &[]),
    ]);
    assert!(l.sort_and_validate_plugins().is_ok());
    assert_eq!(order(&l), vec!["free", "a", "b", "c"]);
}

#[test]
fn mutual_pair_leaves_plugins_unchanged() {
    let mut l = loader(vec![
        meta("x", "1.0.0", &[("a", plain("*"))]),
        meta("a", "1.0.0", &[("b", plain("*"))]),
        meta("b", "1.0.0", &[("a", plain("*"))]),
    ]);
    match l.sort_and_validate_plugins() {
        Err(PluginError::CircularDependency { first, second }) => {
            assert_eq!((first.as_str(), second.as_str()), ("a", "b"));
        }
        other => panic!("unexpected {:?}", other),
    }
    assert_eq!(order(&l), vec!["x", "a", "b"]);
}

#[test]
fn self_dependency_is_not_a_cycle() {
    let mut l = loader(vec![meta("a", "1.0.0", &[("a", plain("^1"))])]);
    assert!(l.sort_and_validate_plugins().is_ok());
}

#[test]
fn invalid_plugin_version_is_reported() {
    let mut l = loader(vec![meta("ok", "1.0.0", &[]), meta("bad", "1.0", &[])]);
    match l.sort_and_validate_plugins() {
        Err(PluginError::InvalidVersion { plugin, version }) => {
            assert_eq!(plugin, "bad");
            assert_eq!(version, "1.0");
        }
        other => panic!("unexpected {:?}", other),
    }
}

#[test]
fn malformed_requirement_is_reported() {
    let mut l = loader(vec![meta("a", "1.0.0", &[("b", plain(">a.b"))]), meta("b", "1.0.0", &[])]);
    match l.sort_and_validate_plugins() {
        Err(PluginError::MalformedRequirement { plugin, requirement }) => {
            assert_eq!(plugin, "a");
            assert_eq!(requirement, ">a.b");
        }
        other => panic!("unexpected {:?}", other),
    }
}

#[test]
fn version_mismatch_is_reported() {
    let mut l = loader(vec![meta("a", "1.0.0", &[("b", plain("^2.0"))]), meta("b", "1.4.0", &[])]);
    match l.sort_and_validate_plugins() {
        Err(PluginError::VersionMismatch { plugin, dependency, requirement }) => {
            assert_eq!(plugin, "a");
            assert_eq!(dependency, "b");
            assert_eq!(requirement, "^2.0");
        }
        other => panic!("unexpected {:?}", other),
    }
}

#[test]
fn missing_dependency_is_reported() {
    let mut l = loader(vec![meta("a", "1.0.0", &[("gone", detailed(">=1", false))])]);
    match l.sort_and_validate_plugins() {
        Err(PluginError::MissingDependency { plugin, dependency, requirement }) => {
            assert_eq!(plugin, "a");
            assert_eq!(dependency, "gone");
            assert_eq!(requirement, ">=1");
        }
        other => panic!("unexpected {:?}", other),
    }
}

#[test]
fn optional_missing_dependency_is_accepted() {
    let mut l = loader(vec![meta("a", "1.0.0", &[("gone", detailed(">=1", true))])]);
    assert!(l.sort_and_validate_plugins().is_ok());
}

#[test]
fn optional_present_dependency_must_match() {
    let mut l = loader(vec![meta("a", "1.0.0", &[("b", detailed(">=3", true))]), meta("b", "2.0.0", &[])]);
    assert!(matches!(l.sort_and_validate_plugins(), Err(PluginError::VersionMismatch { .. })));
}

#[test]
fn game_dependency_is_not_checked() {
    let mut l = loader(vec![meta("a", "1.0.0", &[("hfw", plain("not a requirement"))])]);
    assert!(l.sort_and_validate_plugins().is_ok());
    let mut other_game = loader(vec![meta("a", "1.0.0", &[("hzd", plain("*"))])]);
    assert!(matches!(other_game.sort_and_validate_plugins(), Err(PluginError::MissingDependency { .. })));
}

#[test]
fn last_plugin_of_an_id_counts() {
    let mut l = loader(vec![
        meta("dup", "1.0.0", &[]),
        meta("dup", "2.0.0", &[]),
        meta("user", "1.0.0", &[("dup", plain("^2"))]),
    ]);
    assert!(l.sort_and_validate_plugins().is_ok());
    let mut l2 = loader(vec![
        meta("dup", "2.0.0", &[]),
        meta("dup", "1.0.0", &[]),
        meta("user", "1.0.0", &[("dup", plain("^2"))]),
    ]);
    assert!(matches!(l2.sort_and_validate_plugins(), Err(PluginError::VersionMismatch { .. })));
}

#[test]
fn validate_without_arranging() {
    let plugins = vec![PluginContainer { plugin: (), metadata: meta("a", "0.1.0-alpha", &[]) }];
    assert!(validate_plugins(&plugins, &"hzd".to_string()).is_ok());
}

#[test]
fn semver_wrappers_follow_semver() {
    assert!(PluginVersion::parse("1.2.3").is_some());
    assert!(PluginVersion::parse("1.2").is_none());
    assert!(PluginVersion::parse("01.2.3").is_none());
    let req = VersionRequirement::parse(">=1.2, <2").unwrap();
    assert!(req.matches(&PluginVersion::parse("1.5.0").unwrap()));
    assert!(!req.matches(&PluginVersion::parse("2.0.0").unwrap()));
    assert!(VersionRequirement::parse("@1.0.0").is_none());
}

#[test]
fn plugin_rows_describe_plugins() {
    let mut m = meta("id", "1.0.0", &[]);
    m.cauldron.metadata = Some(PluginMetadataCauldronMetadata {
        name: Some("Name".to_string()),
        description: None,
        contributors: Some(ContributorsList::Plain(vec!["x".to_string(), "y".to_string()])),
    });
    let row = plugin_row(12, &m);
    assert_eq!(row.order, "12");
    assert_eq!(row.id, "id");
    assert_eq!(row.version, "1.0.0");
    assert_eq!(row.name, "Name");
    assert_eq!(row.description, "");
    assert_eq!(row.authors, "x, y");
    m.cauldron.metadata = Some(PluginMetadataCauldronMetadata {
        name: None,
        description: Some("d".to_string()),
        contributors: Some(ContributorsList::WithRoles(vec![
            ("alice".to_string(), StringOrStringVec::String("dev".to_string())),
            ("bob".to_string(), StringOrStringVec::Vec(vec!["art".to_string()])),
        ])),
    });
    let row = plugin_row(0, &m);
    assert_eq!(row.order, "0");
    assert_eq!(row.authors, "alice, bob");
    assert_eq!(row.description, "d");
    let row = plugin_row(7, &meta("bare", "0.0.1", &[]));
    assert_eq!(row.authors, "");
    assert_eq!(row.name, "");
}

#[test]
fn schema_version_zero_only() {
    assert!(PluginMetadataSchemaVersionOnly { schema_version: 0 }.is_supported());
    assert!(!PluginMetadataSchemaVersionOnly { schema_version: 1 }.is_supported());
}

#[test]
fn repeated_table_keys_are_detected() {
    let mut m = meta("a", "1.0.0", &[("b", plain("^1")), ("c", plain("^1"))]);
    assert!(m.has_unique_keys());
    m.extra = vec![("settings".to_string(), "{ x = 1 }".to_string())];
    assert!(m.has_unique_keys());
    m.cauldron.dependencies = Some(vec![("b".to_string(), plain("^1")), ("b".to_string(), plain("^2"))]);
    assert!(!m.has_unique_keys());
    let mut m = meta("a", "1.0.0", &[]);
    m.extra = vec![("k".to_string(), "1".to_string()), ("k".to_string(), "2".to_string())];
    assert!(!m.has_unique_keys());
}

#[test]
fn plugin_table_lists_plugins_in_order() {
    let table = plugin_table(&vec![meta("first.plugin", "1.2.3", &[]), meta("second", "0.1.0", &[])]);
    assert!(table.contains("Order"));
    assert!(table.contains("Authors"));
    let first = table.find("first.plugin").unwrap();
    let second = table.find("second").unwrap();
    assert!(first < second);
    assert!(table.contains("1.2.3"));
    assert!(table.lines().count() >= 3);
}
