use release_plz::config::{
    Config, ConfigError, PackageConfig, PackageSpecificConfig, PackageSpecificConfigWithName,
    ReleaseType, Workspace,
};

fn empty_workspace() -> Workspace {
    Workspace {
        packages_defaults: PackageConfig::default(),
        allow_dirty: None,
        changelog_config: None,
        dependencies_update: None,
        pr_draft: false,
        pr_labels: vec![],
        publish_timeout: None,
        repo_url: None,
    }
}

fn package(name: &str, common: PackageConfig) -> PackageSpecificConfigWithName {
    PackageSpecificConfigWithName {
        name: name.to_string(),
        config: PackageSpecificConfig {
            common,
            changelog_path: None,
            changelog_include: None,
        },
    }
}

#[test]
fn merge_prefers_the_package_specific_field() {
    let specific = PackageConfig {
        changelog_update: Some(false),
        semver_check: Some(true),
        ..Default::default()
    };
    let default = PackageConfig {
        changelog_update: Some(true),
        git_tag_enable: Some(false),
        git_release_type: Some(ReleaseType::Pre),
        ..Default::default()
    };
    let merged = specific.merge(default);
    // fields present on the specific side win
    assert_eq!(merged.changelog_update, Some(false));
    assert_eq!(merged.semver_check, Some(true));
    // absent fields fall back to the default side, independently
    assert_eq!(merged.git_tag_enable, Some(false));
    assert_eq!(merged.git_release_type, Some(ReleaseType::Pre));
    assert_eq!(merged.publish, None);
}

#[test]
fn merge_of_all_unset_equals_the_default() {
    let default = PackageConfig {
        changelog_update: Some(true),
        git_release_enable: Some(false),
        git_release_type: Some(ReleaseType::Auto),
        git_release_draft: Some(true),
        git_tag_enable: Some(false),
        publish: Some(false),
        publish_allow_dirty: Some(true),
        publish_no_verify: Some(true),
        semver_check: Some(false),
        release: Some(false),
    };
    let merged = PackageConfig::default().merge(default);
    assert_eq!(merged, default);
}

#[test]
fn merge_with_the_same_default_twice_is_idempotent() {
    let specific = PackageConfig { publish: Some(false), ..Default::default() };
    let default = PackageConfig { publish: Some(true), release: Some(true), ..Default::default() };
    let once = specific.merge(default);
    let twice = once.merge(default);
    assert_eq!(once, twice);
}

#[test]
fn package_specific_merge_carries_changelog_fields_through() {
    let specific = PackageSpecificConfig {
        common: PackageConfig { release: Some(false), ..Default::default() },
        changelog_path: Some("./CHANGELOG.md".to_string()),
        changelog_include: Some(vec!["pkg1".to_string()]),
    };
    let default = PackageConfig { release: Some(true), semver_check: Some(false), ..Default::default() };
    let merged = specific.merge(default);
    assert_eq!(merged.common.release, Some(false));
    assert_eq!(merged.common.semver_check, Some(false));
    assert_eq!(merged.changelog_path, Some("./CHANGELOG.md".to_string()));
    assert_eq!(merged.changelog_include, Some(vec!["pkg1".to_string()]));
}

#[test]
fn builtin_defaults_apply_when_nothing_is_set() {
    let config = Config {
        workspace: empty_workspace(),
        package: vec![package("crate1", PackageConfig::default())],
    };

    let update = config.fill_update_config(false);
    assert!(update.default_config.semver_check);
    assert!(update.default_config.changelog_update);
    assert!(update.default_config.release);
    assert_eq!(update.packages.len(), 1);
    assert_eq!(update.packages[0].0, "crate1");
    let pkg = &update.packages[0].1;
    assert!(pkg.generic.semver_check);
    assert!(pkg.generic.changelog_update);
    assert!(pkg.generic.release);
    assert_eq!(pkg.changelog_path, None);
    assert_eq!(pkg.changelog_include, Vec::<String>::new());

    let release = config.fill_release_config(false, false);
    assert!(release.default_config.publish);
    assert!(!release.default_config.publish_allow_dirty);
    assert!(!release.default_config.publish_no_verify);
    assert!(release.default_config.git_release);
    assert!(!release.default_config.git_release_draft);
    assert!(release.default_config.git_tag);
    assert!(release.default_config.release);
    assert_eq!(release.packages.len(), 1);
    let pkg = &release.packages[0].1;
    assert!(pkg.generic.publish);
    assert!(pkg.generic.git_release);
    assert!(!pkg.generic.git_release_draft);
    assert!(pkg.generic.git_tag);
    assert!(pkg.generic.release);
}

#[test]
fn force_disable_changelog_wins_over_explicit_true() {
    let mut workspace = empty_workspace();
    workspace.packages_defaults.changelog_update = Some(true);
    let config = Config {
        workspace,
        package: vec![package(
            "crate1",
            PackageConfig { changelog_update: Some(true), ..Default::default() },
        )],
    };
    let update = config.fill_update_config(true);
    assert!(!update.default_config.changelog_update);
    assert!(!update.packages[0].1.generic.changelog_update);
}

#[test]
fn force_publish_flags_win_over_explicit_false() {
    let mut workspace = empty_workspace();
    workspace.packages_defaults.publish_allow_dirty = Some(false);
    workspace.packages_defaults.publish_no_verify = Some(false);
    let config = Config {
        workspace,
        package: vec![package(
            "crate1",
            PackageConfig {
                publish_allow_dirty: Some(false),
                publish_no_verify: Some(false),
                ..Default::default()
            },
        )],
    };
    let release = config.fill_release_config(true, true);
    assert!(release.default_config.publish_allow_dirty);
    assert!(release.default_config.publish_no_verify);
    assert!(release.packages[0].1.generic.publish_allow_dirty);
    assert!(release.packages[0].1.generic.publish_no_verify);
}

#[test]
fn package_override_merges_over_workspace_defaults() {
    let mut workspace = empty_workspace();
    workspace.packages_defaults.git_release_draft = Some(true);
    workspace.packages_defaults.semver_check = Some(false);
    let config = Config {
        workspace,
        package: vec![package(
            "crate1",
            PackageConfig { publish: Some(false), ..Default::default() },
        )],
    };
    let release = config.fill_release_config(false, false);
    let pkg = &release.packages[0].1;
    // the package-level override applies
    assert!(!pkg.generic.publish);
    // the workspace default shines through where the package says nothing
    assert!(pkg.generic.git_release_draft);

    let update = config.fill_update_config(false);
    assert!(!update.packages[0].1.generic.semver_check);
}

#[test]
fn changelog_path_and_include_are_resolved_per_package() {
    let config = Config {
        workspace: empty_workspace(),
        package: vec![PackageSpecificConfigWithName {
            name: "crate1".to_string(),
            config: PackageSpecificConfig {
                common: PackageConfig::default(),
                changelog_path: Some("./CHANGELOG.md".to_string()),
                changelog_include: Some(vec!["pkg1".to_string(), "pkg2".to_string()]),
            },
        }],
    };
    let update = config.fill_update_config(false);
    let pkg = &update.packages[0].1;
    assert_eq!(pkg.changelog_path, Some("./CHANGELOG.md".to_string()));
    assert_eq!(pkg.changelog_include, vec!["pkg1".to_string(), "pkg2".to_string()]);

    let release = config.fill_release_config(false, false);
    assert_eq!(release.packages[0].1.changelog_path, Some("./CHANGELOG.md".to_string()));
}

#[test]
fn publish_timeout_defaults_to_thirty_minutes() {
    let workspace = empty_workspace();
    let timeout = workspace.publish_timeout().unwrap();
    assert_eq!(timeout.secs, 30 * 60);
    assert_eq!(timeout.nanos, 0);
}

#[test]
fn publish_timeout_parses_the_configured_string() {
    let mut workspace = empty_workspace();
    workspace.publish_timeout = Some("10m".to_string());
    let timeout = workspace.publish_timeout().unwrap();
    assert_eq!(timeout.secs, 10 * 60);
}

#[test]
fn malformed_publish_timeout_is_reported_with_the_value() {
    let mut workspace = empty_workspace();
    workspace.publish_timeout = Some("abc".to_string());
    let err = workspace.publish_timeout().unwrap_err();
    assert_eq!(err, ConfigError::InvalidPublishTimeout { value: "abc".to_string() });
    assert_eq!(err.message(), "invalid publish_timeout abc");
}
