use release_plz::config::{
    Config, PackageConfig, PackageSpecificConfig, PackageSpecificConfigWithName, ReleaseType,
    Workspace,
};

fn serialized_config() -> Config {
    Config {
        workspace: Workspace {
            dependencies_update: None,
            changelog_config: Some("../git-cliff.toml".to_string()),
            allow_dirty: None,
            repo_url: Some("https://github.com/MarcoIeni/release-plz".to_string()),
            pr_draft: false,
            pr_labels: vec!["label1".to_string()],
            packages_defaults: PackageConfig {
                semver_check: None,
                changelog_update: Some(true),
                git_release_enable: Some(true),
                git_release_type: Some(ReleaseType::Prod),
                git_release_draft: Some(false),
                release: Some(true),
                ..Default::default()
            },
            publish_timeout: Some("10m".to_string()),
        },
        package: vec![PackageSpecificConfigWithName {
            name: "crate1".to_string(),
            config: PackageSpecificConfig {
                common: PackageConfig {
                    semver_check: Some(false),
                    changelog_update: Some(true),
                    git_release_enable: Some(true),
                    git_release_type: Some(ReleaseType::Prod),
                    git_release_draft: Some(false),
                    release: Some(false),
                    ..Default::default()
                },
                changelog_path: Some("./CHANGELOG.md".to_string()),
                changelog_include: Some(vec!["pkg1".to_string()]),
            },
        }],
    }
}

#[test]
fn config_is_serialized() {
    let expected = "\
[workspace]
changelog_update = true
git_release_enable = true
git_release_type = \"prod\"
git_release_draft = false
release = true
changelog_config = \"../git-cliff.toml\"
pr_draft = false
pr_labels = [\"label1\"]
publish_timeout = \"10m\"
repo_url = \"https://github.com/MarcoIeni/release-plz\"

[[package]]
name = \"crate1\"
changelog_update = true
git_release_enable = true
git_release_type = \"prod\"
git_release_draft = false
semver_check = false
release = false
changelog_path = \"./CHANGELOG.md\"
changelog_include = [\"pkg1\"]
";
    assert_eq!(serialized_config().to_toml_string(), expected);
}

#[test]
fn empty_config_serializes_the_workspace_header_only() {
    let config = Config {
        workspace: Workspace {
            packages_defaults: PackageConfig::default(),
            allow_dirty: None,
            changelog_config: None,
            dependencies_update: None,
            pr_draft: false,
            pr_labels: vec![],
            publish_timeout: None,
            repo_url: None,
        },
        package: vec![],
    };
    assert_eq!(config.to_toml_string(), "[workspace]\npr_draft = false\npr_labels = []\n");
}

fn opt_bool(table: &toml::Table, key: &str) -> Option<bool> {
    table.get(key).map(|v| v.as_bool().unwrap())
}

fn opt_string(table: &toml::Table, key: &str) -> Option<String> {
    table.get(key).map(|v| v.as_str().unwrap().to_string())
}

fn common_config(table: &toml::Table) -> PackageConfig {
    PackageConfig {
        changelog_update: opt_bool(table, "changelog_update"),
        git_release_enable: opt_bool(table, "git_release_enable"),
        git_release_type: opt_string(table, "git_release_type").map(|t| match t.as_str() {
            "prod" => ReleaseType::Prod,
            "pre" => ReleaseType::Pre,
            _ => ReleaseType::Auto,
        }),
        git_release_draft: opt_bool(table, "git_release_draft"),
        git_tag_enable: opt_bool(table, "git_tag_enable"),
        publish: opt_bool(table, "publish"),
        publish_allow_dirty: opt_bool(table, "publish_allow_dirty"),
        publish_no_verify: opt_bool(table, "publish_no_verify"),
        semver_check: opt_bool(table, "semver_check"),
        release: opt_bool(table, "release"),
    }
}

fn string_list(table: &toml::Table, key: &str) -> Option<Vec<String>> {
    table.get(key).map(|v| {
        v.as_array()
            .unwrap()
            .iter()
            .map(|item| item.as_str().unwrap().to_string())
            .collect()
    })
}

#[test]
fn document_with_workspace_and_package_override_round_trips() {
    let config = serialized_config();
    let document = config.to_toml_string();

    let parsed: toml::Table = document.parse().unwrap();
    let workspace = parsed["workspace"].as_table().unwrap();
    let packages = parsed["package"].as_array().unwrap();
    let rebuilt = Config {
        workspace: Workspace {
            packages_defaults: common_config(workspace),
            allow_dirty: opt_bool(workspace, "allow_dirty"),
            changelog_config: opt_string(workspace, "changelog_config"),
            dependencies_update: opt_bool(workspace, "dependencies_update"),
            pr_draft: workspace["pr_draft"].as_bool().unwrap(),
            pr_labels: string_list(workspace, "pr_labels").unwrap(),
            publish_timeout: opt_string(workspace, "publish_timeout"),
            repo_url: opt_string(workspace, "repo_url"),
        },
        package: packages
            .iter()
            .map(|entry| {
                let entry = entry.as_table().unwrap();
                PackageSpecificConfigWithName {
                    name: entry["name"].as_str().unwrap().to_string(),
                    config: PackageSpecificConfig {
                        common: common_config(entry),
                        changelog_path: opt_string(entry, "changelog_path"),
                        changelog_include: string_list(entry, "changelog_include"),
                    },
                }
            })
            .collect(),
    };
    assert_eq!(rebuilt, config);
}
