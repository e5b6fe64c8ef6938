//! Declared configuration and its resolution into effective per-package
//! update and release configurations.
//!
//! Every overridable field is an `Option`: `None` means "inherit from the
//! next tier". Resolution is a strict three-tier coalesce: package-level
//! value, else workspace-level value, else built-in default.

use vstd::prelude::*;

verus! {

/// Whether to run cargo-semver-checks or not.
/// Note: you can only run cargo-semver-checks on a library.
#[derive(Clone, Copy, Debug, PartialEq, Eq)]
pub enum SemverCheck {
    /// Run cargo-semver-checks.
    Yes,
    /// Don't run cargo-semver-checks.
    No,
}

impl Default for SemverCheck {
    fn default() -> (r: Self)
        ensures
            r == SemverCheck::Yes,
    {
        SemverCheck::Yes
    }
}

/// Whether to mark a git release as ready for production or not.
#[derive(Clone, Copy, Debug, PartialEq, Eq)]
pub enum ReleaseType {
    /// Will mark the release as ready for production.
    Prod,
    /// Will mark the release as not ready for production, i.e. as
    /// pre-release.
    Pre,
    /// Will mark the release as not ready for production in case there is a
    /// semver pre-release in the tag, e.g. v1.0.0-rc1. Otherwise, will mark
    /// the release as ready for production.
    Auto,
}

impl Default for ReleaseType {
    fn default() -> (r: Self)
        ensures
            r == ReleaseType::Prod,
    {
        ReleaseType::Prod
    }
}

/// Configuration that can be specified both at the workspace and at the
/// package level. `None` in a field means the value is inherited.
#[derive(Clone, Copy, Debug, PartialEq, Eq)]
pub struct PackageConfig {
    /// Whether to create/update the changelog or not.
    /// If unspecified, the changelog is updated.
    pub changelog_update: Option<bool>,
    /// Publish the GitHub/Gitea release for the created git tag.
    /// Enabled by default.
    pub git_release_enable: Option<bool>,
    /// Whether to mark the created release as not ready for production.
    pub git_release_type: Option<ReleaseType>,
    /// If true, will not auto-publish the release.
    pub git_release_draft: Option<bool>,
    /// Publish the git tag for the new package version.
    /// Enabled by default.
    pub git_tag_enable: Option<bool>,
    /// If `Some(false)`, don't run `cargo publish`.
    pub publish: Option<bool>,
    /// If `Some(true)`, add the `--allow-dirty` flag to the `cargo publish`
    /// command.
    pub publish_allow_dirty: Option<bool>,
    /// If `Some(true)`, add the `--no-verify` flag to the `cargo publish`
    /// command.
    pub publish_no_verify: Option<bool>,
    /// Controls when to run cargo-semver-checks.
    /// If unspecified, run cargo-semver-checks if the package is a library.
    pub semver_check: Option<bool>,
    /// Used to toggle off the update/release process for a workspace or
    /// package.
    pub release: Option<bool>,
}

/// Right-biased coalesce: the first operand wins where it is present.
pub open spec fn coalesce<T>(specific: Option<T>, default: Option<T>) -> Option<T> {
    if specific is Some {
        specific
    } else {
        default
    }
}

impl PackageConfig {
    /// The field-wise coalesce of `self` over `default`.
    pub open spec fn spec_merge(self, default: Self) -> Self {
        PackageConfig {
            changelog_update: coalesce(self.changelog_update, default.changelog_update),
            git_release_enable: coalesce(self.git_release_enable, default.git_release_enable),
            git_release_type: coalesce(self.git_release_type, default.git_release_type),
            git_release_draft: coalesce(self.git_release_draft, default.git_release_draft),
            git_tag_enable: coalesce(self.git_tag_enable, default.git_tag_enable),
            publish: coalesce(self.publish, default.publish),
            publish_allow_dirty: coalesce(self.publish_allow_dirty, default.publish_allow_dirty),
            publish_no_verify: coalesce(self.publish_no_verify, default.publish_no_verify),
            semver_check: coalesce(self.semver_check, default.semver_check),
            release: coalesce(self.release, default.release),
        }
    }

    /// True iff no field is set, so everything is inherited.
    pub open spec fn is_all_unset(self) -> bool {
        &&& self.changelog_update is None
        &&& self.git_release_enable is None
        &&& self.git_release_type is None
        &&& self.git_release_draft is None
        &&& self.git_tag_enable is None
        &&& self.publish is None
        &&& self.publish_allow_dirty is None
        &&& self.publish_no_verify is None
        &&& self.semver_check is None
        &&& self.release is None
    }

    /// A configuration with every field unset.
    pub fn empty() -> (r: Self)
        ensures
            r.is_all_unset(),
    {
        PackageConfig {
            changelog_update: None,
            git_release_enable: None,
            git_release_type: None,
            git_release_draft: None,
            git_tag_enable: None,
            publish: None,
            publish_allow_dirty: None,
            publish_no_verify: None,
            semver_check: None,
            release: None,
        }
    }

    /// Merge the package-specific configuration with the global
    /// configuration: for every field the package-specific value wins where
    /// present, else the global one is taken.
    pub fn merge(self, default: Self) -> (r: Self)
        ensures
            r == self.spec_merge(default),
    {
        PackageConfig {
            changelog_update: if self.changelog_update.is_some() {
                self.changelog_update
            } else {
                default.changelog_update
            },
            git_release_enable: if self.git_release_enable.is_some() {
                self.git_release_enable
            } else {
                default.git_release_enable
            },
            git_release_type: if self.git_release_type.is_some() {
                self.git_release_type
            } else {
                default.git_release_type
            },
            git_release_draft: if self.git_release_draft.is_some() {
                self.git_release_draft
            } else {
                default.git_release_draft
            },
            git_tag_enable: if self.git_tag_enable.is_some() {
                self.git_tag_enable
            } else {
                default.git_tag_enable
            },
            publish: if self.publish.is_some() {
                self.publish
            } else {
                default.publish
            },
            publish_allow_dirty: if self.publish_allow_dirty.is_some() {
                self.publish_allow_dirty
            } else {
                default.publish_allow_dirty
            },
            publish_no_verify: if self.publish_no_verify.is_some() {
                self.publish_no_verify
            } else {
                default.publish_no_verify
            },
            semver_check: if self.semver_check.is_some() {
                self.semver_check
            } else {
                default.semver_check
            },
            release: if self.release.is_some() {
                self.release
            } else {
                default.release
            },
        }
    }
}

impl Default for PackageConfig {
    fn default() -> (r: Self)
        ensures
            r.is_all_unset(),
    {
        PackageConfig::empty()
    }
}

/// A merge whose left side sets nothing gives back the default exactly.
pub proof fn lemma_merge_all_unset(p: PackageConfig, d: PackageConfig)
    requires
        p.is_all_unset(),
    ensures
        p.spec_merge(d) == d,
{
}

/// A merge with a fixed default is idempotent: merging a second time with
/// the same default changes nothing.
pub proof fn lemma_merge_idempotent(p: PackageConfig, d: PackageConfig)
    ensures
        p.spec_merge(d).spec_merge(d) == p.spec_merge(d),
{
}

/// Field-wise characterization of the coalesce merge: each field of the
/// result is the package-specific value where present, else the default,
/// independently of every other field.
pub proof fn lemma_merge_fieldwise(p: PackageConfig, d: PackageConfig)
    ensures
        p.spec_merge(d).changelog_update == coalesce(p.changelog_update, d.changelog_update),
        p.spec_merge(d).git_release_enable == coalesce(
            p.git_release_enable,
            d.git_release_enable,
        ),
        p.spec_merge(d).git_release_type == coalesce(p.git_release_type, d.git_release_type),
        p.spec_merge(d).git_release_draft == coalesce(p.git_release_draft, d.git_release_draft),
        p.spec_merge(d).git_tag_enable == coalesce(p.git_tag_enable, d.git_tag_enable),
        p.spec_merge(d).publish == coalesce(p.publish, d.publish),
        p.spec_merge(d).publish_allow_dirty == coalesce(
            p.publish_allow_dirty,
            d.publish_allow_dirty,
        ),
        p.spec_merge(d).publish_no_verify == coalesce(p.publish_no_verify, d.publish_no_verify),
        p.spec_merge(d).semver_check == coalesce(p.semver_check, d.semver_check),
        p.spec_merge(d).release == coalesce(p.release, d.release),
{
}

/// Config at the package level: the shared field set plus package-only
/// changelog fields.
#[derive(Clone, Debug, PartialEq, Eq)]
pub struct PackageSpecificConfig {
    /// Configuration that can be specified at the workspace level, too.
    pub common: PackageConfig,
    /// Normally the changelog is placed in the same directory of the
    /// Cargo.toml file. The user can provide a custom path here.
    pub changelog_path: Option<String>,
    /// List of package names. The changelogs of these packages are included
    /// in the changelog of the current package.
    pub changelog_include: Option<Vec<String>>,
}

impl PackageSpecificConfig {
    /// Merge the package-specific configuration with the global
    /// configuration. The package-only changelog fields are carried through
    /// unchanged from the package-specific side.
    pub fn merge(self, default: PackageConfig) -> (r: PackageSpecificConfig)
        ensures
            r.common == self.common.spec_merge(default),
            r.changelog_path == self.changelog_path,
            r.changelog_include == self.changelog_include,
    {
        PackageSpecificConfig {
            common: self.common.merge(default),
            changelog_path: self.changelog_path,
            changelog_include: self.changelog_include,
        }
    }
}

/// A package-specific configuration together with the name of the package
/// it applies to.
#[derive(Clone, Debug, PartialEq, Eq)]
pub struct PackageSpecificConfigWithName {
    pub name: String,
    pub config: PackageSpecificConfig,
}

/// Config at the workspace level: the shared field set (as defaults for
/// every package) plus workspace-only fields.
#[derive(Clone, Debug, PartialEq, Eq)]
pub struct Workspace {
    /// Configuration applied at the package level, too.
    pub packages_defaults: PackageConfig,
    /// - If `Some(true)`, allow dirty working directories to be updated.
    /// - If `Some(false)` or `None`, the command fails if the working
    ///   directory is dirty.
    pub allow_dirty: Option<bool>,
    /// Path to the changelog generator configuration file.
    pub changelog_config: Option<String>,
    /// - If `Some(true)`, update all the dependencies in the lockfile.
    /// - If `Some(false)` or `None`, only update the workspace packages.
    pub dependencies_update: Option<bool>,
    /// If `true`, the created release PR is marked as a draft.
    pub pr_draft: bool,
    /// Labels to add to the release PR.
    pub pr_labels: Vec<String>,
    /// Timeout for the publishing process.
    pub publish_timeout: Option<String>,
    /// GitHub/Gitea repository url where the project is hosted.
    pub repo_url: Option<String>,
}

impl Default for Workspace {
    fn default() -> (r: Self)
        ensures
            r.packages_defaults.is_all_unset(),
            r.allow_dirty is None,
            r.changelog_config is None,
            r.dependencies_update is None,
            !r.pr_draft,
            r.pr_labels@ == Seq::<String>::empty(),
            r.publish_timeout is None,
            r.repo_url is None,
    {
        Workspace {
            packages_defaults: PackageConfig::empty(),
            allow_dirty: None,
            changelog_config: None,
            dependencies_update: None,
            pr_draft: false,
            pr_labels: Vec::new(),
            publish_timeout: None,
            repo_url: None,
        }
    }
}

/// The root of the declared configuration: workspace-wide defaults plus an
/// ordered list of per-package overrides.
#[derive(Clone, Debug, PartialEq, Eq)]
pub struct Config {
    /// Global configuration. Applied to all packages by default.
    pub workspace: Workspace,
    /// Package-specific configuration. This overrides `workspace`.
    pub package: Vec<PackageSpecificConfigWithName>,
}

impl Default for Config {
    fn default() -> (r: Self)
        ensures
            r.workspace.packages_defaults.is_all_unset(),
            r.package@ == Seq::<PackageSpecificConfigWithName>::empty(),
    {
        Config { workspace: Workspace::default(), package: Vec::new() }
    }
}

/// The per-package update configuration handed to the update engine.
#[derive(Clone, Copy, Debug, PartialEq, Eq)]
pub struct UpdateConfig {
    /// Whether to run cargo-semver-checks.
    pub semver_check: bool,
    /// Whether to create/update the changelog.
    pub changelog_update: bool,
    /// Whether the package takes part in the update process at all.
    pub release: bool,
}

/// The resolved update configuration of one package, together with its
/// package-only changelog data.
#[derive(Clone, Debug, PartialEq, Eq)]
pub struct PackageUpdateConfig {
    pub generic: UpdateConfig,
    pub changelog_path: Option<String>,
    pub changelog_include: Vec<String>,
}

/// The per-package release configuration handed to the release engine.
#[derive(Clone, Copy, Debug, PartialEq, Eq)]
pub struct ReleaseConfig {
    /// Whether to run `cargo publish`.
    pub publish: bool,
    /// Whether to pass `--allow-dirty` to `cargo publish`.
    pub publish_allow_dirty: bool,
    /// Whether to pass `--no-verify` to `cargo publish`.
    pub publish_no_verify: bool,
    /// Whether to publish the GitHub/Gitea release for the created git tag.
    pub git_release: bool,
    /// Whether the created release is a draft.
    pub git_release_draft: bool,
    /// Whether to publish the git tag for the new package version.
    pub git_tag: bool,
    /// Whether the package takes part in the release process at all.
    pub release: bool,
}

/// The resolved release configuration of one package, together with its
/// package-only changelog path.
#[derive(Clone, Debug, PartialEq, Eq)]
pub struct PackageReleaseConfig {
    pub generic: ReleaseConfig,
    pub changelog_path: Option<String>,
}

impl UpdateConfig {
    /// The built-in defaults applied by the conversion: each toggle is
    /// enabled unless it is explicitly `Some(false)`.
    pub open spec fn spec_from(c: PackageConfig) -> UpdateConfig {
        UpdateConfig {
            semver_check: c.semver_check != Some(false),
            changelog_update: c.changelog_update != Some(false),
            release: c.release != Some(false),
        }
    }
}

impl From<PackageConfig> for UpdateConfig {
    fn from(config: PackageConfig) -> Self {
        UpdateConfig {
            semver_check: match config.semver_check {
                Some(b) => b,
                None => true,
            },
            changelog_update: match config.changelog_update {
                Some(b) => b,
                None => true,
            },
            release: match config.release {
                Some(b) => b,
                None => true,
            },
        }
    }
}

impl vstd::std_specs::convert::FromSpecImpl<PackageConfig> for UpdateConfig {
    open spec fn obeys_from_spec() -> bool {
        true
    }

    open spec fn from_spec(c: PackageConfig) -> UpdateConfig {
        UpdateConfig::spec_from(c)
    }
}

impl ReleaseConfig {
    /// The built-in defaults applied by the conversion: enable toggles are
    /// on unless explicitly `Some(false)`; the draft and the two publish
    /// flags are on only when explicitly `Some(true)`.
    pub open spec fn spec_from(c: PackageConfig) -> ReleaseConfig {
        ReleaseConfig {
            publish: c.publish != Some(false),
            publish_allow_dirty: c.publish_allow_dirty == Some(true),
            publish_no_verify: c.publish_no_verify == Some(true),
            git_release: c.git_release_enable != Some(false),
            git_release_draft: c.git_release_draft == Some(true),
            git_tag: c.git_tag_enable != Some(false),
            release: c.release != Some(false),
        }
    }
}

impl From<PackageConfig> for ReleaseConfig {
    fn from(value: PackageConfig) -> Self {
        ReleaseConfig {
            publish: match value.publish {
                Some(b) => b,
                None => true,
            },
            publish_allow_dirty: match value.publish_allow_dirty {
                Some(b) => b,
                None => false,
            },
            publish_no_verify: match value.publish_no_verify {
                Some(b) => b,
                None => false,
            },
            git_release: match value.git_release_enable {
                Some(b) => b,
                None => true,
            },
            git_release_draft: match value.git_release_draft {
                Some(b) => b,
                None => false,
            },
            git_tag: match value.git_tag_enable {
                Some(b) => b,
                None => true,
            },
            release: match value.release {
                Some(b) => b,
                None => true,
            },
        }
    }
}

impl vstd::std_specs::convert::FromSpecImpl<PackageConfig> for ReleaseConfig {
    open spec fn obeys_from_spec() -> bool {
        true
    }

    open spec fn from_spec(c: PackageConfig) -> ReleaseConfig {
        ReleaseConfig::spec_from(c)
    }
}

/// Copy an optional string, keeping the value.
fn clone_opt_string(s: &Option<String>) -> (r: Option<String>)
    ensures
        r == *s,
{
    match s {
        Some(x) => Some(x.clone()),
        None => None,
    }
}

/// Copy a vector of strings, keeping the contents.
fn clone_string_vec(v: &Vec<String>) -> (r: Vec<String>)
    ensures
        r@ == v@,
{
    let mut out: Vec<String> = Vec::new();
    let mut i: usize = 0;
    while i < v.len()
        invariant
            i <= v@.len(),
            out@ =~= v@.subrange(0, i as int),
        decreases v@.len() - i,
    {
        out.push(v[i].clone());
        i += 1;
    }
    proof {
        assert(out@ =~= v@);
    }
    out
}

impl PackageUpdateConfig {
    /// The resolved update configuration of one package: the built-in
    /// defaults applied to the shared fields, the changelog fields carried
    /// through, with a missing include list resolved to the empty list.
    pub fn from(config: PackageSpecificConfig) -> (r: PackageUpdateConfig)
        ensures
            r.generic == UpdateConfig::spec_from(config.common),
            r.changelog_path == config.changelog_path,
            (match config.changelog_include {
                Some(v) => r.changelog_include@ == v@,
                None => r.changelog_include@ == Seq::<String>::empty(),
            }),
    {
        PackageUpdateConfig {
            generic: UpdateConfig::from(config.common),
            changelog_path: config.changelog_path,
            changelog_include: match config.changelog_include {
                Some(v) => v,
                None => Vec::new(),
            },
        }
    }
}

impl PackageReleaseConfig {
    /// The resolved release configuration of one package: the built-in
    /// defaults applied to the shared fields, the changelog path carried
    /// through.
    pub fn from(config: PackageSpecificConfig) -> (r: PackageReleaseConfig)
        ensures
            r.generic == ReleaseConfig::spec_from(config.common),
            r.changelog_path == config.changelog_path,
    {
        PackageReleaseConfig {
            generic: ReleaseConfig::from(config.common),
            changelog_path: config.changelog_path,
        }
    }
}

/// The workspace defaults with `changelog_update` forced to `Some(false)`
/// when the force-flag is set.
pub open spec fn spec_force_changelog(c: PackageConfig, disabled: bool) -> PackageConfig {
    if disabled {
        PackageConfig {
            changelog_update: Some(false),
            git_release_enable: c.git_release_enable,
            git_release_type: c.git_release_type,
            git_release_draft: c.git_release_draft,
            git_tag_enable: c.git_tag_enable,
            publish: c.publish,
            publish_allow_dirty: c.publish_allow_dirty,
            publish_no_verify: c.publish_no_verify,
            semver_check: c.semver_check,
            release: c.release,
        }
    } else {
        c
    }
}

/// A configuration with `publish_no_verify` / `publish_allow_dirty` forced
/// to `Some(true)` where the corresponding force-flag is set.
pub open spec fn spec_force_publish_flags(
    c: PackageConfig,
    allow_dirty: bool,
    force_no_verify: bool,
) -> PackageConfig {
    PackageConfig {
        changelog_update: c.changelog_update,
        git_release_enable: c.git_release_enable,
        git_release_type: c.git_release_type,
        git_release_draft: c.git_release_draft,
        git_tag_enable: c.git_tag_enable,
        publish: c.publish,
        publish_allow_dirty: if allow_dirty {
            Some(true)
        } else {
            c.publish_allow_dirty
        },
        publish_no_verify: if force_no_verify {
            Some(true)
        } else {
            c.publish_no_verify
        },
        semver_check: c.semver_check,
        release: c.release,
    }
}

/// The update configuration resolved for every package: the baseline
/// applied to packages without an explicit override, and one entry per
/// declared package, in declaration order.
#[derive(Clone, Debug, PartialEq, Eq)]
pub struct ResolvedUpdateConfig {
    /// The workspace-level baseline for packages with no explicit override.
    pub default_config: UpdateConfig,
    /// One `(package name, resolved configuration)` pair per declared
    /// package, in declaration order.
    pub packages: Vec<(String, PackageUpdateConfig)>,
}

/// The release configuration resolved for every package, laid out like
/// [`ResolvedUpdateConfig`].
#[derive(Clone, Debug, PartialEq, Eq)]
pub struct ResolvedReleaseConfig {
    /// The workspace-level baseline for packages with no explicit override.
    pub default_config: ReleaseConfig,
    /// One `(package name, resolved configuration)` pair per declared
    /// package, in declaration order.
    pub packages: Vec<(String, PackageReleaseConfig)>,
}

impl Config {
    /// The effective update configuration of the package declared at
    /// position `i`, as a specification: the package override merged over
    /// the workspace defaults, with the force-flag applied last.
    pub open spec fn spec_update_at(self, i: int, disabled: bool) -> UpdateConfig {
        UpdateConfig::spec_from(
            spec_force_changelog(
                self.package@[i].config.common.spec_merge(self.workspace.packages_defaults),
                disabled,
            ),
        )
    }

    /// Resolve the update configuration of every package.
    ///
    /// The workspace defaults form the baseline; each declared package
    /// merges its own overrides over the (unmodified) defaults. When
    /// `is_changelog_update_disabled` is set, `changelog_update` resolves to
    /// `false` everywhere, even over an explicit per-package `true`.
    pub fn fill_update_config(&self, is_changelog_update_disabled: bool) -> (r:
        ResolvedUpdateConfig)
        ensures
            r.default_config == UpdateConfig::spec_from(
                spec_force_changelog(
                    self.workspace.packages_defaults,
                    is_changelog_update_disabled,
                ),
            ),
            r.packages@.len() == self.package@.len(),
            forall|i: int|
                0 <= i < self.package@.len() ==> {
                    &&& (#[trigger] r.packages@[i]).0 == self.package@[i].name
                    &&& r.packages@[i].1.generic == self.spec_update_at(
                        i,
                        is_changelog_update_disabled,
                    )
                    &&& r.packages@[i].1.changelog_path == self.package@[i].config.changelog_path
                    &&& (match self.package@[i].config.changelog_include {
                        Some(v) => r.packages@[i].1.changelog_include@ == v@,
                        None => r.packages@[i].1.changelog_include@ == Seq::<String>::empty(),
                    })
                },
            is_changelog_update_disabled ==> !r.default_config.changelog_update,
            is_changelog_update_disabled ==> forall|i: int|
                0 <= i < r.packages@.len() ==> !(#[trigger] r.packages@[i]).1.generic.changelog_update,
    {
        let defaults = self.workspace.packages_defaults;
        let mut baseline = defaults;
        if is_changelog_update_disabled {
            baseline.changelog_update = Some(false);
        }
        let default_config = UpdateConfig::from(baseline);
        let mut packages: Vec<(String, PackageUpdateConfig)> = Vec::new();
        let mut idx: usize = 0;
        while idx < self.package.len()
            invariant
                defaults == self.workspace.packages_defaults,
                idx <= self.package@.len(),
                packages@.len() == idx as int,
                forall|i: int|
                    0 <= i < idx as int ==> {
                        &&& (#[trigger] packages@[i]).0 == self.package@[i].name
                        &&& packages@[i].1.generic == self.spec_update_at(
                            i,
                            is_changelog_update_disabled,
                        )
                        &&& packages@[i].1.changelog_path
                            == self.package@[i].config.changelog_path
                        &&& (match self.package@[i].config.changelog_include {
                            Some(v) => packages@[i].1.changelog_include@ == v@,
                            None => packages@[i].1.changelog_include@ == Seq::<String>::empty(),
                        })
                    },
            decreases self.package@.len() - idx,
        {
            let entry = &self.package[idx];
            let mut merged_common = entry.config.common.merge(defaults);
            if is_changelog_update_disabled {
                merged_common.changelog_update = Some(false);
            }
            let merged = PackageSpecificConfig {
                common: merged_common,
                changelog_path: clone_opt_string(&entry.config.changelog_path),
                changelog_include: match &entry.config.changelog_include {
                    Some(v) => Some(clone_string_vec(v)),
                    None => None,
                },
            };
            let resolved = PackageUpdateConfig::from(merged);
            packages.push((entry.name.clone(), resolved));
            idx += 1;
        }
        ResolvedUpdateConfig { default_config, packages }
    }

    /// The effective release configuration of the package declared at
    /// position `i`, as a specification: the package override merged over
    /// the workspace defaults, with the force-flags applied last.
    pub open spec fn spec_release_at(self, i: int, allow_dirty: bool, force_no_verify: bool)
        -> ReleaseConfig {
        ReleaseConfig::spec_from(
            spec_force_publish_flags(
                self.package@[i].config.common.spec_merge(self.workspace.packages_defaults),
                allow_dirty,
                force_no_verify,
            ),
        )
    }

    /// Resolve the release configuration of every package.
    ///
    /// The workspace defaults form the baseline; each declared package
    /// merges its own overrides over the (unmodified) defaults. The two
    /// force-flags only ever set their field to `true` and win over any
    /// explicit `false`.
    pub fn fill_release_config(&self, allow_dirty: bool, force_no_verify: bool) -> (r:
        ResolvedReleaseConfig)
        ensures
            r.default_config == ReleaseConfig::spec_from(
                spec_force_publish_flags(
                    self.workspace.packages_defaults,
                    allow_dirty,
                    force_no_verify,
                ),
            ),
            r.packages@.len() == self.package@.len(),
            forall|i: int|
                0 <= i < self.package@.len() ==> {
                    &&& (#[trigger] r.packages@[i]).0 == self.package@[i].name
                    &&& r.packages@[i].1.generic == self.spec_release_at(
                        i,
                        allow_dirty,
                        force_no_verify,
                    )
                    &&& r.packages@[i].1.changelog_path == self.package@[i].config.changelog_path
                },
            allow_dirty ==> r.default_config.publish_allow_dirty,
            force_no_verify ==> r.default_config.publish_no_verify,
            allow_dirty ==> forall|i: int|
                0 <= i < r.packages@.len() ==> (#[trigger] r.packages@[i]).1.generic.publish_allow_dirty,
            force_no_verify ==> forall|i: int|
                0 <= i < r.packages@.len() ==> (#[trigger] r.packages@[i]).1.generic.publish_no_verify,
    {
        let defaults = self.workspace.packages_defaults;
        let mut baseline = defaults;
        if force_no_verify {
            baseline.publish_no_verify = Some(true);
        }
        if allow_dirty {
            baseline.publish_allow_dirty = Some(true);
        }
        let default_config = ReleaseConfig::from(baseline);
        let mut packages: Vec<(String, PackageReleaseConfig)> = Vec::new();
        let mut idx: usize = 0;
        while idx < self.package.len()
            invariant
                defaults == self.workspace.packages_defaults,
                idx <= self.package@.len(),
                packages@.len() == idx as int,
                forall|i: int|
                    0 <= i < idx as int ==> {
                        &&& (#[trigger] packages@[i]).0 == self.package@[i].name
                        &&& packages@[i].1.generic == self.spec_release_at(
                            i,
                            allow_dirty,
                            force_no_verify,
                        )
                        &&& packages@[i].1.changelog_path
                            == self.package@[i].config.changelog_path
                    },
            decreases self.package@.len() - idx,
        {
            let entry = &self.package[idx];
            let mut merged_common = entry.config.common.merge(defaults);
            if force_no_verify {
                merged_common.publish_no_verify = Some(true);
            }
            if allow_dirty {
                merged_common.publish_allow_dirty = Some(true);
            }
            let merged = PackageSpecificConfig {
                common: merged_common,
                changelog_path: clone_opt_string(&entry.config.changelog_path),
                changelog_include: match &entry.config.changelog_include {
                    Some(v) => Some(clone_string_vec(v)),
                    None => None,
                },
            };
            let resolved = PackageReleaseConfig::from(merged);
            packages.push((entry.name.clone(), resolved));
            idx += 1;
        }
        ResolvedReleaseConfig { default_config, packages }
    }
}

/// The force-flags are final: with `force_disable_changelog` set the
/// resolved `changelog_update` is `false` whatever the two declared levels
/// say, and each publish force-flag makes its resolved value `true`
/// whatever the two declared levels say.
pub proof fn lemma_force_flags_final(p: PackageConfig, d: PackageConfig)
    ensures
        !UpdateConfig::spec_from(spec_force_changelog(p.spec_merge(d), true)).changelog_update,
        ReleaseConfig::spec_from(
            spec_force_publish_flags(p.spec_merge(d), true, false),
        ).publish_allow_dirty,
        ReleaseConfig::spec_from(
            spec_force_publish_flags(p.spec_merge(d), false, true),
        ).publish_no_verify,
        ReleaseConfig::spec_from(
            spec_force_publish_flags(p.spec_merge(d), true, true),
        ).publish_allow_dirty,
        ReleaseConfig::spec_from(
            spec_force_publish_flags(p.spec_merge(d), true, true),
        ).publish_no_verify,
{
}

/// A duration as whole seconds plus a subsecond nanosecond part.
#[derive(Clone, Copy, Debug, PartialEq, Eq)]
pub struct DurationValue {
    pub secs: u64,
    pub nanos: u32,
}

/// The duration that the publish-timeout syntax assigns to a string, or
/// `None` where the string is malformed.
pub uninterp spec fn duration_str_of(s: Seq<char>) -> Option<DurationValue>;

/// Relies on duration_str::parse: the parsed duration depends on the
/// characters of the string alone, and parsing fails exactly on the strings
/// the duration syntax rejects.
#[verifier::external_body]
fn parse_duration(s: &str) -> (r: Result<DurationValue, String>)
    ensures
        r is Ok <==> duration_str_of(s@) is Some,
        (r matches Ok(d) ==> duration_str_of(s@) == Some(d)),
{
    match duration_str::parse(s) {
        Ok(d) => Ok(DurationValue { secs: d.as_secs(), nanos: d.subsec_nanos() }),
        Err(e) => Err(e),
    }
}

/// An error of the configuration resolver.
#[derive(Clone, Debug, PartialEq, Eq)]
pub enum ConfigError {
    /// The publish timeout string could not be parsed; holds the invalid
    /// value.
    InvalidPublishTimeout { value: String },
}

impl ConfigError {
    /// A human-readable description naming the offending value.
    pub fn message(&self) -> (r: String)
        ensures
            (match self {
                ConfigError::InvalidPublishTimeout { value } => r@ == "invalid publish_timeout "@
                    + value@,
            }),
    {
        match self {
            ConfigError::InvalidPublishTimeout { value } => {
                "invalid publish_timeout ".to_owned().concat(value.as_str())
            },
        }
    }
}

impl Workspace {
    /// Get the publish timeout. Defaults to 30 minutes when unset; a
    /// malformed string is reported with the invalid value.
    pub fn publish_timeout(&self) -> (r: Result<DurationValue, ConfigError>)
        ensures
            (match self.publish_timeout {
                Some(t) => {
                    &&& r is Ok <==> duration_str_of(t@) is Some
                    &&& (r matches Ok(d) ==> duration_str_of(t@) == Some(d))
                    &&& (r matches Err(e) ==> e matches ConfigError::InvalidPublishTimeout {
                        value,
                    } && value@ == t@)
                },
                None => {
                    &&& r is Ok <==> duration_str_of("30m"@) is Some
                    &&& (r matches Ok(d) ==> duration_str_of("30m"@) == Some(d))
                    &&& (r matches Err(e) ==> e matches ConfigError::InvalidPublishTimeout {
                        value,
                    } && value@ == "30m"@)
                },
            }),
    {
        let timeout_str: &str = match &self.publish_timeout {
            Some(t) => t.as_str(),
            None => "30m",
        };
        match parse_duration(timeout_str) {
            Ok(d) => Ok(d),
            Err(_) => Err(
                ConfigError::InvalidPublishTimeout { value: timeout_str.to_owned() },
            ),
        }
    }
}

/// The built-in defaults: with nothing set at either level, the resolved
/// release configuration enables publish, git release (not draft), git tag
/// and release, and the resolved update configuration enables semver check,
/// changelog update and release.
pub proof fn lemma_builtin_defaults(p: PackageConfig, d: PackageConfig)
    requires
        p.is_all_unset(),
        d.is_all_unset(),
    ensures
        (UpdateConfig::spec_from(p.spec_merge(d)) == UpdateConfig {
            semver_check: true,
            changelog_update: true,
            release: true,
        }),
        (ReleaseConfig::spec_from(p.spec_merge(d)) == ReleaseConfig {
            publish: true,
            publish_allow_dirty: false,
            publish_no_verify: false,
            git_release: true,
            git_release_draft: false,
            git_tag: true,
            release: true,
        }),
{
}

} // verus!
