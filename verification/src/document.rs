//! Writing the declared configuration as a TOML document: one workspace
//! section, then one array-of-table entry per package, with fields in
//! declaration order and absent optional fields omitted.

use crate::config::{Config, PackageConfig, PackageSpecificConfigWithName, ReleaseType, Workspace};
use vstd::prelude::*;

verus! {

/// The characters of a `key = true` / `key = false` line.
pub open spec fn spec_bool_line(key: Seq<char>, b: bool) -> Seq<char> {
    key + " = "@ + (if b {
        "true"@
    } else {
        "false"@
    }) + "\n"@
}

/// An optional boolean line: nothing where the field is absent.
pub open spec fn spec_bool_opt_line(key: Seq<char>, v: Option<bool>) -> Seq<char> {
    match v {
        Some(b) => spec_bool_line(key, b),
        None => Seq::empty(),
    }
}

/// The characters of a `key = "value"` line.
pub open spec fn spec_string_line(key: Seq<char>, v: Seq<char>) -> Seq<char> {
    key + " = \""@ + v + "\"\n"@
}

/// An optional string line: nothing where the field is absent.
pub open spec fn spec_string_opt_line(key: Seq<char>, v: Option<String>) -> Seq<char> {
    match v {
        Some(s) => spec_string_line(key, s@),
        None => Seq::empty(),
    }
}

/// The spelling of a release type in the document.
pub open spec fn spec_release_type_str(t: ReleaseType) -> Seq<char> {
    match t {
        ReleaseType::Prod => "prod"@,
        ReleaseType::Pre => "pre"@,
        ReleaseType::Auto => "auto"@,
    }
}

/// An optional release-type line: nothing where the field is absent.
pub open spec fn spec_release_type_opt_line(key: Seq<char>, v: Option<ReleaseType>) -> Seq<
    char,
> {
    match v {
        Some(t) => spec_string_line(key, spec_release_type_str(t)),
        None => Seq::empty(),
    }
}

/// The quoted, comma-separated items of the first `n` strings of a list.
pub open spec fn spec_list_items(v: Seq<String>, n: int) -> Seq<char>
    decreases n,
{
    if n <= 0 {
        Seq::empty()
    } else if n == 1 {
        "\""@ + v[0]@ + "\""@
    } else {
        spec_list_items(v, n - 1) + ", "@ + "\""@ + v[n - 1]@ + "\""@
    }
}

/// The characters of a `key = ["a", "b"]` line.
pub open spec fn spec_list_line(key: Seq<char>, v: Seq<String>) -> Seq<char> {
    key + " = ["@ + spec_list_items(v, v.len() as int) + "]\n"@
}

/// An optional list line: nothing where the field is absent.
pub open spec fn spec_list_opt_line(key: Seq<char>, v: Option<Vec<String>>) -> Seq<char> {
    match v {
        Some(items) => spec_list_line(key, items@),
        None => Seq::empty(),
    }
}

/// The lines of the shared field set, in declaration order.
pub open spec fn spec_common_lines(c: PackageConfig) -> Seq<char> {
    spec_bool_opt_line("changelog_update"@, c.changelog_update) + spec_bool_opt_line(
        "git_release_enable"@,
        c.git_release_enable,
    ) + spec_release_type_opt_line("git_release_type"@, c.git_release_type) + spec_bool_opt_line(
        "git_release_draft"@,
        c.git_release_draft,
    ) + spec_bool_opt_line("git_tag_enable"@, c.git_tag_enable) + spec_bool_opt_line(
        "publish"@,
        c.publish,
    ) + spec_bool_opt_line("publish_allow_dirty"@, c.publish_allow_dirty) + spec_bool_opt_line(
        "publish_no_verify"@,
        c.publish_no_verify,
    ) + spec_bool_opt_line("semver_check"@, c.semver_check) + spec_bool_opt_line(
        "release"@,
        c.release,
    )
}

/// The workspace section: header, the shared field set, then the
/// workspace-only fields in declaration order.
pub open spec fn spec_workspace_block(w: Workspace) -> Seq<char> {
    "[workspace]\n"@ + spec_common_lines(w.packages_defaults) + spec_bool_opt_line(
        "allow_dirty"@,
        w.allow_dirty,
    ) + spec_string_opt_line("changelog_config"@, w.changelog_config) + spec_bool_opt_line(
        "dependencies_update"@,
        w.dependencies_update,
    ) + spec_bool_line("pr_draft"@, w.pr_draft) + spec_list_line("pr_labels"@, w.pr_labels@)
        + spec_string_opt_line("publish_timeout"@, w.publish_timeout) + spec_string_opt_line(
        "repo_url"@,
        w.repo_url,
    )
}

/// One package entry: header, name, the shared field set, then the
/// package-only fields.
pub open spec fn spec_package_block(p: PackageSpecificConfigWithName) -> Seq<char> {
    "\n[[package]]\n"@ + spec_string_line("name"@, p.name@) + spec_common_lines(p.config.common)
        + spec_string_opt_line("changelog_path"@, p.config.changelog_path) + spec_list_opt_line(
        "changelog_include"@,
        p.config.changelog_include,
    )
}

/// The entries of the first `n` packages, in declaration order.
pub open spec fn spec_package_blocks(ps: Seq<PackageSpecificConfigWithName>, n: int) -> Seq<
    char,
>
    decreases n,
{
    if n <= 0 {
        Seq::empty()
    } else {
        spec_package_blocks(ps, n - 1) + spec_package_block(ps[n - 1])
    }
}

/// The whole document: the workspace section, then every package entry.
pub open spec fn spec_document(c: Config) -> Seq<char> {
    spec_workspace_block(c.workspace) + spec_package_blocks(
        c.package@,
        c.package@.len() as int,
    )
}

fn append_bool_line(s: &mut String, key: &str, b: bool)
    ensures
        final(s)@ == old(s)@ + spec_bool_line(key@, b),
{
    s.append(key);
    s.append(" = ");
    if b {
        s.append("true");
    } else {
        s.append("false");
    }
    s.append("\n");
    proof {
        assert(s@ =~= old(s)@ + spec_bool_line(key@, b));
    }
}

fn append_bool_opt_line(s: &mut String, key: &str, v: Option<bool>)
    ensures
        final(s)@ == old(s)@ + spec_bool_opt_line(key@, v),
{
    match v {
        Some(b) => append_bool_line(s, key, b),
        None => {
            proof {
                assert(s@ =~= old(s)@ + spec_bool_opt_line(key@, v));
            }
        },
    }
}

fn append_string_line(s: &mut String, key: &str, v: &str)
    ensures
        final(s)@ == old(s)@ + spec_string_line(key@, v@),
{
    s.append(key);
    s.append(" = \"");
    s.append(v);
    s.append("\"\n");
    proof {
        assert(s@ =~= old(s)@ + spec_string_line(key@, v@));
    }
}

fn append_string_opt_line(s: &mut String, key: &str, v: &Option<String>)
    ensures
        final(s)@ == old(s)@ + spec_string_opt_line(key@, *v),
{
    match v {
        Some(value) => append_string_line(s, key, value.as_str()),
        None => {
            proof {
                assert(s@ =~= old(s)@ + spec_string_opt_line(key@, *v));
            }
        },
    }
}

fn append_release_type_opt_line(s: &mut String, key: &str, v: Option<ReleaseType>)
    ensures
        final(s)@ == old(s)@ + spec_release_type_opt_line(key@, v),
{
    match v {
        Some(ReleaseType::Prod) => append_string_line(s, key, "prod"),
        Some(ReleaseType::Pre) => append_string_line(s, key, "pre"),
        Some(ReleaseType::Auto) => append_string_line(s, key, "auto"),
        None => {
            proof {
                assert(s@ =~= old(s)@ + spec_release_type_opt_line(key@, v));
            }
        },
    }
}

/// The quoted, comma-separated items of a string list.
fn list_items_string(v: &Vec<String>) -> (r: String)
    ensures
        r@ == spec_list_items(v@, v@.len() as int),
{
    let mut r = String::new();
    let mut i: usize = 0;
    while i < v.len()
        invariant
            i <= v@.len(),
            r@ == spec_list_items(v@, i as int),
        decreases v@.len() - i,
    {
        if i > 0 {
            r.append(", ");
        }
        r.append("\"");
        r.append(v[i].as_str());
        r.append("\"");
        proof {
            if i == 0 {
                assert(r@ =~= spec_list_items(v@, 1));
            } else {
                assert(r@ =~= spec_list_items(v@, i as int + 1));
            }
        }
        i += 1;
    }
    r
}

fn append_list_line(s: &mut String, key: &str, v: &Vec<String>)
    ensures
        final(s)@ == old(s)@ + spec_list_line(key@, v@),
{
    let items = list_items_string(v);
    s.append(key);
    s.append(" = [");
    s.append(items.as_str());
    s.append("]\n");
    proof {
        assert(s@ =~= old(s)@ + spec_list_line(key@, v@));
    }
}

fn append_list_opt_line(s: &mut String, key: &str, v: &Option<Vec<String>>)
    ensures
        final(s)@ == old(s)@ + spec_list_opt_line(key@, *v),
{
    match v {
        Some(items) => {
            append_list_line(s, key, items);
            proof {
                assert(s@ =~= old(s)@ + spec_list_opt_line(key@, *v));
            }
        },
        None => {
            proof {
                assert(s@ =~= old(s)@ + spec_list_opt_line(key@, *v));
            }
        },
    }
}

fn append_common_lines(s: &mut String, c: &PackageConfig)
    ensures
        final(s)@ == old(s)@ + spec_common_lines(*c),
{
    append_bool_opt_line(s, "changelog_update", c.changelog_update);
    append_bool_opt_line(s, "git_release_enable", c.git_release_enable);
    append_release_type_opt_line(s, "git_release_type", c.git_release_type);
    append_bool_opt_line(s, "git_release_draft", c.git_release_draft);
    append_bool_opt_line(s, "git_tag_enable", c.git_tag_enable);
    append_bool_opt_line(s, "publish", c.publish);
    append_bool_opt_line(s, "publish_allow_dirty", c.publish_allow_dirty);
    append_bool_opt_line(s, "publish_no_verify", c.publish_no_verify);
    append_bool_opt_line(s, "semver_check", c.semver_check);
    append_bool_opt_line(s, "release", c.release);
    proof {
        assert(s@ =~= old(s)@ + spec_common_lines(*c));
    }
}

fn append_package_block(s: &mut String, p: &PackageSpecificConfigWithName)
    ensures
        final(s)@ == old(s)@ + spec_package_block(*p),
{
    s.append("\n[[package]]\n");
    append_string_line(s, "name", p.name.as_str());
    append_common_lines(s, &p.config.common);
    append_string_opt_line(s, "changelog_path", &p.config.changelog_path);
    append_list_opt_line(s, "changelog_include", &p.config.changelog_include);
    proof {
        assert(s@ =~= old(s)@ + spec_package_block(*p));
    }
}

impl Config {
    /// Write the declared configuration as a TOML document, with the field
    /// names, nesting and order of the configuration file format, and
    /// absent optional fields omitted.
    #[verifier::rlimit(50)]
    pub fn to_toml_string(&self) -> (r: String)
        ensures
            r@ == spec_document(*self),
    {
        let mut s = "[workspace]\n".to_owned();
        append_common_lines(&mut s, &self.workspace.packages_defaults);
        append_bool_opt_line(&mut s, "allow_dirty", self.workspace.allow_dirty);
        append_string_opt_line(&mut s, "changelog_config", &self.workspace.changelog_config);
        append_bool_opt_line(&mut s, "dependencies_update", self.workspace.dependencies_update);
        append_bool_line(&mut s, "pr_draft", self.workspace.pr_draft);
        append_list_line(&mut s, "pr_labels", &self.workspace.pr_labels);
        append_string_opt_line(&mut s, "publish_timeout", &self.workspace.publish_timeout);
        append_string_opt_line(&mut s, "repo_url", &self.workspace.repo_url);
        proof {
            assert(s@ =~= spec_workspace_block(self.workspace));
        }
        let mut idx: usize = 0;
        while idx < self.package.len()
            invariant
                idx <= self.package@.len(),
                s@ == spec_workspace_block(self.workspace) + spec_package_blocks(
                    self.package@,
                    idx as int,
                ),
            decreases self.package@.len() - idx,
        {
            append_package_block(&mut s, &self.package[idx]);
            proof {
                assert(s@ =~= spec_workspace_block(self.workspace) + spec_package_blocks(
                    self.package@,
                    idx as int + 1,
                ));
            }
            idx += 1;
        }
        proof {
            assert(s@ =~= spec_document(*self));
        }
        s
    }
}

} // verus!
