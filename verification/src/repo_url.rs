//! A structured model of a git remote URL, and the host-aware links built
//! from it.
//!
//! The model is parsed once from a remote URL string (URL-style or
//! SCP-style) and read-only afterwards. The release and PR links hardcode
//! `https://`; only the API base honors the originally parsed scheme.

use crate::strutil::{
    eq_ci, seq_contains, spec_contains_ci, spec_dec, spec_eq_ci, str_contains, str_contains_ci,
    str_eq, u16_to_dec,
};
use vstd::prelude::*;

verus! {

/// The components of a git remote URL as plain values, exactly as the URL
/// parser reports them.
#[derive(Clone, Debug, PartialEq, Eq)]
pub struct GitUrlParts {
    /// The URL scheme, e.g. `https` or `ssh`.
    pub scheme: String,
    /// The host, where one could be determined.
    pub host: Option<String>,
    /// The port, where the URL spelled one out.
    pub port: Option<u16>,
    /// The owner segment, where one could be determined.
    pub owner: Option<String>,
    /// The repository name.
    pub name: String,
}

/// The view of [`GitUrlParts`]: the same components over sequences.
pub struct GitUrlPartsView {
    pub scheme: Seq<char>,
    pub host: Option<Seq<char>>,
    pub port: Option<u16>,
    pub owner: Option<Seq<char>>,
    pub name: Seq<char>,
}

impl View for GitUrlParts {
    type V = GitUrlPartsView;

    open spec fn view(&self) -> GitUrlPartsView {
        GitUrlPartsView {
            scheme: self.scheme@,
            host: match self.host {
                Some(h) => Some(h@),
                None => None,
            },
            port: self.port,
            owner: match self.owner {
                Some(o) => Some(o@),
                None => None,
            },
            name: self.name@,
        }
    }
}

/// The components that the git URL grammar assigns to a string, or `None`
/// where the string is not a git remote URL.
pub uninterp spec fn git_url_parts_of(s: Seq<char>) -> Option<GitUrlPartsView>;

/// A character outside printable ASCII, a percent sign, or a query or
/// fragment delimiter. Such characters could disguise one of the rejected
/// URL forms below (URL parsing strips tabs and newlines, decodes percent
/// escapes, maps non-ASCII host characters, and splits the path at `?` and
/// `#`), so URLs holding one are rejected outright.
pub open spec fn spec_bad_url_char(c: char) -> bool {
    (c as u32) < 32 || (c as u32) >= 128 || c == '%' || c == '?' || c == '#'
}

/// An `ssh:` scheme prefix at position `i` that is not followed by `//`:
/// the URL parser then reads what follows as an authority-less path, whose
/// first-byte slicing and empty-path splitting the parser does not guard.
pub open spec fn spec_ssh_no_authority_at(s: Seq<char>, i: int) -> bool {
    &&& 0 <= i
    &&& i + 3 < s.len()
    &&& spec_eq_ci(s[i], 's')
    &&& spec_eq_ci(s[i + 1], 's')
    &&& spec_eq_ci(s[i + 2], 'h')
    &&& s[i + 3] == ':'
    &&& !(i + 5 < s.len() && s[i + 4] == '/' && s[i + 5] == '/')
}

/// A path segment starting with a dot: position `i` holds `/` or `:` (the
/// SCP-style separator) followed by `.`.
pub open spec fn spec_sep_dot_at(s: Seq<char>, i: int) -> bool {
    0 <= i && i + 1 < s.len() && (s[i] == '/' || s[i] == ':') && s[i + 1] == '.'
}

/// The remote URL forms the model refuses to hand to the URL parser.
///
/// The parser aborts instead of returning on three families of inputs:
/// ssh-style URLs whose path dot-segments (`.`, `..`) normalize the whole
/// path away, `ssh:` URLs without an authority, and Azure DevOps hosts
/// with fewer path segments than that host's format. This predicate
/// rejects a conservative superset that is simple to state: any URL with
/// a path segment starting with a dot (after `/`, `:` or at the start),
/// any `ssh:` prefix not followed by `//`, any Azure DevOps host, and any
/// character — a percent escape, a query or fragment delimiter, a control
/// or non-ASCII character — that URL normalization could turn into one of
/// those forms.
pub open spec fn spec_unsupported_git_url(s: Seq<char>) -> bool {
    ||| exists|i: int| 0 <= i < s.len() && spec_bad_url_char(#[trigger] s[i])
    ||| s.len() > 0 && s[0] == '.'
    ||| exists|i: int| #[trigger] spec_sep_dot_at(s, i)
    ||| exists|i: int| #[trigger] spec_ssh_no_authority_at(s, i)
    ||| spec_contains_ci(s, "dev.azure.com"@)
}

/// Whether the model refuses to hand this string to the URL parser.
fn unsupported_git_url(url: &str) -> (r: bool)
    ensures
        r == spec_unsupported_git_url(url@),
{
    let len = url.unicode_len();
    let mut has_bad = false;
    let mut has_sep_dot = false;
    let mut prev: char = 'a';
    let mut i: usize = 0;
    while i < len
        invariant
            len == url@.len(),
            i <= len,
            i > 0 ==> prev == url@[i as int - 1],
            has_bad ==> exists|k: int| 0 <= k < i as int && spec_bad_url_char(#[trigger] url@[k]),
            !has_bad ==> forall|k: int|
                0 <= k < i as int ==> !spec_bad_url_char(#[trigger] url@[k]),
            has_sep_dot ==> exists|k: int| #[trigger] spec_sep_dot_at(url@, k),
            !has_sep_dot ==> forall|k: int|
                0 <= k < i as int - 1 ==> !#[trigger] spec_sep_dot_at(url@, k),
        decreases len - i,
    {
        let c = url.get_char(i);
        let cu = c as u32;
        if cu < 32 || cu >= 128 || c == '%' || c == '?' || c == '#' {
            has_bad = true;
        }
        if i > 0 && (prev == '/' || prev == ':') && c == '.' {
            proof {
                assert(spec_sep_dot_at(url@, i as int - 1));
            }
            has_sep_dot = true;
        }
        prev = c;
        i += 1;
    }
    let mut has_ssh_opaque = false;
    let mut j: usize = 0;
    while j < len
        invariant
            len == url@.len(),
            j <= len,
            has_ssh_opaque ==> exists|k: int| #[trigger] spec_ssh_no_authority_at(url@, k),
            !has_ssh_opaque ==> forall|k: int|
                0 <= k < j as int ==> !#[trigger] spec_ssh_no_authority_at(url@, k),
        decreases len - j,
    {
        if len - j >= 4 {
            let hit = eq_ci(url.get_char(j), 's') && eq_ci(url.get_char(j + 1), 's') && eq_ci(
                url.get_char(j + 2),
                'h',
            ) && url.get_char(j + 3) == ':' && !(len - j > 5 && url.get_char(j + 4) == '/'
                && url.get_char(j + 5) == '/');
            if hit {
                proof {
                    assert(spec_ssh_no_authority_at(url@, j as int));
                }
                has_ssh_opaque = true;
            }
        }
        j += 1;
    }
    proof {
        if !has_ssh_opaque && exists|k: int| #[trigger] spec_ssh_no_authority_at(url@, k) {
            let k = choose|k: int| #[trigger] spec_ssh_no_authority_at(url@, k);
            assert(0 <= k < len);
            assert(!spec_ssh_no_authority_at(url@, k));
            assert(false);
        }
    }
    let leading_dot = if len > 0 {
        url.get_char(0) == '.'
    } else {
        false
    };
    let azure = str_contains_ci(url, "dev.azure.com");
    has_bad || leading_dot || has_sep_dot || has_ssh_opaque || azure
}

/// Relies on git_url_parse::GitUrl::parse: the parsed components depend on
/// the characters of the URL string alone, and parsing fails exactly on
/// the strings the git URL grammar rejects. The `requires` keeps out the
/// inputs on which that parser's unchecked indexing aborts instead of
/// returning: dot path segments that can normalize an ssh-style path away,
/// and Azure DevOps hosts with too few path segments (see
/// [`spec_unsupported_git_url`]).
#[verifier::external_body]
fn parse_git_url(url: &str) -> (r: Result<GitUrlParts, String>)
    requires
        !spec_unsupported_git_url(url@),
    ensures
        r is Ok <==> git_url_parts_of(url@) is Some,
        (r matches Ok(p) ==> git_url_parts_of(url@) == Some(p@)),
{
    match git_url_parse::GitUrl::parse(url) {
        Ok(g) => Ok(GitUrlParts {
            scheme: g.scheme.to_string(),
            host: g.host,
            port: g.port,
            owner: g.owner,
            name: g.name,
        }),
        Err(e) => Err(e.to_string()),
    }
}

/// An error of the repository URL model. Missing owner and missing host
/// are distinct conditions with distinguishable messages.
#[derive(Clone, Debug, PartialEq, Eq)]
pub enum RepoUrlError {
    /// The string could not be parsed as a git URL at all.
    InvalidUrl { url: String, reason: String },
    /// The parser found no owner segment in the URL.
    MissingOwner { url: String },
    /// The parser found no host in the URL.
    MissingHost { url: String },
    /// The repository has no origin remote configured.
    MissingOrigin,
}

impl RepoUrlError {
    /// A human-readable description naming the offending string.
    pub fn message(&self) -> (r: String)
        ensures
            (match self {
                RepoUrlError::InvalidUrl { url, reason } => r@ == "cannot parse git url "@ + url@
                    + ": "@ + reason@,
                RepoUrlError::MissingOwner { url } => r@ == "cannot find owner in git url "@
                    + url@,
                RepoUrlError::MissingHost { url } => r@ == "cannot find host in git url "@ + url@,
                RepoUrlError::MissingOrigin => r@ == "cannot determine origin url"@,
            }),
    {
        match self {
            RepoUrlError::InvalidUrl { url, reason } => {
                let mut s = "cannot parse git url ".to_owned();
                s.append(url.as_str());
                s.append(": ");
                s.append(reason.as_str());
                proof {
                    assert(s@ =~= "cannot parse git url "@ + url@ + ": "@ + reason@);
                }
                s
            },
            RepoUrlError::MissingOwner { url } => {
                "cannot find owner in git url ".to_owned().concat(url.as_str())
            },
            RepoUrlError::MissingHost { url } => {
                "cannot find host in git url ".to_owned().concat(url.as_str())
            },
            RepoUrlError::MissingOrigin => "cannot determine origin url".to_owned(),
        }
    }
}

/// A parsed git remote URL: scheme, host, optional port, owner and
/// repository name. Immutable once constructed.
#[derive(Clone, Debug)]
pub struct RepoUrl {
    pub scheme: String,
    pub host: String,
    pub port: Option<u16>,
    pub owner: String,
    pub name: String,
}

/// What [`RepoUrl::new`] returns for a URL string: an `InvalidUrl` error
/// where the model refuses the string or the grammar rejects it, a
/// `MissingOwner` or `MissingHost` error where the respective component is
/// absent, else the model with exactly the parsed components.
pub open spec fn new_post(url: Seq<char>, r: Result<RepoUrl, RepoUrlError>) -> bool {
    if spec_unsupported_git_url(url) {
        r matches Err(e) && e matches RepoUrlError::InvalidUrl { url: u, .. } && u@ == url
    } else {
        new_parsed_post(url, r)
    }
}

/// The outcome of [`RepoUrl::new`] on a string the model hands to the URL
/// parser.
pub open spec fn new_parsed_post(url: Seq<char>, r: Result<RepoUrl, RepoUrlError>) -> bool {
    match git_url_parts_of(url) {
        None => r matches Err(e) && e matches RepoUrlError::InvalidUrl { url: u, .. } && u@
            == url,
        Some(p) => match (p.owner, p.host) {
            (Option::None, _) => r matches Err(e) && e matches RepoUrlError::MissingOwner {
                url: u,
            } && u@ == url,
            (Option::Some(_), Option::None) => r matches Err(e)
                && e matches RepoUrlError::MissingHost { url: u } && u@ == url,
            (Option::Some(o), Option::Some(h)) => r matches Ok(m) && m.scheme@ == p.scheme
                && m.host@ == h && m.port == p.port && m.owner@ == o && m.name@ == p.name,
        },
    }
}

impl RepoUrl {
    /// The `https://{host}/{owner}/{name}` base shared by the release link
    /// and the PR link, whatever scheme was parsed.
    pub open spec fn spec_base(self) -> Seq<char> {
        "https://"@ + self.host@ + "/"@ + self.owner@ + "/"@ + self.name@
    }

    /// A host counts as GitHub iff it contains the substring "github".
    /// This is a deliberate heuristic: a mirror whose host merely contains
    /// the substring is classified as GitHub too.
    pub open spec fn spec_is_on_github(self) -> bool {
        seq_contains(self.host@, "github"@)
    }

    /// The release link: `{base}/releases/tag/{new}` for a first release
    /// (equal tags), else `{base}/compare/{prev}...{new}`.
    pub open spec fn spec_release_link(self, prev: Seq<char>, new: Seq<char>) -> Seq<char> {
        if prev == new {
            self.spec_base() + "/releases/tag/"@ + new
        } else {
            self.spec_base() + "/compare/"@ + prev + "..."@ + new
        }
    }

    /// The PR link: `{base}/pull` on GitHub, `{base}/pulls` elsewhere.
    pub open spec fn spec_pr_link(self) -> Seq<char> {
        self.spec_base() + (if self.spec_is_on_github() {
            "/pull"@
        } else {
            "/pulls"@
        })
    }

    /// The API base: `{scheme}://{host}/api/v1/`, with `:{port}` after the
    /// host exactly when a port was parsed.
    pub open spec fn spec_gitea_api_url(self) -> Seq<char> {
        match self.port {
            Some(p) => self.scheme@ + "://"@ + self.host@ + ":"@ + spec_dec(p as nat)
                + "/api/v1/"@,
            None => self.scheme@ + "://"@ + self.host@ + "/api/v1/"@,
        }
    }

    /// Parse a git remote URL string into the structured model. Strings
    /// in the small unsupported family (dot path segments, Azure DevOps
    /// hosts, percent escapes, control or non-ASCII characters) are
    /// rejected up front with an `InvalidUrl` error.
    pub fn new(git_host_url: &str) -> (r: Result<RepoUrl, RepoUrlError>)
        ensures
            new_post(git_host_url@, r),
    {
        if unsupported_git_url(git_host_url) {
            return Err(
                RepoUrlError::InvalidUrl {
                    url: git_host_url.to_owned(),
                    reason: "unsupported characters or path form".to_owned(),
                },
            );
        }
        match parse_git_url(git_host_url) {
            Ok(parts) => Self::from_parts(git_host_url, parts),
            Err(reason) => Err(
                RepoUrlError::InvalidUrl { url: git_host_url.to_owned(), reason },
            ),
        }
    }

    /// Assemble the model from already-parsed components: fails with a
    /// `MissingOwner` error when no owner segment was found, with a
    /// `MissingHost` error when no host was found, and succeeds otherwise.
    pub fn from_parts(git_host_url: &str, parts: GitUrlParts) -> (r: Result<
        RepoUrl,
        RepoUrlError,
    >)
        ensures
            (match (parts@.owner, parts@.host) {
                (Option::None, _) => r matches Err(e) && e matches RepoUrlError::MissingOwner {
                    url: u,
                } && u@ == git_host_url@,
                (Option::Some(_), Option::None) => r matches Err(e)
                    && e matches RepoUrlError::MissingHost { url: u } && u@ == git_host_url@,
                (Option::Some(o), Option::Some(h)) => r matches Ok(m) && m.scheme@ == parts@.scheme
                    && m.host@ == h && m.port == parts@.port && m.owner@ == o && m.name@
                    == parts@.name,
            }),
    {
        let GitUrlParts { scheme, host, port, owner, name } = parts;
        let owner = match owner {
            Some(o) => o,
            None => {
                return Err(RepoUrlError::MissingOwner { url: git_host_url.to_owned() });
            },
        };
        let host = match host {
            Some(h) => h,
            None => {
                return Err(RepoUrlError::MissingHost { url: git_host_url.to_owned() });
            },
        };
        Ok(RepoUrl { scheme, host, port, owner, name })
    }

    /// Build the model from a repository's configured origin remote URL.
    /// `origin_url` is the remote URL as read from the repository, or
    /// `None` where no origin remote is configured.
    pub fn from_repo(origin_url: Option<&str>) -> (r: Result<RepoUrl, RepoUrlError>)
        ensures
            (match origin_url {
                None => r matches Err(e) && e == RepoUrlError::MissingOrigin,
                Some(u) => new_post(u@, r),
            }),
    {
        match origin_url {
            Some(u) => Self::new(u),
            None => Err(RepoUrlError::MissingOrigin),
        }
    }

    /// True iff the host contains the substring "github".
    pub fn is_on_github(&self) -> (r: bool)
        ensures
            r == self.spec_is_on_github(),
    {
        str_contains(self.host.as_str(), "github")
    }

    /// The `https://{host}/{owner}/{name}` base of the release and PR
    /// links.
    fn base(&self) -> (r: String)
        ensures
            r@ == self.spec_base(),
    {
        let mut s = "https://".to_owned();
        s.append(self.host.as_str());
        s.append("/");
        s.append(self.owner.as_str());
        s.append("/");
        s.append(self.name.as_str());
        proof {
            assert(s@ =~= self.spec_base());
        }
        s
    }

    /// Get the GitHub/Gitea release link. When `prev_tag == new_tag` (the
    /// first release, where no prior tag exists) this is the tag page,
    /// else the compare page between the two tags.
    pub fn git_release_link(&self, prev_tag: &str, new_tag: &str) -> (r: String)
        ensures
            r@ == self.spec_release_link(prev_tag@, new_tag@),
    {
        let mut s = self.base();
        if str_eq(prev_tag, new_tag) {
            s.append("/releases/tag/");
            s.append(new_tag);
            proof {
                assert(s@ =~= self.spec_release_link(prev_tag@, new_tag@));
            }
            s
        } else {
            s.append("/compare/");
            s.append(prev_tag);
            s.append("...");
            s.append(new_tag);
            proof {
                assert(s@ =~= self.spec_release_link(prev_tag@, new_tag@));
            }
            s
        }
    }

    /// The pull-request listing link: GitHub uses `/pull`, Gitea `/pulls`.
    pub fn git_pr_link(&self) -> (r: String)
        ensures
            r@ == self.spec_pr_link(),
    {
        let mut s = self.base();
        if self.is_on_github() {
            s.append("/pull");
        } else {
            s.append("/pulls");
        }
        proof {
            assert(s@ =~= self.spec_pr_link());
        }
        s
    }

    /// The Gitea REST API base. This is the only link builder that honors
    /// the originally parsed scheme.
    pub fn gitea_api_url(&self) -> (r: String)
        ensures
            r@ == self.spec_gitea_api_url(),
    {
        let mut s = self.scheme.clone();
        s.append("://");
        s.append(self.host.as_str());
        match self.port {
            Some(p) => {
                s.append(":");
                let digits = u16_to_dec(p);
                s.append(digits.as_str());
            },
            None => {},
        }
        s.append("/api/v1/");
        proof {
            assert(s@ =~= self.spec_gitea_api_url());
        }
        s
    }
}

/// The PR link ends in "/pull" for a GitHub host and in "/pulls" for any
/// other host.
pub proof fn lemma_pr_link_suffix(u: RepoUrl)
    ensures
        u.spec_is_on_github() ==> u.spec_pr_link().subrange(
            u.spec_pr_link().len() as int - 5,
            u.spec_pr_link().len() as int,
        ) == "/pull"@,
        !u.spec_is_on_github() ==> u.spec_pr_link().subrange(
            u.spec_pr_link().len() as int - 6,
            u.spec_pr_link().len() as int,
        ) == "/pulls"@,
{
    reveal_strlit("/pull");
    reveal_strlit("/pulls");
    if u.spec_is_on_github() {
        assert(u.spec_pr_link().subrange(
            u.spec_base().len() as int,
            u.spec_base().len() as int + 5,
        ) =~= "/pull"@);
    } else {
        assert(u.spec_pr_link().subrange(
            u.spec_base().len() as int,
            u.spec_base().len() as int + 6,
        ) =~= "/pulls"@);
    }
}

/// The API base includes `:{port}` exactly when the parsed URL spelled a
/// port out, and is otherwise `{scheme}://{host}/api/v1/` verbatim.
pub proof fn lemma_api_url_port(u: RepoUrl)
    ensures
        (match u.port {
            Some(p) => u.spec_gitea_api_url() == u.scheme@ + "://"@ + u.host@ + ":"@ + spec_dec(
                p as nat,
            ) + "/api/v1/"@,
            None => u.spec_gitea_api_url() == u.scheme@ + "://"@ + u.host@ + "/api/v1/"@,
        }),
{
}

} // verus!
