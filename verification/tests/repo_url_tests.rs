use release_plz::repo_url::{GitUrlParts, RepoUrl, RepoUrlError};

const GITHUB_REPO_URL: &str = "https://github.com/MarcoIeni/release-plz";

#[test]
fn gh_release_link_works_for_first_release() {
    let repo = RepoUrl::new(GITHUB_REPO_URL).unwrap();
    let tag = "v0.0.1";
    let expected_url = format!("{GITHUB_REPO_URL}/releases/tag/{tag}");
    // when we are at the first release, we have the prev_tag and the new_tag to be
    // the same as there is no other tag available.
    let release_link = repo.git_release_link(tag, tag);
    assert_eq!(expected_url, release_link);
}

#[test]
fn gh_release_link_for_crates_already_published() {
    let repo = RepoUrl::new(GITHUB_REPO_URL).unwrap();
    let previous_tag = "v0.1.0";
    let next_tag = "v0.5.0";
    // when there is already a previous version, we should use the compare url, with the
    // ranging between the previous tag and the newest one
    let expected_url = format!("{GITHUB_REPO_URL}/compare/{previous_tag}...{next_tag}");
    let release_link = repo.git_release_link(previous_tag, next_tag);
    assert_eq!(expected_url, release_link);
}

#[test]
fn github_url_is_parsed_into_components() {
    let repo = RepoUrl::new("https://github.com/Owner/Repo").unwrap();
    assert_eq!(repo.owner, "Owner");
    assert_eq!(repo.name, "Repo");
    assert_eq!(repo.host, "github.com");
    assert_eq!(repo.scheme, "https");
    assert_eq!(repo.port, None);
    assert!(repo.is_on_github());
}

#[test]
fn scp_style_url_is_parsed_into_components() {
    let repo = RepoUrl::new("git@github.com:MarcoIeni/release-plz.git").unwrap();
    assert_eq!(repo.owner, "MarcoIeni");
    assert_eq!(repo.name, "release-plz");
    assert_eq!(repo.host, "github.com");
    assert!(repo.is_on_github());
}

#[test]
fn pr_link_is_singular_on_github() {
    let repo = RepoUrl::new(GITHUB_REPO_URL).unwrap();
    let link = repo.git_pr_link();
    assert_eq!(link, format!("{GITHUB_REPO_URL}/pull"));
    assert!(link.ends_with("/pull"));
}

#[test]
fn pr_link_is_plural_off_github() {
    let repo = RepoUrl::new("https://gitea.example.com/Owner/Repo").unwrap();
    assert!(!repo.is_on_github());
    let link = repo.git_pr_link();
    assert_eq!(link, "https://gitea.example.com/Owner/Repo/pulls");
    assert!(link.ends_with("/pulls"));
}

#[test]
fn gitea_api_url_without_port() {
    let repo = RepoUrl::new("https://gitea.example.com/Owner/Repo").unwrap();
    assert_eq!(repo.gitea_api_url(), "https://gitea.example.com/api/v1/");
}

#[test]
fn gitea_api_url_with_port() {
    let repo = RepoUrl::new("http://gitea.example.com:8080/Owner/Repo").unwrap();
    assert_eq!(repo.gitea_api_url(), "http://gitea.example.com:8080/api/v1/");
}

#[test]
fn missing_owner_and_missing_host_errors_are_distinct() {
    let no_owner = RepoUrl::from_parts(
        "https://example.com",
        GitUrlParts {
            scheme: "https".to_string(),
            host: Some("example.com".to_string()),
            port: None,
            owner: None,
            name: "repo".to_string(),
        },
    )
    .unwrap_err();
    assert_eq!(
        no_owner,
        RepoUrlError::MissingOwner { url: "https://example.com".to_string() }
    );
    assert_eq!(
        no_owner.message(),
        "cannot find owner in git url https://example.com"
    );

    let no_host = RepoUrl::from_parts(
        "somewhere",
        GitUrlParts {
            scheme: "https".to_string(),
            host: None,
            port: None,
            owner: Some("Owner".to_string()),
            name: "repo".to_string(),
        },
    )
    .unwrap_err();
    assert_eq!(no_host, RepoUrlError::MissingHost { url: "somewhere".to_string() });
    assert_eq!(no_host.message(), "cannot find host in git url somewhere");
    assert_ne!(no_owner, no_host);
}

#[test]
fn file_url_has_no_owner() {
    let err = RepoUrl::new("file:///somepath/repo").unwrap_err();
    assert!(matches!(err, RepoUrlError::MissingOwner { .. }));
    assert!(err.message().contains("owner"));
}

#[test]
fn unparsable_url_is_reported_with_the_string() {
    let err = RepoUrl::new("a:b:c:d").unwrap_err();
    match err {
        RepoUrlError::InvalidUrl { ref url, .. } => {
            assert_eq!(url, "a:b:c:d")
        }
        ref other => panic!("expected an invalid url error, got {other:?}"),
    }
    assert!(err.message().starts_with("cannot parse git url "));
}

#[test]
fn from_repo_without_origin_fails() {
    let err = RepoUrl::from_repo(None).unwrap_err();
    assert_eq!(err, RepoUrlError::MissingOrigin);
    assert_eq!(err.message(), "cannot determine origin url");
}

#[test]
fn from_repo_with_origin_parses_the_remote() {
    let repo = RepoUrl::from_repo(Some(GITHUB_REPO_URL)).unwrap();
    assert_eq!(repo.owner, "MarcoIeni");
    assert_eq!(repo.name, "release-plz");
}

#[test]
fn dot_segment_urls_are_rejected_without_parsing() {
    // the underlying URL parser aborts on ssh-style paths that dot-segment
    // normalization empties; the model must reject them as invalid instead
    for url in [
        "ssh://host/.",
        "ssh://host/x/..",
        "git@host:..",
        "../bare-repo",
        "ssh://host/%2e",
        "ssh:h",
        "ssh://host/?x",
    ] {
        let err = RepoUrl::new(url).unwrap_err();
        assert!(
            matches!(err, RepoUrlError::InvalidUrl { .. }),
            "expected invalid url for {url}, got {err:?}"
        );
        assert!(err.message().starts_with("cannot parse git url "));
    }
}

#[test]
fn azure_devops_urls_are_rejected_without_parsing() {
    // the underlying URL parser aborts on dev.azure.com remotes with short
    // paths; the model rejects that host family as invalid
    for url in [
        "https://dev.azure.com/Owner/Repo",
        "ssh://dev.azure.com/a/b",
        "https://User@DEV.AZURE.COM/Company/Project",
        "git@ssh.dev.azure.com:v3/Company",
    ] {
        let err = RepoUrl::new(url).unwrap_err();
        assert!(
            matches!(err, RepoUrlError::InvalidUrl { .. }),
            "expected invalid url for {url}, got {err:?}"
        );
    }
}
