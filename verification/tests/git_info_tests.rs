use catch_cli::git_info::{
    get_git_remote_url, get_repo_info, is_long_enough, parse_github_url, validate, GitInfoError,
};

#[test]
fn test_parse_github_url_ssh() {
    let url = "git@github.com:user/repo.git";
    let result = parse_github_url(url);
    assert!(result.is_ok());
    let (org, repo) = result.unwrap();
    assert_eq!(org, "user");
    assert_eq!(repo, "repo");
}

#[test]
fn test_parse_github_url_https() {
    let url = "https://github.com/user/repo.git";
    let result = parse_github_url(url);
    assert!(result.is_ok());
    let (org, repo) = result.unwrap();
    assert_eq!(org, "user");
    assert_eq!(repo, "repo");
}

#[test]
fn test_parse_github_url_git() {
    let url = "git://github.com/user/repo.git";
    let result = parse_github_url(url);
    assert!(result.is_ok());
    let (org, repo) = result.unwrap();
    assert_eq!(org, "user");
    assert_eq!(repo, "repo");
}

#[test]
fn test_parse_github_url_no_git_extension() {
    let url = "https://github.com/user/repo";
    let result = parse_github_url(url);
    assert!(result.is_ok());
    let (org, repo) = result.unwrap();
    assert_eq!(org, "user");
    assert_eq!(repo, "repo");
}

#[test]
fn parse_github_url_takes_a_configuration_line() {
    let (org, repo) = parse_github_url("\turl = https://github.com/catch-org/catch-cli.git \n").unwrap();
    assert_eq!(org, "catch-org");
    assert_eq!(repo, "catch-cli");
}

#[test]
fn parse_github_url_without_slash_is_refused() {
    let result = parse_github_url("  git@github.com:lonely.git ");
    assert_eq!(result, Err("Unable to parse GitHub URL: lonely".to_string()));
    assert_eq!(
        parse_github_url(""),
        Err("Unable to parse GitHub URL: ".to_string())
    );
}

#[test]
fn parse_github_url_takes_the_first_two_parts() {
    let (org, repo) = parse_github_url("https://example.com/user/repo").unwrap();
    assert_eq!(org, "https:");
    assert_eq!(repo, "");
    let (org, repo) = parse_github_url("owner/name/extra/more").unwrap();
    assert_eq!(org, "owner");
    assert_eq!(repo, "name");
    let (org, repo) = parse_github_url("owner/").unwrap();
    assert_eq!(org, "owner");
    assert_eq!(repo, "");
}

#[test]
fn parse_github_url_strips_only_one_ending_and_keeps_unicode() {
    let (org, repo) = parse_github_url("git@github.com:組織/リポ.git.git").unwrap();
    assert_eq!(org, "組織");
    assert_eq!(repo, "リポ.git");
    let (org, repo) = parse_github_url("\u{3000}git://github.com/a/b\u{2003}").unwrap();
    assert_eq!(org, "a");
    assert_eq!(repo, "b");
}

fn config(lines: &[&str]) -> Vec<String> {
    lines.iter().map(|l| l.to_string()).collect()
}

#[test]
fn test_get_git_remote_url() {
    let lines = config(&[
        "[core]",
        "\trepositoryformatversion = 0",
        "\tfilemode = false",
        "\tbare = false",
        "[remote \"origin\"]",
        "\turl = https://github.com/user/repo.git",
        "\tfetch = +refs/heads/*:refs/remotes/origin/*",
    ]);

    let result = get_git_remote_url(&lines);
    assert!(result.is_ok());
    assert_eq!(result.unwrap(), "https://github.com/user/repo.git");
}

#[test]
fn test_get_git_remote_url_no_git_dir() {
    let lines = config(&[]);

    let result = get_git_remote_url(&lines);
    assert!(result.is_err());
}

#[test]
fn remote_url_is_read_from_the_origin_section_only() {
    let other_remote = config(&[
        "[remote \"upstream\"]",
        "\turl = https://github.com/up/stream.git",
    ]);
    assert_eq!(get_git_remote_url(&other_remote), Err(GitInfoError::RemoteUrlNotFound));
    let url_after_next_section = config(&[
        "  [remote \"origin\"]  ",
        "\tfetch = +refs/heads/*:refs/remotes/origin/*",
        "[branch \"main\"]",
        "\turl = https://github.com/late/late.git",
    ]);
    assert_eq!(get_git_remote_url(&url_after_next_section), Err(GitInfoError::RemoteUrlNotFound));
    let two_origins = config(&[
        "[remote \"origin\"]",
        "url = url = git@github.com:first/one.git",
        "[remote \"origin\"]",
        "url = git@github.com:second/two.git",
    ]);
    assert_eq!(get_git_remote_url(&two_origins).unwrap(), "git@github.com:first/one.git");
    let no_space = config(&["[remote \"origin\"]", "url=https://github.com/a/b"]);
    assert_eq!(get_git_remote_url(&no_space), Err(GitInfoError::RemoteUrlNotFound));
}

#[test]
fn form_defaults_come_from_the_configuration() {
    assert_eq!(get_repo_info(None), Ok(("".to_string(), "".to_string())));
    let none = config(&["[core]"]);
    assert_eq!(get_repo_info(Some(&none)), Ok(("".to_string(), "".to_string())));
    let good = config(&["[remote \"origin\"]", "\turl = git@github.com:catch-org/catch-cli.git"]);
    assert_eq!(
        get_repo_info(Some(&good)),
        Ok(("catch-org".to_string(), "catch-cli".to_string()))
    );
    let bad = config(&["[remote \"origin\"]", "\turl = nowhere"]);
    assert_eq!(
        get_repo_info(Some(&bad)),
        Err(GitInfoError::UnparsableUrl("Unable to parse GitHub URL: nowhere".to_string()))
    );
}

#[test]
fn names_need_two_characters_as_seen() {
    assert!(!validate(""));
    assert!(!validate("a"));
    assert!(validate("ab"));
    assert!(validate("catch-org"));
    // one cluster, several code points
    assert!(!validate("e\u{301}"));
    assert!(!validate("🇷🇺"));
    assert!(!validate("\r\n"));
    assert!(validate("e\u{301}x"));
    assert!(validate("🇷🇺🇸🇹"));
    assert!(!is_long_enough(0));
    assert!(!is_long_enough(1));
    assert!(is_long_enough(2));
    assert!(is_long_enough(usize::MAX));
}
