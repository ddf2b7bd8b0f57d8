use git_releaser::cli::CliArgs;
use git_releaser::git::release_noise;
use git_releaser::error::ReleaseError;
use git_releaser::github::{
    changelog_message, development_message, parse_project_string, publish_result,
    release_message, release_request, tag_name,
};
use git_releaser::version::SemanticVersion;

#[test]
fn project_is_owner_and_repository() {
    assert_eq!(
        parse_project_string("egilsster/test"),
        Some(("egilsster".to_string(), "test".to_string()))
    );
    assert_eq!(
        parse_project_string("a/b/c"),
        Some(("a".to_string(), "b".to_string()))
    );
    assert_eq!(parse_project_string("/"), Some((String::new(), String::new())));
    assert_eq!(parse_project_string("a/"), Some(("a".to_string(), String::new())));
    assert_eq!(parse_project_string("noslash"), None);
    assert_eq!(parse_project_string(""), None);
}

#[test]
fn a_release_is_named_after_its_tag() {
    let request = release_request("v1.0.0", "abc123", "## notes");
    assert_eq!(request.tag_name, "v1.0.0");
    assert_eq!(request.name, "v1.0.0");
    assert_eq!(request.target_commitish, "abc123");
    assert_eq!(request.body, "## notes");
    assert!(!request.draft);
    assert!(!request.prerelease);
}

#[test]
fn messages_of_a_release() {
    let v = SemanticVersion::parse("1.2.3").unwrap();
    let next = SemanticVersion::parse("1.2.4-0").unwrap();
    assert_eq!(tag_name(&v), "v1.2.3");
    assert_eq!(release_message(&v), "chore: releasing 1.2.3");
    assert_eq!(changelog_message(), "docs: updating changelog [ci skip]");
    assert_eq!(
        development_message(&next),
        "chore: beginning development on 1.2.4-0 [ci skip]"
    );
    assert!(release_noise(&release_message(&v)));
    assert!(release_noise(&changelog_message()));
    assert!(release_noise(&development_message(&next)));
}

#[test]
fn settings_hold_what_was_given() {
    let args = CliArgs {
        repo: "egilsster/test".to_string(),
        version_type: "minor".to_string(),
        version_file: "package.json".to_string(),
        personal_token: "token".to_string(),
        main_branch: "main".to_string(),
    };
    assert_eq!(args.repo, "egilsster/test");
    assert_eq!(args.main_branch, "main");
}

#[test]
fn a_release_that_was_not_created_is_a_failure() {
    assert_eq!(publish_result(true), Ok(true));
    assert_eq!(publish_result(false), Err(ReleaseError::ReleasePublishFailed));
}

#[test]
fn project_is_cut_at_slashes_as_std_cuts() {
    for text in ["a/b", "a//b", "/a/b", "a/b/", "é/ü/x", "//"] {
        let parts: Vec<&str> = text.split('/').collect();
        assert_eq!(
            parse_project_string(text),
            Some((parts[0].to_string(), parts[1].to_string()))
        );
    }
}
