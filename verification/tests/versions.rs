use cask::repo::{new, parse_tag_listing, GitError, GitTag};
use cask::version::{select_version, strip_prefix, versions_from_tags, SelectError};

fn prune_listing() -> String {
    let pairs = [
        ("30510408d1aa8d60ba1652e496b98d2739f12ef0", "v0.1.0"),
        ("bced83687a38f0a1f38b62f46b684373dc432109", "v0.1.1"),
        ("4f0f6aa2fe46549af49acb539ed041cd2b5fc192", "v0.2.0"),
        ("a80ba36c8b526281fa2d61e3bd0e105cdb9361d4", "v0.2.1"),
        ("689061589b0e0d728ea7f8f2d0923499957c8381", "v0.2.10"),
        ("1d023ac817e8168f2ce0e21a7d8ec5c269f99af4", "v0.2.11"),
        ("e2e87e7e9ddbcdfcb14bf0a2652eb5e05717e914", "v0.2.12"),
        ("96e1a60529f9dd5601818f1abcf017b39ec303b8", "v0.2.13"),
        ("462ed6570a0724ccb7b071016775e38c13b8f0cc", "v0.2.14"),
        ("7dede228a7d9521daae58ce4b5bd418e35474285", "v0.2.2"),
        ("24772db9ce73faa05cd9be6c4ee1fa3e18e1e634", "v0.2.3"),
        ("b5860a2a9aff28c4fe66e359f09bcdb293fbb8b1", "v0.2.4"),
        ("2172887b3387094e7ddb161827cdd1dbd12d2f30", "v0.2.5"),
        ("cba31715f0383b1158e9a0702f757fed00624187", "v0.2.6"),
        ("c46dcc5111d4b5906887b674c406f259b3f33f1b", "v0.2.7"),
        ("faf36650ea10a2f688dfdb7a2183efb309387361", "v0.2.8"),
        ("685610fae7cfb2152ce6a50cd43c5f751850300f", "v0.2.9"),
    ];
    let mut out = String::new();
    for (hash, tag) in pairs {
        out.push_str(hash);
        out.push('\t');
        out.push_str("refs/tags/");
        out.push_str(tag);
        out.push('\n');
    }
    out
}

#[test]
fn test_invalid_url() {
    assert!(new("invalid_url").is_err());
}

#[test]
fn test_valid_url() {
    let repo = new("https://github.com/axetroy/cask.rs.git").unwrap();
    assert_eq!(repo.remote(), "https://github.com/axetroy/cask.rs.git");
}

#[test]
fn test_host_only_url_is_refused_not_aborted() {
    // A web address without a repository path is rejected with an error,
    // never a crash.
    assert!(new("https://github.com").is_err());
}

#[test]
fn test_ssh_style_address_is_refused() {
    // Only the web protocols are accepted as repository addresses; the
    // fetch paths never build any other form.
    assert!(new("git@github.com:axetroy/cask.rs.git").is_err());
}

#[test]
fn test_tags() {
    let listing = prune_listing();
    let tags = parse_tag_listing(&listing).unwrap();

    let expect: Vec<GitTag> = vec![
        GitTag {
            hash: "30510408d1aa8d60ba1652e496b98d2739f12ef0".to_string(),
            tag: "v0.1.0".to_string(),
        },
        GitTag {
            hash: "bced83687a38f0a1f38b62f46b684373dc432109".to_string(),
            tag: "v0.1.1".to_string(),
        },
        GitTag {
            hash: "4f0f6aa2fe46549af49acb539ed041cd2b5fc192".to_string(),
            tag: "v0.2.0".to_string(),
        },
    ];
    assert_eq!(tags.len(), 17);
    assert_eq!(tags[0], expect[0]);
    assert_eq!(tags[1], expect[1]);
    assert_eq!(tags[2], expect[2]);
    assert_eq!(tags[16].tag, "v0.2.9");
}

#[test]
fn test_parse_tag_listing_bad_line() {
    let r = parse_tag_listing("only-one-field\n");
    match r {
        Err(GitError::ParseTagError { row }) => assert_eq!(row, "only-one-field"),
        _ => panic!("expected the parse failure"),
    }
}

#[test]
fn test_parse_tag_listing_empty() {
    let tags = parse_tag_listing("").unwrap();
    assert!(tags.is_empty());
}

#[test]
fn test_get_versions() {
    let listing = prune_listing();
    let tags = parse_tag_listing(&listing).unwrap();
    let versions = versions_from_tags(&tags);

    let expect: Vec<String> = vec![
        "0.2.14", "0.2.13", "0.2.12", "0.2.11", "0.2.10", "0.2.9", "0.2.8", "0.2.7", "0.2.6",
        "0.2.5", "0.2.4", "0.2.3", "0.2.2", "0.2.1", "0.2.0", "0.1.1", "0.1.0",
    ]
    .into_iter()
    .map(|f| f.to_string())
    .collect();

    assert_eq!(versions, expect);
}

#[test]
fn test_versions() {
    let listing = prune_listing();
    let tags = parse_tag_listing(&listing).unwrap();
    let versions = versions_from_tags(&tags);

    let expect: Vec<String> = vec![
        "0.2.14", "0.2.13", "0.2.12", "0.2.11", "0.2.10", "0.2.9", "0.2.8", "0.2.7", "0.2.6",
        "0.2.5", "0.2.4", "0.2.3", "0.2.2", "0.2.1", "0.2.0", "0.1.1", "0.1.0",
    ]
    .into_iter()
    .map(|f| f.to_string())
    .collect();

    assert_eq!(versions, expect);
}

#[test]
fn test_versions_discard_prerelease() {
    let tags = vec![
        GitTag {
            hash: "a".to_string(),
            tag: "v1.0.0".to_string(),
        },
        GitTag {
            hash: "b".to_string(),
            tag: "v2.0.0-beta.1".to_string(),
        },
        GitTag {
            hash: "c".to_string(),
            tag: "not-a-version".to_string(),
        },
        GitTag {
            hash: "d".to_string(),
            tag: "v1.2.0".to_string(),
        },
    ];
    let versions = versions_from_tags(&tags);
    assert_eq!(versions, vec!["1.2.0".to_string(), "1.0.0".to_string()]);
}

#[test]
fn test_versions_empty_tags() {
    let tags: Vec<GitTag> = vec![];
    let versions = versions_from_tags(&tags);
    assert!(versions.is_empty());
}

#[test]
fn test_strip_prefix() {
    assert_eq!(strip_prefix("v1.2.3"), "1.2.3");
    assert_eq!(strip_prefix("release-1.0.0"), "1.0.0");
    assert_eq!(strip_prefix("1.2.3"), "1.2.3");
    assert_eq!(strip_prefix("nodigits"), "");
}

#[test]
fn test_select_version_bare_pin_is_a_range() {
    // A bare version pin goes through the constraint matcher, where it
    // reads as a caret range: the newest compatible version wins.
    let versions: Vec<String> = vec!["1.2.0", "1.1.0", "1.0.0"]
        .into_iter()
        .map(|s| s.to_string())
        .collect();
    let picked = select_version("1.1.0", &versions).unwrap();
    assert_eq!(picked, "1.2.0");
}

#[test]
fn test_select_version_exact_operator() {
    let versions: Vec<String> = vec!["1.2.0", "1.1.0", "1.0.0"]
        .into_iter()
        .map(|s| s.to_string())
        .collect();
    let picked = select_version("=1.1.0", &versions).unwrap();
    assert_eq!(picked, "1.1.0");
}

#[test]
fn test_select_version_range_takes_newest() {
    let versions: Vec<String> = vec!["2.0.0", "1.2.0", "1.1.0", "1.0.0"]
        .into_iter()
        .map(|s| s.to_string())
        .collect();
    let picked = select_version("^1.0.0", &versions).unwrap();
    assert_eq!(picked, "1.2.0");
}

#[test]
fn test_select_version_invalid_constraint() {
    let versions: Vec<String> = vec!["1.0.0".to_string()];
    let r = select_version("not a requirement !!", &versions);
    assert_eq!(r, Err(SelectError::InvalidConstraint));
}

#[test]
fn test_select_version_no_match() {
    let versions: Vec<String> = vec!["1.0.0".to_string()];
    let r = select_version("^2.0.0", &versions);
    assert_eq!(r, Err(SelectError::NoMatch));
}
