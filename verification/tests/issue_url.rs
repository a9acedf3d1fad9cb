use crashreport::provider::{
    recover_github_body, recover_gitlab_body, IssueUrl, RepoUrl, RepositoryProvider,
};
use crashreport::report::{format_report_body, CargoPanicMetadata};

fn widget_metadata() -> CargoPanicMetadata {
    CargoPanicMetadata {
        version: "1.2.3".to_string(),
        pkg_name: "widget".to_string(),
        crate_name: "widget_core".to_string(),
    }
}

fn github_base() -> RepoUrl {
    RepoUrl {
        origin: "https://github.com".to_string(),
        path: "/acme/widget".to_string(),
        query: None,
        fragment: None,
    }
}

fn gitlab_base() -> RepoUrl {
    RepoUrl {
        origin: "https://gitlab.com".to_string(),
        path: "/acme/widget".to_string(),
        query: None,
        fragment: None,
    }
}

#[test]
fn body_has_expected_shape() {
    let body = format_report_body(
        "index out of bounds",
        "linux",
        "x86_64",
        "T0",
        &widget_metadata(),
    );
    let expected = [
        "\n<h2>Information</h2>\n\n<!-- Please describe what happened to the best of your ability here -->",
        "\n<h3>Error</h3>\n\n```",
        "index out of bounds",
        "```",
        "\n<h3>Additional Info</h3>\n\n```",
        "OS: linux",
        "Architecture: x86_64",
        "Timestamp: T0",
        "Version: 1.2.3",
        "Package: widget",
        "Crate: widget_core",
        "```\n",
        "---",
        "*This issue was auto-generated by the [`crashreport`](https://github.com/ewpratten/crashreport-rs) crate.*",
        "*If you would like to improve these diagnostics, please contribute on GitHub.*",
    ]
    .join("\n");
    assert_eq!(body, expected);
}

#[test]
fn body_labels_occur_once_in_order() {
    let body = format_report_body("boom", "linux", "x86_64", "T0", &widget_metadata());
    let labels = [
        "OS: ",
        "Architecture: ",
        "Timestamp: ",
        "Version: ",
        "Package: ",
        "Crate: ",
    ];
    let mut last = 0;
    for label in labels {
        assert_eq!(
            body.matches(label).count(),
            1,
            "label {label:?} must occur exactly once"
        );
        let at = body.find(label).unwrap();
        assert!(at >= last, "label {label:?} out of order");
        last = at;
    }
}

#[test]
fn github_scenario() {
    let provider = RepositoryProvider::GitHub(github_base());
    let url = provider.build_issue_url(
        "index out of bounds",
        "linux",
        "x86_64",
        "T0",
        &widget_metadata(),
    );
    assert_eq!(url.origin, "https://github.com");
    assert_eq!(url.path, "/acme/widget/issues/new");
    assert!(url.query.starts_with("body="));
    assert!(url.query.ends_with("&labels=bug"));
    assert!(url.query.contains("labels=bug"));
    let value = &url.query["body=".len()..url.query.len() - "&labels=bug".len()];
    let decoded = urlencoding::decode(value).unwrap();
    assert!(decoded.contains("Version: 1.2.3"));
    assert!(decoded.contains("Package: widget"));
    assert!(decoded.contains("Crate: widget_core"));
    assert!(decoded.contains("index out of bounds"));
}

#[test]
fn gitlab_scenario() {
    let provider = RepositoryProvider::GitLab(gitlab_base());
    let url = provider.build_issue_url(
        "index out of bounds",
        "linux",
        "x86_64",
        "T0",
        &widget_metadata(),
    );
    assert_eq!(url.origin, "https://gitlab.com");
    assert_eq!(url.path, "/acme/widget/issues/new");
    assert!(url.query.starts_with("issue[description]="));
    assert!(url.query.ends_with("&issuable_template=bug"));
    assert!(url.query.contains("issuable_template=bug"));
}

#[test]
fn query_value_round_trips_github() {
    let provider = RepositoryProvider::GitHub(github_base());
    let body = format_report_body("boom: très mal / 100%", "linux", "x86_64", "T0", &widget_metadata());
    let url = provider.build_issue_url(
        "boom: très mal / 100%",
        "linux",
        "x86_64",
        "T0",
        &widget_metadata(),
    );
    let recovered = recover_github_body(&url.query).expect("query must decode");
    assert_eq!(recovered, body);
}

#[test]
fn query_value_round_trips_gitlab() {
    let provider = RepositoryProvider::GitLab(gitlab_base());
    let body = format_report_body("boom\nline two", "macos", "aarch64", "T1", &widget_metadata());
    let url = provider.build_issue_url(
        "boom\nline two",
        "macos",
        "aarch64",
        "T1",
        &widget_metadata(),
    );
    let recovered = recover_gitlab_body(&url.query).expect("query must decode");
    assert_eq!(recovered, body);
}

#[test]
fn recover_refuses_short_queries() {
    assert!(recover_github_body("body=").is_none());
    assert!(recover_gitlab_body("issue[description]=").is_none());
}

#[test]
fn query_is_fully_percent_encoded() {
    let provider = RepositoryProvider::GitHub(github_base());
    let url = provider.build_issue_url("space and\nnewline", "linux", "x86_64", "T0", &widget_metadata());
    assert!(url
        .query
        .chars()
        .all(|c| c.is_ascii_alphanumeric() || "-._~%&=".contains(c)));
    assert!(url.query.contains("%20"));
    assert!(url.query.contains("%0A"));
}

#[test]
fn timestamp_is_the_only_difference() {
    let provider = RepositoryProvider::GitHub(github_base());
    let md = widget_metadata();
    let body1 = format_report_body("boom", "linux", "x86_64", "TS-ONE", &md);
    let body2 = format_report_body("boom", "linux", "x86_64", "TS-TWO", &md);
    let url1 = provider.build_issue_url("boom", "linux", "x86_64", "TS-ONE", &md);
    let url2 = provider.build_issue_url("boom", "linux", "x86_64", "TS-TWO", &md);
    assert_eq!(url1.origin, url2.origin);
    assert_eq!(url1.path, url2.path);
    assert_eq!(body1.replacen("TS-ONE", "TS-TWO", 1), body2);
    // The queries differ only in the encoding of the timestamp itself:
    // the encoded prefix and suffix around it are shared.
    let at = body1.find("TS-ONE").unwrap();
    let before = &body1[..at];
    let after = &body1[at + "TS-ONE".len()..];
    let expected1 = format!(
        "body={}{}{}&labels=bug",
        urlencoding::encode(before),
        urlencoding::encode("TS-ONE"),
        urlencoding::encode(after)
    );
    let expected2 = format!(
        "body={}{}{}&labels=bug",
        urlencoding::encode(before),
        urlencoding::encode("TS-TWO"),
        urlencoding::encode(after)
    );
    assert_eq!(url1.query, expected1);
    assert_eq!(url2.query, expected2);
}

#[test]
fn identical_inputs_give_identical_urls() {
    let md = widget_metadata();
    let provider = RepositoryProvider::GitHub(github_base());
    let url1 = provider.build_issue_url("boom", "linux", "x86_64", "T0", &md);
    let url2 = provider.build_issue_url("boom", "linux", "x86_64", "T0", &md);
    assert_eq!(url1.serialization(), url2.serialization());
}

#[test]
fn base_query_is_replaced_and_fragment_kept() {
    let base = RepoUrl {
        origin: "https://github.com".to_string(),
        path: "/acme/widget".to_string(),
        query: Some("old=1".to_string()),
        fragment: Some("readme".to_string()),
    };
    let provider = RepositoryProvider::GitHub(base);
    let url = provider.build_issue_url("boom", "linux", "x86_64", "T0", &widget_metadata());
    assert!(!url.query.contains("old=1"));
    assert_eq!(url.fragment.as_deref(), Some("readme"));
    let s = url.serialization();
    assert!(s.starts_with("https://github.com/acme/widget/issues/new?body="));
    assert!(s.ends_with("#readme"));
}

#[test]
fn trailing_slash_base_path_is_kept_verbatim() {
    let base = RepoUrl {
        origin: "https://github.com".to_string(),
        path: "/acme/widget/".to_string(),
        query: None,
        fragment: None,
    };
    let provider = RepositoryProvider::GitHub(base);
    let url = provider.build_issue_url("boom", "linux", "x86_64", "T0", &widget_metadata());
    assert_eq!(url.path, "/acme/widget//issues/new");
}

#[test]
fn serialization_concatenates_the_parts() {
    let url = IssueUrl {
        origin: "https://example.com:8080".to_string(),
        path: "/p/issues/new".to_string(),
        query: "body=x&labels=bug".to_string(),
        fragment: None,
    };
    assert_eq!(
        url.serialization(),
        "https://example.com:8080/p/issues/new?body=x&labels=bug"
    );
}

#[test]
fn output_agrees_with_the_url_crate() {
    let base = url::Url::parse("https://user:pw@example.com:8080/a/b?old=1#sec").unwrap();
    let repo = RepoUrl {
        origin: base[..url::Position::BeforePath].to_string(),
        path: base.path().to_string(),
        query: base.query().map(|q| q.to_string()),
        fragment: base.fragment().map(|f| f.to_string()),
    };
    let provider = RepositoryProvider::GitLab(repo);
    let issue = provider.build_issue_url("boom !", "linux", "x86_64", "T0", &widget_metadata());
    let parsed = url::Url::parse(&issue.serialization()).unwrap();
    assert_eq!(parsed.scheme(), "https");
    assert_eq!(parsed.username(), "user");
    assert_eq!(parsed.password(), Some("pw"));
    assert_eq!(parsed.host_str(), Some("example.com"));
    assert_eq!(parsed.port(), Some(8080));
    assert_eq!(parsed.path(), "/a/b/issues/new");
    assert_eq!(parsed.query(), Some(issue.query.as_str()));
    assert_eq!(parsed.fragment(), Some("sec"));
    let recovered = recover_gitlab_body(parsed.query().unwrap()).unwrap();
    assert!(recovered.contains("boom !"));
}

#[test]
fn empty_crash_details_still_build() {
    let provider = RepositoryProvider::GitHub(github_base());
    let url = provider.build_issue_url("", "linux", "x86_64", "T0", &widget_metadata());
    let recovered = recover_github_body(&url.query).unwrap();
    assert!(recovered.contains("<h3>Error</h3>"));
    assert!(recovered.contains("OS: linux"));
}
