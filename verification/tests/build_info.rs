use semantic_editor::build_info::{about_text, app_name, info, join_entries, user_agent, version, BuildInfo};

fn full() -> BuildInfo {
    BuildInfo {
        package_version: "0.1.0".to_string(),
        commit: Some("1a2b3c4".to_string()),
        rust_version: "1.80.0".to_string(),
        os_name: "linux".to_string(),
        arch: "x86_64".to_string(),
        vendor: "unknown".to_string(),
        abi: Some("gnu".to_string()),
    }
}

fn bare() -> BuildInfo {
    BuildInfo { commit: None, abi: None, ..full() }
}

fn pairs(v: &[(&str, &str)]) -> Vec<(String, String)> {
    v.iter().map(|(k, v)| (k.to_string(), v.to_string())).collect()
}

#[test]
fn names_and_versions() {
    assert_eq!(app_name(), "semantic-editor");
    assert_eq!(version(&full()), "0.1.0-1a2b3c4");
    assert_eq!(version(&bare()), "0.1.0");
}

#[test]
fn build_facts_in_order() {
    assert_eq!(info(&full()), pairs(&[
        ("semantic-editor", "0.1.0-1a2b3c4"),
        ("rust", "1.80.0"),
        ("git-commit", "1a2b3c4"),
        ("os", "linux"),
        ("arch", "x86_64"),
        ("vendor", "unknown"),
        ("abi", "gnu"),
    ]));
    assert_eq!(info(&bare()), pairs(&[
        ("semantic-editor", "0.1.0"),
        ("rust", "1.80.0"),
        ("os", "linux"),
        ("arch", "x86_64"),
        ("vendor", "unknown"),
    ]));
}

#[test]
fn user_agents() {
    assert_eq!(
        user_agent(&full()),
        "semantic-editor/0.1.0-1a2b3c4 rust/1.80.0 git-commit/1a2b3c4 os/linux arch/x86_64 vendor/unknown abi/gnu"
    );
    assert_eq!(user_agent(&bare()), "semantic-editor/0.1.0 rust/1.80.0 os/linux arch/x86_64 vendor/unknown");
}

#[test]
fn about_lists_the_build() {
    assert_eq!(
        about_text(&bare()),
        "The Semantic Editor \u{2014} Next generation editing\n\nBUILD INFORMATION:\n    \
         semantic-editor: 0.1.0\n    rust: 1.80.0\n    os: linux\n    arch: x86_64\n    vendor: unknown"
    );
}

#[test]
fn joining_entries() {
    assert_eq!(join_entries(&pairs(&[]), "=", ","), "");
    assert_eq!(join_entries(&pairs(&[("a", "1")]), "=", ","), "a=1");
    assert_eq!(join_entries(&pairs(&[("a", "1"), ("b", "2")]), "=", ", "), "a=1, b=2");
}
