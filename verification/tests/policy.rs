use milyai::policy::{
    check_app_allowed, check_host_allowed, check_path_allowed, check_url_allowed, CanonicalPath,
    PolicyViolation,
};
use milyai::settings::Settings;

fn list(items: &[&str]) -> Option<Vec<String>> {
    Some(items.iter().map(|s| s.to_string()).collect())
}

fn path(components: &[&str]) -> CanonicalPath {
    CanonicalPath { components: components.iter().map(|s| s.to_string()).collect() }
}

#[test]
fn deny_wins_when_host_is_on_both_lists() {
    let mut settings = Settings::default();
    settings.deny_domains = list(&["example.com"]);
    settings.allow_domains = list(&["example.com"]);
    assert_eq!(
        check_url_allowed(&settings, "https://example.com/page"),
        Err(PolicyViolation::DomainDenied)
    );
}

#[test]
fn url_without_rules_is_allowed() {
    let settings = Settings::default();
    assert_eq!(check_url_allowed(&settings, "https://example.com/"), Ok(()));
}

#[test]
fn text_that_is_no_url_is_allowed() {
    let mut settings = Settings::default();
    settings.deny_domains = list(&["example.com"]);
    settings.allow_domains = list(&["rust-lang.org"]);
    assert_eq!(check_url_allowed(&settings, "not a url example.com"), Ok(()));
}

#[test]
fn url_without_host_is_allowed() {
    let mut settings = Settings::default();
    settings.allow_domains = list(&["rust-lang.org"]);
    assert_eq!(check_url_allowed(&settings, "data:text/plain,Stuff"), Ok(()));
}

#[test]
fn host_is_taken_from_the_url_not_the_path() {
    let mut settings = Settings::default();
    settings.deny_domains = list(&["evil.test"]);
    assert_eq!(check_url_allowed(&settings, "https://good.test/evil.test"), Ok(()));
    assert_eq!(
        check_url_allowed(&settings, "https://user@sub.evil.test:8080/x?y#z"),
        Err(PolicyViolation::DomainDenied)
    );
}

#[test]
fn host_outside_the_allow_list_is_denied() {
    let mut settings = Settings::default();
    settings.allow_domains = list(&["rust-lang.org", "example.com"]);
    assert_eq!(
        check_url_allowed(&settings, "https://crates.io/"),
        Err(PolicyViolation::DomainNotAllowed)
    );
    assert_eq!(check_url_allowed(&settings, "https://doc.rust-lang.org/std/"), Ok(()));
}

#[test]
fn empty_allow_list_restricts_nothing() {
    let mut settings = Settings::default();
    settings.allow_domains = Some(Vec::new());
    assert_eq!(check_url_allowed(&settings, "https://crates.io/"), Ok(()));
}

#[test]
fn empty_deny_list_denies_nothing() {
    let mut settings = Settings::default();
    settings.deny_domains = Some(Vec::new());
    assert_eq!(check_url_allowed(&settings, "https://crates.io/"), Ok(()));
}

#[test]
fn suffix_match_takes_lookalike_hosts_too() {
    let mut settings = Settings::default();
    settings.deny_domains = list(&["example.com"]);
    assert_eq!(
        check_host_allowed(&settings, Some("evil-example.com")),
        Err(PolicyViolation::DomainDenied)
    );
    assert_eq!(check_host_allowed(&settings, Some("example.com.org")), Ok(()));
}

#[test]
fn empty_suffix_matches_every_host() {
    let mut settings = Settings::default();
    settings.deny_domains = list(&[""]);
    assert_eq!(check_host_allowed(&settings, Some("a.test")), Err(PolicyViolation::DomainDenied));
}

#[test]
fn missing_host_is_allowed_whatever_the_lists() {
    let mut settings = Settings::default();
    settings.deny_domains = list(&[""]);
    settings.allow_domains = list(&["only.test"]);
    assert_eq!(check_host_allowed(&settings, None), Ok(()));
}

#[test]
fn host_longer_suffix_is_no_match() {
    let mut settings = Settings::default();
    settings.deny_domains = list(&["www.example.com"]);
    assert_eq!(check_host_allowed(&settings, Some("example.com")), Ok(()));
}

#[test]
fn apps_fail_closed_without_a_list() {
    let settings = Settings::default();
    assert_eq!(check_app_allowed(&settings, "notepad"), Err(PolicyViolation::NoAllowApps));
    assert_eq!(check_app_allowed(&settings, ""), Err(PolicyViolation::NoAllowApps));
}

#[test]
fn app_match_ignores_ascii_case_only() {
    let mut settings = Settings::default();
    settings.allow_apps = list(&["Notepad", "Caf\u{e9}"]);
    assert_eq!(check_app_allowed(&settings, "notepad"), Ok(()));
    assert_eq!(check_app_allowed(&settings, "NOTEPAD"), Ok(()));
    assert_eq!(check_app_allowed(&settings, "caf\u{e9}"), Ok(()));
    assert_eq!(check_app_allowed(&settings, "CAF\u{c9}"), Err(PolicyViolation::AppNotAllowed));
    assert_eq!(check_app_allowed(&settings, "notepad.exe"), Err(PolicyViolation::AppNotAllowed));
    assert_eq!(check_app_allowed(&settings, "notepa"), Err(PolicyViolation::AppNotAllowed));
}

#[test]
fn empty_app_list_allows_nothing() {
    let mut settings = Settings::default();
    settings.allow_apps = Some(Vec::new());
    assert_eq!(check_app_allowed(&settings, "notepad"), Err(PolicyViolation::AppNotAllowed));
}

#[test]
fn paths_fail_closed_without_configured_dirs() {
    let settings = Settings::default();
    let root = path(&["/"]);
    let dirs = vec![path(&["/"])];
    assert_eq!(check_path_allowed(&settings, &root, &dirs), Err(PolicyViolation::NoAllowDirs));
    assert_eq!(
        check_path_allowed(&settings, &path(&["/", "home", "a.txt"]), &Vec::new()),
        Err(PolicyViolation::NoAllowDirs)
    );
}

#[test]
fn path_under_an_allowed_dir_is_allowed() {
    let mut settings = Settings::default();
    settings.allow_dirs = list(&["/home/user", "/tmp"]);
    let dirs = vec![path(&["/", "home", "user"]), path(&["/", "tmp"])];
    assert_eq!(
        check_path_allowed(&settings, &path(&["/", "home", "user", "notes", "a.txt"]), &dirs),
        Ok(())
    );
    assert_eq!(check_path_allowed(&settings, &path(&["/", "tmp"]), &dirs), Ok(()));
}

#[test]
fn path_prefix_goes_by_whole_components() {
    let mut settings = Settings::default();
    settings.allow_dirs = list(&["/home/user"]);
    let dirs = vec![path(&["/", "home", "user"])];
    assert_eq!(
        check_path_allowed(&settings, &path(&["/", "home", "user2", "a.txt"]), &dirs),
        Err(PolicyViolation::PathNotAllowed)
    );
    assert_eq!(
        check_path_allowed(&settings, &path(&["/", "home"]), &dirs),
        Err(PolicyViolation::PathNotAllowed)
    );
}

#[test]
fn configured_but_empty_dirs_allow_nothing() {
    let mut settings = Settings::default();
    settings.allow_dirs = Some(Vec::new());
    assert_eq!(
        check_path_allowed(&settings, &path(&["/", "tmp", "a"]), &Vec::new()),
        Err(PolicyViolation::PathNotAllowed)
    );
}

#[test]
fn path_check_agrees_with_std_starts_with() {
    let mut settings = Settings::default();
    settings.allow_dirs = list(&["x"]);
    let cases = [
        ("/a/b/c", "/a/b"),
        ("/a/b", "/a/b"),
        ("/a/bc", "/a/b"),
        ("/a", "/a/b"),
        ("/", "/"),
        ("/x/y", "/"),
    ];
    for (target, dir) in cases {
        let t = std::path::Path::new(target);
        let d = std::path::Path::new(dir);
        let tc = CanonicalPath {
            components: t.components().map(|c| c.as_os_str().to_string_lossy().to_string()).collect(),
        };
        let dc = CanonicalPath {
            components: d.components().map(|c| c.as_os_str().to_string_lossy().to_string()).collect(),
        };
        assert_eq!(check_path_allowed(&settings, &tc, &vec![dc]).is_ok(), t.starts_with(d));
    }
}

#[test]
fn every_violation_has_its_reason() {
    assert_eq!(PolicyViolation::DomainDenied.reason(), "Domain denied");
    assert_eq!(PolicyViolation::DomainNotAllowed.reason(), "Domain not in allowlist");
    assert_eq!(PolicyViolation::NoAllowDirs.reason(), "No allow_dirs configured");
    assert_eq!(PolicyViolation::PathNotAllowed.reason(), "Path not allowed");
    assert_eq!(PolicyViolation::NoAllowApps.reason(), "No allow_apps configured");
    assert_eq!(PolicyViolation::AppNotAllowed.reason(), "App not allowed");
}

#[test]
fn path_with_a_relative_component_is_denied() {
    let mut settings = Settings::default();
    settings.allow_dirs = list(&["/allowed"]);
    let dirs = vec![path(&["/", "allowed"])];
    assert_eq!(check_path_allowed(&settings, &path(&["/", "allowed", "a.txt"]), &dirs), Ok(()));
    for unresolved in [
        path(&["/", "allowed", "..", "secret", "new.txt"]),
        path(&["/", "allowed", ".", "a.txt"]),
        path(&["/", "allowed", "a", ".."]),
        path(&[".."]),
    ] {
        assert_eq!(
            check_path_allowed(&settings, &unresolved, &dirs),
            Err(PolicyViolation::PathNotAllowed)
        );
    }
    assert_eq!(check_path_allowed(&settings, &path(&["/", "allowed", "..."]), &dirs), Ok(()));
    assert_eq!(check_path_allowed(&settings, &path(&["/", "allowed", ".a"]), &dirs), Ok(()));
}

#[test]
fn directory_with_a_relative_component_allows_nothing() {
    let mut settings = Settings::default();
    settings.allow_dirs = list(&["/allowed/..", "/tmp"]);
    let dirs = vec![path(&["/", "allowed", ".."]), path(&["/", "tmp"])];
    assert_eq!(
        check_path_allowed(&settings, &path(&["/", "allowed", "a.txt"]), &dirs),
        Err(PolicyViolation::PathNotAllowed)
    );
    assert_eq!(check_path_allowed(&settings, &path(&["/", "tmp", "a.txt"]), &dirs), Ok(()));
    let dotted = vec![path(&["."])];
    assert_eq!(
        check_path_allowed(&settings, &path(&[".", "a.txt"]), &dotted),
        Err(PolicyViolation::PathNotAllowed)
    );
}
