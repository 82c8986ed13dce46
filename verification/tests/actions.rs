use milyai::actions::{execute, Action};
use milyai::policy::{CanonicalPath, PolicyViolation};
use milyai::settings::Settings;

fn path(components: &[&str]) -> CanonicalPath {
    CanonicalPath { components: components.iter().map(|s| s.to_string()).collect() }
}

fn none() -> CanonicalPath {
    CanonicalPath { components: Vec::new() }
}

#[test]
fn open_url_is_held_to_the_domain_rules() {
    let mut settings = Settings::default();
    settings.deny_domains = Some(vec!["bad.test".to_string()]);
    let denied = execute(&settings, Action::OpenUrl("https://bad.test/".to_string()), &none(), &Vec::new());
    assert!(matches!(denied, Err(PolicyViolation::DomainDenied)));
    let allowed =
        execute(&settings, Action::OpenUrl("https://good.test/x".to_string()), &none(), &Vec::new())
            .ok()
            .unwrap();
    assert!(matches!(allowed.action(), Action::OpenUrl(url) if url == "https://good.test/x"));
    assert_eq!(allowed.report(""), "Opened URL: https://good.test/x");
    assert_eq!(allowed.report("ignored"), "Opened URL: https://good.test/x");
}

#[test]
fn launch_is_held_to_the_application_rules() {
    let mut settings = Settings::default();
    let launch = |app: &str| Action::LaunchApp {
        app: app.to_string(),
        args: vec!["-n".to_string(), "file name".to_string()],
    };
    assert!(matches!(
        execute(&settings, launch("code"), &none(), &Vec::new()),
        Err(PolicyViolation::NoAllowApps)
    ));
    settings.allow_apps = Some(vec!["Code".to_string()]);
    assert!(matches!(
        execute(&settings, launch("vim"), &none(), &Vec::new()),
        Err(PolicyViolation::AppNotAllowed)
    ));
    let allowed = execute(&settings, launch("code"), &none(), &Vec::new()).ok().unwrap();
    assert_eq!(allowed.report(""), "Launched: code -n file name");
    match allowed.action() {
        Action::LaunchApp { app, args } => {
            assert_eq!(app, "code");
            assert_eq!(args, &vec!["-n".to_string(), "file name".to_string()]);
        }
        _ => panic!("the approved action is the launch"),
    }
}

#[test]
fn launch_without_arguments_reports_a_trailing_space() {
    let mut settings = Settings::default();
    settings.allow_apps = Some(vec!["code".to_string()]);
    let action = Action::LaunchApp { app: "code".to_string(), args: Vec::new() };
    let allowed = execute(&settings, action, &none(), &Vec::new()).ok().unwrap();
    assert_eq!(allowed.report(""), "Launched: code ");
}

#[test]
fn files_are_held_to_the_path_rules() {
    let mut settings = Settings::default();
    let dirs = vec![path(&["/", "home", "user"])];
    let inside = path(&["/", "home", "user", "a.txt"]);
    let outside = path(&["/", "etc", "passwd"]);
    let read = || Action::ReadFile("a.txt".to_string());
    let write =
        || Action::WriteFile { path: "a.txt".to_string(), content: "new".to_string() };
    assert!(matches!(execute(&settings, read(), &inside, &dirs), Err(PolicyViolation::NoAllowDirs)));
    assert!(matches!(execute(&settings, write(), &inside, &dirs), Err(PolicyViolation::NoAllowDirs)));
    settings.allow_dirs = Some(vec!["/home/user".to_string()]);
    assert!(matches!(
        execute(&settings, read(), &outside, &dirs),
        Err(PolicyViolation::PathNotAllowed)
    ));
    assert!(matches!(
        execute(&settings, write(), &outside, &dirs),
        Err(PolicyViolation::PathNotAllowed)
    ));
    let reading = execute(&settings, read(), &inside, &dirs).ok().unwrap();
    assert_eq!(reading.report("what the file holds\n"), "what the file holds\n");
    let writing = execute(&settings, write(), &inside, &dirs).ok().unwrap();
    assert_eq!(writing.report(""), "Wrote: a.txt");
    match writing.action() {
        Action::WriteFile { path, content } => {
            assert_eq!(path, "a.txt");
            assert_eq!(content, "new");
        }
        _ => panic!("the approved action is the write"),
    }
}

#[test]
fn each_action_is_held_to_its_own_rules_only() {
    let mut settings = Settings::default();
    settings.allow_apps = Some(vec!["code".to_string()]);
    let url = Action::OpenUrl("https://any.test/".to_string());
    assert!(execute(&settings, url, &none(), &Vec::new()).is_ok());
    let read = Action::ReadFile("code".to_string());
    assert!(matches!(execute(&settings, read, &none(), &Vec::new()), Err(PolicyViolation::NoAllowDirs)));
}
