//! The guard: whether an action that reaches outside may go ahead. It only
//! decides; it never performs the action.
//!
//! Domains fail open: a URL without a host, and a host with no rule against
//! it, are allowed. Paths and applications fail closed: with no list
//! configured nothing is allowed.

use crate::settings::Settings;
use crate::text::{
    chars_end_with, chars_of, eq_ignore_ascii_case, opt_texts, same_ignoring_ascii_case, same_text,
    texts,
};
use crate::urls::{parse_url, url_host};
use vstd::prelude::*;

verus! {

/// Why an action was denied.
#[derive(Clone, Copy, Debug, PartialEq, Eq, Structural)]
pub enum PolicyViolation {
    /// The host ends with a denied suffix.
    DomainDenied,
    /// An allow-list of domains is in force and the host ends with none of its suffixes.
    DomainNotAllowed,
    /// No allowed directories are configured.
    NoAllowDirs,
    /// The path lies under none of the allowed directories.
    PathNotAllowed,
    /// No allowed applications are configured.
    NoAllowApps,
    /// The application is not on the allow-list.
    AppNotAllowed,
}

impl PolicyViolation {
    /// The reason in words.
    pub open spec fn reason_text(self) -> Seq<char> {
        match self {
            PolicyViolation::DomainDenied => "Domain denied"@,
            PolicyViolation::DomainNotAllowed => "Domain not in allowlist"@,
            PolicyViolation::NoAllowDirs => "No allow_dirs configured"@,
            PolicyViolation::PathNotAllowed => "Path not allowed"@,
            PolicyViolation::NoAllowApps => "No allow_apps configured"@,
            PolicyViolation::AppNotAllowed => "App not allowed"@,
        }
    }

    /// The reason in words.
    pub fn reason(&self) -> (r: String)
        ensures
            r@ == self.reason_text(),
    {
        match self {
            PolicyViolation::DomainDenied => String::from_str("Domain denied"),
            PolicyViolation::DomainNotAllowed => String::from_str("Domain not in allowlist"),
            PolicyViolation::NoAllowDirs => String::from_str("No allow_dirs configured"),
            PolicyViolation::PathNotAllowed => String::from_str("Path not allowed"),
            PolicyViolation::NoAllowApps => String::from_str("No allow_apps configured"),
            PolicyViolation::AppNotAllowed => String::from_str("App not allowed"),
        }
    }
}

/// `host` ends with some member of `suffixes`.
pub open spec fn ends_with_any(host: Seq<char>, suffixes: Seq<Seq<char>>) -> bool {
    exists|i: int| 0 <= i < suffixes.len() && (#[trigger] suffixes[i]).is_suffix_of(host)
}

/// The decision on a host. No host: allowed. A host that ends with a denied
/// suffix: denied, whatever the allow-list holds. Else, where an allow-list is
/// configured and not empty, the host must end with one of its suffixes.
pub open spec fn domain_decision(
    host: Option<Seq<char>>,
    deny: Option<Seq<Seq<char>>>,
    allow: Option<Seq<Seq<char>>>,
) -> Result<(), PolicyViolation> {
    match host {
        None => Ok(()),
        Some(h) => {
            if deny is Some && ends_with_any(h, deny->0) {
                Err(PolicyViolation::DomainDenied)
            } else if allow is Some && allow->0.len() > 0 && !ends_with_any(h, allow->0) {
                Err(PolicyViolation::DomainNotAllowed)
            } else {
                Ok(())
            }
        },
    }
}

/// Some member of `allowed` is `app`, read without ASCII case.
pub open spec fn names_app(allowed: Seq<Seq<char>>, app: Seq<char>) -> bool {
    exists|i: int| 0 <= i < allowed.len() && same_ignoring_ascii_case(#[trigger] allowed[i], app)
}

/// The decision on an application: denied where no list is configured, else
/// allowed exactly where the list names it.
pub open spec fn app_decision(
    allow: Option<Seq<Seq<char>>>,
    app: Seq<char>,
) -> Result<(), PolicyViolation> {
    match allow {
        None => Err(PolicyViolation::NoAllowApps),
        Some(names) => if names_app(names, app) {
            Ok(())
        } else {
            Err(PolicyViolation::AppNotAllowed)
        },
    }
}

/// A path as the file system resolved it, as the sequence of its components
/// from the root down. A path that still holds the component `.` or `..` was
/// not resolved, and the guard allows nothing by it.
pub struct CanonicalPath {
    pub components: Vec<String>,
}

impl View for CanonicalPath {
    type V = Seq<Seq<char>>;

    open spec fn view(&self) -> Seq<Seq<char>> {
        texts(self.components@)
    }
}

/// The components of each path of `paths`.
pub open spec fn paths(list: Seq<CanonicalPath>) -> Seq<Seq<Seq<char>>> {
    list.map_values(|p: CanonicalPath| p@)
}

/// A component that stands for a place relative to another: `.` or `..`.
pub open spec fn is_relative(component: Seq<char>) -> bool {
    component == "."@ || component == ".."@
}

/// `path` holds no relative component.
pub open spec fn is_resolved(path: Seq<Seq<char>>) -> bool {
    forall|i: int| 0 <= i < path.len() ==> !is_relative(#[trigger] path[i])
}

/// `path` is `dir` or lies below it: both are resolved, and the components
/// of `dir` are the first of `path`.
pub open spec fn lies_under(path: Seq<Seq<char>>, dir: Seq<Seq<char>>) -> bool {
    is_resolved(path) && is_resolved(dir) && dir.is_prefix_of(path)
}

/// `path` lies under some member of `dirs`.
pub open spec fn lies_under_any(path: Seq<Seq<char>>, dirs: Seq<Seq<Seq<char>>>) -> bool {
    exists|i: int| 0 <= i < dirs.len() && lies_under(path, #[trigger] dirs[i])
}

/// The decision on a path: denied where no directories are configured, else
/// allowed exactly where it lies under one of them. A path with a relative
/// component lies under none, and under a directory with one lies nothing.
pub open spec fn path_decision(
    configured: bool,
    dirs: Seq<Seq<Seq<char>>>,
    path: Seq<Seq<char>>,
) -> Result<(), PolicyViolation> {
    if !configured {
        Err(PolicyViolation::NoAllowDirs)
    } else if lies_under_any(path, dirs) {
        Ok(())
    } else {
        Err(PolicyViolation::PathNotAllowed)
    }
}

fn host_ends_with_any(host: &Vec<char>, suffixes: &Vec<String>) -> (r: bool)
    ensures
        r == ends_with_any(host@, texts(suffixes@)),
{
    let mut i: usize = 0;
    while i < suffixes.len()
        invariant
            i <= suffixes.len(),
            forall|j: int| 0 <= j < i ==> !(#[trigger] texts(suffixes@)[j]).is_suffix_of(host@),
        decreases suffixes.len() - i,
    {
        let suffix = chars_of(suffixes[i].as_str());
        assert(texts(suffixes@)[i as int] == suffix@);
        if chars_end_with(host, &suffix) {
            return true;
        }
        i += 1;
    }
    false
}

/// Decides on a host that was already taken out of a URL.
pub fn check_host_allowed(
    settings: &Settings,
    host: Option<&str>,
) -> (r: Result<(), PolicyViolation>)
    ensures
        r == domain_decision(
            match host {
                Some(h) => Some(h@),
                None => None,
            },
            opt_texts(settings.deny_domains),
            opt_texts(settings.allow_domains),
        ),
{
    let host = match host {
        Some(h) => chars_of(h),
        None => {
            return Ok(());
        },
    };
    match &settings.deny_domains {
        Some(deny) => {
            if host_ends_with_any(&host, deny) {
                return Err(PolicyViolation::DomainDenied);
            }
        },
        None => {},
    }
    match &settings.allow_domains {
        Some(allow) => {
            assert(texts(allow@).len() == allow@.len());
            if allow.len() > 0 && !host_ends_with_any(&host, allow) {
                return Err(PolicyViolation::DomainNotAllowed);
            }
        },
        None => {},
    }
    Ok(())
}

/// Decides whether `url` may be opened or fetched. A text that does not parse
/// as a URL, and a URL without a host, are allowed.
pub fn check_url_allowed(settings: &Settings, url: &str) -> (r: Result<(), PolicyViolation>)
    ensures
        r == domain_decision(
            url_host(url@),
            opt_texts(settings.deny_domains),
            opt_texts(settings.allow_domains),
        ),
{
    match parse_url(url) {
        Ok(parts) => match &parts.host {
            Some(h) => check_host_allowed(settings, Some(h.as_str())),
            None => check_host_allowed(settings, None),
        },
        Err(_) => check_host_allowed(settings, None),
    }
}

/// Decides whether the application `app` may be launched.
pub fn check_app_allowed(settings: &Settings, app: &str) -> (r: Result<(), PolicyViolation>)
    ensures
        r == app_decision(opt_texts(settings.allow_apps), app@),
{
    let allow = match &settings.allow_apps {
        Some(list) => list,
        None => {
            return Err(PolicyViolation::NoAllowApps);
        },
    };
    let mut i: usize = 0;
    while i < allow.len()
        invariant
            i <= allow.len(),
            settings.allow_apps == Some(*allow),
            forall|j: int|
                0 <= j < i ==> !same_ignoring_ascii_case(#[trigger] texts(allow@)[j], app@),
        decreases allow.len() - i,
    {
        assert(texts(allow@)[i as int] == allow@[i as int]@);
        if eq_ignore_ascii_case(allow[i].as_str(), app) {
            assert(same_ignoring_ascii_case(texts(allow@)[i as int], app@));
            return Ok(());
        }
        i += 1;
    }
    Err(PolicyViolation::AppNotAllowed)
}

fn path_is_resolved(path: &CanonicalPath) -> (r: bool)
    ensures
        r == is_resolved(path@),
{
    let mut i: usize = 0;
    while i < path.components.len()
        invariant
            i <= path.components.len(),
            forall|j: int| 0 <= j < i ==> !is_relative(#[trigger] path@[j]),
        decreases path.components.len() - i,
    {
        assert(path@[i as int] == path.components@[i as int]@);
        let component = path.components[i].as_str();
        if same_text(component, ".") || same_text(component, "..") {
            assert(is_relative(path@[i as int]));
            return false;
        }
        i += 1;
    }
    true
}

fn path_lies_under(path: &CanonicalPath, dir: &CanonicalPath) -> (r: bool)
    ensures
        r == lies_under(path@, dir@),
{
    if !path_is_resolved(path) || !path_is_resolved(dir) {
        return false;
    }
    if dir.components.len() > path.components.len() {
        return false;
    }
    let mut i: usize = 0;
    while i < dir.components.len()
        invariant
            dir.components.len() <= path.components.len(),
            i <= dir.components.len(),
            forall|j: int| 0 <= j < i ==> (#[trigger] dir@[j]) == path@[j],
        decreases dir.components.len() - i,
    {
        assert(dir@[i as int] == dir.components@[i as int]@);
        assert(path@[i as int] == path.components@[i as int]@);
        if !(dir.components[i] == path.components[i]) {
            assert(path@.subrange(0, dir@.len() as int)[i as int] != dir@[i as int]);
            return false;
        }
        i += 1;
    }
    assert(dir@ =~= path@.subrange(0, dir@.len() as int));
    true
}

/// Decides whether the file at `path` may be read or written. `dirs` holds the
/// allowed directories in canonical form; whether any are configured is read
/// from the settings.
pub fn check_path_allowed(
    settings: &Settings,
    path: &CanonicalPath,
    dirs: &Vec<CanonicalPath>,
) -> (r: Result<(), PolicyViolation>)
    ensures
        r == path_decision(settings.allow_dirs is Some, paths(dirs@), path@),
{
    if settings.allow_dirs.is_none() {
        return Err(PolicyViolation::NoAllowDirs);
    }
    let mut i: usize = 0;
    while i < dirs.len()
        invariant
            i <= dirs.len(),
            settings.allow_dirs is Some,
            forall|j: int| 0 <= j < i ==> !lies_under(path@, #[trigger] paths(dirs@)[j]),
        decreases dirs.len() - i,
    {
        assert(paths(dirs@)[i as int] == dirs@[i as int]@);
        if path_lies_under(path, &dirs[i]) {
            assert(lies_under(path@, paths(dirs@)[i as int]));
            return Ok(());
        }
        i += 1;
    }
    Err(PolicyViolation::PathNotAllowed)
}

/// With no allowed directories configured every path is denied.
pub proof fn no_dirs_configured_denies_every_path(dirs: Seq<Seq<Seq<char>>>, path: Seq<Seq<char>>)
    ensures
        path_decision(false, dirs, path) == Err::<(), PolicyViolation>(
            PolicyViolation::NoAllowDirs,
        ),
{
}

/// With no allowed applications configured every application is denied.
pub proof fn no_apps_configured_denies_every_app(app: Seq<char>)
    ensures
        app_decision(None, app) == Err::<(), PolicyViolation>(PolicyViolation::NoAllowApps),
{
}

/// Deny wins over allow: a host that ends with a denied suffix is denied
/// whatever the allow-list holds.
pub proof fn denied_suffix_wins_over_allow(
    host: Seq<char>,
    deny: Seq<Seq<char>>,
    allow: Option<Seq<Seq<char>>>,
)
    requires
        ends_with_any(host, deny),
    ensures
        domain_decision(Some(host), Some(deny), allow) == Err::<(), PolicyViolation>(
            PolicyViolation::DomainDenied,
        ),
{
}

/// A host that stands on the deny-list is denied, also where it stands on the
/// allow-list too.
pub proof fn host_on_both_lists_is_denied(
    host: Seq<char>,
    deny: Seq<Seq<char>>,
    allow: Seq<Seq<char>>,
)
    requires
        deny.contains(host),
        allow.contains(host),
    ensures
        domain_decision(Some(host), Some(deny), Some(allow)) == Err::<(), PolicyViolation>(
            PolicyViolation::DomainDenied,
        ),
{
    let i = choose|i: int| 0 <= i < deny.len() && deny[i] == host;
    assert(host.is_suffix_of(host)) by {
        assert(host.subrange(0, host.len() as int) =~= host);
    }
    assert(deny[i].is_suffix_of(host));
}

/// A path that was not resolved is denied, whatever directories are allowed.
pub proof fn unresolved_path_is_denied(
    configured: bool,
    dirs: Seq<Seq<Seq<char>>>,
    path: Seq<Seq<char>>,
    at: int,
)
    requires
        0 <= at < path.len(),
        is_relative(path[at]),
    ensures
        path_decision(configured, dirs, path) is Err,
{
}

} // verus!
