//! Actions that reach outside: opening a URL, launching an application,
//! reading and writing a file. The guard decides on each before the driver
//! performs it, and a denied action yields no approval to perform.

use crate::policy::{
    app_decision, check_app_allowed, check_path_allowed, check_url_allowed, domain_decision,
    path_decision, paths, CanonicalPath, PolicyViolation,
};
use crate::settings::Settings;
use crate::text::{join, joined, opt_texts, texts};
use crate::urls::url_host;
use vstd::prelude::*;

verus! {

/// An action that reaches outside.
pub enum Action {
    /// Open the URL in the browser.
    OpenUrl(String),
    /// Launch the application `app` with the arguments `args`.
    LaunchApp { app: String, args: Vec<String> },
    /// Read the file at the path.
    ReadFile(String),
    /// Write `content` to the file at `path`.
    WriteFile { path: String, content: String },
}

/// The guard's decision on `action`. A URL is held to the domain rules, an
/// application to the application rules, and a file, read or written, to the
/// path rules, by its canonical path `target` and the allowed directories `dirs`.
pub open spec fn action_decision(
    settings: Settings,
    action: Action,
    target: Seq<Seq<char>>,
    dirs: Seq<Seq<Seq<char>>>,
) -> Result<(), PolicyViolation> {
    match action {
        Action::OpenUrl(url) => domain_decision(
            url_host(url@),
            opt_texts(settings.deny_domains),
            opt_texts(settings.allow_domains),
        ),
        Action::LaunchApp { app, args } => app_decision(opt_texts(settings.allow_apps), app@),
        Action::ReadFile(_) => path_decision(settings.allow_dirs is Some, dirs, target),
        Action::WriteFile { path, content } => path_decision(
            settings.allow_dirs is Some,
            dirs,
            target,
        ),
    }
}

/// What the caller is told once `action` was performed: for a file that was
/// read, its content `read`; for every other action a line that names it.
pub open spec fn report_text(action: Action, read: Seq<char>) -> Seq<char> {
    match action {
        Action::OpenUrl(url) => "Opened URL: "@ + url@,
        Action::LaunchApp { app, args } => "Launched: "@ + app@ + " "@ + joined(texts(args@), " "@),
        Action::ReadFile(_) => read,
        Action::WriteFile { path, content } => "Wrote: "@ + path@,
    }
}

/// An action that the guard allowed. Only `execute` makes one.
pub struct Approved {
    action: Action,
}

impl Approved {
    /// The action that was allowed.
    pub closed spec fn allowed(&self) -> Action {
        self.action
    }

    /// The action to perform.
    pub fn action(&self) -> (a: &Action)
        ensures
            *a == self.allowed(),
    {
        &self.action
    }

    /// What the caller is told once the action was performed. `read` is the
    /// content of the file where the action was to read one.
    pub fn report(&self, read: &str) -> (out: String)
        ensures
            out@ == report_text(self.allowed(), read@),
    {
        match &self.action {
            Action::OpenUrl(url) => {
                let mut out = String::from_str("Opened URL: ");
                out.append(url.as_str());
                out
            },
            Action::LaunchApp { app, args } => {
                let mut out = String::from_str("Launched: ");
                out.append(app.as_str());
                out.append(" ");
                let list = join(args, " ");
                out.append(list.as_str());
                out
            },
            Action::ReadFile(_) => String::from_str(read),
            Action::WriteFile { path, content } => {
                let mut out = String::from_str("Wrote: ");
                out.append(path.as_str());
                out
            },
        }
    }
}

/// Puts `action` before the guard. `target` is the canonical path of the file
/// that the action reads or writes and `dirs` the allowed directories in
/// canonical form; neither is looked at for the other actions. The action is
/// approved exactly where the guard allows it, and comes back unchanged for
/// the driver to perform; else the violation comes back and nothing is to be
/// performed.
pub fn execute(
    settings: &Settings,
    action: Action,
    target: &CanonicalPath,
    dirs: &Vec<CanonicalPath>,
) -> (r: Result<Approved, PolicyViolation>)
    ensures
        r matches Ok(approved) ==> approved.allowed() == action && action_decision(
            *settings,
            action,
            target@,
            paths(dirs@),
        ) is Ok,
        r matches Err(violation) ==> action_decision(*settings, action, target@, paths(dirs@))
            == Err::<(), PolicyViolation>(violation),
{
    let decision = match &action {
        Action::OpenUrl(url) => check_url_allowed(settings, url.as_str()),
        Action::LaunchApp { app, args } => check_app_allowed(settings, app.as_str()),
        Action::ReadFile(_) => check_path_allowed(settings, target, dirs),
        Action::WriteFile { path, content } => check_path_allowed(settings, target, dirs),
    };
    match decision {
        Ok(()) => Ok(Approved { action }),
        Err(violation) => Err(violation),
    }
}

} // verus!
