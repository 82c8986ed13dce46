//! Fetching a page as text: the guard, the site's robots file, the answer's
//! status, and the text of an HTML body. The driver makes the requests.

use crate::policy::{check_url_allowed, domain_decision, PolicyViolation};
use crate::settings::Settings;
use crate::status::{show_status, status_text};
use crate::text::{
    chars_contain, chars_of, lowercase, occurs_in, opt_text, opt_texts, texts, to_lowercase, trim,
    trimmed,
};
use crate::urls::{parse_url, url_host, url_parts, UrlParts};
use vstd::prelude::*;

verus! {

/// Why a page was not fetched.
#[derive(Clone, Debug, PartialEq, Eq)]
pub enum WebError {
    /// The guard denied the URL.
    Policy(PolicyViolation),
    /// The URL does not parse, so its robots file cannot be found; with what
    /// the parser says is wrong with it.
    InvalidUrl(String),
    /// The robots file holds a line that is too long to be matched.
    RobotsUnreadable,
    /// The robots file keeps the agent away from the URL.
    BlockedByRobots,
    /// The page request did not get through; with what the driver was told of it.
    Unavailable(String),
    /// The answer came with a status outside 200 to 299.
    Status(u16),
}

/// What a `WebError` holds, as text.
pub enum WebErrorText {
    Policy(PolicyViolation),
    InvalidUrl(Seq<char>),
    RobotsUnreadable,
    BlockedByRobots,
    Unavailable(Seq<char>),
    Status(u16),
}

impl View for WebError {
    type V = WebErrorText;

    open spec fn view(&self) -> WebErrorText {
        match *self {
            WebError::Policy(violation) => WebErrorText::Policy(violation),
            WebError::InvalidUrl(complaint) => WebErrorText::InvalidUrl(complaint@),
            WebError::RobotsUnreadable => WebErrorText::RobotsUnreadable,
            WebError::BlockedByRobots => WebErrorText::BlockedByRobots,
            WebError::Unavailable(said) => WebErrorText::Unavailable(said@),
            WebError::Status(status) => WebErrorText::Status(status),
        }
    }
}

/// The reason of a failed fetch in words. A URL that does not parse is
/// answered with the parser's own words, and a request that did not get
/// through with the words that the driver handed in.
pub open spec fn web_reason(error: WebErrorText) -> Seq<char> {
    match error {
        WebErrorText::Policy(violation) => violation.reason_text(),
        WebErrorText::InvalidUrl(complaint) => complaint,
        WebErrorText::RobotsUnreadable => "robots.txt holds a line too long to be matched"@,
        WebErrorText::BlockedByRobots => "Blocked by robots.txt"@,
        WebErrorText::Unavailable(said) => said,
        WebErrorText::Status(status) => "Fetch failed: "@ + status_text(status),
    }
}

impl WebError {
    /// The reason in words.
    pub fn reason(&self) -> (r: String)
        ensures
            r@ == web_reason(self@),
    {
        match self {
            WebError::Policy(violation) => violation.reason(),
            WebError::InvalidUrl(complaint) => complaint.clone(),
            WebError::RobotsUnreadable => String::from_str(
                "robots.txt holds a line too long to be matched",
            ),
            WebError::BlockedByRobots => String::from_str("Blocked by robots.txt"),
            WebError::Unavailable(said) => said.clone(),
            WebError::Status(status) => {
                let mut r = String::from_str("Fetch failed: ");
                let shown = show_status(*status);
                r.append(shown.as_str());
                r
            },
        }
    }
}

/// What a verdict holds, as text.
pub open spec fn verdict_text(r: Result<bool, WebError>) -> Result<bool, WebErrorText> {
    match r {
        Ok(blocked) => Ok(blocked),
        Err(e) => Err(e@),
    }
}

/// The user agent of a page request where none is configured.
pub const DEFAULT_USER_AGENT: &'static str = "MilyAI/0.1 (+https://example.com)";

/// The agent that is looked up in a robots file where none is configured.
pub const DEFAULT_ROBOTS_AGENT: &'static str = "MilyAI";

/// The most characters of one line of a robots file that holds other than ASCII characters.
pub const ROBOTS_LINE_LIMIT: usize = 4000;

/// Decides whether `url` may be fetched, as `check_url_allowed` does.
pub fn check_domain_policy(settings: &Settings, url: &str) -> (r: Result<(), PolicyViolation>)
    ensures
        r == domain_decision(
            url_host(url@),
            opt_texts(settings.deny_domains),
            opt_texts(settings.allow_domains),
        ),
{
    check_url_allowed(settings, url)
}

/// Whether the settings ask for the robots file to be obeyed. They do unless they say otherwise.
pub open spec fn respects_robots(settings: Settings) -> bool {
    match settings.respect_robots {
        Some(b) => b,
        None => true,
    }
}

/// The address of the robots file of a site: the scheme, `://`, the host, or
/// nothing where there is none, and the path `/robots.txt`.
pub open spec fn robots_address_of(scheme: Seq<char>, host: Option<Seq<char>>) -> Seq<char> {
    scheme + "://"@ + match host {
        Some(h) => h,
        None => Seq::empty(),
    } + "/robots.txt"@
}

/// The address of the robots file of the site of `url`, where `url` parses.
pub open spec fn robots_address(url: Seq<char>) -> Option<Seq<char>> {
    match url_parts(url) {
        Ok((scheme, host, _)) => Some(robots_address_of(scheme, host)),
        Err(_) => None,
    }
}

/// The address of the robots file of the site of a URL that parsed.
pub fn robots_url_of(parts: &UrlParts) -> (out: String)
    ensures
        out@ == robots_address_of(
            parts.scheme@,
            match parts.host {
                Some(h) => Some(h@),
                None => None,
            },
        ),
{
    let mut out = parts.scheme.clone();
    out.append("://");
    match &parts.host {
        Some(h) => {
            out.append(h.as_str());
        },
        None => {
            assert(out@ + Seq::<char>::empty() =~= out@);
        },
    }
    out.append("/robots.txt");
    out
}

/// The address of the robots file of the site of `url`, where `url` parses.
pub fn robots_url(url: &str) -> (out: Option<String>)
    ensures
        opt_text(out) == robots_address(url@),
{
    match parse_url(url) {
        Ok(parts) => Some(robots_url_of(&parts)),
        Err(_) => None,
    }
}

/// Whether the robots file `robots_txt` lets `agent` fetch `url`.
pub uninterp spec fn robots_allows(robots_txt: Seq<char>, agent: Seq<char>, url: Seq<char>) -> bool;

/// Whether `c` ends a line of a robots file: a line feed or a carriage return.
pub open spec fn ends_line(c: char) -> bool {
    c as int == 10 || c as int == 13
}

/// How many characters the line holds that runs up to position `upto` of `s`:
/// the characters since the last one that ended a line.
pub open spec fn line_run(s: Seq<char>, upto: int) -> int
    decreases upto,
{
    if upto <= 0 || upto > s.len() || ends_line(s[upto - 1]) {
        0
    } else {
        line_run(s, upto - 1) + 1
    }
}

/// No line of `s` holds more than four thousand characters.
pub open spec fn lines_are_short(s: Seq<char>) -> bool {
    forall|upto: int| 0 <= upto <= s.len() ==> #[trigger] line_run(s, upto) <= ROBOTS_LINE_LIMIT
}

/// A robots file that can be matched: one whose lines hold at most four
/// thousand characters each, or one of ASCII characters only.
pub open spec fn matchable(robots_txt: Seq<char>) -> bool {
    lines_are_short(robots_txt) || vstd::utf8::is_ascii_chars(robots_txt)
}

/// Whether no line of `text` holds more than four thousand characters.
pub fn has_short_lines(text: &str) -> (r: bool)
    ensures
        r == lines_are_short(text@),
{
    let cs = chars_of(text);
    let mut run: usize = 0;
    let mut at: usize = 0;
    while at < cs.len()
        invariant
            cs@ == text@,
            at <= cs.len(),
            run == line_run(cs@, at as int),
            run <= ROBOTS_LINE_LIMIT,
            forall|upto: int| 0 <= upto <= at ==> #[trigger] line_run(cs@, upto) <= ROBOTS_LINE_LIMIT,
        decreases cs.len() - at,
    {
        let c = cs[at];
        if c == '\n' || c == '\r' {
            run = 0;
        } else {
            run = run + 1;
        }
        at += 1;
        assert(run == line_run(cs@, at as int));
        if run > ROBOTS_LINE_LIMIT {
            return false;
        }
    }
    true
}

/// `RobotsMatcher::one_agent_allowed_by_robots` of robotstxt, on a fresh
/// `DefaultMatcher`. Trusted: that the answer depends on the three texts
/// alone. The matcher cuts a line after 16,662 bytes and then counts
/// characters for bytes, which can end in a slice that splits a character;
/// no line of the files that are let in can reach that.
#[verifier::external_body]
fn robots_allow(robots_txt: &str, agent: &str, url: &str) -> (r: bool)
    requires
        matchable(robots_txt@),
    ensures
        r == robots_allows(robots_txt@, agent@, url@),
{
    robotstxt::DefaultMatcher::default().one_agent_allowed_by_robots(robots_txt, agent, url)
}

/// The agent that is looked up in a robots file.
pub open spec fn robots_agent(settings: Settings) -> Seq<char> {
    match settings.web_user_agent {
        Some(a) => a@,
        None => DEFAULT_ROBOTS_AGENT@,
    }
}

/// Whether the robots file keeps the configured agent away from `url`. The
/// file is asked about the URL in the parser's normal form.
pub open spec fn robots_verdict(
    settings: Settings,
    url: Seq<char>,
    robots_txt: Seq<char>,
) -> Result<bool, WebErrorText> {
    if !respects_robots(settings) {
        Ok(false)
    } else {
        match url_parts(url) {
            Err(complaint) => Err(WebErrorText::InvalidUrl(complaint)),
            Ok((_, _, href)) => if !matchable(robots_txt) {
                Err(WebErrorText::RobotsUnreadable)
            } else {
                Ok(!robots_allows(robots_txt, robots_agent(settings), href))
            },
        }
    }
}

/// Says whether the site's robots file `robots_txt` keeps the agent away
/// from `url`. Where the settings switch the robots file off, nothing is
/// blocked. A URL that does not parse, and a file that cannot be matched,
/// are errors.
pub fn should_block_by_robots(
    settings: &Settings,
    url: &str,
    robots_txt: &str,
) -> (r: Result<bool, WebError>)
    ensures
        verdict_text(r) == robots_verdict(*settings, url@, robots_txt@),
{
    let respect = match settings.respect_robots {
        Some(b) => b,
        None => true,
    };
    if !respect {
        return Ok(false);
    }
    let parts = match parse_url(url) {
        Ok(parts) => parts,
        Err(complaint) => {
            return Err(WebError::InvalidUrl(complaint));
        },
    };
    if !(robots_txt.is_ascii() || has_short_lines(robots_txt)) {
        return Err(WebError::RobotsUnreadable);
    }
    let allowed = match &settings.web_user_agent {
        Some(agent) => robots_allow(robots_txt, agent.as_str(), parts.href.as_str()),
        None => robots_allow(robots_txt, DEFAULT_ROBOTS_AGENT, parts.href.as_str()),
    };
    Ok(!allowed)
}

/// The text nodes below the first body element of the document that the HTML
/// parser makes of `html`, in the order of the document.
pub uninterp spec fn html_body_texts(html: Seq<char>) -> Seq<Seq<char>>;

/// `Html::parse_document`, `Html::select` and `ElementRef::text` of scraper,
/// with the selector `body`. Trusted: that the text nodes depend on the text
/// of `html` alone.
#[verifier::external_body]
fn body_text_nodes(html: &str) -> (nodes: Vec<String>)
    ensures
        texts(nodes@) == html_body_texts(html@),
{
    let document = scraper::Html::parse_document(html);
    match scraper::Selector::parse("body") {
        Ok(body) => match document.select(&body).next() {
            Some(element) => element.text().map(|t| t.to_string()).collect(),
            None => Vec::new(),
        },
        Err(_) => Vec::new(),
    }
}

/// The text of a page, from its text nodes: each node without the white
/// space around it, on a line of its own; a node of white space only leaves
/// nothing.
pub open spec fn text_lines(nodes: Seq<Seq<char>>) -> Seq<char>
    decreases nodes.len(),
{
    if nodes.len() == 0 {
        Seq::empty()
    } else {
        let line = trimmed(nodes.last());
        if line.len() > 0 {
            text_lines(nodes.drop_last()) + line + "\n"@
        } else {
            text_lines(nodes.drop_last())
        }
    }
}

/// Writes the text nodes of a page as lines.
pub fn collect_text(nodes: &Vec<String>) -> (out: String)
    ensures
        out@ == text_lines(texts(nodes@)),
{
    let mut out = String::new();
    let mut i: usize = 0;
    assert(texts(nodes@).take(0) =~= Seq::empty());
    while i < nodes.len()
        invariant
            i <= nodes.len(),
            out@ == text_lines(texts(nodes@).take(i as int)),
        decreases nodes.len() - i,
    {
        proof {
            let upto = texts(nodes@).take(i + 1);
            assert(upto.drop_last() =~= texts(nodes@).take(i as int));
            assert(upto.last() == nodes@[i as int]@);
        }
        let line = trim(nodes[i].as_str());
        if line.unicode_len() > 0 {
            out.append(line);
            out.append("\n");
        }
        i += 1;
    }
    assert(texts(nodes@).take(nodes@.len() as int) =~= texts(nodes@));
    out
}

/// The text of the body of an HTML page, one line for each text node that
/// holds more than white space.
pub fn extract_text_from_html(html: &str) -> (out: String)
    ensures
        out@ == text_lines(html_body_texts(html@)),
{
    let nodes = body_text_nodes(html);
    collect_text(&nodes)
}

/// Whether an answer is an HTML page: its content type, in lowercase, names
/// `text/html`, or its body holds `<html`.
pub open spec fn is_html(lowered_content_type: Seq<char>, body: Seq<char>) -> bool {
    occurs_in(lowered_content_type, "text/html"@) || occurs_in(body, "<html"@)
}

/// Whether an answer with the content type `lowered_content_type`, already in
/// lowercase, and the body `body` is an HTML page.
pub fn looks_like_html(lowered_content_type: &str, body: &str) -> (r: bool)
    ensures
        r == is_html(lowered_content_type@, body@),
{
    let kind = chars_of(lowered_content_type);
    let mark = chars_of("text/html");
    if chars_contain(&kind, &mark) {
        return true;
    }
    let text = chars_of(body);
    let tag = chars_of("<html");
    chars_contain(&text, &tag)
}

/// What the driver has fetched so far.
pub enum Fetched {
    /// Nothing yet.
    Nothing,
    /// The site's robots file; the empty text where it could not be had.
    Robots(String),
    /// The answer to the page request.
    Page { status: u16, content_type: String, body: String },
    /// The page request did not get through; with what the driver was told of it.
    Failed(String),
}

/// What a fetch does next.
pub enum FetchStep {
    /// Get the robots file at `url` and come back with it.
    GetRobots { url: String },
    /// Get the page at `url` as `user_agent` and come back with the answer.
    GetPage { url: String, user_agent: String },
    /// The fetch is over: the text of the page, or why there is none.
    Done(Result<String, WebError>),
}

/// What a `Fetched` holds, as text.
pub enum FetchedText {
    Nothing,
    Robots(Seq<char>),
    Page { status: u16, content_type: Seq<char>, body: Seq<char> },
    Failed(Seq<char>),
}

/// What a `FetchStep` holds, as text.
pub enum FetchStepText {
    GetRobots { url: Seq<char> },
    GetPage { url: Seq<char>, user_agent: Seq<char> },
    Done(Result<Seq<char>, WebErrorText>),
}

impl View for Fetched {
    type V = FetchedText;

    open spec fn view(&self) -> FetchedText {
        match *self {
            Fetched::Nothing => FetchedText::Nothing,
            Fetched::Robots(t) => FetchedText::Robots(t@),
            Fetched::Page { status, content_type, body } => FetchedText::Page {
                status,
                content_type: content_type@,
                body: body@,
            },
            Fetched::Failed(said) => FetchedText::Failed(said@),
        }
    }
}

impl View for FetchStep {
    type V = FetchStepText;

    open spec fn view(&self) -> FetchStepText {
        match *self {
            FetchStep::GetRobots { url } => FetchStepText::GetRobots { url: url@ },
            FetchStep::GetPage { url, user_agent } => FetchStepText::GetPage {
                url: url@,
                user_agent: user_agent@,
            },
            FetchStep::Done(Ok(text)) => FetchStepText::Done(Ok(text@)),
            FetchStep::Done(Err(e)) => FetchStepText::Done(Err(e@)),
        }
    }
}

/// The page request for `url` under `settings`.
pub open spec fn page_request(settings: Settings, url: Seq<char>) -> FetchStepText {
    FetchStepText::GetPage {
        url,
        user_agent: match settings.web_user_agent {
            Some(a) => a@,
            None => DEFAULT_USER_AGENT@,
        },
    }
}

/// The next step of a fetch of `url`. First the guard decides. Then the
/// robots file is asked for, unless the settings switch it off, and the page
/// is asked for where the file does not block it. An answer with a status
/// outside 200 to 299 is an error. The text is the body, or the text of its
/// HTML where it is an HTML page.
pub open spec fn next_fetch(settings: Settings, url: Seq<char>, fetched: FetchedText) -> FetchStepText {
    match fetched {
        FetchedText::Nothing => match domain_decision(
            url_host(url),
            opt_texts(settings.deny_domains),
            opt_texts(settings.allow_domains),
        ) {
            Err(v) => FetchStepText::Done(Err(WebErrorText::Policy(v))),
            Ok(_) => if !respects_robots(settings) {
                page_request(settings, url)
            } else {
                match url_parts(url) {
                    Ok((scheme, host, _)) => FetchStepText::GetRobots {
                        url: robots_address_of(scheme, host),
                    },
                    Err(complaint) => FetchStepText::Done(Err(WebErrorText::InvalidUrl(complaint))),
                }
            },
        },
        FetchedText::Robots(robots_txt) => match robots_verdict(settings, url, robots_txt) {
            Err(e) => FetchStepText::Done(Err(e)),
            Ok(true) => FetchStepText::Done(Err(WebErrorText::BlockedByRobots)),
            Ok(false) => page_request(settings, url),
        },
        FetchedText::Page { status, content_type, body } => if !(200 <= status < 300) {
            FetchStepText::Done(Err(WebErrorText::Status(status)))
        } else if is_html(lowercase(content_type), body) {
            FetchStepText::Done(Ok(text_lines(html_body_texts(body))))
        } else {
            FetchStepText::Done(Ok(body))
        },
        FetchedText::Failed(said) => FetchStepText::Done(Err(WebErrorText::Unavailable(said))),
    }
}

fn get_page(settings: &Settings, url: &str) -> (step: FetchStep)
    ensures
        step@ == page_request(*settings, url@),
{
    let user_agent = match &settings.web_user_agent {
        Some(a) => a.clone(),
        None => String::from_str(DEFAULT_USER_AGENT),
    };
    FetchStep::GetPage { url: String::from_str(url), user_agent }
}

/// One step of fetching the page at `url` as text, from what was fetched so far.
pub fn fetch_text(settings: &Settings, url: &str, fetched: &Fetched) -> (step: FetchStep)
    ensures
        step@ == next_fetch(*settings, url@, fetched@),
{
    match fetched {
        Fetched::Nothing => {
            match check_domain_policy(settings, url) {
                Err(v) => {
                    return FetchStep::Done(Err(WebError::Policy(v)));
                },
                Ok(_) => {},
            }
            let respect = match settings.respect_robots {
                Some(b) => b,
                None => true,
            };
            if !respect {
                return get_page(settings, url);
            }
            match parse_url(url) {
                Ok(parts) => FetchStep::GetRobots { url: robots_url_of(&parts) },
                Err(complaint) => FetchStep::Done(Err(WebError::InvalidUrl(complaint))),
            }
        },
        Fetched::Robots(robots_txt) => match should_block_by_robots(
            settings,
            url,
            robots_txt.as_str(),
        ) {
            Err(e) => FetchStep::Done(Err(e)),
            Ok(true) => FetchStep::Done(Err(WebError::BlockedByRobots)),
            Ok(false) => get_page(settings, url),
        },
        Fetched::Page { status, content_type, body } => {
            if *status < 200 || *status >= 300 {
                return FetchStep::Done(Err(WebError::Status(*status)));
            }
            let lowered = to_lowercase(content_type.as_str());
            if looks_like_html(lowered.as_str(), body.as_str()) {
                FetchStep::Done(Ok(extract_text_from_html(body.as_str())))
            } else {
                FetchStep::Done(Ok(body.clone()))
            }
        },
        Fetched::Failed(said) => FetchStep::Done(Err(WebError::Unavailable(said.clone()))),
    }
}

} // verus!
