//! The configuration that the components are built from. It is read once, when a
//! component is made, and never looked up again.

use crate::text::{
    chars_of, lowercase, opt_text, opt_texts, parse_unsigned, parsed_unsigned, same_text, texts,
    to_lowercase, trim, trimmed,
};
use vstd::prelude::*;

verus! {

/// What the assistant was configured with. A field that is `None` was not set.
pub struct Settings {
    pub agent_name: Option<String>,
    pub persona: Option<String>,
    pub llm_endpoint: Option<String>,
    pub memory_path: Option<String>,
    pub stt_model_path: Option<String>,
    pub web_user_agent: Option<String>,
    pub learn_urls: Option<Vec<String>>,
    pub learn_interval_secs: Option<u64>,
    pub allow_domains: Option<Vec<String>>,
    pub deny_domains: Option<Vec<String>>,
    pub respect_robots: Option<bool>,
    pub openai_api_key: Option<String>,
    pub openai_model: Option<String>,
    pub ollama_url: Option<String>,
    pub ollama_model: Option<String>,
    pub llama_model_path: Option<String>,
    pub llama_n_threads: Option<usize>,
    pub allow_dirs: Option<Vec<String>>,
    pub allow_apps: Option<Vec<String>>,
    pub actions_auto_confirm: Option<bool>,
    pub response_max_sentences: Option<u8>,
    pub speaking_style: Option<String>,
    pub tts_voice: Option<String>,
}

impl Settings {
    /// Nothing is set.
    pub open spec fn is_blank(self) -> bool {
        &&& self.agent_name is None
        &&& self.persona is None
        &&& self.llm_endpoint is None
        &&& self.memory_path is None
        &&& self.stt_model_path is None
        &&& self.web_user_agent is None
        &&& self.learn_urls is None
        &&& self.learn_interval_secs is None
        &&& self.allow_domains is None
        &&& self.deny_domains is None
        &&& self.respect_robots is None
        &&& self.openai_api_key is None
        &&& self.openai_model is None
        &&& self.ollama_url is None
        &&& self.ollama_model is None
        &&& self.llama_model_path is None
        &&& self.llama_n_threads is None
        &&& self.allow_dirs is None
        &&& self.allow_apps is None
        &&& self.actions_auto_confirm is None
        &&& self.response_max_sentences is None
        &&& self.speaking_style is None
        &&& self.tts_voice is None
    }
}

impl Default for Settings {
    fn default() -> (s: Settings)
        ensures
            s.is_blank(),
    {
        Settings {
            agent_name: None,
            persona: None,
            llm_endpoint: None,
            memory_path: None,
            stt_model_path: None,
            web_user_agent: None,
            learn_urls: None,
            learn_interval_secs: None,
            allow_domains: None,
            deny_domains: None,
            respect_robots: None,
            openai_api_key: None,
            openai_model: None,
            ollama_url: None,
            ollama_model: None,
            llama_model_path: None,
            llama_n_threads: None,
            allow_dirs: None,
            allow_apps: None,
            actions_auto_confirm: None,
            response_max_sentences: None,
            speaking_style: None,
            tts_voice: None,
        }
    }
}

/// `over` where it is set, else `base`.
pub open spec fn overlaid<T>(base: Option<T>, over: Option<T>) -> Option<T> {
    if over is Some {
        over
    } else {
        base
    }
}

fn overlay<T>(base: Option<T>, over: Option<T>) -> (r: Option<T>)
    ensures
        r == overlaid(base, over),
{
    if over.is_some() {
        over
    } else {
        base
    }
}

/// Field by field, `other` laid over `base`.
pub open spec fn merged(base: Settings, other: Settings) -> Settings {
    Settings {
        agent_name: overlaid(base.agent_name, other.agent_name),
        persona: overlaid(base.persona, other.persona),
        llm_endpoint: overlaid(base.llm_endpoint, other.llm_endpoint),
        memory_path: overlaid(base.memory_path, other.memory_path),
        stt_model_path: overlaid(base.stt_model_path, other.stt_model_path),
        web_user_agent: overlaid(base.web_user_agent, other.web_user_agent),
        learn_urls: overlaid(base.learn_urls, other.learn_urls),
        learn_interval_secs: overlaid(base.learn_interval_secs, other.learn_interval_secs),
        allow_domains: overlaid(base.allow_domains, other.allow_domains),
        deny_domains: overlaid(base.deny_domains, other.deny_domains),
        respect_robots: overlaid(base.respect_robots, other.respect_robots),
        openai_api_key: overlaid(base.openai_api_key, other.openai_api_key),
        openai_model: overlaid(base.openai_model, other.openai_model),
        ollama_url: overlaid(base.ollama_url, other.ollama_url),
        ollama_model: overlaid(base.ollama_model, other.ollama_model),
        llama_model_path: overlaid(base.llama_model_path, other.llama_model_path),
        llama_n_threads: overlaid(base.llama_n_threads, other.llama_n_threads),
        allow_dirs: overlaid(base.allow_dirs, other.allow_dirs),
        allow_apps: overlaid(base.allow_apps, other.allow_apps),
        actions_auto_confirm: overlaid(base.actions_auto_confirm, other.actions_auto_confirm),
        response_max_sentences: overlaid(
            base.response_max_sentences,
            other.response_max_sentences,
        ),
        speaking_style: overlaid(base.speaking_style, other.speaking_style),
        tts_voice: overlaid(base.tts_voice, other.tts_voice),
    }
}

/// Lays `other` over `base`: every field that `other` sets wins, every other
/// field keeps what `base` had.
pub fn merge(base: Settings, other: Settings) -> (r: Settings)
    ensures
        r == merged(base, other),
{
    Settings {
        agent_name: overlay(base.agent_name, other.agent_name),
        persona: overlay(base.persona, other.persona),
        llm_endpoint: overlay(base.llm_endpoint, other.llm_endpoint),
        memory_path: overlay(base.memory_path, other.memory_path),
        stt_model_path: overlay(base.stt_model_path, other.stt_model_path),
        web_user_agent: overlay(base.web_user_agent, other.web_user_agent),
        learn_urls: overlay(base.learn_urls, other.learn_urls),
        learn_interval_secs: overlay(base.learn_interval_secs, other.learn_interval_secs),
        allow_domains: overlay(base.allow_domains, other.allow_domains),
        deny_domains: overlay(base.deny_domains, other.deny_domains),
        respect_robots: overlay(base.respect_robots, other.respect_robots),
        openai_api_key: overlay(base.openai_api_key, other.openai_api_key),
        openai_model: overlay(base.openai_model, other.openai_model),
        ollama_url: overlay(base.ollama_url, other.ollama_url),
        ollama_model: overlay(base.ollama_model, other.ollama_model),
        llama_model_path: overlay(base.llama_model_path, other.llama_model_path),
        llama_n_threads: overlay(base.llama_n_threads, other.llama_n_threads),
        allow_dirs: overlay(base.allow_dirs, other.allow_dirs),
        allow_apps: overlay(base.allow_apps, other.allow_apps),
        actions_auto_confirm: overlay(base.actions_auto_confirm, other.actions_auto_confirm),
        response_max_sentences: overlay(base.response_max_sentences, other.response_max_sentences),
        speaking_style: overlay(base.speaking_style, other.speaking_style),
        tts_voice: overlay(base.tts_voice, other.tts_voice),
    }
}

/// The pieces of `s` between the occurrences of `separator`. There is one
/// piece more than there are separators: a text without separator is one
/// piece, the empty text too.
pub open spec fn split_on(s: Seq<char>, separator: char) -> Seq<Seq<char>>
    decreases s.len(),
{
    if s.len() == 0 {
        seq![Seq::empty()]
    } else {
        let before = split_on(s.drop_last(), separator);
        if s.last() == separator {
            before.push(Seq::empty())
        } else {
            before.drop_last().push(before.last().push(s.last()))
        }
    }
}

/// The items of a list that is written as one text: its pieces between the
/// separators, each without the white space around it.
pub open spec fn list_items(value: Seq<char>, separator: char) -> Seq<Seq<char>> {
    trimmed_all(split_on(value, separator))
}

/// Each of `pieces` without the white space around it.
pub open spec fn trimmed_all(pieces: Seq<Seq<char>>) -> Seq<Seq<char>> {
    Seq::new(pieces.len(), |i: int| trimmed(pieces[i]))
}

proof fn lemma_trimmed_all_push(out: Seq<String>, item: String, raw: Seq<Seq<char>>, piece: Seq<char>)
    requires
        texts(out) == trimmed_all(raw),
        item@ == trimmed(piece),
    ensures
        texts(out.push(item)) == trimmed_all(raw.push(piece)),
{
    let left = texts(out.push(item));
    let right = trimmed_all(raw.push(piece));
    assert(texts(out).len() == raw.len());
    assert(left.len() == right.len());
    assert forall|k: int| 0 <= k < left.len() implies left[k] == right[k] by {
        if k < raw.len() {
            assert(left[k] == texts(out)[k]);
            assert(trimmed_all(raw)[k] == trimmed(raw[k]));
            assert(raw.push(piece)[k] == raw[k]);
        } else {
            assert(raw.push(piece)[k] == piece);
        }
    }
    assert(left =~= right);
}

/// Reads a list that is written as one text, such as the value of an
/// environment variable: splits at `separator` and trims each item.
pub fn split_list(value: &str, separator: char) -> (out: Vec<String>)
    ensures
        texts(out@) == list_items(value@, separator),
{
    let cs = chars_of(value);
    let mut out: Vec<String> = Vec::new();
    let ghost mut raw: Seq<Seq<char>> = Seq::empty();
    let mut start: usize = 0;
    let mut at: usize = 0;
    proof {
        assert(cs@.take(0) =~= Seq::empty());
        assert(cs@.subrange(0, 0) =~= Seq::empty());
        assert(split_on(cs@.take(0), separator) =~= raw.push(cs@.subrange(0, 0)));
        assert(texts(out@) =~= trimmed_all(raw));
    }
    while at < cs.len()
        invariant
            cs@ == value@,
            start <= at <= cs.len(),
            split_on(cs@.take(at as int), separator) == raw.push(
                cs@.subrange(start as int, at as int),
            ),
            texts(out@) == trimmed_all(raw),
        decreases cs.len() - at,
    {
        proof {
            let upto = cs@.take(at + 1);
            assert(upto.drop_last() =~= cs@.take(at as int));
            assert(upto.last() == cs@[at as int]);
            let before = raw.push(cs@.subrange(start as int, at as int));
            assert(before.drop_last() =~= raw);
            assert(cs@.subrange(start as int, at as int).push(cs@[at as int]) =~= cs@.subrange(
                start as int,
                at + 1,
            ));
            assert(cs@.subrange(at + 1, at + 1) =~= Seq::empty());
        }
        if cs[at] == separator {
            let piece = value.substring_char(start, at);
            let item = String::from_str(trim(piece));
            proof {
                let grown = raw.push(piece@);
                lemma_trimmed_all_push(out@, item, raw, piece@);
                raw = grown;
            }
            out.push(item);
            start = at + 1;
        }
        at += 1;
    }
    let piece = value.substring_char(start, cs.len());
    let item = String::from_str(trim(piece));
    proof {
        assert(cs@.take(cs@.len() as int) =~= cs@);
        lemma_trimmed_all_push(out@, item, raw, piece@);
    }
    out.push(item);
    out
}

/// Whether a switch that is written as text is on: the text is `1`, or is
/// `true` once in lowercase.
pub open spec fn switch_is_on(value: Seq<char>) -> bool {
    value == "1"@ || lowercase(value) == "true"@
}

/// Whether `value`, with its lowercase form `lowered`, says that a switch is on.
pub fn says_on(value: &str, lowered: &str) -> (r: bool)
    ensures
        r == (value@ == "1"@ || lowered@ == "true"@),
{
    same_text(value, "1") || same_text(lowered, "true")
}

/// Reads a switch that is written as text, such as the value of an environment variable.
pub fn is_on(value: &str) -> (r: bool)
    ensures
        r == switch_is_on(value@),
{
    let lowered = to_lowercase(value);
    says_on(value, lowered.as_str())
}

/// What the settings hold, as text.
pub struct SettingsText {
    pub agent_name: Option<Seq<char>>,
    pub persona: Option<Seq<char>>,
    pub llm_endpoint: Option<Seq<char>>,
    pub memory_path: Option<Seq<char>>,
    pub stt_model_path: Option<Seq<char>>,
    pub web_user_agent: Option<Seq<char>>,
    pub learn_urls: Option<Seq<Seq<char>>>,
    pub learn_interval_secs: Option<u64>,
    pub allow_domains: Option<Seq<Seq<char>>>,
    pub deny_domains: Option<Seq<Seq<char>>>,
    pub respect_robots: Option<bool>,
    pub openai_api_key: Option<Seq<char>>,
    pub openai_model: Option<Seq<char>>,
    pub ollama_url: Option<Seq<char>>,
    pub ollama_model: Option<Seq<char>>,
    pub llama_model_path: Option<Seq<char>>,
    pub llama_n_threads: Option<usize>,
    pub allow_dirs: Option<Seq<Seq<char>>>,
    pub allow_apps: Option<Seq<Seq<char>>>,
    pub actions_auto_confirm: Option<bool>,
    pub response_max_sentences: Option<u8>,
    pub speaking_style: Option<Seq<char>>,
    pub tts_voice: Option<Seq<char>>,
}

impl View for Settings {
    type V = SettingsText;

    open spec fn view(&self) -> SettingsText {
        SettingsText {
            agent_name: opt_text(self.agent_name),
            persona: opt_text(self.persona),
            llm_endpoint: opt_text(self.llm_endpoint),
            memory_path: opt_text(self.memory_path),
            stt_model_path: opt_text(self.stt_model_path),
            web_user_agent: opt_text(self.web_user_agent),
            learn_urls: opt_texts(self.learn_urls),
            learn_interval_secs: self.learn_interval_secs,
            allow_domains: opt_texts(self.allow_domains),
            deny_domains: opt_texts(self.deny_domains),
            respect_robots: self.respect_robots,
            openai_api_key: opt_text(self.openai_api_key),
            openai_model: opt_text(self.openai_model),
            ollama_url: opt_text(self.ollama_url),
            ollama_model: opt_text(self.ollama_model),
            llama_model_path: opt_text(self.llama_model_path),
            llama_n_threads: self.llama_n_threads,
            allow_dirs: opt_texts(self.allow_dirs),
            allow_apps: opt_texts(self.allow_apps),
            actions_auto_confirm: self.actions_auto_confirm,
            response_max_sentences: self.response_max_sentences,
            speaking_style: opt_text(self.speaking_style),
            tts_voice: opt_text(self.tts_voice),
        }
    }
}

/// The number of seconds that `value` writes, if it writes one.
pub open spec fn seconds_text(value: Seq<char>) -> Option<u64> {
    match parsed_unsigned(value, u64::MAX as nat) {
        Some(n) => Some(n as u64),
        None => None,
    }
}

/// The small number that `value` writes, if it writes one of at most 255.
pub open spec fn count_text(value: Seq<char>) -> Option<u8> {
    match parsed_unsigned(value, u8::MAX as nat) {
        Some(n) => Some(n as u8),
        None => None,
    }
}

/// The settings after the environment variable `name` with the value
/// `value` was laid over them. Each variable sets one field and leaves the
/// others; a variable that the settings do not know leaves all of them. A
/// number that does not parse clears its field.
pub open spec fn with_env(s: SettingsText, name: Seq<char>, value: Seq<char>) -> SettingsText {
    if name == "MILYAI_AGENT_NAME"@ {
        SettingsText { agent_name: Some(value), ..s }
    } else if name == "MILYAI_PERSONA"@ {
        SettingsText { persona: Some(value), ..s }
    } else if name == "MILYAI_LLM_ENDPOINT"@ {
        SettingsText { llm_endpoint: Some(value), ..s }
    } else if name == "MILYAI_WEB_USER_AGENT"@ {
        SettingsText { web_user_agent: Some(value), ..s }
    } else if name == "MILYAI_LEARN_INTERVAL_SECS"@ {
        SettingsText { learn_interval_secs: seconds_text(value), ..s }
    } else if name == "MILYAI_ALLOW_DOMAINS"@ {
        SettingsText { allow_domains: Some(list_items(value, ',')), ..s }
    } else if name == "MILYAI_DENY_DOMAINS"@ {
        SettingsText { deny_domains: Some(list_items(value, ',')), ..s }
    } else if name == "MILYAI_RESPECT_ROBOTS"@ {
        SettingsText { respect_robots: Some(switch_is_on(value)), ..s }
    } else if name == "OPENAI_API_KEY"@ {
        SettingsText { openai_api_key: Some(value), ..s }
    } else if name == "MILYAI_OPENAI_MODEL"@ {
        SettingsText { openai_model: Some(value), ..s }
    } else if name == "MILYAI_OLLAMA_URL"@ {
        SettingsText { ollama_url: Some(value), ..s }
    } else if name == "MILYAI_OLLAMA_MODEL"@ {
        SettingsText { ollama_model: Some(value), ..s }
    } else if name == "MILYAI_ALLOW_DIRS"@ {
        SettingsText { allow_dirs: Some(list_items(value, ';')), ..s }
    } else if name == "MILYAI_ALLOW_APPS"@ {
        SettingsText { allow_apps: Some(list_items(value, ',')), ..s }
    } else if name == "MILYAI_ACTIONS_AUTO_CONFIRM"@ {
        SettingsText { actions_auto_confirm: Some(switch_is_on(value)), ..s }
    } else if name == "MILYAI_RESPONSE_MAX_SENTENCES"@ {
        SettingsText { response_max_sentences: count_text(value), ..s }
    } else if name == "MILYAI_SPEAKING_STYLE"@ {
        SettingsText { speaking_style: Some(value), ..s }
    } else if name == "MILYAI_TTS_VOICE"@ {
        SettingsText { tts_voice: Some(value), ..s }
    } else {
        s
    }
}

fn parse_seconds(value: &str) -> (r: Option<u64>)
    ensures
        r == seconds_text(value@),
{
    parse_unsigned(value, u64::MAX)
}

fn parse_count(value: &str) -> (r: Option<u8>)
    ensures
        r == count_text(value@),
{
    match parse_unsigned(value, 255) {
        Some(n) => Some(n as u8),
        None => None,
    }
}

/// Lays one environment variable over the settings.
pub fn apply_env(settings: Settings, name: &str, value: &str) -> (r: Settings)
    ensures
        r@ == with_env(settings@, name@, value@),
{
    let mut s = settings;
    if same_text(name, "MILYAI_AGENT_NAME") {
        s.agent_name = Some(String::from_str(value));
    } else if same_text(name, "MILYAI_PERSONA") {
        s.persona = Some(String::from_str(value));
    } else if same_text(name, "MILYAI_LLM_ENDPOINT") {
        s.llm_endpoint = Some(String::from_str(value));
    } else if same_text(name, "MILYAI_WEB_USER_AGENT") {
        s.web_user_agent = Some(String::from_str(value));
    } else if same_text(name, "MILYAI_LEARN_INTERVAL_SECS") {
        s.learn_interval_secs = parse_seconds(value);
    } else if same_text(name, "MILYAI_ALLOW_DOMAINS") {
        s.allow_domains = Some(split_list(value, ','));
    } else if same_text(name, "MILYAI_DENY_DOMAINS") {
        s.deny_domains = Some(split_list(value, ','));
    } else if same_text(name, "MILYAI_RESPECT_ROBOTS") {
        s.respect_robots = Some(is_on(value));
    } else if same_text(name, "OPENAI_API_KEY") {
        s.openai_api_key = Some(String::from_str(value));
    } else if same_text(name, "MILYAI_OPENAI_MODEL") {
        s.openai_model = Some(String::from_str(value));
    } else if same_text(name, "MILYAI_OLLAMA_URL") {
        s.ollama_url = Some(String::from_str(value));
    } else if same_text(name, "MILYAI_OLLAMA_MODEL") {
        s.ollama_model = Some(String::from_str(value));
    } else if same_text(name, "MILYAI_ALLOW_DIRS") {
        s.allow_dirs = Some(split_list(value, ';'));
    } else if same_text(name, "MILYAI_ALLOW_APPS") {
        s.allow_apps = Some(split_list(value, ','));
    } else if same_text(name, "MILYAI_ACTIONS_AUTO_CONFIRM") {
        s.actions_auto_confirm = Some(is_on(value));
    } else if same_text(name, "MILYAI_RESPONSE_MAX_SENTENCES") {
        s.response_max_sentences = parse_count(value);
    } else if same_text(name, "MILYAI_SPEAKING_STYLE") {
        s.speaking_style = Some(String::from_str(value));
    } else if same_text(name, "MILYAI_TTS_VOICE") {
        s.tts_voice = Some(String::from_str(value));
    }
    s
}

/// The names of the environment variables that `apply_env` knows.
pub open spec fn env_name_texts() -> Seq<Seq<char>> {
    seq![
        "MILYAI_AGENT_NAME"@,
        "MILYAI_PERSONA"@,
        "MILYAI_LLM_ENDPOINT"@,
        "MILYAI_WEB_USER_AGENT"@,
        "MILYAI_LEARN_INTERVAL_SECS"@,
        "MILYAI_ALLOW_DOMAINS"@,
        "MILYAI_DENY_DOMAINS"@,
        "MILYAI_RESPECT_ROBOTS"@,
        "OPENAI_API_KEY"@,
        "MILYAI_OPENAI_MODEL"@,
        "MILYAI_OLLAMA_URL"@,
        "MILYAI_OLLAMA_MODEL"@,
        "MILYAI_ALLOW_DIRS"@,
        "MILYAI_ALLOW_APPS"@,
        "MILYAI_ACTIONS_AUTO_CONFIRM"@,
        "MILYAI_RESPONSE_MAX_SENTENCES"@,
        "MILYAI_SPEAKING_STYLE"@,
        "MILYAI_TTS_VOICE"@,
    ]
}

/// The names of the environment variables that `apply_env` knows.
pub fn env_names() -> (names: Vec<&'static str>)
    ensures
        names@.map_values(|n: &'static str| n@) == env_name_texts(),
{
    let mut names: Vec<&'static str> = Vec::new();
    names.push("MILYAI_AGENT_NAME");
    names.push("MILYAI_PERSONA");
    names.push("MILYAI_LLM_ENDPOINT");
    names.push("MILYAI_WEB_USER_AGENT");
    names.push("MILYAI_LEARN_INTERVAL_SECS");
    names.push("MILYAI_ALLOW_DOMAINS");
    names.push("MILYAI_DENY_DOMAINS");
    names.push("MILYAI_RESPECT_ROBOTS");
    names.push("OPENAI_API_KEY");
    names.push("MILYAI_OPENAI_MODEL");
    names.push("MILYAI_OLLAMA_URL");
    names.push("MILYAI_OLLAMA_MODEL");
    names.push("MILYAI_ALLOW_DIRS");
    names.push("MILYAI_ALLOW_APPS");
    names.push("MILYAI_ACTIONS_AUTO_CONFIRM");
    names.push("MILYAI_RESPONSE_MAX_SENTENCES");
    names.push("MILYAI_SPEAKING_STYLE");
    names.push("MILYAI_TTS_VOICE");
    assert(names@.map_values(|n: &'static str| n@) =~= env_name_texts());
    names
}

/// Settings that set nothing, as text.
pub open spec fn blank_text() -> SettingsText {
    SettingsText {
        agent_name: None,
        persona: None,
        llm_endpoint: None,
        memory_path: None,
        stt_model_path: None,
        web_user_agent: None,
        learn_urls: None,
        learn_interval_secs: None,
        allow_domains: None,
        deny_domains: None,
        respect_robots: None,
        openai_api_key: None,
        openai_model: None,
        ollama_url: None,
        ollama_model: None,
        llama_model_path: None,
        llama_n_threads: None,
        allow_dirs: None,
        allow_apps: None,
        actions_auto_confirm: None,
        response_max_sentences: None,
        speaking_style: None,
        tts_voice: None,
    }
}

/// The name and the value of each variable of `env`, as text.
pub open spec fn env_text(env: Seq<(String, String)>) -> Seq<(Seq<char>, Seq<char>)> {
    Seq::new(env.len(), |i: int| (env[i].0@, env[i].1@))
}

/// The settings after the variables of `env` were laid over them, one after the other.
pub open spec fn with_envs(s: SettingsText, env: Seq<(Seq<char>, Seq<char>)>) -> SettingsText
    decreases env.len(),
{
    if env.len() == 0 {
        s
    } else {
        with_env(with_envs(s, env.drop_last()), env.last().0, env.last().1)
    }
}

/// What is loaded from a configuration file and the environment: the
/// settings of the file, or none where there is no file, and the variables
/// of the environment over them.
pub open spec fn loaded(
    file: Option<SettingsText>,
    env: Seq<(Seq<char>, Seq<char>)>,
) -> SettingsText {
    with_envs(
        match file {
            Some(settings) => settings,
            None => blank_text(),
        },
        env,
    )
}

/// Makes the settings from what was read: `file` holds the settings of the
/// configuration file, where there is one, and `env` the variables of the
/// environment that are set, each with its name and value. The file is laid
/// over settings that set nothing, and each variable over the result.
pub fn load(file: Option<Settings>, env: &Vec<(String, String)>) -> (r: Settings)
    ensures
        r@ == loaded(
            match file {
                Some(settings) => Some(settings@),
                None => None,
            },
            env_text(env@),
        ),
{
    let mut s = match file {
        Some(settings) => {
            let laid = merge(Settings::default(), settings);
            assert(laid == settings);
            laid
        },
        None => Settings::default(),
    };
    let ghost base = s@;
    let mut i: usize = 0;
    assert(env_text(env@).take(0) =~= Seq::empty());
    while i < env.len()
        invariant
            i <= env.len(),
            s@ == with_envs(base, env_text(env@).take(i as int)),
        decreases env.len() - i,
    {
        proof {
            let upto = env_text(env@).take(i + 1);
            assert(upto.drop_last() =~= env_text(env@).take(i as int));
            assert(upto.last() == (env@[i as int].0@, env@[i as int].1@));
        }
        s = apply_env(s, env[i].0.as_str(), env[i].1.as_str());
        i += 1;
    }
    assert(env_text(env@).take(env@.len() as int) =~= env_text(env@));
    s
}

} // verus!
