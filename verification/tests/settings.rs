use milyai::settings::{merge, Settings};

fn full(tag: &str) -> Settings {
    let text = |name: &str| Some(format!("{tag}-{name}"));
    let list = |name: &str| Some(vec![format!("{tag}-{name}")]);
    Settings {
        agent_name: text("agent_name"),
        persona: text("persona"),
        llm_endpoint: text("llm_endpoint"),
        memory_path: text("memory_path"),
        stt_model_path: text("stt_model_path"),
        web_user_agent: text("web_user_agent"),
        learn_urls: list("learn_urls"),
        learn_interval_secs: Some(tag.len() as u64),
        allow_domains: list("allow_domains"),
        deny_domains: list("deny_domains"),
        respect_robots: Some(tag.len() % 2 == 0),
        openai_api_key: text("openai_api_key"),
        openai_model: text("openai_model"),
        ollama_url: text("ollama_url"),
        ollama_model: text("ollama_model"),
        llama_model_path: text("llama_model_path"),
        llama_n_threads: Some(tag.len()),
        allow_dirs: list("allow_dirs"),
        allow_apps: list("allow_apps"),
        actions_auto_confirm: Some(tag.len() % 2 == 1),
        response_max_sentences: Some(tag.len() as u8),
        speaking_style: text("speaking_style"),
        tts_voice: text("tts_voice"),
    }
}

fn fields(s: &Settings) -> Vec<String> {
    vec![
        format!("{:?}", s.agent_name),
        format!("{:?}", s.persona),
        format!("{:?}", s.llm_endpoint),
        format!("{:?}", s.memory_path),
        format!("{:?}", s.stt_model_path),
        format!("{:?}", s.web_user_agent),
        format!("{:?}", s.learn_urls),
        format!("{:?}", s.learn_interval_secs),
        format!("{:?}", s.allow_domains),
        format!("{:?}", s.deny_domains),
        format!("{:?}", s.respect_robots),
        format!("{:?}", s.openai_api_key),
        format!("{:?}", s.openai_model),
        format!("{:?}", s.ollama_url),
        format!("{:?}", s.ollama_model),
        format!("{:?}", s.llama_model_path),
        format!("{:?}", s.llama_n_threads),
        format!("{:?}", s.allow_dirs),
        format!("{:?}", s.allow_apps),
        format!("{:?}", s.actions_auto_confirm),
        format!("{:?}", s.response_max_sentences),
        format!("{:?}", s.speaking_style),
        format!("{:?}", s.tts_voice),
    ]
}

#[test]
fn default_settings_set_nothing() {
    assert!(fields(&Settings::default()).iter().all(|f| f == "None"));
}

#[test]
fn merge_takes_every_field_that_the_other_sets() {
    assert_eq!(fields(&merge(full("base"), full("ov"))), fields(&full("ov")));
    assert_eq!(fields(&merge(Settings::default(), full("ov"))), fields(&full("ov")));
}

#[test]
fn merge_keeps_what_the_other_leaves_unset() {
    assert_eq!(fields(&merge(full("base"), Settings::default())), fields(&full("base")));
    assert!(fields(&merge(Settings::default(), Settings::default())).iter().all(|f| f == "None"));
}

#[test]
fn merge_goes_field_by_field() {
    let mut other = Settings::default();
    other.persona = Some("baru".to_string());
    other.allow_apps = Some(Vec::new());
    other.respect_robots = Some(false);
    let merged = merge(full("base"), other);
    let mut expected = full("base");
    expected.persona = Some("baru".to_string());
    expected.allow_apps = Some(Vec::new());
    expected.respect_robots = Some(false);
    assert_eq!(fields(&merged), fields(&expected));
}

#[test]
fn split_list_agrees_with_split_and_trim() {
    let samples = [
        "",
        ",",
        "a",
        "a,b",
        " a , b ",
        "a,,b",
        ",a,",
        "example.com, rust-lang.org ,\tcrates.io\n",
        "\u{a0}x\u{3000},\u{e9}",
        " , ",
    ];
    for sample in samples {
        let expected: Vec<String> = sample.split(',').map(|s| s.trim().to_string()).collect();
        assert_eq!(milyai::settings::split_list(sample, ','), expected, "{sample:?}");
    }
    assert_eq!(milyai::settings::split_list("/a b; /c;", ';'), vec!["/a b", "/c", ""]);
    assert_eq!(milyai::settings::split_list("a,b", ';'), vec!["a,b"]);
    assert_eq!(milyai::settings::split_list("", ','), vec![""]);
}

#[test]
fn switch_is_on_for_one_and_true() {
    for on in ["1", "true", "TRUE", "True", "tRuE"] {
        assert!(milyai::settings::is_on(on), "{on}");
    }
    for off in ["", "0", "yes", "on", " true", "true ", "01", "11", "false"] {
        assert!(!milyai::settings::is_on(off), "{off}");
    }
    assert!(milyai::settings::says_on("1", "anything"));
    assert!(milyai::settings::says_on("anything", "true"));
    assert!(!milyai::settings::says_on("true", "TRUE"));
}

#[test]
fn environment_sets_text_fields() {
    let s = milyai::settings::apply_env(Settings::default(), "MILYAI_AGENT_NAME", "Budi");
    assert_eq!(s.agent_name.as_deref(), Some("Budi"));
    assert_eq!(fields(&s).iter().filter(|f| *f != "None").count(), 1);
    let s = milyai::settings::apply_env(full("base"), "OPENAI_API_KEY", "");
    let mut expected = full("base");
    expected.openai_api_key = Some(String::new());
    assert_eq!(fields(&s), fields(&expected));
}

#[test]
fn environment_sets_each_field_by_its_name() {
    let cases: [(&str, &str, fn(&mut Settings)); 18] = [
        ("MILYAI_AGENT_NAME", "x", |s| s.agent_name = Some("x".into())),
        ("MILYAI_PERSONA", "x", |s| s.persona = Some("x".into())),
        ("MILYAI_LLM_ENDPOINT", "x", |s| s.llm_endpoint = Some("x".into())),
        ("MILYAI_WEB_USER_AGENT", "x", |s| s.web_user_agent = Some("x".into())),
        ("MILYAI_LEARN_INTERVAL_SECS", "60", |s| s.learn_interval_secs = Some(60)),
        ("MILYAI_ALLOW_DOMAINS", "a, b", |s| s.allow_domains = Some(vec!["a".into(), "b".into()])),
        ("MILYAI_DENY_DOMAINS", "a,b ", |s| s.deny_domains = Some(vec!["a".into(), "b".into()])),
        ("MILYAI_RESPECT_ROBOTS", "TRUE", |s| s.respect_robots = Some(true)),
        ("OPENAI_API_KEY", "x", |s| s.openai_api_key = Some("x".into())),
        ("MILYAI_OPENAI_MODEL", "x", |s| s.openai_model = Some("x".into())),
        ("MILYAI_OLLAMA_URL", "x", |s| s.ollama_url = Some("x".into())),
        ("MILYAI_OLLAMA_MODEL", "x", |s| s.ollama_model = Some("x".into())),
        ("MILYAI_ALLOW_DIRS", "/a; /b,c", |s| s.allow_dirs = Some(vec!["/a".into(), "/b,c".into()])),
        ("MILYAI_ALLOW_APPS", "code", |s| s.allow_apps = Some(vec!["code".into()])),
        ("MILYAI_ACTIONS_AUTO_CONFIRM", "0", |s| s.actions_auto_confirm = Some(false)),
        ("MILYAI_RESPONSE_MAX_SENTENCES", "3", |s| s.response_max_sentences = Some(3)),
        ("MILYAI_SPEAKING_STYLE", "x", |s| s.speaking_style = Some("x".into())),
        ("MILYAI_TTS_VOICE", "x", |s| s.tts_voice = Some("x".into())),
    ];
    let names = milyai::settings::env_names();
    assert_eq!(names.len(), cases.len());
    for (name, value, set) in cases {
        assert!(names.contains(&name), "{name}");
        let mut expected = full("base");
        set(&mut expected);
        let got = milyai::settings::apply_env(full("base"), name, value);
        assert_eq!(fields(&got), fields(&expected), "{name}");
    }
}

#[test]
fn environment_number_that_does_not_parse_clears_the_field() {
    let s = milyai::settings::apply_env(full("base"), "MILYAI_LEARN_INTERVAL_SECS", "soon");
    assert_eq!(s.learn_interval_secs, None);
    let s = milyai::settings::apply_env(full("base"), "MILYAI_RESPONSE_MAX_SENTENCES", "256");
    assert_eq!(s.response_max_sentences, None);
    let s = milyai::settings::apply_env(full("base"), "MILYAI_RESPONSE_MAX_SENTENCES", "255");
    assert_eq!(s.response_max_sentences, Some(255));
}

#[test]
fn unknown_environment_variable_changes_nothing() {
    for name in ["", "HOME", "milyai_agent_name", "MILYAI_AGENT_NAME ", "MILYAI_TEMPERATURE"] {
        let s = milyai::settings::apply_env(full("base"), name, "x");
        assert_eq!(fields(&s), fields(&full("base")), "{name}");
    }
}

#[test]
fn parse_unsigned_agrees_with_std() {
    let samples = [
        "", "+", "-", "0", "00", "007", "+5", "++5", "-5", "-0", " 5", "5 ", "5a", "a5", "1_000",
        "255", "256", "65535", "18446744073709551615", "18446744073709551616",
        "99999999999999999999999", "+18446744073709551615", "\u{663}", "\u{ff11}", "1.0", "0x10",
    ];
    for sample in samples {
        assert_eq!(
            milyai::text::parse_unsigned(sample, u64::MAX),
            sample.parse::<u64>().ok(),
            "{sample:?}"
        );
        assert_eq!(
            milyai::text::parse_unsigned(sample, 255),
            sample.parse::<u8>().ok().map(u64::from),
            "{sample:?}"
        );
    }
    assert_eq!(milyai::text::parse_unsigned("7", 6), None);
    assert_eq!(milyai::text::parse_unsigned("0", 0), Some(0));
}

fn pair(name: &str, value: &str) -> (String, String) {
    (name.to_string(), value.to_string())
}

#[test]
fn load_without_file_or_environment_sets_nothing() {
    let s = milyai::settings::load(None, &Vec::new());
    assert!(fields(&s).iter().all(|f| f == "None"));
}

#[test]
fn load_takes_the_file_as_it_is() {
    let s = milyai::settings::load(Some(full("file")), &Vec::new());
    assert_eq!(fields(&s), fields(&full("file")));
}

#[test]
fn load_lays_the_environment_over_the_file() {
    let env = vec![
        pair("MILYAI_PERSONA", "tenang"),
        pair("MILYAI_ALLOW_APPS", "code, vim"),
        pair("HOME", "/root"),
        pair("MILYAI_LEARN_INTERVAL_SECS", "x"),
    ];
    let s = milyai::settings::load(Some(full("file")), &env);
    let mut expected = full("file");
    expected.persona = Some("tenang".to_string());
    expected.allow_apps = Some(vec!["code".to_string(), "vim".to_string()]);
    expected.learn_interval_secs = None;
    assert_eq!(fields(&s), fields(&expected));
    let s = milyai::settings::load(None, &env);
    let mut expected = Settings::default();
    expected.persona = Some("tenang".to_string());
    expected.allow_apps = Some(vec!["code".to_string(), "vim".to_string()]);
    assert_eq!(fields(&s), fields(&expected));
}

#[test]
fn load_lets_the_later_variable_win() {
    let env = vec![pair("MILYAI_AGENT_NAME", "a"), pair("MILYAI_AGENT_NAME", "b")];
    assert_eq!(milyai::settings::load(None, &env).agent_name.as_deref(), Some("b"));
}
