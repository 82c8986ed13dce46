use milyai::llm::{
    inference_threads, Dispatch, LlmClient, LlmProvider, ProviderError, ProviderReply,
    CHAT_PREAMBLE, OFFLINE_REPLY,
};
use milyai::settings::Settings;

fn settings(key: bool, server: bool, endpoint: bool, model: bool) -> Settings {
    let mut s = Settings::default();
    if key {
        s.openai_api_key = Some("test-key".to_string());
    }
    if server {
        s.ollama_url = Some("http://10.0.0.2:11434".to_string());
    }
    if endpoint {
        s.llm_endpoint = Some("http://stub.test/generate".to_string());
    }
    if model {
        s.llama_model_path = Some("/models/m.bin".to_string());
    }
    s
}

fn client(provider: LlmProvider) -> LlmClient {
    let c = match provider {
        LlmProvider::Offline => LlmClient::new(settings(false, false, false, false)),
        LlmProvider::OpenAi => LlmClient::new(settings(true, false, false, false)),
        LlmProvider::Ollama => LlmClient::new(settings(false, true, false, false)),
        LlmProvider::Endpoint => LlmClient::new(settings(false, false, true, false)),
        LlmProvider::LlamaRs => LlmClient::new(settings(false, false, false, true)),
    };
    assert_eq!(c.provider(), provider);
    c
}

fn http(status: u16, text: Option<&str>) -> ProviderReply {
    ProviderReply::Http {
        status,
        text: text.map(|t| t.to_string()).ok_or("missing field `text`".to_string()),
    }
}

fn down() -> ProviderReply {
    ProviderReply::Unavailable("error sending request".to_string())
}

#[test]
fn selection_follows_the_fixed_precedence() {
    for bits in 0..16u8 {
        let (key, server, endpoint, model) =
            (bits & 1 != 0, bits & 2 != 0, bits & 4 != 0, bits & 8 != 0);
        let expected = if model {
            LlmProvider::LlamaRs
        } else if endpoint {
            LlmProvider::Endpoint
        } else if server {
            LlmProvider::Ollama
        } else if key {
            LlmProvider::OpenAi
        } else {
            LlmProvider::Offline
        };
        assert_eq!(LlmClient::new(settings(key, server, endpoint, model)).provider(), expected);
    }
}

#[test]
fn endpoint_wins_over_self_hosted_server() {
    let c = LlmClient::new(settings(false, true, true, false));
    assert_eq!(c.provider(), LlmProvider::Endpoint);
    match c.generate("p") {
        Ok(Dispatch::PostPrompt { url, prompt }) => {
            assert_eq!(url, "http://stub.test/generate");
            assert_eq!(prompt, "p");
        }
        _ => panic!("the prompt must go to the generic endpoint"),
    }
}

#[test]
fn local_model_wins_over_everything() {
    let c = LlmClient::new(settings(true, true, true, true));
    assert_eq!(c.provider(), LlmProvider::LlamaRs);
    match c.generate("p") {
        Ok(Dispatch::Infer { prompt }) => assert_eq!(prompt, "p"),
        _ => panic!("the prompt must go to the local model"),
    }
}

#[test]
fn offline_replies_at_once_and_never_fails() {
    let c = client(LlmProvider::Offline);
    match c.generate("anything") {
        Ok(Dispatch::Settled { reply }) => {
            assert_eq!(reply, "[offline] Connect a local LLM or set llm_endpoint");
            assert_eq!(reply, OFFLINE_REPLY);
        }
        _ => panic!("the offline backend sends nothing"),
    }
    for reply in [
        down(),
        http(500, None),
        ProviderReply::Chat { choices: Vec::new() },
        ProviderReply::Local { tokens: Vec::new() },
    ] {
        assert_eq!(c.receive(&reply), Ok(OFFLINE_REPLY.to_string()));
    }
}

#[test]
fn hosted_api_gets_preamble_and_prompt() {
    let c = client(LlmProvider::OpenAi);
    match c.generate("halo") {
        Ok(Dispatch::Chat { api_key, model, system, user }) => {
            assert_eq!(api_key, "test-key");
            assert_eq!(model, "gpt-4o-mini");
            assert_eq!(system, CHAT_PREAMBLE);
            assert!(system.starts_with("You are Mily, a warm, natural, concise Indonesian"));
            assert_eq!(user, "halo");
        }
        _ => panic!("the prompt must go to the chat API"),
    }
    let mut s = settings(true, false, false, false);
    s.openai_model = Some("other-model".to_string());
    match LlmClient::new(s).generate("halo") {
        Ok(Dispatch::Chat { model, .. }) => assert_eq!(model, "other-model"),
        _ => panic!("the prompt must go to the chat API"),
    }
}

#[test]
fn self_hosted_server_gets_a_non_streaming_generate_request() {
    let c = client(LlmProvider::Ollama);
    match c.generate("halo") {
        Ok(Dispatch::PostGenerate { url, model, prompt, stream }) => {
            assert_eq!(url, "http://10.0.0.2:11434/api/generate");
            assert_eq!(model, "llama3.1:8b");
            assert_eq!(prompt, "halo");
            assert!(!stream);
        }
        _ => panic!("the prompt must go to the self-hosted server"),
    }
    let mut s = settings(false, true, false, false);
    s.ollama_model = Some("tiny".to_string());
    match LlmClient::new(s).generate("halo") {
        Ok(Dispatch::PostGenerate { model, .. }) => assert_eq!(model, "tiny"),
        _ => panic!("the prompt must go to the self-hosted server"),
    }
}

#[test]
fn http_backends_take_the_text_of_a_successful_answer() {
    let failed: [(LlmProvider, fn(u16) -> ProviderError); 2] = [
        (LlmProvider::Endpoint, ProviderError::RequestFailed),
        (LlmProvider::Ollama, ProviderError::ServerRequestFailed),
    ];
    for (provider, failure) in failed {
        let c = client(provider);
        assert_eq!(c.receive(&http(200, Some("ok"))), Ok("ok".to_string()));
        assert_eq!(c.receive(&http(299, Some(""))), Ok(String::new()));
        assert_eq!(c.receive(&http(199, Some("ok"))), Err(failure(199)));
        assert_eq!(c.receive(&http(300, Some("ok"))), Err(failure(300)));
        assert_eq!(c.receive(&http(404, None)), Err(failure(404)));
        assert_eq!(c.receive(&ProviderReply::NotLoaded), Err(ProviderError::Unexpected));
        assert_eq!(c.receive(&http(200, None)), Err(ProviderError::Malformed("missing field `text`".to_string())));
        assert_eq!(c.receive(&down()), Err(ProviderError::Unavailable("error sending request".to_string())));
        assert_eq!(
            c.receive(&ProviderReply::Chat { choices: vec![Some("x".to_string())] }),
            Err(ProviderError::Unexpected)
        );
        assert_eq!(
            c.receive(&ProviderReply::Local { tokens: vec!["x".to_string()] }),
            Err(ProviderError::Unexpected)
        );
    }
}

#[test]
fn hosted_api_takes_the_first_choice() {
    let c = client(LlmProvider::OpenAi);
    let choices = vec![Some("first".to_string()), Some("second".to_string())];
    assert_eq!(c.receive(&ProviderReply::Chat { choices }), Ok("first".to_string()));
    assert_eq!(
        c.receive(&ProviderReply::Chat { choices: vec![None, Some("second".to_string())] }),
        Ok(String::new())
    );
    assert_eq!(
        c.receive(&ProviderReply::Chat { choices: Vec::new() }),
        Err(ProviderError::NoChoices)
    );
    assert_eq!(c.receive(&down()), Err(ProviderError::Unavailable("error sending request".to_string())));
    assert_eq!(c.receive(&http(200, Some("x"))), Err(ProviderError::Unexpected));
}

#[test]
fn local_model_joins_its_tokens() {
    let c = client(LlmProvider::LlamaRs);
    let tokens = vec!["Ha".to_string(), "lo".to_string(), "".to_string(), "!".to_string()];
    assert_eq!(c.receive(&ProviderReply::Local { tokens }), Ok("Halo!".to_string()));
    assert_eq!(c.receive(&ProviderReply::Local { tokens: Vec::new() }), Ok(String::new()));
    assert_eq!(c.receive(&ProviderReply::NotLoaded), Err(ProviderError::ModelNotInitialized));
    assert_eq!(c.receive(&down()), Err(ProviderError::Unavailable("error sending request".to_string())));
    assert_eq!(c.receive(&http(200, Some("x"))), Err(ProviderError::Unexpected));
}

#[test]
fn only_the_local_backend_has_a_model_to_load() {
    for provider in
        [LlmProvider::Offline, LlmProvider::OpenAi, LlmProvider::Ollama, LlmProvider::Endpoint]
    {
        assert!(client(provider).local_model().is_none());
    }
    let mut s = settings(false, false, false, true);
    s.llama_n_threads = Some(3);
    let model = LlmClient::new(s).local_model().unwrap();
    assert_eq!(model.path, "/models/m.bin");
    assert_eq!(model.threads, 3);
}

#[test]
fn local_model_runs_on_all_processors_by_default() {
    let model = client(LlmProvider::LlamaRs).local_model().unwrap();
    assert_eq!(model.threads, num_cpus::get());
    assert!(model.threads >= 1);
}

#[test]
fn inference_threads_prefers_the_configured_number() {
    let mut s = Settings::default();
    assert_eq!(inference_threads(&s, 8), 8);
    s.llama_n_threads = Some(2);
    assert_eq!(inference_threads(&s, 8), 2);
    s.llama_n_threads = Some(0);
    assert_eq!(inference_threads(&s, 8), 0);
}

#[test]
fn duplicate_keeps_what_the_error_holds() {
    for e in [
        ProviderError::EndpointNotConfigured,
        ProviderError::ApiKeyNotSet,
        ProviderError::ModelNotInitialized,
        ProviderError::Unavailable("a".to_string()),
        ProviderError::RequestFailed(404),
        ProviderError::ServerRequestFailed(500),
        ProviderError::Malformed("b".to_string()),
        ProviderError::NoChoices,
        ProviderError::Unexpected,
        ProviderError::Empty,
    ] {
        assert_eq!(e.duplicate(), e);
    }
}

#[test]
fn forced_backend_without_its_setting_is_not_configured() {
    let endpoint = LlmClient::with_provider(Settings::default(), LlmProvider::Endpoint);
    assert_eq!(endpoint.provider(), LlmProvider::Endpoint);
    match endpoint.generate("halo") {
        Err(e) => {
            assert_eq!(e, ProviderError::EndpointNotConfigured);
            assert_eq!(e.reason(), "llm_endpoint not configured");
        }
        Ok(_) => panic!("nothing is to be sent without an endpoint"),
    }
    let chat = LlmClient::with_provider(Settings::default(), LlmProvider::OpenAi);
    match chat.generate("halo") {
        Err(e) => {
            assert_eq!(e, ProviderError::ApiKeyNotSet);
            assert_eq!(e.reason(), "OPENAI_API_KEY not set");
        }
        Ok(_) => panic!("nothing is to be sent without a key"),
    }
}

#[test]
fn forced_self_hosted_server_falls_back_to_the_local_address() {
    let c = LlmClient::with_provider(Settings::default(), LlmProvider::Ollama);
    match c.generate("p") {
        Ok(Dispatch::PostGenerate { url, model, prompt, stream }) => {
            assert_eq!(url, "http://127.0.0.1:11434/api/generate");
            assert_eq!(model, "llama3.1:8b");
            assert_eq!(prompt, "p");
            assert!(!stream);
        }
        _ => panic!("the prompt must go to the self-hosted server"),
    }
    let forced = LlmClient::with_provider(Settings::default(), LlmProvider::LlamaRs);
    assert!(forced.local_model().is_none());
}

#[test]
fn every_provider_error_has_its_reason() {
    assert_eq!(ProviderError::EndpointNotConfigured.reason(), "llm_endpoint not configured");
    assert_eq!(ProviderError::ApiKeyNotSet.reason(), "OPENAI_API_KEY not set");
    assert_eq!(ProviderError::ModelNotInitialized.reason(), "LLaMA model not initialized");
    assert_eq!(ProviderError::Unavailable("connection refused".to_string()).reason(), "connection refused");
    assert_eq!(ProviderError::RequestFailed(404).reason(), "LLM request failed: 404 Not Found");
    assert_eq!(
        ProviderError::ServerRequestFailed(500).reason(),
        "Ollama request failed: 500 Internal Server Error"
    );
    assert_eq!(
        ProviderError::Malformed("error decoding response body".to_string()).reason(),
        "error decoding response body"
    );
    assert_eq!(ProviderError::NoChoices.reason(), "no choices");
    assert_eq!(ProviderError::Unexpected.reason(), "LLM answer of another backend");
    assert_eq!(ProviderError::Empty.reason(), "LLM answer empty");
}

#[test]
fn status_is_shown_as_the_http_library_prints_it() {
    for status in [100u16, 199, 200, 299, 404, 418, 503, 599, 999] {
        let printed = reqwest::StatusCode::from_u16(status).unwrap().to_string();
        assert_eq!(milyai::status::show_status(status), printed);
        assert_eq!(
            ProviderError::RequestFailed(status).reason(),
            format!("LLM request failed: {printed}")
        );
    }
    assert_eq!(milyai::status::show_status(404), "404 Not Found");
    assert_eq!(milyai::status::show_status(299), "299 <unknown status code>");
    assert_eq!(milyai::status::show_status(0), "0");
    assert_eq!(milyai::status::show_status(99), "99");
    assert_eq!(milyai::status::show_status(1000), "1000");
    assert_eq!(milyai::status::show_status(u16::MAX), "65535");
}
