//! The language-model backends behind one operation. Which backend serves is
//! chosen once, from the settings. To generate a reply the client says what
//! has to be sent; the driver sends it and hands back what came; the client
//! says what the reply is.

use crate::settings::Settings;
use crate::status::{show_status, status_text};
use crate::text::{concat, concat_all, texts};
use vstd::prelude::*;

verus! {

/// A backend that turns a prompt into a reply.
#[derive(Clone, Copy, Debug, PartialEq, Eq, Structural)]
pub enum LlmProvider {
    /// A generic HTTP endpoint: a prompt goes out, a text comes back.
    Endpoint,
    /// A hosted chat API.
    OpenAi,
    /// A self-hosted inference server.
    Ollama,
    /// A model that runs inside this process.
    LlamaRs,
    /// No backend: the reply is a fixed hint.
    Offline,
}

/// Why no reply could be generated.
#[derive(Clone, Debug, PartialEq, Eq)]
pub enum ProviderError {
    /// The generic endpoint serves and no endpoint is configured.
    EndpointNotConfigured,
    /// The hosted chat API serves and no key is configured.
    ApiKeyNotSet,
    /// The local model serves and was not loaded.
    ModelNotInitialized,
    /// The backend could not be reached, or failed in a way of its own; with
    /// what the driver was told of it.
    Unavailable(String),
    /// The generic endpoint answered with a status outside 200 to 299.
    RequestFailed(u16),
    /// The self-hosted server answered with a status outside 200 to 299.
    ServerRequestFailed(u16),
    /// The answer did not hold the text that was asked for; with what the
    /// decoder said of it.
    Malformed(String),
    /// The hosted API returned no choice.
    NoChoices,
    /// The answer is not of the kind that this backend gives.
    Unexpected,
    /// The backend answered with an empty text, which the agent takes for no answer.
    Empty,
}

/// What a `ProviderError` holds, as text.
pub enum ProviderErrorText {
    EndpointNotConfigured,
    ApiKeyNotSet,
    ModelNotInitialized,
    Unavailable(Seq<char>),
    RequestFailed(u16),
    ServerRequestFailed(u16),
    Malformed(Seq<char>),
    NoChoices,
    Unexpected,
    Empty,
}

impl View for ProviderError {
    type V = ProviderErrorText;

    open spec fn view(&self) -> ProviderErrorText {
        match *self {
            ProviderError::EndpointNotConfigured => ProviderErrorText::EndpointNotConfigured,
            ProviderError::ApiKeyNotSet => ProviderErrorText::ApiKeyNotSet,
            ProviderError::ModelNotInitialized => ProviderErrorText::ModelNotInitialized,
            ProviderError::Unavailable(said) => ProviderErrorText::Unavailable(said@),
            ProviderError::RequestFailed(status) => ProviderErrorText::RequestFailed(status),
            ProviderError::ServerRequestFailed(status) => ProviderErrorText::ServerRequestFailed(
                status,
            ),
            ProviderError::Malformed(said) => ProviderErrorText::Malformed(said@),
            ProviderError::NoChoices => ProviderErrorText::NoChoices,
            ProviderError::Unexpected => ProviderErrorText::Unexpected,
            ProviderError::Empty => ProviderErrorText::Empty,
        }
    }
}

/// The reason of a failure in words. A failure of the transport, of the
/// backend or of the decoder is told in the words that the driver handed in.
pub open spec fn provider_reason(error: ProviderErrorText) -> Seq<char> {
    match error {
        ProviderErrorText::EndpointNotConfigured => "llm_endpoint not configured"@,
        ProviderErrorText::ApiKeyNotSet => "OPENAI_API_KEY not set"@,
        ProviderErrorText::ModelNotInitialized => "LLaMA model not initialized"@,
        ProviderErrorText::Unavailable(said) => said,
        ProviderErrorText::RequestFailed(status) => "LLM request failed: "@ + status_text(status),
        ProviderErrorText::ServerRequestFailed(status) => "Ollama request failed: "@ + status_text(
            status,
        ),
        ProviderErrorText::Malformed(said) => said,
        ProviderErrorText::NoChoices => "no choices"@,
        ProviderErrorText::Unexpected => "LLM answer of another backend"@,
        ProviderErrorText::Empty => "LLM answer empty"@,
    }
}

impl ProviderError {
    /// The reason in words.
    pub fn reason(&self) -> (r: String)
        ensures
            r@ == provider_reason(self@),
    {
        match self {
            ProviderError::EndpointNotConfigured => String::from_str("llm_endpoint not configured"),
            ProviderError::ApiKeyNotSet => String::from_str("OPENAI_API_KEY not set"),
            ProviderError::ModelNotInitialized => String::from_str("LLaMA model not initialized"),
            ProviderError::Unavailable(said) => said.clone(),
            ProviderError::RequestFailed(status) => {
                let mut r = String::from_str("LLM request failed: ");
                let shown = show_status(*status);
                r.append(shown.as_str());
                r
            },
            ProviderError::ServerRequestFailed(status) => {
                let mut r = String::from_str("Ollama request failed: ");
                let shown = show_status(*status);
                r.append(shown.as_str());
                r
            },
            ProviderError::Malformed(said) => said.clone(),
            ProviderError::NoChoices => String::from_str("no choices"),
            ProviderError::Unexpected => String::from_str("LLM answer of another backend"),
            ProviderError::Empty => String::from_str("LLM answer empty"),
        }
    }

    /// An error that holds what this one holds.
    pub fn duplicate(&self) -> (copy: ProviderError)
        ensures
            copy@ == self@,
    {
        match self {
            ProviderError::EndpointNotConfigured => ProviderError::EndpointNotConfigured,
            ProviderError::ApiKeyNotSet => ProviderError::ApiKeyNotSet,
            ProviderError::ModelNotInitialized => ProviderError::ModelNotInitialized,
            ProviderError::Unavailable(said) => ProviderError::Unavailable(said.clone()),
            ProviderError::RequestFailed(status) => ProviderError::RequestFailed(*status),
            ProviderError::ServerRequestFailed(status) => ProviderError::ServerRequestFailed(
                *status,
            ),
            ProviderError::Malformed(said) => ProviderError::Malformed(said.clone()),
            ProviderError::NoChoices => ProviderError::NoChoices,
            ProviderError::Unexpected => ProviderError::Unexpected,
            ProviderError::Empty => ProviderError::Empty,
        }
    }
}

/// The reply of the offline backend.
pub const OFFLINE_REPLY: &'static str = "[offline] Connect a local LLM or set llm_endpoint";

/// The system message that goes to the hosted chat API in front of every prompt.
pub const CHAT_PREAMBLE: &'static str =
    "You are Mily, a warm, natural, concise Indonesian conversationalist. Match the user's tone (friendly, caring). Prefer 1-3 sentences unless asked for detail.";

/// The model of the hosted chat API where none is configured.
pub const DEFAULT_CHAT_MODEL: &'static str = "gpt-4o-mini";

/// The address of the self-hosted server where none is configured.
pub const DEFAULT_SERVER: &'static str = "http://127.0.0.1:11434";

/// The model of the self-hosted server where none is configured.
pub const DEFAULT_SERVER_MODEL: &'static str = "llama3.1:8b";

/// The path of the generate operation below the address of the self-hosted server.
pub const GENERATE_PATH: &'static str = "/api/generate";

/// What has to happen for a reply.
pub enum Dispatch {
    /// Nothing is sent: this is the reply.
    Settled { reply: String },
    /// Post `prompt` to `url`; the answer holds a text.
    PostPrompt { url: String, prompt: String },
    /// Ask the hosted chat API with `api_key` for a completion by `model` of
    /// the system message `system` and the user message `user`.
    Chat { api_key: String, model: String, system: String, user: String },
    /// Post `model`, `prompt` and `stream` to `url`; the answer holds a response.
    PostGenerate { url: String, model: String, prompt: String, stream: bool },
    /// Run the local model on `prompt`.
    Infer { prompt: String },
}

/// What a `Dispatch` holds, as text.
pub enum DispatchText {
    Settled { reply: Seq<char> },
    PostPrompt { url: Seq<char>, prompt: Seq<char> },
    Chat { api_key: Seq<char>, model: Seq<char>, system: Seq<char>, user: Seq<char> },
    PostGenerate { url: Seq<char>, model: Seq<char>, prompt: Seq<char>, stream: bool },
    Infer { prompt: Seq<char> },
}

impl View for Dispatch {
    type V = DispatchText;

    open spec fn view(&self) -> DispatchText {
        match *self {
            Dispatch::Settled { reply } => DispatchText::Settled { reply: reply@ },
            Dispatch::PostPrompt { url, prompt } => DispatchText::PostPrompt {
                url: url@,
                prompt: prompt@,
            },
            Dispatch::Chat { api_key, model, system, user } => DispatchText::Chat {
                api_key: api_key@,
                model: model@,
                system: system@,
                user: user@,
            },
            Dispatch::PostGenerate { url, model, prompt, stream } => DispatchText::PostGenerate {
                url: url@,
                model: model@,
                prompt: prompt@,
                stream,
            },
            Dispatch::Infer { prompt } => DispatchText::Infer { prompt: prompt@ },
        }
    }
}

/// What came back from a backend.
pub enum ProviderReply {
    /// Nothing: the backend could not be reached, or failed in a way of its
    /// own; with what the driver was told of it.
    Unavailable(String),
    /// Nothing: the local model was not loaded.
    NotLoaded,
    /// An HTTP answer: its status, and the text that its body holds in the
    /// field asked for, or what the decoder said where the body does not
    /// decode to one.
    Http { status: u16, text: Result<String, String> },
    /// The choices of the hosted chat API, in order, each with its content if it has one.
    Chat { choices: Vec<Option<String>> },
    /// The tokens of the local model, in the order in which it produced them.
    Local { tokens: Vec<String> },
}

/// What a `ProviderReply` holds, as text.
pub enum ReplyText {
    Unavailable(Seq<char>),
    NotLoaded,
    Http { status: u16, text: Result<Seq<char>, Seq<char>> },
    Chat { choices: Seq<Option<Seq<char>>> },
    Local { tokens: Seq<Seq<char>> },
}

impl View for ProviderReply {
    type V = ReplyText;

    open spec fn view(&self) -> ReplyText {
        match *self {
            ProviderReply::Unavailable(said) => ReplyText::Unavailable(said@),
            ProviderReply::NotLoaded => ReplyText::NotLoaded,
            ProviderReply::Http { status, text } => ReplyText::Http {
                status,
                text: match text {
                    Ok(t) => Ok(t@),
                    Err(said) => Err(said@),
                },
            },
            ProviderReply::Chat { choices } => ReplyText::Chat {
                choices: choices@.map_values(
                    |c: Option<String>|
                        match c {
                            Some(t) => Some(t@),
                            None => None,
                        },
                ),
            },
            ProviderReply::Local { tokens } => ReplyText::Local { tokens: texts(tokens@) },
        }
    }
}

/// The text of a result, or what its error holds.
pub open spec fn outcome_text(r: Result<String, ProviderError>) -> Result<
    Seq<char>,
    ProviderErrorText,
> {
    match r {
        Ok(t) => Ok(t@),
        Err(e) => Err(e@),
    }
}

/// What a dispatch holds, or what its error holds.
pub open spec fn dispatch_text(
    r: Result<Dispatch, ProviderError>,
) -> Result<DispatchText, ProviderErrorText> {
    match r {
        Ok(d) => Ok(d@),
        Err(e) => Err(e@),
    }
}

/// The backend that serves under `settings`. A local model path outranks a
/// generic endpoint, which outranks a self-hosted server, which outranks a
/// hosted-API key; with none of them the backend is the offline one.
pub open spec fn selected_provider(settings: Settings) -> LlmProvider {
    if settings.llama_model_path is Some {
        LlmProvider::LlamaRs
    } else if settings.llm_endpoint is Some {
        LlmProvider::Endpoint
    } else if settings.ollama_url is Some {
        LlmProvider::Ollama
    } else if settings.openai_api_key is Some {
        LlmProvider::OpenAi
    } else {
        LlmProvider::Offline
    }
}

/// `configured` where it is set, else `default`.
pub open spec fn text_or(configured: Option<String>, default: Seq<char>) -> Seq<char> {
    match configured {
        Some(t) => t@,
        None => default,
    }
}

/// What `provider` has to do under `settings` for a reply to `prompt`.
pub open spec fn planned(
    settings: Settings,
    provider: LlmProvider,
    prompt: Seq<char>,
) -> Result<DispatchText, ProviderErrorText> {
    match provider {
        LlmProvider::Offline => Ok(DispatchText::Settled { reply: OFFLINE_REPLY@ }),
        LlmProvider::Endpoint => match settings.llm_endpoint {
            Some(url) => Ok(DispatchText::PostPrompt { url: url@, prompt }),
            None => Err(ProviderErrorText::EndpointNotConfigured),
        },
        LlmProvider::OpenAi => match settings.openai_api_key {
            Some(key) => Ok(
                DispatchText::Chat {
                    api_key: key@,
                    model: text_or(settings.openai_model, DEFAULT_CHAT_MODEL@),
                    system: CHAT_PREAMBLE@,
                    user: prompt,
                },
            ),
            None => Err(ProviderErrorText::ApiKeyNotSet),
        },
        LlmProvider::Ollama => Ok(
            DispatchText::PostGenerate {
                url: text_or(settings.ollama_url, DEFAULT_SERVER@) + GENERATE_PATH@,
                model: text_or(settings.ollama_model, DEFAULT_SERVER_MODEL@),
                prompt,
                stream: false,
            },
        ),
        LlmProvider::LlamaRs => Ok(DispatchText::Infer { prompt }),
    }
}

/// A status from 200 to 299.
pub open spec fn is_success(status: u16) -> bool {
    200 <= status < 300
}

/// What a backend that answers over HTTP draws from what came back; a
/// status outside 200 to 299 is the error `failed`.
pub open spec fn http_answer(reply: ReplyText, failed: ProviderErrorText) -> Result<
    Seq<char>,
    ProviderErrorText,
> {
    match reply {
        ReplyText::Unavailable(said) => Err(ProviderErrorText::Unavailable(said)),
        ReplyText::Http { status, text } => if !is_success(status) {
            Err(failed)
        } else {
            match text {
                Ok(t) => Ok(t),
                Err(said) => Err(ProviderErrorText::Malformed(said)),
            }
        },
        _ => Err(ProviderErrorText::Unexpected),
    }
}

/// The status of an HTTP answer, or zero where the reply is none.
pub open spec fn status_of(reply: ReplyText) -> u16 {
    match reply {
        ReplyText::Http { status, text } => status,
        _ => 0,
    }
}

/// The reply that `provider` draws from what came back.
pub open spec fn answered(
    provider: LlmProvider,
    reply: ReplyText,
) -> Result<Seq<char>, ProviderErrorText> {
    match provider {
        LlmProvider::Offline => Ok(OFFLINE_REPLY@),
        LlmProvider::Endpoint => http_answer(
            reply,
            ProviderErrorText::RequestFailed(status_of(reply)),
        ),
        LlmProvider::Ollama => http_answer(
            reply,
            ProviderErrorText::ServerRequestFailed(status_of(reply)),
        ),
        LlmProvider::OpenAi => match reply {
            ReplyText::Unavailable(said) => Err(ProviderErrorText::Unavailable(said)),
            ReplyText::Chat { choices } => if choices.len() == 0 {
                Err(ProviderErrorText::NoChoices)
            } else {
                match choices[0] {
                    Some(t) => Ok(t),
                    None => Ok(Seq::empty()),
                }
            },
            _ => Err(ProviderErrorText::Unexpected),
        },
        LlmProvider::LlamaRs => match reply {
            ReplyText::Unavailable(said) => Err(ProviderErrorText::Unavailable(said)),
            ReplyText::NotLoaded => Err(ProviderErrorText::ModelNotInitialized),
            ReplyText::Local { tokens } => Ok(concat(tokens)),
            _ => Err(ProviderErrorText::Unexpected),
        },
    }
}

fn receive_http(reply: &ProviderReply, failed: ProviderError) -> (r: Result<String, ProviderError>)
    ensures
        outcome_text(r) == http_answer(reply@, failed@),
{
    match reply {
        ProviderReply::Unavailable(said) => Err(ProviderError::Unavailable(said.clone())),
        ProviderReply::Http { status, text } => {
            if *status < 200 || *status >= 300 {
                Err(failed)
            } else {
                match text {
                    Ok(t) => Ok(t.clone()),
                    Err(said) => Err(ProviderError::Malformed(said.clone())),
                }
            }
        },
        _ => Err(ProviderError::Unexpected),
    }
}

fn reply_status(reply: &ProviderReply) -> (status: u16)
    ensures
        status == status_of(reply@),
{
    match reply {
        ProviderReply::Http { status, text } => *status,
        _ => 0,
    }
}

fn or_default(configured: &Option<String>, default: &str) -> (out: String)
    ensures
        out@ == text_or(*configured, default@),
{
    match configured {
        Some(t) => t.clone(),
        None => String::from_str(default),
    }
}

/// The client of the one backend that was chosen when it was made.
pub struct LlmClient {
    settings: Settings,
    provider: LlmProvider,
}

impl LlmClient {
    /// The settings that the client was made from.
    pub closed spec fn settings(&self) -> Settings {
        self.settings
    }

    /// The backend that the client speaks to.
    pub closed spec fn backend(&self) -> LlmProvider {
        self.provider
    }

    /// Chooses the backend from what `settings` holds. The choice stands for
    /// the life of the client.
    pub fn new(settings: Settings) -> (client: LlmClient)
        ensures
            client.settings() == settings,
            client.backend() == selected_provider(settings),
    {
        let mut provider = LlmProvider::Offline;
        if settings.openai_api_key.is_some() {
            provider = LlmProvider::OpenAi;
        }
        if settings.ollama_url.is_some() {
            provider = LlmProvider::Ollama;
        }
        if settings.llm_endpoint.is_some() {
            provider = LlmProvider::Endpoint;
        }
        if settings.llama_model_path.is_some() {
            provider = LlmProvider::LlamaRs;
        }
        LlmClient { settings, provider }
    }

    /// A client of `provider`, whatever the settings would select. A backend
    /// that lacks its setting fails when it is asked to generate.
    pub fn with_provider(settings: Settings, provider: LlmProvider) -> (client: LlmClient)
        ensures
            client.settings() == settings,
            client.backend() == provider,
    {
        LlmClient { settings, provider }
    }

    /// The backend that the client speaks to.
    pub fn provider(&self) -> (p: LlmProvider)
        ensures
            p == self.backend(),
    {
        self.provider
    }

    /// Says what has to happen for a reply to `prompt`: what to send to the
    /// backend, or the reply itself where the backend is the offline one.
    pub fn generate(&self, prompt: &str) -> (r: Result<Dispatch, ProviderError>)
        ensures
            dispatch_text(r) == planned(self.settings(), self.backend(), prompt@),
    {
        match self.provider {
            LlmProvider::Offline => Ok(Dispatch::Settled { reply: String::from_str(OFFLINE_REPLY) }),
            LlmProvider::Endpoint => match &self.settings.llm_endpoint {
                Some(url) => Ok(
                    Dispatch::PostPrompt { url: url.clone(), prompt: String::from_str(prompt) },
                ),
                None => Err(ProviderError::EndpointNotConfigured),
            },
            LlmProvider::OpenAi => match &self.settings.openai_api_key {
                Some(key) => Ok(
                    Dispatch::Chat {
                        api_key: key.clone(),
                        model: or_default(&self.settings.openai_model, DEFAULT_CHAT_MODEL),
                        system: String::from_str(CHAT_PREAMBLE),
                        user: String::from_str(prompt),
                    },
                ),
                None => Err(ProviderError::ApiKeyNotSet),
            },
            LlmProvider::Ollama => {
                let mut url = or_default(&self.settings.ollama_url, DEFAULT_SERVER);
                url.append(GENERATE_PATH);
                Ok(
                    Dispatch::PostGenerate {
                        url,
                        model: or_default(&self.settings.ollama_model, DEFAULT_SERVER_MODEL),
                        prompt: String::from_str(prompt),
                        stream: false,
                    },
                )
            },
            LlmProvider::LlamaRs => Ok(Dispatch::Infer { prompt: String::from_str(prompt) }),
        }
    }

    /// Draws the reply from what came back from the backend.
    pub fn receive(&self, reply: &ProviderReply) -> (r: Result<String, ProviderError>)
        ensures
            outcome_text(r) == answered(self.backend(), reply@),
    {
        match self.provider {
            LlmProvider::Offline => Ok(String::from_str(OFFLINE_REPLY)),
            LlmProvider::Endpoint => receive_http(
                reply,
                ProviderError::RequestFailed(reply_status(reply)),
            ),
            LlmProvider::Ollama => receive_http(
                reply,
                ProviderError::ServerRequestFailed(reply_status(reply)),
            ),
            LlmProvider::OpenAi => match reply {
                ProviderReply::Unavailable(said) => Err(ProviderError::Unavailable(said.clone())),
                ProviderReply::Chat { choices } => {
                    if choices.len() == 0 {
                        Err(ProviderError::NoChoices)
                    } else {
                        match &choices[0] {
                            Some(t) => Ok(t.clone()),
                            None => Ok(String::new()),
                        }
                    }
                },
                _ => Err(ProviderError::Unexpected),
            },
            LlmProvider::LlamaRs => match reply {
                ProviderReply::Unavailable(said) => Err(ProviderError::Unavailable(said.clone())),
                ProviderReply::NotLoaded => Err(ProviderError::ModelNotInitialized),
                ProviderReply::Local { tokens } => Ok(concat_all(tokens)),
                _ => Err(ProviderError::Unexpected),
            },
        }
    }
}

/// The model file that the local backend runs, and on how many threads.
pub struct LocalModel {
    pub path: String,
    pub threads: usize,
}

/// The number of threads for local inference: the configured one, or one for
/// each of the `cpus` logical processors of the host where none is configured.
pub fn inference_threads(settings: &Settings, cpus: usize) -> (n: usize)
    ensures
        n == match settings.llama_n_threads {
            Some(configured) => configured,
            None => cpus,
        },
{
    match settings.llama_n_threads {
        Some(configured) => configured,
        None => cpus,
    }
}

/// `num_cpus::get`: the number of logical processors of the host. It differs
/// from host to host. Trusted: that it is at least one, as the crate documents.
#[verifier::external_body]
fn logical_cpus() -> (n: usize)
    ensures
        n >= 1,
{
    num_cpus::get()
}

impl LlmClient {
    /// The model that has to be loaded before the client can serve: the
    /// configured file where the backend is the local model, and nothing for
    /// any other backend. Where no number of threads is configured, the
    /// model runs on as many as the host has logical processors.
    pub fn local_model(&self) -> (model: Option<LocalModel>)
        ensures
            model is Some <==> self.backend() == LlmProvider::LlamaRs
                && self.settings().llama_model_path is Some,
            model matches Some(m) ==> m.path@ == self.settings().llama_model_path->0@,
            model matches Some(m) ==> (self.settings().llama_n_threads matches Some(n) ==> m.threads
                == n),
            model matches Some(m) ==> (self.settings().llama_n_threads is None ==> m.threads >= 1),
    {
        match self.provider {
            LlmProvider::LlamaRs => match &self.settings.llama_model_path {
                Some(path) => {
                    let cpus = logical_cpus();
                    Some(
                        LocalModel {
                            path: path.clone(),
                            threads: inference_threads(&self.settings, cpus),
                        },
                    )
                },
                None => None,
            },
            _ => None,
        }
    }
}

/// With a self-hosted address and a generic endpoint both configured, a
/// prompt goes to the generic endpoint; with a local model path configured as
/// well, it goes to the local model.
pub proof fn endpoint_outranks_server_and_local_model_outranks_both(
    settings: Settings,
    prompt: Seq<char>,
)
    requires
        settings.ollama_url is Some,
        settings.llm_endpoint is Some,
    ensures
        settings.llama_model_path is None ==> selected_provider(settings) == LlmProvider::Endpoint
            && planned(settings, selected_provider(settings), prompt) == Ok::<
            DispatchText,
            ProviderErrorText,
        >(DispatchText::PostPrompt { url: settings.llm_endpoint->0@, prompt }),
        settings.llama_model_path is Some ==> selected_provider(settings) == LlmProvider::LlamaRs
            && planned(settings, selected_provider(settings), prompt) == Ok::<
            DispatchText,
            ProviderErrorText,
        >(DispatchText::Infer { prompt }),
{
}

/// The backend that the settings select never lacks its setting: a client
/// made by `LlmClient::new` always has something to send, or the reply itself.
pub proof fn selected_backend_is_configured(settings: Settings, prompt: Seq<char>)
    ensures
        planned(settings, selected_provider(settings), prompt) is Ok,
{
}

} // verus!
