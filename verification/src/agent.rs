//! The agent: one conversational turn from utterance to recorded reply. A
//! turn has two halves with the backend's work between them. The first half
//! recalls, builds the prompt and says what to send; the second takes what
//! came back, settles the reply and records the exchange.

use crate::llm::{
    answered, dispatch_text, planned, selected_provider, text_or, Dispatch, LlmClient,
    LlmProvider, ProviderError, ProviderErrorText, ProviderReply, ReplyText,
};
use crate::memory::{
    assistant_entry, decoded, recalled, user_entry, well_formed, with_interaction, Entry,
    MemoryStore, MessageRecord, Timestamp,
};
use crate::settings::Settings;
use vstd::prelude::*;

verus! {

/// The name where the settings give none.
pub const DEFAULT_NAME: &'static str = "Mily";

/// The persona where the settings give none.
pub const DEFAULT_PERSONA: &'static str = "Ramah, ingin tahu, membantu";

/// How many pairs a conversational turn recalls.
pub const RESPOND_WINDOW: usize = 8;

/// How many pairs a learning turn recalls.
pub const LEARN_WINDOW: usize = 4;

/// Who the agent is. It is fixed when the agent is made.
pub struct AgentProfile {
    pub name: String,
    pub persona: String,
}

/// The two kinds of turn.
#[derive(Clone, Copy, Debug, PartialEq, Eq, Structural)]
pub enum TurnKind {
    /// A reply to an utterance.
    Converse,
    /// A summary of a text that was fetched from a source.
    Learn,
}

/// A turn that waits for its backend: what is to be recorded as the user's
/// side, and what has to be sent.
pub struct Turn {
    pub kind: TurnKind,
    pub entry: String,
    pub dispatch: Result<Dispatch, ProviderError>,
}

/// The reply that stands in where the backend fails.
pub open spec fn fallback_text(kind: TurnKind) -> Seq<char> {
    match kind {
        TurnKind::Converse => "[offline] LLM unavailable"@,
        TurnKind::Learn => "[offline] summary unavailable"@,
    }
}

/// The prompt of a conversational turn: a system section with name, persona
/// and tone, a context section with the recalled history, and a user section
/// with the utterance, the last two as they were handed in.
pub open spec fn prompt_text(
    name: Seq<char>,
    persona: Seq<char>,
    context: Seq<char>,
    user_input: Seq<char>,
) -> Seq<char> {
    "<SYSTEM>\n"@ + "Anda adalah "@ + name
        + ", asisten AI berbahasa Indonesia yang ingin tahu dan berkembang. Persona: "@ + persona
        + ". \nGunakan nada yang sopan, ringkas.\n"@ + "\n<CONTEXT>\n"@ + context
        + "\n</CONTEXT>\n<USER>\n"@ + user_input + "\n</USER>\n"@
}

/// The instruction of a learning turn: what to do with the text, where it is from, and the text.
pub open spec fn instruction_text(source: Seq<char>, body: Seq<char>) -> Seq<char> {
    "Ringkas konten berikut dalam 5-8 poin (bahasa Indonesia), fokuskan pada fakta inti dan insight. Sumber: "@
        + source + "\n\n"@ + body
}

/// The prompt of a learning turn.
pub open spec fn learn_prompt_text(
    name: Seq<char>,
    context: Seq<char>,
    source: Seq<char>,
    body: Seq<char>,
) -> Seq<char> {
    "<SYSTEM>Anda adalah "@ + name + " yang ingin tahu dan sedang belajar dari web.</SYSTEM>\n<CONTEXT>\n"@
        + context + "\n</CONTEXT>\n<USER>\n"@ + instruction_text(source, body) + "\n</USER>"@
}

/// What a learning turn records as the user's side.
pub open spec fn learn_entry_text(source: Seq<char>) -> Seq<char> {
    "LEARN FROM: "@ + source
}

/// The reply of a turn: what the backend answered, or the fallback where
/// nothing could be sent, the backend failed, or its answer was empty.
pub open spec fn settled(
    kind: TurnKind,
    sent: bool,
    backend: LlmProvider,
    reply: ReplyText,
) -> Seq<char> {
    if !sent {
        fallback_text(kind)
    } else {
        match answered(backend, reply) {
            Ok(t) => if t.len() > 0 {
                t
            } else {
                fallback_text(kind)
            },
            Err(_) => fallback_text(kind),
        }
    }
}

/// The failure that a turn hides behind its fallback: why nothing could be
/// sent, or why the backend gave no reply; `None` where the backend answered
/// with a text that is not empty.
pub open spec fn masked(
    unsent: Option<ProviderErrorText>,
    backend: LlmProvider,
    reply: ReplyText,
) -> Option<ProviderErrorText> {
    match unsent {
        Some(e) => Some(e),
        None => match answered(backend, reply) {
            Ok(t) => if t.len() > 0 {
                None
            } else {
                Some(ProviderErrorText::Empty)
            },
            Err(e) => Some(e),
        },
    }
}

/// Why the turn could not be sent, if it could not.
pub open spec fn unsent(turn: Turn) -> Option<ProviderErrorText> {
    match turn.dispatch {
        Ok(_) => None,
        Err(e) => Some(e@),
    }
}

/// What a failure holds, where there is one.
pub open spec fn failure_text(failure: Option<ProviderError>) -> Option<ProviderErrorText> {
    match failure {
        Some(e) => Some(e@),
        None => None,
    }
}

/// How a turn ended.
pub struct Concluded {
    /// The reply that was recorded and goes to the caller.
    pub reply: String,
    /// The failure that the reply stands in for, where it is the fallback.
    pub failure: Option<ProviderError>,
}

fn fallback(kind: TurnKind) -> (out: String)
    ensures
        out@ == fallback_text(kind),
{
    match kind {
        TurnKind::Converse => String::from_str("[offline] LLM unavailable"),
        TurnKind::Learn => String::from_str("[offline] summary unavailable"),
    }
}

/// The agent: its log, its profile and its backend, each made with it.
pub struct Agent {
    memory: MemoryStore,
    profile: AgentProfile,
    llm: LlmClient,
}

impl Agent {
    /// The records of the agent's log, oldest first.
    pub closed spec fn log(&self) -> Seq<Entry> {
        self.memory.log()
    }

    /// Where the agent's log is kept.
    pub closed spec fn log_location(&self) -> Seq<char> {
        self.memory.location()
    }

    /// The agent's name.
    pub closed spec fn name(&self) -> Seq<char> {
        self.profile.name@
    }

    /// The agent's persona.
    pub closed spec fn persona(&self) -> Seq<char> {
        self.profile.persona@
    }

    /// The settings that the agent's backend was chosen from.
    pub closed spec fn settings(&self) -> Settings {
        self.llm.settings()
    }

    /// The agent's backend.
    pub closed spec fn backend(&self) -> LlmProvider {
        self.llm.backend()
    }

    /// Makes the agent from its settings: an empty log at the configured
    /// place, or at `default_log_path`; name and persona as configured, or the
    /// defaults; and the backend that the settings select.
    pub fn new(settings: Settings, default_log_path: &str) -> (agent: Agent)
        ensures
            agent.log() == Seq::<Entry>::empty(),
            agent.log_location() == text_or(settings.memory_path, default_log_path@),
            agent.name() == text_or(settings.agent_name, DEFAULT_NAME@),
            agent.persona() == text_or(settings.persona, DEFAULT_PERSONA@),
            agent.settings() == settings,
            agent.backend() == selected_provider(settings),
    {
        let memory = MemoryStore::new(&settings, default_log_path);
        let name = match &settings.agent_name {
            Some(n) => n.clone(),
            None => String::from_str(DEFAULT_NAME),
        };
        let persona = match &settings.persona {
            Some(p) => p.clone(),
            None => String::from_str(DEFAULT_PERSONA),
        };
        let profile = AgentProfile { name, persona };
        let llm = LlmClient::new(settings);
        Agent { memory, profile, llm }
    }

    /// The agent's log.
    pub fn memory(&self) -> (m: &MemoryStore)
        ensures
            m.log() == self.log(),
            m.location() == self.log_location(),
    {
        &self.memory
    }

    /// The agent's profile.
    pub fn profile(&self) -> (p: &AgentProfile)
        ensures
            p.name@ == self.name(),
            p.persona@ == self.persona(),
    {
        &self.profile
    }

    /// The client of the agent's backend.
    pub fn llm(&self) -> (c: &LlmClient)
        ensures
            c.settings() == self.settings(),
            c.backend() == self.backend(),
    {
        &self.llm
    }

    /// Takes the content of the log from its decoded lines, as
    /// `MemoryStore::restore` does. Nothing else of the agent changes.
    pub fn restore_memory(&mut self, lines: &Vec<Option<MessageRecord>>)
        ensures
            final(self).log() == well_formed(decoded(lines@)),
            final(self).log_location() == old(self).log_location(),
            final(self).name() == old(self).name(),
            final(self).persona() == old(self).persona(),
            final(self).settings() == old(self).settings(),
            final(self).backend() == old(self).backend(),
    {
        self.memory.restore(lines);
    }

    /// Builds the prompt of a conversational turn from the profile, the
    /// recalled `context` and the utterance. Neither is cut or changed.
    pub fn build_prompt(&self, user_input: &str, context: &str) -> (out: String)
        ensures
            out@ == prompt_text(self.name(), self.persona(), context@, user_input@),
    {
        let mut out = String::from_str("<SYSTEM>\n");
        out.append("Anda adalah ");
        out.append(self.profile.name.as_str());
        out.append(", asisten AI berbahasa Indonesia yang ingin tahu dan berkembang. Persona: ");
        out.append(self.profile.persona.as_str());
        out.append(". \nGunakan nada yang sopan, ringkas.\n");
        out.append("\n<CONTEXT>\n");
        out.append(context);
        out.append("\n</CONTEXT>\n<USER>\n");
        out.append(user_input);
        out.append("\n</USER>\n");
        out
    }

    /// The first half of a conversational turn: recalls the last eight pairs,
    /// builds the prompt and asks the backend what to send for it. The log is
    /// not touched.
    pub fn respond(&self, user_input: &str) -> (turn: Turn)
        ensures
            turn.kind == TurnKind::Converse,
            turn.entry@ == user_input@,
            dispatch_text(turn.dispatch) == planned(
                self.settings(),
                self.backend(),
                prompt_text(
                    self.name(),
                    self.persona(),
                    recalled(self.log(), RESPOND_WINDOW as nat),
                    user_input@,
                ),
            ),
    {
        let context = self.memory.recall_recent(RESPOND_WINDOW);
        let prompt = self.build_prompt(user_input, context.as_str());
        let dispatch = self.llm.generate(prompt.as_str());
        Turn { kind: TurnKind::Converse, entry: String::from_str(user_input), dispatch }
    }

    /// The first half of a learning turn over the `text` that was fetched
    /// from `source`: recalls the last four pairs, builds the summarising
    /// prompt and asks the backend what to send for it. The log is not touched.
    pub fn summarize_and_learn(&self, source: &str, text: &str) -> (turn: Turn)
        ensures
            turn.kind == TurnKind::Learn,
            turn.entry@ == learn_entry_text(source@),
            dispatch_text(turn.dispatch) == planned(
                self.settings(),
                self.backend(),
                learn_prompt_text(
                    self.name(),
                    recalled(self.log(), LEARN_WINDOW as nat),
                    source@,
                    text@,
                ),
            ),
    {
        let mut instruction = String::from_str(
            "Ringkas konten berikut dalam 5-8 poin (bahasa Indonesia), fokuskan pada fakta inti dan insight. Sumber: ",
        );
        instruction.append(source);
        instruction.append("\n\n");
        instruction.append(text);
        let context = self.memory.recall_recent(LEARN_WINDOW);
        let mut prompt = String::from_str("<SYSTEM>Anda adalah ");
        prompt.append(self.profile.name.as_str());
        prompt.append(" yang ingin tahu dan sedang belajar dari web.</SYSTEM>\n<CONTEXT>\n");
        prompt.append(context.as_str());
        prompt.append("\n</CONTEXT>\n<USER>\n");
        prompt.append(instruction.as_str());
        prompt.append("\n</USER>");
        let dispatch = self.llm.generate(prompt.as_str());
        let mut entry = String::from_str("LEARN FROM: ");
        entry.append(source);
        Turn { kind: TurnKind::Learn, entry, dispatch }
    }

    /// The second half of a turn: settles the reply from what came back and
    /// records the exchange. The reply is what the backend answered; where
    /// nothing could be sent, the backend failed, or its answer was empty, it
    /// is the fixed fallback of the turn's kind, so the reply is never empty.
    /// The failure goes no further than the result, which names it beside
    /// the reply. Either way the log gains the turn's entry and the reply, in
    /// that order.
    pub fn conclude(
        &mut self,
        turn: &Turn,
        reply: &ProviderReply,
        at_user: Timestamp,
        at_assistant: Timestamp,
    ) -> (out: Concluded)
        ensures
            out.reply@ == settled(turn.kind, turn.dispatch is Ok, old(self).backend(), reply@),
            out.reply@.len() > 0,
            failure_text(out.failure) == masked(unsent(*turn), old(self).backend(), reply@),
            final(self).log() == with_interaction(
                old(self).log(),
                turn.entry@,
                out.reply@,
                at_user,
                at_assistant,
            ),
            final(self).log_location() == old(self).log_location(),
            final(self).name() == old(self).name(),
            final(self).persona() == old(self).persona(),
            final(self).settings() == old(self).settings(),
            final(self).backend() == old(self).backend(),
    {
        proof {
            fallback_is_not_empty(turn.kind);
        }
        let out = match &turn.dispatch {
            Err(e) => Concluded { reply: fallback(turn.kind), failure: Some(e.duplicate()) },
            Ok(_) => match self.llm.receive(reply) {
                Ok(text) => {
                    if text.as_str().is_empty() {
                        Concluded {
                            reply: fallback(turn.kind),
                            failure: Some(ProviderError::Empty),
                        }
                    } else {
                        Concluded { reply: text, failure: None }
                    }
                },
                Err(e) => Concluded { reply: fallback(turn.kind), failure: Some(e) },
            },
        };
        self.memory.append_interaction(
            turn.entry.as_str(),
            out.reply.as_str(),
            at_user,
            at_assistant,
        );
        out
    }
}

/// The fallback is never the empty string.
pub proof fn fallback_is_not_empty(kind: TurnKind)
    ensures
        fallback_text(kind).len() > 0,
{
    reveal_strlit("[offline] LLM unavailable");
    reveal_strlit("[offline] summary unavailable");
}

/// A turn never ends with an empty reply, whatever came back.
pub proof fn reply_is_never_empty(kind: TurnKind, sent: bool, backend: LlmProvider, reply: ReplyText)
    ensures
        settled(kind, sent, backend, reply).len() > 0,
{
    fallback_is_not_empty(kind);
}

/// Where the backend fails, or nothing could be sent to it, the turn still
/// ends with a reply that is not empty, and the log still gains one pair: the
/// turn's entry as the user's record and that reply as the assistant's.
pub proof fn failed_backend_still_gives_reply_and_pair(
    kind: TurnKind,
    sent: bool,
    backend: LlmProvider,
    reply: ReplyText,
    log: Seq<Entry>,
    entry: Seq<char>,
    at_user: Timestamp,
    at_assistant: Timestamp,
)
    requires
        !sent || answered(backend, reply) is Err,
    ensures
        sent ==> masked(None, backend, reply) is Some,
        settled(kind, sent, backend, reply) == fallback_text(kind),
        settled(kind, sent, backend, reply).len() > 0,
        with_interaction(
            log,
            entry,
            settled(kind, sent, backend, reply),
            at_user,
            at_assistant,
        ) == log + seq![
            user_entry(entry, at_user),
            assistant_entry(fallback_text(kind), at_assistant),
        ],
{
    fallback_is_not_empty(kind);
    let out = settled(kind, sent, backend, reply);
    assert(with_interaction(log, entry, out, at_user, at_assistant) =~= log + seq![
        user_entry(entry, at_user),
        assistant_entry(fallback_text(kind), at_assistant),
    ]);
}

} // verus!
