//! The core of a personal conversational agent, free of input and output: the
//! guard that allows or denies outside actions, the conversation log and its
//! bounded recall, the prompt, the choice of a language-model backend, and the
//! agent that joins them. A driver around this crate reads, sends and writes;
//! every decision is taken here.

pub mod actions;
pub mod agent;
pub mod feeds;
pub mod llm;
pub mod memory;
pub mod policy;
pub mod session;
pub mod settings;
pub mod status;
pub mod stt;
pub mod text;
pub mod tts;
pub mod urls;
pub mod voice;
pub mod voicechat;
pub mod web;
