//! Core orchestration layer of a chat-history downloader.
//!
//! Background tasks report their results as [`data::Event`] values through a
//! [`mailbox::Mailbox`]; the [`orchestrator::Orchestrator`] drains the mailbox
//! once per UI frame and applies every pending state transition. The modules
//! here hold the verified logic: the event taxonomy, the mailbox queue, the
//! state machine, and the export formatting. All network and UI work stays
//! outside, driven by the commands the orchestrator hands back.

pub mod data;
pub mod export;
pub mod mailbox;
pub mod orchestrator;
pub mod supervisor;
