//! A tool-augmented conversation loop for a recipe assistant.
//!
//! The crate holds the decisions of the conversation: how the history grows,
//! what a turn appends, how a tool request is checked and answered, where the
//! artefacts of a transmitted recipe land on disk, and when the loop hands
//! control back to the user. Talking to the model service, generating images
//! and writing files are left to the caller.
//!
//! Every type comes with a view, its mathematical model, and every function
//! says over those views what it returns and what it changes.
//!
//! - [`sanitize`]: untrusted text becomes a safe path segment.
//! - [`message`], [`history`], [`state`]: the data of a conversation.
//! - [`tool`], [`dispatch`], [`artifact`]: the one tool, from its
//!   declaration to the files it calls for.
//! - [`turn`]: one exchange with the model.
//! - [`tool_loop`]: the loop, one step at a time; [`script`]: the loop run
//!   against scripted answers.
//! - [`laws`]: what holds of the loop whatever the model answers.

pub mod artifact;
pub mod dispatch;
pub mod history;
pub mod laws;
pub mod message;
pub mod sanitize;
pub mod script;
pub mod state;
pub mod text;
pub mod tool;
pub mod tool_loop;
pub mod turn;
