//! An agent applet for a smart-contract chain, as verified state transitions.
//!
//! ## Queries and mutations
//!
//! A mutation runs on every member of a pod and has to be deterministic; a call of a language
//! model is not. So no operation here calls anything. A mutation takes what the chain supplies
//! (the caller, the block time) as an argument, and its contract gives the new state as a function
//! of the old one and the arguments. An operation that needs the outside comes in two parts: one
//! that prepares the call, and one, named `.._reply`, that turns what came back into the answer.
//!
//! A turn of a conversation is
//!
//! 1. `send_message`, the agent call, `send_message_reply`;
//! 2. `append_message` with the user's text;
//! 3. `append_message` with the assistant's reply;
//! 4. `store_task_record`.
//!
//! ## Layout
//!
//! - [`state`]: the state, its model, and what makes it consistent
//! - [`agents`], [`conversation`], [`crons`], [`memory`]: the operations on its parts
//! - [`workflow`], [`pipeline`], [`fetch`]: work that is prepared here and done outside
//! - [`changes`]: every change that a mutation can make, and how much of the state it needs
//! - [`laws`]: what holds across operations
//! - [`types`]: the data exchanged, with its models
//! - [`store`], [`names`], [`text`], [`json`]: the ground they stand on

#![allow(unused_imports)]

pub mod agents;
pub mod changes;
pub mod conversation;
pub mod crons;
pub mod fetch;
pub mod json;
pub mod laws;
pub mod memory;
pub mod names;
pub mod pipeline;
pub mod state;
pub mod store;
pub mod text;
pub mod types;
pub mod workflow;

pub use conversation::build_task_description;
pub use state::OpenClawState;
