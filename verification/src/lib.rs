//! Panel state for a wallet dashboard: what each panel holds, how a message
//! changes it, which deferred work it asks for, and what it renders.

pub mod cache;
pub mod daemon;
pub mod encoding;
pub mod error;
pub mod laws;
pub mod message;
pub mod panel;
pub mod receive;
pub mod shell;
pub mod state;
pub mod task;
pub mod view;
