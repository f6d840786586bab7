//! Confidential peer-to-peer messaging: account state, the request/callback
//! state machine that appends re-sealed messages to a bounded inbox, and the
//! plaintext layout handled by the sealing computation.

pub mod bytes;
pub mod error;
pub mod instructions;
pub mod laws;
pub mod message;
pub mod state;
