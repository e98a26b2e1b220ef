//! Event-loop coordination for a browser shell: the window registry, the
//! shutdown state machine, the wake bridge and the dispatch of each tick's
//! messages, each with a contract that Verus proves.

pub mod channel;
pub mod laws;
pub mod message;
pub mod model;
pub mod notify;
pub mod registry;
pub mod shutdown;
pub mod user_agent;
pub mod verso;
pub mod wake;
