//! Decision logic of a small chat bot that answers pings and mentions.

mod chance;
pub mod cry;
pub mod laws;
pub mod lookup;
pub mod message;
pub mod router;
pub mod text;
