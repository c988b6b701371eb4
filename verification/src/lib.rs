//! Bridge between a minimal SMTP dialogue and a chat notification.
//!
//! The library holds the logic of the bridge and performs no I/O:
//!
//! - `session`: the per-connection state machine, from a line read to the
//!   reply or action it calls for;
//! - `extract`: from the lines of a data block to subject and body;
//! - `escape`: the two output encodings and the collapsible quote;
//! - `notify`: the notification text and payload;
//! - `config`: the process configuration and its command line;
//! - `text`: the character-level helpers the others share.
//!
//! Contracts speak of text as `Seq<char>`.

pub mod config;
pub mod escape;
pub mod extract;
pub mod notify;
pub mod session;
pub mod text;
