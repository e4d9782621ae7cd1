//! Relays line-framed text arriving on local named pipes to remote message
//! channels, one pipe mapped to one channel. This crate holds the verified
//! core: the message framing rule, configuration validation, the startup
//! plan, and the per-pipe worker's decision logic. The surrounding process
//! (filesystem probes, the blocking pipe reads, the chat-service client)
//! feeds these functions plain values and carries out the actions they
//! return.

use vstd::prelude::*;

pub mod config;
pub mod framing;
pub mod reader;
pub mod startup;
pub mod worker;

verus! {

} // verus!
