//! Command handling for a chat bot that answers balance and token-transfer
//! queries from a blockchain explorer and tidies up its own channel.
//!
//! Every handler is split into a verified decision (what to reply, which
//! explorer request to make, which messages to delete) and the network work
//! that the host program performs with the result.
pub mod balance;
pub mod cleanup;
pub mod erc20;
pub mod reply;
pub mod text;
