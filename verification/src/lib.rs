//! The accounts of a wallet: what an account knows, what it is worth, which of its messages
//! and addresses a caller asks for, and how a new account comes into being.

pub mod account;
pub mod address;
pub mod client;
pub mod message;
pub mod time;
