//! A disposable development-chain harness: the decisions of its lifecycle,
//! wallet lookup and contract deployment, stated and proved.

pub mod account;
pub mod connection;
pub mod deploy;
pub mod encoding;
pub mod error;
pub mod node;
pub mod wallet;
