//! Keyboard macro engine: key tracking, hotkey matching, configuration
//! snapshots and the decisions of the sequence executor and macro queue.
pub mod keys;
pub mod domain;
pub mod store;
pub mod parser;
pub mod state;
pub mod matcher;
pub mod executor;
pub mod queue;
pub mod processor;
pub mod lifecycle;
pub mod service;
pub mod roundtrip;
