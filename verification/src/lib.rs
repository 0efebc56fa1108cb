//! The deciding core of a collector that subscribes to a message broker and
//! appends every reading it receives to a local store.
//!
//! The crate holds no connection and writes no file. It derives the
//! subscription filter, turns a received message into a [`reading::Reading`],
//! names the statements the store is driven with, and decides, event by
//! event, what the program around it has to do next.

pub mod config;
pub mod failure;
pub mod protocol;
pub mod reading;
pub mod storage;
pub mod supervisor;
pub mod topic;
