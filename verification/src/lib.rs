//! Decision core of a blockchain archive indexer.
//!
//! The workers of the indexer (block discovery, metadata tracking, storage
//! aggregation, job execution, supervision) are written here as functions from
//! a state and an event to the next state and the actions to perform. The
//! surrounding program performs the actions and hands back what happened.

pub mod actors;
pub mod aggregator;
pub mod archive;
pub mod builder;
pub mod config;
pub mod data;
pub mod database;
pub mod error;
pub mod indexer;
pub mod jobs;
pub mod listener;
pub mod metadata;
pub mod number_set;
pub mod queue;
pub mod restore;
pub mod runner;
pub mod store;
pub mod supervisor;
pub mod system;
pub mod types;
pub mod verify;
