//! Core logic of a human-in-the-loop login approval workflow.
//!
//! A relational store announces login attempts on a notification channel.
//! A supervised consumer forwards each decoded event into a bounded hand-off
//! queue; an orchestrator takes one event at a time, resolves its context,
//! prompts the affected person over a messaging gateway, polls for a binary
//! reaction for a bounded window, commits the decision, and cleans up the
//! messages it created on every exit path.
//!
//! Every decision the workflow makes is implemented and verified here; the
//! surrounding I/O (the store, the gateway, the clock) is driven by an
//! unverified shell that performs the actions these state machines request
//! and hands their outcomes back.

pub mod bridge;
pub mod commands;
pub mod database;
pub mod embed;
pub mod event;
pub mod poller;
pub mod queue;
pub mod session;
pub mod supervisor;
