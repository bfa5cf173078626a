//! A fixed-size worker pool with deterministic, leak-free shutdown.
//!
//! The pool accepts deferred units of work from any number of producers,
//! runs each exactly once on one of its long-lived workers, and drains all
//! pending work on teardown. The queue of messages, the worker state
//! machine, and the teardown protocol are modelled and verified here; the
//! surrounding glue (sockets, files, threads) lives outside the library and
//! drives these verified transitions.

pub mod handler;
pub mod job;
pub mod options;
pub mod threadpool;
pub mod webserver;
pub mod worker;
