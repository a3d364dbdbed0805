//! Orchestration core for a research-driven variant-generation pipeline.
//!
//! The library holds the logic that must be right: the single-writer
//! action-dispatch engine, the five-phase state machine with auto-advance
//! rules, the fan-out/fan-in completion tracker, the collaborator process
//! lifecycle machine, and the append-only lineage / blend data model.
//! Terminal rendering, HTTP transport, process spawning and configuration
//! file I/O live outside the library and feed it plain values.

pub mod action;
pub mod app;
pub mod benchmark;
pub mod components;
pub mod config;
pub mod error;
pub mod fanout;
pub mod manager;
pub mod merge;
pub mod protocol;
pub mod phase;
pub mod project;
pub mod research;
pub mod text;
pub mod variant;
