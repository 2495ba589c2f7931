//! Core of a cage-based WebAssembly execution runtime.
//!
//! A *cage* is a process-equivalent isolation unit: one module instance
//! running under one numeric identity, with its own capability state.
//! This crate holds the verified logic that gives cages POSIX-like
//! process semantics on top of a single module-execution engine:
//! forking a host context, replacing it on exec, allocating cage
//! identities, counting live cages, resolving a module's entry point,
//! and marshalling textual arguments into typed values.
//!
//! The engine itself (compilation, instantiation, the actual calls into
//! module code) lives outside this crate; the functions here take what
//! the engine reports as plain values and decide everything else.

pub mod cage;
pub mod config;
pub mod hostctx;
pub mod invoker;
pub mod module;
pub mod runtime;

pub use cage::{CageIdAllocator, CageManager, ThreadRegistry, CAGE_START_ID, THREAD_START_ID};
pub use config::{rewrite_exec_config, Config};
pub use hostctx::HostCtx;
pub use module::{ModuleInstance, Val, ValKind};
pub use runtime::{Runtime, Workload};
