//! A native plugin for a command shell, written against the shell's fixed
//! plugin interface, together with the host-side rules that govern a loaded
//! plugin: its lifecycle, the prompt-variable callback registry, the
//! command/event routing table and the ledger of buffers that cross the
//! boundary.
#![allow(non_camel_case_types)]

pub mod abi;
pub mod text;
pub mod clock;
pub mod settings;
pub mod quotes;
pub mod plugin;
pub mod names;
pub mod registry;
pub mod dispatch;
pub mod ledger;
pub mod lifecycle;
