//! Type-directed binding emitter for native graphics APIs.
//!
//! Given a registry of native commands and constants, the crate produces the
//! text of safe wrapper functions, of the table of function-pointer slots and
//! of the per-command loaders.  It also holds an explicit model of that table:
//! slots that a resolver fills, canonical name first, fallback names after.

pub mod debug;
pub mod error;
pub mod generators;
pub mod loader;
pub mod publish;
pub mod registry;
pub mod rules;
pub mod text;

pub use error::GenerationError;
pub use generators::global_typed_gen::GlobalTypedGenerator;
pub use generators::Generator;
pub use loader::{Entry, Slot, SymbolTable};
pub use registry::{AliasEntry, Api, Binding, Cmd, Enum, Registry, TypeTemplates};
pub use rules::{ConversionRule, ProjectionRule, RuleSet};
