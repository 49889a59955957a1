//! Runtime state core of an interactive shell: typed scalar and array
//! variable stores with read-only enforcement, two named boolean option
//! registries, an alias table, and a prompt-template renderer.
//!
//! Every store is specified against a mathematical map model, and the
//! behaviour of each operation (lookups, guarded mutation, seeding of the
//! default tables) is stated in its contract.

/// Alias table: name to replacement text.
pub mod aliases;
/// Array variable store: name to access flag plus indexed entries.
pub mod arrays;
/// Shell builtins; most are placeholders that report they are unavailable.
pub mod builtins;
/// Error kinds returned by the stores and the renderer.
pub mod error;
/// Named boolean option registries (shopt-style and set-style).
pub mod opt;
/// The aggregate session state.
pub mod rush;
/// Prompt template rendering against live shell state.
pub mod prompt;
/// Scalar variable store: name to typed value and access flag.
pub mod variables;

pub use crate::rush::RuSh;
