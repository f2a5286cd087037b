//! Typed views over the type objects of a foreign compiler library.
//!
//! Every foreign object is known to this crate only by its identity, a
//! [`RawHandle`]. Views of the type hierarchy wrap such a handle at no cost,
//! widen to their ancestors without any check, and narrow only through the
//! kind tag that the foreign runtime reports.

pub mod handle;
pub mod builder;
pub mod context;
pub mod kind;
pub mod module;
pub mod report;
pub mod target;
pub mod types;

pub use builder::IntPredicate;
pub use context::{Constant, Context};
pub use handle::RawHandle;
pub use kind::TypeKind;
pub use module::{ExecutionEngine, Module};
pub use target::{
    CodeGenFileType, CodeGenOptLevel, CodeModel, RelocMode, Target, TargetData, TargetMachine,
};
pub use types::{Kind, Subtype, Type};
