//! A safe, verified ownership layer for reference-counted native input-tool
//! handles.
//!
//! The native layer hands out raw handles to tool objects together with
//! acquire/release primitives for their reference counts. This crate models
//! that boundary with plain values: a reference-count table standing for the
//! native bookkeeping, a record of the properties a tool reports, and a typed
//! wrapper that owns exactly one reference per instance. The translator maps
//! the native integer tool-type codes onto a closed enumeration, degrading to
//! "unknown" on codes it does not recognize.

pub mod native;
pub mod tool;
pub mod tool_type;

pub use native::NativeLayer;
pub use tool::TabletTool;
pub use tool::ToolInfo;
pub use tool_type::TabletToolType;
pub use tool_type::translate;
