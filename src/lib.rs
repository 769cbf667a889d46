//! Schema-driven generation of a coordinated set of source artifacts, and
//! the project checks of the command-line tool around it.
//!
//! One entity schema is turned into one render context per artifact kind;
//! the derived field views, the contexts, the text filters that templates
//! use, the output paths and the batch ledger are specified and proved
//! here, as are the rule-based advice, the navigation check and the
//! design-document helpers.
mod strutil;
pub mod schema;
pub mod filters;
pub mod contexts;
pub mod migration;
pub mod artifacts;
pub mod batch;
pub mod util;
pub mod navigation;
pub mod commands;
pub mod advice;
pub mod markdown;
pub mod theme;
