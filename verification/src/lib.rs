//! Compile-time module-rewrite core of a CSS-in-JS transform.
//!
//! The library walks a module's top-level item list in fixed phases, finds
//! the single declaration that exports the computed styles, and splices
//! import / declaration / injection-call items in front of it, leaving every
//! other item untouched. Items are held in a representation-independent
//! model: the host compiler framework owns parsing and printing and hands
//! this core only the item classification it needs.

pub mod constants;
pub mod count_map;
pub mod enums;
pub mod fold_module_items;
pub mod module_item;
pub mod named_import_source;
pub mod resolver;
pub mod rewriter;
pub mod uid_generator;
