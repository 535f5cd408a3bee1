//! Representation-independent model of a module's top-level items.
//!
//! The host compiler framework owns the concrete syntax tree; this core only
//! needs to classify top-level items, read declarator names, and construct
//! import / declaration / call items to splice in. Each variant records
//! exactly what the rewrite engine reads of the corresponding item kind;
//! everything else about an item is opaque and travels unchanged.

use vstd::prelude::*;

verus! {

/// A declarator's binding pattern: a simple identifier, or any other
/// (destructuring) pattern, which the engine never matches on.
#[derive(Debug, Clone, PartialEq, Eq)]
pub enum Pat {
    Ident(String),
    Other,
}

/// One declarator of a variable declaration. `init_ident` is `Some(name)`
/// exactly when the initializer is the bare identifier `name` — the only
/// initializer shape this core ever constructs; any other or absent
/// initializer is `None`.
#[derive(Debug, Clone, PartialEq, Eq)]
pub struct VarDeclarator {
    pub name: Pat,
    pub init_ident: Option<String>,
}

/// One computed CSS rule: the ordinal priority handed through to the runtime
/// injector, and the rule's CSS text.
#[derive(Debug, Clone, PartialEq, Eq)]
pub struct CssRule {
    pub priority: u32,
    pub css: String,
}

/// A top-level module item, reduced to what the rewrite engine reads.
#[derive(Debug, Clone, PartialEq, Eq)]
pub enum ModuleItem {
    /// An import declaration binding `local`: a default import of `source`
    /// when `imported` is `None`, otherwise a named import of `imported`
    /// aliased to `local`.
    Import { local: String, imported: Option<String>, source: String },
    /// An export of a variable declaration (`export const x = ...`).
    ExportVarDecl { decls: Vec<VarDeclarator> },
    /// A default export of an expression; `is_object` says whether that
    /// expression is an object literal.
    ExportDefaultExpr { is_object: bool },
    /// A plain statement declaring variables (`const x = ...`).
    VarDeclStmt { decls: Vec<VarDeclarator> },
    /// An expression statement calling `obj.callee(string_arg, number_arg)`,
    /// or `callee(string_arg, number_arg)` when `obj` is `None` — the shape
    /// of every injection call this core constructs.
    CallStmt { obj: Option<String>, callee: String, string_arg: String, number_arg: u32 },
    /// An empty-statement placeholder, filtered out by the cleaning phase.
    EmptyStmt,
    /// Any other item; never matched, handed through unchanged.
    Other,
}

} // verus!
