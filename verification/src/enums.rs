//! The phase tag of the rewrite cycle and the classification of the
//! styles-export shape.

use vstd::prelude::*;

verus! {

/// Phase of the module-rewrite cycle. The order is fixed and monotonic for
/// one module compilation; only `Initializing` may short-circuit to `Skip`.
#[derive(Clone, Copy, Debug, PartialEq, Eq, Structural)]
pub enum ModuleCycle {
    /// Terminal: no further rewriting of this module.
    Skip,
    /// First pass: discovers whether the style API is used at all.
    Initializing,
    /// Pass reserved for evaluating style-definition calls (delegated to the
    /// evaluator collaborator); transparent to the item-list shape.
    Processing,
    /// Pass that rewrites call-sites to computed classnames; transparent to
    /// the item-list shape at this layer.
    InjectClassName,
    /// Pass that resolves the export shape and splices injection statements.
    InjectStyles,
    /// Final pass(es): removes empty-statement placeholders.
    Cleaning,
}

/// How the user exported the computed-styles variable.
#[derive(Clone, Copy, Debug, PartialEq, Eq, Structural)]
pub enum InjectedStylesDeclarationType {
    /// The styles variable is declared directly in an export statement
    /// (`export const styles = ...`).
    NamedDeclarationExport,
    /// The styles variable is declared locally and exported separately, or
    /// an object literal is exported as the default export.
    NamedPropertyOrDefaultExport,
}

} // verus!
