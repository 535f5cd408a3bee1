//! The cycle state machine: one entry per traversal pass over a module's
//! top-level item list, dispatching on the current phase.
//!
//! `Skip` and the transparent phases hand the list through unchanged;
//! `Initializing` downgrades to `Skip` when no style-API import was
//! observed; `InjectStyles` resolves the export shape and splices the
//! injection statements; `Cleaning` filters out empty-statement
//! placeholders. Recursing into nested scopes is the host framework's
//! generic child traversal, which never reshapes the top-level list.

use vstd::prelude::*;

use crate::constants::{default_inject_path, default_inject_path_spec};
use crate::count_map::VarDeclCountMap;
use crate::enums::ModuleCycle;
use crate::module_item::{CssRule, ModuleItem};
use crate::named_import_source::{RuntimeInjection, RuntimeInjectionState};
use crate::resolver::{counts_after_scan, opt_name, resolve, resolve_spec};
use crate::rewriter::{rewrite, rewrite_rel};
use crate::uid_generator::{uid_name, UidGenerator};

verus! {

/// The prefix of every identifier the injection pass generates.
pub open spec fn inject_prefix() -> Seq<char> {
    "inject"@
}

/// `items` with every empty-statement placeholder removed, order kept.
pub open spec fn remove_empty(items: Seq<ModuleItem>) -> Seq<ModuleItem>
    decreases items.len(),
{
    if items.len() == 0 {
        Seq::empty()
    } else {
        let rest = remove_empty(items.drop_last());
        if items.last() is EmptyStmt {
            rest
        } else {
            rest.push(items.last())
        }
    }
}

/// Law: running the cleaning filter on an item list already free of
/// empty-statement placeholders is a no-op.
pub proof fn lemma_cleaning_noop(items: Seq<ModuleItem>)
    requires
        forall|i: int| 0 <= i < items.len() ==> !((#[trigger] items[i]) is EmptyStmt),
    ensures
        remove_empty(items) == items,
    decreases items.len(),
{
    if items.len() > 0 {
        assert forall|j: int| 0 <= j < items.drop_last().len() implies !((#[trigger] items.drop_last()[j]) is EmptyStmt) by {
            assert(items.drop_last()[j] == items[j]);
        }
        lemma_cleaning_noop(items.drop_last());
        assert(remove_empty(items) =~= items);
    } else {
        assert(remove_empty(items) =~= items);
    }
}

/// The cleaning filter leaves no empty-statement placeholder behind.
pub proof fn lemma_remove_empty_free_of_placeholders(items: Seq<ModuleItem>)
    ensures
        forall|i: int|
            0 <= i < remove_empty(items).len() ==> !((#[trigger] remove_empty(items)[i])
                is EmptyStmt),
    decreases items.len(),
{
    if items.len() > 0 {
        lemma_remove_empty_free_of_placeholders(items.drop_last());
        let rest = remove_empty(items.drop_last());
        if !(items.last() is EmptyStmt) {
            assert forall|i: int|
                0 <= i < remove_empty(items).len() implies !((#[trigger] remove_empty(items)[i])
                is EmptyStmt) by {
                if i < rest.len() {
                    assert(remove_empty(items)[i] == rest[i]);
                } else {
                    assert(remove_empty(items)[i] == items.last());
                }
            }
        }
    }
}

/// Law: re-running the cleaning filter on its own output changes nothing.
pub proof fn lemma_cleaning_idempotent(items: Seq<ModuleItem>)
    ensures
        remove_empty(remove_empty(items)) == remove_empty(items),
{
    lemma_remove_empty_free_of_placeholders(items);
    lemma_cleaning_noop(remove_empty(items));
}

/// Per-module mutable state of one compilation run: the current phase, the
/// accumulated CSS rules, the expected styles-variable name, the exported
/// declarator reference counts, the style-API imports observed so far, and
/// the resolved runtime-injection mode.
pub struct ModuleTransformVisitor {
    /// Current phase of the rewrite cycle.
    pub cycle: ModuleCycle,
    /// Name of the variable expected to hold the computed styles object,
    /// once established by the processing phase.
    pub props_declaration: Option<String>,
    /// The computed CSS rules, in discovery order.
    pub css_output: Vec<CssRule>,
    /// Reference counts of exported declarators, bumped during the scan.
    pub var_decl_count_map: VarDeclCountMap,
    /// The style-API import names observed during initialization; empty
    /// means the module never uses the style API.
    pub stylex_create_import: Vec<String>,
    /// The active runtime-injection mode; `None` switches injection off.
    pub runtime_injection: Option<RuntimeInjectionState>,
    /// Whether the injection pass has already run for this module. A
    /// completed pass is never applied again, so re-entering it on its own
    /// output cannot re-resolve the anchor or duplicate injected calls.
    pub styles_injected: bool,
}

/// The fields the injection pass never touches.
pub open spec fn same_accumulator(pre: ModuleTransformVisitor, post: ModuleTransformVisitor) -> bool {
    &&& post.props_declaration == pre.props_declaration
    &&& post.css_output == pre.css_output
    &&& post.stylex_create_import == pre.stylex_create_import
    &&& post.runtime_injection == pre.runtime_injection
}

/// What the first `InjectStyles` entry does: it bumps the exported
/// declarator counts of the whole scan, marks injection as performed,
/// leaves the rest of the state alone, and — when an anchor is resolved and
/// injection is switched on — relates the output to the input by the
/// rewrite relation, with the two identifiers the pass generates; otherwise
/// it returns the list unchanged.
pub open spec fn inject_styles_post(
    pre: ModuleTransformVisitor,
    post: ModuleTransformVisitor,
    items: Seq<ModuleItem>,
    r: Seq<ModuleItem>,
) -> bool {
    &&& post.cycle == pre.cycle
    &&& post.styles_injected
    &&& same_accumulator(pre, post)
    &&& post.var_decl_count_map.wf()
    &&& post.var_decl_count_map@ == counts_after_scan(pre.var_decl_count_map@, items)
    &&& match resolve_spec(items, opt_name(pre.props_declaration)) {
        Some((anchor, shape)) => match pre.runtime_injection {
            Some(injection) => rewrite_rel(
                items,
                anchor,
                shape,
                pre.css_output@,
                injection,
                uid_name(inject_prefix(), 1),
                uid_name(inject_prefix(), 2),
                r,
            ),
            None => r == items,
        },
        None => r == items,
    }
}

fn is_empty_stmt(item: &ModuleItem) -> (r: bool)
    ensures
        r == (*item is EmptyStmt),
{
    match item {
        ModuleItem::EmptyStmt => true,
        _ => false,
    }
}

impl ModuleTransformVisitor {
    /// The state's internal consistency: the count map keeps unique keys.
    pub open spec fn inv(&self) -> bool {
        self.var_decl_count_map.wf()
    }

    /// Fresh state for one module compilation, entering the first phase
    /// with nothing observed yet and the injection mode resolved from the
    /// configuration.
    pub fn new(runtime_injection: &RuntimeInjection) -> (r: Self)
        ensures
            r.inv(),
            r.cycle == ModuleCycle::Initializing,
            r.props_declaration is None,
            r.css_output@ == Seq::<CssRule>::empty(),
            r.var_decl_count_map@ == Map::<Seq<char>, u64>::empty(),
            r.stylex_create_import@ == Seq::<String>::empty(),
            !r.styles_injected,
            match *runtime_injection {
                RuntimeInjection::Boolean(b) => if b {
                    r.runtime_injection matches Some(RuntimeInjectionState::Regular(p)) && p@
                        == default_inject_path_spec()
                } else {
                    r.runtime_injection is None
                },
                RuntimeInjection::Regular(p) => r.runtime_injection matches Some(
                    RuntimeInjectionState::Regular(q),
                ) && q == p,
                RuntimeInjection::Named(n) => r.runtime_injection matches Some(
                    RuntimeInjectionState::Named(m),
                ) && m == n,
            },
    {
        ModuleTransformVisitor {
            cycle: ModuleCycle::Initializing,
            props_declaration: None,
            css_output: Vec::new(),
            var_decl_count_map: VarDeclCountMap::new(),
            stylex_create_import: Vec::new(),
            runtime_injection: runtime_injection.to_state(default_inject_path()),
            styles_injected: false,
        }
    }

    /// One traversal entry into the module's top-level item list at the
    /// current phase.
    ///
    /// Every phase but `InjectStyles` and `Cleaning` returns the list
    /// unchanged; a module with zero style-API references resolves to
    /// `Skip` during initialization and is never rewritten afterwards.
    /// The injection pass runs at most once per module: re-entering it
    /// after it has completed is the identity, so injected calls are never
    /// duplicated even under a host that re-enters a finished phase.
    pub fn fold_module_items(&mut self, module_items: Vec<ModuleItem>) -> (r: Vec<ModuleItem>)
        requires
            old(self).inv(),
        ensures
            final(self).inv(),
            match old(self).cycle {
                ModuleCycle::Skip => r@ == module_items@ && *final(self) == *old(self),
                ModuleCycle::Initializing => {
                    &&& r@ == module_items@
                    &&& same_accumulator(*old(self), *final(self))
                    &&& final(self).var_decl_count_map == old(self).var_decl_count_map
                    &&& final(self).styles_injected == old(self).styles_injected
                    &&& final(self).cycle == (if old(self).stylex_create_import@.len() == 0 {
                        ModuleCycle::Skip
                    } else {
                        ModuleCycle::Initializing
                    })
                },
                ModuleCycle::Processing => r@ == module_items@ && *final(self) == *old(self),
                ModuleCycle::InjectClassName => r@ == module_items@ && *final(self) == *old(self),
                ModuleCycle::InjectStyles => if old(self).styles_injected {
                    r@ == module_items@ && *final(self) == *old(self)
                } else {
                    inject_styles_post(*old(self), *final(self), module_items@, r@)
                },
                ModuleCycle::Cleaning => r@ == remove_empty(module_items@) && *final(self) == *old(
                    self,
                ),
            },
    {
        match self.cycle {
            ModuleCycle::Skip => module_items,
            ModuleCycle::Initializing => {
                if self.stylex_create_import.len() == 0 {
                    self.cycle = ModuleCycle::Skip;
                }
                module_items
            },
            ModuleCycle::Processing => module_items,
            ModuleCycle::InjectClassName => module_items,
            ModuleCycle::InjectStyles => {
                if self.styles_injected {
                    return module_items;
                }
                self.styles_injected = true;
                let resolved = resolve(
                    &module_items,
                    &self.props_declaration,
                    &mut self.var_decl_count_map,
                );
                proof {
                    crate::resolver::lemma_resolve_last_match(
                        module_items@,
                        opt_name(self.props_declaration),
                    );
                }
                match resolved {
                    Some((anchor, shape)) => match &self.runtime_injection {
                        Some(injection) => {
                            let mut uid_generator_inject = UidGenerator::new("inject");
                            rewrite(
                                module_items,
                                anchor,
                                &shape,
                                &self.css_output,
                                injection,
                                &mut uid_generator_inject,
                            )
                        },
                        None => module_items,
                    },
                    None => module_items,
                }
            },
            ModuleCycle::Cleaning => {
                let ghost items0 = module_items@;
                let mut module_items = module_items;
                let mut result: Vec<ModuleItem> = Vec::new();
                let total = module_items.len();
                let mut k: usize = 0;
                while k < total
                    invariant
                        k <= total,
                        total == items0.len(),
                        module_items@ == items0.subrange(k as int, items0.len() as int),
                        result@ == remove_empty(items0.subrange(0, k as int)),
                    decreases total - k,
                {
                    let item = module_items.remove(0);
                    proof {
                        assert(item == items0[k as int]);
                        assert(module_items@ =~= items0.subrange(k + 1, items0.len() as int));
                        assert(items0.subrange(0, k + 1).drop_last() =~= items0.subrange(
                            0,
                            k as int,
                        ));
                        assert(items0.subrange(0, k + 1).last() == items0[k as int]);
                    }
                    if !is_empty_stmt(&item) {
                        result.push(item);
                    }
                    k = k + 1;
                }
                proof {
                    assert(items0.subrange(0, total as int) =~= items0);
                }
                result
            },
        }
    }
}

} // verus!
