//! The module item rewriter: given the anchor position, shape tag and the
//! accumulated CSS rules, builds the new top-level item list — optional
//! import/declaration preamble, the original items up to the anchor, one
//! injection-call statement per rule, then the anchor item and everything
//! after it, unchanged.

use vstd::prelude::*;

use crate::enums::InjectedStylesDeclarationType;
use crate::module_item::{CssRule, ModuleItem, Pat, VarDeclarator};
use crate::named_import_source::RuntimeInjectionState;
use crate::uid_generator::{uid_name, UidGenerator};

verus! {

/// The conventional name of the style-API namespace binding that
/// declaration-export injection calls address.
pub open spec fn stylex_ident() -> Seq<char> {
    "stylex"@
}

/// How many items the preamble holds for one shape.
pub open spec fn preamble_len(shape: InjectedStylesDeclarationType) -> int {
    if shape is NamedPropertyOrDefaultExport {
        2
    } else {
        0
    }
}

/// The preamble import of the runtime injector module, honouring the active
/// injection mode: a default import of the configured path, or a named
/// import with the configured alias; bound to `local` either way.
pub open spec fn is_preamble_import(
    item: ModuleItem,
    injection: RuntimeInjectionState,
    local: Seq<char>,
) -> bool {
    match injection {
        RuntimeInjectionState::Regular(path) => item matches ModuleItem::Import {
            local: l,
            imported,
            source,
        } && l@ == local && imported is None && source@ == path@,
        RuntimeInjectionState::Named(named) => item matches ModuleItem::Import {
            local: l,
            imported,
            source,
        } && l@ == local && (imported matches Some(im) && im@ == named.as_name@) && source@
            == named.from@,
    }
}

/// The preamble declaration `var <name> = <init>;`.
pub open spec fn is_preamble_var_decl(item: ModuleItem, name: Seq<char>, init: Seq<char>) -> bool {
    item matches ModuleItem::VarDeclStmt { decls } && decls@.len() == 1 && (
    decls@[0].name matches Pat::Ident(n) && n@ == name) && (decls@[0].init_ident matches Some(v)
        && v@ == init)
}

/// One injection-call statement for one CSS rule: a member call
/// `stylex.<var_ident>(cssText, priority)` for the declaration-export
/// shape, a direct call `<var_ident>(cssText, priority)` otherwise.
pub open spec fn is_inject_call(
    item: ModuleItem,
    shape: InjectedStylesDeclarationType,
    var_ident: Seq<char>,
    rule: CssRule,
) -> bool {
    match shape {
        InjectedStylesDeclarationType::NamedDeclarationExport => item matches ModuleItem::CallStmt {
            obj,
            callee,
            string_arg,
            number_arg,
        } && (obj matches Some(o) && o@ == stylex_ident()) && callee@ == var_ident && string_arg@
            == rule.css@ && number_arg == rule.priority,
        InjectedStylesDeclarationType::NamedPropertyOrDefaultExport => item matches ModuleItem::CallStmt {
            obj,
            callee,
            string_arg,
            number_arg,
        } && obj is None && callee@ == var_ident && string_arg@ == rule.css@ && number_arg
            == rule.priority,
    }
}

/// How the rewritten list `r` relates to the original `items`: preamble
/// (for the property/default-export shape only), the items before the
/// anchor, one injection call per rule in rule order, then the items from
/// the anchor on, unchanged.
pub open spec fn rewrite_rel(
    items: Seq<ModuleItem>,
    anchor: int,
    shape: InjectedStylesDeclarationType,
    rules: Seq<CssRule>,
    injection: RuntimeInjectionState,
    module_ident: Seq<char>,
    var_ident: Seq<char>,
    r: Seq<ModuleItem>,
) -> bool {
    let pre = preamble_len(shape);
    let n = rules.len() as int;
    &&& r.len() == pre + items.len() + n
    &&& (shape is NamedPropertyOrDefaultExport ==> is_preamble_import(r[0], injection, module_ident)
        && is_preamble_var_decl(r[1], var_ident, module_ident))
    &&& r.subrange(pre, pre + anchor) == items.subrange(0, anchor)
    &&& (forall|k: int|
        0 <= k < n ==> is_inject_call(#[trigger] r[pre + anchor + k], shape, var_ident, rules[k]))
    &&& r.subrange(pre + anchor + n, r.len() as int) == items.subrange(anchor, items.len() as int)
}

/// Law: with a rule set of size N and one export shape resolved at the
/// anchor index, the rewritten list holds exactly N new call statements
/// immediately before the anchor (after any preamble), and every item at
/// and after the anchor — like every item before it — is unchanged and in
/// original order.
pub proof fn lemma_injection_placement(
    items: Seq<ModuleItem>,
    anchor: int,
    shape: InjectedStylesDeclarationType,
    rules: Seq<CssRule>,
    injection: RuntimeInjectionState,
    module_ident: Seq<char>,
    var_ident: Seq<char>,
    r: Seq<ModuleItem>,
)
    requires
        0 <= anchor <= items.len(),
        rewrite_rel(items, anchor, shape, rules, injection, module_ident, var_ident, r),
    ensures
        r.len() == preamble_len(shape) + items.len() + rules.len(),
        forall|k: int|
            0 <= k < anchor ==> r[preamble_len(shape) + k] == #[trigger] items[k],
        forall|k: int|
            0 <= k < rules.len() ==> is_inject_call(
                #[trigger] r[preamble_len(shape) + anchor + k],
                shape,
                var_ident,
                rules[k],
            ),
        forall|k: int|
            anchor <= k < items.len() ==> r[preamble_len(shape) + rules.len() + k] == (
            #[trigger] items[k]),
{
    let pre = preamble_len(shape);
    let n = rules.len() as int;
    assert forall|k: int| 0 <= k < anchor implies r[pre + k] == #[trigger] items[k] by {
        assert(r.subrange(pre, pre + anchor)[k] == r[pre + k]);
        assert(items.subrange(0, anchor)[k] == items[k]);
    }
    assert forall|k: int| anchor <= k < items.len() implies r[pre + n + k] == (
    #[trigger] items[k]) by {
        assert(r.subrange(pre + anchor + n, r.len() as int)[k - anchor] == r[pre + n + k]);
        assert(items.subrange(anchor, items.len() as int)[k - anchor] == items[k]);
    }
}

/// Law: the property/default-export shape always gets a preamble of exactly
/// one import statement and one variable declaration; the declaration-export
/// shape gets none.
pub proof fn lemma_preamble_shape(
    items: Seq<ModuleItem>,
    anchor: int,
    shape: InjectedStylesDeclarationType,
    rules: Seq<CssRule>,
    injection: RuntimeInjectionState,
    module_ident: Seq<char>,
    var_ident: Seq<char>,
    r: Seq<ModuleItem>,
)
    requires
        0 <= anchor <= items.len(),
        rewrite_rel(items, anchor, shape, rules, injection, module_ident, var_ident, r),
    ensures
        shape is NamedPropertyOrDefaultExport ==> r.len() == 2 + items.len() + rules.len() && (
        r[0] is Import) && (r[1] is VarDeclStmt),
        shape is NamedDeclarationExport ==> r.len() == items.len() + rules.len(),
{
    if shape is NamedPropertyOrDefaultExport {
        match injection {
            RuntimeInjectionState::Regular(_) => {},
            RuntimeInjectionState::Named(_) => {},
        }
    }
}

/// Appends the preamble import of the runtime injector module when the
/// shape calls for one: a default or aliased-named import of the configured
/// module path, bound to `ident`.
pub fn add_inject_import_expression(
    injected_styles_export: &InjectedStylesDeclarationType,
    module_item_pre_start_vec: &mut Vec<ModuleItem>,
    ident: &String,
    injection: &RuntimeInjectionState,
)
    ensures
        match *injected_styles_export {
            InjectedStylesDeclarationType::NamedPropertyOrDefaultExport => {
                &&& final(module_item_pre_start_vec)@.len() == old(module_item_pre_start_vec)@.len() + 1
                &&& final(module_item_pre_start_vec)@.drop_last() == old(module_item_pre_start_vec)@
                &&& is_preamble_import(final(module_item_pre_start_vec)@.last(), *injection, ident@)
            },
            InjectedStylesDeclarationType::NamedDeclarationExport => final(module_item_pre_start_vec)@
                == old(module_item_pre_start_vec)@,
        },
{
    match injected_styles_export {
        InjectedStylesDeclarationType::NamedPropertyOrDefaultExport => {
            let item = match injection {
                RuntimeInjectionState::Regular(path) => ModuleItem::Import {
                    local: ident.clone(),
                    imported: None,
                    source: path.clone(),
                },
                RuntimeInjectionState::Named(named) => ModuleItem::Import {
                    local: ident.clone(),
                    imported: Some(named.as_name.clone()),
                    source: named.from.clone(),
                },
            };
            module_item_pre_start_vec.push(item);
            proof {
                assert(module_item_pre_start_vec@.drop_last() =~= old(module_item_pre_start_vec)@);
            }
        },
        InjectedStylesDeclarationType::NamedDeclarationExport => {},
    }
}

/// Appends the preamble declaration `var <decl_ident> = <value_ident>;`
/// when the shape calls for one.
pub fn add_inject_var_decl_expression(
    injected_styles_export: &InjectedStylesDeclarationType,
    module_item_pre_start_vec: &mut Vec<ModuleItem>,
    decl_ident: &String,
    value_ident: &String,
)
    ensures
        match *injected_styles_export {
            InjectedStylesDeclarationType::NamedPropertyOrDefaultExport => {
                &&& final(module_item_pre_start_vec)@.len() == old(module_item_pre_start_vec)@.len() + 1
                &&& final(module_item_pre_start_vec)@.drop_last() == old(module_item_pre_start_vec)@
                &&& is_preamble_var_decl(final(module_item_pre_start_vec)@.last(), decl_ident@, value_ident@)
            },
            InjectedStylesDeclarationType::NamedDeclarationExport => final(module_item_pre_start_vec)@
                == old(module_item_pre_start_vec)@,
        },
{
    match injected_styles_export {
        InjectedStylesDeclarationType::NamedPropertyOrDefaultExport => {
            let mut decls: Vec<VarDeclarator> = Vec::new();
            decls.push(
                VarDeclarator {
                    name: Pat::Ident(decl_ident.clone()),
                    init_ident: Some(value_ident.clone()),
                },
            );
            let item = ModuleItem::VarDeclStmt { decls };
            module_item_pre_start_vec.push(item);
            proof {
                assert(module_item_pre_start_vec@.drop_last() =~= old(module_item_pre_start_vec)@);
            }
        },
        InjectedStylesDeclarationType::NamedDeclarationExport => {},
    }
}

/// Builds one injection-call statement for one CSS rule.
fn make_inject_call(
    shape: &InjectedStylesDeclarationType,
    var_ident: &String,
    rule_css: &String,
    rule_priority: u32,
) -> (r: ModuleItem)
    ensures
        is_inject_call(
            r,
            *shape,
            var_ident@,
            CssRule { priority: rule_priority, css: *rule_css },
        ),
{
    let obj = match shape {
        InjectedStylesDeclarationType::NamedDeclarationExport => Some(String::from_str("stylex")),
        InjectedStylesDeclarationType::NamedPropertyOrDefaultExport => None,
    };
    ModuleItem::CallStmt {
        obj,
        callee: var_ident.clone(),
        string_arg: rule_css.clone(),
        number_arg: rule_priority,
    }
}

/// Rewrites the top-level item list around the resolved anchor: generates
/// two fresh identifiers with the generator, prepends the preamble when the
/// shape calls for one, and splices one injection call per accumulated CSS
/// rule, in rule order, immediately before the anchor item.
pub fn rewrite(
    module_items: Vec<ModuleItem>,
    anchor: usize,
    shape: &InjectedStylesDeclarationType,
    css_rules: &Vec<CssRule>,
    injection: &RuntimeInjectionState,
    uid_generator: &mut UidGenerator,
) -> (r: Vec<ModuleItem>)
    requires
        anchor <= module_items@.len(),
        old(uid_generator).counter_spec() + 2 <= u32::MAX,
    ensures
        final(uid_generator).prefix_spec() == old(uid_generator).prefix_spec(),
        final(uid_generator).counter_spec() == old(uid_generator).counter_spec() + 2,
        rewrite_rel(
            module_items@,
            anchor as int,
            *shape,
            css_rules@,
            *injection,
            uid_name(old(uid_generator).prefix_spec(), old(uid_generator).counter_spec() + 1),
            uid_name(old(uid_generator).prefix_spec(), old(uid_generator).counter_spec() + 2),
            r@,
        ),
{
    let ghost items0 = module_items@;
    let inject_module_ident = uid_generator.generate_ident();
    let inject_var_ident = uid_generator.generate_ident();

    let mut result: Vec<ModuleItem> = Vec::new();
    add_inject_import_expression(shape, &mut result, &inject_module_ident, injection);
    add_inject_var_decl_expression(shape, &mut result, &inject_var_ident, &inject_module_ident);
    let ghost pre = preamble_len(*shape);
    proof {
        assert(result@.len() == pre);
        if (*shape) is NamedPropertyOrDefaultExport {
            assert(result@.drop_last()[0] == result@[0]);
            assert(is_preamble_import(result@[0], *injection, inject_module_ident@));
            assert(is_preamble_var_decl(result@[1], inject_var_ident@, inject_module_ident@));
        }
    }
    let ghost pre_seq = result@;

    let mut module_items = module_items;
    let mut k: usize = 0;
    while k < anchor
        invariant
            k <= anchor,
            anchor <= items0.len(),
            module_items@ == items0.subrange(k as int, items0.len() as int),
            result@ == pre_seq + items0.subrange(0, k as int),
        decreases anchor - k,
    {
        let item = module_items.remove(0);
        proof {
            assert(item == items0[k as int]);
            assert(module_items@ =~= items0.subrange(k + 1, items0.len() as int));
        }
        result.push(item);
        proof {
            assert(result@ =~= pre_seq + items0.subrange(0, k + 1));
        }
        k = k + 1;
    }

    let ghost before_calls = result@;
    let n_rules = css_rules.len();
    let mut m: usize = 0;
    while m < n_rules
        invariant
            m <= n_rules,
            n_rules == css_rules@.len(),
            result@.len() == before_calls.len() + m,
            result@.subrange(0, before_calls.len() as int) == before_calls,
            forall|j: int|
                0 <= j < m ==> is_inject_call(
                    #[trigger] result@[before_calls.len() + j],
                    *shape,
                    inject_var_ident@,
                    css_rules@[j],
                ),
        decreases n_rules - m,
    {
        let rule = &css_rules[m];
        let call = make_inject_call(shape, &inject_var_ident, &rule.css, rule.priority);
        proof {
            assert(CssRule { priority: rule.priority, css: rule.css } == css_rules@[m as int]);
        }
        result.push(call);
        proof {
            assert(result@.subrange(0, before_calls.len() as int) =~= before_calls);
        }
        m = m + 1;
    }

    let ghost with_calls = result@;
    let remaining = module_items.len();
    let mut t: usize = 0;
    while t < remaining
        invariant
            t <= remaining,
            anchor <= items0.len(),
            remaining == items0.len() - anchor,
            module_items@ == items0.subrange(anchor + t, items0.len() as int),
            result@ == with_calls + items0.subrange(anchor as int, anchor + t),
        decreases remaining - t,
    {
        let item = module_items.remove(0);
        proof {
            assert(item == items0[anchor + t]);
            assert(module_items@ =~= items0.subrange(anchor + t + 1, items0.len() as int));
        }
        result.push(item);
        proof {
            assert(result@ =~= with_calls + items0.subrange(anchor as int, anchor + t + 1));
        }
        t = t + 1;
    }

    proof {
        let n = css_rules@.len() as int;
        assert(before_calls.len() == pre + anchor);
        assert(with_calls.len() == pre + anchor + n);
        assert(with_calls.subrange(0, pre + anchor) == before_calls);
        assert forall|i: int| 0 <= i < pre + anchor implies result@[i] == before_calls[i] by {
            assert(result@[i] == with_calls[i]);
            assert(with_calls.subrange(0, pre + anchor)[i] == with_calls[i]);
        }
        assert(before_calls == pre_seq + items0.subrange(0, anchor as int));
        if (*shape) is NamedPropertyOrDefaultExport {
            assert(result@[0] == before_calls[0]);
            assert(before_calls[0] == pre_seq[0]);
            assert(result@[1] == before_calls[1]);
            assert(before_calls[1] == pre_seq[1]);
        }
        assert(result@ == with_calls + items0.subrange(anchor as int, items0.len() as int));
        assert forall|i: int| 0 <= i < anchor implies result@[pre + i] == items0[i] by {
            assert(result@[pre + i] == before_calls[pre + i]);
            assert(before_calls[pre + i] == items0.subrange(0, anchor as int)[i]);
        }
        assert(result@.subrange(pre, pre + anchor) =~= items0.subrange(0, anchor as int));
        assert(result@.subrange(pre + anchor + n, result@.len() as int) =~= items0.subrange(
            anchor as int,
            items0.len() as int,
        ));
        assert forall|j: int|
            0 <= j < n implies is_inject_call(
            #[trigger] result@[pre + anchor + j],
            *shape,
            inject_var_ident@,
            css_rules@[j],
        ) by {
            assert(result@[pre + anchor + j] == with_calls[before_calls.len() + j]);
        }
    }
    result
}

} // verus!
