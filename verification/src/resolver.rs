//! The injection-shape resolver: one scan over a module's top-level items
//! that decides which of the supported export shapes is present and where,
//! and bumps the reference count of every simple-identifier declarator found
//! in an exported variable declaration.
//!
//! The scan never stops at the first candidate: a module with several
//! plausible styles exports resolves to the last one in source order.

use vstd::prelude::*;

use crate::count_map::{bump_name, increase_ident_count, VarDeclCountMap};
use crate::enums::InjectedStylesDeclarationType;
use crate::module_item::{ModuleItem, Pat, VarDeclarator};

verus! {

/// The view of an optional expected-name.
pub open spec fn opt_name(o: Option<String>) -> Option<Seq<char>> {
    match o {
        Some(s) => Some(s@),
        None => None,
    }
}

/// Whether one declarator's pattern is the expected simple identifier.
pub open spec fn declarator_matches(d: VarDeclarator, expected: Option<Seq<char>>) -> bool {
    match d.name {
        Pat::Ident(name) => expected matches Some(e) && name@ == e,
        Pat::Other => false,
    }
}

/// Whether any declarator in `decls` matches the expected name.
pub open spec fn any_declarator_matches(
    decls: Seq<VarDeclarator>,
    expected: Option<Seq<char>>,
) -> bool {
    exists|j: int| 0 <= j < decls.len() && declarator_matches(#[trigger] decls[j], expected)
}

/// The shape one item is a candidate for, if any:
/// - an exported variable declaration whose declarator is the expected name
///   is a `NamedDeclarationExport` candidate;
/// - a default export of an object literal, when no styles name is
///   established, is a `NamedPropertyOrDefaultExport` candidate;
/// - a local variable declaration of the expected name is a
///   `NamedPropertyOrDefaultExport` candidate;
/// - every other item is no candidate.
pub open spec fn item_shape(
    item: ModuleItem,
    expected: Option<Seq<char>>,
) -> Option<InjectedStylesDeclarationType> {
    match item {
        ModuleItem::ExportVarDecl { decls } => if any_declarator_matches(decls@, expected) {
            Some(InjectedStylesDeclarationType::NamedDeclarationExport)
        } else {
            None
        },
        ModuleItem::ExportDefaultExpr { is_object } => if is_object && expected is None {
            Some(InjectedStylesDeclarationType::NamedPropertyOrDefaultExport)
        } else {
            None
        },
        ModuleItem::VarDeclStmt { decls } => if any_declarator_matches(decls@, expected) {
            Some(InjectedStylesDeclarationType::NamedPropertyOrDefaultExport)
        } else {
            None
        },
        _ => None,
    }
}

/// The anchor the scan resolves to: the index and shape of the last
/// candidate item, if any.
pub open spec fn resolve_spec(
    items: Seq<ModuleItem>,
    expected: Option<Seq<char>>,
) -> Option<(int, InjectedStylesDeclarationType)>
    decreases items.len(),
{
    if items.len() == 0 {
        None
    } else {
        match item_shape(items.last(), expected) {
            Some(shape) => Some(((items.len() - 1) as int, shape)),
            None => resolve_spec(items.drop_last(), expected),
        }
    }
}

/// The count map after bumping one declarator: only simple-identifier
/// patterns count.
pub open spec fn bump_declarator(m: Map<Seq<char>, u64>, d: VarDeclarator) -> Map<Seq<char>, u64> {
    match d.name {
        Pat::Ident(name) => bump_name(m, name@),
        Pat::Other => m,
    }
}

/// The count map after bumping every declarator of one declaration.
pub open spec fn bump_decls(m: Map<Seq<char>, u64>, decls: Seq<VarDeclarator>) -> Map<
    Seq<char>,
    u64,
>
    decreases decls.len(),
{
    if decls.len() == 0 {
        m
    } else {
        bump_declarator(bump_decls(m, decls.drop_last()), decls.last())
    }
}

/// The count map after one item: only exported variable declarations bump.
pub open spec fn bump_item(m: Map<Seq<char>, u64>, item: ModuleItem) -> Map<Seq<char>, u64> {
    match item {
        ModuleItem::ExportVarDecl { decls } => bump_decls(m, decls@),
        _ => m,
    }
}

/// The count map after the whole scan.
pub open spec fn counts_after_scan(m: Map<Seq<char>, u64>, items: Seq<ModuleItem>) -> Map<
    Seq<char>,
    u64,
>
    decreases items.len(),
{
    if items.len() == 0 {
        m
    } else {
        bump_item(counts_after_scan(m, items.drop_last()), items.last())
    }
}

/// Law: the resolver picks the last candidate in source order — the
/// resolved index is a candidate of the resolved shape and no later item is
/// a candidate; when it resolves to nothing, no item is a candidate.
pub proof fn lemma_resolve_last_match(items: Seq<ModuleItem>, expected: Option<Seq<char>>)
    ensures
        match resolve_spec(items, expected) {
            Some((i, shape)) => 0 <= i < items.len() && item_shape(items[i], expected)
                == Some(shape) && forall|j: int|
                i < j < items.len() ==> item_shape(#[trigger] items[j], expected) is None,
            None => forall|j: int|
                0 <= j < items.len() ==> item_shape(#[trigger] items[j], expected) is None,
        },
    decreases items.len(),
{
    if items.len() > 0 {
        if item_shape(items.last(), expected) is None {
            lemma_resolve_last_match(items.drop_last(), expected);
            assert(forall|j: int|
                0 <= j < items.len() - 1 ==> items.drop_last()[j] == #[trigger] items[j]);
        }
    }
}

/// Scans `decls`, bumping the count of every simple-identifier declarator,
/// and reports whether any declarator matches the expected name.
fn scan_export_declarators(
    decls: &Vec<VarDeclarator>,
    expected: &Option<String>,
    map: &mut VarDeclCountMap,
) -> (matched: bool)
    requires
        old(map).wf(),
    ensures
        final(map).wf(),
        final(map)@ == bump_decls(old(map)@, decls@),
        matched == any_declarator_matches(decls@, opt_name(*expected)),
{
    let n = decls.len();
    let mut matched = false;
    let mut i: usize = 0;
    while i < n
        invariant
            n == decls@.len(),
            i <= n,
            map.wf(),
            map@ == bump_decls(old(map)@, decls@.take(i as int)),
            matched == any_declarator_matches(decls@.take(i as int), opt_name(*expected)),
        decreases n - i,
    {
        let ghost prefix = decls@.take(i as int);
        match &decls[i].name {
            Pat::Ident(name) => {
                increase_ident_count(map, name);
                match expected {
                    Some(e) => if name.eq(e) {
                        matched = true;
                    },
                    None => {},
                }
            },
            Pat::Other => {},
        }
        proof {
            let longer = decls@.take(i + 1);
            assert(longer.drop_last() =~= prefix);
            assert(longer.last() == decls@[i as int]);
            if declarator_matches(decls@[i as int], opt_name(*expected)) {
                assert(any_declarator_matches(longer, opt_name(*expected)));
            }
            if any_declarator_matches(longer, opt_name(*expected)) {
                let j = choose|j: int|
                    0 <= j < longer.len() && declarator_matches(longer[j], opt_name(*expected));
                if j < i {
                    assert(declarator_matches(prefix[j], opt_name(*expected)));
                }
            }
        }
        i = i + 1;
    }
    proof {
        assert(decls@.take(n as int) =~= decls@);
    }
    matched
}

/// Reports whether any declarator in `decls` matches the expected name,
/// without touching the count map.
fn any_declarator_named(decls: &Vec<VarDeclarator>, expected: &Option<String>) -> (matched: bool)
    ensures
        matched == any_declarator_matches(decls@, opt_name(*expected)),
{
    let n = decls.len();
    let mut matched = false;
    let mut i: usize = 0;
    while i < n
        invariant
            n == decls@.len(),
            i <= n,
            matched == any_declarator_matches(decls@.take(i as int), opt_name(*expected)),
        decreases n - i,
    {
        let ghost prefix = decls@.take(i as int);
        match &decls[i].name {
            Pat::Ident(name) => {
                match expected {
                    Some(e) => if name.eq(e) {
                        matched = true;
                    },
                    None => {},
                }
            },
            Pat::Other => {},
        }
        proof {
            let longer = decls@.take(i + 1);
            assert(longer.drop_last() =~= prefix);
            assert(longer.last() == decls@[i as int]);
            if declarator_matches(decls@[i as int], opt_name(*expected)) {
                assert(any_declarator_matches(longer, opt_name(*expected)));
            }
            if any_declarator_matches(longer, opt_name(*expected)) {
                let j = choose|j: int|
                    0 <= j < longer.len() && declarator_matches(longer[j], opt_name(*expected));
                if j < i {
                    assert(declarator_matches(prefix[j], opt_name(*expected)));
                }
            }
        }
        i = i + 1;
    }
    proof {
        assert(decls@.take(n as int) =~= decls@);
    }
    matched
}

/// Scans the top-level items once: resolves the injection anchor (last
/// candidate wins) and bumps the reference counts of exported declarators.
pub fn resolve(
    items: &Vec<ModuleItem>,
    props_declaration: &Option<String>,
    var_decl_count_map: &mut VarDeclCountMap,
) -> (r: Option<(usize, InjectedStylesDeclarationType)>)
    requires
        old(var_decl_count_map).wf(),
    ensures
        final(var_decl_count_map).wf(),
        final(var_decl_count_map)@ == counts_after_scan(old(var_decl_count_map)@, items@),
        match r {
            Some((i, shape)) => resolve_spec(items@, opt_name(*props_declaration)) == Some(
                (i as int, shape),
            ),
            None => resolve_spec(items@, opt_name(*props_declaration)) is None,
        },
{
    let ghost expected = opt_name(*props_declaration);
    let n = items.len();
    let mut best: Option<(usize, InjectedStylesDeclarationType)> = None;
    let mut i: usize = 0;
    while i < n
        invariant
            n == items@.len(),
            i <= n,
            var_decl_count_map.wf(),
            var_decl_count_map@ == counts_after_scan(
                old(var_decl_count_map)@,
                items@.take(i as int),
            ),
            expected == opt_name(*props_declaration),
            match best {
                Some((b, shape)) => b < i && resolve_spec(items@.take(i as int), expected) == Some(
                    (b as int, shape),
                ),
                None => resolve_spec(items@.take(i as int), expected) is None,
            },
        decreases n - i,
    {
        let ghost prefix = items@.take(i as int);
        match &items[i] {
            ModuleItem::ExportVarDecl { decls } => {
                let matched = scan_export_declarators(decls, props_declaration, var_decl_count_map);
                if matched {
                    best = Some((i, InjectedStylesDeclarationType::NamedDeclarationExport));
                }
            },
            ModuleItem::ExportDefaultExpr { is_object } => {
                if *is_object && props_declaration.is_none() {
                    best = Some((i, InjectedStylesDeclarationType::NamedPropertyOrDefaultExport));
                }
            },
            ModuleItem::VarDeclStmt { decls } => {
                let matched = any_declarator_named(decls, props_declaration);
                if matched {
                    best = Some((i, InjectedStylesDeclarationType::NamedPropertyOrDefaultExport));
                }
            },
            _ => {},
        }
        proof {
            let longer = items@.take(i + 1);
            assert(longer.drop_last() =~= prefix);
            assert(longer.last() == items@[i as int]);
        }
        i = i + 1;
    }
    proof {
        assert(items@.take(n as int) =~= items@);
    }
    best
}

} // verus!
