use stylex_rewriter::enums::{InjectedStylesDeclarationType, ModuleCycle};
use stylex_rewriter::module_item::{CssRule, ModuleItem, Pat, VarDeclarator};
use stylex_rewriter::named_import_source::{NamedImportSource, RuntimeInjection};
use stylex_rewriter::count_map::VarDeclCountMap;
use stylex_rewriter::fold_module_items::ModuleTransformVisitor;
use stylex_rewriter::resolver::resolve;

fn ident_decl(name: &str) -> VarDeclarator {
    VarDeclarator { name: Pat::Ident(name.to_string()), init_ident: None }
}

fn export_styles(name: &str) -> ModuleItem {
    ModuleItem::ExportVarDecl { decls: vec![ident_decl(name)] }
}

fn local_styles(name: &str) -> ModuleItem {
    ModuleItem::VarDeclStmt { decls: vec![ident_decl(name)] }
}

fn rule(priority: u32, css: &str) -> CssRule {
    CssRule { priority, css: css.to_string() }
}

fn inject_styles_visitor(
    config: &RuntimeInjection,
    styles_name: Option<&str>,
    rules: Vec<CssRule>,
) -> ModuleTransformVisitor {
    let mut visitor = ModuleTransformVisitor::new(config);
    visitor.cycle = ModuleCycle::InjectStyles;
    visitor.props_declaration = styles_name.map(|s| s.to_string());
    visitor.css_output = rules;
    visitor
}

#[test]
fn scenario_export_declaration() {
    // `export const styles = stylex.create({foo:{color:'red'}})` with one
    // accumulated rule: the declaration-export shape takes no preamble; one
    // member call on the `stylex` namespace lands immediately before the
    // export statement, carrying the CSS text and the priority.
    let mut visitor = inject_styles_visitor(
        &RuntimeInjection::Boolean(true),
        Some("styles"),
        vec![rule(3000, ".c1{color:red}")],
    );
    let input = vec![export_styles("styles")];
    let output = visitor.fold_module_items(input.clone());
    assert_eq!(
        output,
        vec![
            ModuleItem::CallStmt {
                obj: Some("stylex".to_string()),
                callee: "_inject2".to_string(),
                string_arg: ".c1{color:red}".to_string(),
                number_arg: 3000,
            },
            export_styles("styles"),
        ]
    );
}

#[test]
fn scenario_no_stylex_import() {
    // A module with no style-API import anywhere: the output equals the
    // input exactly and the phase resolves to `Skip`.
    let mut visitor = ModuleTransformVisitor::new(&RuntimeInjection::Boolean(true));
    assert!(matches!(visitor.cycle, ModuleCycle::Initializing));
    let input = vec![
        ModuleItem::Import {
            local: "other".to_string(),
            imported: None,
            source: "other-lib".to_string(),
        },
        local_styles("styles"),
        ModuleItem::Other,
    ];
    let output = visitor.fold_module_items(input.clone());
    assert_eq!(output, input);
    assert!(matches!(visitor.cycle, ModuleCycle::Skip));
    // Once in `Skip`, every later pass is the identity too.
    let output = visitor.fold_module_items(input.clone());
    assert_eq!(output, input);
    assert!(matches!(visitor.cycle, ModuleCycle::Skip));
}

#[test]
fn scenario_local_declaration_with_named_export() {
    // `const styles = stylex.create({...}); export {styles}` resolves to the
    // property/default-export shape anchored at the local declaration: a
    // default import of the injector module and a local binding are
    // prepended, and the call statement invokes that binding.
    let mut visitor = inject_styles_visitor(
        &RuntimeInjection::Boolean(true),
        Some("styles"),
        vec![rule(3000, ".c1{color:red}")],
    );
    let input = vec![local_styles("styles"), ModuleItem::Other];
    let output = visitor.fold_module_items(input);
    assert_eq!(
        output,
        vec![
            ModuleItem::Import {
                local: "_inject1".to_string(),
                imported: None,
                source: "@stylexjs/stylex/lib/stylex-inject".to_string(),
            },
            ModuleItem::VarDeclStmt {
                decls: vec![VarDeclarator {
                    name: Pat::Ident("_inject2".to_string()),
                    init_ident: Some("_inject1".to_string()),
                }],
            },
            ModuleItem::CallStmt {
                obj: None,
                callee: "_inject2".to_string(),
                string_arg: ".c1{color:red}".to_string(),
                number_arg: 3000,
            },
            local_styles("styles"),
            ModuleItem::Other,
        ]
    );
}

#[test]
fn injection_calls_keep_rule_order() {
    // Three rules of mixed priorities: emission keeps insertion order and
    // never re-sorts by priority; the items before and after the anchor are
    // unchanged and in original order.
    let mut visitor = inject_styles_visitor(
        &RuntimeInjection::Boolean(true),
        Some("styles"),
        vec![rule(3000, ".a{}"), rule(200, ".b{}"), rule(9999, ".c{}")],
    );
    let input = vec![ModuleItem::Other, export_styles("styles"), ModuleItem::Other];
    let output = visitor.fold_module_items(input.clone());
    assert_eq!(output.len(), 6);
    assert_eq!(output[0], input[0]);
    for (k, expected) in [".a{}", ".b{}", ".c{}"].iter().enumerate() {
        match &output[1 + k] {
            ModuleItem::CallStmt { obj, callee, string_arg, number_arg } => {
                assert_eq!(obj.as_deref(), Some("stylex"));
                assert_eq!(callee, "_inject2");
                assert_eq!(string_arg, expected);
                assert_eq!(*number_arg, [3000, 200, 9999][k]);
            }
            other => panic!("expected a call statement, got {:?}", other),
        }
    }
    assert_eq!(output[4], input[1]);
    assert_eq!(output[5], input[2]);
}

#[test]
fn no_anchor_no_injection() {
    // Styles were computed but never exported in a recognized shape: the
    // list is returned unmodified, a normal outcome.
    let mut visitor = inject_styles_visitor(
        &RuntimeInjection::Boolean(true),
        Some("styles"),
        vec![rule(1, ".a{}")],
    );
    let input = vec![ModuleItem::Other, local_styles("unrelated")];
    let output = visitor.fold_module_items(input.clone());
    assert_eq!(output, input);
}

#[test]
fn injection_disabled_by_boolean_false() {
    let mut visitor = inject_styles_visitor(
        &RuntimeInjection::Boolean(false),
        Some("styles"),
        vec![rule(1, ".a{}")],
    );
    assert!(visitor.runtime_injection.is_none());
    let input = vec![export_styles("styles")];
    let output = visitor.fold_module_items(input.clone());
    assert_eq!(output, input);
}

#[test]
fn named_injection_config_shapes_the_import() {
    // The named-import configuration variant is honoured by the preamble.
    let config = RuntimeInjection::Named(NamedImportSource {
        as_name: "injectStyles".to_string(),
        from: "custom/inject".to_string(),
    });
    let mut visitor = inject_styles_visitor(&config, Some("styles"), vec![rule(5, ".x{}")]);
    let input = vec![local_styles("styles")];
    let output = visitor.fold_module_items(input);
    assert_eq!(
        output[0],
        ModuleItem::Import {
            local: "_inject1".to_string(),
            imported: Some("injectStyles".to_string()),
            source: "custom/inject".to_string(),
        }
    );
}

#[test]
fn regular_injection_config_sets_the_path() {
    let config = RuntimeInjection::Regular("my/own/injector".to_string());
    let mut visitor = inject_styles_visitor(&config, Some("styles"), vec![rule(5, ".x{}")]);
    let input = vec![local_styles("styles")];
    let output = visitor.fold_module_items(input);
    assert_eq!(
        output[0],
        ModuleItem::Import {
            local: "_inject1".to_string(),
            imported: None,
            source: "my/own/injector".to_string(),
        }
    );
}

#[test]
fn default_export_object_resolves_without_styles_name() {
    let mut map = VarDeclCountMap::new();
    let items = vec![ModuleItem::Other, ModuleItem::ExportDefaultExpr { is_object: true }];
    let resolved = resolve(&items, &None, &mut map);
    assert_eq!(
        resolved,
        Some((1, InjectedStylesDeclarationType::NamedPropertyOrDefaultExport))
    );
}

#[test]
fn default_export_object_ignored_once_styles_name_is_established() {
    let mut map = VarDeclCountMap::new();
    let items = vec![ModuleItem::ExportDefaultExpr { is_object: true }];
    let resolved = resolve(&items, &Some("styles".to_string()), &mut map);
    assert_eq!(resolved, None);
}

#[test]
fn default_export_non_object_never_resolves() {
    let mut map = VarDeclCountMap::new();
    let items = vec![ModuleItem::ExportDefaultExpr { is_object: false }];
    assert_eq!(resolve(&items, &None, &mut map), None);
}

#[test]
fn last_match_wins() {
    // The scan does not stop at the first candidate: with several plausible
    // styles exports, the last one in source order silently wins.
    let mut map = VarDeclCountMap::new();
    let items = vec![
        local_styles("styles"),
        ModuleItem::Other,
        export_styles("styles"),
        local_styles("styles"),
    ];
    let resolved = resolve(&items, &Some("styles".to_string()), &mut map);
    assert_eq!(
        resolved,
        Some((3, InjectedStylesDeclarationType::NamedPropertyOrDefaultExport))
    );
}

#[test]
fn export_declaration_shape_wins_when_last() {
    let mut map = VarDeclCountMap::new();
    let items = vec![local_styles("styles"), export_styles("styles")];
    let resolved = resolve(&items, &Some("styles".to_string()), &mut map);
    assert_eq!(resolved, Some((1, InjectedStylesDeclarationType::NamedDeclarationExport)));
}

#[test]
fn exported_declarators_are_reference_counted() {
    // Every simple-identifier declarator of an exported declaration is
    // bumped — including ones that do not match the styles name — while
    // local declarations and destructuring patterns are not.
    let mut visitor = inject_styles_visitor(
        &RuntimeInjection::Boolean(true),
        Some("styles"),
        vec![],
    );
    let input = vec![
        ModuleItem::ExportVarDecl {
            decls: vec![
                ident_decl("a"),
                VarDeclarator { name: Pat::Other, init_ident: None },
                ident_decl("b"),
            ],
        },
        ModuleItem::ExportVarDecl { decls: vec![ident_decl("a")] },
        local_styles("c"),
    ];
    visitor.fold_module_items(input);
    assert_eq!(visitor.var_decl_count_map.get_count(&"a".to_string()), 2);
    assert_eq!(visitor.var_decl_count_map.get_count(&"b".to_string()), 1);
    assert_eq!(visitor.var_decl_count_map.get_count(&"c".to_string()), 0);
}

#[test]
fn empty_rule_set_injects_nothing_for_declaration_export() {
    let mut visitor =
        inject_styles_visitor(&RuntimeInjection::Boolean(true), Some("styles"), vec![]);
    let input = vec![export_styles("styles")];
    let output = visitor.fold_module_items(input.clone());
    assert_eq!(output, input);
}

#[test]
fn empty_rule_set_still_adds_preamble_for_property_export() {
    let mut visitor =
        inject_styles_visitor(&RuntimeInjection::Boolean(true), Some("styles"), vec![]);
    let input = vec![local_styles("styles")];
    let output = visitor.fold_module_items(input.clone());
    assert_eq!(output.len(), 3);
    assert!(matches!(output[0], ModuleItem::Import { .. }));
    assert!(matches!(output[1], ModuleItem::VarDeclStmt { .. }));
    assert_eq!(output[2], input[0]);
}

#[test]
fn transparent_phases_hand_the_list_through() {
    for cycle in [ModuleCycle::Processing, ModuleCycle::InjectClassName] {
        let mut visitor = ModuleTransformVisitor::new(&RuntimeInjection::Boolean(true));
        visitor.cycle = cycle;
        let input = vec![export_styles("styles"), ModuleItem::EmptyStmt];
        let output = visitor.fold_module_items(input.clone());
        assert_eq!(output, input);
    }
}

#[test]
fn initializing_keeps_going_when_import_was_seen() {
    let mut visitor = ModuleTransformVisitor::new(&RuntimeInjection::Boolean(true));
    visitor.stylex_create_import.push("stylex".to_string());
    let input = vec![ModuleItem::Other];
    let output = visitor.fold_module_items(input.clone());
    assert_eq!(output, input);
    assert!(matches!(visitor.cycle, ModuleCycle::Initializing));
}

#[test]
fn cleaning_removes_empty_placeholders() {
    let mut visitor = ModuleTransformVisitor::new(&RuntimeInjection::Boolean(true));
    visitor.cycle = ModuleCycle::Cleaning;
    let input = vec![
        ModuleItem::EmptyStmt,
        ModuleItem::Other,
        ModuleItem::EmptyStmt,
        export_styles("styles"),
        ModuleItem::EmptyStmt,
    ];
    let output = visitor.fold_module_items(input);
    assert_eq!(output, vec![ModuleItem::Other, export_styles("styles")]);
}

#[test]
fn cleaning_is_noop_without_placeholders() {
    // The cleaning phase on an item list already free of empty-statement
    // placeholders changes nothing.
    let mut visitor = ModuleTransformVisitor::new(&RuntimeInjection::Boolean(true));
    visitor.cycle = ModuleCycle::Cleaning;
    let input = vec![ModuleItem::Other, export_styles("styles"), local_styles("x")];
    let output = visitor.fold_module_items(input.clone());
    assert_eq!(output, input);
}

#[test]
fn reentering_inject_styles_does_not_duplicate_calls() {
    // The injection pass runs at most once per module: re-entering a
    // completed pass on its own output is the identity, so neither the
    // anchor nor the injected calls are ever duplicated.
    let mut visitor = inject_styles_visitor(
        &RuntimeInjection::Boolean(true),
        Some("styles"),
        vec![rule(3000, ".c1{color:red}")],
    );
    let input = vec![export_styles("styles")];
    let once = visitor.fold_module_items(input);
    assert_eq!(once.len(), 2);
    let twice = visitor.fold_module_items(once.clone());
    assert_eq!(twice, once);
    // The reference counts are not re-bumped on re-entry either.
    assert_eq!(visitor.var_decl_count_map.get_count(&"styles".to_string()), 1);
}

#[test]
fn reentering_inject_styles_keeps_preamble_single() {
    let mut visitor = inject_styles_visitor(
        &RuntimeInjection::Boolean(true),
        Some("styles"),
        vec![rule(5, ".x{}")],
    );
    let input = vec![local_styles("styles")];
    let once = visitor.fold_module_items(input);
    assert_eq!(once.len(), 4);
    let twice = visitor.fold_module_items(once.clone());
    assert_eq!(twice, once);
    let imports = twice
        .iter()
        .filter(|item| matches!(item, ModuleItem::Import { .. }))
        .count();
    assert_eq!(imports, 1);
}

#[test]
fn cleaning_twice_equals_cleaning_once() {
    let mut visitor = ModuleTransformVisitor::new(&RuntimeInjection::Boolean(true));
    visitor.cycle = ModuleCycle::Cleaning;
    let input = vec![ModuleItem::EmptyStmt, ModuleItem::Other, ModuleItem::EmptyStmt];
    let once = visitor.fold_module_items(input);
    let twice = visitor.fold_module_items(once.clone());
    assert_eq!(twice, once);
}

#[test]
fn anchor_at_first_item_keeps_following_items() {
    let mut visitor = inject_styles_visitor(
        &RuntimeInjection::Boolean(true),
        Some("styles"),
        vec![rule(1, ".a{}")],
    );
    let input = vec![export_styles("styles"), ModuleItem::Other, ModuleItem::Other];
    let output = visitor.fold_module_items(input.clone());
    assert_eq!(output.len(), 4);
    assert!(matches!(output[0], ModuleItem::CallStmt { .. }));
    assert_eq!(&output[1..], &input[..]);
}
