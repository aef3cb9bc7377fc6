use stellar_core::database::{
    EnumData, GenericParameterData, GenericParameterScopeData, ModuleData, TypeAliasData,
};
use stellar_core::diagnostics::Diagnostics;
use stellar_core::hir::{
    Function, FunctionSignature, Interface, LoweredModule, Module, ModuleItem, PathAst,
    TypeConstructorExpression, TypeExpression,
};
use stellar_core::state::State;
use stellar_core::symbol::{GenericParameterID, ModuleID, Symbol};
use stellar_core::ty::{type_clone, type_eq, Type, TypeConstructor, TypePath};
use stellar_core::typecheck::TypeCheckingContext;
use stellar_core::{IdentifierAst, Location, Visibility};

fn ident(id: u64) -> IdentifierAst {
    IdentifierAst { location: Location { filepath: 0, start: 0, end: 0 }, id }
}

fn path(ids: &[u64]) -> PathAst {
    PathAst {
        location: Location { filepath: 0, start: 0, end: 0 },
        identifiers: ids.iter().map(|&id| ident(id)).collect(),
    }
}

fn bare_constructor(id: u64) -> TypeExpression {
    TypeExpression::Constructor(TypeConstructorExpression {
        location: Location { filepath: 0, start: 0, end: 0 },
        path: path(&[id]),
        arguments: vec![],
    })
}

/// Scope-chain shadowing: a parameter declared in both the root scope
/// and an inner scope resolves, from the leaf, to the inner scope's
/// parameter, not the root's.
#[test]
fn scope_chain_shadowing() {
    let t = 5u64;

    let mut state = State::new();
    let db = state.db_mut();
    let p_root = db.add_generic_parameter(GenericParameterData {
        location: Location { filepath: 0, start: 0, end: 0 },
        default_value: None,
    });
    let p_mid = db.add_generic_parameter(GenericParameterData {
        location: Location { filepath: 0, start: 1, end: 2 },
        default_value: None,
    });

    let s0 = db.add_generic_parameter_scope(GenericParameterScopeData::new(None));
    let s1 = db.add_generic_parameter_scope(GenericParameterScopeData::new(Some(s0)));
    let s2 = db.add_generic_parameter_scope(GenericParameterScopeData::new(Some(s1)));

    s0.add_generic_parameter(db, t, p_root);
    s1.add_generic_parameter(db, t, p_mid);

    // From the leaf, the inner declaration wins over the root's.
    assert_eq!(s2.resolve(state.db(), t), Some(p_mid));
    assert_ne!(s2.resolve(state.db(), t), Some(p_root));
    // From the root itself, its own declaration is found.
    assert_eq!(s0.resolve(state.db(), t), Some(p_root));
    // An undeclared name is found nowhere along the chain.
    assert_eq!(s2.resolve(state.db(), 99), None);
    assert!(s2.contains(state.db(), t));
    assert!(!s2.contains(state.db(), 99));
}

/// A child scope only ever adds to its own map; the parent link and the
/// parent's parameters stay as they were.
#[test]
fn scope_adds_locally_only() {
    let mut state = State::new();
    let db = state.db_mut();
    let p = db.add_generic_parameter(GenericParameterData {
        location: Location { filepath: 0, start: 0, end: 0 },
        default_value: None,
    });
    let s0 = db.add_generic_parameter_scope(GenericParameterScopeData::new(None));
    let s1 = db.add_generic_parameter_scope(GenericParameterScopeData::new(Some(s0)));
    s1.add_generic_parameter(db, 4, p);
    assert_eq!(s1.parent_scope(db), Some(s0));
    assert_eq!(s0.parameters(db).len(), 0);
    assert_eq!(s1.parameters(db).len(), 1);
    assert_eq!(s0.resolve(db, 4), None);
}

/// Generic precedence over path: a bare name that is both a generic
/// parameter in scope and a module item resolves to the
/// generic-parameter type, never to the module item.
#[test]
fn generic_precedence_over_path() {
    let a = 1u64;
    let t = 2u64;

    let mut state = State::new();
    let root = ModuleData::allocate(state.db_mut(), a, 0);
    state.db_mut().add_package(root);

    // A module item of the same name, deliberately one that is not a
    // type, so that falling through to path resolution would fail.
    let lowered = LoweredModule::new(
        root,
        Module {
            items: vec![ModuleItem::Function(Function {
                signature: FunctionSignature { visibility: Visibility::Public, name: ident(t) },
            })],
        },
    );
    stellar_core::collect::CollectDefinitions::run_all(&mut state, &[lowered]);

    let db = state.db_mut();
    let p = db.add_generic_parameter(GenericParameterData {
        location: Location { filepath: 0, start: 0, end: 0 },
        default_value: None,
    });
    let scope = db.add_generic_parameter_scope(GenericParameterScopeData::new(None));
    scope.add_generic_parameter(db, t, p);

    let (db, diagnostics) = state.into_parts();
    let mut context = TypeCheckingContext::new(db, diagnostics, vec![]);

    // In scope: the generic parameter wins; no diagnostic is recorded.
    let r = context.resolve_type(&bare_constructor(t), Some(scope), root);
    match r {
        Some(Type::Constructor(c)) => {
            assert_eq!(c.path.identifiers, vec![t]);
            assert!(c.arguments.is_empty());
        }
        other => panic!("expected a generic-parameter reference, got {:?}", other),
    }
    assert_eq!(context.diagnostics().len(), 0);

    // Without the scope, the same name falls through to the module item,
    // which is a function: an expected-type error.
    let r = context.resolve_type(&bare_constructor(t), None, root);
    assert_eq!(r.map(|_| ()), None);
    assert_eq!(context.diagnostics().len(), 1);
    let (_, d) = context.diagnostics().get(0);
    assert_eq!(d.code, "E008");
    assert_eq!(d.message, "expected a type");
    assert_eq!(d.labels[0].message, "found a function");
}

/// Interface-object bound filtering: of three bound paths where exactly
/// one names a real interface, the resolved interface object keeps a
/// bound list of length one; when zero bounds resolve, the whole type
/// resolution yields nothing rather than an empty bound list.
#[test]
fn interface_object_bound_filtering() {
    let a = 1u64;
    let iface = 2u64;
    let strukt = 3u64;
    let missing = 4u64;

    let mut state = State::new();
    let root = ModuleData::allocate(state.db_mut(), a, 0);
    state.db_mut().add_package(root);

    let lowered = LoweredModule::new(
        root,
        Module {
            items: vec![
                ModuleItem::Interface(Interface {
                    visibility: Visibility::Public,
                    name: ident(iface),
                }),
                ModuleItem::Function(Function {
                    signature: FunctionSignature {
                        visibility: Visibility::Public,
                        name: ident(strukt),
                    },
                }),
            ],
        },
    );
    stellar_core::collect::CollectDefinitions::run_all(&mut state, &[lowered]);

    let (db, diagnostics) = state.into_parts();
    let mut context = TypeCheckingContext::new(db, diagnostics, vec![]);

    let bound = |id: u64| TypeConstructorExpression {
        location: Location { filepath: 0, start: 0, end: 0 },
        path: path(&[id]),
        arguments: vec![],
    };

    let ty = TypeExpression::InterfaceObject {
        location: Location { filepath: 0, start: 0, end: 0 },
        bounds: vec![bound(iface), bound(strukt), bound(missing)],
    };
    let r = context.resolve_type(&ty, None, root);
    match r {
        Some(Type::InterfaceObject { bounds }) => {
            assert_eq!(bounds.len(), 1);
            assert_eq!(bounds[0].path.identifiers, vec![iface]);
        }
        other => panic!("expected an interface object, got {:?}", other),
    }
    // One bound was not an interface, one did not resolve: two reports.
    assert_eq!(context.diagnostics().len(), 2);

    // Zero resolving bounds: the whole resolution yields nothing.
    let ty = TypeExpression::InterfaceObject {
        location: Location { filepath: 0, start: 0, end: 0 },
        bounds: vec![bound(strukt), bound(missing)],
    };
    let r = context.resolve_type(&ty, None, root);
    assert!(r.is_none());
}

/// Idempotent resolution: resolving the same type alias's underlying
/// type twice returns the identical cached semantic type both times,
/// with only one resolution actually performed.
#[test]
fn idempotent_alias_resolution() {
    let a = 1u64;
    let alias_name = 2u64;
    let target = 3u64;

    let mut state = State::new();
    let root = ModuleData::allocate(state.db_mut(), a, 0);
    state.db_mut().add_package(root);

    let lowered = LoweredModule::new(
        root,
        Module {
            items: vec![ModuleItem::Interface(Interface {
                visibility: Visibility::Public,
                name: ident(target),
            })],
        },
    );
    stellar_core::collect::CollectDefinitions::run_all(&mut state, &[lowered]);

    let alias = TypeAliasData::allocate(
        state.db_mut(),
        Visibility::Public,
        ident(alias_name),
        root,
    );

    let (db, diagnostics) = state.into_parts();
    let mut context = TypeCheckingContext::new(db, diagnostics, vec![]);
    assert_eq!(context.type_alias_resolutions(), 0);

    let value = bare_constructor(target);
    let first = context.resolve_type_alias(alias, &value).expect("first resolution");
    assert_eq!(context.type_alias_resolutions(), 1);

    let second = context.resolve_type_alias(alias, &value).expect("second resolution");
    assert_eq!(context.type_alias_resolutions(), 1);
    assert!(type_eq(&first, &second));
    assert_eq!(context.diagnostics().len(), 0);
}

/// The implements query: a nominal constructor type implements exactly
/// the entries of its enum's declared implements list, compared
/// structurally; non-constructor types implement nothing.
#[test]
fn implements_query() {
    let a = 1u64;
    let e = 2u64;
    let iface = 3u64;

    let mut state = State::new();
    let root = ModuleData::allocate(state.db_mut(), a, 0);
    state.db_mut().add_package(root);

    let target = TypeConstructor { path: TypePath { identifiers: vec![iface] }, arguments: vec![] };
    let other = TypeConstructor { path: TypePath { identifiers: vec![99] }, arguments: vec![] };

    let mut enum_data = EnumData::new(Visibility::Public, ident(e), root);
    enum_data.implements.push(TypeConstructor {
        path: TypePath { identifiers: vec![iface] },
        arguments: vec![],
    });
    let enum_id = state.db_mut().add_enum_module_item(enum_data);
    root.add_module_item(state.db_mut(), e, Symbol::Enum(enum_id));

    let (db, diagnostics) = state.into_parts();
    let context = TypeCheckingContext::new(db, diagnostics, vec![]);

    let nominal = Type::Constructor(TypeConstructor {
        path: TypePath { identifiers: vec![e] },
        arguments: vec![],
    });
    assert!(context.implements(&nominal, &target, root));
    assert!(!context.implements(&nominal, &other, root));

    // Non-constructor types never implement anything in this model.
    let tuple = Type::Tuple { element_types: vec![] };
    assert!(!context.implements(&tuple, &target, root));
    assert!(!context.implements(&Type::Unknown, &target, root));
}

/// Structural type equality and cloning agree: a clone is equal, and
/// structurally different types are unequal.
#[test]
fn type_equality_and_clone() {
    let c = |ids: Vec<u64>, args: Vec<Type>| {
        Type::Constructor(TypeConstructor { path: TypePath { identifiers: ids }, arguments: args })
    };
    let t1 = Type::Function {
        parameter_types: vec![c(vec![1], vec![]), Type::Tuple { element_types: vec![] }],
        return_type: Box::new(c(vec![2], vec![c(vec![3], vec![])])),
    };
    let t2 = type_clone(&t1);
    assert!(type_eq(&t1, &t2));

    let t3 = Type::Function {
        parameter_types: vec![c(vec![1], vec![]), Type::Tuple { element_types: vec![] }],
        return_type: Box::new(c(vec![2], vec![c(vec![4], vec![])])),
    };
    assert!(!type_eq(&t1, &t3));
    assert!(!type_eq(&t1, &Type::Unknown));
    assert!(type_eq(&Type::Unknown, &Type::Unknown));
}

/// Tuple and function types resolve elementwise and fail as a whole on
/// the first failing element.
#[test]
fn tuple_resolution_short_circuits() {
    let a = 1u64;
    let iface = 2u64;
    let missing = 9u64;

    let mut state = State::new();
    let root = ModuleData::allocate(state.db_mut(), a, 0);
    state.db_mut().add_package(root);
    let lowered = LoweredModule::new(
        root,
        Module {
            items: vec![ModuleItem::Interface(Interface {
                visibility: Visibility::Public,
                name: ident(iface),
            })],
        },
    );
    stellar_core::collect::CollectDefinitions::run_all(&mut state, &[lowered]);

    let (db, diagnostics) = state.into_parts();
    let mut context = TypeCheckingContext::new(db, diagnostics, vec![]);

    let ty = TypeExpression::Tuple {
        location: Location { filepath: 0, start: 0, end: 0 },
        element_types: vec![bare_constructor(iface), bare_constructor(iface)],
    };
    let r = context.resolve_type(&ty, None, root);
    match r {
        Some(Type::Tuple { element_types }) => assert_eq!(element_types.len(), 2),
        other => panic!("expected a tuple type, got {:?}", other),
    }
    assert_eq!(context.diagnostics().len(), 0);

    // First element fails: the whole tuple fails, with one report, and
    // the second element is never resolved.
    let ty = TypeExpression::Tuple {
        location: Location { filepath: 0, start: 0, end: 0 },
        element_types: vec![bare_constructor(missing), bare_constructor(missing)],
    };
    assert!(context.resolve_type(&ty, None, root).is_none());
    assert_eq!(context.diagnostics().len(), 1);
}

/// Module IDs index the module arena densely.
#[test]
fn module_tree_accessors() {
    let mut state = State::new();
    let root = ModuleData::allocate(state.db_mut(), 1, 11);
    let sub = ModuleData::allocate(state.db_mut(), 2, 12);
    root.add_submodule(state.db_mut(), sub);

    assert_eq!(root, ModuleID(0));
    assert_eq!(root.name(state.db()), 1);
    assert_eq!(root.filepath(state.db()), 11);
    assert_eq!(root.submodule(state.db(), 2), Some(sub));
    assert_eq!(root.submodule(state.db(), 3), None);
    assert!(root.contains_submodule_with_name(state.db(), 2));
    assert!(root.contains_submodule_with_id(state.db(), sub));
    assert!(!root.contains_submodule_with_id(state.db(), ModuleID(5)));
    assert!(!sub.contains_submodule_with_id(state.db(), root));
    assert_eq!(
        root.symbol(state.db(), 2),
        Some(Symbol::Module(sub))
    );
}

/// A function type resolves its parameter types and then its return
/// type, and fails as a whole when the return type fails.
#[test]
fn function_type_resolution() {
    let a = 1u64;
    let iface = 2u64;
    let missing = 9u64;

    let mut state = State::new();
    let root = ModuleData::allocate(state.db_mut(), a, 0);
    state.db_mut().add_package(root);
    let lowered = LoweredModule::new(
        root,
        Module {
            items: vec![ModuleItem::Interface(Interface {
                visibility: Visibility::Public,
                name: ident(iface),
            })],
        },
    );
    stellar_core::collect::CollectDefinitions::run_all(&mut state, &[lowered]);
    let (db, diagnostics) = state.into_parts();
    let mut context = TypeCheckingContext::new(db, diagnostics, vec![]);

    let ty = TypeExpression::Function {
        location: Location { filepath: 0, start: 0, end: 0 },
        parameter_types: vec![bare_constructor(iface)],
        return_type: Box::new(bare_constructor(iface)),
    };
    match context.resolve_type(&ty, None, root) {
        Some(Type::Function { parameter_types, return_type }) => {
            assert_eq!(parameter_types.len(), 1);
            assert!(matches!(*return_type, Type::Constructor(..)));
        }
        other => panic!("expected a function type, got {:?}", other),
    }
    assert_eq!(context.diagnostics().len(), 0);

    let ty = TypeExpression::Function {
        location: Location { filepath: 0, start: 0, end: 0 },
        parameter_types: vec![bare_constructor(iface)],
        return_type: Box::new(bare_constructor(missing)),
    };
    assert!(context.resolve_type(&ty, None, root).is_none());
    assert_eq!(context.diagnostics().len(), 1);
}

/// A constructor whose path names a type-level item resolves with its
/// arguments resolved recursively, keeping the written path.
#[test]
fn constructor_with_arguments() {
    let a = 1u64;
    let iface = 2u64;
    let strukt = 3u64;

    let mut state = State::new();
    let root = ModuleData::allocate(state.db_mut(), a, 0);
    state.db_mut().add_package(root);
    let lowered = LoweredModule::new(
        root,
        Module {
            items: vec![
                ModuleItem::Interface(Interface {
                    visibility: Visibility::Public,
                    name: ident(iface),
                }),
                ModuleItem::Struct(stellar_core::hir::Struct {
                    visibility: Visibility::Public,
                    name: ident(strukt),
                }),
            ],
        },
    );
    stellar_core::collect::CollectDefinitions::run_all(&mut state, &[lowered]);
    let (db, diagnostics) = state.into_parts();
    let mut context = TypeCheckingContext::new(db, diagnostics, vec![]);

    let ty = TypeExpression::Constructor(TypeConstructorExpression {
        location: Location { filepath: 0, start: 0, end: 0 },
        path: path(&[strukt]),
        arguments: vec![bare_constructor(iface)],
    });
    match context.resolve_type(&ty, None, root) {
        Some(Type::Constructor(c)) => {
            assert_eq!(c.path.identifiers, vec![strukt]);
            assert_eq!(c.arguments.len(), 1);
        }
        other => panic!("expected a constructor, got {:?}", other),
    }
}
