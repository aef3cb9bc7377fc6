use stellar_core::database::ModuleData;
use stellar_core::diagnostics::Diagnostics;
use stellar_core::hir::{Function, FunctionSignature, ImportPath, LoweredModule, Module, ModuleItem, PathAst};
use stellar_core::resolve::{resolve_absolute_path, resolve_relative_path};
use stellar_core::state::State;
use stellar_core::symbol::Symbol;
use stellar_core::typecheck::TypeCheckingContext;
use stellar_core::{IdentifierAst, Location, Visibility};

fn ident(id: u64) -> IdentifierAst {
    IdentifierAst { location: Location { filepath: 0, start: 0, end: 0 }, id }
}

fn path(ids: &[u64]) -> PathAst {
    PathAst {
        location: Location { filepath: 0, start: 0, end: 0 },
        identifiers: ids.iter().map(|&id| ident(id)).collect(),
    }
}

/// A package "a" whose root module contains a submodule also named "a":
/// the path `a.a` denotes the nested module, while `a` alone and an
/// undeclared `b` denote nothing.
#[test]
fn resolve_module() {
    let a = 1u64;
    let b = 2u64;

    let mut state = State::new();
    let root = ModuleData::allocate(state.db_mut(), a, 0);
    let child = ModuleData::allocate(state.db_mut(), a, 0);
    root.add_submodule(state.db_mut(), child);
    state.db_mut().add_package(root);

    let mut diagnostics = Diagnostics::new();

    assert!(matches!(
        resolve_absolute_path(state.db(), &path(&[a, a]), &mut diagnostics),
        Some(Symbol::Module(..))
    ));

    assert_eq!(
        resolve_absolute_path(state.db(), &path(&[a]), &mut diagnostics),
        None
    );
    assert_eq!(
        resolve_absolute_path(state.db(), &path(&[b]), &mut diagnostics),
        None
    );
}

/// `import a.b;` and `import a.b as c;` in the same module: `b` and `c`
/// both resolve, to the same symbol as resolving `a.b` from the package
/// registry; the over-long path `b.b` resolves to nothing.
#[test]
fn import() {
    let a = 1u64;
    let b = 2u64;
    let c = 3u64;

    let mut state = State::new();
    let root = ModuleData::allocate(state.db_mut(), a, 0);
    let child = ModuleData::allocate(state.db_mut(), b, 0);
    root.add_submodule(state.db_mut(), child);
    state.db_mut().add_package(root);

    let lowered = LoweredModule::new(
        root,
        Module {
            items: vec![
                ModuleItem::Import(ImportPath { path: path(&[a, b]), alias: None }),
                ModuleItem::Import(ImportPath { path: path(&[a, b]), alias: Some(ident(c)) }),
            ],
        },
    );

    let (db, diagnostics) = state.into_parts();
    let mut context = TypeCheckingContext::new(db, diagnostics, vec![lowered]);
    context.process_imports();
    assert_eq!(context.diagnostics().len(), 0);

    let (db, mut diagnostics) = context.into_parts();

    assert!(matches!(
        resolve_relative_path(&db, root, &path(&[b]), &mut diagnostics),
        Some(..)
    ));
    assert!(matches!(
        resolve_relative_path(&db, root, &path(&[c]), &mut diagnostics),
        Some(..)
    ));
    assert_eq!(
        resolve_relative_path(&db, root, &path(&[b, b]), &mut diagnostics),
        None
    );

    // Both lookups agree with absolute resolution of the imported path.
    let absolute = resolve_absolute_path(&db, &path(&[a, b]), &mut diagnostics);
    assert_eq!(absolute, Some(Symbol::Module(child)));
    assert_eq!(
        resolve_relative_path(&db, root, &path(&[b]), &mut diagnostics),
        absolute
    );
    assert_eq!(
        resolve_relative_path(&db, root, &path(&[c]), &mut diagnostics),
        absolute
    );
}

/// A failed path resolution is reported once, as `PathNotFound` at the
/// failing segment, and yields no partial result.
#[test]
fn path_not_found_reported_once() {
    let a = 1u64;
    let missing = 9u64;

    let mut state = State::new();
    let root = ModuleData::allocate(state.db_mut(), a, 0);
    state.db_mut().add_package(root);

    let mut diagnostics = Diagnostics::new();
    let r = resolve_absolute_path(state.db(), &path(&[a, missing]), &mut diagnostics);
    assert_eq!(r, None);
    assert_eq!(diagnostics.len(), 1);
    let (_, d) = diagnostics.get(0);
    assert_eq!(d.code, "E007");
    assert_eq!(d.message, "failed to resolve the path");
    assert_eq!(d.labels.len(), 1);
    assert!(d.labels[0].primary);
}

/// Declared items shadow submodules of the same name in general lookup,
/// and imports are consulted only when both fail.
#[test]
fn declared_item_shadows_submodule() {
    let a = 1u64;
    let n = 2u64;

    let mut state = State::new();
    let root = ModuleData::allocate(state.db_mut(), a, 0);
    let sub = ModuleData::allocate(state.db_mut(), n, 0);
    root.add_submodule(state.db_mut(), sub);
    state.db_mut().add_package(root);

    let lowered = LoweredModule::new(
        root,
        Module {
            items: vec![ModuleItem::Function(Function {
                signature: FunctionSignature { visibility: Visibility::Public, name: ident(n) },
            })],
        },
    );
    stellar_core::collect::CollectDefinitions::run_all(&mut state, &[lowered]);

    let mut diagnostics = Diagnostics::new();
    let r = resolve_relative_path(state.db(), root, &path(&[n]), &mut diagnostics);
    assert!(matches!(r, Some(Symbol::Function(..))));
}

/// A failed import is reported once, during import resolution, and
/// leaves the name unbound in the importing module's import table.
#[test]
fn failed_import_reported_once_and_unbound() {
    let a = 1u64;
    let ghost_name = 8u64;

    let mut state = State::new();
    let root = ModuleData::allocate(state.db_mut(), a, 0);
    state.db_mut().add_package(root);

    let lowered = LoweredModule::new(
        root,
        Module {
            items: vec![ModuleItem::Import(ImportPath {
                path: path(&[a, ghost_name]),
                alias: None,
            })],
        },
    );
    let (db, diagnostics) = state.into_parts();
    let mut context = TypeCheckingContext::new(db, diagnostics, vec![lowered]);
    context.process_imports();

    assert_eq!(context.diagnostics().len(), 1);
    assert_eq!(context.diagnostics().get(0).1.code, "E007");
    let (db, _) = context.into_parts();
    assert_eq!(db.module(root).resolved_imports.get(ghost_name), None);
}

/// Resolving one module's imports writes only that module's own import
/// table: the other module's namespaces stay untouched.
#[test]
fn imports_do_not_touch_other_modules() {
    let a = 1u64;
    let b = 2u64;

    let mut state = State::new();
    let root = ModuleData::allocate(state.db_mut(), a, 0);
    let other = ModuleData::allocate(state.db_mut(), b, 0);
    root.add_submodule(state.db_mut(), other);
    state.db_mut().add_package(root);

    let lowered = LoweredModule::new(
        root,
        Module {
            items: vec![ModuleItem::Import(ImportPath { path: path(&[a, b]), alias: None })],
        },
    );
    let (db, diagnostics) = state.into_parts();
    let mut context = TypeCheckingContext::new(db, diagnostics, vec![lowered]);
    context.process_imports();

    let (db, _) = context.into_parts();
    assert_eq!(db.module(root).resolved_imports.get(b), Some(Symbol::Module(other)));
    assert_eq!(db.module(other).resolved_imports.len(), 0);
    assert_eq!(db.module(other).module_item_symbols.len(), 0);
}

/// An empty module collects nothing and reports nothing.
#[test]
fn empty_module_collects_nothing() {
    let mut state = State::new();
    let root = ModuleData::allocate(state.db_mut(), 1, 0);
    state.db_mut().add_package(root);
    let lowered = LoweredModule::new(root, Module { items: vec![] });
    stellar_core::collect::CollectDefinitions::run_all(&mut state, &[lowered]);
    assert_eq!(state.diagnostics().len(), 0);
    assert_eq!(root.module_item_symbols(state.db()).len(), 0);
}
