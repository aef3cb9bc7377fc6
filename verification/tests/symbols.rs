use stellar_core::database::{FunctionData, ModuleData};
use stellar_core::name_map::NameMap;
use stellar_core::state::{Config, State};
use stellar_core::symbol::{
    EnumID, EnumItemID, FunctionID, InterfaceID, ModuleID, StructID, Symbol, SymbolKind,
    TupleLikeStructID, TypeAliasID,
};
use stellar_core::{IdentifierAst, Location, Visibility};

#[test]
fn symbol_kind_predicates() {
    let s = Symbol::Enum(EnumID(3));
    assert!(s.is_enum());
    assert!(!s.is_module());
    assert_eq!(s.to_enum(), Some(EnumID(3)));
    assert_eq!(s.to_struct(), None);
    assert_eq!(s.to_enum_or_panic(), EnumID(3));
    assert_eq!(s.kind(), SymbolKind::Enum);

    assert!(Symbol::Module(ModuleID(0)).is_module());
    assert!(Symbol::Struct(StructID(0)).is_struct());
    assert!(Symbol::Function(FunctionID(0)).is_function());
    assert!(Symbol::Interface(InterfaceID(0)).is_interface());
    assert!(Symbol::TupleLikeStruct(TupleLikeStructID(0)).is_tuple_like_struct());
    assert!(Symbol::TypeAlias(TypeAliasID(0)).is_type_alias());
    assert!(Symbol::EnumItem(EnumItemID(0)).is_enum_item());

    // Type-level items are exactly those that can stand as a type.
    assert!(Symbol::Enum(EnumID(0)).is_type_item());
    assert!(Symbol::TypeAlias(TypeAliasID(0)).is_type_item());
    assert!(!Symbol::Function(FunctionID(0)).is_type_item());
    assert!(!Symbol::Module(ModuleID(0)).is_type_item());
    assert!(!Symbol::EnumItem(EnumItemID(0)).is_type_item());
}

#[test]
fn name_map_insert_get_overwrite() {
    let mut m: NameMap<u64> = NameMap::new();
    assert_eq!(m.get(1), None);
    assert!(!m.contains_key(1));
    m.insert(1, 10);
    m.insert(2, 20);
    assert_eq!(m.get(1), Some(10));
    assert_eq!(m.get(2), Some(20));
    assert_eq!(m.len(), 2);
    // Overwrite keeps the key count and replaces the value.
    m.insert(1, 11);
    assert_eq!(m.get(1), Some(11));
    assert_eq!(m.len(), 2);
    let entries = m.entries_vec();
    assert_eq!(entries.len(), 2);
}

#[test]
fn symbol_name_of_each_kind() {
    let mut state = State::new();
    let m = ModuleData::allocate(state.db_mut(), 42, 0);
    let name = IdentifierAst { location: Location { filepath: 1, start: 2, end: 3 }, id: 9 };
    let f = FunctionData::allocate(state.db_mut(), name, Visibility::Public, m);

    // A function's symbol carries its declared name and location.
    assert_eq!(Symbol::Function(f).name(state.db()), name);
    // A module has no single declaration site: its name carries the
    // placeholder location.
    let module_name = Symbol::Module(m).name(state.db());
    assert_eq!(module_name.id, 42);
    assert_eq!(module_name.location, Location { filepath: 0, start: 0, end: 0 });
}

#[test]
fn state_round_trip() {
    let state = State::new().with_config(Config::new());
    assert!(state.diagnostics().is_ok());
    let (db, diagnostics) = state.into_parts();
    assert_eq!(diagnostics.len(), 0);
    assert_eq!(db.package_root_module(0), None);

    let mut state = State::new();
    let m = ModuleData::allocate(state.db_mut(), 1, 0);
    state.db_mut().add_package(m);
    let db = state.into_db();
    assert_eq!(db.package_root_module_or_panic(1), m);
}

#[test]
fn module_symbol_or_panic() {
    let mut state = State::new();
    let root = ModuleData::allocate(state.db_mut(), 1, 0);
    let sub = ModuleData::allocate(state.db_mut(), 2, 0);
    root.add_submodule(state.db_mut(), sub);
    let name = IdentifierAst { location: Location { filepath: 0, start: 0, end: 0 }, id: 3 };
    let f = FunctionData::allocate(state.db_mut(), name, Visibility::Public, root);
    root.add_module_item(state.db_mut(), 3, Symbol::Function(f));

    assert_eq!(root.symbol_or_panic(state.db(), 2), Symbol::Module(sub));
    assert_eq!(root.symbol_or_panic(state.db(), 3), Symbol::Function(f));
    assert_eq!(root.module_item_symbol_or_panic(state.db(), 3), Symbol::Function(f));
    assert!(root.contains_module_item_symbol(state.db(), 3));
    assert!(!root.contains_module_item_symbol(state.db(), 2));
}

#[test]
fn resolved_imports_are_a_separate_namespace() {
    let mut state = State::new();
    let root = ModuleData::allocate(state.db_mut(), 1, 0);
    let other = ModuleData::allocate(state.db_mut(), 2, 0);
    root.add_resolved_import(state.db_mut(), 5, Symbol::Module(other));

    // `symbol` consults declared items and submodules only.
    assert_eq!(root.symbol(state.db(), 5), None);
    // The import table holds the binding.
    assert_eq!(root.resolved_imports(state.db()).get(5), Some(Symbol::Module(other)));
}
