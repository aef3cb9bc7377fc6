use stellar_core::collect::CollectDefinitions;
use stellar_core::database::{FunctionData, ModuleData};
use stellar_core::hir::{
    Enum, EnumItem, Function, FunctionSignature, Interface, LoweredModule, Module, ModuleItem,
    Struct, TupleLikeStruct,
};
use stellar_core::state::State;
use stellar_core::symbol::{FunctionID, ModuleID, Symbol};
use stellar_core::{IdentifierAst, Location, Visibility};

fn ident_at(id: u64, start: usize) -> IdentifierAst {
    IdentifierAst { location: Location { filepath: 7, start, end: start + 1 }, id }
}

/// Uniqueness under duplication: two items of the same name in one
/// module leave the name bound to exactly one of the two entities — the
/// later one — and exactly one `ItemDefinedMultipleTimes` diagnostic is
/// recorded, citing both source locations.
#[test]
fn duplicate_definition_reported_once() {
    let a = 1u64;
    let n = 2u64;

    let mut state = State::new();
    let root = ModuleData::allocate(state.db_mut(), a, 0);
    state.db_mut().add_package(root);

    let first = ident_at(n, 10);
    let second = ident_at(n, 20);
    let lowered = LoweredModule::new(
        root,
        Module {
            items: vec![
                ModuleItem::Function(Function {
                    signature: FunctionSignature { visibility: Visibility::Public, name: first },
                }),
                ModuleItem::Function(Function {
                    signature: FunctionSignature { visibility: Visibility::Private, name: second },
                }),
            ],
        },
    );
    CollectDefinitions::run_all(&mut state, &[lowered]);

    // The name resolves to exactly one of the two entities: the second.
    assert_eq!(
        root.module_item_symbol(state.db(), n),
        Some(Symbol::Function(FunctionID(1)))
    );

    // Exactly one diagnostic, citing both definition sites.
    assert_eq!(state.diagnostics().len(), 1);
    let (file, d) = state.diagnostics().get(0);
    assert_eq!(*file, 7);
    assert_eq!(d.code, "E005");
    assert_eq!(d.message, "the name is defined multiple times in the module");
    assert_eq!(d.labels.len(), 2);
    assert!(d.labels[0].primary);
    assert_eq!(d.labels[0].location, second.location);
    assert!(!d.labels[1].primary);
    assert_eq!(d.labels[1].location, first.location);
}

/// Enum items are duplicate-checked against the enum's own item map,
/// before the enum itself is checked against the module.
#[test]
fn duplicate_enum_item_reported() {
    let a = 1u64;
    let e = 2u64;
    let item = 3u64;

    let mut state = State::new();
    let root = ModuleData::allocate(state.db_mut(), a, 0);
    state.db_mut().add_package(root);

    let first = ident_at(item, 5);
    let second = ident_at(item, 15);
    let lowered = LoweredModule::new(
        root,
        Module {
            items: vec![ModuleItem::Enum(Enum {
                visibility: Visibility::Public,
                name: ident_at(e, 0),
                items: vec![EnumItem { name: first }, EnumItem { name: second }],
            })],
        },
    );
    CollectDefinitions::run_all(&mut state, &[lowered]);

    assert_eq!(state.diagnostics().len(), 1);
    let (_, d) = state.diagnostics().get(0);
    assert_eq!(d.code, "E006");
    assert_eq!(d.labels.len(), 2);
    assert!(d.labels[0].primary);
    assert_eq!(d.labels[0].location, second.location);
    assert_eq!(d.labels[1].location, first.location);

    // The enum itself was bound, and holds exactly one item name.
    let symbol = root.module_item_symbol(state.db(), e).unwrap();
    let enum_id = symbol.to_enum().unwrap();
    assert!(enum_id.contains_item(state.db(), item));
    assert_eq!(enum_id.items(state.db()).len(), 1);
}

/// Each item kind is allocated in its own arena and bound under its
/// name; distinct names produce no diagnostics.
#[test]
fn collects_every_item_kind() {
    let a = 1u64;

    let mut state = State::new();
    let root = ModuleData::allocate(state.db_mut(), a, 0);
    state.db_mut().add_package(root);

    let lowered = LoweredModule::new(
        root,
        Module {
            items: vec![
                ModuleItem::Struct(Struct { visibility: Visibility::Public, name: ident_at(2, 0) }),
                ModuleItem::Interface(Interface {
                    visibility: Visibility::Public,
                    name: ident_at(3, 1),
                }),
                ModuleItem::TupleLikeStruct(TupleLikeStruct {
                    visibility: Visibility::Private,
                    name: ident_at(4, 2),
                }),
                ModuleItem::Function(Function {
                    signature: FunctionSignature {
                        visibility: Visibility::Public,
                        name: ident_at(5, 3),
                    },
                }),
            ],
        },
    );
    CollectDefinitions::run_all(&mut state, &[lowered]);

    assert_eq!(state.diagnostics().len(), 0);
    assert!(matches!(
        root.module_item_symbol(state.db(), 2),
        Some(Symbol::Struct(..))
    ));
    assert!(matches!(
        root.module_item_symbol(state.db(), 3),
        Some(Symbol::Interface(..))
    ));
    assert!(matches!(
        root.module_item_symbol(state.db(), 4),
        Some(Symbol::TupleLikeStruct(..))
    ));
    assert!(matches!(
        root.module_item_symbol(state.db(), 5),
        Some(Symbol::Function(..))
    ));
    assert_eq!(root.module_item_symbol(state.db(), 6), None);
}

/// The database allocates handles equal to the arena's previous length,
/// and `contains` is a plain bounds check.
#[test]
fn handles_are_dense_and_stable() {
    let mut state = State::new();
    let m = ModuleData::allocate(state.db_mut(), 1, 0);
    assert_eq!(m, ModuleID(0));

    let f0 = FunctionData::allocate(state.db_mut(), ident_at(5, 0), Visibility::Public, m);
    let f1 = FunctionData::allocate(state.db_mut(), ident_at(6, 1), Visibility::Public, m);
    assert_eq!(f0, FunctionID(0));
    assert_eq!(f1, FunctionID(1));
    assert!(state.db().contains_function(f0));
    assert!(state.db().contains_function(f1));
    assert!(!state.db().contains_function(FunctionID(2)));
    assert_eq!(f0.name(state.db()).id, 5);
    assert_eq!(f1.name(state.db()).id, 6);
}

/// A later package registration under the same name overwrites the
/// earlier one: last registration wins, with no diagnostic.
#[test]
fn add_package_overwrites() {
    let mut state = State::new();
    let first = ModuleData::allocate(state.db_mut(), 1, 0);
    let second = ModuleData::allocate(state.db_mut(), 1, 1);
    state.db_mut().add_package(first);
    state.db_mut().add_package(second);
    assert_eq!(state.db().package_root_module(1), Some(second));
    assert!(state.db().contains_package(1));
    assert!(!state.db().contains_package(2));
    assert_eq!(state.diagnostics().len(), 0);
}
