//! The definition collector: walks every lowered module once, allocates
//! an entity for each declaration, binds it in the owning module's item
//! map, and reports duplicate definitions. Imports are not processed
//! here; they are deferred until every module of the unit has been
//! collected, because an import may reference a symbol of a module not
//! yet collected.
//!
//! A duplicate definition is reported — citing both definition sites —
//! and the new binding is installed regardless: later bindings overwrite
//! earlier ones in the module's item map.

use vstd::prelude::*;

use crate::database::{
    enum_data_wf, module_data_wf, valid_symbol, DatabaseView, EnumData, EnumDataView, EnumItemData, FunctionData,
    InterfaceData, InterfaceDataView, ModuleDataView, StructData, StructDataView,
    TupleLikeStructData, TupleLikeStructDataView, TypeAliasData, TypeAliasDataView,
    symbol_name_spec,
};
use crate::diagnostics::{
    enum_item_defined_multiple_times_diag_spec, item_defined_multiple_times_diag_spec,
    DiagnosticView, EnumItemDefinedMultipleTimes, ItemDefinedMultipleTimes,
};
use crate::hir::{
    lowered_views, LoweredModule, Module, ModuleHirView, ModuleItem, ModuleItemView,
};
use crate::state::State;
use crate::symbol::{
    EnumID, EnumItemID, FunctionID, InterfaceID, ModuleID, PredicateID, StructID, Symbol,
    TupleLikeStructID, TypeAliasID,
};
use crate::ty::TypeConstructorView;
use crate::{IdentifierAst, Visibility};

verus! {

impl DatabaseView {
    /// The view after binding one declared item in module `m`.
    pub open spec fn with_module_item(self, m: ModuleID, name: u64, symbol: Symbol) -> DatabaseView {
        DatabaseView {
            modules: self.modules.update(
                m.0 as int,
                ModuleDataView {
                    module_item_symbols: self.modules[m.0 as int].module_item_symbols.insert(
                        name,
                        symbol,
                    ),
                    ..self.modules[m.0 as int]
                },
            ),
            ..self
        }
    }
}

/// The diagnostics after checking a new definition's name against a
/// module's item map: one `ItemDefinedMultipleTimes` record — citing
/// the existing binding's name location and the new one — exactly when
/// the name is already bound.
pub open spec fn check_duplicate_spec(
    v: DatabaseView,
    ds: Seq<(u64, DiagnosticView)>,
    m: ModuleID,
    name: IdentifierAst,
) -> Seq<(u64, DiagnosticView)> {
    match v.module_item_symbol_spec(m, name.id) {
        Some(existing) => ds.push(
            (
                name.location.filepath,
                item_defined_multiple_times_diag_spec(
                    symbol_name_spec(v, existing).location,
                    name.location,
                ),
            ),
        ),
        None => ds,
    }
}

/// The database and diagnostics after defining one function in module
/// `m`: the function is allocated, a duplicate of its name is reported,
/// and the name is bound to the new entity regardless.
pub open spec fn define_function_spec(
    v: DatabaseView,
    ds: Seq<(u64, DiagnosticView)>,
    m: ModuleID,
    f: crate::hir::Function,
) -> (DatabaseView, Seq<(u64, DiagnosticView)>) {
    let id = FunctionID(v.functions.len() as usize);
    let v1 = DatabaseView {
        functions: v.functions.push(
            FunctionData { name: f.signature.name, visibility: f.signature.visibility, module: m },
        ),
        ..v
    };
    let ds1 = check_duplicate_spec(v1, ds, m, f.signature.name);
    (v1.with_module_item(m, f.signature.name.id, Symbol::Function(id)), ds1)
}

/// The database and diagnostics after defining one struct in module
/// `m`.
pub open spec fn define_struct_spec(
    v: DatabaseView,
    ds: Seq<(u64, DiagnosticView)>,
    m: ModuleID,
    s: crate::hir::Struct,
) -> (DatabaseView, Seq<(u64, DiagnosticView)>) {
    let id = StructID(v.structs.len() as usize);
    let v1 = DatabaseView {
        structs: v.structs.push(
            StructDataView {
                visibility: s.visibility,
                name: s.name,
                module: m,
                predicates: Seq::<PredicateID>::empty(),
                fields: Map::<u64, crate::symbol::FieldID>::empty(),
                methods: Map::<u64, FunctionID>::empty(),
            },
        ),
        ..v
    };
    let ds1 = check_duplicate_spec(v1, ds, m, s.name);
    (v1.with_module_item(m, s.name.id, Symbol::Struct(id)), ds1)
}

/// The database and diagnostics after defining one tuple-like struct in
/// module `m`.
pub open spec fn define_tuple_like_struct_spec(
    v: DatabaseView,
    ds: Seq<(u64, DiagnosticView)>,
    m: ModuleID,
    s: crate::hir::TupleLikeStruct,
) -> (DatabaseView, Seq<(u64, DiagnosticView)>) {
    let id = TupleLikeStructID(v.tuple_like_structs.len() as usize);
    let v1 = DatabaseView {
        tuple_like_structs: v.tuple_like_structs.push(
            TupleLikeStructDataView {
                visibility: s.visibility,
                name: s.name,
                fields: Seq::<(Visibility, crate::ty::TypeView)>::empty(),
                module: m,
            },
        ),
        ..v
    };
    let ds1 = check_duplicate_spec(v1, ds, m, s.name);
    (v1.with_module_item(m, s.name.id, Symbol::TupleLikeStruct(id)), ds1)
}

/// The database and diagnostics after defining one interface in module
/// `m`.
pub open spec fn define_interface_spec(
    v: DatabaseView,
    ds: Seq<(u64, DiagnosticView)>,
    m: ModuleID,
    i: crate::hir::Interface,
) -> (DatabaseView, Seq<(u64, DiagnosticView)>) {
    let id = InterfaceID(v.interfaces.len() as usize);
    let v1 = DatabaseView {
        interfaces: v.interfaces.push(
            InterfaceDataView {
                visibility: i.visibility,
                name: i.name,
                module: m,
                predicates: Seq::<PredicateID>::empty(),
                methods: Map::<u64, FunctionID>::empty(),
            },
        ),
        ..v
    };
    let ds1 = check_duplicate_spec(v1, ds, m, i.name);
    (v1.with_module_item(m, i.name.id, Symbol::Interface(id)), ds1)
}

/// The database and diagnostics after defining one type alias in module
/// `m`; its underlying type starts out `Unknown`.
pub open spec fn define_type_alias_spec(
    v: DatabaseView,
    ds: Seq<(u64, DiagnosticView)>,
    m: ModuleID,
    a: crate::hir::TypeAliasItemView,
) -> (DatabaseView, Seq<(u64, DiagnosticView)>) {
    let id = TypeAliasID(v.type_aliases.len() as usize);
    let v1 = DatabaseView {
        type_aliases: v.type_aliases.push(
            TypeAliasDataView {
                visibility: a.visibility,
                name: a.name,
                ty: crate::ty::TypeView::Unknown,
                module: m,
            },
        ),
        ..v
    };
    let ds1 = check_duplicate_spec(v1, ds, m, a.name);
    (v1.with_module_item(m, a.name.id, Symbol::TypeAlias(id)), ds1)
}

/// The database, diagnostics and accumulated item map after walking an
/// enum declaration's items in order: each item is checked against the
/// items accumulated so far — a duplicate is reported, citing both
/// sites — then allocated and bound, overwriting any earlier binding.
pub open spec fn collect_enum_items_spec(
    v: DatabaseView,
    ds: Seq<(u64, DiagnosticView)>,
    m: ModuleID,
    items: Seq<crate::hir::EnumItem>,
) -> (DatabaseView, Seq<(u64, DiagnosticView)>, Map<u64, EnumItemID>)
    decreases items.len(),
{
    if items.len() == 0 {
        (v, ds, Map::<u64, EnumItemID>::empty())
    } else {
        let prefix = collect_enum_items_spec(v, ds, m, items.drop_last());
        let it = items.last();
        let ds2 = if prefix.2.contains_key(it.name.id) {
            prefix.1.push(
                (
                    it.name.location.filepath,
                    enum_item_defined_multiple_times_diag_spec(
                        prefix.0.enum_items[prefix.2[it.name.id].0 as int].name.location,
                        it.name.location,
                    ),
                ),
            )
        } else {
            prefix.1
        };
        let id = EnumItemID(prefix.0.enum_items.len() as usize);
        let v2 = DatabaseView {
            enum_items: prefix.0.enum_items.push(EnumItemData { name: it.name, module: m }),
            ..prefix.0
        };
        (v2, ds2, prefix.2.insert(it.name.id, id))
    }
}

/// The database and diagnostics after defining one enum in module `m`:
/// its items are collected and duplicate-checked against the enum's own
/// map first, then the enum itself is checked against the module and
/// bound.
pub open spec fn define_enum_spec(
    v: DatabaseView,
    ds: Seq<(u64, DiagnosticView)>,
    m: ModuleID,
    e: crate::hir::EnumView,
) -> (DatabaseView, Seq<(u64, DiagnosticView)>) {
    let f = collect_enum_items_spec(v, ds, m, e.items);
    let ds3 = check_duplicate_spec(f.0, f.1, m, e.name);
    let id = EnumID(f.0.enums.len() as usize);
    let v3 = DatabaseView {
        enums: f.0.enums.push(
            EnumDataView {
                visibility: e.visibility,
                name: e.name,
                module: m,
                implements: Seq::<TypeConstructorView>::empty(),
                predicates: Seq::<PredicateID>::empty(),
                items: f.2,
                methods: Map::<u64, FunctionID>::empty(),
            },
        ),
        ..f.0
    };
    (v3.with_module_item(m, e.name.id, Symbol::Enum(id)), ds3)
}

/// The database and diagnostics after collecting one declaration of
/// module `m`; imports are deferred and change nothing here.
pub open spec fn collect_item_spec(
    v: DatabaseView,
    ds: Seq<(u64, DiagnosticView)>,
    m: ModuleID,
    item: ModuleItemView,
) -> (DatabaseView, Seq<(u64, DiagnosticView)>) {
    match item {
        ModuleItemView::Enum(e) => define_enum_spec(v, ds, m, e),
        ModuleItemView::Function(f) => define_function_spec(v, ds, m, f),
        ModuleItemView::Struct(s) => define_struct_spec(v, ds, m, s),
        ModuleItemView::Interface(i) => define_interface_spec(v, ds, m, i),
        ModuleItemView::TupleLikeStruct(s) => define_tuple_like_struct_spec(v, ds, m, s),
        ModuleItemView::TypeAlias(a) => define_type_alias_spec(v, ds, m, a),
        ModuleItemView::Import(_) => (v, ds),
    }
}

/// The database and diagnostics after collecting all declarations of
/// module `m`, in declaration order.
pub open spec fn collect_module_spec(
    v: DatabaseView,
    ds: Seq<(u64, DiagnosticView)>,
    m: ModuleID,
    items: Seq<ModuleItemView>,
) -> (DatabaseView, Seq<(u64, DiagnosticView)>)
    decreases items.len(),
{
    if items.len() == 0 {
        (v, ds)
    } else {
        let prefix = collect_module_spec(v, ds, m, items.drop_last());
        collect_item_spec(prefix.0, prefix.1, m, items.last())
    }
}

/// The database and diagnostics after collecting every module of the
/// unit, module by module in the given order.
pub open spec fn collect_all_spec(
    v: DatabaseView,
    ds: Seq<(u64, DiagnosticView)>,
    modules: Seq<(ModuleID, ModuleHirView)>,
) -> (DatabaseView, Seq<(u64, DiagnosticView)>)
    decreases modules.len(),
{
    if modules.len() == 0 {
        (v, ds)
    } else {
        let prefix = collect_all_spec(v, ds, modules.drop_last());
        collect_module_spec(prefix.0, prefix.1, modules.last().0, modules.last().1.items)
    }
}

/// Collects the definitions of lowered modules into the database: phase
/// one of semantic analysis.
#[derive(Debug, Clone, Copy)]
pub struct CollectDefinitions {
    module: ModuleID,
}

impl CollectDefinitions {
    /// Runs definition collection over every lowered module of a unit.
    /// Imports are left untouched for the later import-resolution phase.
    pub fn run_all(state: &mut State, lowered_modules: &[LoweredModule])
        requires
            old(state).db_spec().wf(),
            forall|i: int|
                0 <= i < lowered_modules@.len() ==> (
                #[trigger] lowered_modules@[i].module_spec()).0 < old(state).db_spec().modules.len(),
        ensures
            final(state).db_spec().wf(),
            final(state).db_spec().modules.len() == old(state).db_spec().modules.len(),
            (final(state).db_spec(), final(state).diagnostics_spec()) == collect_all_spec(
                old(state).db_spec(),
                old(state).diagnostics_spec(),
                lowered_views(lowered_modules@),
            ),
    {
        let n: usize = lowered_modules.len();
        let mut i: usize = 0;
        while i < n
            invariant
                state.db_spec().wf(),
                n == lowered_modules@.len(),
                0 <= i <= n,
                state.db_spec().modules.len() == old(state).db_spec().modules.len(),
                forall|j: int|
                    0 <= j < n ==> (#[trigger] lowered_modules@[j].module_spec()).0 < old(
                        state,
                    ).db_spec().modules.len(),
                (state.db_spec(), state.diagnostics_spec()) == collect_all_spec(
                    old(state).db_spec(),
                    old(state).diagnostics_spec(),
                    lowered_views(lowered_modules@).take(i as int),
                ),
            decreases n - i,
        {
            let lowered_module = &lowered_modules[i];
            proof {
                assert(lowered_views(lowered_modules@).take(i + 1).drop_last() =~= lowered_views(
                    lowered_modules@,
                ).take(i as int));
                assert(lowered_views(lowered_modules@).take(i + 1).last() == (
                    lowered_module.module_spec(),
                    lowered_module.hir_spec(),
                ));
            }
            let collector = CollectDefinitions { module: lowered_module.module() };
            collector.run(state, lowered_module.hir());
            i += 1;
        }
        proof {
            assert(lowered_views(lowered_modules@).take(n as int) =~= lowered_views(
                lowered_modules@,
            ));
        }
    }

    /// Collects the declarations of one module, in declaration order.
    fn run(&self, state: &mut State, module: &Module)
        requires
            old(state).db_spec().wf(),
            self.module.0 < old(state).db_spec().modules.len(),
        ensures
            final(state).db_spec().wf(),
            final(state).db_spec().modules.len() == old(state).db_spec().modules.len(),
            (final(state).db_spec(), final(state).diagnostics_spec()) == collect_module_spec(
                old(state).db_spec(),
                old(state).diagnostics_spec(),
                self.module,
                module@.items,
            ),
    {
        let n: usize = module.items.len();
        let mut i: usize = 0;
        while i < n
            invariant
                state.db_spec().wf(),
                n == module@.items.len(),
                0 <= i <= n,
                self.module.0 < state.db_spec().modules.len(),
                state.db_spec().modules.len() == old(state).db_spec().modules.len(),
                (state.db_spec(), state.diagnostics_spec()) == collect_module_spec(
                    old(state).db_spec(),
                    old(state).diagnostics_spec(),
                    self.module,
                    module@.items.take(i as int),
                ),
            decreases n - i,
        {
            proof {
                assert(module@.items.take(i + 1).drop_last() =~= module@.items.take(i as int));
                assert(module@.items.take(i + 1).last() == module@.items[i as int]);
            }
            match &module.items[i] {
                ModuleItem::Enum(enum_) => self.define_enum(state, enum_),
                ModuleItem::Function(function) => self.define_function(state, function),
                ModuleItem::Struct(struct_) => self.define_struct(state, struct_),
                ModuleItem::Interface(interface) => self.define_interface(state, interface),
                ModuleItem::TupleLikeStruct(struct_) => {
                    self.define_tuple_like_struct(state, struct_)
                },
                ModuleItem::TypeAlias(alias) => self.define_type_alias(state, alias),
                ModuleItem::Import(_) => {},
            }
            i += 1;
        }
        proof {
            assert(module@.items.take(n as int) =~= module@.items);
        }
    }

    /// Defines one enum: its items are collected and duplicate-checked
    /// against the enum's own item map first, then the enum itself is
    /// checked against the module's item map and bound there.
    fn define_enum(&self, state: &mut State, enum_: &crate::hir::Enum)
        requires
            old(state).db_spec().wf(),
            self.module.0 < old(state).db_spec().modules.len(),
        ensures
            final(state).db_spec().wf(),
            final(state).db_spec().modules.len() == old(state).db_spec().modules.len(),
            (final(state).db_spec(), final(state).diagnostics_spec()) == define_enum_spec(
                old(state).db_spec(),
                old(state).diagnostics_spec(),
                self.module,
                enum_@,
            ),
    {
        let mut enum_data = EnumData::new(enum_.visibility, enum_.name, self.module);
        let ghost items = enum_@.items;
        let n: usize = enum_.items.len();
        let mut i: usize = 0;
        while i < n
            invariant
                state.db_spec().wf(),
                n == items.len(),
                items == enum_@.items,
                0 <= i <= n,
                self.module.0 < state.db_spec().modules.len(),
                state.db_spec().modules.len() == old(state).db_spec().modules.len(),
                enum_data.visibility == enum_.visibility,
                enum_data.name == enum_.name,
                enum_data.module == self.module,
                enum_data@.implements == Seq::<TypeConstructorView>::empty(),
                enum_data@.predicates == Seq::<PredicateID>::empty(),
                enum_data@.methods == Map::<u64, FunctionID>::empty(),
                forall|k: u64|
                    #[trigger] enum_data@.items.contains_key(k) ==> enum_data@.items[k].0
                        < state.db_spec().enum_items.len(),
                (state.db_spec(), state.diagnostics_spec(), enum_data@.items)
                    == collect_enum_items_spec(
                    old(state).db_spec(),
                    old(state).diagnostics_spec(),
                    self.module,
                    items.take(i as int),
                ),
            decreases n - i,
        {
            let name = enum_.items[i].name();
            proof {
                assert(items.take(i + 1).drop_last() =~= items.take(i as int));
                assert(items.take(i + 1).last() == items[i as int]);
            }
            self.check_for_duplicate_enum_item(state, &enum_data, name);
            let id = EnumItemData::allocate(state.db_mut(), name, self.module);
            enum_data.items.insert(name.id, id);
            i += 1;
        }
        proof {
            assert(items.take(n as int) =~= items);
        }
        self.check_for_duplicate_definition(state, enum_.name);
        proof {
            assert(enum_data_wf(state.db_spec(), enum_data@));
        }
        let id = state.db_mut().add_enum_module_item(enum_data);
        self.module.add_module_item(state.db_mut(), enum_.name.id, Symbol::Enum(id));
    }

    /// Defines one function and binds its name in the module.
    fn define_function(&self, state: &mut State, function: &crate::hir::Function)
        requires
            old(state).db_spec().wf(),
            self.module.0 < old(state).db_spec().modules.len(),
        ensures
            final(state).db_spec().wf(),
            final(state).db_spec().modules.len() == old(state).db_spec().modules.len(),
            (final(state).db_spec(), final(state).diagnostics_spec()) == define_function_spec(
                old(state).db_spec(),
                old(state).diagnostics_spec(),
                self.module,
                *function,
            ),
    {
        let id = FunctionData::allocate(
            state.db_mut(),
            function.signature.name,
            function.signature.visibility,
            self.module,
        );
        self.check_for_duplicate_definition(state, function.signature.name);
        self.module.add_module_item(
            state.db_mut(),
            function.signature.name.id,
            Symbol::Function(id),
        );
    }

    /// Defines one struct and binds its name in the module.
    fn define_struct(&self, state: &mut State, struct_: &crate::hir::Struct)
        requires
            old(state).db_spec().wf(),
            self.module.0 < old(state).db_spec().modules.len(),
        ensures
            final(state).db_spec().wf(),
            final(state).db_spec().modules.len() == old(state).db_spec().modules.len(),
            (final(state).db_spec(), final(state).diagnostics_spec()) == define_struct_spec(
                old(state).db_spec(),
                old(state).diagnostics_spec(),
                self.module,
                *struct_,
            ),
    {
        let id = StructData::allocate(
            state.db_mut(),
            struct_.visibility,
            struct_.name,
            self.module,
        );
        self.check_for_duplicate_definition(state, struct_.name);
        self.module.add_module_item(state.db_mut(), struct_.name.id, Symbol::Struct(id));
    }

    /// Defines one tuple-like struct and binds its name in the module.
    fn define_tuple_like_struct(&self, state: &mut State, struct_: &crate::hir::TupleLikeStruct)
        requires
            old(state).db_spec().wf(),
            self.module.0 < old(state).db_spec().modules.len(),
        ensures
            final(state).db_spec().wf(),
            final(state).db_spec().modules.len() == old(state).db_spec().modules.len(),
            (final(state).db_spec(), final(state).diagnostics_spec())
                == define_tuple_like_struct_spec(
                old(state).db_spec(),
                old(state).diagnostics_spec(),
                self.module,
                *struct_,
            ),
    {
        let id = TupleLikeStructData::allocate(
            state.db_mut(),
            struct_.visibility,
            struct_.name,
            self.module,
        );
        self.check_for_duplicate_definition(state, struct_.name);
        self.module.add_module_item(
            state.db_mut(),
            struct_.name.id,
            Symbol::TupleLikeStruct(id),
        );
    }

    /// Defines one interface and binds its name in the module.
    fn define_interface(&self, state: &mut State, interface: &crate::hir::Interface)
        requires
            old(state).db_spec().wf(),
            self.module.0 < old(state).db_spec().modules.len(),
        ensures
            final(state).db_spec().wf(),
            final(state).db_spec().modules.len() == old(state).db_spec().modules.len(),
            (final(state).db_spec(), final(state).diagnostics_spec()) == define_interface_spec(
                old(state).db_spec(),
                old(state).diagnostics_spec(),
                self.module,
                *interface,
            ),
    {
        let id = InterfaceData::allocate(
            state.db_mut(),
            interface.visibility,
            interface.name,
            self.module,
        );
        self.check_for_duplicate_definition(state, interface.name);
        self.module.add_module_item(state.db_mut(), interface.name.id, Symbol::Interface(id));
    }

    /// Defines one type alias — its underlying type starts `Unknown` —
    /// and binds its name in the module.
    fn define_type_alias(&self, state: &mut State, alias: &crate::hir::TypeAlias)
        requires
            old(state).db_spec().wf(),
            self.module.0 < old(state).db_spec().modules.len(),
        ensures
            final(state).db_spec().wf(),
            final(state).db_spec().modules.len() == old(state).db_spec().modules.len(),
            (final(state).db_spec(), final(state).diagnostics_spec()) == define_type_alias_spec(
                old(state).db_spec(),
                old(state).diagnostics_spec(),
                self.module,
                alias@,
            ),
    {
        let id = TypeAliasData::allocate(
            state.db_mut(),
            alias.visibility,
            alias.name,
            self.module,
        );
        self.check_for_duplicate_definition(state, alias.name);
        self.module.add_module_item(state.db_mut(), alias.name.id, Symbol::TypeAlias(id));
    }

    /// Reports `ItemDefinedMultipleTimes` — citing the existing
    /// binding's name location and the new one — when the module
    /// already binds the name. The check never blocks the new binding.
    fn check_for_duplicate_definition(&self, state: &mut State, name: IdentifierAst)
        requires
            old(state).db_spec().wf(),
            self.module.0 < old(state).db_spec().modules.len(),
        ensures
            final(state).db_spec() == old(state).db_spec(),
            final(state).diagnostics_spec() == check_duplicate_spec(
                old(state).db_spec(),
                old(state).diagnostics_spec(),
                self.module,
                name,
            ),
    {
        if let Some(symbol) = self.module.module_item_symbol(state.db(), name.id) {
            proof {
                assert(module_data_wf(
                    state.db_spec(),
                    state.db_spec().modules[self.module.0 as int],
                ));
            }
            let first = symbol.name(state.db()).location;
            let diagnostic = ItemDefinedMultipleTimes::new(name.id, first, name.location);
            state.diagnostics_mut().add_single_file_diagnostic(
                name.location.filepath,
                diagnostic.build(),
            );
        }
    }

    /// Reports `EnumItemDefinedMultipleTimes` — citing the existing
    /// item's name location and the new one — when the enum being built
    /// already binds the item name.
    fn check_for_duplicate_enum_item(
        &self,
        state: &mut State,
        enum_data: &EnumData,
        item_name: IdentifierAst,
    )
        requires
            old(state).db_spec().wf(),
            forall|k: u64|
                #[trigger] enum_data@.items.contains_key(k) ==> enum_data@.items[k].0 < old(
                    state,
                ).db_spec().enum_items.len(),
        ensures
            final(state).db_spec() == old(state).db_spec(),
            final(state).diagnostics_spec() == if enum_data@.items.contains_key(item_name.id) {
                old(state).diagnostics_spec().push(
                    (
                        item_name.location.filepath,
                        enum_item_defined_multiple_times_diag_spec(
                            old(state).db_spec().enum_items[enum_data@.items[item_name.id].0 as int].name.location,
                            item_name.location,
                        ),
                    ),
                )
            } else {
                old(state).diagnostics_spec()
            },
    {
        if let Some(enum_item) = enum_data.items.get(item_name.id) {
            proof {
                assert(enum_data@.items.contains_key(item_name.id));
            }
            let first = enum_item.name(state.db()).location;
            let diagnostic = EnumItemDefinedMultipleTimes::new(
                enum_data.name.id,
                item_name.id,
                first,
                item_name.location,
            );
            state.diagnostics_mut().add_single_file_diagnostic(
                item_name.location.filepath,
                diagnostic.build(),
            );
        }
    }
}


/// Every item declaration except an import defines an entity.
pub open spec fn is_definition(item: ModuleItemView) -> bool {
    !(item is Import)
}

/// The declared name of a defining item.
pub open spec fn item_decl_name(item: ModuleItemView) -> IdentifierAst {
    match item {
        ModuleItemView::Enum(e) => e.name,
        ModuleItemView::Function(f) => f.signature.name,
        ModuleItemView::Struct(s) => s.name,
        ModuleItemView::Interface(i) => i.name,
        ModuleItemView::TupleLikeStruct(s) => s.name,
        ModuleItemView::TypeAlias(a) => a.name,
        ModuleItemView::Import(_) => IdentifierAst {
            location: crate::Location::dummy_spec(),
            id: 0,
        },
    }
}

/// The symbol a defining item allocates when collected against view
/// `v`: a fresh handle at the end of its kind's arena.
pub open spec fn defined_symbol_spec(v: DatabaseView, item: ModuleItemView) -> Symbol {
    match item {
        ModuleItemView::Enum(_) => Symbol::Enum(EnumID(v.enums.len() as usize)),
        ModuleItemView::Function(_) => Symbol::Function(FunctionID(v.functions.len() as usize)),
        ModuleItemView::Struct(_) => Symbol::Struct(StructID(v.structs.len() as usize)),
        ModuleItemView::Interface(_) => Symbol::Interface(
            InterfaceID(v.interfaces.len() as usize),
        ),
        ModuleItemView::TupleLikeStruct(_) => Symbol::TupleLikeStruct(
            TupleLikeStructID(v.tuple_like_structs.len() as usize),
        ),
        ModuleItemView::TypeAlias(_) => Symbol::TypeAlias(
            TypeAliasID(v.type_aliases.len() as usize),
        ),
        ModuleItemView::Import(_) => Symbol::Module(ModuleID(0)),
    }
}

/// No two of an enum declaration's items share a name.
pub open spec fn enum_items_distinct(items: Seq<crate::hir::EnumItem>) -> bool {
    forall|i: int, j: int| 0 <= i < j < items.len() ==> items[i].name.id != items[j].name.id
}

/// An enum among the two items of the uniqueness law carries no
/// internal duplicates, so the only diagnostic in play is the module's.
pub open spec fn item_internally_clean(item: ModuleItemView) -> bool {
    item is Enum ==> enum_items_distinct(item->Enum_0.items)
}

/// Every entity arena of `b` extends the same arena of `a`, record by
/// record; the modules arena is described separately, since bindings
/// change module records in place.
pub open spec fn arenas_preserved(a: DatabaseView, b: DatabaseView) -> bool {
    &&& a.extends_to(b)
    &&& forall|i: int| 0 <= i < a.enums.len() ==> #[trigger] b.enums[i] == a.enums[i]
    &&& forall|i: int| 0 <= i < a.enum_items.len() ==> #[trigger] b.enum_items[i] == a.enum_items[i]
    &&& forall|i: int| 0 <= i < a.predicates.len() ==> #[trigger] b.predicates[i] == a.predicates[i]
    &&& forall|i: int| 0 <= i < a.structs.len() ==> #[trigger] b.structs[i] == a.structs[i]
    &&& forall|i: int|
        0 <= i < a.tuple_like_structs.len() ==> #[trigger] b.tuple_like_structs[i]
            == a.tuple_like_structs[i]
    &&& forall|i: int| 0 <= i < a.fields.len() ==> #[trigger] b.fields[i] == a.fields[i]
    &&& forall|i: int| 0 <= i < a.functions.len() ==> #[trigger] b.functions[i] == a.functions[i]
    &&& forall|i: int| 0 <= i < a.interfaces.len() ==> #[trigger] b.interfaces[i] == a.interfaces[i]
    &&& forall|i: int|
        0 <= i < a.type_aliases.len() ==> #[trigger] b.type_aliases[i] == a.type_aliases[i]
    &&& forall|i: int|
        0 <= i < a.generic_parameter_scopes.len() ==> #[trigger] b.generic_parameter_scopes[i]
            == a.generic_parameter_scopes[i]
    &&& forall|i: int|
        0 <= i < a.generic_parameters.len() ==> #[trigger] b.generic_parameters[i]
            == a.generic_parameters[i]
}

/// Collecting an enum's items touches only the enum-item arena, by
/// appending, and records no diagnostic when the item names are
/// pairwise distinct.
proof fn lemma_enum_items_fold_frame(
    v: DatabaseView,
    ds: Seq<(u64, DiagnosticView)>,
    m: ModuleID,
    items: Seq<crate::hir::EnumItem>,
)
    ensures
        ({
            let f = collect_enum_items_spec(v, ds, m, items);
            &&& f.0 == (DatabaseView { enum_items: f.0.enum_items, ..v })
            &&& v.enum_items.len() <= f.0.enum_items.len()
            &&& forall|i: int|
                0 <= i < v.enum_items.len() ==> #[trigger] f.0.enum_items[i] == v.enum_items[i]
            &&& enum_items_distinct(items) ==> f.1 == ds
            &&& forall|k: u64|
                #[trigger] f.2.contains_key(k) ==> exists|i: int|
                    0 <= i < items.len() && items[i].name.id == k
        }),
    decreases items.len(),
{
    if items.len() > 0 {
        lemma_enum_items_fold_frame(v, ds, m, items.drop_last());
        let prefix = collect_enum_items_spec(v, ds, m, items.drop_last());
        let it = items.last();
        if enum_items_distinct(items) {
            assert(enum_items_distinct(items.drop_last())) by {
                assert forall|i: int, j: int|
                    0 <= i < j < items.drop_last().len() implies items.drop_last()[i].name.id
                    != items.drop_last()[j].name.id by {
                    assert(items[i] == items.drop_last()[i]);
                    assert(items[j] == items.drop_last()[j]);
                }
            }
            if prefix.2.contains_key(it.name.id) {
                let i = choose|i: int|
                    0 <= i < items.drop_last().len() && items.drop_last()[i].name.id
                        == it.name.id;
                assert(items[i].name.id == items[items.len() - 1].name.id);
                assert(false);
            }
        }
        assert forall|k: u64|
            #[trigger] collect_enum_items_spec(v, ds, m, items).2.contains_key(k) implies exists|
        i: int| 0 <= i < items.len() && items[i].name.id == k by {
            if k == it.name.id {
                assert(items[items.len() - 1].name.id == k);
            } else {
                let i = choose|i: int|
                    0 <= i < items.drop_last().len() && items.drop_last()[i].name.id == k;
                assert(items[i].name.id == k);
            }
        }
    }
}

/// The full effect of collecting one defining item: the item's entity
/// is appended to its kind's arena, the declared name is bound to it in
/// the module's item map — overwriting any earlier binding — and
/// exactly one `ItemDefinedMultipleTimes` diagnostic is recorded, citing
/// both definition sites, precisely when the name was already bound.
pub proof fn lemma_collect_item_effect(
    v: DatabaseView,
    ds: Seq<(u64, DiagnosticView)>,
    m: ModuleID,
    item: ModuleItemView,
)
    requires
        m.0 < v.modules.len(),
        is_definition(item),
        item_internally_clean(item),
        v.enums.len() < usize::MAX,
        v.functions.len() < usize::MAX,
        v.structs.len() < usize::MAX,
        v.interfaces.len() < usize::MAX,
        v.tuple_like_structs.len() < usize::MAX,
        v.type_aliases.len() < usize::MAX,
        v.modules[m.0 as int].module_item_symbols.contains_key(item_decl_name(item).id)
            ==> valid_symbol(v, v.modules[m.0 as int].module_item_symbols[item_decl_name(item).id]),
    ensures
        ({
            let r = collect_item_spec(v, ds, m, item);
            let name = item_decl_name(item);
            let sym = defined_symbol_spec(v, item);
            &&& r.0.enums.len() == v.enums.len() + (if item is Enum { 1int } else { 0int })
            &&& r.0.functions.len() == v.functions.len() + (if item is Function { 1int } else { 0int })
            &&& r.0.structs.len() == v.structs.len() + (if item is Struct { 1int } else { 0int })
            &&& r.0.interfaces.len() == v.interfaces.len() + (if item is Interface { 1int } else { 0int })
            &&& r.0.tuple_like_structs.len() == v.tuple_like_structs.len() + (if item is TupleLikeStruct { 1int } else { 0int })
            &&& r.0.type_aliases.len() == v.type_aliases.len() + (if item is TypeAlias { 1int } else { 0int })
            &&& r.0.modules == v.modules.update(
                m.0 as int,
                ModuleDataView {
                    module_item_symbols: v.modules[m.0 as int].module_item_symbols.insert(
                        name.id,
                        sym,
                    ),
                    ..v.modules[m.0 as int]
                },
            )
            &&& arenas_preserved(v, r.0)
            &&& valid_symbol(r.0, sym)
            &&& symbol_name_spec(r.0, sym) == name
            &&& r.1 == if v.modules[m.0 as int].module_item_symbols.contains_key(name.id) {
                ds.push(
                    (
                        name.location.filepath,
                        item_defined_multiple_times_diag_spec(
                            symbol_name_spec(
                                v,
                                v.modules[m.0 as int].module_item_symbols[name.id],
                            ).location,
                            name.location,
                        ),
                    ),
                )
            } else {
                ds
            }
        }),
{
    let r = collect_item_spec(v, ds, m, item);
    let name = item_decl_name(item);
    let sym = defined_symbol_spec(v, item);
    match item {
        ModuleItemView::Enum(e) => {
            lemma_enum_items_fold_frame(v, ds, m, e.items);
            let f = collect_enum_items_spec(v, ds, m, e.items);
            assert(f.0.modules == v.modules);
            assert(f.0.enums == v.enums);
            if v.modules[m.0 as int].module_item_symbols.contains_key(name.id) {
                let existing = v.modules[m.0 as int].module_item_symbols[name.id];
                assert(symbol_name_spec(f.0, existing) == symbol_name_spec(v, existing));
            }
            assert(r.0.modules =~= v.modules.update(
                m.0 as int,
                ModuleDataView {
                    module_item_symbols: v.modules[m.0 as int].module_item_symbols.insert(
                        name.id,
                        sym,
                    ),
                    ..v.modules[m.0 as int]
                },
            ));
        },
        _ => {},
    }
}

/// Uniqueness under duplication: collecting two defining items of the
/// same name into one module leaves the name bound to exactly one of
/// the two entities — the later one — and records exactly one
/// `ItemDefinedMultipleTimes` diagnostic, citing both definition sites.
pub proof fn lemma_uniqueness_under_duplication(
    v: DatabaseView,
    ds: Seq<(u64, DiagnosticView)>,
    m: ModuleID,
    item1: ModuleItemView,
    item2: ModuleItemView,
)
    requires
        m.0 < v.modules.len(),
        is_definition(item1),
        is_definition(item2),
        item_internally_clean(item1),
        item_internally_clean(item2),
        item_decl_name(item1).id == item_decl_name(item2).id,
        !v.modules[m.0 as int].module_item_symbols.contains_key(item_decl_name(item1).id),
        v.enums.len() + 1 < usize::MAX,
        v.functions.len() + 1 < usize::MAX,
        v.structs.len() + 1 < usize::MAX,
        v.interfaces.len() + 1 < usize::MAX,
        v.tuple_like_structs.len() + 1 < usize::MAX,
        v.type_aliases.len() + 1 < usize::MAX,
    ensures
        ({
            let r = collect_module_spec(v, ds, m, seq![item1, item2]);
            let step1 = collect_item_spec(v, ds, m, item1);
            let n = item_decl_name(item2).id;
            // the name resolves to exactly one of the two entities: the second
            &&& r.0.module_item_symbol_spec(m, n) == Some(defined_symbol_spec(step1.0, item2))
            &&& defined_symbol_spec(step1.0, item2) != defined_symbol_spec(v, item1)
            // exactly one diagnostic was recorded, citing both source locations
            &&& r.1.len() == ds.len() + 1
            &&& r.1.last() == (
                item_decl_name(item2).location.filepath,
                item_defined_multiple_times_diag_spec(
                    item_decl_name(item1).location,
                    item_decl_name(item2).location,
                ),
            )
        }),
{
    let s = seq![item1, item2];
    assert(s.drop_last() =~= seq![item1]);
    assert(seq![item1].drop_last() =~= Seq::<ModuleItemView>::empty());
    assert(s.last() == item2);
    assert(seq![item1].last() == item1);
    let step1 = collect_item_spec(v, ds, m, item1);
    assert(collect_module_spec(v, ds, m, seq![item1]) == step1) by {
        reveal_with_fuel(collect_module_spec, 3);
    }
    assert(collect_module_spec(v, ds, m, s) == collect_item_spec(step1.0, step1.1, m, item2)) by {
        reveal_with_fuel(collect_module_spec, 3);
    }
    lemma_collect_item_effect(v, ds, m, item1);
    let n = item_decl_name(item1).id;
    let sym1 = defined_symbol_spec(v, item1);
    assert(step1.0.modules[m.0 as int].module_item_symbols.contains_key(n));
    assert(step1.0.modules[m.0 as int].module_item_symbols[n] == sym1);
    lemma_collect_item_effect(step1.0, step1.1, m, item2);
    let r = collect_item_spec(step1.0, step1.1, m, item2);
    assert(r.0.modules[m.0 as int].module_item_symbols == step1.0.modules[m.0 as int]
        .module_item_symbols.insert(n, defined_symbol_spec(step1.0, item2)));
    assert(step1.1 == ds);
    assert(symbol_name_spec(step1.0, sym1) == item_decl_name(item1));
}

} // verus!
