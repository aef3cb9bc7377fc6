//! The entity database: append-only typed arenas holding every declared
//! entity, addressed by the handles of [`crate::symbol`], plus the
//! package registry and the per-module namespaces layered on top.
//!
//! Handles are valid only against the database instance that produced
//! them. Allocation appends to a kind's arena and returns a handle equal
//! to the new length minus one; handles are never reused or invalidated.
//! Dereferencing an out-of-range handle is a programming error, ruled
//! out by precondition rather than reported as a diagnostic.

use vstd::prelude::*;

use crate::name_map::NameMap;
use crate::symbol::{
    EnumID, EnumItemID, FieldID, FunctionID, GenericParameterID, GenericParameterScopeID,
    InterfaceID, ModuleID, PredicateID, StructID, Symbol, TupleLikeStructID, TypeAliasID,
};
use crate::ty::{ctors_deep, Type, TypeConstructor, TypeConstructorView, TypeView};
use crate::{IdentifierAst, Location, Visibility};

verus! {

/// Views of a sequence of visibility-and-type pairs.
pub open spec fn fields_deep(s: Seq<(Visibility, Type)>) -> Seq<(Visibility, TypeView)> {
    Seq::new(s.len(), |i: int| (s[i].0, s[i].1.deep_view()))
}

/// View of an optional semantic type.
pub open spec fn opt_type_deep(o: Option<Type>) -> Option<TypeView> {
    match o {
        Some(t) => Some(t.deep_view()),
        None => None,
    }
}

/// The data the database has about an enum.
#[derive(Debug)]
pub struct EnumData {
    pub visibility: Visibility,
    pub name: IdentifierAst,
    pub module: ModuleID,
    pub implements: Vec<TypeConstructor>,
    pub predicates: Vec<PredicateID>,
    pub items: NameMap<EnumItemID>,
    pub methods: NameMap<FunctionID>,
}

/// Specification-level view of [`EnumData`].
#[verifier::ext_equal]
pub struct EnumDataView {
    pub visibility: Visibility,
    pub name: IdentifierAst,
    pub module: ModuleID,
    pub implements: Seq<TypeConstructorView>,
    pub predicates: Seq<PredicateID>,
    pub items: Map<u64, EnumItemID>,
    pub methods: Map<u64, FunctionID>,
}

impl View for EnumData {
    type V = EnumDataView;

    open spec fn view(&self) -> EnumDataView {
        EnumDataView {
            visibility: self.visibility,
            name: self.name,
            module: self.module,
            implements: ctors_deep(self.implements@),
            predicates: self.predicates@,
            items: self.items@,
            methods: self.methods@,
        }
    }
}

/// The data the database has about a struct.
#[derive(Debug)]
pub struct StructData {
    pub visibility: Visibility,
    pub name: IdentifierAst,
    pub module: ModuleID,
    pub predicates: Vec<PredicateID>,
    pub fields: NameMap<FieldID>,
    pub methods: NameMap<FunctionID>,
}

/// Specification-level view of [`StructData`].
#[verifier::ext_equal]
pub struct StructDataView {
    pub visibility: Visibility,
    pub name: IdentifierAst,
    pub module: ModuleID,
    pub predicates: Seq<PredicateID>,
    pub fields: Map<u64, FieldID>,
    pub methods: Map<u64, FunctionID>,
}

impl View for StructData {
    type V = StructDataView;

    open spec fn view(&self) -> StructDataView {
        StructDataView {
            visibility: self.visibility,
            name: self.name,
            module: self.module,
            predicates: self.predicates@,
            fields: self.fields@,
            methods: self.methods@,
        }
    }
}

/// The data the database has about a tuple-like struct.
#[derive(Debug)]
pub struct TupleLikeStructData {
    pub visibility: Visibility,
    pub name: IdentifierAst,
    pub fields: Vec<(Visibility, Type)>,
    pub module: ModuleID,
}

/// Specification-level view of [`TupleLikeStructData`].
#[verifier::ext_equal]
pub struct TupleLikeStructDataView {
    pub visibility: Visibility,
    pub name: IdentifierAst,
    pub fields: Seq<(Visibility, TypeView)>,
    pub module: ModuleID,
}

impl View for TupleLikeStructData {
    type V = TupleLikeStructDataView;

    open spec fn view(&self) -> TupleLikeStructDataView {
        TupleLikeStructDataView {
            visibility: self.visibility,
            name: self.name,
            fields: fields_deep(self.fields@),
            module: self.module,
        }
    }
}

/// The data the database has about a struct field.
#[derive(Debug)]
pub struct FieldData {
    pub visibility: Visibility,
    pub name: IdentifierAst,
    pub ty: Type,
}

/// Specification-level view of [`FieldData`].
#[verifier::ext_equal]
pub struct FieldDataView {
    pub visibility: Visibility,
    pub name: IdentifierAst,
    pub ty: TypeView,
}

impl View for FieldData {
    type V = FieldDataView;

    open spec fn view(&self) -> FieldDataView {
        FieldDataView { visibility: self.visibility, name: self.name, ty: self.ty.deep_view() }
    }
}

/// The data the database has about a predicate: a type paired with the
/// interface bounds it must satisfy.
#[derive(Debug)]
pub struct PredicateData {
    pub ty: Type,
    pub bounds: Vec<TypeConstructor>,
}

/// Specification-level view of [`PredicateData`].
#[verifier::ext_equal]
pub struct PredicateDataView {
    pub ty: TypeView,
    pub bounds: Seq<TypeConstructorView>,
}

impl View for PredicateData {
    type V = PredicateDataView;

    open spec fn view(&self) -> PredicateDataView {
        PredicateDataView { ty: self.ty.deep_view(), bounds: ctors_deep(self.bounds@) }
    }
}

/// The data the database has about a generic parameter scope: its own
/// parameters plus an optional parent scope.
#[derive(Debug)]
pub struct GenericParameterScopeData {
    pub parent_scope: Option<GenericParameterScopeID>,
    pub parameters: NameMap<GenericParameterID>,
}

/// Specification-level view of [`GenericParameterScopeData`].
#[verifier::ext_equal]
pub struct GenericParameterScopeDataView {
    pub parent_scope: Option<GenericParameterScopeID>,
    pub parameters: Map<u64, GenericParameterID>,
}

impl View for GenericParameterScopeData {
    type V = GenericParameterScopeDataView;

    open spec fn view(&self) -> GenericParameterScopeDataView {
        GenericParameterScopeDataView {
            parent_scope: self.parent_scope,
            parameters: self.parameters@,
        }
    }
}

/// The data the database has about a generic parameter.
#[derive(Debug)]
pub struct GenericParameterData {
    /// Location of the parameter's name at its declaration.
    pub location: Location,
    /// Default value of the parameter, if one was declared.
    pub default_value: Option<Type>,
}

/// Specification-level view of [`GenericParameterData`].
#[verifier::ext_equal]
pub struct GenericParameterDataView {
    pub location: Location,
    pub default_value: Option<TypeView>,
}

impl View for GenericParameterData {
    type V = GenericParameterDataView;

    open spec fn view(&self) -> GenericParameterDataView {
        GenericParameterDataView {
            location: self.location,
            default_value: opt_type_deep(self.default_value),
        }
    }
}

/// The data the database has about an enum item.
#[derive(Debug, Clone, Copy, PartialEq, Eq, Structural)]
pub struct EnumItemData {
    pub name: IdentifierAst,
    pub module: ModuleID,
}

/// The data the database has about a function.
#[derive(Debug, Clone, Copy, PartialEq, Eq, Structural)]
pub struct FunctionData {
    pub name: IdentifierAst,
    pub visibility: Visibility,
    pub module: ModuleID,
}

/// The data the database has about an interface.
#[derive(Debug)]
pub struct InterfaceData {
    pub visibility: Visibility,
    pub name: IdentifierAst,
    pub module: ModuleID,
    pub predicates: Vec<PredicateID>,
    pub methods: NameMap<FunctionID>,
}

/// Specification-level view of [`InterfaceData`].
#[verifier::ext_equal]
pub struct InterfaceDataView {
    pub visibility: Visibility,
    pub name: IdentifierAst,
    pub module: ModuleID,
    pub predicates: Seq<PredicateID>,
    pub methods: Map<u64, FunctionID>,
}

impl View for InterfaceData {
    type V = InterfaceDataView;

    open spec fn view(&self) -> InterfaceDataView {
        InterfaceDataView {
            visibility: self.visibility,
            name: self.name,
            module: self.module,
            predicates: self.predicates@,
            methods: self.methods@,
        }
    }
}

/// The data the database has about a type alias. Its underlying type is
/// `Unknown` until type resolution memoizes the resolved form.
#[derive(Debug)]
pub struct TypeAliasData {
    pub visibility: Visibility,
    pub name: IdentifierAst,
    pub ty: Type,
    pub module: ModuleID,
}

/// Specification-level view of [`TypeAliasData`].
#[verifier::ext_equal]
pub struct TypeAliasDataView {
    pub visibility: Visibility,
    pub name: IdentifierAst,
    pub ty: TypeView,
    pub module: ModuleID,
}

impl View for TypeAliasData {
    type V = TypeAliasDataView;

    open spec fn view(&self) -> TypeAliasDataView {
        TypeAliasDataView {
            visibility: self.visibility,
            name: self.name,
            ty: self.ty.deep_view(),
            module: self.module,
        }
    }
}

/// The data the database has about a module: its name, its source file,
/// and its three namespaces.
#[derive(Debug)]
pub struct ModuleData {
    pub name: u64,
    pub filepath: u64,
    pub module_item_symbols: NameMap<Symbol>,
    pub submodules: NameMap<ModuleID>,
    pub resolved_imports: NameMap<Symbol>,
}

/// Specification-level view of [`ModuleData`].
#[verifier::ext_equal]
pub struct ModuleDataView {
    pub name: u64,
    pub filepath: u64,
    pub module_item_symbols: Map<u64, Symbol>,
    pub submodules: Map<u64, ModuleID>,
    pub resolved_imports: Map<u64, Symbol>,
}

impl View for ModuleData {
    type V = ModuleDataView;

    open spec fn view(&self) -> ModuleDataView {
        ModuleDataView {
            name: self.name,
            filepath: self.filepath,
            module_item_symbols: self.module_item_symbols@,
            submodules: self.submodules@,
            resolved_imports: self.resolved_imports@,
        }
    }
}

/// Storage for every entity of one compilation unit.
#[derive(Debug)]
pub struct Database {
    packages: NameMap<ModuleID>,
    modules: Vec<ModuleData>,
    enums: Vec<EnumData>,
    enum_items: Vec<EnumItemData>,
    predicates: Vec<PredicateData>,
    structs: Vec<StructData>,
    tuple_like_structs: Vec<TupleLikeStructData>,
    fields: Vec<FieldData>,
    functions: Vec<FunctionData>,
    interfaces: Vec<InterfaceData>,
    type_aliases: Vec<TypeAliasData>,
    generic_parameter_scopes: Vec<GenericParameterScopeData>,
    generic_parameters: Vec<GenericParameterData>,
}

/// Specification-level view of [`Database`].
#[verifier::ext_equal]
pub struct DatabaseView {
    pub packages: Map<u64, ModuleID>,
    pub modules: Seq<ModuleDataView>,
    pub enums: Seq<EnumDataView>,
    pub enum_items: Seq<EnumItemData>,
    pub predicates: Seq<PredicateDataView>,
    pub structs: Seq<StructDataView>,
    pub tuple_like_structs: Seq<TupleLikeStructDataView>,
    pub fields: Seq<FieldDataView>,
    pub functions: Seq<FunctionData>,
    pub interfaces: Seq<InterfaceDataView>,
    pub type_aliases: Seq<TypeAliasDataView>,
    pub generic_parameter_scopes: Seq<GenericParameterScopeDataView>,
    pub generic_parameters: Seq<GenericParameterDataView>,
}

impl View for Database {
    type V = DatabaseView;

    closed spec fn view(&self) -> DatabaseView {
        DatabaseView {
            packages: self.packages@,
            modules: Seq::new(self.modules@.len(), |i: int| self.modules@[i]@),
            enums: Seq::new(self.enums@.len(), |i: int| self.enums@[i]@),
            enum_items: self.enum_items@,
            predicates: Seq::new(self.predicates@.len(), |i: int| self.predicates@[i]@),
            structs: Seq::new(self.structs@.len(), |i: int| self.structs@[i]@),
            tuple_like_structs: Seq::new(
                self.tuple_like_structs@.len(),
                |i: int| self.tuple_like_structs@[i]@,
            ),
            fields: Seq::new(self.fields@.len(), |i: int| self.fields@[i]@),
            functions: self.functions@,
            interfaces: Seq::new(self.interfaces@.len(), |i: int| self.interfaces@[i]@),
            type_aliases: Seq::new(self.type_aliases@.len(), |i: int| self.type_aliases@[i]@),
            generic_parameter_scopes: Seq::new(
                self.generic_parameter_scopes@.len(),
                |i: int| self.generic_parameter_scopes@[i]@,
            ),
            generic_parameters: Seq::new(
                self.generic_parameters@.len(),
                |i: int| self.generic_parameters@[i]@,
            ),
        }
    }
}

/// A symbol's handle lies inside the arena of its kind.
pub open spec fn valid_symbol(v: DatabaseView, s: Symbol) -> bool {
    match s {
        Symbol::Module(id) => id.0 < v.modules.len(),
        Symbol::Enum(id) => id.0 < v.enums.len(),
        Symbol::Struct(id) => id.0 < v.structs.len(),
        Symbol::Function(id) => id.0 < v.functions.len(),
        Symbol::Interface(id) => id.0 < v.interfaces.len(),
        Symbol::TupleLikeStruct(id) => id.0 < v.tuple_like_structs.len(),
        Symbol::TypeAlias(id) => id.0 < v.type_aliases.len(),
        Symbol::EnumItem(id) => id.0 < v.enum_items.len(),
    }
}

/// Every handle a module's namespaces hold is valid.
pub open spec fn module_data_wf(v: DatabaseView, d: ModuleDataView) -> bool {
    &&& forall|k: u64|
        #[trigger] d.module_item_symbols.contains_key(k) ==> valid_symbol(
            v,
            d.module_item_symbols[k],
        )
    &&& forall|k: u64| #[trigger] d.submodules.contains_key(k) ==> d.submodules[k].0 < v.modules.len()
    &&& forall|k: u64|
        #[trigger] d.resolved_imports.contains_key(k) ==> valid_symbol(v, d.resolved_imports[k])
}

/// Every handle an enum's record holds is valid.
pub open spec fn enum_data_wf(v: DatabaseView, d: EnumDataView) -> bool {
    &&& d.module.0 < v.modules.len()
    &&& forall|i: int| 0 <= i < d.predicates.len() ==> (#[trigger] d.predicates[i]).0 < v.predicates.len()
    &&& forall|k: u64| #[trigger] d.items.contains_key(k) ==> d.items[k].0 < v.enum_items.len()
    &&& forall|k: u64| #[trigger] d.methods.contains_key(k) ==> d.methods[k].0 < v.functions.len()
}

/// Every handle a struct's record holds is valid.
pub open spec fn struct_data_wf(v: DatabaseView, d: StructDataView) -> bool {
    &&& d.module.0 < v.modules.len()
    &&& forall|i: int| 0 <= i < d.predicates.len() ==> (#[trigger] d.predicates[i]).0 < v.predicates.len()
    &&& forall|k: u64| #[trigger] d.fields.contains_key(k) ==> d.fields[k].0 < v.fields.len()
    &&& forall|k: u64| #[trigger] d.methods.contains_key(k) ==> d.methods[k].0 < v.functions.len()
}

/// Every handle an interface's record holds is valid.
pub open spec fn interface_data_wf(v: DatabaseView, d: InterfaceDataView) -> bool {
    &&& d.module.0 < v.modules.len()
    &&& forall|i: int| 0 <= i < d.predicates.len() ==> (#[trigger] d.predicates[i]).0 < v.predicates.len()
    &&& forall|k: u64| #[trigger] d.methods.contains_key(k) ==> d.methods[k].0 < v.functions.len()
}

/// Every parameter handle a scope holds is valid.
pub open spec fn scope_data_wf(v: DatabaseView, d: GenericParameterScopeDataView) -> bool {
    forall|k: u64|
        #[trigger] d.parameters.contains_key(k) ==> d.parameters[k].0 < v.generic_parameters.len()
}

impl DatabaseView {
    /// Well-formedness of the whole database: every stored handle points
    /// into its arena, and every scope's parent was allocated before the
    /// scope itself, so that parent chains strictly descend and lookups
    /// terminate.
    pub open spec fn wf(self) -> bool {
        &&& forall|k: u64|
            #[trigger] self.packages.contains_key(k) ==> self.packages[k].0 < self.modules.len()
        &&& forall|i: int|
            0 <= i < self.modules.len() ==> module_data_wf(self, #[trigger] self.modules[i])
        &&& forall|i: int| 0 <= i < self.enums.len() ==> enum_data_wf(self, #[trigger] self.enums[i])
        &&& forall|i: int|
            0 <= i < self.structs.len() ==> struct_data_wf(self, #[trigger] self.structs[i])
        &&& forall|i: int|
            0 <= i < self.tuple_like_structs.len() ==> (#[trigger] self.tuple_like_structs[i]).module.0
                < self.modules.len()
        &&& forall|i: int|
            0 <= i < self.functions.len() ==> (#[trigger] self.functions[i]).module.0
                < self.modules.len()
        &&& forall|i: int|
            0 <= i < self.interfaces.len() ==> interface_data_wf(
                self,
                #[trigger] self.interfaces[i],
            )
        &&& forall|i: int|
            0 <= i < self.type_aliases.len() ==> (#[trigger] self.type_aliases[i]).module.0
                < self.modules.len()
        &&& forall|i: int|
            0 <= i < self.enum_items.len() ==> (#[trigger] self.enum_items[i]).module.0
                < self.modules.len()
        &&& forall|i: int|
            0 <= i < self.generic_parameter_scopes.len() ==> scope_data_wf(
                self,
                #[trigger] self.generic_parameter_scopes[i],
            )
        &&& forall|i: int|
            0 <= i < self.generic_parameter_scopes.len()
                && (#[trigger] self.generic_parameter_scopes[i]).parent_scope is Some
                ==> (self.generic_parameter_scopes[i].parent_scope->0).0 < i
    }

    /// All arenas of `other` are at least as long as this view's.
    pub open spec fn extends_to(self, other: DatabaseView) -> bool {
        &&& self.modules.len() <= other.modules.len()
        &&& self.enums.len() <= other.enums.len()
        &&& self.enum_items.len() <= other.enum_items.len()
        &&& self.predicates.len() <= other.predicates.len()
        &&& self.structs.len() <= other.structs.len()
        &&& self.tuple_like_structs.len() <= other.tuple_like_structs.len()
        &&& self.fields.len() <= other.fields.len()
        &&& self.functions.len() <= other.functions.len()
        &&& self.interfaces.len() <= other.interfaces.len()
        &&& self.type_aliases.len() <= other.type_aliases.len()
        &&& self.generic_parameter_scopes.len() <= other.generic_parameter_scopes.len()
        &&& self.generic_parameters.len() <= other.generic_parameters.len()
    }
}

/// Record well-formedness only constrains arena lengths, so it survives
/// any growth of the database.
pub proof fn lemma_module_data_wf_mono(a: DatabaseView, b: DatabaseView, d: ModuleDataView)
    requires
        module_data_wf(a, d),
        a.extends_to(b),
    ensures
        module_data_wf(b, d),
{
}

pub proof fn lemma_enum_data_wf_mono(a: DatabaseView, b: DatabaseView, d: EnumDataView)
    requires
        enum_data_wf(a, d),
        a.extends_to(b),
    ensures
        enum_data_wf(b, d),
{
}

pub proof fn lemma_struct_data_wf_mono(a: DatabaseView, b: DatabaseView, d: StructDataView)
    requires
        struct_data_wf(a, d),
        a.extends_to(b),
    ensures
        struct_data_wf(b, d),
{
}

pub proof fn lemma_interface_data_wf_mono(a: DatabaseView, b: DatabaseView, d: InterfaceDataView)
    requires
        interface_data_wf(a, d),
        a.extends_to(b),
    ensures
        interface_data_wf(b, d),
{
}

/// One arena grew by appended records, every appended record is
/// well-formed against the new view, and nothing else changed: the whole
/// database stays well-formed.
pub proof fn lemma_wf_extended(a: DatabaseView, b: DatabaseView)
    requires
        a.wf(),
        a.extends_to(b),
        b.packages == a.packages,
        forall|i: int| 0 <= i < a.modules.len() ==> #[trigger] b.modules[i] == a.modules[i],
        forall|i: int|
            a.modules.len() <= i < b.modules.len() ==> module_data_wf(b, #[trigger] b.modules[i]),
        forall|i: int| 0 <= i < a.enums.len() ==> #[trigger] b.enums[i] == a.enums[i],
        forall|i: int|
            a.enums.len() <= i < b.enums.len() ==> enum_data_wf(b, #[trigger] b.enums[i]),
        forall|i: int| 0 <= i < a.structs.len() ==> #[trigger] b.structs[i] == a.structs[i],
        forall|i: int|
            a.structs.len() <= i < b.structs.len() ==> struct_data_wf(b, #[trigger] b.structs[i]),
        forall|i: int|
            0 <= i < a.tuple_like_structs.len() ==> #[trigger] b.tuple_like_structs[i]
                == a.tuple_like_structs[i],
        forall|i: int|
            a.tuple_like_structs.len() <= i < b.tuple_like_structs.len() ==> (
            #[trigger] b.tuple_like_structs[i]).module.0 < b.modules.len(),
        forall|i: int| 0 <= i < a.functions.len() ==> #[trigger] b.functions[i] == a.functions[i],
        forall|i: int|
            a.functions.len() <= i < b.functions.len() ==> (#[trigger] b.functions[i]).module.0
                < b.modules.len(),
        forall|i: int|
            0 <= i < a.interfaces.len() ==> #[trigger] b.interfaces[i] == a.interfaces[i],
        forall|i: int|
            a.interfaces.len() <= i < b.interfaces.len() ==> interface_data_wf(
                b,
                #[trigger] b.interfaces[i],
            ),
        forall|i: int|
            0 <= i < a.type_aliases.len() ==> #[trigger] b.type_aliases[i] == a.type_aliases[i],
        forall|i: int|
            a.type_aliases.len() <= i < b.type_aliases.len() ==> (
            #[trigger] b.type_aliases[i]).module.0 < b.modules.len(),
        forall|i: int|
            0 <= i < a.enum_items.len() ==> #[trigger] b.enum_items[i] == a.enum_items[i],
        forall|i: int|
            a.enum_items.len() <= i < b.enum_items.len() ==> (#[trigger] b.enum_items[i]).module.0
                < b.modules.len(),
        forall|i: int|
            0 <= i < a.generic_parameter_scopes.len() ==> #[trigger] b.generic_parameter_scopes[i]
                == a.generic_parameter_scopes[i],
        forall|i: int|
            a.generic_parameter_scopes.len() <= i < b.generic_parameter_scopes.len() ==> {
                &&& scope_data_wf(b, #[trigger] b.generic_parameter_scopes[i])
                &&& b.generic_parameter_scopes[i].parent_scope is Some
                    ==> (b.generic_parameter_scopes[i].parent_scope->0).0 < i
            },
    ensures
        b.wf(),
{
    assert forall|i: int|
        0 <= i < b.modules.len() implies module_data_wf(b, #[trigger] b.modules[i]) by {
        if i < a.modules.len() {
            lemma_module_data_wf_mono(a, b, a.modules[i]);
        }
    }
    assert forall|i: int| 0 <= i < b.enums.len() implies enum_data_wf(b, #[trigger] b.enums[i]) by {
        if i < a.enums.len() {
            lemma_enum_data_wf_mono(a, b, a.enums[i]);
        }
    }
    assert forall|i: int|
        0 <= i < b.structs.len() implies struct_data_wf(b, #[trigger] b.structs[i]) by {
        if i < a.structs.len() {
            lemma_struct_data_wf_mono(a, b, a.structs[i]);
        }
    }
    assert forall|i: int|
        0 <= i < b.interfaces.len() implies interface_data_wf(b, #[trigger] b.interfaces[i]) by {
        if i < a.interfaces.len() {
            lemma_interface_data_wf_mono(a, b, a.interfaces[i]);
        }
    }
}

impl Database {
    /// Creates a new empty database.
    pub fn new() -> (r: Self)
        ensures
            r@.wf(),
            r@.packages == Map::<u64, ModuleID>::empty(),
            r@.modules.len() == 0,
            r@.enums.len() == 0,
            r@.enum_items.len() == 0,
            r@.predicates.len() == 0,
            r@.structs.len() == 0,
            r@.tuple_like_structs.len() == 0,
            r@.fields.len() == 0,
            r@.functions.len() == 0,
            r@.interfaces.len() == 0,
            r@.type_aliases.len() == 0,
            r@.generic_parameter_scopes.len() == 0,
            r@.generic_parameters.len() == 0,
    {
        Database {
            packages: NameMap::new(),
            modules: Vec::new(),
            enums: Vec::new(),
            enum_items: Vec::new(),
            predicates: Vec::new(),
            structs: Vec::new(),
            tuple_like_structs: Vec::new(),
            fields: Vec::new(),
            functions: Vec::new(),
            interfaces: Vec::new(),
            type_aliases: Vec::new(),
            generic_parameter_scopes: Vec::new(),
            generic_parameters: Vec::new(),
        }
    }

    /// Returns a package's root module by package name.
    pub fn package_root_module(&self, package_name: u64) -> (r: Option<ModuleID>)
        ensures
            r == if self@.packages.contains_key(package_name) {
                Some(self@.packages[package_name])
            } else {
                None::<ModuleID>
            },
    {
        self.packages.get(package_name)
    }

    /// Returns a package's root module by package name, for a package
    /// known to be registered.
    pub fn package_root_module_or_panic(&self, package_name: u64) -> (r: ModuleID)
        requires
            self@.packages.contains_key(package_name),
        ensures
            r == self@.packages[package_name],
    {
        match self.packages.get(package_name) {
            Some(id) => id,
            None => vstd::pervasive::unreached(),
        }
    }

    /// Returns whether a package with the given name is registered.
    pub fn contains_package(&self, package_name: u64) -> (r: bool)
        ensures
            r == self@.packages.contains_key(package_name),
    {
        self.packages.contains_key(package_name)
    }

    /// Registers a package under its root module's name. A later
    /// registration under the same name overwrites the earlier one.
    pub fn add_package(&mut self, root_module: ModuleID)
        requires
            old(self)@.wf(),
            root_module.0 < old(self)@.modules.len(),
        ensures
            final(self)@.wf(),
            final(self)@ == (DatabaseView {
                packages: old(self)@.packages.insert(
                    old(self)@.modules[root_module.0 as int].name,
                    root_module,
                ),
                ..old(self)@
            }),
    {
        let name = self.modules[root_module.0].name;
        self.packages.insert(name, root_module);
        proof {
            assert(self@ =~= (DatabaseView {
                packages: old(self)@.packages.insert(
                    old(self)@.modules[root_module.0 as int].name,
                    root_module,
                ),
                ..old(self)@
            }));
        }
    }
}

impl Database {
    /// Returns a reference to module data by its ID.
    pub fn module(&self, id: ModuleID) -> (r: &ModuleData)
        requires
            id.0 < self@.modules.len(),
        ensures
            r@ == self@.modules[id.0 as int],
    {
        &self.modules[id.0]
    }

    /// Returns whether module data with the given ID is present.
    pub fn contains_module(&self, id: ModuleID) -> (r: bool)
        ensures
            r == (id.0 < self@.modules.len()),
    {
        id.0 < self.modules.len()
    }

    /// Appends module data to its arena and returns
    /// the fresh handle, equal to the arena's previous length.
    pub fn add_module(&mut self, data: ModuleData) -> (r: ModuleID)
        requires
            old(self)@.wf(),
            module_data_wf(old(self)@, data@),
        ensures
            final(self)@.wf(),
            r.0 == old(self)@.modules.len(),
            final(self)@ == (DatabaseView {
                modules: old(self)@.modules.push(data@),
                ..old(self)@
            }),
    {
        let id = ModuleID(self.modules.len());
        self.modules.push(data);
        proof {
            assert(self@ =~= (DatabaseView {
                modules: old(self)@.modules.push(data@),
                ..old(self)@
            }));
            lemma_wf_extended(old(self)@, self@);
        }
        id
    }

    /// Returns a reference to enum module item data by its ID.
    pub fn enum_module_item(&self, id: EnumID) -> (r: &EnumData)
        requires
            id.0 < self@.enums.len(),
        ensures
            r@ == self@.enums[id.0 as int],
    {
        &self.enums[id.0]
    }

    /// Returns whether enum module item data with the given ID is present.
    pub fn contains_enum_module_item(&self, id: EnumID) -> (r: bool)
        ensures
            r == (id.0 < self@.enums.len()),
    {
        id.0 < self.enums.len()
    }

    /// Appends enum module item data to its arena and returns
    /// the fresh handle, equal to the arena's previous length.
    pub fn add_enum_module_item(&mut self, data: EnumData) -> (r: EnumID)
        requires
            old(self)@.wf(),
            enum_data_wf(old(self)@, data@),
        ensures
            final(self)@.wf(),
            r.0 == old(self)@.enums.len(),
            final(self)@ == (DatabaseView {
                enums: old(self)@.enums.push(data@),
                ..old(self)@
            }),
    {
        let id = EnumID(self.enums.len());
        self.enums.push(data);
        proof {
            assert(self@ =~= (DatabaseView {
                enums: old(self)@.enums.push(data@),
                ..old(self)@
            }));
            lemma_wf_extended(old(self)@, self@);
        }
        id
    }

    /// Returns a reference to struct module item data by its ID.
    pub fn struct_module_item(&self, id: StructID) -> (r: &StructData)
        requires
            id.0 < self@.structs.len(),
        ensures
            r@ == self@.structs[id.0 as int],
    {
        &self.structs[id.0]
    }

    /// Returns whether struct module item data with the given ID is present.
    pub fn contains_struct_module_item(&self, id: StructID) -> (r: bool)
        ensures
            r == (id.0 < self@.structs.len()),
    {
        id.0 < self.structs.len()
    }

    /// Appends struct module item data to its arena and returns
    /// the fresh handle, equal to the arena's previous length.
    pub fn add_struct_module_item(&mut self, data: StructData) -> (r: StructID)
        requires
            old(self)@.wf(),
            struct_data_wf(old(self)@, data@),
        ensures
            final(self)@.wf(),
            r.0 == old(self)@.structs.len(),
            final(self)@ == (DatabaseView {
                structs: old(self)@.structs.push(data@),
                ..old(self)@
            }),
    {
        let id = StructID(self.structs.len());
        self.structs.push(data);
        proof {
            assert(self@ =~= (DatabaseView {
                structs: old(self)@.structs.push(data@),
                ..old(self)@
            }));
            lemma_wf_extended(old(self)@, self@);
        }
        id
    }

    /// Returns a reference to tuple like struct data by its ID.
    pub fn tuple_like_struct(&self, id: TupleLikeStructID) -> (r: &TupleLikeStructData)
        requires
            id.0 < self@.tuple_like_structs.len(),
        ensures
            r@ == self@.tuple_like_structs[id.0 as int],
    {
        &self.tuple_like_structs[id.0]
    }

    /// Returns whether tuple like struct data with the given ID is present.
    pub fn contains_tuple_like_struct(&self, id: TupleLikeStructID) -> (r: bool)
        ensures
            r == (id.0 < self@.tuple_like_structs.len()),
    {
        id.0 < self.tuple_like_structs.len()
    }

    /// Appends tuple like struct data to its arena and returns
    /// the fresh handle, equal to the arena's previous length.
    pub fn add_tuple_like_struct(&mut self, data: TupleLikeStructData) -> (r: TupleLikeStructID)
        requires
            old(self)@.wf(),
            data@.module.0 < old(self)@.modules.len(),
        ensures
            final(self)@.wf(),
            r.0 == old(self)@.tuple_like_structs.len(),
            final(self)@ == (DatabaseView {
                tuple_like_structs: old(self)@.tuple_like_structs.push(data@),
                ..old(self)@
            }),
    {
        let id = TupleLikeStructID(self.tuple_like_structs.len());
        self.tuple_like_structs.push(data);
        proof {
            assert(self@ =~= (DatabaseView {
                tuple_like_structs: old(self)@.tuple_like_structs.push(data@),
                ..old(self)@
            }));
            lemma_wf_extended(old(self)@, self@);
        }
        id
    }

    /// Returns a reference to type alias data by its ID.
    pub fn type_alias(&self, id: TypeAliasID) -> (r: &TypeAliasData)
        requires
            id.0 < self@.type_aliases.len(),
        ensures
            r@ == self@.type_aliases[id.0 as int],
    {
        &self.type_aliases[id.0]
    }

    /// Returns whether type alias data with the given ID is present.
    pub fn contains_type_alias(&self, id: TypeAliasID) -> (r: bool)
        ensures
            r == (id.0 < self@.type_aliases.len()),
    {
        id.0 < self.type_aliases.len()
    }

    /// Appends type alias data to its arena and returns
    /// the fresh handle, equal to the arena's previous length.
    pub fn add_type_alias(&mut self, data: TypeAliasData) -> (r: TypeAliasID)
        requires
            old(self)@.wf(),
            data@.module.0 < old(self)@.modules.len(),
        ensures
            final(self)@.wf(),
            r.0 == old(self)@.type_aliases.len(),
            final(self)@ == (DatabaseView {
                type_aliases: old(self)@.type_aliases.push(data@),
                ..old(self)@
            }),
    {
        let id = TypeAliasID(self.type_aliases.len());
        self.type_aliases.push(data);
        proof {
            assert(self@ =~= (DatabaseView {
                type_aliases: old(self)@.type_aliases.push(data@),
                ..old(self)@
            }));
            lemma_wf_extended(old(self)@, self@);
        }
        id
    }

    /// Returns a reference to function data by its ID.
    pub fn function(&self, id: FunctionID) -> (r: &FunctionData)
        requires
            id.0 < self@.functions.len(),
        ensures
            *r == self@.functions[id.0 as int],
    {
        &self.functions[id.0]
    }

    /// Returns whether function data with the given ID is present.
    pub fn contains_function(&self, id: FunctionID) -> (r: bool)
        ensures
            r == (id.0 < self@.functions.len()),
    {
        id.0 < self.functions.len()
    }

    /// Appends function data to its arena and returns
    /// the fresh handle, equal to the arena's previous length.
    pub fn add_function(&mut self, data: FunctionData) -> (r: FunctionID)
        requires
            old(self)@.wf(),
            data.module.0 < old(self)@.modules.len(),
        ensures
            final(self)@.wf(),
            r.0 == old(self)@.functions.len(),
            final(self)@ == (DatabaseView {
                functions: old(self)@.functions.push(data),
                ..old(self)@
            }),
    {
        let id = FunctionID(self.functions.len());
        self.functions.push(data);
        proof {
            assert(self@ =~= (DatabaseView {
                functions: old(self)@.functions.push(data),
                ..old(self)@
            }));
            lemma_wf_extended(old(self)@, self@);
        }
        id
    }

    /// Returns a reference to interface data by its ID.
    pub fn interface(&self, id: InterfaceID) -> (r: &InterfaceData)
        requires
            id.0 < self@.interfaces.len(),
        ensures
            r@ == self@.interfaces[id.0 as int],
    {
        &self.interfaces[id.0]
    }

    /// Returns whether interface data with the given ID is present.
    pub fn contains_interface(&self, id: InterfaceID) -> (r: bool)
        ensures
            r == (id.0 < self@.interfaces.len()),
    {
        id.0 < self.interfaces.len()
    }

    /// Appends interface data to its arena and returns
    /// the fresh handle, equal to the arena's previous length.
    pub fn add_interface(&mut self, data: InterfaceData) -> (r: InterfaceID)
        requires
            old(self)@.wf(),
            interface_data_wf(old(self)@, data@),
        ensures
            final(self)@.wf(),
            r.0 == old(self)@.interfaces.len(),
            final(self)@ == (DatabaseView {
                interfaces: old(self)@.interfaces.push(data@),
                ..old(self)@
            }),
    {
        let id = InterfaceID(self.interfaces.len());
        self.interfaces.push(data);
        proof {
            assert(self@ =~= (DatabaseView {
                interfaces: old(self)@.interfaces.push(data@),
                ..old(self)@
            }));
            lemma_wf_extended(old(self)@, self@);
        }
        id
    }

    /// Returns a reference to predicate data by its ID.
    pub fn predicate(&self, id: PredicateID) -> (r: &PredicateData)
        requires
            id.0 < self@.predicates.len(),
        ensures
            r@ == self@.predicates[id.0 as int],
    {
        &self.predicates[id.0]
    }

    /// Returns whether predicate data with the given ID is present.
    pub fn contains_predicate(&self, id: PredicateID) -> (r: bool)
        ensures
            r == (id.0 < self@.predicates.len()),
    {
        id.0 < self.predicates.len()
    }

    /// Appends predicate data to its arena and returns
    /// the fresh handle, equal to the arena's previous length.
    pub fn add_predicate(&mut self, data: PredicateData) -> (r: PredicateID)
        requires
            old(self)@.wf(),
        ensures
            final(self)@.wf(),
            r.0 == old(self)@.predicates.len(),
            final(self)@ == (DatabaseView {
                predicates: old(self)@.predicates.push(data@),
                ..old(self)@
            }),
    {
        let id = PredicateID(self.predicates.len());
        self.predicates.push(data);
        proof {
            assert(self@ =~= (DatabaseView {
                predicates: old(self)@.predicates.push(data@),
                ..old(self)@
            }));
            lemma_wf_extended(old(self)@, self@);
        }
        id
    }

    /// Returns a reference to enum item data by its ID.
    pub fn enum_item(&self, id: EnumItemID) -> (r: &EnumItemData)
        requires
            id.0 < self@.enum_items.len(),
        ensures
            *r == self@.enum_items[id.0 as int],
    {
        &self.enum_items[id.0]
    }

    /// Returns whether enum item data with the given ID is present.
    pub fn contains_enum_item(&self, id: EnumItemID) -> (r: bool)
        ensures
            r == (id.0 < self@.enum_items.len()),
    {
        id.0 < self.enum_items.len()
    }

    /// Appends enum item data to its arena and returns
    /// the fresh handle, equal to the arena's previous length.
    pub fn add_enum_item(&mut self, data: EnumItemData) -> (r: EnumItemID)
        requires
            old(self)@.wf(),
            data.module.0 < old(self)@.modules.len(),
        ensures
            final(self)@.wf(),
            r.0 == old(self)@.enum_items.len(),
            final(self)@ == (DatabaseView {
                enum_items: old(self)@.enum_items.push(data),
                ..old(self)@
            }),
    {
        let id = EnumItemID(self.enum_items.len());
        self.enum_items.push(data);
        proof {
            assert(self@ =~= (DatabaseView {
                enum_items: old(self)@.enum_items.push(data),
                ..old(self)@
            }));
            lemma_wf_extended(old(self)@, self@);
        }
        id
    }

    /// Returns a reference to field data by its ID.
    pub fn field(&self, id: FieldID) -> (r: &FieldData)
        requires
            id.0 < self@.fields.len(),
        ensures
            r@ == self@.fields[id.0 as int],
    {
        &self.fields[id.0]
    }

    /// Returns whether field data with the given ID is present.
    pub fn contains_field(&self, id: FieldID) -> (r: bool)
        ensures
            r == (id.0 < self@.fields.len()),
    {
        id.0 < self.fields.len()
    }

    /// Appends field data to its arena and returns
    /// the fresh handle, equal to the arena's previous length.
    pub fn add_field(&mut self, data: FieldData) -> (r: FieldID)
        requires
            old(self)@.wf(),
        ensures
            final(self)@.wf(),
            r.0 == old(self)@.fields.len(),
            final(self)@ == (DatabaseView {
                fields: old(self)@.fields.push(data@),
                ..old(self)@
            }),
    {
        let id = FieldID(self.fields.len());
        self.fields.push(data);
        proof {
            assert(self@ =~= (DatabaseView {
                fields: old(self)@.fields.push(data@),
                ..old(self)@
            }));
            lemma_wf_extended(old(self)@, self@);
        }
        id
    }

    /// Returns a reference to generic parameter scope data by its ID.
    pub fn generic_parameter_scope(&self, id: GenericParameterScopeID) -> (r: &GenericParameterScopeData)
        requires
            id.0 < self@.generic_parameter_scopes.len(),
        ensures
            r@ == self@.generic_parameter_scopes[id.0 as int],
    {
        &self.generic_parameter_scopes[id.0]
    }

    /// Returns whether generic parameter scope data with the given ID is present.
    pub fn contains_generic_parameter_scope(&self, id: GenericParameterScopeID) -> (r: bool)
        ensures
            r == (id.0 < self@.generic_parameter_scopes.len()),
    {
        id.0 < self.generic_parameter_scopes.len()
    }

    /// Appends generic parameter scope data to its arena and returns
    /// the fresh handle, equal to the arena's previous length.
    pub fn add_generic_parameter_scope(&mut self, data: GenericParameterScopeData) -> (r: GenericParameterScopeID)
        requires
            old(self)@.wf(),
            scope_data_wf(old(self)@, data@),
            data@.parent_scope is Some ==> (data@.parent_scope->0).0 < old(self)@.generic_parameter_scopes.len(),
        ensures
            final(self)@.wf(),
            r.0 == old(self)@.generic_parameter_scopes.len(),
            final(self)@ == (DatabaseView {
                generic_parameter_scopes: old(self)@.generic_parameter_scopes.push(data@),
                ..old(self)@
            }),
    {
        let id = GenericParameterScopeID(self.generic_parameter_scopes.len());
        self.generic_parameter_scopes.push(data);
        proof {
            assert(self@ =~= (DatabaseView {
                generic_parameter_scopes: old(self)@.generic_parameter_scopes.push(data@),
                ..old(self)@
            }));
            lemma_wf_extended(old(self)@, self@);
        }
        id
    }

    /// Returns a reference to generic parameter data by its ID.
    pub fn generic_parameter(&self, id: GenericParameterID) -> (r: &GenericParameterData)
        requires
            id.0 < self@.generic_parameters.len(),
        ensures
            r@ == self@.generic_parameters[id.0 as int],
    {
        &self.generic_parameters[id.0]
    }

    /// Returns whether generic parameter data with the given ID is present.
    pub fn contains_generic_parameter(&self, id: GenericParameterID) -> (r: bool)
        ensures
            r == (id.0 < self@.generic_parameters.len()),
    {
        id.0 < self.generic_parameters.len()
    }

    /// Appends generic parameter data to its arena and returns
    /// the fresh handle, equal to the arena's previous length.
    pub fn add_generic_parameter(&mut self, data: GenericParameterData) -> (r: GenericParameterID)
        requires
            old(self)@.wf(),
        ensures
            final(self)@.wf(),
            r.0 == old(self)@.generic_parameters.len(),
            final(self)@ == (DatabaseView {
                generic_parameters: old(self)@.generic_parameters.push(data@),
                ..old(self)@
            }),
    {
        let id = GenericParameterID(self.generic_parameters.len());
        self.generic_parameters.push(data);
        proof {
            assert(self@ =~= (DatabaseView {
                generic_parameters: old(self)@.generic_parameters.push(data@),
                ..old(self)@
            }));
            lemma_wf_extended(old(self)@, self@);
        }
        id
    }

}


impl DatabaseView {
    /// The symbol a module's own declared-item namespace binds to a name.
    pub open spec fn module_item_symbol_spec(self, m: ModuleID, name: u64) -> Option<Symbol> {
        if self.modules[m.0 as int].module_item_symbols.contains_key(name) {
            Some(self.modules[m.0 as int].module_item_symbols[name])
        } else {
            None
        }
    }

    /// The submodule a module binds to a name.
    pub open spec fn submodule_spec(self, m: ModuleID, name: u64) -> Option<ModuleID> {
        if self.modules[m.0 as int].submodules.contains_key(name) {
            Some(self.modules[m.0 as int].submodules[name])
        } else {
            None
        }
    }

    /// General lookup of a name in a module: declared items shadow
    /// submodules of the same name; resolved imports are not consulted.
    pub open spec fn symbol_spec(self, m: ModuleID, name: u64) -> Option<Symbol> {
        match self.module_item_symbol_spec(m, name) {
            Some(s) => Some(s),
            None => match self.submodule_spec(m, name) {
                Some(sub) => Some(Symbol::Module(sub)),
                None => None,
            },
        }
    }

    /// The symbol a module's resolved-import table binds to a name.
    pub open spec fn resolved_import_spec(self, m: ModuleID, name: u64) -> Option<Symbol> {
        if self.modules[m.0 as int].resolved_imports.contains_key(name) {
            Some(self.modules[m.0 as int].resolved_imports[name])
        } else {
            None
        }
    }

    /// Innermost-first lookup of a generic parameter along a scope chain:
    /// a scope's own parameter wins over any ancestor's parameter of the
    /// same name.
    pub open spec fn resolve_param_spec(self, scope: GenericParameterScopeID, name: u64) -> Option<
        GenericParameterID,
    >
        decreases scope.0,
        when self.wf() && scope.0 < self.generic_parameter_scopes.len()
    {
        let d = self.generic_parameter_scopes[scope.0 as int];
        if d.parameters.contains_key(name) {
            Some(d.parameters[name])
        } else {
            match d.parent_scope {
                Some(p) => self.resolve_param_spec(p, name),
                None => None,
            }
        }
    }
}

/// The name of the entity a symbol denotes; a module's name carries the
/// placeholder location, since a module has no single declaration site.
pub open spec fn symbol_name_spec(v: DatabaseView, s: Symbol) -> IdentifierAst {
    match s {
        Symbol::Module(id) => IdentifierAst {
            location: Location::dummy_spec(),
            id: v.modules[id.0 as int].name,
        },
        Symbol::Enum(id) => v.enums[id.0 as int].name,
        Symbol::Struct(id) => v.structs[id.0 as int].name,
        Symbol::Function(id) => v.functions[id.0 as int].name,
        Symbol::Interface(id) => v.interfaces[id.0 as int].name,
        Symbol::TupleLikeStruct(id) => v.tuple_like_structs[id.0 as int].name,
        Symbol::TypeAlias(id) => v.type_aliases[id.0 as int].name,
        Symbol::EnumItem(id) => v.enum_items[id.0 as int].name,
    }
}

/// Replacing one module record by a well-formed one keeps the database
/// well-formed.
pub proof fn lemma_wf_update_module(a: DatabaseView, b: DatabaseView, i: int, m: ModuleDataView)
    requires
        a.wf(),
        0 <= i < a.modules.len(),
        module_data_wf(a, m),
        b == (DatabaseView { modules: a.modules.update(i, m), ..a }),
    ensures
        b.wf(),
{
    assert(a.extends_to(b));
    assert forall|j: int|
        0 <= j < b.modules.len() implies module_data_wf(b, #[trigger] b.modules[j]) by {
        if j == i {
            lemma_module_data_wf_mono(a, b, m);
        } else {
            lemma_module_data_wf_mono(a, b, a.modules[j]);
        }
    }
    assert forall|j: int| 0 <= j < b.enums.len() implies enum_data_wf(b, #[trigger] b.enums[j]) by {
        lemma_enum_data_wf_mono(a, b, a.enums[j]);
    }
    assert forall|j: int|
        0 <= j < b.structs.len() implies struct_data_wf(b, #[trigger] b.structs[j]) by {
        lemma_struct_data_wf_mono(a, b, a.structs[j]);
    }
    assert forall|j: int|
        0 <= j < b.interfaces.len() implies interface_data_wf(b, #[trigger] b.interfaces[j]) by {
        lemma_interface_data_wf_mono(a, b, a.interfaces[j]);
    }
}

/// Replacing one scope record by a well-formed one with the same parent
/// keeps the database well-formed.
pub proof fn lemma_wf_update_scope(
    a: DatabaseView,
    b: DatabaseView,
    i: int,
    d: GenericParameterScopeDataView,
)
    requires
        a.wf(),
        0 <= i < a.generic_parameter_scopes.len(),
        scope_data_wf(a, d),
        d.parent_scope == a.generic_parameter_scopes[i].parent_scope,
        b == (DatabaseView {
            generic_parameter_scopes: a.generic_parameter_scopes.update(i, d),
            ..a
        }),
    ensures
        b.wf(),
{
    assert(a.extends_to(b));
    assert forall|j: int|
        0 <= j < b.modules.len() implies module_data_wf(b, #[trigger] b.modules[j]) by {
        lemma_module_data_wf_mono(a, b, a.modules[j]);
    }
    assert forall|j: int| 0 <= j < b.enums.len() implies enum_data_wf(b, #[trigger] b.enums[j]) by {
        lemma_enum_data_wf_mono(a, b, a.enums[j]);
    }
    assert forall|j: int|
        0 <= j < b.structs.len() implies struct_data_wf(b, #[trigger] b.structs[j]) by {
        lemma_struct_data_wf_mono(a, b, a.structs[j]);
    }
    assert forall|j: int|
        0 <= j < b.interfaces.len() implies interface_data_wf(b, #[trigger] b.interfaces[j]) by {
        lemma_interface_data_wf_mono(a, b, a.interfaces[j]);
    }
}

/// Replacing one type alias record, keeping its owning module, keeps the
/// database well-formed.
pub proof fn lemma_wf_update_type_alias(
    a: DatabaseView,
    b: DatabaseView,
    i: int,
    d: TypeAliasDataView,
)
    requires
        a.wf(),
        0 <= i < a.type_aliases.len(),
        d.module.0 < a.modules.len(),
        b == (DatabaseView { type_aliases: a.type_aliases.update(i, d), ..a }),
    ensures
        b.wf(),
{
    assert(a.extends_to(b));
    assert forall|j: int|
        0 <= j < b.modules.len() implies module_data_wf(b, #[trigger] b.modules[j]) by {
        lemma_module_data_wf_mono(a, b, a.modules[j]);
    }
    assert forall|j: int| 0 <= j < b.enums.len() implies enum_data_wf(b, #[trigger] b.enums[j]) by {
        lemma_enum_data_wf_mono(a, b, a.enums[j]);
    }
    assert forall|j: int|
        0 <= j < b.structs.len() implies struct_data_wf(b, #[trigger] b.structs[j]) by {
        lemma_struct_data_wf_mono(a, b, a.structs[j]);
    }
    assert forall|j: int|
        0 <= j < b.interfaces.len() implies interface_data_wf(b, #[trigger] b.interfaces[j]) by {
        lemma_interface_data_wf_mono(a, b, a.interfaces[j]);
    }
}


impl EnumData {
    /// Creates a new enum data object with empty item, method, predicate
    /// and implements lists.
    pub fn new(visibility: Visibility, name: IdentifierAst, module: ModuleID) -> (r: Self)
        ensures
            r@ == (EnumDataView {
                visibility,
                name,
                module,
                implements: Seq::<TypeConstructorView>::empty(),
                predicates: Seq::<PredicateID>::empty(),
                items: Map::<u64, EnumItemID>::empty(),
                methods: Map::<u64, FunctionID>::empty(),
            }),
    {
        let r = EnumData {
            visibility,
            name,
            module,
            implements: Vec::new(),
            predicates: Vec::new(),
            items: NameMap::new(),
            methods: NameMap::new(),
        };
        proof {
            assert(ctors_deep(r.implements@) =~= Seq::<TypeConstructorView>::empty());
            assert(r@ =~= (EnumDataView {
                visibility,
                name,
                module,
                implements: Seq::<TypeConstructorView>::empty(),
                predicates: Seq::<PredicateID>::empty(),
                items: Map::<u64, EnumItemID>::empty(),
                methods: Map::<u64, FunctionID>::empty(),
            }));
        }
        r
    }

    /// Creates a new enum data object in the database and returns its ID.
    pub fn allocate(db: &mut Database, visibility: Visibility, name: IdentifierAst, module: ModuleID)
        -> (r: EnumID)
        requires
            old(db)@.wf(),
            module.0 < old(db)@.modules.len(),
        ensures
            final(db)@.wf(),
            r.0 == old(db)@.enums.len(),
            final(db)@ == (DatabaseView {
                enums: old(db)@.enums.push(
                    EnumDataView {
                        visibility,
                        name,
                        module,
                        implements: Seq::<TypeConstructorView>::empty(),
                        predicates: Seq::<PredicateID>::empty(),
                        items: Map::<u64, EnumItemID>::empty(),
                        methods: Map::<u64, FunctionID>::empty(),
                    },
                ),
                ..old(db)@
            }),
    {
        db.add_enum_module_item(Self::new(visibility, name, module))
    }
}

impl StructData {
    /// Creates a new struct data object with empty predicate, field and
    /// method lists.
    pub fn new(visibility: Visibility, name: IdentifierAst, module: ModuleID) -> (r: Self)
        ensures
            r@ == (StructDataView {
                visibility,
                name,
                module,
                predicates: Seq::<PredicateID>::empty(),
                fields: Map::<u64, FieldID>::empty(),
                methods: Map::<u64, FunctionID>::empty(),
            }),
    {
        StructData {
            visibility,
            name,
            module,
            predicates: Vec::new(),
            fields: NameMap::new(),
            methods: NameMap::new(),
        }
    }

    /// Creates a new struct data object in the database and returns its ID.
    pub fn allocate(db: &mut Database, visibility: Visibility, name: IdentifierAst, module: ModuleID)
        -> (r: StructID)
        requires
            old(db)@.wf(),
            module.0 < old(db)@.modules.len(),
        ensures
            final(db)@.wf(),
            r.0 == old(db)@.structs.len(),
            final(db)@ == (DatabaseView {
                structs: old(db)@.structs.push(
                    StructDataView {
                        visibility,
                        name,
                        module,
                        predicates: Seq::<PredicateID>::empty(),
                        fields: Map::<u64, FieldID>::empty(),
                        methods: Map::<u64, FunctionID>::empty(),
                    },
                ),
                ..old(db)@
            }),
    {
        db.add_struct_module_item(Self::new(visibility, name, module))
    }
}

impl TupleLikeStructData {
    /// Creates a new tuple-like struct data object with an empty field
    /// list.
    pub fn new(visibility: Visibility, name: IdentifierAst, module: ModuleID) -> (r: Self)
        ensures
            r@ == (TupleLikeStructDataView {
                visibility,
                name,
                fields: Seq::<(Visibility, TypeView)>::empty(),
                module,
            }),
    {
        let r = TupleLikeStructData { visibility, name, fields: Vec::new(), module };
        proof {
            assert(fields_deep(r.fields@) =~= Seq::<(Visibility, TypeView)>::empty());
            assert(r@ =~= (TupleLikeStructDataView {
                visibility,
                name,
                fields: Seq::<(Visibility, TypeView)>::empty(),
                module,
            }));
        }
        r
    }

    /// Creates a new tuple-like struct data object in the database and
    /// returns its ID.
    pub fn allocate(db: &mut Database, visibility: Visibility, name: IdentifierAst, module: ModuleID)
        -> (r: TupleLikeStructID)
        requires
            old(db)@.wf(),
            module.0 < old(db)@.modules.len(),
        ensures
            final(db)@.wf(),
            r.0 == old(db)@.tuple_like_structs.len(),
            final(db)@ == (DatabaseView {
                tuple_like_structs: old(db)@.tuple_like_structs.push(
                    TupleLikeStructDataView {
                        visibility,
                        name,
                        fields: Seq::<(Visibility, TypeView)>::empty(),
                        module,
                    },
                ),
                ..old(db)@
            }),
    {
        db.add_tuple_like_struct(Self::new(visibility, name, module))
    }
}

impl FieldData {
    /// Creates a new field data object.
    pub fn new(visibility: Visibility, name: IdentifierAst, ty: Type) -> (r: Self)
        ensures
            r@ == (FieldDataView { visibility, name, ty: ty.deep_view() }),
    {
        FieldData { visibility, name, ty }
    }

    /// Creates a new field data object in the database and returns its ID.
    pub fn allocate(db: &mut Database, visibility: Visibility, name: IdentifierAst, ty: Type) -> (r:
        FieldID)
        requires
            old(db)@.wf(),
        ensures
            final(db)@.wf(),
            r.0 == old(db)@.fields.len(),
            final(db)@ == (DatabaseView {
                fields: old(db)@.fields.push(
                    FieldDataView { visibility, name, ty: ty.deep_view() },
                ),
                ..old(db)@
            }),
    {
        db.add_field(Self::new(visibility, name, ty))
    }
}

impl PredicateData {
    /// Creates a new predicate data object.
    pub fn new(ty: Type, bounds: Vec<TypeConstructor>) -> (r: Self)
        ensures
            r@ == (PredicateDataView { ty: ty.deep_view(), bounds: ctors_deep(bounds@) }),
    {
        PredicateData { ty, bounds }
    }

    /// Creates a new predicate data object in the database and returns
    /// its ID.
    pub fn allocate(db: &mut Database, ty: Type, bounds: Vec<TypeConstructor>) -> (r: PredicateID)
        requires
            old(db)@.wf(),
        ensures
            final(db)@.wf(),
            r.0 == old(db)@.predicates.len(),
            final(db)@ == (DatabaseView {
                predicates: old(db)@.predicates.push(
                    PredicateDataView { ty: ty.deep_view(), bounds: ctors_deep(bounds@) },
                ),
                ..old(db)@
            }),
    {
        db.add_predicate(Self::new(ty, bounds))
    }
}

impl GenericParameterScopeData {
    /// Creates a new empty generic parameter scope under the given
    /// parent.
    pub fn new(parent_scope: Option<GenericParameterScopeID>) -> (r: Self)
        ensures
            r@ == (GenericParameterScopeDataView {
                parent_scope,
                parameters: Map::<u64, GenericParameterID>::empty(),
            }),
    {
        GenericParameterScopeData { parent_scope, parameters: NameMap::new() }
    }
}

impl EnumItemData {
    /// Creates a new enum item data object.
    pub fn new(name: IdentifierAst, module: ModuleID) -> (r: Self)
        ensures
            r == (EnumItemData { name, module }),
    {
        EnumItemData { name, module }
    }

    /// Creates a new enum item data object in the database and returns
    /// its ID.
    pub fn allocate(db: &mut Database, name: IdentifierAst, module: ModuleID) -> (r: EnumItemID)
        requires
            old(db)@.wf(),
            module.0 < old(db)@.modules.len(),
        ensures
            final(db)@.wf(),
            r.0 == old(db)@.enum_items.len(),
            final(db)@ == (DatabaseView {
                enum_items: old(db)@.enum_items.push(EnumItemData { name, module }),
                ..old(db)@
            }),
    {
        db.add_enum_item(Self::new(name, module))
    }
}

impl FunctionData {
    /// Creates a new function data object.
    pub fn new(name: IdentifierAst, visibility: Visibility, module: ModuleID) -> (r: Self)
        ensures
            r == (FunctionData { name, visibility, module }),
    {
        FunctionData { name, visibility, module }
    }

    /// Creates a new function data object in the database and returns
    /// its ID.
    pub fn allocate(db: &mut Database, name: IdentifierAst, visibility: Visibility, module: ModuleID)
        -> (r: FunctionID)
        requires
            old(db)@.wf(),
            module.0 < old(db)@.modules.len(),
        ensures
            final(db)@.wf(),
            r.0 == old(db)@.functions.len(),
            final(db)@ == (DatabaseView {
                functions: old(db)@.functions.push(FunctionData { name, visibility, module }),
                ..old(db)@
            }),
    {
        db.add_function(Self::new(name, visibility, module))
    }
}

impl InterfaceData {
    /// Creates a new interface data object with empty predicate and
    /// method lists.
    pub fn new(visibility: Visibility, name: IdentifierAst, module: ModuleID) -> (r: Self)
        ensures
            r@ == (InterfaceDataView {
                visibility,
                name,
                module,
                predicates: Seq::<PredicateID>::empty(),
                methods: Map::<u64, FunctionID>::empty(),
            }),
    {
        InterfaceData {
            visibility,
            name,
            module,
            predicates: Vec::new(),
            methods: NameMap::new(),
        }
    }

    /// Creates a new interface data object in the database and returns
    /// its ID.
    pub fn allocate(db: &mut Database, visibility: Visibility, name: IdentifierAst, module: ModuleID)
        -> (r: InterfaceID)
        requires
            old(db)@.wf(),
            module.0 < old(db)@.modules.len(),
        ensures
            final(db)@.wf(),
            r.0 == old(db)@.interfaces.len(),
            final(db)@ == (DatabaseView {
                interfaces: old(db)@.interfaces.push(
                    InterfaceDataView {
                        visibility,
                        name,
                        module,
                        predicates: Seq::<PredicateID>::empty(),
                        methods: Map::<u64, FunctionID>::empty(),
                    },
                ),
                ..old(db)@
            }),
    {
        db.add_interface(Self::new(visibility, name, module))
    }
}

impl TypeAliasData {
    /// Creates a new type alias data object whose underlying type starts
    /// out `Unknown`, pending type resolution.
    pub fn new(visibility: Visibility, name: IdentifierAst, module: ModuleID) -> (r: Self)
        ensures
            r@ == (TypeAliasDataView { visibility, name, ty: TypeView::Unknown, module }),
    {
        TypeAliasData { visibility, name, ty: Type::Unknown, module }
    }

    /// Creates a new type alias data object in the database and returns
    /// its ID.
    pub fn allocate(db: &mut Database, visibility: Visibility, name: IdentifierAst, module: ModuleID)
        -> (r: TypeAliasID)
        requires
            old(db)@.wf(),
            module.0 < old(db)@.modules.len(),
        ensures
            final(db)@.wf(),
            r.0 == old(db)@.type_aliases.len(),
            final(db)@ == (DatabaseView {
                type_aliases: old(db)@.type_aliases.push(
                    TypeAliasDataView { visibility, name, ty: TypeView::Unknown, module },
                ),
                ..old(db)@
            }),
    {
        db.add_type_alias(Self::new(visibility, name, module))
    }
}

impl ModuleData {
    /// Creates a new module data object with empty namespaces.
    pub fn new(name: u64, filepath: u64) -> (r: Self)
        ensures
            r@ == (ModuleDataView {
                name,
                filepath,
                module_item_symbols: Map::<u64, Symbol>::empty(),
                submodules: Map::<u64, ModuleID>::empty(),
                resolved_imports: Map::<u64, Symbol>::empty(),
            }),
    {
        ModuleData {
            name,
            filepath,
            module_item_symbols: NameMap::new(),
            submodules: NameMap::new(),
            resolved_imports: NameMap::new(),
        }
    }

    /// Creates a new module data object in the database and returns its
    /// ID.
    pub fn allocate(db: &mut Database, name: u64, filepath: u64) -> (r: ModuleID)
        requires
            old(db)@.wf(),
        ensures
            final(db)@.wf(),
            r.0 == old(db)@.modules.len(),
            final(db)@ == (DatabaseView {
                modules: old(db)@.modules.push(
                    ModuleDataView {
                        name,
                        filepath,
                        module_item_symbols: Map::<u64, Symbol>::empty(),
                        submodules: Map::<u64, ModuleID>::empty(),
                        resolved_imports: Map::<u64, Symbol>::empty(),
                    },
                ),
                ..old(db)@
            }),
    {
        db.add_module(Self::new(name, filepath))
    }
}


impl Symbol {
    /// Returns the name of the entity the symbol denotes. A module's
    /// name is returned with the placeholder location.
    pub fn name(self, db: &Database) -> (r: IdentifierAst)
        requires
            valid_symbol(db@, self),
        ensures
            r == symbol_name_spec(db@, self),
    {
        match self {
            Symbol::Module(id) => IdentifierAst {
                location: Location::dummy(),
                id: db.module(id).name,
            },
            Symbol::Enum(id) => id.name(db),
            Symbol::Struct(id) => id.name(db),
            Symbol::Function(id) => id.name(db),
            Symbol::Interface(id) => id.name(db),
            Symbol::TupleLikeStruct(id) => id.name(db),
            Symbol::TypeAlias(id) => id.name(db),
            Symbol::EnumItem(id) => id.name(db),
        }
    }
}

impl EnumID {
    /// Returns the name of the enum.
    pub fn name(self, db: &Database) -> (r: IdentifierAst)
        requires
            self.0 < db@.enums.len(),
        ensures
            r == db@.enums[self.0 as int].name,
    {
        db.enum_module_item(self).name
    }

    /// Returns the module the enum is defined in.
    pub fn module(self, db: &Database) -> (r: ModuleID)
        requires
            self.0 < db@.enums.len(),
        ensures
            r == db@.enums[self.0 as int].module,
    {
        db.enum_module_item(self).module
    }

    /// Returns the list of interfaces the enum declares it implements.
    pub fn implements<'a>(self, db: &'a Database) -> (r: &'a Vec<TypeConstructor>)
        requires
            self.0 < db@.enums.len(),
        ensures
            ctors_deep(r@) == db@.enums[self.0 as int].implements,
    {
        &db.enum_module_item(self).implements
    }

    /// Returns the list of predicates associated with the enum.
    pub fn predicates<'a>(self, db: &'a Database) -> (r: &'a Vec<PredicateID>)
        requires
            self.0 < db@.enums.len(),
        ensures
            r@ == db@.enums[self.0 as int].predicates,
    {
        &db.enum_module_item(self).predicates
    }

    /// Returns the enum's item map.
    pub fn items<'a>(self, db: &'a Database) -> (r: &'a NameMap<EnumItemID>)
        requires
            self.0 < db@.enums.len(),
        ensures
            r@ == db@.enums[self.0 as int].items,
    {
        &db.enum_module_item(self).items
    }

    /// Returns `true` if an item with the given name is contained in the
    /// enum definition.
    pub fn contains_item(self, db: &Database, name: u64) -> (r: bool)
        requires
            self.0 < db@.enums.len(),
        ensures
            r == db@.enums[self.0 as int].items.contains_key(name),
    {
        db.enum_module_item(self).items.contains_key(name)
    }

    /// Returns the enum's item with the given name.
    pub fn item(self, db: &Database, name: u64) -> (r: Option<EnumItemID>)
        requires
            self.0 < db@.enums.len(),
        ensures
            r == if db@.enums[self.0 as int].items.contains_key(name) {
                Some(db@.enums[self.0 as int].items[name])
            } else {
                None::<EnumItemID>
            },
    {
        db.enum_module_item(self).items.get(name)
    }
}

impl StructID {
    /// Returns the name of the struct.
    pub fn name(self, db: &Database) -> (r: IdentifierAst)
        requires
            self.0 < db@.structs.len(),
        ensures
            r == db@.structs[self.0 as int].name,
    {
        db.struct_module_item(self).name
    }

    /// Returns the module the struct is defined in.
    pub fn module(self, db: &Database) -> (r: ModuleID)
        requires
            self.0 < db@.structs.len(),
        ensures
            r == db@.structs[self.0 as int].module,
    {
        db.struct_module_item(self).module
    }

    /// Returns the list of predicates associated with the struct.
    pub fn predicates<'a>(self, db: &'a Database) -> (r: &'a Vec<PredicateID>)
        requires
            self.0 < db@.structs.len(),
        ensures
            r@ == db@.structs[self.0 as int].predicates,
    {
        &db.struct_module_item(self).predicates
    }

    /// Returns the struct's field map.
    pub fn fields<'a>(self, db: &'a Database) -> (r: &'a NameMap<FieldID>)
        requires
            self.0 < db@.structs.len(),
        ensures
            r@ == db@.structs[self.0 as int].fields,
    {
        &db.struct_module_item(self).fields
    }
}

impl TupleLikeStructID {
    /// Returns the name of the tuple-like struct.
    pub fn name(self, db: &Database) -> (r: IdentifierAst)
        requires
            self.0 < db@.tuple_like_structs.len(),
        ensures
            r == db@.tuple_like_structs[self.0 as int].name,
    {
        db.tuple_like_struct(self).name
    }
}

impl FunctionID {
    /// Returns the name of the function.
    pub fn name(self, db: &Database) -> (r: IdentifierAst)
        requires
            self.0 < db@.functions.len(),
        ensures
            r == db@.functions[self.0 as int].name,
    {
        db.function(self).name
    }
}

impl InterfaceID {
    /// Returns the name of the interface.
    pub fn name(self, db: &Database) -> (r: IdentifierAst)
        requires
            self.0 < db@.interfaces.len(),
        ensures
            r == db@.interfaces[self.0 as int].name,
    {
        db.interface(self).name
    }
}

impl TypeAliasID {
    /// Returns the name of the type alias.
    pub fn name(self, db: &Database) -> (r: IdentifierAst)
        requires
            self.0 < db@.type_aliases.len(),
        ensures
            r == db@.type_aliases[self.0 as int].name,
    {
        db.type_alias(self).name
    }
}

impl EnumItemID {
    /// Returns the name of the enum item.
    pub fn name(self, db: &Database) -> (r: IdentifierAst)
        requires
            self.0 < db@.enum_items.len(),
        ensures
            r == db@.enum_items[self.0 as int].name,
    {
        db.enum_item(self).name
    }

    /// Returns the module the enum item is defined in.
    pub fn module(self, db: &Database) -> (r: ModuleID)
        requires
            self.0 < db@.enum_items.len(),
        ensures
            r == db@.enum_items[self.0 as int].module,
    {
        db.enum_item(self).module
    }
}

impl ModuleID {
    /// Returns the module's source file path.
    pub fn filepath(self, db: &Database) -> (r: u64)
        requires
            self.0 < db@.modules.len(),
        ensures
            r == db@.modules[self.0 as int].filepath,
    {
        db.module(self).filepath
    }

    /// Returns the module's name.
    pub fn name(self, db: &Database) -> (r: u64)
        requires
            self.0 < db@.modules.len(),
        ensures
            r == db@.modules[self.0 as int].name,
    {
        db.module(self).name
    }

    /// Returns the module's declared-item namespace.
    pub fn module_item_symbols<'a>(self, db: &'a Database) -> (r: &'a NameMap<Symbol>)
        requires
            self.0 < db@.modules.len(),
        ensures
            r@ == db@.modules[self.0 as int].module_item_symbols,
    {
        &db.module(self).module_item_symbols
    }

    /// Returns the module's submodule namespace.
    pub fn submodules<'a>(self, db: &'a Database) -> (r: &'a NameMap<ModuleID>)
        requires
            self.0 < db@.modules.len(),
        ensures
            r@ == db@.modules[self.0 as int].submodules,
    {
        &db.module(self).submodules
    }

    /// Returns the module's resolved-import table.
    pub fn resolved_imports<'a>(self, db: &'a Database) -> (r: &'a NameMap<Symbol>)
        requires
            self.0 < db@.modules.len(),
        ensures
            r@ == db@.modules[self.0 as int].resolved_imports,
    {
        &db.module(self).resolved_imports
    }

    /// Resolves a name against the module's own declared items only.
    pub fn module_item_symbol(self, db: &Database, item_name: u64) -> (r: Option<Symbol>)
        requires
            self.0 < db@.modules.len(),
        ensures
            r == db@.module_item_symbol_spec(self, item_name),
    {
        db.module(self).module_item_symbols.get(item_name)
    }

    /// Resolves a name in the module: a declared item if one exists,
    /// else the submodule of that name wrapped as a module symbol.
    pub fn symbol(self, db: &Database, name: u64) -> (r: Option<Symbol>)
        requires
            self.0 < db@.modules.len(),
        ensures
            r == db@.symbol_spec(self, name),
    {
        match self.module_item_symbol(db, name) {
            Some(s) => Some(s),
            None => match self.submodule(db, name) {
                Some(sub) => Some(Symbol::Module(sub)),
                None => None,
            },
        }
    }

    /// Resolves a name in the module, for a name known to be bound.
    pub fn symbol_or_panic(self, db: &Database, name: u64) -> (r: Symbol)
        requires
            self.0 < db@.modules.len(),
            db@.symbol_spec(self, name) is Some,
        ensures
            Some(r) == db@.symbol_spec(self, name),
    {
        match self.symbol(db, name) {
            Some(s) => s,
            None => vstd::pervasive::unreached(),
        }
    }

    /// Resolves a declared item in the module, for a name known to be
    /// bound to one.
    pub fn module_item_symbol_or_panic(self, db: &Database, name: u64) -> (r: Symbol)
        requires
            self.0 < db@.modules.len(),
            db@.module_item_symbol_spec(self, name) is Some,
        ensures
            Some(r) == db@.module_item_symbol_spec(self, name),
    {
        match self.module_item_symbol(db, name) {
            Some(s) => s,
            None => vstd::pervasive::unreached(),
        }
    }

    /// Binds a declared item in the module, overwriting any existing
    /// binding of the same name.
    pub fn add_module_item(self, db: &mut Database, name: u64, symbol: Symbol)
        requires
            old(db)@.wf(),
            self.0 < old(db)@.modules.len(),
            valid_symbol(old(db)@, symbol),
        ensures
            final(db)@.wf(),
            final(db)@ == (DatabaseView {
                modules: old(db)@.modules.update(
                    self.0 as int,
                    ModuleDataView {
                        module_item_symbols: old(db)@.modules[self.0 as int].module_item_symbols
                            .insert(name, symbol),
                        ..old(db)@.modules[self.0 as int]
                    },
                ),
                ..old(db)@
            }),
    {
        let m = &mut db.modules[self.0];
        m.module_item_symbols.insert(name, symbol);
        proof {
            let target = DatabaseView {
                modules: old(db)@.modules.update(
                    self.0 as int,
                    ModuleDataView {
                        module_item_symbols: old(db)@.modules[self.0 as int].module_item_symbols
                            .insert(name, symbol),
                        ..old(db)@.modules[self.0 as int]
                    },
                ),
                ..old(db)@
            };
            assert(db@ =~= target);
            lemma_wf_update_module(
                old(db)@,
                db@,
                self.0 as int,
                target.modules[self.0 as int],
            );
        }
    }

    /// Returns `true` if the module declares an item of the given name.
    pub fn contains_module_item_symbol(self, db: &Database, item_name: u64) -> (r: bool)
        requires
            self.0 < db@.modules.len(),
        ensures
            r == db@.modules[self.0 as int].module_item_symbols.contains_key(item_name),
    {
        db.module(self).module_item_symbols.contains_key(item_name)
    }

    /// Returns the submodule of the module with the given name.
    pub fn submodule(self, db: &Database, name: u64) -> (r: Option<ModuleID>)
        requires
            self.0 < db@.modules.len(),
        ensures
            r == db@.submodule_spec(self, name),
    {
        db.module(self).submodules.get(name)
    }

    /// Binds a submodule under its own name, overwriting any existing
    /// binding of the same name.
    pub fn add_submodule(self, db: &mut Database, module: ModuleID)
        requires
            old(db)@.wf(),
            self.0 < old(db)@.modules.len(),
            module.0 < old(db)@.modules.len(),
        ensures
            final(db)@.wf(),
            final(db)@ == (DatabaseView {
                modules: old(db)@.modules.update(
                    self.0 as int,
                    ModuleDataView {
                        submodules: old(db)@.modules[self.0 as int].submodules.insert(
                            old(db)@.modules[module.0 as int].name,
                            module,
                        ),
                        ..old(db)@.modules[self.0 as int]
                    },
                ),
                ..old(db)@
            }),
    {
        let name = module.name(db);
        let m = &mut db.modules[self.0];
        m.submodules.insert(name, module);
        proof {
            let target = DatabaseView {
                modules: old(db)@.modules.update(
                    self.0 as int,
                    ModuleDataView {
                        submodules: old(db)@.modules[self.0 as int].submodules.insert(
                            old(db)@.modules[module.0 as int].name,
                            module,
                        ),
                        ..old(db)@.modules[self.0 as int]
                    },
                ),
                ..old(db)@
            };
            assert(db@ =~= target);
            lemma_wf_update_module(
                old(db)@,
                db@,
                self.0 as int,
                target.modules[self.0 as int],
            );
        }
    }

    /// Returns `true` if the module has a submodule of the given name.
    pub fn contains_submodule_with_name(self, db: &Database, name: u64) -> (r: bool)
        requires
            self.0 < db@.modules.len(),
        ensures
            r == db@.modules[self.0 as int].submodules.contains_key(name),
    {
        db.module(self).submodules.contains_key(name)
    }

    /// Returns `true` if the module has a submodule with the given ID,
    /// under any name.
    pub fn contains_submodule_with_id(self, db: &Database, id: ModuleID) -> (r: bool)
        requires
            self.0 < db@.modules.len(),
        ensures
            r == exists|k: u64|
                #[trigger] db@.modules[self.0 as int].submodules.contains_key(k) && db@.modules[
                self.0 as int].submodules[k] == id,
    {
        let entries = db.module(self).submodules.entries_vec();
        let n: usize = entries.len();
        let mut i: usize = 0;
        while i < n
            invariant
                n == entries@.len(),
                0 <= i <= n,
                forall|j: int|
                    0 <= j < entries@.len() ==> db@.modules[self.0 as int].submodules.contains_key(
                        #[trigger] entries@[j].0,
                    ) && db@.modules[self.0 as int].submodules[entries@[j].0] == entries@[j].1,
                forall|k: u64|
                    #[trigger] db@.modules[self.0 as int].submodules.contains_key(k)
                        ==> exists|j: int|
                        0 <= j < entries@.len() && entries@[j] == (
                        k,
                        db@.modules[self.0 as int].submodules[k],
                        ),
                forall|j: int| 0 <= j < i ==> (#[trigger] entries@[j]).1 != id,
            decreases n - i,
        {
            if entries[i].1 == id {
                proof {
                    assert(db@.modules[self.0 as int].submodules.contains_key(
                        entries@[i as int].0,
                    ) && db@.modules[self.0 as int].submodules[entries@[i as int].0] == id);
                }
                return true;
            }
            i += 1;
        }
        proof {
            if exists|k: u64|
                #[trigger] db@.modules[self.0 as int].submodules.contains_key(k) && db@.modules[
                self.0 as int].submodules[k] == id {
                let k = choose|k: u64|
                    #[trigger] db@.modules[self.0 as int].submodules.contains_key(k)
                        && db@.modules[self.0 as int].submodules[k] == id;
                let j = choose|j: int|
                    0 <= j < entries@.len() && entries@[j] == (
                    k,
                    db@.modules[self.0 as int].submodules[k],
                    );
                assert(entries@[j].1 == id);
            }
        }
        false
    }

    /// Binds a resolved import in the module's import table, overwriting
    /// any existing binding of the same name.
    pub fn add_resolved_import(self, db: &mut Database, name: u64, symbol: Symbol)
        requires
            old(db)@.wf(),
            self.0 < old(db)@.modules.len(),
            valid_symbol(old(db)@, symbol),
        ensures
            final(db)@.wf(),
            final(db)@ == (DatabaseView {
                modules: old(db)@.modules.update(
                    self.0 as int,
                    ModuleDataView {
                        resolved_imports: old(db)@.modules[self.0 as int].resolved_imports.insert(
                            name,
                            symbol,
                        ),
                        ..old(db)@.modules[self.0 as int]
                    },
                ),
                ..old(db)@
            }),
    {
        let m = &mut db.modules[self.0];
        m.resolved_imports.insert(name, symbol);
        proof {
            let target = DatabaseView {
                modules: old(db)@.modules.update(
                    self.0 as int,
                    ModuleDataView {
                        resolved_imports: old(db)@.modules[self.0 as int].resolved_imports.insert(
                            name,
                            symbol,
                        ),
                        ..old(db)@.modules[self.0 as int]
                    },
                ),
                ..old(db)@
            };
            assert(db@ =~= target);
            lemma_wf_update_module(
                old(db)@,
                db@,
                self.0 as int,
                target.modules[self.0 as int],
            );
        }
    }
}

impl GenericParameterScopeID {
    /// Returns the scope's parent scope.
    pub fn parent_scope(self, db: &Database) -> (r: Option<GenericParameterScopeID>)
        requires
            self.0 < db@.generic_parameter_scopes.len(),
        ensures
            r == db@.generic_parameter_scopes[self.0 as int].parent_scope,
    {
        db.generic_parameter_scope(self).parent_scope
    }

    /// Returns the map of generic parameters declared in the scope
    /// itself.
    pub fn parameters<'a>(self, db: &'a Database) -> (r: &'a NameMap<GenericParameterID>)
        requires
            self.0 < db@.generic_parameter_scopes.len(),
        ensures
            r@ == db@.generic_parameter_scopes[self.0 as int].parameters,
    {
        &db.generic_parameter_scope(self).parameters
    }

    /// Adds a generic parameter to this scope only; an ancestor's
    /// parameter of the same name is silently shadowed, never checked
    /// against.
    pub fn add_generic_parameter(
        self,
        db: &mut Database,
        parameter_name: u64,
        parameter: GenericParameterID,
    )
        requires
            old(db)@.wf(),
            self.0 < old(db)@.generic_parameter_scopes.len(),
            parameter.0 < old(db)@.generic_parameters.len(),
        ensures
            final(db)@.wf(),
            final(db)@ == (DatabaseView {
                generic_parameter_scopes: old(db)@.generic_parameter_scopes.update(
                    self.0 as int,
                    GenericParameterScopeDataView {
                        parameters: old(db)@.generic_parameter_scopes[self.0 as int].parameters
                            .insert(parameter_name, parameter),
                        ..old(db)@.generic_parameter_scopes[self.0 as int]
                    },
                ),
                ..old(db)@
            }),
    {
        let d = &mut db.generic_parameter_scopes[self.0];
        d.parameters.insert(parameter_name, parameter);
        proof {
            let target = DatabaseView {
                generic_parameter_scopes: old(db)@.generic_parameter_scopes.update(
                    self.0 as int,
                    GenericParameterScopeDataView {
                        parameters: old(db)@.generic_parameter_scopes[self.0 as int].parameters
                            .insert(parameter_name, parameter),
                        ..old(db)@.generic_parameter_scopes[self.0 as int]
                    },
                ),
                ..old(db)@
            };
            assert(db@ =~= target);
            lemma_wf_update_scope(
                old(db)@,
                db@,
                self.0 as int,
                target.generic_parameter_scopes[self.0 as int],
            );
        }
    }

    /// Resolves a generic parameter: this scope's own binding if any,
    /// else the parent chain's, innermost first.
    pub fn resolve(&self, db: &Database, parameter_name: u64) -> (r: Option<GenericParameterID>)
        requires
            db@.wf(),
            self.0 < db@.generic_parameter_scopes.len(),
        ensures
            r == db@.resolve_param_spec(*self, parameter_name),
        decreases self.0,
    {
        if let Some(parameter_id) = db.generic_parameter_scope(*self).parameters.get(
            parameter_name,
        ) {
            Some(parameter_id)
        } else if let Some(parent_scope_id) = db.generic_parameter_scope(*self).parent_scope {
            proof {
                assert(db@.generic_parameter_scopes[self.0 as int].parent_scope == Some(
                    parent_scope_id,
                ));
            }
            parent_scope_id.resolve(db, parameter_name)
        } else {
            None
        }
    }

    /// Returns `true` if the parameter is declared in the scope or in
    /// any of its ancestors.
    pub fn contains(&self, db: &Database, parameter_name: u64) -> (r: bool)
        requires
            db@.wf(),
            self.0 < db@.generic_parameter_scopes.len(),
        ensures
            r == (db@.resolve_param_spec(*self, parameter_name) is Some),
        decreases self.0,
    {
        if db.generic_parameter_scope(*self).parameters.contains_key(parameter_name) {
            true
        } else if let Some(parent_scope_id) = db.generic_parameter_scope(*self).parent_scope {
            proof {
                assert(db@.generic_parameter_scopes[self.0 as int].parent_scope == Some(
                    parent_scope_id,
                ));
            }
            parent_scope_id.contains(db, parameter_name)
        } else {
            false
        }
    }
}

impl Database {
    /// Memoizes a type alias's resolved underlying type in place.
    pub fn set_type_alias_ty(&mut self, id: TypeAliasID, ty: Type)
        requires
            old(self)@.wf(),
            id.0 < old(self)@.type_aliases.len(),
        ensures
            final(self)@.wf(),
            final(self)@ == (DatabaseView {
                type_aliases: old(self)@.type_aliases.update(
                    id.0 as int,
                    TypeAliasDataView {
                        ty: ty.deep_view(),
                        ..old(self)@.type_aliases[id.0 as int]
                    },
                ),
                ..old(self)@
            }),
    {
        let a = &mut self.type_aliases[id.0];
        a.ty = ty;
        proof {
            let target = DatabaseView {
                type_aliases: old(self)@.type_aliases.update(
                    id.0 as int,
                    TypeAliasDataView {
                        ty: ty.deep_view(),
                        ..old(self)@.type_aliases[id.0 as int]
                    },
                ),
                ..old(self)@
            };
            assert(self@ =~= target);
            lemma_wf_update_type_alias(
                old(self)@,
                self@,
                id.0 as int,
                target.type_aliases[id.0 as int],
            );
        }
    }
}


impl DatabaseView {
    /// The parent chain starting at `from` passes through `to`
    /// (inclusively).
    pub open spec fn chain_reaches(
        self,
        from: GenericParameterScopeID,
        to: GenericParameterScopeID,
    ) -> bool
        decreases from.0,
        when self.wf() && from.0 < self.generic_parameter_scopes.len()
    {
        from == to || match self.generic_parameter_scopes[from.0 as int].parent_scope {
            Some(p) => self.chain_reaches(p, to),
            None => false,
        }
    }
}

/// A scope reached along a parent chain is itself a valid scope, no
/// deeper than the chain's start.
pub proof fn lemma_chain_reaches_valid(
    v: DatabaseView,
    from: GenericParameterScopeID,
    to: GenericParameterScopeID,
)
    requires
        v.wf(),
        from.0 < v.generic_parameter_scopes.len(),
        v.chain_reaches(from, to),
    ensures
        to.0 <= from.0,
        to.0 < v.generic_parameter_scopes.len(),
    decreases from.0,
{
    if from != to {
        let p = v.generic_parameter_scopes[from.0 as int].parent_scope->0;
        lemma_chain_reaches_valid(v, p, to);
    }
}

/// Scope-chain shadowing: if a scope `mid` on `leaf`'s parent chain
/// declares `name`, and no scope on the chain from `leaf` up to but
/// excluding `mid` declares it, then resolution from `leaf` yields
/// `mid`'s binding — even when an outer scope above `mid`, such as the
/// chain's root, declares a parameter of the same name. The innermost
/// declaration always wins.
pub proof fn lemma_scope_chain_shadowing(
    v: DatabaseView,
    leaf: GenericParameterScopeID,
    mid: GenericParameterScopeID,
    name: u64,
)
    requires
        v.wf(),
        leaf.0 < v.generic_parameter_scopes.len(),
        v.chain_reaches(leaf, mid),
        v.generic_parameter_scopes[mid.0 as int].parameters.contains_key(name),
        forall|s: GenericParameterScopeID|
            #[trigger] v.chain_reaches(leaf, s) && v.chain_reaches(s, mid) && s != mid
                ==> !v.generic_parameter_scopes[s.0 as int].parameters.contains_key(name),
    ensures
        v.resolve_param_spec(leaf, name) == Some(
            v.generic_parameter_scopes[mid.0 as int].parameters[name],
        ),
    decreases leaf.0,
{
    lemma_chain_reaches_valid(v, leaf, mid);
    if leaf == mid {
    } else {
        assert(v.chain_reaches(leaf, leaf));
        assert(!v.generic_parameter_scopes[leaf.0 as int].parameters.contains_key(name));
        let p = v.generic_parameter_scopes[leaf.0 as int].parent_scope->0;
        assert forall|s: GenericParameterScopeID|
            #[trigger] v.chain_reaches(p, s) && v.chain_reaches(s, mid) && s != mid implies !v
            .generic_parameter_scopes[s.0 as int].parameters.contains_key(name) by {
            assert(v.chain_reaches(leaf, s));
        }
        lemma_scope_chain_shadowing(v, p, mid, name);
    }
}


impl ModuleID {
    /// Returns a mutable reference to the module's declared-item
    /// namespace. What the caller writes through it must keep every
    /// stored handle valid if later operations are to rely on the
    /// database's well-formedness.
    pub fn module_item_symbols_mut<'a>(self, db: &'a mut Database) -> (r: &'a mut NameMap<Symbol>)
        requires
            self.0 < old(db)@.modules.len(),
        ensures
            (*r)@ == old(db)@.modules[self.0 as int].module_item_symbols,
            final(db)@ == (DatabaseView {
                modules: old(db)@.modules.update(
                    self.0 as int,
                    ModuleDataView {
                        module_item_symbols: (*final(r))@,
                        ..old(db)@.modules[self.0 as int]
                    },
                ),
                ..old(db)@
            }),
    {
        &mut db.modules[self.0].module_item_symbols
    }

    /// Returns a mutable reference to the module's submodule namespace.
    pub fn submodules_mut<'a>(self, db: &'a mut Database) -> (r: &'a mut NameMap<ModuleID>)
        requires
            self.0 < old(db)@.modules.len(),
        ensures
            (*r)@ == old(db)@.modules[self.0 as int].submodules,
            final(db)@ == (DatabaseView {
                modules: old(db)@.modules.update(
                    self.0 as int,
                    ModuleDataView {
                        submodules: (*final(r))@,
                        ..old(db)@.modules[self.0 as int]
                    },
                ),
                ..old(db)@
            }),
    {
        &mut db.modules[self.0].submodules
    }

    /// Returns a mutable reference to the module's resolved-import
    /// table.
    pub fn resolved_imports_mut<'a>(self, db: &'a mut Database) -> (r: &'a mut NameMap<Symbol>)
        requires
            self.0 < old(db)@.modules.len(),
        ensures
            (*r)@ == old(db)@.modules[self.0 as int].resolved_imports,
            final(db)@ == (DatabaseView {
                modules: old(db)@.modules.update(
                    self.0 as int,
                    ModuleDataView {
                        resolved_imports: (*final(r))@,
                        ..old(db)@.modules[self.0 as int]
                    },
                ),
                ..old(db)@
            }),
    {
        &mut db.modules[self.0].resolved_imports
    }
}

impl Database {
    /// Returns a mutable reference to module data by
    /// its ID. What the caller writes through it must keep every stored
    /// handle valid if later operations are to rely on the database's
    /// well-formedness.
    pub fn module_mut(&mut self, id: ModuleID) -> (r: &mut ModuleData)
        requires
            id.0 < old(self)@.modules.len(),
        ensures
            (*r)@ == old(self)@.modules[id.0 as int],
            final(self)@ == (DatabaseView {
                modules: old(self)@.modules.update(id.0 as int, (*final(r))@),
                ..old(self)@
            }),
    {
        &mut self.modules[id.0]
    }

    /// Returns a mutable reference to enum module item data by
    /// its ID. What the caller writes through it must keep every stored
    /// handle valid if later operations are to rely on the database's
    /// well-formedness.
    pub fn enum_module_item_mut(&mut self, id: EnumID) -> (r: &mut EnumData)
        requires
            id.0 < old(self)@.enums.len(),
        ensures
            (*r)@ == old(self)@.enums[id.0 as int],
            final(self)@ == (DatabaseView {
                enums: old(self)@.enums.update(id.0 as int, (*final(r))@),
                ..old(self)@
            }),
    {
        &mut self.enums[id.0]
    }

    /// Returns a mutable reference to struct module item data by
    /// its ID. What the caller writes through it must keep every stored
    /// handle valid if later operations are to rely on the database's
    /// well-formedness.
    pub fn struct_module_item_mut(&mut self, id: StructID) -> (r: &mut StructData)
        requires
            id.0 < old(self)@.structs.len(),
        ensures
            (*r)@ == old(self)@.structs[id.0 as int],
            final(self)@ == (DatabaseView {
                structs: old(self)@.structs.update(id.0 as int, (*final(r))@),
                ..old(self)@
            }),
    {
        &mut self.structs[id.0]
    }

    /// Returns a mutable reference to tuple like struct data by
    /// its ID. What the caller writes through it must keep every stored
    /// handle valid if later operations are to rely on the database's
    /// well-formedness.
    pub fn tuple_like_struct_mut(&mut self, id: TupleLikeStructID) -> (r: &mut TupleLikeStructData)
        requires
            id.0 < old(self)@.tuple_like_structs.len(),
        ensures
            (*r)@ == old(self)@.tuple_like_structs[id.0 as int],
            final(self)@ == (DatabaseView {
                tuple_like_structs: old(self)@.tuple_like_structs.update(id.0 as int, (*final(r))@),
                ..old(self)@
            }),
    {
        &mut self.tuple_like_structs[id.0]
    }

    /// Returns a mutable reference to type alias data by
    /// its ID. What the caller writes through it must keep every stored
    /// handle valid if later operations are to rely on the database's
    /// well-formedness.
    pub fn type_alias_mut(&mut self, id: TypeAliasID) -> (r: &mut TypeAliasData)
        requires
            id.0 < old(self)@.type_aliases.len(),
        ensures
            (*r)@ == old(self)@.type_aliases[id.0 as int],
            final(self)@ == (DatabaseView {
                type_aliases: old(self)@.type_aliases.update(id.0 as int, (*final(r))@),
                ..old(self)@
            }),
    {
        &mut self.type_aliases[id.0]
    }

    /// Returns a mutable reference to function data by
    /// its ID. What the caller writes through it must keep every stored
    /// handle valid if later operations are to rely on the database's
    /// well-formedness.
    pub fn function_mut(&mut self, id: FunctionID) -> (r: &mut FunctionData)
        requires
            id.0 < old(self)@.functions.len(),
        ensures
            *r == old(self)@.functions[id.0 as int],
            final(self)@ == (DatabaseView {
                functions: old(self)@.functions.update(id.0 as int, *final(r)),
                ..old(self)@
            }),
    {
        &mut self.functions[id.0]
    }

    /// Returns a mutable reference to interface data by
    /// its ID. What the caller writes through it must keep every stored
    /// handle valid if later operations are to rely on the database's
    /// well-formedness.
    pub fn interface_mut(&mut self, id: InterfaceID) -> (r: &mut InterfaceData)
        requires
            id.0 < old(self)@.interfaces.len(),
        ensures
            (*r)@ == old(self)@.interfaces[id.0 as int],
            final(self)@ == (DatabaseView {
                interfaces: old(self)@.interfaces.update(id.0 as int, (*final(r))@),
                ..old(self)@
            }),
    {
        &mut self.interfaces[id.0]
    }

    /// Returns a mutable reference to predicate data by
    /// its ID. What the caller writes through it must keep every stored
    /// handle valid if later operations are to rely on the database's
    /// well-formedness.
    pub fn predicate_mut(&mut self, id: PredicateID) -> (r: &mut PredicateData)
        requires
            id.0 < old(self)@.predicates.len(),
        ensures
            (*r)@ == old(self)@.predicates[id.0 as int],
            final(self)@ == (DatabaseView {
                predicates: old(self)@.predicates.update(id.0 as int, (*final(r))@),
                ..old(self)@
            }),
    {
        &mut self.predicates[id.0]
    }

    /// Returns a mutable reference to enum item data by
    /// its ID. What the caller writes through it must keep every stored
    /// handle valid if later operations are to rely on the database's
    /// well-formedness.
    pub fn enum_item_mut(&mut self, id: EnumItemID) -> (r: &mut EnumItemData)
        requires
            id.0 < old(self)@.enum_items.len(),
        ensures
            *r == old(self)@.enum_items[id.0 as int],
            final(self)@ == (DatabaseView {
                enum_items: old(self)@.enum_items.update(id.0 as int, *final(r)),
                ..old(self)@
            }),
    {
        &mut self.enum_items[id.0]
    }

    /// Returns a mutable reference to field data by
    /// its ID. What the caller writes through it must keep every stored
    /// handle valid if later operations are to rely on the database's
    /// well-formedness.
    pub fn field_mut(&mut self, id: FieldID) -> (r: &mut FieldData)
        requires
            id.0 < old(self)@.fields.len(),
        ensures
            (*r)@ == old(self)@.fields[id.0 as int],
            final(self)@ == (DatabaseView {
                fields: old(self)@.fields.update(id.0 as int, (*final(r))@),
                ..old(self)@
            }),
    {
        &mut self.fields[id.0]
    }

    /// Returns a mutable reference to generic parameter scope data by
    /// its ID. What the caller writes through it must keep every stored
    /// handle valid if later operations are to rely on the database's
    /// well-formedness.
    pub fn generic_parameter_scope_mut(&mut self, id: GenericParameterScopeID) -> (r: &mut GenericParameterScopeData)
        requires
            id.0 < old(self)@.generic_parameter_scopes.len(),
        ensures
            (*r)@ == old(self)@.generic_parameter_scopes[id.0 as int],
            final(self)@ == (DatabaseView {
                generic_parameter_scopes: old(self)@.generic_parameter_scopes.update(id.0 as int, (*final(r))@),
                ..old(self)@
            }),
    {
        &mut self.generic_parameter_scopes[id.0]
    }

    /// Returns a mutable reference to generic parameter data by
    /// its ID. What the caller writes through it must keep every stored
    /// handle valid if later operations are to rely on the database's
    /// well-formedness.
    pub fn generic_parameter_mut(&mut self, id: GenericParameterID) -> (r: &mut GenericParameterData)
        requires
            id.0 < old(self)@.generic_parameters.len(),
        ensures
            (*r)@ == old(self)@.generic_parameters[id.0 as int],
            final(self)@ == (DatabaseView {
                generic_parameters: old(self)@.generic_parameters.update(id.0 as int, (*final(r))@),
                ..old(self)@
            }),
    {
        &mut self.generic_parameters[id.0]
    }

}

} // verus!
