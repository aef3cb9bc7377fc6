//! Typed handles for every entity kind the database stores, and the
//! tagged [`Symbol`] union over them.
//!
//! A handle is an opaque index into its kind's arena. Handles of
//! different kinds are never interchangeable, and a handle is never
//! reused or invalidated for the lifetime of its database.

use vstd::prelude::*;

verus! {

/// A unique ID that maps to a module's data.
#[derive(Debug, Clone, Copy, PartialEq, Eq, Structural)]
pub struct ModuleID(pub usize);

/// A unique ID that maps to an enum's data.
#[derive(Debug, Clone, Copy, PartialEq, Eq, Structural)]
pub struct EnumID(pub usize);

/// A unique ID that maps to a struct's data.
#[derive(Debug, Clone, Copy, PartialEq, Eq, Structural)]
pub struct StructID(pub usize);

/// A unique ID that maps to a tuple-like struct's data.
#[derive(Debug, Clone, Copy, PartialEq, Eq, Structural)]
pub struct TupleLikeStructID(pub usize);

/// A unique ID that maps to a function's data.
#[derive(Debug, Clone, Copy, PartialEq, Eq, Structural)]
pub struct FunctionID(pub usize);

/// A unique ID that maps to an interface's data.
#[derive(Debug, Clone, Copy, PartialEq, Eq, Structural)]
pub struct InterfaceID(pub usize);

/// A unique ID that maps to a type alias's data.
#[derive(Debug, Clone, Copy, PartialEq, Eq, Structural)]
pub struct TypeAliasID(pub usize);

/// A unique ID that maps to an enum item's data.
#[derive(Debug, Clone, Copy, PartialEq, Eq, Structural)]
pub struct EnumItemID(pub usize);

/// A unique ID that maps to a field's data.
#[derive(Debug, Clone, Copy, PartialEq, Eq, Structural)]
pub struct FieldID(pub usize);

/// A unique ID that maps to a predicate's data.
#[derive(Debug, Clone, Copy, PartialEq, Eq, Structural)]
pub struct PredicateID(pub usize);

/// A unique ID that maps to a generic parameter scope's data.
#[derive(Debug, Clone, Copy, PartialEq, Eq, Structural)]
pub struct GenericParameterScopeID(pub usize);

/// A unique ID that maps to a generic parameter's data.
#[derive(Debug, Clone, Copy, PartialEq, Eq, Structural)]
pub struct GenericParameterID(pub usize);

/// A symbol's unique ID: one declared entity of a specific kind.
#[derive(Debug, Clone, Copy, PartialEq, Eq, Structural)]
pub enum Symbol {
    /// A module.
    Module(ModuleID),
    /// An enum.
    Enum(EnumID),
    /// A struct.
    Struct(StructID),
    /// A function.
    Function(FunctionID),
    /// An interface.
    Interface(InterfaceID),
    /// A tuple-like struct.
    TupleLikeStruct(TupleLikeStructID),
    /// A type alias.
    TypeAlias(TypeAliasID),
    /// An enum item.
    EnumItem(EnumItemID),
}

impl Symbol {
    /// Returns `true` if the symbol is a module.
    pub fn is_module(&self) -> (r: bool)
        ensures
            r == (self is Module),
    {
        matches!(self, Symbol::Module(_))
    }

    /// Returns `true` if the symbol is an enum.
    pub fn is_enum(&self) -> (r: bool)
        ensures
            r == (self is Enum),
    {
        matches!(self, Symbol::Enum(_))
    }

    /// Returns `true` if the symbol is a struct.
    pub fn is_struct(&self) -> (r: bool)
        ensures
            r == (self is Struct),
    {
        matches!(self, Symbol::Struct(_))
    }

    /// Returns `true` if the symbol is a function.
    pub fn is_function(&self) -> (r: bool)
        ensures
            r == (self is Function),
    {
        matches!(self, Symbol::Function(_))
    }

    /// Returns `true` if the symbol is an interface.
    pub fn is_interface(&self) -> (r: bool)
        ensures
            r == (self is Interface),
    {
        matches!(self, Symbol::Interface(_))
    }

    /// Returns `true` if the symbol is a tuple-like struct.
    pub fn is_tuple_like_struct(&self) -> (r: bool)
        ensures
            r == (self is TupleLikeStruct),
    {
        matches!(self, Symbol::TupleLikeStruct(_))
    }

    /// Returns `true` if the symbol is a type alias.
    pub fn is_type_alias(&self) -> (r: bool)
        ensures
            r == (self is TypeAlias),
    {
        matches!(self, Symbol::TypeAlias(_))
    }

    /// Returns `true` if the symbol is an enum item.
    pub fn is_enum_item(&self) -> (r: bool)
        ensures
            r == (self is EnumItem),
    {
        matches!(self, Symbol::EnumItem(_))
    }

    /// Returns the module ID if the symbol is a module.
    pub fn to_module(self) -> (r: Option<ModuleID>)
        ensures
            r == if self is Module {
                Some(self->Module_0)
            } else {
                None::<ModuleID>
            },
    {
        match self {
            Symbol::Module(id) => Some(id),
            _ => None,
        }
    }

    /// Returns the enum ID if the symbol is an enum.
    pub fn to_enum(self) -> (r: Option<EnumID>)
        ensures
            r == if self is Enum {
                Some(self->Enum_0)
            } else {
                None::<EnumID>
            },
    {
        match self {
            Symbol::Enum(id) => Some(id),
            _ => None,
        }
    }

    /// Returns the struct ID if the symbol is a struct.
    pub fn to_struct(self) -> (r: Option<StructID>)
        ensures
            r == if self is Struct {
                Some(self->Struct_0)
            } else {
                None::<StructID>
            },
    {
        match self {
            Symbol::Struct(id) => Some(id),
            _ => None,
        }
    }

    /// Returns the function ID if the symbol is a function.
    pub fn to_function(self) -> (r: Option<FunctionID>)
        ensures
            r == if self is Function {
                Some(self->Function_0)
            } else {
                None::<FunctionID>
            },
    {
        match self {
            Symbol::Function(id) => Some(id),
            _ => None,
        }
    }

    /// Returns the interface ID if the symbol is an interface.
    pub fn to_interface(self) -> (r: Option<InterfaceID>)
        ensures
            r == if self is Interface {
                Some(self->Interface_0)
            } else {
                None::<InterfaceID>
            },
    {
        match self {
            Symbol::Interface(id) => Some(id),
            _ => None,
        }
    }

    /// Returns the tuple-like struct ID if the symbol is a tuple-like struct.
    pub fn to_tuple_like_struct(self) -> (r: Option<TupleLikeStructID>)
        ensures
            r == if self is TupleLikeStruct {
                Some(self->TupleLikeStruct_0)
            } else {
                None::<TupleLikeStructID>
            },
    {
        match self {
            Symbol::TupleLikeStruct(id) => Some(id),
            _ => None,
        }
    }

    /// Returns the type alias ID if the symbol is a type alias.
    pub fn to_type_alias(self) -> (r: Option<TypeAliasID>)
        ensures
            r == if self is TypeAlias {
                Some(self->TypeAlias_0)
            } else {
                None::<TypeAliasID>
            },
    {
        match self {
            Symbol::TypeAlias(id) => Some(id),
            _ => None,
        }
    }

    /// Returns the enum item ID if the symbol is an enum item.
    pub fn to_enum_item(self) -> (r: Option<EnumItemID>)
        ensures
            r == if self is EnumItem {
                Some(self->EnumItem_0)
            } else {
                None::<EnumItemID>
            },
    {
        match self {
            Symbol::EnumItem(id) => Some(id),
            _ => None,
        }
    }

    /// Returns the module ID of a symbol known to be a module.
    pub fn to_module_or_panic(self) -> (r: ModuleID)
        requires
            self is Module,
        ensures
            r == self->Module_0,
    {
        match self {
            Symbol::Module(id) => id,
            _ => vstd::pervasive::unreached(),
        }
    }

    /// Returns the enum ID of a symbol known to be an enum.
    pub fn to_enum_or_panic(self) -> (r: EnumID)
        requires
            self is Enum,
        ensures
            r == self->Enum_0,
    {
        match self {
            Symbol::Enum(id) => id,
            _ => vstd::pervasive::unreached(),
        }
    }

    /// Returns the interface ID of a symbol known to be an interface.
    pub fn to_interface_or_panic(self) -> (r: InterfaceID)
        requires
            self is Interface,
        ensures
            r == self->Interface_0,
    {
        match self {
            Symbol::Interface(id) => id,
            _ => vstd::pervasive::unreached(),
        }
    }
}


/// The kind of entity a symbol denotes, for reporting.
#[derive(Debug, Clone, Copy, PartialEq, Eq, Structural)]
pub enum SymbolKind {
    Module,
    Enum,
    Struct,
    Function,
    Interface,
    TupleLikeStruct,
    TypeAlias,
    EnumItem,
}

impl Symbol {
    /// The kind of entity the symbol denotes.
    pub open spec fn kind_spec(self) -> SymbolKind {
        match self {
            Symbol::Module(_) => SymbolKind::Module,
            Symbol::Enum(_) => SymbolKind::Enum,
            Symbol::Struct(_) => SymbolKind::Struct,
            Symbol::Function(_) => SymbolKind::Function,
            Symbol::Interface(_) => SymbolKind::Interface,
            Symbol::TupleLikeStruct(_) => SymbolKind::TupleLikeStruct,
            Symbol::TypeAlias(_) => SymbolKind::TypeAlias,
            Symbol::EnumItem(_) => SymbolKind::EnumItem,
        }
    }

    /// Returns the kind of entity the symbol denotes.
    pub fn kind(self) -> (r: SymbolKind)
        ensures
            r == self.kind_spec(),
    {
        match self {
            Symbol::Module(_) => SymbolKind::Module,
            Symbol::Enum(_) => SymbolKind::Enum,
            Symbol::Struct(_) => SymbolKind::Struct,
            Symbol::Function(_) => SymbolKind::Function,
            Symbol::Interface(_) => SymbolKind::Interface,
            Symbol::TupleLikeStruct(_) => SymbolKind::TupleLikeStruct,
            Symbol::TypeAlias(_) => SymbolKind::TypeAlias,
            Symbol::EnumItem(_) => SymbolKind::EnumItem,
        }
    }

    /// Whether the symbol names a module item that can stand as a type:
    /// an enum, a struct, a tuple-like struct, an interface or a type
    /// alias — not a module, a function or an enum item.
    pub open spec fn is_type_item_spec(self) -> bool {
        match self {
            Symbol::Enum(_) => true,
            Symbol::Struct(_) => true,
            Symbol::TupleLikeStruct(_) => true,
            Symbol::Interface(_) => true,
            Symbol::TypeAlias(_) => true,
            _ => false,
        }
    }

    /// Returns whether the symbol names a type-level module item.
    pub fn is_type_item(self) -> (r: bool)
        ensures
            r == self.is_type_item_spec(),
    {
        match self {
            Symbol::Enum(_) => true,
            Symbol::Struct(_) => true,
            Symbol::TupleLikeStruct(_) => true,
            Symbol::Interface(_) => true,
            Symbol::TypeAlias(_) => true,
            _ => false,
        }
    }
}


impl Symbol {
    /// Returns the struct ID of a symbol known to be a struct.
    pub fn to_struct_or_panic(self) -> (r: StructID)
        requires
            self is Struct,
        ensures
            r == self->Struct_0,
    {
        match self {
            Symbol::Struct(id) => id,
            _ => vstd::pervasive::unreached(),
        }
    }

    /// Returns the function ID of a symbol known to be a function.
    pub fn to_function_or_panic(self) -> (r: FunctionID)
        requires
            self is Function,
        ensures
            r == self->Function_0,
    {
        match self {
            Symbol::Function(id) => id,
            _ => vstd::pervasive::unreached(),
        }
    }

    /// Returns the tuple-like struct ID of a symbol known to be a
    /// tuple-like struct.
    pub fn to_tuple_like_struct_or_panic(self) -> (r: TupleLikeStructID)
        requires
            self is TupleLikeStruct,
        ensures
            r == self->TupleLikeStruct_0,
    {
        match self {
            Symbol::TupleLikeStruct(id) => id,
            _ => vstd::pervasive::unreached(),
        }
    }

    /// Returns the type alias ID of a symbol known to be a type alias.
    pub fn to_type_alias_or_panic(self) -> (r: TypeAliasID)
        requires
            self is TypeAlias,
        ensures
            r == self->TypeAlias_0,
    {
        match self {
            Symbol::TypeAlias(id) => id,
            _ => vstd::pervasive::unreached(),
        }
    }

    /// Returns the enum item ID of a symbol known to be an enum item.
    pub fn to_enum_item_or_panic(self) -> (r: EnumItemID)
        requires
            self is EnumItem,
        ensures
            r == self->EnumItem_0,
    {
        match self {
            Symbol::EnumItem(id) => id,
            _ => vstd::pervasive::unreached(),
        }
    }
}

} // verus!
