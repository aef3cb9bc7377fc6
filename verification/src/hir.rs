//! The lowered form of a module that the semantic core ingests: one
//! declaration list per module, each declaration carrying the names,
//! locations, visibilities and syntactic type expressions the core needs
//! to allocate entities and later resolve types.

use vstd::prelude::*;

use crate::symbol::ModuleID;
use crate::{IdentifierAst, Location, Visibility};

verus! {

/// A dotted path as written in source: identifiers with their locations.
#[derive(Debug)]
pub struct PathAst {
    /// Location of the whole path.
    pub location: Location,
    /// The path's segments, in source order. Never empty in well-formed
    /// input.
    pub identifiers: Vec<IdentifierAst>,
}

/// Specification-level view of [`PathAst`].
#[verifier::ext_equal]
pub struct PathAstView {
    pub location: Location,
    pub identifiers: Seq<IdentifierAst>,
}

impl View for PathAst {
    type V = PathAstView;

    open spec fn view(&self) -> PathAstView {
        PathAstView { location: self.location, identifiers: self.identifiers@ }
    }
}

/// An `import` declaration: the imported path and its optional alias.
#[derive(Debug)]
pub struct ImportPath {
    pub path: PathAst,
    /// The binding name given after `as`, if any.
    pub alias: Option<IdentifierAst>,
}

/// Specification-level view of [`ImportPath`].
#[verifier::ext_equal]
pub struct ImportPathView {
    pub path: PathAstView,
    pub alias: Option<IdentifierAst>,
}

impl View for ImportPath {
    type V = ImportPathView;

    open spec fn view(&self) -> ImportPathView {
        ImportPathView { path: self.path@, alias: self.alias }
    }
}

/// Specification-level mirror of [`TypeConstructorExpression`].
#[verifier::ext_equal]
pub struct TypeConstructorExpressionView {
    pub location: Location,
    pub path: PathAstView,
    pub arguments: Seq<TypeExpressionView>,
}

/// Specification-level mirror of [`TypeExpression`].
#[verifier::ext_equal]
pub enum TypeExpressionView {
    Constructor(TypeConstructorExpressionView),
    Tuple { location: Location, element_types: Seq<TypeExpressionView> },
    Function {
        location: Location,
        parameter_types: Seq<TypeExpressionView>,
        return_type: Box<TypeExpressionView>,
    },
    InterfaceObject { location: Location, bounds: Seq<TypeConstructorExpressionView> },
}

/// A syntactic type-constructor application: a path and its arguments.
#[derive(Debug)]
pub struct TypeConstructorExpression {
    pub location: Location,
    pub path: PathAst,
    pub arguments: Vec<TypeExpression>,
}

/// A syntactic type expression, before resolution.
#[derive(Debug)]
pub enum TypeExpression {
    /// A nominal type application or a bare generic-parameter name.
    Constructor(TypeConstructorExpression),
    /// A tuple of element types.
    Tuple { location: Location, element_types: Vec<TypeExpression> },
    /// A function type.
    Function {
        location: Location,
        parameter_types: Vec<TypeExpression>,
        return_type: Box<TypeExpression>,
    },
    /// An anonymous set of interface bounds.
    InterfaceObject { location: Location, bounds: Vec<TypeConstructorExpression> },
}

/// Views of a sequence of type expressions.
pub open spec fn type_exprs_deep(s: Seq<TypeExpression>) -> Seq<TypeExpressionView>
    decreases s,
{
    if s.len() == 0 {
        Seq::<TypeExpressionView>::empty()
    } else {
        type_exprs_deep(s.drop_last()).push(s.last().deep_view())
    }
}

/// Views of a sequence of type-constructor expressions.
pub open spec fn ctor_exprs_deep(s: Seq<TypeConstructorExpression>) -> Seq<
    TypeConstructorExpressionView,
>
    decreases s,
{
    if s.len() == 0 {
        Seq::<TypeConstructorExpressionView>::empty()
    } else {
        ctor_exprs_deep(s.drop_last()).push(s.last().deep_view())
    }
}

impl DeepView for TypeConstructorExpression {
    type V = TypeConstructorExpressionView;

    open spec fn deep_view(&self) -> TypeConstructorExpressionView
        decreases self,
    {
        TypeConstructorExpressionView {
            location: self.location,
            path: self.path@,
            arguments: type_exprs_deep(self.arguments@),
        }
    }
}

impl DeepView for TypeExpression {
    type V = TypeExpressionView;

    open spec fn deep_view(&self) -> TypeExpressionView
        decreases self,
    {
        match self {
            TypeExpression::Constructor(c) => TypeExpressionView::Constructor(c.deep_view()),
            TypeExpression::Tuple { location, element_types } => TypeExpressionView::Tuple {
                location: *location,
                element_types: type_exprs_deep(element_types@),
            },
            TypeExpression::Function { location, parameter_types, return_type } => {
                TypeExpressionView::Function {
                    location: *location,
                    parameter_types: type_exprs_deep(parameter_types@),
                    return_type: Box::new((**return_type).deep_view()),
                }
            },
            TypeExpression::InterfaceObject { location, bounds } => {
                TypeExpressionView::InterfaceObject {
                    location: *location,
                    bounds: ctor_exprs_deep(bounds@),
                }
            },
        }
    }
}

/// A lowered enum declaration.
#[derive(Debug)]
pub struct Enum {
    pub visibility: Visibility,
    pub name: IdentifierAst,
    pub items: Vec<EnumItem>,
}

/// A lowered enum item: only its name matters to definition collection.
#[derive(Debug, Clone, Copy, PartialEq, Eq, Structural)]
pub struct EnumItem {
    pub name: IdentifierAst,
}

impl EnumItem {
    /// Returns the item's name.
    pub fn name(&self) -> (r: IdentifierAst)
        ensures
            r == self.name,
    {
        self.name
    }
}

/// A lowered function signature: what the core reads of a function.
#[derive(Debug, Clone, Copy, PartialEq, Eq, Structural)]
pub struct FunctionSignature {
    pub visibility: Visibility,
    pub name: IdentifierAst,
}

/// A lowered function declaration.
#[derive(Debug, Clone, Copy, PartialEq, Eq, Structural)]
pub struct Function {
    pub signature: FunctionSignature,
}

/// A lowered struct declaration.
#[derive(Debug, Clone, Copy, PartialEq, Eq, Structural)]
pub struct Struct {
    pub visibility: Visibility,
    pub name: IdentifierAst,
}

/// A lowered interface declaration.
#[derive(Debug, Clone, Copy, PartialEq, Eq, Structural)]
pub struct Interface {
    pub visibility: Visibility,
    pub name: IdentifierAst,
}

/// A lowered tuple-like struct declaration.
#[derive(Debug, Clone, Copy, PartialEq, Eq, Structural)]
pub struct TupleLikeStruct {
    pub visibility: Visibility,
    pub name: IdentifierAst,
}

/// A lowered type alias declaration, with the aliased syntactic type.
#[derive(Debug)]
pub struct TypeAlias {
    pub visibility: Visibility,
    pub name: IdentifierAst,
    pub value: TypeExpression,
}

/// One lowered declaration of a module.
#[derive(Debug)]
pub enum ModuleItem {
    Enum(Enum),
    Function(Function),
    Struct(Struct),
    Interface(Interface),
    TupleLikeStruct(TupleLikeStruct),
    TypeAlias(TypeAlias),
    Import(ImportPath),
}

/// Specification-level view of a lowered enum declaration.
#[verifier::ext_equal]
pub struct EnumView {
    pub visibility: Visibility,
    pub name: IdentifierAst,
    pub items: Seq<EnumItem>,
}

impl View for Enum {
    type V = EnumView;

    open spec fn view(&self) -> EnumView {
        EnumView { visibility: self.visibility, name: self.name, items: self.items@ }
    }
}

/// Specification-level view of a lowered type alias declaration.
#[verifier::ext_equal]
pub struct TypeAliasItemView {
    pub visibility: Visibility,
    pub name: IdentifierAst,
    pub value: TypeExpressionView,
}

impl View for TypeAlias {
    type V = TypeAliasItemView;

    open spec fn view(&self) -> TypeAliasItemView {
        TypeAliasItemView {
            visibility: self.visibility,
            name: self.name,
            value: self.value.deep_view(),
        }
    }
}

/// Specification-level view of [`ModuleItem`].
#[verifier::ext_equal]
pub enum ModuleItemView {
    Enum(EnumView),
    Function(Function),
    Struct(Struct),
    Interface(Interface),
    TupleLikeStruct(TupleLikeStruct),
    TypeAlias(TypeAliasItemView),
    Import(ImportPathView),
}

impl View for ModuleItem {
    type V = ModuleItemView;

    open spec fn view(&self) -> ModuleItemView {
        match self {
            ModuleItem::Enum(e) => ModuleItemView::Enum(e@),
            ModuleItem::Function(f) => ModuleItemView::Function(*f),
            ModuleItem::Struct(s) => ModuleItemView::Struct(*s),
            ModuleItem::Interface(i) => ModuleItemView::Interface(*i),
            ModuleItem::TupleLikeStruct(s) => ModuleItemView::TupleLikeStruct(*s),
            ModuleItem::TypeAlias(a) => ModuleItemView::TypeAlias(a@),
            ModuleItem::Import(p) => ModuleItemView::Import(p@),
        }
    }
}

/// A lowered module: its declarations, in source order.
#[derive(Debug)]
pub struct Module {
    pub items: Vec<ModuleItem>,
}

/// Specification-level view of [`Module`].
#[verifier::ext_equal]
pub struct ModuleHirView {
    pub items: Seq<ModuleItemView>,
}

impl View for Module {
    type V = ModuleHirView;

    open spec fn view(&self) -> ModuleHirView {
        ModuleHirView { items: Seq::new(self.items@.len(), |i: int| self.items@[i]@) }
    }
}

/// A lowered module tagged with the handle the database allocated for
/// it.
#[derive(Debug)]
pub struct LoweredModule {
    module: ModuleID,
    hir: Module,
}

impl LoweredModule {
    /// Pairs a module handle with its lowered declarations.
    pub fn new(module: ModuleID, hir: Module) -> (r: Self)
        ensures
            r.module_spec() == module,
            r.hir_spec() == hir@,
    {
        LoweredModule { module, hir }
    }

    /// The module's handle.
    pub closed spec fn module_spec(&self) -> ModuleID {
        self.module
    }

    /// The module's lowered declarations.
    pub closed spec fn hir_spec(&self) -> ModuleHirView {
        self.hir@
    }

    /// Returns the module's handle.
    pub fn module(&self) -> (r: ModuleID)
        ensures
            r == self.module_spec(),
    {
        self.module
    }

    /// Returns the module's lowered declarations.
    pub fn hir(&self) -> (r: &Module)
        ensures
            r@ == self.hir_spec(),
    {
        &self.hir
    }
}


/// The module handles and declaration lists of a sequence of lowered
/// modules.
pub open spec fn lowered_views(ms: Seq<LoweredModule>) -> Seq<(ModuleID, ModuleHirView)> {
    Seq::new(ms.len(), |i: int| (ms[i].module_spec(), ms[i].hir_spec()))
}


/// A syntactic type expression is well-formed when every constructor
/// path in it is non-empty, as the grammar guarantees.
pub open spec fn type_expr_wf(ty: TypeExpressionView) -> bool
    decreases ty,
{
    match ty {
        TypeExpressionView::Constructor(c) => ctor_expr_wf(c),
        TypeExpressionView::Tuple { element_types, .. } => type_exprs_wf(element_types),
        TypeExpressionView::Function { parameter_types, return_type, .. } => type_exprs_wf(
            parameter_types,
        ) && type_expr_wf(*return_type),
        TypeExpressionView::InterfaceObject { bounds, .. } => ctor_exprs_wf(bounds),
    }
}

/// Well-formedness of a sequence of type expressions.
pub open spec fn type_exprs_wf(s: Seq<TypeExpressionView>) -> bool
    decreases s,
{
    forall|i: int| 0 <= i < s.len() ==> type_expr_wf(#[trigger] s[i])
}

/// Well-formedness of a type-constructor expression: a non-empty path
/// and well-formed arguments.
pub open spec fn ctor_expr_wf(c: TypeConstructorExpressionView) -> bool
    decreases c,
{
    c.path.identifiers.len() > 0 && type_exprs_wf(c.arguments)
}

/// Well-formedness of a sequence of type-constructor expressions.
pub open spec fn ctor_exprs_wf(s: Seq<TypeConstructorExpressionView>) -> bool
    decreases s,
{
    forall|i: int| 0 <= i < s.len() ==> ctor_expr_wf(#[trigger] s[i])
}


/// Length and elementwise value of a viewed expression sequence.
proof fn lemma_type_exprs_deep_props_rec(s: Seq<TypeExpression>)
    ensures
        type_exprs_deep(s).len() == s.len(),
        forall|i: int| 0 <= i < s.len() ==> type_exprs_deep(s)[i] == #[trigger] s[i].deep_view(),
    decreases s.len(),
{
    if s.len() > 0 {
        lemma_type_exprs_deep_props_rec(s.drop_last());
        assert(type_exprs_deep(s) == type_exprs_deep(s.drop_last()).push(s.last().deep_view()));
        assert forall|i: int| 0 <= i < s.len() implies type_exprs_deep(s)[i] == #[trigger] s[
        i].deep_view() by {
            if i < s.len() - 1 {
                assert(s.drop_last()[i] == s[i]);
                assert(type_exprs_deep(s)[i] == type_exprs_deep(s.drop_last())[i]);
            }
        }
    } else {
        assert(type_exprs_deep(s) == Seq::<TypeExpressionView>::empty());
    }
}

pub broadcast proof fn lemma_type_exprs_deep_props(s: Seq<TypeExpression>)
    ensures
        (#[trigger] type_exprs_deep(s)).len() == s.len(),
        forall|i: int| 0 <= i < s.len() ==> type_exprs_deep(s)[i] == #[trigger] s[i].deep_view(),
{
    lemma_type_exprs_deep_props_rec(s);
}

/// Length and elementwise value of a viewed constructor-expression
/// sequence.
proof fn lemma_ctor_exprs_deep_props_rec(s: Seq<TypeConstructorExpression>)
    ensures
        ctor_exprs_deep(s).len() == s.len(),
        forall|i: int| 0 <= i < s.len() ==> ctor_exprs_deep(s)[i] == #[trigger] s[i].deep_view(),
    decreases s.len(),
{
    if s.len() > 0 {
        lemma_ctor_exprs_deep_props_rec(s.drop_last());
        assert(ctor_exprs_deep(s) == ctor_exprs_deep(s.drop_last()).push(s.last().deep_view()));
        assert forall|i: int| 0 <= i < s.len() implies ctor_exprs_deep(s)[i] == #[trigger] s[
        i].deep_view() by {
            if i < s.len() - 1 {
                assert(s.drop_last()[i] == s[i]);
                assert(ctor_exprs_deep(s)[i] == ctor_exprs_deep(s.drop_last())[i]);
            }
        }
    } else {
        assert(ctor_exprs_deep(s) == Seq::<TypeConstructorExpressionView>::empty());
    }
}

pub broadcast proof fn lemma_ctor_exprs_deep_props(s: Seq<TypeConstructorExpression>)
    ensures
        (#[trigger] ctor_exprs_deep(s)).len() == s.len(),
        forall|i: int| 0 <= i < s.len() ==> ctor_exprs_deep(s)[i] == #[trigger] s[i].deep_view(),
{
    lemma_ctor_exprs_deep_props_rec(s);
}








/// Definitional unfolding of a constructor expression's view.
pub broadcast proof fn lemma_ctor_expr_deep_view(c: TypeConstructorExpression)
    ensures
        (#[trigger] c.deep_view()) == (TypeConstructorExpressionView {
            location: c.location,
            path: c.path@,
            arguments: type_exprs_deep(c.arguments@),
        }),
{
}

/// Definitional unfolding of a type expression's view.
pub broadcast proof fn lemma_type_expr_deep_view(e: TypeExpression)
    ensures
        (#[trigger] e.deep_view()) == (match e {
            TypeExpression::Constructor(c) => TypeExpressionView::Constructor(c.deep_view()),
            TypeExpression::Tuple { location, element_types } => TypeExpressionView::Tuple {
                location: location,
                element_types: type_exprs_deep(element_types@),
            },
            TypeExpression::Function { location, parameter_types, return_type } => {
                TypeExpressionView::Function {
                    location: location,
                    parameter_types: type_exprs_deep(parameter_types@),
                    return_type: Box::new(return_type.deep_view()),
                }
            },
            TypeExpression::InterfaceObject { location, bounds } => {
                TypeExpressionView::InterfaceObject {
                    location: location,
                    bounds: ctor_exprs_deep(bounds@),
                }
            },
        }),
{
}

} // verus!
