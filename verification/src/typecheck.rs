//! The type resolver and the context driving phases two and three:
//! import resolution over all collected modules, and the conversion of
//! syntactic type expressions into the semantic type graph — honouring
//! generic-parameter scopes, interface bounds and cross-module paths —
//! with a type alias's underlying type memoized on first resolution.

use vstd::prelude::*;

use crate::database::{opt_type_deep, Database, DatabaseView, TypeAliasDataView};
use crate::diagnostics::{
    expected_interface_diag_spec, expected_type_diag_spec, path_not_found_diag_spec,
    DiagnosticView, Diagnostics, ExpectedInterface, ExpectedType,
};
use crate::hir::{
    ctor_expr_wf, ctor_exprs_wf, lowered_views, type_expr_wf, type_exprs_wf, LoweredModule,
    ModuleHirView, TypeConstructorExpression, TypeConstructorExpressionView, TypeExpression,
    TypeExpressionView,
};
use crate::resolve::{imports_wf, process_imports_spec, resolve_module_imports,
    resolve_relative_ids, resolve_relative_path};
use crate::symbol::{GenericParameterScopeID, ModuleID, Symbol, TypeAliasID};
use crate::ty::{
    types_deep, Type, TypeConstructor, TypeConstructorView, TypePath, TypeView,
};
use crate::IdentifierAst;

verus! {

broadcast use crate::hir::lemma_type_exprs_deep_props, crate::hir::lemma_ctor_exprs_deep_props,
    crate::hir::lemma_type_expr_deep_view, crate::hir::lemma_ctor_expr_deep_view,
    crate::ty::lemma_types_deep_props, crate::ty::lemma_ctors_deep_props,
    crate::ty::lemma_type_deep_view, crate::ty::lemma_ctor_deep_view;


/// The interned identifiers of a path's segments.
pub open spec fn path_ids(path: Seq<IdentifierAst>) -> Seq<u64> {
    Seq::new(path.len(), |i: int| path[i].id)
}

/// Whether a scope chain — or no scope at all — resolves a name.
pub open spec fn scope_resolves(
    v: DatabaseView,
    scope: Option<GenericParameterScopeID>,
    name: u64,
) -> bool {
    match scope {
        Some(s) => v.resolve_param_spec(s, name) is Some,
        None => false,
    }
}

/// The result and diagnostics of resolving one syntactic type
/// expression against the database, a generic scope chain and an
/// enclosing module. The database itself is never changed.
pub open spec fn resolve_type_full_spec(
    v: DatabaseView,
    ds: Seq<(u64, DiagnosticView)>,
    scope: Option<GenericParameterScopeID>,
    m: ModuleID,
    ty: TypeExpressionView,
) -> (Option<TypeView>, Seq<(u64, DiagnosticView)>)
    decreases ty, 0int,
{
    match ty {
        TypeExpressionView::Constructor(c) => {
            let r = resolve_ctor_full_spec(v, ds, scope, m, c);
            match r.0 {
                Some(c2) => (Some(TypeView::Constructor(c2)), r.1),
                None => (None, r.1),
            }
        },
        TypeExpressionView::Tuple { element_types, .. } => {
            let r = resolve_types_from_spec(v, ds, scope, m, element_types, 0);
            match r.0 {
                Some(ts) => (Some(TypeView::Tuple { element_types: ts }), r.1),
                None => (None, r.1),
            }
        },
        TypeExpressionView::Function { parameter_types, return_type, .. } => {
            let ps = resolve_types_from_spec(v, ds, scope, m, parameter_types, 0);
            match ps.0 {
                None => (None, ps.1),
                Some(ts) => {
                    let rt = resolve_type_full_spec(v, ps.1, scope, m, *return_type);
                    match rt.0 {
                        None => (None, rt.1),
                        Some(t) => (
                            Some(
                                TypeView::Function {
                                    parameter_types: ts,
                                    return_type: Box::new(t),
                                },
                            ),
                            rt.1,
                        ),
                    }
                },
            }
        },
        TypeExpressionView::InterfaceObject { bounds, .. } => {
            let bs = resolve_bounds_from_spec(v, ds, scope, m, bounds, 0);
            if bs.0.len() == 0 {
                (None, bs.1)
            } else {
                (Some(TypeView::InterfaceObject { bounds: bs.0 }), bs.1)
            }
        },
    }
}

/// The results and diagnostics of resolving the type expressions
/// `s[i..]` in order, stopping at the first failure.
pub open spec fn resolve_types_from_spec(
    v: DatabaseView,
    ds: Seq<(u64, DiagnosticView)>,
    scope: Option<GenericParameterScopeID>,
    m: ModuleID,
    s: Seq<TypeExpressionView>,
    i: int,
) -> (Option<Seq<TypeView>>, Seq<(u64, DiagnosticView)>)
    decreases s, s.len() - i,
{
    if i < 0 || i >= s.len() {
        (Some(Seq::<TypeView>::empty()), ds)
    } else {
        let head = resolve_type_full_spec(v, ds, scope, m, s[i]);
        match head.0 {
            None => (None, head.1),
            Some(t) => {
                let rest = resolve_types_from_spec(v, head.1, scope, m, s, i + 1);
                match rest.0 {
                    None => (None, rest.1),
                    Some(ts) => (Some(seq![t] + ts), rest.1),
                }
            },
        }
    }
}

/// The result and diagnostics of resolving one type-constructor
/// expression. A bare single-segment, zero-argument path that names a
/// generic parameter in the active scope chain becomes a
/// generic-parameter reference, bypassing path resolution entirely;
/// otherwise the path is resolved relative to the module, the symbol
/// must name a type-level item, and the arguments are resolved in
/// order.
pub open spec fn resolve_ctor_full_spec(
    v: DatabaseView,
    ds: Seq<(u64, DiagnosticView)>,
    scope: Option<GenericParameterScopeID>,
    m: ModuleID,
    c: TypeConstructorExpressionView,
) -> (Option<TypeConstructorView>, Seq<(u64, DiagnosticView)>)
    decreases c, 0int,
{
    if c.path.identifiers.len() == 1 && c.arguments.len() == 0 && scope_resolves(
        v,
        scope,
        c.path.identifiers[0].id,
    ) {
        (
            Some(
                TypeConstructorView {
                    path: seq![c.path.identifiers[0].id],
                    arguments: Seq::<TypeView>::empty(),
                },
            ),
            ds,
        )
    } else {
        match v.resolve_relative_path_spec(m, c.path.identifiers) {
            None => (
                None,
                ds.push(
                    (
                        v.relative_fail_loc_spec(m, c.path.identifiers).filepath,
                        path_not_found_diag_spec(v.relative_fail_loc_spec(m, c.path.identifiers)),
                    ),
                ),
            ),
            Some(sym) => {
                if !sym.is_type_item_spec() {
                    (
                        None,
                        ds.push(
                            (
                                c.location.filepath,
                                expected_type_diag_spec(c.location, sym.kind_spec()),
                            ),
                        ),
                    )
                } else {
                    let args = resolve_types_from_spec(v, ds, scope, m, c.arguments, 0);
                    match args.0 {
                        None => (None, args.1),
                        Some(ts) => (
                            Some(
                                TypeConstructorView {
                                    path: path_ids(c.path.identifiers),
                                    arguments: ts,
                                },
                            ),
                            args.1,
                        ),
                    }
                }
            },
        }
    }
}

/// The result and diagnostics of resolving an interface constructor:
/// the path must resolve and must name an interface — mirroring the
/// expected-type semantics — then the type arguments are resolved.
pub open spec fn resolve_interface_full_spec(
    v: DatabaseView,
    ds: Seq<(u64, DiagnosticView)>,
    scope: Option<GenericParameterScopeID>,
    m: ModuleID,
    c: TypeConstructorExpressionView,
) -> (Option<TypeConstructorView>, Seq<(u64, DiagnosticView)>)
    decreases c, 1int,
{
    match v.resolve_relative_path_spec(m, c.path.identifiers) {
        None => (
            None,
            ds.push(
                (
                    v.relative_fail_loc_spec(m, c.path.identifiers).filepath,
                    path_not_found_diag_spec(v.relative_fail_loc_spec(m, c.path.identifiers)),
                ),
            ),
        ),
        Some(sym) => {
            if !(sym is Interface) {
                (
                    None,
                    ds.push(
                        (
                            c.location.filepath,
                            expected_interface_diag_spec(c.location, sym.kind_spec()),
                        ),
                    ),
                )
            } else {
                let args = resolve_types_from_spec(v, ds, scope, m, c.arguments, 0);
                match args.0 {
                    None => (None, args.1),
                    Some(ts) => (
                        Some(
                            TypeConstructorView {
                                path: path_ids(c.path.identifiers),
                                arguments: ts,
                            },
                        ),
                        args.1,
                    ),
                }
            }
        },
    }
}

/// The resolved bounds and diagnostics of the bound expressions
/// `s[i..]`: each bound is resolved as an interface constructor; bounds
/// that fail are dropped from the list, never failing the set as a
/// whole.
pub open spec fn resolve_bounds_from_spec(
    v: DatabaseView,
    ds: Seq<(u64, DiagnosticView)>,
    scope: Option<GenericParameterScopeID>,
    m: ModuleID,
    s: Seq<TypeConstructorExpressionView>,
    i: int,
) -> (Seq<TypeConstructorView>, Seq<(u64, DiagnosticView)>)
    decreases s, s.len() - i,
{
    if i < 0 || i >= s.len() {
        (Seq::<TypeConstructorView>::empty(), ds)
    } else {
        let head = resolve_interface_full_spec(v, ds, scope, m, s[i]);
        let rest = resolve_bounds_from_spec(v, head.1, scope, m, s, i + 1);
        match head.0 {
            Some(c) => (seq![c] + rest.0, rest.1),
            None => rest,
        }
    }
}

/// A type the resolver actually returns is never the `Unknown`
/// placeholder: every success constructs a real type.
pub proof fn lemma_resolved_type_not_unknown(
    v: DatabaseView,
    ds: Seq<(u64, DiagnosticView)>,
    scope: Option<GenericParameterScopeID>,
    m: ModuleID,
    ty: TypeExpressionView,
)
    ensures
        resolve_type_full_spec(v, ds, scope, m, ty).0 matches Some(t) ==> !(t is Unknown),
{
}

/// Whether a semantic type implements a target interface constructor:
/// only a nominal constructor type can, by naming — from the given
/// module — an enum whose declared implements list holds an entry
/// structurally equal to the target. Non-constructor types implement
/// nothing in this minimal model.
pub open spec fn implements_spec(
    v: DatabaseView,
    m: ModuleID,
    ty: TypeView,
    target: TypeConstructorView,
) -> bool {
    match ty {
        TypeView::Constructor(c) => match v.resolve_relative_ids_spec(m, c.path) {
            Some(Symbol::Enum(id)) => exists|i: int|
                0 <= i < v.enums[id.0 as int].implements.len() && v.enums[id.0 as int].implements[i]
                    == target,
            _ => false,
        },
        _ => false,
    }
}


/// Copies a syntactic path's interned identifiers.
fn path_ids_vec(path: &crate::hir::PathAst) -> (r: Vec<u64>)
    ensures
        r@ == path_ids(path@.identifiers),
{
    let n: usize = path.identifiers.len();
    let mut ids: Vec<u64> = Vec::new();
    let mut i: usize = 0;
    while i < n
        invariant
            n == path@.identifiers.len(),
            0 <= i <= n,
            ids@.len() == i,
            forall|j: int| 0 <= j < i ==> #[trigger] ids@[j] == path@.identifiers[j].id,
        decreases n - i,
    {
        ids.push(path.identifiers[i].id);
        i += 1;
    }
    proof {
        assert(ids@ =~= path_ids(path@.identifiers));
    }
    ids
}

/// Resolves one syntactic type expression: a recursive descent over
/// the expression, using the scope chain for bare generic names and
/// path resolution for nominal paths.
fn resolve_type_inner(
    db: &Database,
    diagnostics: &mut Diagnostics,
    scope: Option<GenericParameterScopeID>,
    module: ModuleID,
    ty: &TypeExpression,
) -> (r: Option<Type>)
    requires
        db@.wf(),
        module.0 < db@.modules.len(),
        scope matches Some(s) ==> s.0 < db@.generic_parameter_scopes.len(),
        type_expr_wf(ty.deep_view()),
    ensures
        ({
            let spec = resolve_type_full_spec(
                db@,
                old(diagnostics)@,
                scope,
                module,
                ty.deep_view(),
            );
            &&& opt_type_deep(r) == spec.0
            &&& final(diagnostics)@ == spec.1
        }),
    decreases ty, 0int,
{
    match ty {
        TypeExpression::Constructor(c) => {
            match resolve_ctor_inner(db, diagnostics, scope, module, c) {
                Some(c2) => Some(Type::Constructor(c2)),
                None => None,
            }
        },
        TypeExpression::Tuple { element_types, .. } => {
            match resolve_types_from_inner(db, diagnostics, scope, module, element_types, 0) {
                Some(ts) => {
                    let r = Type::Tuple { element_types: ts };
                    Some(r)
                },
                None => None,
            }
        },
        TypeExpression::Function { parameter_types, return_type, .. } => {
            match resolve_types_from_inner(db, diagnostics, scope, module, parameter_types, 0) {
                None => None,
                Some(ts) => {
                    match resolve_type_inner(db, diagnostics, scope, module, &**return_type) {
                        None => None,
                        Some(t) => Some(
                            Type::Function { parameter_types: ts, return_type: Box::new(t) },
                        ),
                    }
                },
            }
        },
        TypeExpression::InterfaceObject { bounds, .. } => {
            let bs = resolve_bounds_from_inner(db, diagnostics, scope, module, bounds, 0);
            if bs.len() == 0 {
                None
            } else {
                Some(Type::InterfaceObject { bounds: bs })
            }
        },
    }
}

/// Resolves the type expressions `s[i..]` in order, stopping at the
/// first failure.
fn resolve_types_from_inner(
    db: &Database,
    diagnostics: &mut Diagnostics,
    scope: Option<GenericParameterScopeID>,
    module: ModuleID,
    s: &Vec<TypeExpression>,
    i: usize,
) -> (r: Option<Vec<Type>>)
    requires
        db@.wf(),
        module.0 < db@.modules.len(),
        scope matches Some(sc) ==> sc.0 < db@.generic_parameter_scopes.len(),
        type_exprs_wf(crate::hir::type_exprs_deep(s@)),
    ensures
        ({
            let spec = resolve_types_from_spec(
                db@,
                old(diagnostics)@,
                scope,
                module,
                crate::hir::type_exprs_deep(s@),
                i as int,
            );
            &&& (match r {
                Some(ts) => Some(types_deep(ts@)),
                None => None::<Seq<TypeView>>,
            }) == spec.0
            &&& final(diagnostics)@ == spec.1
        }),
    decreases s, s@.len() - i,
{
    if i >= s.len() {
        let r: Vec<Type> = Vec::new();
        proof {
            assert(types_deep(r@) =~= Seq::<TypeView>::empty());
        }
        Some(r)
    } else {
        proof {
            assert(crate::hir::type_exprs_deep(s@)[i as int] == s@[i as int].deep_view());
        }
        match resolve_type_inner(db, diagnostics, scope, module, &s[i]) {
            None => None,
            Some(t) => {
                match resolve_types_from_inner(db, diagnostics, scope, module, s, i + 1) {
                    None => None,
                    Some(mut ts) => {
                        let ghost tail = types_deep(ts@);
                        ts.insert(0, t);
                        proof {
                            assert(types_deep(ts@) =~= seq![t.deep_view()] + tail);
                        }
                        Some(ts)
                    },
                }
            },
        }
    }
}

/// Resolves one type-constructor expression: the generic scope chain
/// first — a bare in-scope name always wins over any module item of
/// the same name — then path resolution, a type-level-item check, and
/// the arguments.
fn resolve_ctor_inner(
    db: &Database,
    diagnostics: &mut Diagnostics,
    scope: Option<GenericParameterScopeID>,
    module: ModuleID,
    c: &TypeConstructorExpression,
) -> (r: Option<TypeConstructor>)
    requires
        db@.wf(),
        module.0 < db@.modules.len(),
        scope matches Some(sc) ==> sc.0 < db@.generic_parameter_scopes.len(),
        ctor_expr_wf(c.deep_view()),
    ensures
        ({
            let spec = resolve_ctor_full_spec(
                db@,
                old(diagnostics)@,
                scope,
                module,
                c.deep_view(),
            );
            &&& (match r {
                Some(c2) => Some(c2.deep_view()),
                None => None::<TypeConstructorView>,
            }) == spec.0
            &&& final(diagnostics)@ == spec.1
        }),
    decreases c, 0int,
{
    if c.path.identifiers.len() == 1 && c.arguments.len() == 0 {
        let name = c.path.identifiers[0].id;
        let in_scope = match scope {
            Some(s) => s.contains(db, name),
            None => false,
        };
        if in_scope {
            let mut ids: Vec<u64> = Vec::new();
            ids.push(name);
            let r = TypeConstructor {
                path: TypePath { identifiers: ids },
                arguments: Vec::new(),
            };
            proof {
                let target = TypeConstructorView {
                    path: seq![c.deep_view().path.identifiers[0].id],
                    arguments: Seq::<TypeView>::empty(),
                };
                assert(r.deep_view().path =~= target.path);
                assert(r.deep_view().arguments =~= target.arguments);
                assert(r.deep_view() =~= target);
            }
            return Some(r);
        }
    }
    match resolve_relative_path(db, module, &c.path, diagnostics) {
        None => None,
        Some(sym) => {
            if !sym.is_type_item() {
                let d = ExpectedType { location: c.location, found_kind: sym.kind() };
                diagnostics.add_single_file_diagnostic(c.location.filepath, d.build());
                None
            } else {
                match resolve_types_from_inner(db, diagnostics, scope, module, &c.arguments, 0) {
                    None => None,
                    Some(ts) => {
                        let r = TypeConstructor {
                            path: TypePath { identifiers: path_ids_vec(&c.path) },
                            arguments: ts,
                        };
                        proof {
                            assert(r.deep_view() =~= (TypeConstructorView {
                                path: path_ids(c.deep_view().path.identifiers),
                                arguments: types_deep(r.arguments@),
                            }));
                        }
                        Some(r)
                    },
                }
            }
        },
    }
}

/// Resolves an interface constructor: the path must name an interface,
/// else the failure mirrors the expected-type semantics; then the type
/// arguments are resolved.
fn resolve_interface_inner(
    db: &Database,
    diagnostics: &mut Diagnostics,
    scope: Option<GenericParameterScopeID>,
    module: ModuleID,
    c: &TypeConstructorExpression,
) -> (r: Option<TypeConstructor>)
    requires
        db@.wf(),
        module.0 < db@.modules.len(),
        scope matches Some(sc) ==> sc.0 < db@.generic_parameter_scopes.len(),
        ctor_expr_wf(c.deep_view()),
    ensures
        ({
            let spec = resolve_interface_full_spec(
                db@,
                old(diagnostics)@,
                scope,
                module,
                c.deep_view(),
            );
            &&& (match r {
                Some(c2) => Some(c2.deep_view()),
                None => None::<TypeConstructorView>,
            }) == spec.0
            &&& final(diagnostics)@ == spec.1
        }),
    decreases c, 1int,
{
    match resolve_relative_path(db, module, &c.path, diagnostics) {
        None => None,
        Some(sym) => {
            if !sym.is_interface() {
                let d = ExpectedInterface { location: c.location, found_kind: sym.kind() };
                diagnostics.add_single_file_diagnostic(c.location.filepath, d.build());
                None
            } else {
                match resolve_types_from_inner(db, diagnostics, scope, module, &c.arguments, 0) {
                    None => None,
                    Some(ts) => {
                        let r = TypeConstructor {
                            path: TypePath { identifiers: path_ids_vec(&c.path) },
                            arguments: ts,
                        };
                        proof {
                            assert(r.deep_view() =~= (TypeConstructorView {
                                path: path_ids(c.deep_view().path.identifiers),
                                arguments: types_deep(r.arguments@),
                            }));
                        }
                        Some(r)
                    },
                }
            }
        },
    }
}

/// Resolves the bound expressions `s[i..]` as interface constructors;
/// bounds that fail to resolve are dropped from the list.
fn resolve_bounds_from_inner(
    db: &Database,
    diagnostics: &mut Diagnostics,
    scope: Option<GenericParameterScopeID>,
    module: ModuleID,
    s: &Vec<TypeConstructorExpression>,
    i: usize,
) -> (r: Vec<TypeConstructor>)
    requires
        db@.wf(),
        module.0 < db@.modules.len(),
        scope matches Some(sc) ==> sc.0 < db@.generic_parameter_scopes.len(),
        ctor_exprs_wf(crate::hir::ctor_exprs_deep(s@)),
    ensures
        ({
            let spec = resolve_bounds_from_spec(
                db@,
                old(diagnostics)@,
                scope,
                module,
                crate::hir::ctor_exprs_deep(s@),
                i as int,
            );
            &&& crate::ty::ctors_deep(r@) == spec.0
            &&& final(diagnostics)@ == spec.1
        }),
    decreases s, s@.len() - i,
{
    if i >= s.len() {
        let r: Vec<TypeConstructor> = Vec::new();
        proof {
            assert(crate::ty::ctors_deep(r@) =~= Seq::<TypeConstructorView>::empty());
        }
        r
    } else {
        proof {
            assert(crate::hir::ctor_exprs_deep(s@)[i as int] == s@[i as int].deep_view());
        }
        let head = resolve_interface_inner(db, diagnostics, scope, module, &s[i]);
        let mut rest = resolve_bounds_from_inner(db, diagnostics, scope, module, s, i + 1);
        match head {
            Some(c) => {
                let ghost tail = crate::ty::ctors_deep(rest@);
                rest.insert(0, c);
                proof {
                    assert(crate::ty::ctors_deep(rest@) =~= seq![rest@[0].deep_view()] + tail);
                }
                rest
            },
            None => rest,
        }
    }
}


/// The context of the resolution phases: the database and diagnostics
/// produced by definition collection, the lowered modules whose imports
/// remain to be resolved, and a counter of type-alias resolutions
/// actually performed.
#[derive(Debug)]
pub struct TypeCheckingContext {
    db: Database,
    diagnostics: Diagnostics,
    lowered: Vec<LoweredModule>,
    type_alias_resolutions: u64,
}

impl TypeCheckingContext {
    /// The database's abstract value.
    pub closed spec fn db_spec(&self) -> DatabaseView {
        self.db@
    }

    /// The diagnostics sink's abstract value.
    pub closed spec fn diagnostics_spec(&self) -> Seq<(u64, DiagnosticView)> {
        self.diagnostics@
    }

    /// The lowered modules held for import resolution.
    pub closed spec fn lowered_spec(&self) -> Seq<LoweredModule> {
        self.lowered@
    }

    /// How many type-alias resolutions have actually been performed —
    /// cache hits perform none.
    pub closed spec fn type_alias_resolutions_spec(&self) -> u64 {
        self.type_alias_resolutions
    }

    /// Builds a context over a collected database and its diagnostics.
    pub fn new(db: Database, diagnostics: Diagnostics, lowered: Vec<LoweredModule>) -> (r: Self)
        ensures
            r.db_spec() == db@,
            r.diagnostics_spec() == diagnostics@,
            r.lowered_spec() == lowered@,
            r.type_alias_resolutions_spec() == 0,
    {
        TypeCheckingContext { db, diagnostics, lowered, type_alias_resolutions: 0 }
    }

    /// Returns the database.
    pub fn db(&self) -> (r: &Database)
        ensures
            r@ == self.db_spec(),
    {
        &self.db
    }

    /// Returns the diagnostics sink.
    pub fn diagnostics(&self) -> (r: &Diagnostics)
        ensures
            r@ == self.diagnostics_spec(),
    {
        &self.diagnostics
    }

    /// Returns how many type-alias resolutions have been performed.
    pub fn type_alias_resolutions(&self) -> (r: u64)
        ensures
            r == self.type_alias_resolutions_spec(),
    {
        self.type_alias_resolutions
    }

    /// Gives ownership of the database and diagnostics back.
    pub fn into_parts(self) -> (r: (Database, Diagnostics))
        ensures
            r.0@ == self.db_spec(),
            r.1@ == self.diagnostics_spec(),
    {
        (self.db, self.diagnostics)
    }

    /// Resolves every module's imports: phase two, run once per unit
    /// after every module has finished definition collection, because
    /// an import may reference a symbol of a module collected later.
    /// Each import binds only the importing module's own import table.
    pub fn process_imports(&mut self)
        requires
            old(self).db_spec().wf(),
            forall|i: int|
                0 <= i < old(self).lowered_spec().len() ==> (#[trigger] old(self).lowered_spec()[
                i].module_spec()).0 < old(self).db_spec().modules.len(),
            forall|i: int|
                0 <= i < old(self).lowered_spec().len() ==> imports_wf(
                    (#[trigger] old(self).lowered_spec()[i]).hir_spec().items,
                ),
        ensures
            final(self).db_spec().wf(),
            final(self).lowered_spec() == old(self).lowered_spec(),
            final(self).type_alias_resolutions_spec() == old(self).type_alias_resolutions_spec(),
            (final(self).db_spec(), final(self).diagnostics_spec()) == process_imports_spec(
                old(self).db_spec(),
                old(self).diagnostics_spec(),
                lowered_views(old(self).lowered_spec()),
            ),
    {
        let n: usize = self.lowered.len();
        let mut i: usize = 0;
        while i < n
            invariant
                self.db@.wf(),
                n == self.lowered@.len(),
                0 <= i <= n,
                self.lowered@ == old(self).lowered_spec(),
                self.type_alias_resolutions == old(self).type_alias_resolutions_spec(),
                self.db@.modules.len() == old(self).db_spec().modules.len(),
                forall|j: int|
                    0 <= j < n ==> (#[trigger] self.lowered@[j].module_spec()).0 < old(
                        self,
                    ).db_spec().modules.len(),
                forall|j: int|
                    0 <= j < n ==> imports_wf((#[trigger] self.lowered@[j]).hir_spec().items),
                (self.db@, self.diagnostics@) == process_imports_spec(
                    old(self).db_spec(),
                    old(self).diagnostics_spec(),
                    lowered_views(self.lowered@).take(i as int),
                ),
            decreases n - i,
        {
            proof {
                assert(lowered_views(self.lowered@).take(i + 1).drop_last() =~= lowered_views(
                    self.lowered@,
                ).take(i as int));
                assert(lowered_views(self.lowered@).take(i + 1).last() == (
                    self.lowered@[i as int].module_spec(),
                    self.lowered@[i as int].hir_spec(),
                ));
            }
            let module = self.lowered[i].module();
            resolve_module_imports(
                &mut self.db,
                &mut self.diagnostics,
                module,
                self.lowered[i].hir(),
            );
            i += 1;
        }
        proof {
            assert(lowered_views(self.lowered@).take(n as int) =~= lowered_views(self.lowered@));
        }
    }

    /// Converts a syntactic type expression into a semantic type: phase
    /// three, a self-contained recursive descent. A bare single-segment,
    /// zero-argument name that the generic scope chain resolves always
    /// becomes a generic-parameter reference — generic parameters take
    /// precedence over module items of the same name, whatever the
    /// module declares.
    pub fn resolve_type(
        &mut self,
        ty: &TypeExpression,
        generic_parameter_scope: Option<GenericParameterScopeID>,
        module: ModuleID,
    ) -> (r: Option<Type>)
        requires
            old(self).db_spec().wf(),
            module.0 < old(self).db_spec().modules.len(),
            generic_parameter_scope matches Some(s) ==> s.0 < old(
                self,
            ).db_spec().generic_parameter_scopes.len(),
            type_expr_wf(ty.deep_view()),
        ensures
            final(self).db_spec() == old(self).db_spec(),
            final(self).lowered_spec() == old(self).lowered_spec(),
            final(self).type_alias_resolutions_spec() == old(self).type_alias_resolutions_spec(),
            ({
                let spec = resolve_type_full_spec(
                    old(self).db_spec(),
                    old(self).diagnostics_spec(),
                    generic_parameter_scope,
                    module,
                    ty.deep_view(),
                );
                &&& opt_type_deep(r) == spec.0
                &&& final(self).diagnostics_spec() == spec.1
            }),
            (ty matches TypeExpression::Constructor(c) ==> (c.deep_view().path.identifiers.len()
                == 1 && c.deep_view().arguments.len() == 0 && scope_resolves(
                old(self).db_spec(),
                generic_parameter_scope,
                c.deep_view().path.identifiers[0].id,
            )) ==> opt_type_deep(r) == Some(
                TypeView::Constructor(
                    TypeConstructorView {
                        path: seq![c.deep_view().path.identifiers[0].id],
                        arguments: Seq::<TypeView>::empty(),
                    },
                ),
            )),
            (ty.deep_view() matches TypeExpressionView::InterfaceObject { bounds, .. } ==> ((r
                is Some) <==> resolve_bounds_from_spec(
                old(self).db_spec(),
                old(self).diagnostics_spec(),
                generic_parameter_scope,
                module,
                bounds,
                0,
            ).0.len() > 0)),
    {
        let r = resolve_type_inner(
            &self.db,
            &mut self.diagnostics,
            generic_parameter_scope,
            module,
            ty,
        );
        proof {
            match ty {
                TypeExpression::Constructor(c) => {
                    if c.deep_view().path.identifiers.len() == 1 && c.deep_view().arguments.len()
                        == 0 && scope_resolves(
                        old(self).db_spec(),
                        generic_parameter_scope,
                        c.deep_view().path.identifiers[0].id,
                    ) {
                        assert(ty.deep_view() == TypeExpressionView::Constructor(c.deep_view()));
                        assert(resolve_ctor_full_spec(
                            old(self).db_spec(),
                            old(self).diagnostics_spec(),
                            generic_parameter_scope,
                            module,
                            c.deep_view(),
                        ).0 == Some(
                            TypeConstructorView {
                                path: seq![c.deep_view().path.identifiers[0].id],
                                arguments: Seq::<TypeView>::empty(),
                            },
                        ));
                    }
                },
                _ => {},
            }
        }
        r
    }

    /// Resolves an interface constructor, as bounds and `implements`
    /// clauses need: the path must name an interface.
    pub fn resolve_interface(
        &mut self,
        interface: &TypeConstructorExpression,
        generic_parameter_scope: Option<GenericParameterScopeID>,
        module: ModuleID,
    ) -> (r: Option<TypeConstructor>)
        requires
            old(self).db_spec().wf(),
            module.0 < old(self).db_spec().modules.len(),
            generic_parameter_scope matches Some(s) ==> s.0 < old(
                self,
            ).db_spec().generic_parameter_scopes.len(),
            ctor_expr_wf(interface.deep_view()),
        ensures
            final(self).db_spec() == old(self).db_spec(),
            final(self).lowered_spec() == old(self).lowered_spec(),
            final(self).type_alias_resolutions_spec() == old(self).type_alias_resolutions_spec(),
            ({
                let spec = resolve_interface_full_spec(
                    old(self).db_spec(),
                    old(self).diagnostics_spec(),
                    generic_parameter_scope,
                    module,
                    interface.deep_view(),
                );
                &&& (match r {
                    Some(c2) => Some(c2.deep_view()),
                    None => None::<TypeConstructorView>,
                }) == spec.0
                &&& final(self).diagnostics_spec() == spec.1
            }),
    {
        resolve_interface_inner(
            &self.db,
            &mut self.diagnostics,
            generic_parameter_scope,
            module,
            interface,
        )
    }

    /// Resolves a bound list: each bound that names an interface stays,
    /// in order; bounds that do not are dropped from the list, never
    /// failing the set as a whole.
    pub fn resolve_bounds(
        &mut self,
        bounds: &Vec<TypeConstructorExpression>,
        generic_parameter_scope: Option<GenericParameterScopeID>,
        module: ModuleID,
    ) -> (r: Vec<TypeConstructor>)
        requires
            old(self).db_spec().wf(),
            module.0 < old(self).db_spec().modules.len(),
            generic_parameter_scope matches Some(s) ==> s.0 < old(
                self,
            ).db_spec().generic_parameter_scopes.len(),
            ctor_exprs_wf(crate::hir::ctor_exprs_deep(bounds@)),
        ensures
            final(self).db_spec() == old(self).db_spec(),
            final(self).lowered_spec() == old(self).lowered_spec(),
            final(self).type_alias_resolutions_spec() == old(self).type_alias_resolutions_spec(),
            ({
                let spec = resolve_bounds_from_spec(
                    old(self).db_spec(),
                    old(self).diagnostics_spec(),
                    generic_parameter_scope,
                    module,
                    crate::hir::ctor_exprs_deep(bounds@),
                    0,
                );
                &&& crate::ty::ctors_deep(r@) == spec.0
                &&& final(self).diagnostics_spec() == spec.1
            }),
    {
        resolve_bounds_from_inner(
            &self.db,
            &mut self.diagnostics,
            generic_parameter_scope,
            module,
            bounds,
            0,
        )
    }

    /// Whether a semantic type implements a target interface
    /// constructor: only a nominal constructor type can, by naming an
    /// enum whose declared implements list carries an entry structurally
    /// equal — same path, pairwise equal arguments — to the target.
    /// This query reports nothing.
    #[verifier::rlimit(50)]
    pub fn implements(&self, ty: &Type, interface: &TypeConstructor, module: ModuleID) -> (r: bool)
        requires
            self.db_spec().wf(),
            module.0 < self.db_spec().modules.len(),
        ensures
            r == implements_spec(
                self.db_spec(),
                module,
                ty.deep_view(),
                interface.deep_view(),
            ),
    {
        match ty {
            Type::Constructor(c) => {
                if c.path.identifiers.len() == 0 {
                    return false;
                }
                match resolve_relative_ids(&self.db, module, &c.path.identifiers) {
                    Some(Symbol::Enum(id)) => {
                        let list = id.implements(&self.db);
                        let n: usize = list.len();
                        let mut i: usize = 0;
                        while i < n
                            invariant
                                self.db@.wf(),
                                id.0 < self.db@.enums.len(),
                                n == list@.len(),
                                0 <= i <= n,
                                ty.deep_view() == TypeView::Constructor(c.deep_view()),
                                c.deep_view().path == c.path.identifiers@,
                                self.db@.resolve_relative_ids_spec(module, c.path.identifiers@)
                                    == Some(Symbol::Enum(id)),
                                crate::ty::ctors_deep(list@) == self.db@.enums[id.0 as int].implements,
                                forall|j: int|
                                    0 <= j < i ==> self.db@.enums[id.0 as int].implements[j]
                                        != interface.deep_view(),
                            decreases n - i,
                        {
                            if crate::ty::constructor_eq(&list[i], interface) {
                                proof {
                                    assert(self.db@.enums[id.0 as int].implements[i as int]
                                        == interface.deep_view());
                                    assert(ty.deep_view() == TypeView::Constructor(c.deep_view()));
                                    assert(c.deep_view().path == c.path.identifiers@);
                                    assert(implements_spec(
                                        self.db_spec(),
                                        module,
                                        ty.deep_view(),
                                        interface.deep_view(),
                                    ));
                                }
                                return true;
                            }
                            i += 1;
                        }
                        proof {
                            if exists|j: int|
                                0 <= j < self.db@.enums[id.0 as int].implements.len()
                                    && self.db@.enums[id.0 as int].implements[j]
                                    == interface.deep_view() {
                                let j = choose|j: int|
                                    0 <= j < self.db@.enums[id.0 as int].implements.len()
                                        && self.db@.enums[id.0 as int].implements[j]
                                        == interface.deep_view();
                                assert(false);
                            }
                        }
                        false
                    },
                    _ => false,
                }
            },
            _ => false,
        }
    }

    /// Resolves a type alias's underlying type, memoizing the result:
    /// the first successful resolution replaces the alias's `Unknown`
    /// placeholder, and every later request returns the cached semantic
    /// type without performing another resolution — the resolution
    /// counter does not move and the database and diagnostics are left
    /// untouched. A failed resolution caches nothing.
    pub fn resolve_type_alias(&mut self, alias: TypeAliasID, value: &TypeExpression) -> (r: Option<
        Type,
    >)
        requires
            old(self).db_spec().wf(),
            alias.0 < old(self).db_spec().type_aliases.len(),
            type_expr_wf(value.deep_view()),
            old(self).type_alias_resolutions_spec() < u64::MAX,
        ensures
            final(self).db_spec().wf(),
            final(self).lowered_spec() == old(self).lowered_spec(),
            !(old(self).db_spec().type_aliases[alias.0 as int].ty is Unknown) ==> {
                &&& final(self).db_spec() == old(self).db_spec()
                &&& final(self).diagnostics_spec() == old(self).diagnostics_spec()
                &&& final(self).type_alias_resolutions_spec() == old(
                    self,
                ).type_alias_resolutions_spec()
                &&& opt_type_deep(r) == Some(old(self).db_spec().type_aliases[alias.0 as int].ty)
            },
            old(self).db_spec().type_aliases[alias.0 as int].ty is Unknown ==> {
                let spec = resolve_type_full_spec(
                    old(self).db_spec(),
                    old(self).diagnostics_spec(),
                    None,
                    old(self).db_spec().type_aliases[alias.0 as int].module,
                    value.deep_view(),
                );
                &&& final(self).type_alias_resolutions_spec() == old(
                    self,
                ).type_alias_resolutions_spec() + 1
                &&& opt_type_deep(r) == spec.0
                &&& final(self).diagnostics_spec() == spec.1
                &&& final(self).db_spec() == (match spec.0 {
                    Some(t) => DatabaseView {
                        type_aliases: old(self).db_spec().type_aliases.update(
                            alias.0 as int,
                            TypeAliasDataView {
                                ty: t,
                                ..old(self).db_spec().type_aliases[alias.0 as int]
                            },
                        ),
                        ..old(self).db_spec()
                    },
                    None => old(self).db_spec(),
                })
            },
    {
        let cached_is_unknown = matches!(&self.db.type_alias(alias).ty, Type::Unknown);
        if !cached_is_unknown {
            let cached = crate::ty::type_clone(&self.db.type_alias(alias).ty);
            return Some(cached);
        }
        self.type_alias_resolutions = self.type_alias_resolutions + 1;
        let module = self.db.type_alias(alias).module;
        proof {
            assert(self.db@.type_aliases[alias.0 as int].module.0 < self.db@.modules.len());
        }
        match resolve_type_inner(&self.db, &mut self.diagnostics, None, module, value) {
            None => None,
            Some(t) => {
                self.db.set_type_alias_ty(alias, crate::ty::type_clone(&t));
                Some(t)
            },
        }
    }
}

} // verus!
