//! The name/path resolver: turns dotted identifier paths into symbols,
//! across module, submodule, import and cross-package boundaries, and
//! resolves every module's `import` declarations into its import table.
//!
//! Path resolution starts at the path's semantic root — the package
//! registry for an absolute path, the current module for a relative
//! one — and consumes segments left to right; at each step it tries the
//! current module's declared items, then its submodules. A failing
//! segment yields a `PathNotFound` diagnostic and no partial result. A
//! single-segment relative path additionally consults the module's
//! resolved imports when the plain lookup fails.

use vstd::prelude::*;

use crate::database::{valid_symbol, Database, DatabaseView, ModuleDataView};
use crate::diagnostics::{path_not_found_diag_spec, DiagnosticView, Diagnostics, PathNotFound};
use crate::hir::{ImportPath, ImportPathView, Module, ModuleHirView, ModuleItem, ModuleItemView, PathAst};
use crate::symbol::{ModuleID, Symbol};
use crate::{IdentifierAst, Location};

verus! {

impl DatabaseView {
    /// Resolution of the segments `path[i..]` starting inside module
    /// `m`: each segment is looked up as a declared item, else a
    /// submodule; an intermediate segment must denote a module; a path
    /// that ends while segments remain to be consumed — or that has
    /// none to consume — yields nothing.
    pub open spec fn walk_path_spec(self, m: ModuleID, path: Seq<IdentifierAst>, i: int) -> Option<
        Symbol,
    >
        decreases path.len() - i,
    {
        if i < 0 || i >= path.len() {
            None
        } else {
            match self.symbol_spec(m, path[i].id) {
                None => None,
                Some(sym) => if i == path.len() - 1 {
                    Some(sym)
                } else {
                    match sym {
                        Symbol::Module(m2) => self.walk_path_spec(m2, path, i + 1),
                        _ => None,
                    }
                },
            }
        }
    }

    /// The location of the segment at which the walk fails, for a walk
    /// that yields nothing.
    pub open spec fn walk_fail_loc_spec(self, m: ModuleID, path: Seq<IdentifierAst>, i: int) -> Location
        decreases path.len() - i,
    {
        if i < 0 || path.len() == 0 {
            Location::dummy_spec()
        } else if i >= path.len() {
            path[path.len() - 1].location
        } else {
            match self.symbol_spec(m, path[i].id) {
                None => path[i].location,
                Some(sym) => if i == path.len() - 1 {
                    Location::dummy_spec()
                } else {
                    match sym {
                        Symbol::Module(m2) => self.walk_fail_loc_spec(m2, path, i + 1),
                        _ => path[i + 1].location,
                    }
                },
            }
        }
    }

    /// Resolution of an absolute path: the first segment selects a
    /// package, whose root module the remaining segments are walked
    /// from. A path that names only a package yields nothing.
    pub open spec fn resolve_absolute_path_spec(self, path: Seq<IdentifierAst>) -> Option<Symbol> {
        if path.len() == 0 {
            None
        } else if !self.packages.contains_key(path[0].id) {
            None
        } else {
            self.walk_path_spec(self.packages[path[0].id], path, 1)
        }
    }

    /// The location of the segment at which absolute resolution fails,
    /// for a resolution that yields nothing.
    pub open spec fn absolute_fail_loc_spec(self, path: Seq<IdentifierAst>) -> Location {
        if path.len() == 0 {
            Location::dummy_spec()
        } else if !self.packages.contains_key(path[0].id) {
            path[0].location
        } else {
            self.walk_fail_loc_spec(self.packages[path[0].id], path, 1)
        }
    }

    /// Resolution of a path relative to a module. A single-segment path
    /// consults, in order: the module's declared items, its submodules,
    /// and — only then — its resolved imports. A longer path is walked
    /// segment by segment without consulting imports.
    pub open spec fn resolve_relative_path_spec(self, m: ModuleID, path: Seq<IdentifierAst>) -> Option<
        Symbol,
    > {
        if path.len() == 1 {
            match self.symbol_spec(m, path[0].id) {
                Some(s) => Some(s),
                None => self.resolved_import_spec(m, path[0].id),
            }
        } else {
            self.walk_path_spec(m, path, 0)
        }
    }

    /// The location of the segment at which relative resolution fails,
    /// for a resolution that yields nothing.
    pub open spec fn relative_fail_loc_spec(self, m: ModuleID, path: Seq<IdentifierAst>) -> Location {
        if path.len() == 1 {
            path[0].location
        } else {
            self.walk_fail_loc_spec(m, path, 0)
        }
    }
}

/// The module record at a valid handle is well-formed; stated as its own
/// predicate to give quantifier instantiation a handle.
pub open spec fn module_wf_at(v: DatabaseView, m: ModuleID) -> bool {
    crate::database::module_data_wf(v, v.modules[m.0 as int])
}

/// Walks the segments `path[start..]` from inside module `m`, reporting
/// `PathNotFound` at the failing segment when the walk yields nothing.
fn walk_path(
    db: &Database,
    m: ModuleID,
    path: &PathAst,
    start: usize,
    diagnostics: &mut Diagnostics,
) -> (r: Option<Symbol>)
    requires
        db@.wf(),
        m.0 < db@.modules.len(),
        path@.identifiers.len() > 0,
    ensures
        r == db@.walk_path_spec(m, path@.identifiers, start as int),
        r is Some ==> final(diagnostics)@ == old(diagnostics)@ && valid_symbol(db@, r->0),
        r is None ==> final(diagnostics)@ == old(diagnostics)@.push(
            (
                db@.walk_fail_loc_spec(m, path@.identifiers, start as int).filepath,
                path_not_found_diag_spec(db@.walk_fail_loc_spec(m, path@.identifiers, start as int)),
            ),
        ),
{
    let ghost whole = path@.identifiers;
    let n: usize = path.identifiers.len();
    let mut module = m;
    let mut i: usize = start;
    while i < n
        invariant
            db@.wf(),
            n == whole.len(),
            n > 0,
            whole == path@.identifiers,
            module.0 < db@.modules.len(),
            start <= i,
            db@.walk_path_spec(m, whole, start as int) == db@.walk_path_spec(
                module,
                whole,
                i as int,
            ),
            db@.walk_fail_loc_spec(m, whole, start as int) == db@.walk_fail_loc_spec(
                module,
                whole,
                i as int,
            ),
            diagnostics@ == old(diagnostics)@,
        decreases n - i,
    {
        let segment = path.identifiers[i];
        proof {
            assert(module_wf_at(db@, module));
        }
        match module.symbol(db, segment.id) {
            None => {
                let d = PathNotFound { name: segment.id, location: segment.location };
                diagnostics.add_single_file_diagnostic(segment.location.filepath, d.build());
                return None;
            },
            Some(sym) => {
                if i == n - 1 {
                    return Some(sym);
                }
                match sym {
                    Symbol::Module(m2) => {
                        module = m2;
                    },
                    _ => {
                        let next = path.identifiers[i + 1];
                        let d = PathNotFound { name: next.id, location: next.location };
                        diagnostics.add_single_file_diagnostic(next.location.filepath, d.build());
                        return None;
                    },
                }
            },
        }
        i += 1;
    }
    let last = path.identifiers[n - 1];
    let d = PathNotFound { name: last.id, location: last.location };
    diagnostics.add_single_file_diagnostic(last.location.filepath, d.build());
    None
}

/// Resolves an absolute path: the first segment names a package, the
/// rest are walked from that package's root module. Yields nothing —
/// after reporting `PathNotFound` once — if the package is unknown, a
/// segment fails, or the path names only a package.
pub fn resolve_absolute_path(db: &Database, path: &PathAst, diagnostics: &mut Diagnostics) -> (r:
    Option<Symbol>)
    requires
        db@.wf(),
        path@.identifiers.len() > 0,
    ensures
        r == db@.resolve_absolute_path_spec(path@.identifiers),
        r is Some ==> final(diagnostics)@ == old(diagnostics)@ && valid_symbol(db@, r->0),
        r is None ==> final(diagnostics)@ == old(diagnostics)@.push(
            (
                db@.absolute_fail_loc_spec(path@.identifiers).filepath,
                path_not_found_diag_spec(db@.absolute_fail_loc_spec(path@.identifiers)),
            ),
        ),
{
    let first = path.identifiers[0];
    match db.package_root_module(first.id) {
        None => {
            let d = PathNotFound { name: first.id, location: first.location };
            diagnostics.add_single_file_diagnostic(first.location.filepath, d.build());
            None
        },
        Some(root) => walk_path(db, root, path, 1, diagnostics),
    }
}

/// Resolves a path relative to a module: a single segment is looked up
/// among the module's declared items, then its submodules, then its
/// resolved imports; a longer path is walked segment by segment without
/// consulting imports. Yields nothing — after reporting `PathNotFound`
/// once — when the lookup fails.
pub fn resolve_relative_path(
    db: &Database,
    module: ModuleID,
    path: &PathAst,
    diagnostics: &mut Diagnostics,
) -> (r: Option<Symbol>)
    requires
        db@.wf(),
        module.0 < db@.modules.len(),
        path@.identifiers.len() > 0,
    ensures
        r == db@.resolve_relative_path_spec(module, path@.identifiers),
        r is Some ==> final(diagnostics)@ == old(diagnostics)@ && valid_symbol(db@, r->0),
        r is None ==> final(diagnostics)@ == old(diagnostics)@.push(
            (
                db@.relative_fail_loc_spec(module, path@.identifiers).filepath,
                path_not_found_diag_spec(db@.relative_fail_loc_spec(module, path@.identifiers)),
            ),
        ),
{
    if path.identifiers.len() == 1 {
        let segment = path.identifiers[0];
        proof {
            assert(module_wf_at(db@, module));
        }
        match module.symbol(db, segment.id) {
            Some(s) => Some(s),
            None => {
                match db.module(module).resolved_imports.get(segment.id) {
                    Some(s) => Some(s),
                    None => {
                        let d = PathNotFound { name: segment.id, location: segment.location };
                        diagnostics.add_single_file_diagnostic(
                            segment.location.filepath,
                            d.build(),
                        );
                        None
                    },
                }
            },
        }
    } else {
        walk_path(db, module, path, 0, diagnostics)
    }
}


impl DatabaseView {
    /// The view after binding one resolved import in module `m`.
    pub open spec fn with_resolved_import(self, m: ModuleID, name: u64, symbol: Symbol) -> DatabaseView {
        DatabaseView {
            modules: self.modules.update(
                m.0 as int,
                ModuleDataView {
                    resolved_imports: self.modules[m.0 as int].resolved_imports.insert(name, symbol),
                    ..self.modules[m.0 as int]
                },
            ),
            ..self
        }
    }
}

/// The name an import is bound under: its alias if one was given, else
/// the path's last segment.
pub open spec fn import_binding_name(import: ImportPathView) -> u64 {
    match import.alias {
        Some(a) => a.id,
        None => import.path.identifiers.last().id,
    }
}

/// The database and diagnostics after resolving one import declaration
/// in module `m`: on success the result is bound in `m`'s import table;
/// on failure one `PathNotFound` is recorded and no name is bound.
pub open spec fn resolve_import_spec(
    v: DatabaseView,
    ds: Seq<(u64, DiagnosticView)>,
    m: ModuleID,
    import: ImportPathView,
) -> (DatabaseView, Seq<(u64, DiagnosticView)>) {
    match v.resolve_absolute_path_spec(import.path.identifiers) {
        Some(sym) => (v.with_resolved_import(m, import_binding_name(import), sym), ds),
        None => (
            v,
            ds.push(
                (
                    v.absolute_fail_loc_spec(import.path.identifiers).filepath,
                    path_not_found_diag_spec(v.absolute_fail_loc_spec(import.path.identifiers)),
                ),
            ),
        ),
    }
}

/// The database and diagnostics after resolving the imports among the
/// given declarations of module `m`, in declaration order; declarations
/// that are not imports change nothing.
pub open spec fn process_items_imports_spec(
    v: DatabaseView,
    ds: Seq<(u64, DiagnosticView)>,
    m: ModuleID,
    items: Seq<ModuleItemView>,
) -> (DatabaseView, Seq<(u64, DiagnosticView)>)
    decreases items.len(),
{
    if items.len() == 0 {
        (v, ds)
    } else {
        let prefix = process_items_imports_spec(v, ds, m, items.drop_last());
        match items.last() {
            ModuleItemView::Import(p) => resolve_import_spec(prefix.0, prefix.1, m, p),
            _ => prefix,
        }
    }
}

/// The database and diagnostics after resolving every module's imports,
/// module by module in the given order.
pub open spec fn process_imports_spec(
    v: DatabaseView,
    ds: Seq<(u64, DiagnosticView)>,
    modules: Seq<(ModuleID, ModuleHirView)>,
) -> (DatabaseView, Seq<(u64, DiagnosticView)>)
    decreases modules.len(),
{
    if modules.len() == 0 {
        (v, ds)
    } else {
        let prefix = process_imports_spec(v, ds, modules.drop_last());
        process_items_imports_spec(prefix.0, prefix.1, modules.last().0, modules.last().1.items)
    }
}

/// Every import declaration among the items has a non-empty path.
pub open spec fn imports_wf(items: Seq<ModuleItemView>) -> bool {
    forall|i: int|
        0 <= i < items.len() && #[trigger] items[i] is Import ==> items[i]->Import_0.path.identifiers.len()
            > 0
}

/// Resolves one import declaration of module `module`: the path is
/// resolved absolutely, from the package registry; the result is bound
/// under the alias if one was given, else under the path's last
/// segment. A failed resolution is reported once and binds nothing.
pub fn add_import(
    db: &mut Database,
    diagnostics: &mut Diagnostics,
    module: ModuleID,
    import: &ImportPath,
)
    requires
        old(db)@.wf(),
        module.0 < old(db)@.modules.len(),
        import@.path.identifiers.len() > 0,
    ensures
        final(db)@.wf(),
        final(db)@.modules.len() == old(db)@.modules.len(),
        (final(db)@, final(diagnostics)@) == resolve_import_spec(
            old(db)@,
            old(diagnostics)@,
            module,
            import@,
        ),
{
    let name_id = match &import.alias {
        Some(a) => a.id,
        None => import.path.identifiers[import.path.identifiers.len() - 1].id,
    };
    match resolve_absolute_path(db, &import.path, diagnostics) {
        None => {},
        Some(binding) => {
            module.add_resolved_import(db, name_id, binding);
            proof {
                assert(db@ =~= old(db)@.with_resolved_import(module, import_binding_name(import@), binding));
            }
        },
    }
}

/// Resolves every import declaration of one module, in declaration
/// order.
pub fn resolve_module_imports(
    db: &mut Database,
    diagnostics: &mut Diagnostics,
    module: ModuleID,
    hir: &Module,
)
    requires
        old(db)@.wf(),
        module.0 < old(db)@.modules.len(),
        imports_wf(hir@.items),
    ensures
        final(db)@.wf(),
        final(db)@.modules.len() == old(db)@.modules.len(),
        (final(db)@, final(diagnostics)@) == process_items_imports_spec(
            old(db)@,
            old(diagnostics)@,
            module,
            hir@.items,
        ),
{
    let n: usize = hir.items.len();
    let mut i: usize = 0;
    while i < n
        invariant
            db@.wf(),
            n == hir@.items.len(),
            0 <= i <= n,
            module.0 < db@.modules.len(),
            db@.modules.len() == old(db)@.modules.len(),
            imports_wf(hir@.items),
            (db@, diagnostics@) == process_items_imports_spec(
                old(db)@,
                old(diagnostics)@,
                module,
                hir@.items.take(i as int),
            ),
        decreases n - i,
    {
        proof {
            assert(hir@.items.take(i + 1).drop_last() =~= hir@.items.take(i as int));
            assert(hir@.items.take(i + 1).last() == hir@.items[i as int]);
        }
        match &hir.items[i] {
            ModuleItem::Import(import) => {
                proof {
                    assert(hir@.items[i as int] is Import);
                    assert(hir@.items[i as int]->Import_0 == import@);
                }
                add_import(db, diagnostics, module, import);
            },
            _ => {},
        }
        i += 1;
    }
    proof {
        assert(hir@.items.take(n as int) =~= hir@.items);
    }
}

/// Binding an import changes no declared-item or submodule namespace,
/// so a name lookup that does not consult imports is unaffected.
pub proof fn lemma_import_binding_preserves_lookup(
    v: DatabaseView,
    m: ModuleID,
    name: u64,
    symbol: Symbol,
    m2: ModuleID,
    n: u64,
)
    requires
        m.0 < v.modules.len(),
        m2.0 < v.modules.len(),
    ensures
        v.with_resolved_import(m, name, symbol).symbol_spec(m2, n) == v.symbol_spec(m2, n),
{
}

/// Binding an import changes the result of no path walk.
pub proof fn lemma_import_binding_preserves_walk(
    v: DatabaseView,
    m: ModuleID,
    name: u64,
    symbol: Symbol,
    m2: ModuleID,
    path: Seq<IdentifierAst>,
    i: int,
)
    requires
        v.wf(),
        m.0 < v.modules.len(),
        m2.0 < v.modules.len(),
    ensures
        v.with_resolved_import(m, name, symbol).walk_path_spec(m2, path, i) == v.walk_path_spec(
            m2,
            path,
            i,
        ),
    decreases path.len() - i,
{
    let v2 = v.with_resolved_import(m, name, symbol);
    if 0 <= i < path.len() {
        lemma_import_binding_preserves_lookup(v, m, name, symbol, m2, path[i].id);
        match v.symbol_spec(m2, path[i].id) {
            Some(sym) => {
                if i < path.len() - 1 {
                    match sym {
                        Symbol::Module(m3) => {
                            assert(module_wf_at(v, m2));
                            lemma_import_binding_preserves_walk(v, m, name, symbol, m3, path, i + 1);
                        },
                        _ => {},
                    }
                }
            },
            None => {},
        }
    }
}

/// Binding an import changes the result of no absolute path resolution.
pub proof fn lemma_import_binding_preserves_absolute(
    v: DatabaseView,
    m: ModuleID,
    name: u64,
    symbol: Symbol,
    path: Seq<IdentifierAst>,
)
    requires
        v.wf(),
        m.0 < v.modules.len(),
    ensures
        v.with_resolved_import(m, name, symbol).resolve_absolute_path_spec(path)
            == v.resolve_absolute_path_spec(path),
{
    let v2 = v.with_resolved_import(m, name, symbol);
    assert(v2.packages == v.packages);
    if path.len() > 0 && v.packages.contains_key(path[0].id) {
        lemma_import_binding_preserves_walk(v, m, name, symbol, v.packages[path[0].id], path, 1);
    }
}

/// Import aliasing round trip: once an import of `path` — with or
/// without an alias — has been resolved and bound in module `m`, a
/// single-segment lookup of the bound name from within `m` yields
/// exactly the symbol that resolving `path` absolutely from the package
/// registry yields, provided `m` itself declares no item or submodule of
/// that name. Resolving the same path absolutely still yields the same
/// symbol afterwards: binding an import affects no other lookup.
pub proof fn lemma_import_aliasing_round_trip(
    v: DatabaseView,
    m: ModuleID,
    import: ImportPathView,
    segment: IdentifierAst,
)
    requires
        v.wf(),
        m.0 < v.modules.len(),
        v.resolve_absolute_path_spec(import.path.identifiers) is Some,
        segment.id == import_binding_name(import),
        v.symbol_spec(m, segment.id) is None,
    ensures
        ({
            let v2 = resolve_import_spec(v, Seq::empty(), m, import).0;
            &&& v2.resolve_relative_path_spec(m, seq![segment])
                == v.resolve_absolute_path_spec(import.path.identifiers)
            &&& v2.resolve_absolute_path_spec(import.path.identifiers)
                == v.resolve_absolute_path_spec(import.path.identifiers)
        }),
{
    let sym = v.resolve_absolute_path_spec(import.path.identifiers)->0;
    let binding = import_binding_name(import);
    let v2 = v.with_resolved_import(m, binding, sym);
    lemma_import_binding_preserves_lookup(v, m, binding, sym, m, segment.id);
    assert(v2.modules[m.0 as int].resolved_imports.contains_key(segment.id));
    assert(v2.resolved_import_spec(m, segment.id) == Some(sym));
    lemma_import_binding_preserves_absolute(v, m, binding, sym, import.path.identifiers);
}


impl DatabaseView {
    /// Resolution of the plain-identifier segments `ids[i..]` starting
    /// inside module `m`, mirroring `walk_path_spec` without source
    /// locations.
    pub open spec fn walk_ids_spec(self, m: ModuleID, ids: Seq<u64>, i: int) -> Option<Symbol>
        decreases ids.len() - i,
    {
        if i < 0 || i >= ids.len() {
            None
        } else {
            match self.symbol_spec(m, ids[i]) {
                None => None,
                Some(sym) => if i == ids.len() - 1 {
                    Some(sym)
                } else {
                    match sym {
                        Symbol::Module(m2) => self.walk_ids_spec(m2, ids, i + 1),
                        _ => None,
                    }
                },
            }
        }
    }

    /// Resolution of a plain-identifier path relative to a module,
    /// mirroring `resolve_relative_path_spec` without source locations.
    pub open spec fn resolve_relative_ids_spec(self, m: ModuleID, ids: Seq<u64>) -> Option<Symbol> {
        if ids.len() == 1 {
            match self.symbol_spec(m, ids[0]) {
                Some(s) => Some(s),
                None => self.resolved_import_spec(m, ids[0]),
            }
        } else {
            self.walk_ids_spec(m, ids, 0)
        }
    }
}

/// Resolves a plain-identifier path relative to a module, without
/// reporting: the lookup a boolean query makes.
pub fn resolve_relative_ids(db: &Database, module: ModuleID, ids: &Vec<u64>) -> (r: Option<Symbol>)
    requires
        db@.wf(),
        module.0 < db@.modules.len(),
        ids@.len() > 0,
    ensures
        r == db@.resolve_relative_ids_spec(module, ids@),
        r is Some ==> valid_symbol(db@, r->0),
{
    proof {
        assert(module_wf_at(db@, module));
    }
    if ids.len() == 1 {
        match module.symbol(db, ids[0]) {
            Some(s) => Some(s),
            None => db.module(module).resolved_imports.get(ids[0]),
        }
    } else {
        let n: usize = ids.len();
        let mut m = module;
        let mut i: usize = 0;
        while i < n
            invariant
                db@.wf(),
                n == ids@.len(),
                n > 1,
                module.0 < db@.modules.len(),
                m.0 < db@.modules.len(),
                0 <= i,
                db@.walk_ids_spec(module, ids@, 0) == db@.walk_ids_spec(m, ids@, i as int),
            decreases n - i,
        {
            proof {
                assert(module_wf_at(db@, m));
            }
            match m.symbol(db, ids[i]) {
                None => {
                    return None;
                },
                Some(sym) => {
                    if i == n - 1 {
                        return Some(sym);
                    }
                    match sym {
                        Symbol::Module(m2) => {
                            m = m2;
                        },
                        _ => {
                            return None;
                        },
                    }
                },
            }
            i += 1;
        }
        None
    }
}

} // verus!
