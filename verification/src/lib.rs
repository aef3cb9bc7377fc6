//! Semantic core of a statically-typed, module-oriented language compiler:
//! the symbol database and the name/type resolution engine built on it.
//!
//! Lowered modules flow through three phases. Definition collection
//! allocates every declared entity in the [`database::Database`] and
//! populates each module's namespace. Import resolution then turns every
//! `import` declaration into a binding in the importing module's import
//! table. Type resolution finally converts syntactic type expressions into
//! the semantic type graph, honouring generic-parameter scopes and
//! cross-module paths.

use vstd::prelude::*;

pub mod collect;
pub mod database;
pub mod diagnostics;
pub mod hir;
pub mod name_map;
pub mod resolve;
pub mod state;
pub mod symbol;
pub mod ty;
pub mod typecheck;

verus! {

/// Visibility of a declared entity.
#[derive(Clone, Copy, Debug, PartialEq, Eq, Structural)]
pub enum Visibility {
    Public,
    Private,
}

/// A region of a source file: the file's interned path plus a byte range.
#[derive(Clone, Copy, Debug, PartialEq, Eq, Structural)]
pub struct Location {
    /// Interned path of the source file.
    pub filepath: u64,
    /// Byte offset at which the region starts.
    pub start: usize,
    /// Byte offset one past the region's end.
    pub end: usize,
}

impl Location {
    /// The placeholder location used where no source region applies.
    pub fn dummy() -> (r: Location)
        ensures
            r == Location::dummy_spec(),
    {
        Location { filepath: 0, start: 0, end: 0 }
    }

    /// Spec-level value of the placeholder location.
    pub open spec fn dummy_spec() -> Location {
        Location { filepath: 0, start: 0, end: 0 }
    }
}

/// An identifier as it appeared in a source file: the interned name
/// together with the location of its occurrence.
#[derive(Clone, Copy, Debug, PartialEq, Eq, Structural)]
pub struct IdentifierAst {
    pub location: Location,
    /// Interned identifier.
    pub id: u64,
}

} // verus!
