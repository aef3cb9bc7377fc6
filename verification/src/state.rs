//! The compilation state one unit carries through all phases: the
//! entity database, the shared diagnostics sink, and the configuration.

use vstd::prelude::*;

use crate::database::{Database, DatabaseView};
use crate::diagnostics::{DiagnosticView, Diagnostics};

verus! {

/// Configuration of a compilation unit. No knobs exist yet.
#[derive(Debug)]
pub struct Config {}

impl Default for Config {
    fn default() -> (r: Self)
        ensures
            r == (Config {  }),
    {
        Config {  }
    }
}

impl Config {
    /// Creates the default configuration.
    pub fn new() -> (r: Self)
        ensures
            r == (Config {  }),
    {
        Config {  }
    }
}

/// Database, diagnostics and configuration of one compilation unit.
#[derive(Debug)]
pub struct State {
    db: Database,
    diagnostics: Diagnostics,
    config: Config,
}

impl State {
    /// The database's abstract value.
    pub closed spec fn db_spec(&self) -> DatabaseView {
        self.db@
    }

    /// The diagnostics sink's abstract value.
    pub closed spec fn diagnostics_spec(&self) -> Seq<(u64, DiagnosticView)> {
        self.diagnostics@
    }

    /// Creates a new empty state: an empty, well-formed database and no
    /// diagnostics.
    pub fn new() -> (r: Self)
        ensures
            r.db_spec().wf(),
            r.db_spec().packages == Map::<u64, crate::symbol::ModuleID>::empty(),
            r.db_spec().modules.len() == 0,
            r.db_spec().enums.len() == 0,
            r.db_spec().enum_items.len() == 0,
            r.db_spec().predicates.len() == 0,
            r.db_spec().structs.len() == 0,
            r.db_spec().tuple_like_structs.len() == 0,
            r.db_spec().fields.len() == 0,
            r.db_spec().functions.len() == 0,
            r.db_spec().interfaces.len() == 0,
            r.db_spec().type_aliases.len() == 0,
            r.db_spec().generic_parameter_scopes.len() == 0,
            r.db_spec().generic_parameters.len() == 0,
            r.diagnostics_spec() == Seq::<(u64, DiagnosticView)>::empty(),
    {
        State { db: Database::new(), diagnostics: Diagnostics::new(), config: Config::new() }
    }

    /// Replaces the state's configuration.
    pub fn with_config(self, config: Config) -> (r: Self)
        ensures
            r.db_spec() == self.db_spec(),
            r.diagnostics_spec() == self.diagnostics_spec(),
    {
        State { config, ..self }
    }

    /// Returns a reference to the configuration.
    pub fn config(&self) -> &Config {
        &self.config
    }

    /// Returns an immutable reference to the database.
    pub fn db(&self) -> (r: &Database)
        ensures
            r@ == self.db_spec(),
    {
        &self.db
    }

    /// Returns a mutable reference to the database.
    pub fn db_mut(&mut self) -> (r: &mut Database)
        ensures
            (*r)@ == old(self).db_spec(),
            final(self).db_spec() == (*final(r))@,
            final(self).diagnostics_spec() == old(self).diagnostics_spec(),
    {
        &mut self.db
    }

    /// Gives ownership of the database inside the state.
    pub fn into_db(self) -> (r: Database)
        ensures
            r@ == self.db_spec(),
    {
        self.db
    }

    /// Returns an immutable reference to the diagnostics sink.
    pub fn diagnostics(&self) -> (r: &Diagnostics)
        ensures
            r@ == self.diagnostics_spec(),
    {
        &self.diagnostics
    }

    /// Returns a mutable reference to the diagnostics sink.
    pub fn diagnostics_mut(&mut self) -> (r: &mut Diagnostics)
        ensures
            (*r)@ == old(self).diagnostics_spec(),
            final(self).diagnostics_spec() == (*final(r))@,
            final(self).db_spec() == old(self).db_spec(),
    {
        &mut self.diagnostics
    }

    /// Gives ownership of the diagnostics sink inside the state.
    pub fn into_diagnostics(self) -> (r: Diagnostics)
        ensures
            r@ == self.diagnostics_spec(),
    {
        self.diagnostics
    }

    /// Splits the state into its database and its diagnostics sink.
    pub fn into_parts(self) -> (r: (Database, Diagnostics))
        ensures
            r.0@ == self.db_spec(),
            r.1@ == self.diagnostics_spec(),
    {
        (self.db, self.diagnostics)
    }
}

} // verus!
