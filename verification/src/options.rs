use vstd::prelude::*;
use vstd::string::*;

verus! {

/// Whether the namespaces that a query names are left out of its translation.
#[derive(Clone, Copy, Debug, PartialEq, Eq, Structural)]
pub enum ExcludeNamespaces {
    Exclude,
    Include,
}

/// How much of a schema has to be known for a query to translate.
#[derive(Clone, Copy, Debug, PartialEq, Eq, Structural)]
pub enum SchemaChecking {
    Strict,
    Relaxed,
}

/// What the compiler is told besides the query and the catalog.
#[derive(Debug)]
pub struct TranslationConfig {
    /// The database of a collection that the query names without one.
    pub default_database: String,
    pub exclude_namespaces: ExcludeNamespaces,
    pub schema_checking: SchemaChecking,
}

/// The database that every call translates against.
pub const DEFAULT_DATABASE: &'static str = "default_db";

impl TranslationConfig {
    /// The configuration of every call: the fixed default database, every
    /// namespace included, relaxed schema checking.
    pub fn standard() -> (r: Self)
        ensures
            r.default_database@ == DEFAULT_DATABASE@,
            r.exclude_namespaces == ExcludeNamespaces::Include,
            r.schema_checking == SchemaChecking::Relaxed,
    {
        TranslationConfig {
            default_database: String::from_str(DEFAULT_DATABASE),
            exclude_namespaces: ExcludeNamespaces::Include,
            schema_checking: SchemaChecking::Relaxed,
        }
    }
}

} // verus!
