use crate::text::{decimal, push_decimal};
use vstd::prelude::*;
use vstd::string::*;

verus! {

/// One of the two texts that a caller hands over.
#[derive(Clone, Copy, Debug, PartialEq, Eq, Structural)]
pub enum Argument {
    Sql,
    Schema,
}

/// Why a call produced a diagnostic in place of a pipeline.
#[derive(Debug)]
pub enum CompileError {
    /// An argument was absent.
    NullArgument { argument: Argument },
    /// An argument was not valid UTF-8.
    Encoding { argument: Argument, cause: String },
    /// The schema text was not a JSON document.
    MalformedJson { cause: String },
    /// The schema document was not a JSON object.
    RootShape,
    /// The value under a database name was not a JSON object.
    DatabaseShape { database: String },
    /// A collection's document was not a JSON schema.
    SchemaParse { database: String, collection: String, cause: String },
    /// A collection's JSON schema had no native counterpart.
    SchemaConversion { database: String, collection: String, cause: String },
    /// The compiler rejected the query.
    Translation { cause: String },
    /// The pipeline could not be written as JSON.
    Serialization { cause: String },
    /// A text to hand out held a zero byte at `position`.
    StringConstruction { position: usize },
}

/// The mathematical value of a [`CompileError`].
pub ghost enum CompileErrorView {
    NullArgument { argument: Argument },
    Encoding { argument: Argument, cause: Seq<char> },
    MalformedJson { cause: Seq<char> },
    RootShape,
    DatabaseShape { database: Seq<char> },
    SchemaParse { database: Seq<char>, collection: Seq<char>, cause: Seq<char> },
    SchemaConversion { database: Seq<char>, collection: Seq<char>, cause: Seq<char> },
    Translation { cause: Seq<char> },
    Serialization { cause: Seq<char> },
    StringConstruction { position: nat },
}

impl View for CompileError {
    type V = CompileErrorView;

    open spec fn view(&self) -> CompileErrorView {
        match *self {
            CompileError::NullArgument { argument } => CompileErrorView::NullArgument { argument },
            CompileError::Encoding { argument, cause } => CompileErrorView::Encoding {
                argument,
                cause: cause@,
            },
            CompileError::MalformedJson { cause } => CompileErrorView::MalformedJson {
                cause: cause@,
            },
            CompileError::RootShape => CompileErrorView::RootShape,
            CompileError::DatabaseShape { database } => CompileErrorView::DatabaseShape {
                database: database@,
            },
            CompileError::SchemaParse {
                database,
                collection,
                cause,
            } => CompileErrorView::SchemaParse {
                database: database@,
                collection: collection@,
                cause: cause@,
            },
            CompileError::SchemaConversion {
                database,
                collection,
                cause,
            } => CompileErrorView::SchemaConversion {
                database: database@,
                collection: collection@,
                cause: cause@,
            },
            CompileError::Translation { cause } => CompileErrorView::Translation { cause: cause@ },
            CompileError::Serialization { cause } => CompileErrorView::Serialization {
                cause: cause@,
            },
            CompileError::StringConstruction { position } => CompileErrorView::StringConstruction {
                position: position as nat,
            },
        }
    }
}

impl CompileErrorView {
    /// The diagnostic that a caller reads.
    pub open spec fn message(self) -> Seq<char> {
        match self {
            CompileErrorView::NullArgument { argument: Argument::Sql } => "SQL string is null"@,
            CompileErrorView::NullArgument { argument: Argument::Schema } => "Schema JSON is null"@,
            CompileErrorView::Encoding {
                argument: Argument::Sql,
                cause,
            } => "Failed to convert SQL string: "@ + cause,
            CompileErrorView::Encoding {
                argument: Argument::Schema,
                cause,
            } => "Failed to convert schema string: "@ + cause,
            CompileErrorView::MalformedJson { cause } => "Failed to parse schema JSON: "@ + cause,
            CompileErrorView::RootShape => "Schema JSON is not an object"@,
            CompileErrorView::DatabaseShape { database } => "Collections for database "@ + database
                + " is not an object"@,
            CompileErrorView::SchemaParse {
                database,
                collection,
                cause,
            } => "Failed to parse schema for "@ + database + "."@ + collection + ": "@ + cause,
            CompileErrorView::SchemaConversion {
                database,
                collection,
                cause,
            } => "Failed to convert schema for "@ + database + "."@ + collection + ": "@ + cause,
            CompileErrorView::Translation { cause } => "Failed to translate SQL: "@ + cause,
            CompileErrorView::Serialization { cause } => "Failed to serialize pipeline: "@ + cause,
            CompileErrorView::StringConstruction { position } => NUL_NOTICE@ + decimal(position),
        }
    }
}

/// What precedes the position in the diagnostic of a text with a zero byte.
pub const NUL_NOTICE: &'static str =
    "Failed to create C string: nul byte found in provided data at position: ";

impl CompileError {
    /// The diagnostic that a caller reads.
    pub fn message(&self) -> (r: String)
        ensures
            r@ == self@.message(),
    {
        match self {
            CompileError::NullArgument { argument } => match argument {
                Argument::Sql => String::from_str("SQL string is null"),
                Argument::Schema => String::from_str("Schema JSON is null"),
            },
            CompileError::Encoding { argument, cause } => match argument {
                Argument::Sql => String::from_str("Failed to convert SQL string: ").concat(
                    cause.as_str(),
                ),
                Argument::Schema => String::from_str("Failed to convert schema string: ").concat(
                    cause.as_str(),
                ),
            },
            CompileError::MalformedJson { cause } => String::from_str(
                "Failed to parse schema JSON: ",
            ).concat(cause.as_str()),
            CompileError::RootShape => String::from_str("Schema JSON is not an object"),
            CompileError::DatabaseShape { database } => String::from_str(
                "Collections for database ",
            ).concat(database.as_str()).concat(" is not an object"),
            CompileError::SchemaParse { database, collection, cause } => String::from_str(
                "Failed to parse schema for ",
            ).concat(database.as_str()).concat(".").concat(collection.as_str()).concat(
                ": ",
            ).concat(cause.as_str()),
            CompileError::SchemaConversion { database, collection, cause } => String::from_str(
                "Failed to convert schema for ",
            ).concat(database.as_str()).concat(".").concat(collection.as_str()).concat(
                ": ",
            ).concat(cause.as_str()),
            CompileError::Translation { cause } => String::from_str(
                "Failed to translate SQL: ",
            ).concat(cause.as_str()),
            CompileError::Serialization { cause } => String::from_str(
                "Failed to serialize pipeline: ",
            ).concat(cause.as_str()),
            CompileError::StringConstruction { position } => {
                let mut text = String::from_str(NUL_NOTICE);
                push_decimal(&mut text, *position);
                text
            },
        }
    }
}

/// Whether `needle` stands somewhere in `hay`, character for character.
pub open spec fn occurs_in(needle: Seq<char>, hay: Seq<char>) -> bool {
    exists|i: int|
        0 <= i && i + needle.len() <= hay.len() && #[trigger] hay.subrange(i, i + needle.len())
            == needle
}

/// A text occurs in whatever is put together around it.
pub proof fn lemma_occurs_between(before: Seq<char>, needle: Seq<char>, after: Seq<char>)
    ensures
        occurs_in(needle, before + needle + after),
{
    let hay = before + needle + after;
    let i = before.len() as int;
    assert(hay.subrange(i, i + needle.len()) =~= needle);
}

/// The diagnostic of a collection whose schema could not be converted holds
/// the database name and the collection name, whichever step failed.
pub proof fn lemma_conversion_message_names_namespace(
    database: Seq<char>,
    collection: Seq<char>,
    cause: Seq<char>,
)
    ensures
        occurs_in(
            database,
            (CompileErrorView::SchemaConversion { database, collection, cause }).message(),
        ),
        occurs_in(
            collection,
            (CompileErrorView::SchemaConversion { database, collection, cause }).message(),
        ),
        occurs_in(
            database,
            (CompileErrorView::SchemaParse { database, collection, cause }).message(),
        ),
        occurs_in(
            collection,
            (CompileErrorView::SchemaParse { database, collection, cause }).message(),
        ),
{
    let converted = (CompileErrorView::SchemaConversion { database, collection, cause }).message();
    let parsed = (CompileErrorView::SchemaParse { database, collection, cause }).message();
    let tail = "."@ + collection + ": "@ + cause;
    let end = ": "@ + cause;
    lemma_occurs_between("Failed to convert schema for "@, database, tail);
    assert(converted =~= "Failed to convert schema for "@ + database + tail);
    lemma_occurs_between("Failed to convert schema for "@ + database + "."@, collection, end);
    assert(converted =~= "Failed to convert schema for "@ + database + "."@ + collection + end);
    lemma_occurs_between("Failed to parse schema for "@, database, tail);
    assert(parsed =~= "Failed to parse schema for "@ + database + tail);
    lemma_occurs_between("Failed to parse schema for "@ + database + "."@, collection, end);
    assert(parsed =~= "Failed to parse schema for "@ + database + "."@ + collection + end);
}

/// The diagnostic of a database whose value is no object holds the database
/// name.
pub proof fn lemma_shape_message_names_database(database: Seq<char>)
    ensures
        occurs_in(database, (CompileErrorView::DatabaseShape { database }).message()),
{
    lemma_occurs_between("Collections for database "@, database, " is not an object"@);
}

} // verus!
