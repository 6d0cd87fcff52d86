use crate::catalog::{build_plan, distinct_namespaces, plan_of_text, Plan, PlanView};
use crate::error::{Argument, CompileError, CompileErrorView};
use crate::json::json_parse;
use crate::text::{describe_utf8_error, utf8_complaint};
use vstd::prelude::*;
use vstd::string::*;
use vstd::utf8::*;

verus! {

/// A call whose arguments were there and readable: the query, and the
/// collections of the schema document.
#[derive(Debug)]
pub struct Request {
    pub sql: String,
    pub plan: Plan,
}

/// The mathematical value of a [`Request`].
pub ghost struct RequestView {
    pub sql: Seq<char>,
    pub plan: PlanView,
}

impl View for Request {
    type V = RequestView;

    open spec fn view(&self) -> RequestView {
        RequestView { sql: self.sql@, plan: self.plan@ }
    }
}

/// The text that an argument's bytes stand for, or the error of bytes that
/// are not valid UTF-8.
pub open spec fn decoded(argument: Argument, bytes: Seq<u8>) -> Result<Seq<char>, CompileErrorView> {
    if valid_utf8(bytes) {
        Ok(decode_utf8(bytes))
    } else {
        Err(CompileErrorView::Encoding { argument, cause: utf8_complaint(bytes) })
    }
}

/// What becomes of the two arguments of a call. The checks come in a fixed
/// order: the query is there, the schema is there, the query is text, the
/// schema is text, the schema is a JSON document of the expected shape.
pub open spec fn prepared(sql: Option<Seq<u8>>, schema: Option<Seq<u8>>) -> Result<
    RequestView,
    CompileErrorView,
> {
    match (sql, schema) {
        (None, _) => Err(CompileErrorView::NullArgument { argument: Argument::Sql }),
        (Some(_), None) => Err(CompileErrorView::NullArgument { argument: Argument::Schema }),
        (Some(sql_bytes), Some(schema_bytes)) => match decoded(Argument::Sql, sql_bytes) {
            Err(error) => Err(error),
            Ok(sql_text) => match decoded(Argument::Schema, schema_bytes) {
                Err(error) => Err(error),
                Ok(schema_text) => match plan_of_text(schema_text) {
                    Err(error) => Err(error),
                    Ok(plan) => Ok(RequestView { sql: sql_text, plan }),
                },
            },
        },
    }
}

/// The bytes of an argument that may be absent.
pub open spec fn argument_view(bytes: Option<&[u8]>) -> Option<Seq<u8>> {
    match bytes {
        Some(slice) => Some(slice@),
        None => None,
    }
}

/// The view of a request or of the error in its place.
pub open spec fn request_outcome_view(outcome: Result<Request, CompileError>) -> Result<
    RequestView,
    CompileErrorView,
> {
    match outcome {
        Ok(request) => Ok(request@),
        Err(error) => Err(error@),
    }
}

/// Reads an argument's bytes as UTF-8 text.
pub fn decode<'a>(argument: Argument, bytes: &'a [u8]) -> (r: Result<&'a str, CompileError>)
    ensures
        match r {
            Ok(text) => decoded(argument, bytes@) == Ok::<Seq<char>, CompileErrorView>(text@),
            Err(error) => decoded(argument, bytes@) == Err::<Seq<char>, CompileErrorView>(error@),
        },
{
    match core::str::from_utf8(bytes) {
        Ok(text) => {
            proof {
                encode_utf8_decode_utf8(text@);
            }
            Ok(text)
        },
        Err(error) => Err(CompileError::Encoding { argument, cause: describe_utf8_error(&error) }),
    }
}

/// Checks the two arguments of a call and lists the collections of the
/// schema document.
pub fn prepare(sql: Option<&[u8]>, schema: Option<&[u8]>) -> (r: Result<Request, CompileError>)
    ensures
        request_outcome_view(r) == prepared(argument_view(sql), argument_view(schema)),
        r matches Ok(request) ==> distinct_namespaces(request@.plan.entries),
{
    let sql_bytes = match sql {
        Some(bytes) => bytes,
        None => {
            return Err(CompileError::NullArgument { argument: Argument::Sql });
        },
    };
    let schema_bytes = match schema {
        Some(bytes) => bytes,
        None => {
            return Err(CompileError::NullArgument { argument: Argument::Schema });
        },
    };
    let sql_text = match decode(Argument::Sql, sql_bytes) {
        Ok(text) => text,
        Err(error) => {
            return Err(error);
        },
    };
    let schema_text = match decode(Argument::Schema, schema_bytes) {
        Ok(text) => text,
        Err(error) => {
            return Err(error);
        },
    };
    match build_plan(schema_text) {
        Ok(plan) => Ok(Request { sql: sql_text.to_owned(), plan }),
        Err(error) => Err(error),
    }
}

/// An absent argument is reported under its own name, the query first,
/// whatever the other argument holds.
pub proof fn lemma_absent_argument(sql: Option<Seq<u8>>, schema: Option<Seq<u8>>)
    ensures
        sql is None ==> prepared(sql, schema) == Err::<RequestView, CompileErrorView>(
            CompileErrorView::NullArgument { argument: Argument::Sql },
        ),
        sql is Some && schema is None ==> prepared(sql, schema) == Err::<
            RequestView,
            CompileErrorView,
        >(CompileErrorView::NullArgument { argument: Argument::Schema }),
        (CompileErrorView::NullArgument { argument: Argument::Sql }).message()
            == "SQL string is null"@,
        (CompileErrorView::NullArgument { argument: Argument::Schema }).message()
            == "Schema JSON is null"@,
{
}

/// A schema that is text but no JSON document is reported as malformed, with
/// the parser's complaint, whatever the query holds.
pub proof fn lemma_malformed_schema(sql: Seq<u8>, schema: Seq<u8>)
    requires
        valid_utf8(sql),
        valid_utf8(schema),
        json_parse(decode_utf8(schema)) is Err,
    ensures
        prepared(Some(sql), Some(schema)) == Err::<RequestView, CompileErrorView>(
            CompileErrorView::MalformedJson { cause: json_parse(decode_utf8(schema))->Err_0 },
        ),
{
}

} // verus!
