use crate::error::{CompileError, CompileErrorView, NUL_NOTICE};
use crate::text::{
    decimal, find_nul, first_nul, lemma_decimal_plain, lemma_plain_ascii_nul_free, nul_free,
    plain_ascii,
};
use vstd::prelude::*;
use vstd::string::*;
use vstd::utf8::*;

verus! {

/// What a call hands back: the pipeline as JSON text, or a diagnostic.
#[derive(Debug)]
pub struct CompileResult {
    pub result: Option<String>,
    pub error: Option<String>,
}

/// The mathematical value of a [`CompileResult`].
pub ghost struct CompileResultView {
    pub result: Option<Seq<char>>,
    pub error: Option<Seq<char>>,
}

impl View for CompileResult {
    type V = CompileResultView;

    open spec fn view(&self) -> CompileResultView {
        CompileResultView {
            result: match self.result {
                Some(text) => Some(text@),
                None => None,
            },
            error: match self.error {
                Some(text) => Some(text@),
                None => None,
            },
        }
    }
}

/// Whether a text can go out as a string that a zero byte ends.
pub open spec fn transportable(text: Seq<char>) -> bool {
    nul_free(encode_utf8(text))
}

/// The diagnostic of a text that cannot go out: it names the place of the
/// first zero byte.
pub open spec fn nul_diagnostic(text: Seq<char>) -> Seq<char> {
    (CompileErrorView::StringConstruction {
        position: first_nul(encode_utf8(text)) as nat,
    }).message()
}

/// The result that carries a diagnostic: the message itself where it can go
/// out, else the diagnostic of its zero byte.
pub open spec fn failure(message: Seq<char>) -> CompileResultView {
    CompileResultView {
        result: None,
        error: Some(
            if transportable(message) {
                message
            } else {
                nul_diagnostic(message)
            },
        ),
    }
}

/// The result of a call that came to the given end.
pub open spec fn delivered(outcome: Result<Seq<char>, CompileErrorView>) -> CompileResultView {
    match outcome {
        Ok(payload) => if transportable(payload) {
            CompileResultView { result: Some(payload), error: None }
        } else {
            CompileResultView { result: None, error: Some(nul_diagnostic(payload)) }
        },
        Err(error) => failure(error.message()),
    }
}

/// The view of the end that a call came to.
pub open spec fn outcome_view(outcome: Result<String, CompileError>) -> Result<
    Seq<char>,
    CompileErrorView,
> {
    match outcome {
        Ok(payload) => Ok(payload@),
        Err(error) => Err(error@),
    }
}

impl CompileResultView {
    /// Exactly one of the two texts is there, and it can go out.
    pub open spec fn well_formed(self) -> bool {
        match (self.result, self.error) {
            (Some(text), None) => transportable(text),
            (None, Some(text)) => transportable(text),
            _ => false,
        }
    }
}

/// The diagnostic of a zero byte holds none itself.
pub proof fn lemma_nul_diagnostic_transportable(text: Seq<char>)
    ensures
        transportable(nul_diagnostic(text)),
{
    let position = first_nul(encode_utf8(text)) as nat;
    lemma_decimal_plain(position);
    reveal_strlit(
        "Failed to create C string: nul byte found in provided data at position: ",
    );
    assert(plain_ascii(NUL_NOTICE@));
    assert(plain_ascii(NUL_NOTICE@ + decimal(position)));
    lemma_plain_ascii_nul_free(NUL_NOTICE@ + decimal(position));
}

/// Whatever end a call came to, its result holds exactly one text, and that
/// text can go out.
pub proof fn lemma_delivered_well_formed(outcome: Result<Seq<char>, CompileErrorView>)
    ensures
        delivered(outcome).well_formed(),
{
    match outcome {
        Ok(payload) => {
            lemma_nul_diagnostic_transportable(payload);
        },
        Err(error) => {
            lemma_nul_diagnostic_transportable(error.message());
        },
    }
}

/// A pipeline text without a zero byte goes out as it is, with no diagnostic
/// beside it.
pub proof fn lemma_success_delivers_payload(payload: Seq<char>)
    requires
        transportable(payload),
    ensures
        delivered(Ok(payload)).result == Some(payload),
        delivered(Ok(payload)).error.is_none(),
{
}

/// The text of the diagnostic that names the first zero byte of `text`,
/// where there is one.
fn check_transport(text: &str) -> (r: Option<String>)
    ensures
        match r {
            Some(diagnostic) => !transportable(text@) && diagnostic@ == nul_diagnostic(text@),
            None => transportable(text@),
        },
{
    match find_nul(text.as_bytes()) {
        Some(position) => Some((CompileError::StringConstruction { position }).message()),
        None => None,
    }
}

impl CompileResult {
    /// The result that holds neither text.
    pub fn new() -> (r: Self)
        ensures
            r.result.is_none(),
            r.error.is_none(),
    {
        CompileResult { result: None, error: None }
    }

    /// The result that carries a diagnostic.
    pub fn with_error(message: &str) -> (r: Self)
        ensures
            r@ == failure(message@),
            r@.well_formed(),
    {
        proof {
            lemma_nul_diagnostic_transportable(message@);
        }
        let text = match check_transport(message) {
            Some(diagnostic) => diagnostic,
            None => message.to_owned(),
        };
        CompileResult { result: None, error: Some(text) }
    }

    /// The result of a call that came to the given end: the pipeline text, or
    /// the diagnostic of the error.
    pub fn from_outcome(outcome: Result<String, CompileError>) -> (r: Self)
        ensures
            r@ == delivered(outcome_view(outcome)),
            r@.well_formed(),
    {
        proof {
            lemma_delivered_well_formed(outcome_view(outcome));
        }
        match outcome {
            Ok(payload) => match check_transport(payload.as_str()) {
                Some(diagnostic) => CompileResult { result: None, error: Some(diagnostic) },
                None => CompileResult { result: Some(payload), error: None },
            },
            Err(error) => {
                let message = error.message();
                CompileResult::with_error(message.as_str())
            },
        }
    }
}

/// Calls that came to the same end hand back the same texts.
pub proof fn lemma_same_end_same_result(
    first: CompileResultView,
    second: CompileResultView,
    outcome: Result<Seq<char>, CompileErrorView>,
)
    requires
        first == delivered(outcome),
        second == delivered(outcome),
    ensures
        first == second,
{
}

} // verus!
