use crate::boundary::{
    delivered, lemma_delivered_well_formed, transportable, CompileResult, CompileResultView,
};
use crate::catalog::{Conversion, ConversionView, Next, NextView};
use crate::error::{CompileError, CompileErrorView};
use crate::request::{argument_view, prepare, prepared, Request, RequestView};
use vstd::prelude::*;

verus! {

/// Where a call stands. A call only moves forward: through the entries to
/// convert, on to the translation, on to the serialisation, and to its
/// result; a failure takes it to its result at once.
#[derive(Debug)]
pub enum Session {
    /// The entry at `index` is to be converted.
    Converting { request: Request, index: usize },
    /// The query is to be translated.
    Translating { request: Request },
    /// The pipeline is to be written as JSON text.
    Serializing,
    /// The call is over.
    Done { result: CompileResult },
}

/// The mathematical value of a [`Session`].
pub ghost enum SessionView {
    Converting { request: RequestView, index: int },
    Translating { request: RequestView },
    Serializing,
    Done { result: CompileResultView },
}

impl View for Session {
    type V = SessionView;

    open spec fn view(&self) -> SessionView {
        match *self {
            Session::Converting { request, index } => SessionView::Converting {
                request: request@,
                index: index as int,
            },
            Session::Translating { request } => SessionView::Translating { request: request@ },
            Session::Serializing => SessionView::Serializing,
            Session::Done { result } => SessionView::Done { result: result@ },
        }
    }
}

/// How a piece of work outside the library ended.
#[derive(Debug)]
pub enum Event {
    /// The conversion of the current entry ended.
    Converted { outcome: Conversion },
    /// The translation ended: with a pipeline, or with the compiler's
    /// complaint.
    Translated { failure: Option<String> },
    /// The serialisation ended: with the text, or with the writer's
    /// complaint.
    Serialized { outcome: Result<String, String> },
}

/// The mathematical value of an [`Event`].
pub ghost enum EventView {
    Converted { outcome: ConversionView },
    Translated { failure: Option<Seq<char>> },
    Serialized { outcome: Result<Seq<char>, Seq<char>> },
}

impl View for Event {
    type V = EventView;

    open spec fn view(&self) -> EventView {
        match *self {
            Event::Converted { outcome } => EventView::Converted { outcome: outcome@ },
            Event::Translated { failure } => EventView::Translated {
                failure: match failure {
                    Some(cause) => Some(cause@),
                    None => None,
                },
            },
            Event::Serialized { outcome } => EventView::Serialized {
                outcome: match outcome {
                    Ok(text) => Ok(text@),
                    Err(cause) => Err(cause@),
                },
            },
        }
    }
}

/// The session that follows a decision of the catalog build.
pub open spec fn entered(request: RequestView, next: NextView) -> SessionView {
    match next {
        NextView::Convert { index } => SessionView::Converting { request, index },
        NextView::Translate => SessionView::Translating { request },
        NextView::Fail { error } => SessionView::Done { result: delivered(Err(error)) },
    }
}

/// The session that the two arguments of a call open.
pub open spec fn begun(sql: Option<Seq<u8>>, schema: Option<Seq<u8>>) -> SessionView {
    match prepared(sql, schema) {
        Err(error) => SessionView::Done { result: delivered(Err(error)) },
        Ok(request) => entered(request, request.plan.at(0)),
    }
}

impl SessionView {
    /// The session after an event. An event that does not belong to the
    /// session's stage changes nothing.
    pub open spec fn next(self, event: EventView) -> SessionView {
        match (self, event) {
            (
                SessionView::Converting { request, index },
                EventView::Converted { outcome },
            ) => if 0 <= index < request.plan.entries.len() {
                entered(request, request.plan.after(index, outcome))
            } else {
                self
            },
            (
                SessionView::Translating { request },
                EventView::Translated { failure: None },
            ) => SessionView::Serializing,
            (
                SessionView::Translating { request },
                EventView::Translated { failure: Some(cause) },
            ) => SessionView::Done {
                result: delivered(Err(CompileErrorView::Translation { cause })),
            },
            (
                SessionView::Serializing,
                EventView::Serialized { outcome: Ok(text) },
            ) => SessionView::Done { result: delivered(Ok(text)) },
            (
                SessionView::Serializing,
                EventView::Serialized { outcome: Err(cause) },
            ) => SessionView::Done {
                result: delivered(Err(CompileErrorView::Serialization { cause })),
            },
            _ => self,
        }
    }

    /// The session after a run of events, taken in order.
    pub open spec fn after_all(self, events: Seq<EventView>) -> SessionView
        decreases events.len(),
    {
        if events.len() == 0 {
            self
        } else {
            self.after_all(events.drop_last()).next(events.last())
        }
    }

    /// How far a session has come: 0 while it converts, 1 while it
    /// translates, 2 while it serialises, 3 when it is over.
    pub open spec fn phase(self) -> int {
        match self {
            SessionView::Converting { .. } => 0,
            SessionView::Translating { .. } => 1,
            SessionView::Serializing => 2,
            SessionView::Done { .. } => 3,
        }
    }

    /// A session that converts points at an entry of its plan, and a session
    /// that is over holds exactly one text, which can go out.
    pub open spec fn well_formed(self) -> bool {
        match self {
            SessionView::Converting { request, index } => 0 <= index < request.plan.entries.len(),
            SessionView::Done { result } => result.well_formed(),
            _ => true,
        }
    }
}

/// Every call opens a well-formed session.
pub proof fn lemma_begun_well_formed(sql: Option<Seq<u8>>, schema: Option<Seq<u8>>)
    ensures
        begun(sql, schema).well_formed(),
{
    match prepared(sql, schema) {
        Err(error) => {
            lemma_delivered_well_formed(Err(error));
        },
        Ok(request) => {
            match request.plan.at(0) {
                NextView::Fail { error } => {
                    lemma_delivered_well_formed(Err(error));
                },
                _ => {},
            }
        },
    }
}

/// An event keeps a session well formed and never takes it back: the phase
/// does not fall, a session that is over stays as it is, and a session that
/// still converts has moved on by one entry.
pub proof fn lemma_next_moves_forward(session: SessionView, event: EventView)
    requires
        session.well_formed(),
    ensures
        session.next(event).well_formed(),
        session.next(event).phase() >= session.phase(),
        session is Done ==> session.next(event) == session,
        session is Converting && event is Converted && session.next(event) is Converting
            ==> session.next(event)->Converting_index == session->Converting_index + 1,
{
    match (session, event) {
        (SessionView::Converting { request, index }, EventView::Converted { outcome }) => {
            match request.plan.after(index, outcome) {
                NextView::Fail { error } => {
                    lemma_delivered_well_formed(Err(error));
                },
                _ => {},
            }
        },
        (SessionView::Translating { request }, EventView::Translated { failure: Some(cause) }) => {
            lemma_delivered_well_formed(Err(CompileErrorView::Translation { cause }));
        },
        (SessionView::Serializing, EventView::Serialized { outcome: Ok(text) }) => {
            lemma_delivered_well_formed(Ok(text));
        },
        (SessionView::Serializing, EventView::Serialized { outcome: Err(cause) }) => {
            lemma_delivered_well_formed(Err(CompileErrorView::Serialization { cause }));
        },
        _ => {},
    }
}

/// Whatever the arguments of a call and whatever happens during it, the
/// session stays well formed and never falls back; so a call that is over
/// holds exactly one text, the pipeline or a diagnostic, and that text can go
/// out.
pub proof fn lemma_every_run_is_well_formed(
    sql: Option<Seq<u8>>,
    schema: Option<Seq<u8>>,
    events: Seq<EventView>,
)
    ensures
        begun(sql, schema).after_all(events).well_formed(),
        begun(sql, schema).after_all(events).phase() >= begun(sql, schema).phase(),
        begun(sql, schema).after_all(events) matches SessionView::Done { result }
            ==> result.well_formed(),
    decreases events.len(),
{
    if events.len() == 0 {
        lemma_begun_well_formed(sql, schema);
    } else {
        lemma_every_run_is_well_formed(sql, schema, events.drop_last());
        lemma_next_moves_forward(begun(sql, schema).after_all(events.drop_last()), events.last());
    }
}

fn enter(request: Request, next: Next) -> (r: Session)
    ensures
        r@ == entered(request@, next@),
{
    match next {
        Next::Convert { index } => Session::Converting { request, index },
        Next::Translate => Session::Translating { request },
        Next::Fail { error } => Session::Done { result: CompileResult::from_outcome(Err(error)) },
    }
}

impl Session {
    /// Opens a call: checks the two arguments, lists the collections of the
    /// schema document, and says what is to be done first.
    pub fn begin(sql: Option<&[u8]>, schema: Option<&[u8]>) -> (r: Session)
        ensures
            r@ == begun(argument_view(sql), argument_view(schema)),
            r@.well_formed(),
    {
        proof {
            lemma_begun_well_formed(argument_view(sql), argument_view(schema));
        }
        match prepare(sql, schema) {
            Err(error) => Session::Done { result: CompileResult::from_outcome(Err(error)) },
            Ok(request) => {
                let next = request.plan.start();
                enter(request, next)
            },
        }
    }

    /// Takes in how the work of the current stage ended and says what is to
    /// be done next. An event that does not belong to the stage changes
    /// nothing.
    pub fn step(self, event: Event) -> (r: Session)
        ensures
            r@ == self@.next(event@),
            self@.well_formed() ==> r@.well_formed(),
    {
        proof {
            if self@.well_formed() {
                lemma_next_moves_forward(self@, event@);
            }
        }
        match (self, event) {
            (Session::Converting { request, index }, Event::Converted { outcome }) => {
                if index < request.plan.entries.len() {
                    let next = request.plan.advance(index, outcome);
                    enter(request, next)
                } else {
                    Session::Converting { request, index }
                }
            },
            (Session::Translating { request }, Event::Translated { failure }) => match failure {
                None => Session::Serializing,
                Some(cause) => Session::Done {
                    result: CompileResult::from_outcome(Err(CompileError::Translation { cause })),
                },
            },
            (Session::Serializing, Event::Serialized { outcome }) => match outcome {
                Ok(text) => Session::Done { result: CompileResult::from_outcome(Ok(text)) },
                Err(cause) => Session::Done {
                    result: CompileResult::from_outcome(
                        Err(CompileError::Serialization { cause }),
                    ),
                },
            },
            (session, _) => session,
        }
    }
}

/// A call whose last step hands in a pipeline text without a zero byte is
/// over with that text as its result and no diagnostic beside it.
pub proof fn lemma_pipeline_text_is_the_result(text: Seq<char>)
    requires
        transportable(text),
    ensures
        SessionView::Serializing.next(EventView::Serialized { outcome: Ok(text) }) == (
        SessionView::Done { result: CompileResultView { result: Some(text), error: None } }),
{
}

} // verus!
