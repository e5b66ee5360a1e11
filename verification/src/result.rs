//! The result of a call across the boundary, and the per-thread record of the
//! last one.
//!
//! Every call returns a [`DbResult`]. What went wrong in detail is kept per
//! thread in a [`LastResultSlot`], which a separate call reads. A call is
//! opened with [`LastResultSlot::begin`], may record an error with
//! [`DbResult::context`] while it runs, and is closed with
//! [`DbResult::catch`], which is told whether the body returned or panicked.

use crate::error::{store_error_text, Error, ErrorReport};
use vstd::prelude::*;
use vstd::string::StringExecFns;

verus! {

broadcast use vstd::seq::Seq::lemma_flatten_push;

/// The five outcomes a call can have.
#[derive(Debug, Clone, Copy, PartialEq, Eq, Structural)]
pub enum Kind {
    /// The call did what was asked.
    Success,
    /// The call succeeded and there is no more data.
    Done,
    /// A buffer of the caller cannot hold what the call has for it.
    BufferTooSmall,
    /// A required argument was null.
    ArgumentNull,
    /// Anything else: the store failed, or the call panicked.
    InternalError,
}

/// The text that stands for an error of this kind when nothing more is known
/// of it; the two successes have none.
pub open spec fn default_text(kind: Kind) -> Option<Seq<char>> {
    match kind {
        Kind::Success | Kind::Done => None,
        Kind::ArgumentNull => Some("a required argument was null"@),
        Kind::BufferTooSmall => Some("a supplied buffer was too small"@),
        Kind::InternalError => Some("an internal error occurred"@),
    }
}

/// The result of making a call across the boundary.
///
/// It says whether the call succeeded. For an error, the last result of the
/// calling thread holds the details.
#[derive(Debug, Clone, Copy, PartialEq, Eq, Structural)]
pub struct DbResult {
    pub kind: Kind,
}

/// What a thread's record of its last call holds: the result, and the detail
/// text if one was recorded.
pub type Recorded = Option<(DbResult, Option<Seq<char>>)>;

/// The detail recorded for a panic that carried the message `message`.
pub open spec fn panic_detail(message: Seq<char>) -> Seq<char> {
    "internal panic with '"@ + message + "'"@
}

/// The lines that a report is formatted into: the error itself, closed by a
/// full stop, then each cause, then the backtrace.
pub open spec fn report_lines(texts: Seq<Seq<char>>, trace: Option<Seq<char>>) -> Seq<Seq<char>> {
    Seq::new(
        texts.len(),
        |i: int|
            if i == 0 {
                texts[i] + ".\n"@
            } else {
                "   caused by: "@ + texts[i] + "\n"@
            },
    ) + match trace {
        Some(text) => seq!["backtrace: "@ + text + "\n"@],
        None => seq![],
    }
}

/// The detail text of a report: its lines, one after the other.
pub open spec fn formatted(texts: Seq<Seq<char>>, trace: Option<Seq<char>>) -> Seq<char> {
    report_lines(texts, trace).flatten()
}

/// The record after a call whose body returned `returned`: the result is the
/// one returned; a detail recorded while the call ran stays, and where none
/// was, an error gets its default text.
pub open spec fn after_return(before: Recorded, returned: DbResult) -> (DbResult, Option<Seq<char>>) {
    (
        returned,
        match before {
            Some((_, Some(detail))) => Some(detail),
            _ => default_text(returned.kind),
        },
    )
}

/// The record after a call whose body panicked: the result is an internal
/// error; the panic's message becomes the detail, and where the panic had
/// none, a detail recorded while the call ran stays.
pub open spec fn after_panic(before: Recorded, message: Option<Seq<char>>) -> (
    DbResult,
    Option<Seq<char>>,
) {
    (
        DbResult { kind: Kind::InternalError },
        match message {
            Some(text) => Some(panic_detail(text)),
            None => match before {
                Some((_, detail)) => detail,
                None => None,
            },
        },
    )
}

/// What a query of the record shows: the result, and the detail only if the
/// result is an error.
pub open spec fn reported(record: Recorded) -> Recorded {
    match record {
        Some((value, detail)) => Some(
            (
                value,
                if default_text(value.kind) is Some {
                    detail
                } else {
                    None
                },
            ),
        ),
        None => None,
    }
}

/// What a panic carried with it.
pub enum PanicPayload {
    /// An owned message, as a formatted panic carries.
    Text(String),
    /// A literal message.
    Literal(&'static str),
    /// Anything else; nothing can be read from it.
    Opaque,
}

impl PanicPayload {
    /// The message of the panic, if it carried one.
    pub open spec fn message(&self) -> Option<Seq<char>> {
        match self {
            PanicPayload::Text(text) => Some(text@),
            PanicPayload::Literal(text) => Some(text@),
            PanicPayload::Opaque => None,
        }
    }
}

/// How the body of a call ended.
pub enum CallOutcome {
    /// The body returned this result.
    Returned(DbResult),
    /// The body panicked with this payload.
    Panicked(PanicPayload),
}

impl CallOutcome {
    /// The record after a call that ended this way.
    pub open spec fn record(&self, before: Recorded) -> (DbResult, Option<Seq<char>>) {
        match self {
            CallOutcome::Returned(returned) => after_return(before, *returned),
            CallOutcome::Panicked(payload) => after_panic(before, payload.message()),
        }
    }
}

/// The last result of a thread with its detail.
#[derive(Debug)]
pub struct LastResult {
    pub value: DbResult,
    pub err: Option<String>,
}

impl View for LastResult {
    type V = (DbResult, Option<Seq<char>>);

    open spec fn view(&self) -> (DbResult, Option<Seq<char>>) {
        (
            self.value,
            match self.err {
                Some(text) => Some(text@),
                None => None,
            },
        )
    }
}

/// A thread's record of its last call. Each thread has one of its own, so no
/// caller sees another's details.
pub struct LastResultSlot {
    last: Option<LastResult>,
}

impl View for LastResultSlot {
    type V = Recorded;

    closed spec fn view(&self) -> Recorded {
        match self.last {
            Some(last) => Some(last@),
            None => None,
        }
    }
}

impl LastResultSlot {
    /// The record of a thread that has made no call yet.
    pub fn new() -> (slot: Self)
        ensures
            slot@ is None,
    {
        LastResultSlot { last: None }
    }

    /// Opens a call: what the last one left is forgotten.
    pub fn begin(&mut self)
        ensures
            final(self)@ is None,
    {
        self.last = None;
    }

    /// The record as it stands, with a detail that a query would not show.
    pub fn stored(&self) -> (last: Option<&LastResult>)
        ensures
            match last {
                Some(stored) => self@ == Some(stored@),
                None => self@ is None,
            },
    {
        self.last.as_ref()
    }

    /// The last result and, if it is an error, its detail. The record is not
    /// changed, so the query can be repeated.
    pub fn last_result(&self) -> (shown: Option<(DbResult, Option<&str>)>)
        ensures
            shown_record(shown) == reported(self@),
    {
        match &self.last {
            Some(last) => {
                let msg = match last.value.as_err() {
                    Some(_) => match &last.err {
                        Some(text) => Some(text.as_str()),
                        None => None,
                    },
                    None => None,
                };
                Some((last.value, msg))
            },
            None => None,
        }
    }
}

/// The record that a query result shows.
pub open spec fn shown_record(shown: Option<(DbResult, Option<&str>)>) -> Recorded {
    match shown {
        Some((value, Some(text))) => Some((value, Some(text@))),
        Some((value, None)) => Some((value, None)),
        None => None,
    }
}

impl DbResult {
    /// The call did what was asked.
    pub fn ok() -> (r: Self)
        ensures
            r.kind == Kind::Success,
    {
        DbResult { kind: Kind::Success }
    }

    /// Whether the call did what was asked. A call that is done is no plain
    /// success.
    pub fn is_ok(&self) -> (b: bool)
        ensures
            b == (self.kind == Kind::Success),
    {
        self.kind == Kind::Success
    }

    /// The call succeeded and there is no more data.
    pub fn done() -> (r: Self)
        ensures
            r.kind == Kind::Done,
    {
        DbResult { kind: Kind::Done }
    }

    /// Whether the call succeeded with no more data.
    pub fn is_done(&self) -> (b: bool)
        ensures
            b == (self.kind == Kind::Done),
    {
        self.kind == Kind::Done
    }

    /// A buffer of the caller was too small; with a larger one the call can
    /// be made again.
    pub fn buffer_too_small() -> (r: Self)
        ensures
            r.kind == Kind::BufferTooSmall,
    {
        DbResult { kind: Kind::BufferTooSmall }
    }

    /// Whether a buffer of the caller was too small.
    pub fn is_buffer_too_small(&self) -> (b: bool)
        ensures
            b == (self.kind == Kind::BufferTooSmall),
    {
        self.kind == Kind::BufferTooSmall
    }

    /// A required argument was null.
    pub fn argument_null() -> (r: Self)
        ensures
            r.kind == Kind::ArgumentNull,
    {
        DbResult { kind: Kind::ArgumentNull }
    }

    /// Whether a required argument was null.
    pub fn is_argument_null(&self) -> (b: bool)
        ensures
            b == (self.kind == Kind::ArgumentNull),
    {
        self.kind == Kind::ArgumentNull
    }

    /// The store failed, or the call panicked.
    pub fn internal_error() -> (r: Self)
        ensures
            r.kind == Kind::InternalError,
    {
        DbResult { kind: Kind::InternalError }
    }

    /// Whether the store failed or the call panicked.
    pub fn is_internal_error(&self) -> (b: bool)
        ensures
            b == (self.kind == Kind::InternalError),
    {
        self.kind == Kind::InternalError
    }

    /// The default text of an error; `None` for the two successes.
    pub fn as_err(&self) -> (text: Option<&'static str>)
        ensures
            match text {
                Some(t) => default_text(self.kind) == Some(t@),
                None => default_text(self.kind) is None,
            },
    {
        match self.kind {
            Kind::Success | Kind::Done => None,
            Kind::ArgumentNull => Some("a required argument was null"),
            Kind::BufferTooSmall => Some("a supplied buffer was too small"),
            Kind::InternalError => Some("an internal error occurred"),
        }
    }

    /// Records this error with the report of what caused it as the last
    /// result of the thread, and hands the error back. Only an error can be
    /// given a context.
    pub fn context(self, e: &ErrorReport, slot: &mut LastResultSlot) -> (r: Self)
        requires
            default_text(self.kind) is Some,
        ensures
            r == self,
            final(slot)@ == Some((self, Some(formatted(e.texts(), e.trace())))),
    {
        let err = Some(format_error(e));
        slot.last = Some(LastResult { value: self, err });
        self
    }

    /// Turns a typed error into a result: an internal error, with the report
    /// recorded as its context.
    pub fn from(e: &ErrorReport, slot: &mut LastResultSlot) -> (r: Self)
        ensures
            r.kind == Kind::InternalError,
            final(slot)@ == Some((r, Some(formatted(e.texts(), e.trace())))),
    {
        DbResult::internal_error().context(e, slot)
    }

    /// Turns what the store answered into a result: a success, or an internal
    /// error with the store's error recorded as its context.
    pub fn from_result(result: Result<(), Error>, slot: &mut LastResultSlot) -> (r: Self)
        ensures
            match result {
                Ok(_) => r.kind == Kind::Success && final(slot)@ == old(slot)@,
                Err(e) => r.kind == Kind::InternalError && final(slot)@ == Some(
                    (r, Some(formatted(seq![store_error_text()] + e@, None))),
                ),
            },
    {
        match result {
            Ok(_) => DbResult::ok(),
            Err(e) => DbResult::from(&e.report(), slot),
        }
    }

    /// Closes a call whose body ended as `outcome` says, and gives the result
    /// that goes back to the caller. The record always matches what is
    /// returned.
    pub fn catch(outcome: CallOutcome, slot: &mut LastResultSlot) -> (r: Self)
        ensures
            final(slot)@ == Some(outcome.record(old(slot)@)),
            r == outcome.record(old(slot)@).0,
    {
        let before = slot.last.take();
        match outcome {
            CallOutcome::Returned(db_result) => {
                // The last result is always set so that it matches what is
                // returned: a body that returned may still have failed.
                let err = match before {
                    Some(LastResult { value: _, err: Some(detail) }) => Some(detail),
                    _ => match db_result.as_err() {
                        Some(text) => Some(String::from_str(text)),
                        None => None,
                    },
                };
                slot.last = Some(LastResult { value: db_result, err });
                db_result
            },
            CallOutcome::Panicked(payload) => {
                let value = DbResult::internal_error();
                let err = match extract_panic(&payload) {
                    Some(message) => {
                        let mut detail = String::from_str("internal panic with '");
                        detail.append(message.as_str());
                        detail.append("'");
                        Some(detail)
                    },
                    None => match before {
                        Some(last) => last.err,
                        None => None,
                    },
                };
                slot.last = Some(LastResult { value, err });
                value
            },
        }
    }

    /// Hands the last result of the thread to `f`: the result and, if it is an
    /// error, its detail; nothing if the thread has made no call.
    pub fn with_last_result<R, F: Fn(Option<(DbResult, Option<&str>)>) -> R>(
        slot: &LastResultSlot,
        f: F,
    ) -> (r: R)
        requires
            forall|shown: Option<(DbResult, Option<&str>)>|
                shown_record(shown) == reported(slot@) ==> f.requires((shown,)),
        ensures
            exists|shown: Option<(DbResult, Option<&str>)>|
                shown_record(shown) == reported(slot@) && f.ensures((shown,), r),
    {
        f(slot.last_result())
    }

    /// Splits a result into success and error.
    pub fn into_result(self) -> (r: Result<Self, Self>)
        ensures
            r == (if default_text(self.kind) is None {
                Ok::<Self, Self>(self)
            } else {
                Err::<Self, Self>(self)
            }),
    {
        match self.kind {
            Kind::Success | Kind::Done => Ok(self),
            _ => Err(self),
        }
    }

    /// Takes an error for what it is; a success is no error.
    pub fn from_error(result: Self) -> (r: Self)
        requires
            default_text(result.kind) is Some,
        ensures
            r == result,
    {
        result
    }

    /// Takes a success for what it is; an error is no success.
    pub fn from_ok(result: Self) -> (r: Self)
        requires
            default_text(result.kind) is None,
        ensures
            r == result,
    {
        result
    }
}

/// Formats a report as the detail text: the error closed by a full stop, each
/// cause on a line of its own, and the backtrace if there is one.
pub fn format_error(err: &ErrorReport) -> (detail: String)
    ensures
        detail@ == formatted(err.texts(), err.trace()),
{
    let mut error_string = String::new();
    let ghost lines = report_lines(err.texts(), err.trace());
    let n = err.chain.len();
    let mut i: usize = 0;
    while i < n
        invariant
            n == err.chain.len(),
            i <= n,
            lines == report_lines(err.texts(), err.trace()),
            error_string@ == lines.subrange(0, i as int).flatten(),
        decreases n - i,
    {
        if i == 0 {
            error_string.append(err.chain[i].as_str());
            error_string.append(".\n");
        } else {
            error_string.append("   caused by: ");
            error_string.append(err.chain[i].as_str());
            error_string.append("\n");
        }
        assert(lines.subrange(0, i + 1) =~= lines.subrange(0, i as int).push(lines[i as int]));
        i += 1;
    }
    match &err.backtrace {
        Some(backtrace) => {
                error_string.append("backtrace: ");
            error_string.append(backtrace.as_str());
            error_string.append("\n");
            assert(lines =~= lines.subrange(0, n as int).push(lines[n as int]));
        },
        None => {
            assert(lines =~= lines.subrange(0, n as int));
        },
    }
    error_string
}

/// The message that a panic carried, if it carried one.
pub fn extract_panic(err: &PanicPayload) -> (message: Option<String>)
    ensures
        match message {
            Some(text) => err.message() == Some(text@),
            None => err.message() is None,
        },
{
    match err {
        PanicPayload::Text(text) => Some(text.clone()),
        PanicPayload::Literal(text) => Some(String::from_str(text)),
        PanicPayload::Opaque => None,
    }
}

/// After a call that succeeded, a query shows its result and no detail,
/// whatever was recorded while the call ran.
pub proof fn lemma_success_shows_no_detail(before: Recorded, returned: DbResult)
    requires
        default_text(returned.kind) is None,
    ensures
        after_return(before, returned).0 == returned,
        reported(Some(after_return(before, returned))) == Some((returned, None::<Seq<char>>)),
{
}

/// The detail of a report is not empty and begins with the display text of
/// the error itself.
pub proof fn lemma_formatted_shows_error(texts: Seq<Seq<char>>, trace: Option<Seq<char>>)
    requires
        texts.len() > 0,
    ensures
        formatted(texts, trace).len() > 0,
        texts[0].is_prefix_of(formatted(texts, trace)),
{
    reveal_strlit(".\n");
}

/// A call whose body raised a typed error returns an internal error, and a
/// query then shows the detail of the error's report. `before` is what the
/// record held when the error was raised.
pub proof fn lemma_typed_error_is_reported(
    before: Recorded,
    texts: Seq<Seq<char>>,
    trace: Option<Seq<char>>,
)
    requires
        texts.len() > 0,
    ensures
        ({
            let raised = DbResult { kind: Kind::InternalError };
            let recorded = Some((raised, Some(formatted(texts, trace))));
            let closed = after_return(recorded, raised);
            &&& closed.0 == raised
            &&& reported(Some(closed)) == Some((raised, Some(formatted(texts, trace))))
            &&& formatted(texts, trace).len() > 0
            &&& texts[0].is_prefix_of(formatted(texts, trace))
        }),
{
    lemma_formatted_shows_error(texts, trace);
}

/// A call whose body panicked returns an internal error, and where the panic
/// carried a message a query then shows a detail that holds the message.
pub proof fn lemma_panic_is_internal_error(before: Recorded, message: Option<Seq<char>>)
    ensures
        after_panic(before, message).0.kind == Kind::InternalError,
        message matches Some(text) ==> {
            let opening = "internal panic with '"@;
            &&& reported(Some(after_panic(before, message))) == Some(
                (DbResult { kind: Kind::InternalError }, Some(panic_detail(text))),
            )
            &&& panic_detail(text).subrange(opening.len() as int, (opening.len() + text.len()) as int)
                == text
        },
{
    match message {
        Some(text) => {
            let opening = "internal panic with '"@;
            assert(panic_detail(text).subrange(opening.len() as int, (opening.len() + text.len()) as int)
                =~= text);
        },
        None => {},
    }
}

} // verus!
