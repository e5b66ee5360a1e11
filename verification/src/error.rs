//! Errors of the store, and what the result protocol keeps of a typed error.

use vstd::prelude::*;
use vstd::string::StringExecFns;

verus! {

/// The text by which a store error shows itself; what went wrong is its cause.
pub open spec fn store_error_text() -> Seq<char> {
    "error using a db"@
}

/// The texts of a list of strings.
pub open spec fn texts_of(strings: Seq<String>) -> Seq<Seq<char>> {
    Seq::new(strings.len(), |i: int| strings[i]@)
}

/// Pushing a string pushes its text.
pub proof fn lemma_texts_of_push(strings: Seq<String>, last: String)
    ensures
        texts_of(strings.push(last)) == texts_of(strings).push(last@),
{
}

/// What is kept of a typed error once it reaches the boundary: the display
/// text of the error and of each of its causes, outermost first, and the text
/// of the backtrace if one was captured.
pub struct ErrorReport {
    pub chain: Vec<String>,
    pub backtrace: Option<String>,
}

impl ErrorReport {
    /// The display texts, outermost first.
    pub open spec fn texts(&self) -> Seq<Seq<char>> {
        texts_of(self.chain@)
    }

    /// The backtrace text, if there is one.
    pub open spec fn trace(&self) -> Option<Seq<char>> {
        match self.backtrace {
            Some(text) => Some(text@),
            None => None,
        }
    }

    /// A report of one error without causes or backtrace.
    pub fn single(text: &str) -> (report: ErrorReport)
        ensures
            report.texts() == seq![text@],
            report.trace() is None,
    {
        let mut chain: Vec<String> = Vec::new();
        chain.push(String::from_str(text));
        let report = ErrorReport { chain, backtrace: None };
        report
    }
}

/// An error met while working with the store. It shows itself as
/// [`store_error_text`] and carries the texts of what caused it.
pub struct Error {
    causes: Vec<String>,
}

impl View for Error {
    type V = Seq<Seq<char>>;

    /// The display texts of the cause and of its own causes, outermost first.
    closed spec fn view(&self) -> Seq<Seq<char>> {
        texts_of(self.causes@)
    }
}

impl Error {
    /// An error caused by a failure whose display texts, outermost first, are
    /// `causes`.
    pub fn fail(causes: Vec<String>) -> (e: Error)
        ensures
            e@ == texts_of(causes@),
    {
        Error { causes }
    }

    /// An error caused by a plain message.
    pub fn msg(msg: String) -> (e: Error)
        ensures
            e@ == seq![msg@],
    {
        let mut causes: Vec<String> = Vec::new();
        causes.push(msg);
        let e = Error { causes };
        e
    }

    /// The display texts of the causes, outermost first.
    pub fn causes(&self) -> (texts: &Vec<String>)
        ensures
            texts_of(texts@) == self@,
    {
        &self.causes
    }

    /// The report of this error: its own text, then its causes. A store error
    /// holds no backtrace of its own.
    pub fn report(&self) -> (report: ErrorReport)
        ensures
            report.texts() == seq![store_error_text()] + self@,
            report.trace() is None,
    {
        let mut chain: Vec<String> = Vec::new();
        chain.push(String::from_str("error using a db"));
        let n = self.causes.len();
        let mut i: usize = 0;
        while i < n
            invariant
                n == self.causes.len(),
                i <= n,
                texts_of(chain@) == seq![store_error_text()] + self@.subrange(0, i as int),
            decreases n - i,
        {
            let cause = self.causes[i].clone();
            proof {
                lemma_texts_of_push(chain@, cause);
            }
            chain.push(cause);
            i += 1;
        }
        ErrorReport { chain, backtrace: None }
    }
}

} // verus!
