//! The statement handle: query text captured at preparation, and the three
//! calls that answer with fixed values.

use vstd::prelude::*;
use crate::trace::{line, render, Operation, Traced};

verus! {

/// The text that `run` answers with: an empty object.
pub const EMPTY_OBJECT: &'static str = "{}";

/// A handle to prepared query text. The text is kept as it was given and is
/// never read as SQL.
pub struct Statement {
    sql: String,
}

impl View for Statement {
    type V = Seq<char>;

    /// The query text that the statement captured.
    closed spec fn view(&self) -> Seq<char> {
        self.sql@
    }
}

impl Statement {
    /// Captures `sql` as it is.
    pub(crate) fn capture(sql: String) -> (r: Statement)
        ensures
            r@ == sql@,
    {
        Statement { sql }
    }

    /// The captured query text.
    pub fn sql(&self) -> (r: &str)
        ensures
            r@ == self@,
    {
        self.sql.as_str()
    }

    /// Answers with the empty object, whatever the statement and the parameters.
    pub fn run(&self, _params: Option<String>) -> (r: Traced<String>)
        ensures
            r.value@ == EMPTY_OBJECT@,
            r.trace@ == line(Operation::Run, self@),
    {
        Traced { value: EMPTY_OBJECT.to_owned(), trace: render(Operation::Run, self.sql.as_str()) }
    }

    /// Answers with no row, whatever the statement and the parameters.
    pub fn get(&self, _params: Option<String>) -> (r: Traced<Option<String>>)
        ensures
            r.value is None,
            r.trace@ == line(Operation::Get, self@),
    {
        Traced { value: None, trace: render(Operation::Get, self.sql.as_str()) }
    }

    /// Answers with no rows, whatever the statement and the parameters.
    pub fn all(&self, _params: Option<String>) -> (r: Traced<Vec<String>>)
        ensures
            r.value@ == Seq::<String>::empty(),
            r.trace@ == line(Operation::All, self@),
    {
        Traced { value: Vec::new(), trace: render(Operation::All, self.sql.as_str()) }
    }
}

} // verus!
