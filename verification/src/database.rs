//! The database handle: a path captured at construction, and calls that
//! accept any text and change nothing.

use vstd::prelude::*;
use crate::statement::Statement;
use crate::trace::{line, render, Operation, Traced};

verus! {

/// A handle to a database named by a path. No file stands behind it.
pub struct Database {
    path: String,
}

impl View for Database {
    type V = Seq<char>;

    /// The path that the handle captured.
    closed spec fn view(&self) -> Seq<char> {
        self.path@
    }
}

impl Database {
    /// Makes a handle that captures `path` as it is. The options are accepted
    /// and not looked at.
    pub fn new(path: String, _options: Option<String>) -> (r: Traced<Database>)
        ensures
            r.value@ == path@,
            r.trace@ == line(Operation::Open, path@),
    {
        let trace = render(Operation::Open, path.as_str());
        Traced { value: Database { path }, trace }
    }

    /// The captured path.
    pub fn path(&self) -> (r: &str)
        ensures
            r@ == self@,
    {
        self.path.as_str()
    }

    /// Makes a statement that captures `sql` as it is, whatever it holds.
    pub fn prepare(&self, sql: String) -> (r: Traced<Statement>)
        ensures
            r.value@ == sql@,
            r.trace@ == line(Operation::Prepare, sql@),
    {
        let trace = render(Operation::Prepare, sql.as_str());
        Traced { value: Statement::capture(sql), trace }
    }

    /// Accepts `sql` and runs nothing.
    pub fn exec(&self, sql: String) -> (r: Traced<()>)
        ensures
            r.trace@ == line(Operation::Exec, sql@),
    {
        Traced { value: (), trace: render(Operation::Exec, sql.as_str()) }
    }

    /// Releases nothing, since nothing was acquired. The handle stays as
    /// usable as it was.
    pub fn close(&self) -> (r: Traced<()>)
        ensures
            r.trace@ == line(Operation::Close, Seq::<char>::empty()),
    {
        proof {
            reveal_strlit("");
        }
        Traced { value: (), trace: render(Operation::Close, "") }
    }

    /// Answers with no value, whatever the pragma.
    pub fn pragma(&self, pragma: String) -> (r: Traced<Option<String>>)
        ensures
            r.value is None,
            r.trace@ == line(Operation::Pragma, pragma@),
    {
        Traced { value: None, trace: render(Operation::Pragma, pragma.as_str()) }
    }
}

} // verus!
