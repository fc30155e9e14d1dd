//! The two free-standing entry points that callers of the real driver expect
//! beside the handles.

use vstd::prelude::*;
use crate::database::Database;
use crate::trace::{line, render, Operation, Traced};

verus! {

/// Accepts a constructor of any kind, as an opaque value, and drops it unused.
pub fn set_error_constructor<C>(_constructor: C) -> (r: Traced<()>)
    ensures
        r.trace@ == line(Operation::SetErrorConstructor, Seq::<char>::empty()),
{
    proof {
        reveal_strlit("");
    }
    Traced { value: (), trace: render(Operation::SetErrorConstructor, "") }
}

/// Another name for `Database::new`: the same handle and the same line.
pub fn better_sqlite3(path: String, options: Option<String>) -> (r: Traced<Database>)
    ensures
        r.value@ == path@,
        r.trace@ == line(Operation::Open, path@),
{
    Database::new(path, options)
}

} // verus!
