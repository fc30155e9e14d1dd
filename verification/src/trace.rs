//! The diagnostic line that announces each call, and the pairing of a call's
//! answer with that line.

use vstd::prelude::*;

verus! {

/// The calls that the driver announces.
#[derive(Clone, Copy, Debug, PartialEq, Eq, Structural)]
pub enum Operation {
    /// A database handle is constructed.
    Open,
    /// A statement is prepared from query text.
    Prepare,
    /// Query text is handed over for execution.
    Exec,
    /// A database handle is closed.
    Close,
    /// A pragma is asked for.
    Pragma,
    /// A statement is run.
    Run,
    /// One row is asked of a statement.
    Get,
    /// All rows are asked of a statement.
    All,
    /// An error constructor is registered.
    SetErrorConstructor,
}

/// The tag that every diagnostic line begins with.
pub const TAG: &'static str = "[SQLite Stub] ";

impl Operation {
    /// The words by which a line names this operation.
    pub open spec fn announcement(self) -> Seq<char> {
        match self {
            Operation::Open => "Opening database: "@,
            Operation::Prepare => "Preparing statement: "@,
            Operation::Exec => "Executing: "@,
            Operation::Close => "Closing database"@,
            Operation::Pragma => "Pragma: "@,
            Operation::Run => "Running statement: "@,
            Operation::Get => "Getting from statement: "@,
            Operation::All => "Getting all from statement: "@,
            Operation::SetErrorConstructor => "setErrorConstructor called"@,
        }
    }

    /// The words by which a line names this operation, as text.
    pub fn label(self) -> (r: &'static str)
        ensures
            r@ == self.announcement(),
    {
        match self {
            Operation::Open => "Opening database: ",
            Operation::Prepare => "Preparing statement: ",
            Operation::Exec => "Executing: ",
            Operation::Close => "Closing database",
            Operation::Pragma => "Pragma: ",
            Operation::Run => "Running statement: ",
            Operation::Get => "Getting from statement: ",
            Operation::All => "Getting all from statement: ",
            Operation::SetErrorConstructor => "setErrorConstructor called",
        }
    }
}

/// The diagnostic line for `op` on `subject`: the tag, the operation's
/// announcement, and the subject as it was given. A call that has no text to
/// name is announced with the empty subject.
pub open spec fn line(op: Operation, subject: Seq<char>) -> Seq<char> {
    TAG@ + op.announcement() + subject
}

/// Builds the diagnostic line for `op` on `subject`.
pub fn render(op: Operation, subject: &str) -> (r: String)
    ensures
        r@ == line(op, subject@),
{
    let mut text = TAG.to_owned();
    text.append(op.label());
    text.append(subject);
    text
}

/// A line falls into its three parts again: it begins with the tag, goes on
/// with the operation's announcement, and ends with the subject, unchanged.
pub proof fn lemma_line_parts(op: Operation, subject: Seq<char>)
    ensures
        line(op, subject).len() == TAG@.len() + op.announcement().len() + subject.len(),
        line(op, subject).take(TAG@.len() as int) == TAG@,
        line(op, subject).skip(TAG@.len() as int).take(op.announcement().len() as int)
            == op.announcement(),
        line(op, subject).skip((TAG@.len() + op.announcement().len()) as int) == subject,
{
    let whole = line(op, subject);
    let head = TAG@.len() as int;
    let middle = op.announcement().len() as int;
    assert(whole.take(head) =~= TAG@);
    assert(whole.skip(head).take(middle) =~= op.announcement());
    assert(whole.skip(head + middle) =~= subject);
}

/// A line tells which call it announces and on what: two lines are the same
/// only for the same operation on the same subject.
pub proof fn lemma_line_tells_call(
    op1: Operation,
    subject1: Seq<char>,
    op2: Operation,
    subject2: Seq<char>,
)
    requires
        line(op1, subject1) == line(op2, subject2),
    ensures
        op1 == op2,
        subject1 == subject2,
{
    reveal_strlit("[SQLite Stub] ");
    reveal_strlit("Opening database: ");
    reveal_strlit("Preparing statement: ");
    reveal_strlit("Executing: ");
    reveal_strlit("Closing database");
    reveal_strlit("Pragma: ");
    reveal_strlit("Running statement: ");
    reveal_strlit("Getting from statement: ");
    reveal_strlit("Getting all from statement: ");
    reveal_strlit("setErrorConstructor called");
    let head = TAG@.len() as int;
    let one = line(op1, subject1);
    let two = line(op2, subject2);
    // The announcements differ pairwise at their first, third or ninth character.
    assert(one[head] == op1.announcement()[0] && two[head] == op2.announcement()[0]);
    assert(one[head + 2] == op1.announcement()[2] && two[head + 2] == op2.announcement()[2]);
    if (op1 == Operation::Get || op1 == Operation::All) && (op2 == Operation::Get || op2
        == Operation::All) {
        assert(one[head + 8] == op1.announcement()[8] && two[head + 8] == op2.announcement()[8]);
    }
    assert(op1 == op2);
    lemma_line_parts(op1, subject1);
    lemma_line_parts(op2, subject2);
}

/// The answer to a call together with the diagnostic line that announces the call.
pub struct Traced<T> {
    /// What the call answers.
    pub value: T,
    /// The line to be written to the diagnostic stream.
    pub trace: String,
}

} // verus!
