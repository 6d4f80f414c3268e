//! What is reported of a run: one line per file or failure, and the exit
//! status.

use crate::options::ValidationError;
use vstd::prelude::*;
use vstd::string::*;

verus! {

/// The two kinds of unit that are generated.
#[derive(Clone, Copy, Debug, PartialEq, Eq, Structural)]
pub enum UnitKind {
    Service,
    Timer,
}

/// How writing one file ended.
#[derive(Clone, Copy, Debug, PartialEq, Eq, Structural)]
pub enum WriteOutcome {
    /// The file was created and its content written.
    Written,
    /// The file could not be created.
    CreateFailed,
    /// The file was created but its content could not be written.
    WriteFailed,
}

/// The words that open the line reported for a file of `kind` whose writing
/// ended in `outcome`; the path of the file follows them.
pub open spec fn write_report_opening(kind: UnitKind, outcome: WriteOutcome) -> Seq<char> {
    match (outcome, kind) {
        (WriteOutcome::Written, UnitKind::Service) => "Wrote service file "@,
        (WriteOutcome::Written, UnitKind::Timer) => "Wrote timer file "@,
        (WriteOutcome::CreateFailed, UnitKind::Service) => "Error creating sevice file "@,
        (WriteOutcome::CreateFailed, UnitKind::Timer) => "Error creating timer file "@,
        (WriteOutcome::WriteFailed, UnitKind::Service) => "Error writing service file "@,
        (WriteOutcome::WriteFailed, UnitKind::Timer) => "Error writing timer file "@,
    }
}

/// The line reported for a record that was refused; `exec_start` is the
/// start command of the record.
pub open spec fn refusal_report(error: ValidationError, exec_start: Seq<char>) -> Seq<char> {
    match error {
        ValidationError::ExecutableNotFound => "Executable "@ + exec_start + " does not exist"@,
        ValidationError::MissingCalendarSpec => "Timer flag was specified but no OnCalendar"@,
    }
}

/// Whether every file was written.
pub open spec fn all_written(outcomes: Seq<WriteOutcome>) -> bool {
    forall|i: int| 0 <= i < outcomes.len() ==> #[trigger] outcomes[i] == WriteOutcome::Written
}

impl WriteOutcome {
    /// The line to report for the file at `path`, a unit of `kind`.
    pub fn message(&self, kind: UnitKind, path: &str) -> (line: String)
        ensures
            line@ == write_report_opening(kind, *self) + path@,
    {
        let opening = match (self, kind) {
            (WriteOutcome::Written, UnitKind::Service) => "Wrote service file ",
            (WriteOutcome::Written, UnitKind::Timer) => "Wrote timer file ",
            (WriteOutcome::CreateFailed, UnitKind::Service) => "Error creating sevice file ",
            (WriteOutcome::CreateFailed, UnitKind::Timer) => "Error creating timer file ",
            (WriteOutcome::WriteFailed, UnitKind::Service) => "Error writing service file ",
            (WriteOutcome::WriteFailed, UnitKind::Timer) => "Error writing timer file ",
        };
        let mut line = opening.to_owned();
        line.append(path);
        line
    }
}

impl ValidationError {
    /// The line to report for a record refused with this error;
    /// `exec_start` is the start command of the record.
    pub fn message(&self, exec_start: &str) -> (line: String)
        ensures
            line@ == refusal_report(*self, exec_start@),
    {
        match self {
            ValidationError::ExecutableNotFound => {
                let mut line = "Executable ".to_owned();
                line.append(exec_start);
                line.append(" does not exist");
                line
            },
            ValidationError::MissingCalendarSpec => {
                "Timer flag was specified but no OnCalendar".to_owned()
            },
        }
    }
}

/// The exit status of a run that wrote files with the given outcomes: 0
/// where every file was written, 1 where any failed.
pub fn exit_code(outcomes: &Vec<WriteOutcome>) -> (code: i32)
    ensures
        code == 0 <==> all_written(outcomes@),
        code == 0 || code == 1,
{
    let mut i: usize = 0;
    while i < outcomes.len()
        invariant
            i <= outcomes.len(),
            all_written(outcomes@.take(i as int)),
        decreases outcomes.len() - i,
    {
        match outcomes[i] {
            WriteOutcome::Written => {},
            _ => {
                assert(outcomes@[i as int] != WriteOutcome::Written);
                return 1;
            },
        }
        assert forall|j: int| 0 <= j < i + 1 implies #[trigger] outcomes@.take(i + 1)[j]
            == WriteOutcome::Written by {
            if j < i {
                assert(outcomes@.take(i as int)[j] == WriteOutcome::Written);
            }
        }
        i += 1;
    }
    assert(outcomes@.take(i as int) =~= outcomes@);
    0
}

/// The exit status of a run whose record was refused.
pub fn refusal_exit_code() -> (code: i32)
    ensures
        code == 1,
{
    1
}

} // verus!
