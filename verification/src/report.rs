//! What is written to the log.

use vstd::prelude::*;

verus! {

/// A line of the log.
#[derive(Debug, PartialEq, Eq)]
pub enum Report<S = String> {
    Info(S),
    Warning(S),
    Error(S),
}

impl View for Report<String> {
    type V = Report<Seq<char>>;

    open spec fn view(&self) -> Report<Seq<char>> {
        match *self {
            Report::Info(line) => Report::Info(line@),
            Report::Warning(line) => Report::Warning(line@),
            Report::Error(line) => Report::Error(line@),
        }
    }
}

/// The lines `reports` stand for.
pub open spec fn report_lines(reports: Seq<Report>) -> Seq<Report<Seq<char>>> {
    Seq::new(reports.len(), |i: int| reports[i]@)
}

} // verus!
