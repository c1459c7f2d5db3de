use vstd::prelude::*;

verus! {

/// Where a line is written.
#[derive(Debug, PartialEq, Eq, Clone, Copy)]
pub enum Stream {
    /// Standard output: a notice.
    Stdout,
    /// Standard error: a diagnostic.
    Stderr,
}

/// One line for the user.
#[derive(Debug, PartialEq, Eq)]
pub struct Report {
    pub stream: Stream,
    pub text: String,
}

/// The mathematical value of a [`Report`].
pub struct ReportView {
    pub stream: Stream,
    pub text: Seq<char>,
}

impl View for Report {
    type V = ReportView;

    open spec fn view(&self) -> ReportView {
        ReportView { stream: self.stream, text: self.text@ }
    }
}

/// The lines that a list of reports holds, in order.
pub open spec fn reports_view(reports: Seq<Report>) -> Seq<ReportView> {
    Seq::new(reports.len(), |i: int| reports[i]@)
}

/// A notice with the text `text`.
pub open spec fn notice(text: Seq<char>) -> ReportView {
    ReportView { stream: Stream::Stdout, text }
}

/// A diagnostic with the text `text`.
pub open spec fn diagnostic(text: Seq<char>) -> ReportView {
    ReportView { stream: Stream::Stderr, text }
}

} // verus!
