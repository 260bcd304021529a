//! The journal lines of a request.
//!
//! Every line starts with the request's tag, so that the lines of one request
//! can be found again among those of all the others.

use vstd::prelude::*;
use vstd::string::*;

use crate::ident::{hyphenated, hyphenated_text, CorrelationId};

verus! {

/// How serious a journal line is.
#[derive(Clone, Copy, Debug, PartialEq, Eq, Structural)]
pub enum Level {
    Info,
    Error,
}

/// One line for the journal.
#[derive(Debug)]
pub struct Entry {
    pub level: Level,
    pub message: String,
}

/// The mathematical content of an [`Entry`].
pub struct EntryView {
    pub level: Level,
    pub message: Seq<char>,
}

impl View for Entry {
    type V = EntryView;

    open spec fn view(&self) -> EntryView {
        EntryView { level: self.level, message: self.message@ }
    }
}

/// What every line of a request starts with.
pub open spec fn tagged(id: CorrelationId) -> Seq<char> {
    "request_id "@ + hyphenated_text(id.0) + " - "@
}

/// The line that announces a submission.
pub open spec fn adding_line(id: CorrelationId, email: Seq<char>, name: Seq<char>) -> EntryView {
    EntryView {
        level: Level::Info,
        message: tagged(id) + "Adding '"@ + email + "' '"@ + name + "' as a new subscriber"@,
    }
}

/// The line written just before the insert is tried.
pub open spec fn saving_line(id: CorrelationId) -> EntryView {
    EntryView {
        level: Level::Info,
        message: tagged(id) + "Saving new subscriber in the database"@,
    }
}

/// The line written after the insert went through.
pub open spec fn saved_line(id: CorrelationId) -> EntryView {
    EntryView { level: Level::Info, message: tagged(id) + "New subscriber has been saved!"@ }
}

/// The line written after the insert failed; `detail` describes the error.
pub open spec fn failed_line(id: CorrelationId, detail: Seq<char>) -> EntryView {
    EntryView {
        level: Level::Error,
        message: tagged(id) + "Failed to execute query: "@ + detail,
    }
}

/// Starts a message with the request's tag.
fn start(id: CorrelationId) -> (message: String)
    ensures
        message@ == tagged(id),
{
    let mut message = String::from_str("request_id ");
    let tag = hyphenated(id.0);
    message.append(tag.as_str());
    message.append(" - ");
    message
}

impl Entry {
    /// The line that announces a submission, with the submitted texts as
    /// they came.
    pub fn adding(id: CorrelationId, email: &str, name: &str) -> (entry: Entry)
        ensures
            entry@ == adding_line(id, email@, name@),
    {
        let mut message = start(id);
        message.append("Adding '");
        message.append(email);
        message.append("' '");
        message.append(name);
        message.append("' as a new subscriber");
        Entry { level: Level::Info, message }
    }

    /// The line written just before the insert is tried.
    pub fn saving(id: CorrelationId) -> (entry: Entry)
        ensures
            entry@ == saving_line(id),
    {
        let mut message = start(id);
        message.append("Saving new subscriber in the database");
        Entry { level: Level::Info, message }
    }

    /// The line written after the insert went through.
    pub fn saved(id: CorrelationId) -> (entry: Entry)
        ensures
            entry@ == saved_line(id),
    {
        let mut message = start(id);
        message.append("New subscriber has been saved!");
        Entry { level: Level::Info, message }
    }

    /// The line written after the insert failed. `detail` is the error as
    /// the database layer describes it.
    pub fn failed(id: CorrelationId, detail: &str) -> (entry: Entry)
        ensures
            entry@ == failed_line(id, detail@),
    {
        let mut message = start(id);
        message.append("Failed to execute query: ");
        message.append(detail);
        Entry { level: Level::Error, message }
    }
}

} // verus!
