//! The handler of a subscription request.
//!
//! A request is handled in two steps with one insert between them.
//! [`subscribe`] takes the form and says what to write to the journal and
//! what to store. The caller runs the insert, once, and hands its result to
//! [`Handling::conclude`], which says how the request ends. There is no
//! third step: a failed insert is not tried again.

use vstd::prelude::*;

use crate::clock::{utc_now, Timestamp};
use crate::form::{FormData, FormView};
use crate::ident::{is_random_id, random_id, CorrelationId, SubscriberId};
use crate::journal::{adding_line, failed_line, saved_line, saving_line, Entry, EntryView};
use crate::outcome::Outcome;
use crate::record::{Subscriber, SubscriberView};

verus! {

/// A request whose insert is still to be run.
#[derive(Debug)]
pub struct Handling {
    /// The tag of this request's journal lines.
    pub request_id: CorrelationId,
    /// The lines to write before the insert is run, in this order.
    pub announced: Vec<Entry>,
    /// The record to store.
    pub subscriber: Subscriber,
}

/// The mathematical content of a [`Handling`].
pub struct HandlingView {
    pub request_id: CorrelationId,
    pub announced: Seq<EntryView>,
    pub subscriber: SubscriberView,
}

impl View for Handling {
    type V = HandlingView;

    open spec fn view(&self) -> HandlingView {
        HandlingView {
            request_id: self.request_id,
            announced: self.announced@.map_values(|entry: Entry| entry@),
            subscriber: self.subscriber@,
        }
    }
}

/// What the database layer reported of the insert.
#[derive(Debug)]
pub enum InsertResult {
    /// The row was written.
    Inserted,
    /// The insert failed; the text describes the error. All errors are
    /// alike to the handler.
    Failed(String),
}

/// The mathematical content of an [`InsertResult`].
pub enum InsertResultView {
    Inserted,
    Failed(Seq<char>),
}

impl View for InsertResult {
    type V = InsertResultView;

    open spec fn view(&self) -> InsertResultView {
        match self {
            InsertResult::Inserted => InsertResultView::Inserted,
            InsertResult::Failed(detail) => InsertResultView::Failed(detail@),
        }
    }
}

/// How a request ended: the outcome, and the last line for the journal.
#[derive(Debug)]
pub struct Conclusion {
    pub outcome: Outcome,
    pub entry: Entry,
}

/// The mathematical content of a [`Conclusion`].
pub struct ConclusionView {
    pub outcome: Outcome,
    pub entry: EntryView,
}

impl View for Conclusion {
    type V = ConclusionView;

    open spec fn view(&self) -> ConclusionView {
        ConclusionView { outcome: self.outcome, entry: self.entry@ }
    }
}

/// The first step, as a function of the form and of the three values that
/// are drawn for it: two lines are announced, and the record holds the
/// form's texts unchanged under the drawn key and time.
pub open spec fn prepared(
    form: FormView,
    request_id: CorrelationId,
    id: SubscriberId,
    now: Timestamp,
) -> HandlingView {
    HandlingView {
        request_id,
        announced: seq![adding_line(request_id, form.email, form.name), saving_line(request_id)],
        subscriber: SubscriberView { id, email: form.email, name: form.name, subscribed_at: now },
    }
}

/// The second step, as a function of the request's tag and of the insert's
/// result.
pub open spec fn concluded(request_id: CorrelationId, result: InsertResultView) -> ConclusionView {
    match result {
        InsertResultView::Inserted => ConclusionView {
            outcome: Outcome::Success,
            entry: saved_line(request_id),
        },
        InsertResultView::Failed(detail) => ConclusionView {
            outcome: Outcome::Failure,
            entry: failed_line(request_id, detail),
        },
    }
}

impl Handling {
    /// The first step for given draws: `request_id` tags the journal lines,
    /// `id` becomes the record's key and `now` its time of subscription.
    pub fn prepare(form: FormData, request_id: CorrelationId, id: SubscriberId, now: Timestamp) -> (handling: Handling)
        ensures
            handling@ == prepared(form@, request_id, id, now),
    {
        let mut announced: Vec<Entry> = Vec::new();
        announced.push(Entry::adding(request_id, form.email(), form.name()));
        announced.push(Entry::saving(request_id));
        let email = form.email().to_owned();
        let name = form.name().to_owned();
        let handling = Handling {
            request_id,
            announced,
            subscriber: Subscriber { id, email, name, subscribed_at: now },
        };
        assert(handling@.announced =~= prepared(form@, request_id, id, now).announced);
        handling
    }

    /// The second step: ends the request according to the insert's result.
    /// An insert that went through gives success, a failed one gives failure
    /// whatever the error was, and the journal gets the line that says so.
    pub fn conclude(self, result: InsertResult) -> (conclusion: Conclusion)
        ensures
            conclusion@ == concluded(self@.request_id, result@),
    {
        match result {
            InsertResult::Inserted => Conclusion {
                outcome: Outcome::Success,
                entry: Entry::saved(self.request_id),
            },
            InsertResult::Failed(detail) => Conclusion {
                outcome: Outcome::Failure,
                entry: Entry::failed(self.request_id, detail.as_str()),
            },
        }
    }
}

/// Takes up a submitted form: draws a tag for the request and, apart from
/// it, a key for the record, reads the clock, and prepares the handling with
/// these.
///
/// The draws and the reading differ from call to call. Whatever they are,
/// the result is the first step for them, both identifiers are of the random
/// kind, and the time is a reading of the clock.
pub fn subscribe(form: FormData) -> (handling: Handling)
    ensures
        handling@ == prepared(
            form@,
            handling@.request_id,
            handling@.subscriber.id,
            handling@.subscriber.subscribed_at,
        ),
        is_random_id(handling@.request_id.0),
        is_random_id(handling@.subscriber.id.0),
        handling@.subscriber.subscribed_at.is_reading(),
{
    let request_id = CorrelationId(random_id());
    let id = SubscriberId(random_id());
    let now = utc_now();
    Handling::prepare(form, request_id, id, now)
}

} // verus!
