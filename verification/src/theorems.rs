//! What holds of the handler as a whole, proved from the two steps.

use vstd::prelude::*;

use crate::clock::Timestamp;
use crate::form::FormView;
use crate::handler::{concluded, prepared, InsertResultView};
use crate::ident::{
    hyphenated_text, lemma_hyphenated_text_is_injective, CorrelationId, SubscriberId,
};
use crate::journal::{adding_line, failed_line, saved_line, saving_line, tagged, Level};
use crate::outcome::{Outcome, ResponseView};
use crate::record::{insert_of, insert_statement, SubscriberView, ValueView};

verus! {

/// A submission whose insert went through is answered with status 200 and
/// an empty body, whatever the form held. What was handed to the database
/// for it is the one insert statement, with the drawn key, the form's two
/// texts unchanged and the time that was read, in the order of the columns.
pub proof fn stored_submission_is_answered_ok(
    form: FormView,
    request_id: CorrelationId,
    id: SubscriberId,
    now: Timestamp,
)
    ensures
        ({
            let handling = prepared(form, request_id, id, now);
            let insert = insert_of(handling.subscriber);
            let conclusion = concluded(handling.request_id, InsertResultView::Inserted);
            &&& insert.statement == insert_statement()
            &&& insert.values == seq![
                ValueView::Id(id),
                ValueView::Text(form.email),
                ValueView::Text(form.name),
                ValueView::Time(now),
            ]
            &&& conclusion.outcome == Outcome::Success
            &&& conclusion.outcome.reply() == (ResponseView { status: 200, body: Seq::empty() })
            &&& conclusion.entry == saved_line(request_id)
        }),
{
}

/// A submission whose insert failed is answered with status 500 and an
/// empty body, whatever the form held and whatever the error was. The error
/// goes to the journal, in a line of level `Error`, and nowhere else.
pub proof fn failed_insert_is_answered_with_server_error(
    form: FormView,
    request_id: CorrelationId,
    id: SubscriberId,
    now: Timestamp,
    detail: Seq<char>,
)
    ensures
        ({
            let handling = prepared(form, request_id, id, now);
            let conclusion = concluded(handling.request_id, InsertResultView::Failed(detail));
            &&& conclusion.outcome == Outcome::Failure
            &&& conclusion.outcome.reply() == (ResponseView { status: 500, body: Seq::empty() })
            &&& conclusion.entry == failed_line(request_id, detail)
            &&& conclusion.entry.level == Level::Error
        }),
{
}

/// The steps of one submission are fixed by its own form, its own draws and
/// the result of its own insert. So of two submissions with different
/// addresses, handled side by side: each succeeds when its insert goes
/// through, and the two records differ, whatever was drawn for them.
pub proof fn submissions_with_distinct_emails_give_distinct_records(
    first: FormView,
    first_request: CorrelationId,
    first_id: SubscriberId,
    first_now: Timestamp,
    second: FormView,
    second_request: CorrelationId,
    second_id: SubscriberId,
    second_now: Timestamp,
)
    requires
        first.email != second.email,
    ensures
        ({
            let one = prepared(first, first_request, first_id, first_now);
            let other = prepared(second, second_request, second_id, second_now);
            &&& one.subscriber != other.subscriber
            &&& insert_of(one.subscriber) != insert_of(other.subscriber)
            &&& concluded(one.request_id, InsertResultView::Inserted).outcome == Outcome::Success
            &&& concluded(other.request_id, InsertResultView::Inserted).outcome == Outcome::Success
        }),
{
    let one = prepared(first, first_request, first_id, first_now);
    let other = prepared(second, second_request, second_id, second_now);
    assert(insert_of(one.subscriber).values[1] == ValueView::Text(first.email));
    assert(insert_of(other.subscriber).values[1] == ValueView::Text(second.email));
}

/// Records with different keys are stored by different statements.
pub proof fn distinct_keys_give_distinct_inserts(first: SubscriberView, second: SubscriberView)
    requires
        first.id != second.id,
    ensures
        insert_of(first) != insert_of(second),
{
    assert(insert_of(first).values[0] == ValueView::Id(first.id));
    assert(insert_of(second).values[0] == ValueView::Id(second.id));
}

/// Requests with different tags can be told apart in the journal: what
/// their lines start with differs, and so does each line of the one from the
/// line of the same kind of the other, whatever else the lines hold.
pub proof fn distinct_tags_give_distinct_lines(
    first: CorrelationId,
    first_form: FormView,
    first_detail: Seq<char>,
    second: CorrelationId,
    second_form: FormView,
    second_detail: Seq<char>,
)
    requires
        first != second,
    ensures
        tagged(first) != tagged(second),
        adding_line(first, first_form.email, first_form.name) != adding_line(
            second,
            second_form.email,
            second_form.name,
        ),
        saving_line(first) != saving_line(second),
        saved_line(first) != saved_line(second),
        failed_line(first, first_detail) != failed_line(second, second_detail),
{
    if tagged(first) == tagged(second) {
        lemma_tagged_holds_the_text(first);
        lemma_tagged_holds_the_text(second);
        lemma_hyphenated_text_is_injective(first.0, second.0);
    }
    lemma_lines_hold_the_tag(first, first_form, first_detail);
    lemma_lines_hold_the_tag(second, second_form, second_detail);
}

/// Every line of a request starts with the request's tag: the two that are
/// announced, and the one that concludes it either way.
pub proof fn lines_of_a_request_start_with_its_tag(
    form: FormView,
    request_id: CorrelationId,
    id: SubscriberId,
    now: Timestamp,
    result: InsertResultView,
)
    ensures
        ({
            let handling = prepared(form, request_id, id, now);
            let tag = tagged(request_id);
            &&& handling.announced.len() == 2
            &&& tag.is_prefix_of(handling.announced[0].message)
            &&& tag.is_prefix_of(handling.announced[1].message)
            &&& tag.is_prefix_of(concluded(handling.request_id, result).entry.message)
        }),
{
}

/// The handler keeps no memory of earlier submissions. A form that is
/// submitted again is prepared as it was the first time, with the same
/// texts; with a new key it is stored by a different statement. Whether the
/// second insert goes through is for the database to say: if it refuses,
/// the second submission ends as every failed insert does.
pub proof fn repeated_submission_is_handled_anew(
    form: FormView,
    first_request: CorrelationId,
    first_id: SubscriberId,
    first_now: Timestamp,
    second_request: CorrelationId,
    second_id: SubscriberId,
    second_now: Timestamp,
    detail: Seq<char>,
)
    ensures
        ({
            let one = prepared(form, first_request, first_id, first_now);
            let other = prepared(form, second_request, second_id, second_now);
            &&& other.subscriber.email == one.subscriber.email
            &&& other.subscriber.name == one.subscriber.name
            &&& insert_of(other.subscriber).statement == insert_of(one.subscriber).statement
            &&& first_id != second_id ==> insert_of(other.subscriber) != insert_of(one.subscriber)
            &&& concluded(other.request_id, InsertResultView::Inserted).outcome == Outcome::Success
            &&& concluded(other.request_id, InsertResultView::Failed(detail)).outcome.reply()
                == (ResponseView { status: 500, body: Seq::empty() })
        }),
{
    if first_id != second_id {
        distinct_keys_give_distinct_inserts(
            prepared(form, first_request, first_id, first_now).subscriber,
            prepared(form, second_request, second_id, second_now).subscriber,
        );
    }
}

/// The tag's text can be read back out of the start of a line.
proof fn lemma_tagged_holds_the_text(id: CorrelationId)
    ensures
        tagged(id).len() == 50,
        tagged(id).subrange(11, 47) == hyphenated_text(id.0),
{
    reveal_strlit("request_id ");
    reveal_strlit(" - ");
    assert(tagged(id).subrange(11, 47) =~= hyphenated_text(id.0));
}

/// The first fifty characters of every line are the tag with its frame.
proof fn lemma_lines_hold_the_tag(id: CorrelationId, form: FormView, detail: Seq<char>)
    ensures
        adding_line(id, form.email, form.name).message.subrange(0, 50) == tagged(id),
        saving_line(id).message.subrange(0, 50) == tagged(id),
        saved_line(id).message.subrange(0, 50) == tagged(id),
        failed_line(id, detail).message.subrange(0, 50) == tagged(id),
{
    lemma_tagged_holds_the_text(id);
    assert(adding_line(id, form.email, form.name).message.subrange(0, 50) =~= tagged(id));
    assert(saving_line(id).message.subrange(0, 50) =~= tagged(id));
    assert(saved_line(id).message.subrange(0, 50) =~= tagged(id));
    assert(failed_line(id, detail).message.subrange(0, 50) =~= tagged(id));
}

} // verus!
