//! The stored record, and the statement that stores it.

use vstd::prelude::*;

use crate::clock::Timestamp;
use crate::ident::SubscriberId;

verus! {

/// One subscriber, as it is stored.
#[derive(Debug)]
pub struct Subscriber {
    pub id: SubscriberId,
    pub email: String,
    pub name: String,
    pub subscribed_at: Timestamp,
}

/// The mathematical content of a [`Subscriber`].
pub struct SubscriberView {
    pub id: SubscriberId,
    pub email: Seq<char>,
    pub name: Seq<char>,
    pub subscribed_at: Timestamp,
}

impl View for Subscriber {
    type V = SubscriberView;

    open spec fn view(&self) -> SubscriberView {
        SubscriberView {
            id: self.id,
            email: self.email@,
            name: self.name@,
            subscribed_at: self.subscribed_at,
        }
    }
}

/// A value bound to a placeholder of a statement.
#[derive(Debug)]
pub enum Value {
    Id(SubscriberId),
    Text(String),
    Time(Timestamp),
}

/// The mathematical content of a [`Value`].
pub enum ValueView {
    Id(SubscriberId),
    Text(Seq<char>),
    Time(Timestamp),
}

impl View for Value {
    type V = ValueView;

    open spec fn view(&self) -> ValueView {
        match self {
            Value::Id(id) => ValueView::Id(*id),
            Value::Text(text) => ValueView::Text(text@),
            Value::Time(at) => ValueView::Time(*at),
        }
    }
}

/// A statement with numbered placeholders, and the values bound to them:
/// the first value to `$1`, the second to `$2`, and so on.
#[derive(Debug)]
pub struct Insert {
    pub statement: String,
    pub values: Vec<Value>,
}

/// The mathematical content of an [`Insert`].
pub struct InsertView {
    pub statement: Seq<char>,
    pub values: Seq<ValueView>,
}

impl View for Insert {
    type V = InsertView;

    open spec fn view(&self) -> InsertView {
        InsertView {
            statement: self.statement@,
            values: self.values@.map_values(|value: Value| value@),
        }
    }
}

/// The one statement this library issues: it adds a row to `subscriptions`.
pub open spec fn insert_statement() -> Seq<char> {
    "INSERT INTO subscriptions (id, email, name, subscribed_at) VALUES ($1, $2, $3, $4)"@
}

/// The statement that stores `subscriber`: each field is bound to the
/// placeholder of its column.
pub open spec fn insert_of(subscriber: SubscriberView) -> InsertView {
    InsertView {
        statement: insert_statement(),
        values: seq![
            ValueView::Id(subscriber.id),
            ValueView::Text(subscriber.email),
            ValueView::Text(subscriber.name),
            ValueView::Time(subscriber.subscribed_at),
        ],
    }
}

impl Subscriber {
    /// The statement that stores this subscriber.
    pub fn insert(&self) -> (insert: Insert)
        ensures
            insert@ == insert_of(self@),
    {
        let statement = String::from_str(
            "INSERT INTO subscriptions (id, email, name, subscribed_at) VALUES ($1, $2, $3, $4)",
        );
        let mut values: Vec<Value> = Vec::new();
        values.push(Value::Id(self.id));
        values.push(Value::Text(self.email.clone()));
        values.push(Value::Text(self.name.clone()));
        values.push(Value::Time(self.subscribed_at));
        let insert = Insert { statement, values };
        assert(insert@.values =~= insert_of(self@).values);
        insert
    }
}

} // verus!
