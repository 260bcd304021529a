//! Handling of one newsletter subscription request.
//!
//! The crate holds the decisions of the request handler as verified code: what
//! is written to the journal, which record is handed to the database, and
//! which response answers each result of the insert. Talking to the database
//! and to the HTTP framework is left to the caller.

pub mod clock;
pub mod form;
pub mod handler;
pub mod ident;
pub mod journal;
pub mod outcome;
pub mod record;
pub mod theorems;

pub use clock::Timestamp;
pub use form::FormData;
pub use handler::{subscribe, Conclusion, Handling, InsertResult};
pub use ident::{CorrelationId, SubscriberId};
pub use journal::{Entry, Level};
pub use outcome::{Outcome, Response};
pub use record::{Insert, Subscriber, Value};
