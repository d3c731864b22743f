//! The `Entity` and `AggregateRoot` capabilities, and the model shared by
//! the aggregates.

use vstd::prelude::*;
use chrono::Utc;
use crate::error::ErrorView;
use crate::identifier::Identifier;
use crate::notification::ValidationHandler;
use crate::price::PriceView;

verus! {

/// A UTC instant: whole seconds since the Unix epoch and the nanoseconds
/// past that second.
#[derive(Clone, Copy, Debug, PartialEq, Eq, Structural)]
pub struct Timestamp {
    pub seconds: i64,
    pub nanos: u32,
}

/// Relies on `chrono::Utc::now` and on `timestamp` and
/// `timestamp_subsec_nanos` of the `DateTime` it returns: the current time,
/// of which nothing is known here. (`Utc::now` panics only if the system
/// clock is set before 1970.)
#[verifier::external_body]
fn current_time() -> (i64, u32) {
    let now = Utc::now();
    (now.timestamp(), now.timestamp_subsec_nanos())
}

impl Timestamp {
    /// The current time.
    pub fn now() -> Timestamp {
        let (seconds, nanos) = current_time();
        Timestamp { seconds, nanos }
    }
}

/// Mathematical model of an aggregate.
pub ghost struct AggregateView {
    pub id: Seq<char>,
    pub name: Seq<char>,
    pub prices: Seq<PriceView>,
    pub created_at: Timestamp,
    pub updated_at: Option<Timestamp>,
}

/// A domain object with an identity that can check itself.
pub trait Entity {
    type Id: Identifier;

    /// The text of the entity's identifier.
    spec fn id_value(&self) -> Seq<char>;

    /// The failures that checking the entity finds, in check order.
    spec fn violations(&self) -> Seq<ErrorView>;

    fn get_id(&self) -> (r: &Self::Id)
        ensures
            r.value() == self.id_value(),
    ;

    /// Appends every failure of the entity to `handler`.
    fn validate<H: ValidationHandler>(&self, handler: &mut H)
        ensures
            final(handler).recorded() == old(handler).recorded() + self.violations(),
    ;
}

/// An entity that is the root of its own small object graph.
pub trait AggregateRoot: Entity {

}

} // verus!
