//! The fixed rule sequence that every aggregate is checked against, and the
//! `Validator` capability that runs it.

use vstd::prelude::*;
use crate::error::{CustomError, ErrorView};
use crate::notification::ValidationHandler;
use crate::text::{trimmed, trimmed_len};

verus! {

pub const NAME_MIN_LENGTH: usize = 1;

pub const NAME_MAX_LENGTH: usize = 255;

pub const ID_EMPTY_MESSAGE: &'static str = "'id' should not be empty";

pub const NAME_EMPTY_MESSAGE: &'static str = "'name' should not be empty";

pub const NAME_LENGTH_MESSAGE: &'static str = "'name' must be between 1 and 255 characters";

pub const PRICE_EMPTY_MESSAGE: &'static str = "'price' should not be empty";

/// Failure of the id check.
pub open spec fn id_violations(id: Seq<char>) -> Seq<ErrorView> {
    if trimmed(id).len() == 0 {
        seq![ErrorView::Error(ID_EMPTY_MESSAGE@)]
    } else {
        Seq::empty()
    }
}

/// Whether a trimmed name length is within bounds.
pub open spec fn name_length_ok(n: nat) -> bool {
    NAME_MIN_LENGTH <= n <= NAME_MAX_LENGTH
}

/// Failures of the two name checks: emptiness, then length. Both fire on an
/// empty name.
pub open spec fn name_violations(name: Seq<char>) -> Seq<ErrorView> {
    (if trimmed(name).len() == 0 {
        seq![ErrorView::Error(NAME_EMPTY_MESSAGE@)]
    } else {
        Seq::empty()
    }) + (if !name_length_ok(trimmed(name).len()) {
        seq![ErrorView::Error(NAME_LENGTH_MESSAGE@)]
    } else {
        Seq::empty()
    })
}

/// Failure of the price-collection check.
pub open spec fn price_violations(price_count: nat) -> Seq<ErrorView> {
    if price_count == 0 {
        seq![ErrorView::Error(PRICE_EMPTY_MESSAGE@)]
    } else {
        Seq::empty()
    }
}

/// Every failure of an aggregate with this id, name and number of prices, in
/// check order: id, name emptiness, name length, prices.
pub open spec fn violations(id: Seq<char>, name: Seq<char>, price_count: nat) -> Seq<ErrorView> {
    id_violations(id) + name_violations(name) + price_violations(price_count)
}

/// Whether an aggregate with this id, name and number of prices breaks no
/// rule.
pub open spec fn satisfies_rules(id: Seq<char>, name: Seq<char>, price_count: nat) -> bool {
    trimmed(id).len() > 0 && name_length_ok(trimmed(name).len()) && price_count > 0
}

/// An aggregate is free of failures exactly when it satisfies every rule.
pub proof fn lemma_no_violations_iff_rules(id: Seq<char>, name: Seq<char>, price_count: nat)
    ensures
        (violations(id, name, price_count).len() == 0) == satisfies_rules(id, name, price_count),
{
}

/// An aggregate with a blank name and no prices gets every name and price
/// failure, in check order: name emptiness, name length, prices; preceded by
/// the id failure exactly when its id is blank too.
pub proof fn lemma_blank_name_without_prices(id: Seq<char>, name: Seq<char>)
    requires
        trimmed(name).len() == 0,
    ensures
        violations(id, name, 0) == id_violations(id) + seq![
            ErrorView::Error(NAME_EMPTY_MESSAGE@),
            ErrorView::Error(NAME_LENGTH_MESSAGE@),
            ErrorView::Error(PRICE_EMPTY_MESSAGE@),
        ],
        id_violations(id).len() == (if trimmed(id).len() == 0 {
            1int
        } else {
            0int
        }),
        violations(id, name, 0).len() == 3 + id_violations(id).len(),
{
    assert(violations(id, name, 0) =~= id_violations(id) + seq![
        ErrorView::Error(NAME_EMPTY_MESSAGE@),
        ErrorView::Error(NAME_LENGTH_MESSAGE@),
        ErrorView::Error(PRICE_EMPTY_MESSAGE@),
    ]);
}

/// A component that runs the fixed sequence of checks on one target and
/// appends every failure it finds, without stopping at the first.
pub trait Validator {
    /// The failures the checks find, in check order.
    spec fn findings(&self) -> Seq<ErrorView>;

    fn validate<H: ValidationHandler>(&self, handler: &mut H)
        ensures
            final(handler).recorded() == old(handler).recorded() + self.findings(),
    ;
}

/// Appends the failure of the id check on `id`, if any.
pub(crate) fn check_id<H: ValidationHandler>(id: &str, handler: &mut H)
    ensures
        final(handler).recorded() == old(handler).recorded() + id_violations(id@),
{
    if trimmed_len(id) == 0 {
        handler.append(&CustomError::Error(ID_EMPTY_MESSAGE.to_owned()));
    }
    assert(final(handler).recorded() =~= old(handler).recorded() + id_violations(id@));
}

/// Appends the failures of the two name checks on `name`, in order.
pub(crate) fn check_name<H: ValidationHandler>(name: &str, handler: &mut H)
    ensures
        final(handler).recorded() == old(handler).recorded() + name_violations(name@),
{
    let n = trimmed_len(name);
    if n == 0 {
        handler.append(&CustomError::Error(NAME_EMPTY_MESSAGE.to_owned()));
    }
    if n < NAME_MIN_LENGTH || n > NAME_MAX_LENGTH {
        handler.append(&CustomError::Error(NAME_LENGTH_MESSAGE.to_owned()));
    }
    assert(final(handler).recorded() =~= old(handler).recorded() + name_violations(name@));
}

/// Appends the failure of the price-collection check, if any.
pub(crate) fn check_prices<H: ValidationHandler>(price_count: usize, handler: &mut H)
    ensures
        final(handler).recorded() == old(handler).recorded() + price_violations(price_count as nat),
{
    if price_count == 0 {
        handler.append(&CustomError::Error(PRICE_EMPTY_MESSAGE.to_owned()));
    }
    assert(final(handler).recorded() =~= old(handler).recorded() + price_violations(
        price_count as nat,
    ));
}

/// Runs the whole check sequence on an aggregate's id, name and number of
/// prices.
pub(crate) fn check_all<H: ValidationHandler>(
    id: &str,
    name: &str,
    price_count: usize,
    handler: &mut H,
)
    ensures
        final(handler).recorded() == old(handler).recorded() + violations(
            id@,
            name@,
            price_count as nat,
        ),
{
    check_id(id, handler);
    check_name(name, handler);
    check_prices(price_count, handler);
    assert(final(handler).recorded() =~= old(handler).recorded() + violations(
        id@,
        name@,
        price_count as nat,
    ));
}

} // verus!
