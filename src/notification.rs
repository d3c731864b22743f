//! Error accumulation: the `ValidationHandler` capability and its
//! `Notification` collector.

use vstd::prelude::*;
use crate::error::{CustomError, ErrorView, error_text};

verus! {

/// Models of a sequence of errors, in order.
pub open spec fn error_views(errors: Seq<CustomError>) -> Seq<ErrorView> {
    errors.map_values(|e: CustomError| e@)
}

/// A collector of validation failures. It only grows: failures are appended,
/// never removed, reordered or deduplicated.
pub trait ValidationHandler {
    /// The failures recorded so far, in insertion order.
    spec fn recorded(&self) -> Seq<ErrorView>;

    /// Records one failure after the others.
    fn append(&mut self, an_error: &CustomError)
        ensures
            final(self).recorded() == old(self).recorded().push(an_error@),
    ;

    /// Records every failure of `an_handler`, in its order, after the others.
    fn append_validation_handler(&mut self, an_handler: &Notification)
        ensures
            final(self).recorded() == old(self).recorded() + an_handler@,
    ;

    /// The failures recorded so far, in insertion order.
    fn get_errors(&self) -> (r: &[CustomError])
        ensures
            error_views(r@) == self.recorded(),
    ;

    /// Whether any failure was recorded.
    fn has_errors(&self) -> (r: bool)
        ensures
            r == (self.recorded().len() > 0),
    {
        let errors = self.get_errors();
        errors.len() > 0
    }

    /// The first failure recorded, if any.
    fn get_first_error(&self) -> (r: Option<CustomError>)
        ensures
            self.recorded().len() == 0 ==> r is None,
            self.recorded().len() > 0 ==> (r matches Some(e) && e@ == self.recorded()[0]),
    {
        let errors = self.get_errors();
        if errors.len() > 0 {
            Some(errors[0].duplicate())
        } else {
            None
        }
    }
}

/// The failures of one validation pass, in the order they were found.
#[derive(Debug)]
pub struct Notification {
    pub errors: Vec<CustomError>,
}

impl View for Notification {
    type V = Seq<ErrorView>;

    open spec fn view(&self) -> Seq<ErrorView> {
        error_views(self.errors@)
    }
}

impl Notification {
    /// An empty notification.
    pub fn new() -> (r: Notification)
        ensures
            r@ == Seq::<ErrorView>::empty(),
    {
        Notification { errors: Vec::new() }
    }

    /// A notification holding `errors`, in their order.
    pub fn with_errors(errors: Vec<CustomError>) -> (r: Notification)
        ensures
            r@ == error_views(errors@),
    {
        Notification { errors }
    }

    /// A notification holding exactly `error`.
    pub fn with_one_error(error: CustomError) -> (r: Notification)
        ensures
            r@ == seq![error@],
    {
        let ghost v = error@;
        let mut errors: Vec<CustomError> = Vec::new();
        errors.push(error);
        let r = Notification { errors };
        assert(r@ =~= seq![v]);
        r
    }

    /// The text of each failure, in insertion order.
    pub fn format_errors(&self) -> (r: Vec<String>)
        ensures
            r@.len() == self@.len(),
            forall|i: int| 0 <= i < r@.len() ==> #[trigger] r@[i]@ == error_text(self@[i]),
    {
        let mut out: Vec<String> = Vec::new();
        let mut i: usize = 0;
        while i < self.errors.len()
            invariant
                i <= self.errors@.len(),
                out@.len() == i,
                forall|j: int| 0 <= j < i ==> #[trigger] out@[j]@ == error_text(self@[j]),
            decreases self.errors@.len() - i,
        {
            let text = self.errors[i].to_string();
            out.push(text);
            i = i + 1;
        }
        out
    }
}

impl Default for Notification {
    fn default() -> (r: Notification)
        ensures
            r@ == Seq::<ErrorView>::empty(),
    {
        Notification::new()
    }
}

impl ValidationHandler for Notification {
    open spec fn recorded(&self) -> Seq<ErrorView> {
        self@
    }

    fn append(&mut self, an_error: &CustomError) {
        let e = an_error.duplicate();
        self.errors.push(e);
        assert(self@ =~= old(self)@.push(an_error@));
    }

    fn append_validation_handler(&mut self, an_handler: &Notification) {
        let incoming = an_handler.get_errors();
        let mut i: usize = 0;
        while i < incoming.len()
            invariant
                i <= incoming@.len(),
                error_views(incoming@) == an_handler@,
                self.recorded() == old(self).recorded() + an_handler@.take(i as int),
            decreases incoming@.len() - i,
        {
            self.append(&incoming[i]);
            assert(an_handler@.take(i + 1) =~= an_handler@.take(i as int).push(
                incoming@[i as int]@,
            ));
            i = i + 1;
        }
        assert(an_handler@.take(i as int) =~= an_handler@);
    }

    fn get_errors(&self) -> (r: &[CustomError]) {
        self.errors.as_slice()
    }
}

/// Merging every failure of a handler into an empty one yields exactly that
/// handler's failures, in the same order.
pub proof fn merge_into_empty_reproduces(source: Seq<ErrorView>)
    ensures
        Seq::<ErrorView>::empty() + source == source,
{
    assert(Seq::<ErrorView>::empty() + source =~= source);
}

} // verus!
