//! The `Input` aggregate and its validator.

use vstd::prelude::*;
use crate::entity::{AggregateRoot, AggregateView, Entity, Timestamp};
use crate::error::ErrorView;
use crate::identifier::{Identifier, InputId, is_v4_uuid_text, lemma_uuid_text_trimmed};
use crate::notification::{Notification, ValidationHandler};
use crate::price::{Price, copy_prices, price_text, price_views, prices_to_strings};
use crate::text::trimmed;
use crate::validator::{
    Validator, check_all, lemma_no_violations_iff_rules, name_length_ok, name_violations,
    price_violations, violations,
};

verus! {

/// An input: a named item priced in one or more units. Every value handed
/// out by a constructor or by `update` satisfies the validation rules.
#[derive(Debug)]
pub struct Input {
    id: InputId,
    name: String,
    price: Vec<Price>,
    created_at: Timestamp,
    updated_at: Option<Timestamp>,
}

impl View for Input {
    type V = AggregateView;

    closed spec fn view(&self) -> AggregateView {
        AggregateView {
            id: self.id.value(),
            name: self.name@,
            prices: price_views(self.price@),
            created_at: self.created_at,
            updated_at: self.updated_at,
        }
    }
}

impl Input {
    /// Whether the input satisfies every validation rule.
    pub open spec fn wf(&self) -> bool {
        violations(self@.id, self@.name, self@.prices.len()).len() == 0
    }

    /// Hands the candidate out if it breaks no rule, and the notification of
    /// everything it breaks otherwise.
    fn self_validate(self) -> (r: Result<Input, Notification>)
        ensures
            r matches Ok(i) ==> i@ == self@ && i.wf(),
            r matches Err(n) ==> n@ == violations(self@.id, self@.name, self@.prices.len())
                && n@.len() > 0,
            r is Ok <==> self.wf(),
    {
        let mut notification = Notification::new();
        self.validate(&mut notification);
        assert(notification@ =~= violations(self@.id, self@.name, self@.prices.len()));
        if notification.has_errors() {
            return Err(notification);
        }
        Ok(self)
    }

    /// A new input with a fresh identifier, created now, never updated.
    pub fn new(name: &str, price: Vec<Price>) -> (r: Result<Input, Notification>)
        ensures
            r is Ok <==> name_length_ok(trimmed(name@).len()) && price@.len() > 0,
            r matches Ok(i) ==> i.wf() && is_v4_uuid_text(i@.id) && i@.name == name@ && i@.prices
                == price_views(price@) && i@.updated_at is None,
            r matches Err(n) ==> n@ == name_violations(name@) + price_violations(price@.len()),
    {
        let id = InputId::unique();
        proof {
            lemma_uuid_text_trimmed(id.value());
        }
        let input = Input {
            id,
            name: name.to_owned(),
            price,
            created_at: Timestamp::now(),
            updated_at: None,
        };
        let r = input.self_validate();
        proof {
            let v = violations(input@.id, name@, price@.len());
            assert(v =~= name_violations(name@) + price_violations(price@.len()));
        }
        r
    }

    /// A new input with the given identifier, created now, never updated.
    pub fn with(id: InputId, name: &str, price: Vec<Price>) -> (r: Result<Input, Notification>)
        ensures
            r is Ok <==> violations(id.value(), name@, price@.len()).len() == 0,
            r matches Ok(i) ==> i.wf() && i@.id == id.value() && i@.name == name@ && i@.prices
                == price_views(price@) && i@.updated_at is None,
            r matches Err(n) ==> n@ == violations(id.value(), name@, price@.len()),
    {
        let input = Input {
            id,
            name: name.to_owned(),
            price,
            created_at: Timestamp::now(),
            updated_at: None,
        };
        input.self_validate()
    }

    /// An independent copy of `input`, without validating it again.
    pub fn with_input(input: &Input) -> (r: Input)
        ensures
            r@ == input@,
    {
        Input {
            id: input.id.duplicate(),
            name: input.name.clone(),
            price: copy_prices(&input.price),
            created_at: input.created_at,
            updated_at: input.updated_at,
        }
    }

    /// A new value of this input: same identifier and creation time, the
    /// given name and prices where provided (the current ones otherwise),
    /// updated now, and validated again.
    pub fn update(&self, name: Option<&str>, price: Option<Vec<Price>>) -> (r: Result<
        Input,
        Notification,
    >)
        ensures
            ({
                let new_name = match name {
                    Some(n) => n@,
                    None => self@.name,
                };
                let new_prices = match price {
                    Some(p) => price_views(p@),
                    None => self@.prices,
                };
                &&& r is Ok <==> violations(self@.id, new_name, new_prices.len()).len() == 0
                &&& r matches Ok(i) ==> i.wf() && i@.id == self@.id && i@.name == new_name
                    && i@.prices == new_prices && i@.created_at == self@.created_at
                    && i@.updated_at is Some
                &&& r matches Err(n) ==> n@ == violations(self@.id, new_name, new_prices.len())
            }),
    {
        let new_name = match name {
            Some(n) => n.to_owned(),
            None => self.name.clone(),
        };
        let new_price = match price {
            Some(p) => p,
            None => copy_prices(&self.price),
        };
        let input = Input {
            id: self.id.duplicate(),
            name: new_name,
            price: new_price,
            created_at: self.created_at,
            updated_at: Some(Timestamp::now()),
        };
        input.self_validate()
    }

    pub fn get_name(&self) -> (r: &str)
        ensures
            r@ == self@.name,
    {
        self.name.as_str()
    }

    pub fn get_prices(&self) -> (r: &Vec<Price>)
        ensures
            price_views(r@) == self@.prices,
    {
        &self.price
    }

    /// The descriptive text of each price, in order.
    pub fn get_prices_to_string(&self) -> (r: Vec<String>)
        ensures
            r@.len() == self@.prices.len(),
            forall|i: int| 0 <= i < r@.len() ==> #[trigger] r@[i]@ == price_text(self@.prices[i]),
    {
        prices_to_strings(&self.price)
    }

    pub fn get_created_at(&self) -> (r: &Timestamp)
        ensures
            *r == self@.created_at,
    {
        &self.created_at
    }

    pub fn get_updated_at(&self) -> (r: Option<&Timestamp>)
        ensures
            match r {
                Some(t) => self@.updated_at == Some(*t),
                None => self@.updated_at is None,
            },
    {
        match &self.updated_at {
            Some(t) => Some(t),
            None => None,
        }
    }
}

impl Entity for Input {
    type Id = InputId;

    open spec fn id_value(&self) -> Seq<char> {
        self@.id
    }

    open spec fn violations(&self) -> Seq<ErrorView> {
        violations(self@.id, self@.name, self@.prices.len())
    }

    fn get_id(&self) -> (r: &InputId) {
        &self.id
    }

    fn validate<H: ValidationHandler>(&self, handler: &mut H) {
        let validator = InputValidator::new(self);
        validator.validate(handler);
    }
}

impl AggregateRoot for Input {

}

/// Runs the input rules on one input.
pub struct InputValidator<'a> {
    pub input: &'a Input,
}

impl<'a> InputValidator<'a> {
    pub fn new(input: &'a Input) -> (r: InputValidator<'a>)
        ensures
            r.input == input,
    {
        InputValidator { input }
    }
}

impl<'a> Validator for InputValidator<'a> {
    open spec fn findings(&self) -> Seq<ErrorView> {
        violations(self.input@.id, self.input@.name, self.input@.prices.len())
    }

    fn validate<H: ValidationHandler>(&self, handler: &mut H) {
        let input = self.input;
        check_all(input.id.get_value(), input.name.as_str(), input.price.len(), handler);
    }
}

/// Updating a valid input with a valid name and at least one price always
/// succeeds: the checks that `update` runs find nothing.
pub proof fn lemma_update_of_valid_input(input: Input, name: Seq<char>, price_count: nat)
    requires
        input.wf(),
        name_length_ok(trimmed(name).len()),
        price_count > 0,
    ensures
        violations(input@.id, name, price_count).len() == 0,
{
    lemma_no_violations_iff_rules(input@.id, input@.name, input@.prices.len());
    lemma_no_violations_iff_rules(input@.id, name, price_count);
}

} // verus!
