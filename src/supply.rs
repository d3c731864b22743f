//! The `Supply` aggregate and its validator.

use vstd::prelude::*;
use crate::entity::{AggregateRoot, AggregateView, Entity, Timestamp};
use crate::error::ErrorView;
use crate::identifier::{Identifier, SupplyId, is_v4_uuid_text, lemma_uuid_text_trimmed};
use crate::notification::{Notification, ValidationHandler};
use crate::price::{Price, copy_prices, price_text, price_views, prices_to_strings};
use crate::text::trimmed;
use crate::validator::{
    Validator, check_all, lemma_no_violations_iff_rules, name_length_ok, name_violations,
    price_violations, violations,
};

verus! {

/// A supply: a named item priced in one or more units. Every value handed
/// out by a constructor or by `update` satisfies the validation rules.
#[derive(Debug)]
pub struct Supply {
    id: SupplyId,
    name: String,
    price: Vec<Price>,
    created_at: Timestamp,
    updated_at: Option<Timestamp>,
}

impl View for Supply {
    type V = AggregateView;

    closed spec fn view(&self) -> AggregateView {
        AggregateView {
            id: self.id.value(),
            name: self.name@,
            prices: price_views(self.price@),
            created_at: self.created_at,
            updated_at: self.updated_at,
        }
    }
}

impl Supply {
    /// Whether the supply satisfies every validation rule.
    pub open spec fn wf(&self) -> bool {
        violations(self@.id, self@.name, self@.prices.len()).len() == 0
    }

    /// Hands the candidate out if it breaks no rule, and the notification of
    /// everything it breaks otherwise.
    fn self_validate(self) -> (r: Result<Supply, Notification>)
        ensures
            r matches Ok(i) ==> i@ == self@ && i.wf(),
            r matches Err(n) ==> n@ == violations(self@.id, self@.name, self@.prices.len())
                && n@.len() > 0,
            r is Ok <==> self.wf(),
    {
        let mut notification = Notification::new();
        self.validate(&mut notification);
        assert(notification@ =~= violations(self@.id, self@.name, self@.prices.len()));
        if notification.has_errors() {
            return Err(notification);
        }
        Ok(self)
    }

    /// A new supply with a fresh identifier, created now, never updated.
    pub fn new(name: &str, price: Vec<Price>) -> (r: Result<Supply, Notification>)
        ensures
            r is Ok <==> name_length_ok(trimmed(name@).len()) && price@.len() > 0,
            r matches Ok(i) ==> i.wf() && is_v4_uuid_text(i@.id) && i@.name == name@ && i@.prices
                == price_views(price@) && i@.updated_at is None,
            r matches Err(n) ==> n@ == name_violations(name@) + price_violations(price@.len()),
    {
        let id = SupplyId::unique();
        proof {
            lemma_uuid_text_trimmed(id.value());
        }
        let supply = Supply {
            id,
            name: name.to_owned(),
            price,
            created_at: Timestamp::now(),
            updated_at: None,
        };
        let r = supply.self_validate();
        proof {
            let v = violations(supply@.id, name@, price@.len());
            assert(v =~= name_violations(name@) + price_violations(price@.len()));
        }
        r
    }

    /// A new supply with the given identifier, created now, never updated.
    pub fn with(id: SupplyId, name: &str, price: Vec<Price>) -> (r: Result<Supply, Notification>)
        ensures
            r is Ok <==> violations(id.value(), name@, price@.len()).len() == 0,
            r matches Ok(i) ==> i.wf() && i@.id == id.value() && i@.name == name@ && i@.prices
                == price_views(price@) && i@.updated_at is None,
            r matches Err(n) ==> n@ == violations(id.value(), name@, price@.len()),
    {
        let supply = Supply {
            id,
            name: name.to_owned(),
            price,
            created_at: Timestamp::now(),
            updated_at: None,
        };
        supply.self_validate()
    }

    /// An independent copy of `supply`, without validating it again.
    pub fn with_input(supply: &Supply) -> (r: Supply)
        ensures
            r@ == supply@,
    {
        Supply {
            id: supply.id.duplicate(),
            name: supply.name.clone(),
            price: copy_prices(&supply.price),
            created_at: supply.created_at,
            updated_at: supply.updated_at,
        }
    }

    /// A new value of this supply: same identifier and creation time, the
    /// given name and prices where provided (the current ones otherwise),
    /// updated now, and validated again.
    pub fn update(&self, name: Option<&str>, price: Option<Vec<Price>>) -> (r: Result<
        Supply,
        Notification,
    >)
        ensures
            ({
                let new_name = match name {
                    Some(n) => n@,
                    None => self@.name,
                };
                let new_prices = match price {
                    Some(p) => price_views(p@),
                    None => self@.prices,
                };
                &&& r is Ok <==> violations(self@.id, new_name, new_prices.len()).len() == 0
                &&& r matches Ok(i) ==> i.wf() && i@.id == self@.id && i@.name == new_name
                    && i@.prices == new_prices && i@.created_at == self@.created_at
                    && i@.updated_at is Some
                &&& r matches Err(n) ==> n@ == violations(self@.id, new_name, new_prices.len())
            }),
    {
        let new_name = match name {
            Some(n) => n.to_owned(),
            None => self.name.clone(),
        };
        let new_price = match price {
            Some(p) => p,
            None => copy_prices(&self.price),
        };
        let supply = Supply {
            id: self.id.duplicate(),
            name: new_name,
            price: new_price,
            created_at: self.created_at,
            updated_at: Some(Timestamp::now()),
        };
        supply.self_validate()
    }

    pub fn get_name(&self) -> (r: &str)
        ensures
            r@ == self@.name,
    {
        self.name.as_str()
    }

    pub fn get_prices(&self) -> (r: &Vec<Price>)
        ensures
            price_views(r@) == self@.prices,
    {
        &self.price
    }

    /// The descriptive text of each price, in order.
    pub fn get_prices_to_string(&self) -> (r: Vec<String>)
        ensures
            r@.len() == self@.prices.len(),
            forall|i: int| 0 <= i < r@.len() ==> #[trigger] r@[i]@ == price_text(self@.prices[i]),
    {
        prices_to_strings(&self.price)
    }

    pub fn get_created_at(&self) -> (r: &Timestamp)
        ensures
            *r == self@.created_at,
    {
        &self.created_at
    }

    pub fn get_updated_at(&self) -> (r: Option<&Timestamp>)
        ensures
            match r {
                Some(t) => self@.updated_at == Some(*t),
                None => self@.updated_at is None,
            },
    {
        match &self.updated_at {
            Some(t) => Some(t),
            None => None,
        }
    }
}

impl Entity for Supply {
    type Id = SupplyId;

    open spec fn id_value(&self) -> Seq<char> {
        self@.id
    }

    open spec fn violations(&self) -> Seq<ErrorView> {
        violations(self@.id, self@.name, self@.prices.len())
    }

    fn get_id(&self) -> (r: &SupplyId) {
        &self.id
    }

    fn validate<H: ValidationHandler>(&self, handler: &mut H) {
        let validator = SupplyValidator::new(self);
        validator.validate(handler);
    }
}

impl AggregateRoot for Supply {

}

/// Runs the supply rules on one supply.
pub struct SupplyValidator<'a> {
    pub supply: &'a Supply,
}

impl<'a> SupplyValidator<'a> {
    pub fn new(supply: &'a Supply) -> (r: SupplyValidator<'a>)
        ensures
            r.supply == supply,
    {
        SupplyValidator { supply }
    }
}

impl<'a> Validator for SupplyValidator<'a> {
    open spec fn findings(&self) -> Seq<ErrorView> {
        violations(self.supply@.id, self.supply@.name, self.supply@.prices.len())
    }

    fn validate<H: ValidationHandler>(&self, handler: &mut H) {
        let supply = self.supply;
        check_all(supply.id.get_value(), supply.name.as_str(), supply.price.len(), handler);
    }
}

/// Updating a valid supply with a valid name and at least one price always
/// succeeds: the checks that `update` runs find nothing.
pub proof fn lemma_update_of_valid_supply(supply: Supply, name: Seq<char>, price_count: nat)
    requires
        supply.wf(),
        name_length_ok(trimmed(name).len()),
        price_count > 0,
    ensures
        violations(supply@.id, name, price_count).len() == 0,
{
    lemma_no_violations_iff_rules(supply@.id, supply@.name, supply@.prices.len());
    lemma_no_violations_iff_rules(supply@.id, name, price_count);
}

} // verus!
