//! A bill: a name and the amount owed under it.

use crate::amount::Amount;
use vstd::prelude::*;
use vstd::string::*;

verus! {

/// What a bill says: its name and its amount.
pub struct BillView {
    pub name: Seq<char>,
    pub amount: Amount,
}

/// A named sum of money that is owed. The name is never empty and, once
/// the bill is made, never changes.
#[derive(Debug, PartialEq, Eq)]
pub struct Bill {
    name: String,
    amount: Amount,
}

impl View for Bill {
    type V = BillView;

    closed spec fn view(&self) -> BillView {
        BillView { name: self.name@, amount: self.amount }
    }
}

impl Clone for Bill {
    fn clone(&self) -> (r: Bill)
        ensures
            r@ == self@,
    {
        proof {
            use_type_invariant(self);
        }
        Bill { name: self.name.clone(), amount: self.amount }
    }
}

fn lend(amount: &mut Amount) -> (r: &mut Amount)
    ensures
        *r == *old(amount),
        *final(amount) == *final(r),
    no_unwind
{
    amount
}

impl Bill {
    #[verifier::type_invariant]
    pub closed spec fn inv(&self) -> bool {
        self.name@.len() > 0
    }

    /// A bill of the given name and amount; none where the name is empty.
    pub fn new(name: &str, amount: Amount) -> (r: Option<Bill>)
        ensures
            r is Some <==> name@.len() > 0,
            r matches Some(bill) ==> bill@ == (BillView { name: name@, amount }),
    {
        if name.is_empty() {
            None
        } else {
            Some(Bill { name: name.to_owned(), amount })
        }
    }

    /// The name of the bill.
    pub fn name(&self) -> (r: &str)
        ensures
            r@ == self@.name,
            r@.len() > 0,
    {
        proof {
            use_type_invariant(self);
        }
        self.name.as_str()
    }

    /// The amount of the bill.
    pub fn amount(&self) -> (r: Amount)
        ensures
            r == self@.amount,
    {
        self.amount
    }

    /// A handle on the amount: what is written through it is the bill's
    /// amount from then on. The name cannot be reached through it.
    pub fn amount_mut(&mut self) -> (r: &mut Amount)
        ensures
            *r == old(self)@.amount,
            final(self)@ == (BillView { name: old(self)@.name, amount: *final(r) }),
        no_unwind
    {
        proof {
            use_type_invariant(&*self);
        }
        lend(&mut self.amount)
    }

    /// Gives the bill another amount and leaves its name as it is.
    pub fn set_amount(&mut self, amount: Amount)
        ensures
            final(self)@ == (BillView { name: old(self)@.name, amount }),
    {
        proof {
            use_type_invariant(&*self);
        }
        self.amount = amount;
    }
}

} // verus!
