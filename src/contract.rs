//! The contract state and the operations that the host dispatches to it.
//!
//! The host supplies the caller's identity with each call; here it is an
//! explicit argument. Any account may change the price or the owner: no
//! operation checks who calls it.
use vstd::prelude::*;

use crate::account::AccountId;
use crate::balances::Balances;

verus! {

/// What a contract state holds, as mathematical values.
pub struct PriceView {
    pub total_supply: u32,
    pub price: u32,
    pub owner: AccountId,
    pub balances: Map<AccountId, u32>,
}

impl PriceView {
    /// The state after the price is set to `price`.
    pub open spec fn with_price(self, price: u32) -> PriceView {
        PriceView {
            total_supply: self.total_supply,
            price,
            owner: self.owner,
            balances: self.balances,
        }
    }

    /// The state after the owner is set to `owner`.
    pub open spec fn with_owner(self, owner: AccountId) -> PriceView {
        PriceView {
            total_supply: self.total_supply,
            price: self.price,
            owner,
            balances: self.balances,
        }
    }
}

/// The state that `caller` creates by deploying with `supply` and `price`:
/// the caller owns the contract and holds the whole supply.
pub open spec fn deployed(supply: u32, price: u32, caller: AccountId) -> PriceView {
    PriceView {
        total_supply: supply,
        price,
        owner: caller,
        balances: map![caller => supply],
    }
}

/// Setting the price twice to the same value leaves the state that setting it
/// once leaves.
pub proof fn lemma_set_price_idempotent(state: PriceView, price: u32)
    ensures
        state.with_price(price).with_price(price) == state.with_price(price),
{
}

/// A token contract with a fixed total supply, a price and an owner.
pub struct Price {
    total_supply: u32,
    price: u32,
    owner: AccountId,
    balances: Balances,
}

impl View for Price {
    type V = PriceView;

    closed spec fn view(&self) -> PriceView {
        PriceView {
            total_supply: self.total_supply,
            price: self.price,
            owner: self.owner,
            balances: self.balances@,
        }
    }
}

impl Price {
    /// The balance table is well formed.
    pub closed spec fn wf(&self) -> bool {
        self.balances.wf()
    }

    /// Deploys the contract on behalf of `caller`: the total supply is
    /// `supply`, the price is `price`, the owner is `caller`, and `caller`
    /// holds the whole supply.
    pub fn new(supply: u32, price: u32, caller: AccountId) -> (r: Price)
        ensures
            r.wf(),
            r@ == deployed(supply, price, caller),
    {
        let mut balances = Balances::new();
        balances.insert(caller, supply);
        let r = Price { total_supply: supply, price, owner: caller, balances };
        assert(r@.balances =~= map![caller => supply]);
        r
    }

    /// Sets the price to `price`, whoever calls; nothing else changes.
    pub fn set_price(&mut self, price: u32)
        requires
            old(self).wf(),
        ensures
            final(self).wf(),
            final(self)@ == old(self)@.with_price(price),
    {
        self.price = price;
    }

    /// Sets the owner to `new_owner`, whoever calls; nothing else changes.
    pub fn set_owner(&mut self, new_owner: AccountId)
        requires
            old(self).wf(),
        ensures
            final(self).wf(),
            final(self)@ == old(self)@.with_owner(new_owner),
    {
        self.owner = new_owner;
    }

    /// The total supply.
    pub fn total_supply(&self) -> (r: u32)
        ensures
            r == self@.total_supply,
    {
        self.total_supply
    }

    /// The current price.
    pub fn price(&self) -> (r: u32)
        ensures
            r == self@.price,
    {
        self.price
    }

    /// The current owner.
    pub fn owner(&self) -> (r: AccountId)
        ensures
            r == self@.owner,
    {
        self.owner
    }

    /// The balance of `account`, or `None` where it has no entry.
    pub fn balance_of(&self, account: &AccountId) -> (r: Option<u32>)
        requires
            self.wf(),
        ensures
            r == (if self@.balances.contains_key(*account) {
                Some(self@.balances[*account])
            } else {
                None::<u32>
            }),
    {
        self.balances.get(account)
    }
}

} // verus!
