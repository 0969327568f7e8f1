//! What the screen shows of a game: which items, upgrades and events are
//! on display, which purchases and remittances are on offer, and how
//! changes are written out.

use vstd::prelude::*;
use vstd::string::StringExecFns;
use crate::events::Event;
use crate::items::bought;
use crate::items::Item;
use crate::items::ItemCategory;
use crate::items::RateKind;
use crate::model::Model;
use crate::units::rendered;
use crate::units::truncated;
use crate::units::Souls;
use crate::upgrades::Upgrade;

verus! {

/// Whether `item` is on display on the shelf `category`.
pub open spec fn on_shelf(item: Item, category: ItemCategory) -> bool {
    item.revealed && item.spec.category == category
}

/// Whether `upgrade` is on offer: revealed and not bought yet.
pub open spec fn on_offer(upgrade: Upgrade) -> bool {
    upgrade.revealed && !upgrade.bought
}

/// The positions, among the first `n` of `upgrades`, of those on offer.
pub open spec fn offered(upgrades: Seq<Upgrade>, n: nat) -> Seq<usize>
    decreases n,
{
    if n == 0 {
        Seq::empty()
    } else if on_offer(upgrades[n - 1]) {
        offered(upgrades, (n - 1) as nat).push((n - 1) as usize)
    } else {
        offered(upgrades, (n - 1) as nat)
    }
}

/// Those of `amounts` that are not zero, in order.
pub open spec fn positive_offers(amounts: Seq<Souls>) -> Seq<Souls> {
    amounts.filter(|a: Souls| a.0 != 0)
}

/// An amount with its sign: a plus sign before one that is not negative.
pub open spec fn signed(n: int) -> Seq<char> {
    if n >= 0 {
        seq!['+'] + rendered(n)
    } else {
        rendered(n)
    }
}

impl Item {
    /// The numbers of units that the shop offers of the item: one or ten
    /// of an ordinary item, one of a unique item that is not owned, none
    /// of one that is.
    pub fn purchase_sizes(&self) -> (sizes: Vec<i64>)
        ensures
            sizes@ == (if !self.spec.unique {
                seq![1i64, 10i64]
            } else if self.quantity > 0 {
                Seq::<i64>::empty()
            } else {
                seq![1i64]
            }),
    {
        let mut sizes: Vec<i64> = Vec::new();
        if !self.spec.unique {
            sizes.push(1);
            sizes.push(10);
            assert(sizes@ =~= seq![1i64, 10i64]);
        } else if self.quantity <= 0 {
            sizes.push(1);
            assert(sizes@ =~= seq![1i64]);
        }
        sizes
    }
}

impl Souls {
    /// The amount with its sign, as a change is shown: a plus sign before
    /// one that is not negative.
    pub fn to_signed_string(&self) -> (s: String)
        ensures
            s@ == signed(self.0 as int),
    {
        if self.0 >= 0 {
            proof {
                reveal_strlit("+");
            }
            let mut s = String::from_str("+");
            let body = self.to_string();
            s.append(body.as_str());
            assert(s@ =~= signed(self.0 as int));
            s
        } else {
            self.to_string()
        }
    }
}

impl Model {
    /// The items on display on the shelf `category`, in order.
    pub fn visible_items(&self, category: ItemCategory) -> (shown: Vec<Item>)
        ensures
            shown@ == self.items@.filter(|i: Item| on_shelf(i, category)),
    {
        let ghost pred = |i: Item| on_shelf(i, category);
        let n = self.items.len();
        let mut shown: Vec<Item> = Vec::new();
        let mut k: usize = 0;
        proof {
            reveal(Seq::filter);
            assert(self.items@.take(0) =~= Seq::<Item>::empty());
        }
        while k < n
            invariant
                k <= n,
                n == self.items@.len(),
                pred == (|i: Item| on_shelf(i, category)),
                shown@ == self.items@.take(k as int).filter(pred),
            decreases n - k,
        {
            let item = *self.items.get(k);
            proof {
                reveal(Seq::filter);
                assert(self.items@.take(k + 1).drop_last() =~= self.items@.take(k as int));
                assert(self.items@.take(k + 1).last() == item);
            }
            if item.revealed && item.spec.category == category {
                shown.push(item);
            }
            k = k + 1;
        }
        proof {
            assert(self.items@.take(n as int) =~= self.items@);
        }
        shown
    }

    /// The positions of the upgrades on offer, in order.
    pub fn visible_upgrades(&self) -> (shown: Vec<usize>)
        ensures
            shown@ == offered(self.upgrades@, self.upgrades@.len()),
    {
        let n = self.upgrades.len();
        let mut shown: Vec<usize> = Vec::new();
        let mut k: usize = 0;
        while k < n
            invariant
                k <= n,
                n == self.upgrades@.len(),
                shown@ == offered(self.upgrades@, k as nat),
            decreases n - k,
        {
            let upgrade = self.upgrades.get(k);
            if upgrade.revealed && !upgrade.bought {
                shown.push(k);
            }
            k = k + 1;
        }
        shown
    }

    /// The pending events, in order.
    pub fn pending_events(&self) -> (pending: Vec<Event>)
        ensures
            pending@ == self.events@.filter(|e: Event| !e.consumed),
    {
        let ghost pred = |e: Event| !e.consumed;
        let n = self.events.len();
        let mut pending: Vec<Event> = Vec::new();
        let mut k: usize = 0;
        proof {
            reveal(Seq::filter);
            assert(self.events@.take(0) =~= Seq::<Event>::empty());
        }
        while k < n
            invariant
                k <= n,
                n == self.events@.len(),
                pred == (|e: Event| !e.consumed),
                pending@ == self.events@.take(k as int).filter(pred),
            decreases n - k,
        {
            let event = *self.events.get(k);
            proof {
                reveal(Seq::filter);
                assert(self.events@.take(k + 1).drop_last() =~= self.events@.take(k as int));
                assert(self.events@.take(k + 1).last() == event);
            }
            if !event.consumed {
                pending.push(event);
            }
            k = k + 1;
        }
        proof {
            assert(self.events@.take(n as int) =~= self.events@);
        }
        pending
    }

    /// The amounts that the remittance bar offers: one soul, a quarter of
    /// the balance and the whole balance, each no more than the balance,
    /// and those left out that are zero.
    pub fn remit_offers(&self) -> (offers: Vec<Souls>)
        ensures
            offers@ == positive_offers(
                seq![
                    Souls(if self.souls.0 < 1 { self.souls.0 } else { 1 }),
                    Souls(truncated(self.souls.0 as int, 4) as i64),
                    self.souls,
                ],
            ),
    {
        let one: i64 = if self.souls.0 < 1 {
            self.souls.0
        } else {
            1
        };
        let quarter: Souls = self.souls / 4;
        let ghost all = seq![Souls(one), quarter, self.souls];
        let ghost pred = |a: Souls| a.0 != 0;
        let mut offers: Vec<Souls> = Vec::new();
        proof {
            reveal_with_fuel(Seq::filter, 4);
            assert(all.drop_last() =~= seq![Souls(one), quarter]);
            assert(all.drop_last().drop_last() =~= seq![Souls(one)]);
            assert(all.drop_last().drop_last().drop_last() =~= Seq::<Souls>::empty());
        }
        if one != 0 {
            offers.push(Souls(one));
        }
        if quarter.0 != 0 {
            offers.push(quarter);
        }
        if self.souls.0 != 0 {
            offers.push(self.souls);
        }
        assert(offers@ =~= all.filter(pred));
        offers
    }

    /// Whether the shop refuses to sell `quantity` units of `item`: their
    /// price is more than the balance, or cannot be summed in `i64`.
    pub fn purchase_disabled(&self, item: &Item, quantity: i64) -> (disabled: bool)
        requires
            item.quantity >= 0,
        ensures
            disabled == !(item.cost_n_fits(quantity) && item@.cost_n(bought(quantity))
                <= self.souls.0),
    {
        match item.checked_cost_n(quantity) {
            Some(cost) => cost.0 > self.souls.0,
            None => true,
        }
    }

    /// Whether fewer are born than die in a month.
    pub fn is_declining(&self) -> (declining: bool)
        requires
            self.wf(),
            self@.rates_fit(RateKind::Birth),
            self@.rates_fit(RateKind::Death),
        ensures
            declining == (self@.per_tick(RateKind::Birth) < self@.per_tick(RateKind::Death)),
    {
        self.births_per_tick().0 < self.deaths_per_tick().0
    }
}

} // verus!
