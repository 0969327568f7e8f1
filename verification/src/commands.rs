//! The transactions of the controller and the commands that call them.

use vstd::prelude::*;
use crate::arith::fits_i64;
use crate::arith::floor_div;
use crate::catalog::hello_from_hell;
use crate::catalog::hello_from_hell_spec;
use crate::catalog::BAILIFF;
use crate::events::Event;
use crate::items::bought;
use crate::items::Item;
use crate::items::ItemSpec;
use crate::items::ItemView;
use crate::items::RateKind;
use crate::items::YieldKind;
use crate::model::CustomerKind;
use crate::model::Model;
use crate::model::Msg;
use crate::registry::lemma_position_same_keys;
use crate::registry::put;
use crate::registry::Registry;
use crate::state::add_effect;
use crate::state::add_effects;
use crate::state::decimated;
use crate::state::has_pending;
use crate::state::multiplied;
use crate::state::reveal_item;
use crate::state::reveal_upgrade;
use crate::state::triggered_event;
use crate::state::State;
use crate::units::Souls;
use crate::upgrades::EffectList;
use crate::upgrades::Upgrade;
use crate::upgrades::UpgradeEffect;

verus! {

/// Reveals each of `items` that a balance of `souls` reveals.
fn reveal_items(items: &mut Registry<Item>, souls: i64)
    requires
        old(items).wf(),
    ensures
        final(items).wf(),
        final(items)@.len() == old(items)@.len(),
        forall|k: int|
            0 <= k < old(items)@.len() ==> (#[trigger] final(items)@[k])@ == reveal_item(
                old(items)@[k]@,
                souls as int,
            ),
{
    let n = items.len();
    let mut k: usize = 0;
    while k < n
        invariant
            items.wf(),
            k <= n,
            n == items@.len(),
            n == old(items)@.len(),
            forall|i: int|
                0 <= i < k ==> (#[trigger] items@[i])@ == reveal_item(old(items)@[i]@, souls as int),
            forall|i: int| k <= i < n ==> #[trigger] items@[i] == old(items)@[i],
        decreases n - k,
    {
        let ghost before = items@;
        let entry = items.get_mut(k);
        if !entry.revealed {
            // the balance is at least half the price, rounded down
            entry.revealed = entry.quantity > 0 || 2 * (souls as i128) + 1 >= entry.spec.cost.0 as i128;
        }
        proof {
            assert forall|i: int| 0 <= i < k implies (#[trigger] items@[i])@ == reveal_item(
                old(items)@[i]@,
                souls as int,
            ) by {
                assert(items@[i] == before[i]);
            }
            assert forall|i: int| k < i < n implies #[trigger] items@[i] == old(items)@[i] by {
                assert(items@[i] == before[i]);
            }
        }
        k = k + 1;
    }
}

/// Reveals each of `upgrades` that a balance of `souls` reveals.
fn reveal_upgrades(upgrades: &mut Registry<Upgrade>, souls: i64)
    requires
        old(upgrades).wf(),
    ensures
        final(upgrades).wf(),
        final(upgrades)@.len() == old(upgrades)@.len(),
        forall|k: int|
            0 <= k < old(upgrades)@.len() ==> #[trigger] final(upgrades)@[k] == reveal_upgrade(
                old(upgrades)@[k],
                souls as int,
            ),
{
    let n = upgrades.len();
    let mut k: usize = 0;
    while k < n
        invariant
            upgrades.wf(),
            k <= n,
            n == upgrades@.len(),
            n == old(upgrades)@.len(),
            forall|i: int|
                0 <= i < k ==> #[trigger] upgrades@[i] == reveal_upgrade(
                    old(upgrades)@[i],
                    souls as int,
                ),
            forall|i: int| k <= i < n ==> #[trigger] upgrades@[i] == old(upgrades)@[i],
        decreases n - k,
    {
        let ghost before = upgrades@;
        let entry = upgrades.get_mut(k);
        if !entry.revealed {
            // the balance is at least half the price, rounded down
            entry.revealed = 2 * (souls as i128) + 1 >= entry.spec.cost.0 as i128;
        }
        proof {
            assert forall|i: int| 0 <= i < k implies #[trigger] upgrades@[i] == reveal_upgrade(
                old(upgrades)@[i],
                souls as int,
            ) by {
                assert(upgrades@[i] == before[i]);
            }
            assert forall|i: int| k < i < n implies #[trigger] upgrades@[i] == old(upgrades)@[i] by {
                assert(upgrades@[i] == before[i]);
            }
        }
        k = k + 1;
    }
}

/// Adds `effect` last to the bucket of its item, which is made where there
/// is none.
fn add_to_bucket(buckets: &mut Registry<EffectList>, effect: UpgradeEffect)
    requires
        old(buckets).wf(),
    ensures
        final(buckets).wf(),
        final(buckets)@.map_values(|e: EffectList| e@) == add_effect(
            old(buckets)@.map_values(|e: EffectList| e@),
            effect,
        ),
{
    let ghost before = buckets@.map_values(|e: EffectList| e@);
    proof {
        buckets.lemma_distinct();
        lemma_position_same_keys(buckets@, before, effect.spec.id);
    }
    match buckets.position(effect.spec.id) {
        Some(p) => {
            let entry = buckets.get_mut(p);
            entry.effects.push(effect);
            proof {
                assert(buckets@.map_values(|e: EffectList| e@) =~= add_effect(before, effect));
            }
        },
        None => {
            let mut list: Vec<UpgradeEffect> = Vec::new();
            list.push(effect);
            buckets.insert(EffectList { target: effect.spec.id, effects: list });
            proof {
                assert(list@ =~= seq![effect]);
                assert(buckets@.map_values(|e: EffectList| e@) =~= add_effect(before, effect));
            }
        },
    }
}

/// The population and the corpses after the one-time effects of `spec` on
/// a population of `alive`: first the multiplier, then the kill ratio.
/// `None` where the multiplied population or the corpses cannot be held in
/// an `i64`.
pub fn buy_effects(spec: &ItemSpec, alive: i64, due: i64) -> (r: Option<(i64, i64)>)
    ensures
        match r {
            Some((left, corpses)) => {
                let grown = multiplied(*spec, alive as int);
                &&& fits_i64(grown)
                &&& left == grown - decimated(*spec, grown)
                &&& corpses == due + decimated(*spec, grown)
            },
            None => {
                let grown = multiplied(*spec, alive as int);
                !fits_i64(grown) || !fits_i64(due + decimated(*spec, grown))
            },
        },
{
    let grown: i64 = match spec.pop_multiplier {
        Some(m) => {
            assert(-0x4000_0000_0000_0000_0000_0000_0000_0000 <= alive * m.0
                <= 0x4000_0000_0000_0000_0000_0000_0000_0000) by (nonlinear_arith)
                requires
                    -0x8000_0000_0000_0000 <= alive <= 0x7fff_ffff_ffff_ffff,
                    -0x8000_0000_0000_0000 <= m.0 <= 0x7fff_ffff_ffff_ffff,
            ;
            let g = floor_div((alive as i128) * (m.0 as i128), 1000);
            if g > i64::MAX as i128 {
                return None;
            }
            if g < 0 {
                0
            } else {
                g as i64
            }
        },
        None => alive,
    };
    let killed: i64 = match spec.pop_kill_ratio {
        Some(r) => {
            assert(-0x4000_0000_0000_0000_0000_0000_0000_0000 <= grown * r.0
                <= 0x4000_0000_0000_0000_0000_0000_0000_0000) by (nonlinear_arith)
                requires
                    -0x8000_0000_0000_0000 <= grown <= 0x7fff_ffff_ffff_ffff,
                    -0x8000_0000_0000_0000 <= r.0 <= 0x7fff_ffff_ffff_ffff,
            ;
            let x = floor_div((grown as i128) * (r.0 as i128), 1000);
            let top: i64 = if grown < 0 {
                0
            } else {
                grown
            };
            if x < 0 {
                0
            } else if x > top as i128 {
                top
            } else {
                x as i64
            }
        },
        None => 0,
    };
    let corpses: i128 = due as i128 + killed as i128;
    if corpses > i64::MAX as i128 {
        return None;
    }
    Some(((grown as i128 - killed as i128) as i64, corpses as i64))
}

impl Model {
    /// Moves what a harvest of `quantity` harvests from the corpses to the
    /// balance: no more than the population, the corpses or `quantity`.
    pub fn harvest(&mut self, quantity: Souls)
        requires
            fits_i64(old(self)@.souls + old(self)@.harvested(quantity.0 as int)),
        ensures
            final(self)@ == old(self)@.harvest(quantity.0 as int),
            final(self)@.due + final(self)@.souls == old(self)@.due + old(self)@.souls,
            old(self).wf() ==> final(self).wf(),
    {
        let mut h: i64 = quantity.0;
        if self.due.0 < h {
            h = self.due.0;
        }
        if self.alive.0 < h {
            h = self.alive.0;
        }
        if h < 0 {
            h = 0;
        }
        self.due = Souls(self.due.0 - h);
        self.souls = Souls(self.souls.0 + h);
    }

    /// Moves what a remittance of `quantity` remits from the balance to
    /// the ledger of `target`: no more than the balance or `quantity`.
    pub fn remit(&mut self, quantity: Souls, target: CustomerKind)
        requires
            old(self)@.remit(quantity.0 as int, target).fits(),
        ensures
            final(self)@ == old(self)@.remit(quantity.0 as int, target),
            final(self)@.souls + final(self)@.given(target) == old(self)@.souls + old(self)@.given(
                target,
            ),
            old(self).wf() ==> final(self).wf(),
    {
        let mut r: i64 = quantity.0;
        if self.souls.0 < r {
            r = self.souls.0;
        }
        if r < 0 {
            r = 0;
        }
        match target {
            CustomerKind::Heaven => {
                self.heaven.given = Souls(self.heaven.given.0 + r);
            },
            CustomerKind::Hell => {
                self.hell.given = Souls(self.hell.given.0 + r);
            },
        }
        self.souls = Souls(self.souls.0 - r);
    }

    /// Reveals each item that is owned or whose base price the balance
    /// covers by half.
    pub fn update_items_reveal(&mut self)
        requires
            old(self).wf(),
        ensures
            final(self).wf(),
            final(self)@ == (State {
                items: old(self)@.unveil().items,
                ..old(self)@
            }),
    {
        reveal_items(&mut self.items, self.souls.0);
        proof {
            assert(self@.items =~= old(self)@.unveil().items);
        }
    }

    /// Reveals each upgrade whose price the balance covers by half.
    pub fn update_upgrades_reveal(&mut self)
        requires
            old(self).wf(),
        ensures
            final(self).wf(),
            final(self)@ == (State {
                upgrades: old(self)@.unveil().upgrades,
                ..old(self)@
            }),
    {
        reveal_upgrades(&mut self.upgrades, self.souls.0);
        proof {
            assert(self@.upgrades =~= old(self)@.unveil().upgrades);
        }
    }

    /// Applies the one-time effects of a unit of `spec` that brought the
    /// quantity owned to `new_quantity`: the population is multiplied and
    /// then decimated as the item says, and the event that the quantity
    /// triggers becomes pending.
    pub fn apply_buy_effects(&mut self, spec: &ItemSpec, new_quantity: i64)
        requires
            old(self).wf(),
            fits_i64(multiplied(*spec, old(self)@.alive)),
            fits_i64(old(self)@.due + decimated(*spec, multiplied(*spec, old(self)@.alive))),
        ensures
            final(self).wf(),
            final(self)@ == (State {
                alive: multiplied(*spec, old(self)@.alive) - decimated(
                    *spec,
                    multiplied(*spec, old(self)@.alive),
                ),
                due: old(self)@.due + decimated(*spec, multiplied(*spec, old(self)@.alive)),
                events: match triggered_event(spec.id, new_quantity as int) {
                    Some(e) => put(old(self)@.events, Event { spec: e, consumed: false }),
                    None => old(self)@.events,
                },
                ..old(self)@
            }),
    {
        match buy_effects(spec, self.alive.0, self.due.0) {
            Some((alive, due)) => {
                self.alive = Souls(alive);
                self.due = Souls(due);
            },
            None => vstd::pervasive::unreached(),
        }
        if spec.id == BAILIFF && new_quantity == 1 {
            self.add_event(hello_from_hell());
        }
    }

    /// Buys up to `quantity` units of the item at position `p`, one by
    /// one, until one cannot be bought. Where a unit cannot be bought in
    /// `i64`, nothing is bought and the answer is `false`.
    pub fn try_purchase(&mut self, p: usize, quantity: i64) -> (done: bool)
        requires
            old(self).wf(),
            p < old(self)@.items.len(),
        ensures
            final(self).wf(),
            done == old(self)@.purchase_fits(p as int, bought(quantity)),
            done ==> final(self)@ == old(self)@.purchase(p as int, bought(quantity)),
            !done ==> final(self)@ == old(self)@,
    {
        let item = *self.items.get(p);
        let ghost start = self@;
        let ghost total = bought(quantity);
        let ghost hello = Event { spec: hello_from_hell_spec(), consumed: false };
        let mut souls: i64 = self.souls.0;
        let mut alive: i64 = self.alive.0;
        let mut due: i64 = self.due.0;
        let mut owned: i64 = item.quantity;
        let mut triggered = false;
        let mut stopped = false;
        let mut k: i64 = 0;
        let ghost mut cur = self@;
        proof {
            assert(start.items[p as int] == item@);
            assert(start.items.update(p as int, ItemView { quantity: owned as int, ..start.items[p as int] })
                =~= start.items);
        }
        while k < quantity && !stopped
            invariant
                self.wf(),
                self@ == start,
                start == old(self)@,
                hello == (Event { spec: hello_from_hell_spec(), consumed: false }),
                0 <= k,
                k <= total,
                total == bought(quantity),
                owned >= 0,
                p < start.items.len(),
                start.items[p as int].spec == item.spec,
                triggered ==> owned >= 1,
                stopped ==> !cur.can_buy(p as int),
                cur == (State {
                    souls: souls as int,
                    alive: alive as int,
                    due: due as int,
                    items: start.items.update(
                        p as int,
                        ItemView { quantity: owned as int, ..start.items[p as int] },
                    ),
                    events: if triggered {
                        put(start.events, hello)
                    } else {
                        start.events
                    },
                    ..start
                }),
                start.purchase(p as int, total) == cur.purchase(p as int, (total - k) as nat),
                start.purchase_fits(p as int, total) == cur.purchase_fits(
                    p as int,
                    (total - k) as nat,
                ),
            decreases quantity - k + (if stopped { 0int } else { 1int }),
        {
            let ghost rest = (total - k) as nat;
            proof {
                assert(cur.items[p as int].quantity == owned);
                assert(cur.items[p as int].spec == item.spec);
                if item.spec.cost.0 >= 0 {
                    crate::growth::lemma_compound_step(item.spec.cost.0 as int, owned as nat);
                } else {
                    crate::growth::lemma_compound_negative(item.spec.cost.0 as int, owned as nat);
                }
            }
            if item.spec.unique && owned >= 1 {
                stopped = true;
            } else {
                match item.spec.checked_ith_cost(owned) {
                    None => {
                        if item.spec.cost.0 >= 0 {
                            stopped = true;
                        } else {
                            assert(cur.can_buy(p as int));
                            assert(!cur.buy_fits(p as int));
                            return false;
                        }
                    },
                    Some(cost) => {
                        if cost.0 > souls {
                            stopped = true;
                        } else {
                            assert(cur.can_buy(p as int));
                            let left: i128 = souls as i128 - cost.0 as i128;
                            if owned == i64::MAX || left > i64::MAX as i128 {
                                assert(!cur.buy_fits(p as int));
                                return false;
                            }
                            match buy_effects(&item.spec, alive, due) {
                                None => {
                                    assert(!cur.buy_fits(p as int));
                                    return false;
                                },
                                Some((a, d)) => {
                                    let ghost next = cur.buy_one(p as int);
                                    assert(cur.buy_fits(p as int));
                                    souls = left as i64;
                                    alive = a;
                                    due = d;
                                    owned = owned + 1;
                                    if item.spec.id == BAILIFF && owned == 1 {
                                        triggered = true;
                                    }
                                    proof {
                                        assert(next.items =~= start.items.update(
                                            p as int,
                                            ItemView {
                                                quantity: owned as int,
                                                ..start.items[p as int]
                                            },
                                        ));
                                        assert(next.events == if triggered {
                                            put(start.events, hello)
                                        } else {
                                            start.events
                                        });
                                        assert(next.souls == souls && next.alive == alive && next.due
                                            == due);
                                        cur = next;
                                    }
                                    k = k + 1;
                                },
                            }
                        }
                    },
                }
            }
        }
        proof {
            assert(cur.purchase(p as int, (total - k) as nat) == cur);
            assert(cur.purchase_fits(p as int, (total - k) as nat));
        }
        self.souls = Souls(souls);
        self.alive = Souls(alive);
        self.due = Souls(due);
        let entry = self.items.get_mut(p);
        entry.quantity = owned;
        if triggered {
            self.add_event(hello_from_hell());
        }
        proof {
            assert(self@.items =~= cur.items);
            assert(self@ =~= cur);
        }
        true
    }

    /// Makes each effect of the upgrade at position `p` active, in order.
    pub fn apply_upgrade(&mut self, p: usize)
        requires
            old(self).wf(),
            p < old(self)@.upgrades.len(),
        ensures
            final(self).wf(),
            final(self)@ == (State {
                effects: add_effects(
                    old(self)@.effects,
                    old(self)@.upgrades[p as int].spec.effects@,
                    old(self)@.upgrades[p as int].spec.effects@.len(),
                ),
                ..old(self)@
            }),
    {
        let n = self.upgrades.get(p).spec.effects.len();
        let ghost start = self@;
        let ghost effects = self@.upgrades[p as int].spec.effects@;
        let mut j: usize = 0;
        while j < n
            invariant
                self.wf(),
                j <= n,
                n == effects.len(),
                p < self@.upgrades.len(),
                effects == self@.upgrades[p as int].spec.effects@,
                self@ == (State { effects: add_effects(start.effects, effects, j as nat), ..start }),
            decreases n - j,
        {
            let effect = self.upgrades.get(p).spec.effects[j];
            add_to_bucket(&mut self.effects, effect);
            j = j + 1;
        }
    }

    /// Buys the upgrade `id` and makes its effects active, unless it is
    /// unknown or bought already. Says whether it was bought now.
    pub fn purchase_upgrade(&mut self, id: i64) -> (applied: bool)
        requires
            old(self).wf(),
        ensures
            final(self).wf(),
            final(self)@ == old(self)@.buy_upgrade(id),
            applied == old(self)@.upgrade_applies(id),
    {
        match self.upgrades.position(id) {
            Some(p) => {
                if self.upgrades.get(p).bought {
                    false
                } else {
                    let entry = self.upgrades.get_mut(p);
                    entry.bought = true;
                    self.apply_upgrade(p);
                    proof {
                        assert(self@.upgrades =~= old(self)@.buy_upgrade(id).upgrades);
                    }
                    true
                }
            },
            None => false,
        }
    }

    /// Marks the event `id` as consumed, if it is known.
    pub fn consume_event(&mut self, id: i64)
        requires
            old(self).wf(),
        ensures
            final(self).wf(),
            final(self)@ == old(self)@.consume_event(id),
    {
        match self.events.position(id) {
            Some(p) => {
                let entry = self.events.get_mut(p);
                entry.consumed = true;
                proof {
                    assert(self@.events =~= old(self)@.consume_event(id).events);
                }
            },
            None => {},
        }
    }

    /// Lets one month pass, unless an event is pending: the population
    /// moves, the monthly yield is harvested and the shop reveals what the
    /// balance reveals. Says whether the month passed; `None`, with
    /// nothing changed, where it cannot be applied in `i64`.
    pub fn try_tick(&mut self) -> (r: Option<bool>)
        requires
            old(self).wf(),
        ensures
            final(self).wf(),
            match r {
                Some(passed) => {
                    &&& old(self)@.tick_fits()
                    &&& final(self)@ == old(self)@.tick()
                    &&& passed == !has_pending(old(self)@.events)
                },
                None => !old(self)@.tick_fits() && final(self)@ == old(self)@,
            },
    {
        if self.has_active_events() {
            return Some(false);
        }
        let births = match self.checked_rates(RateKind::Birth) {
            Some(rates) => rates.per_tick.0,
            None => {
                return None;
            },
        };
        let deaths = match self.checked_rates(RateKind::Death) {
            Some(rates) => rates.per_tick.0,
            None => {
                return None;
            },
        };
        let monthly = match self.checked_yield(YieldKind::Tick) {
            Some(y) => y,
            None => {
                return None;
            },
        };
        let top: i64 = if self.alive.0 < 0 {
            0
        } else {
            self.alive.0
        };
        let d: i64 = if deaths < 0 {
            0
        } else if deaths > top {
            top
        } else {
            deaths
        };
        let b: i64 = if births < 0 {
            0
        } else {
            births
        };
        let due: i128 = self.due.0 as i128 + d as i128;
        let alive: i128 = self.alive.0 as i128 - d as i128 + b as i128;
        if due > i64::MAX as i128 || alive > i64::MAX as i128 || self.month == i64::MAX {
            return None;
        }
        let ghost aged = self@.age();
        assert(aged.souls_per_tick() == self@.souls_per_tick());
        let mut h: i128 = monthly.0 as i128;
        if due < h {
            h = due;
        }
        if alive < h {
            h = alive;
        }
        if h < 0 {
            h = 0;
        }
        assert(h == aged.harvested(monthly.0 as int));
        if self.souls.0 as i128 + h > i64::MAX as i128 {
            return None;
        }
        self.due = Souls(due as i64);
        self.alive = Souls(alive as i64);
        self.month = self.month + 1;
        assert(self@ =~= aged);
        self.harvest(monthly);
        self.update_items_reveal();
        self.update_upgrades_reveal();
        proof {
            assert(self@ =~= old(self)@.tick());
        }
        Some(true)
    }

    /// Applies the command `msg` and says whether it calls for a new
    /// rendering; `None`, with nothing changed, where the command cannot
    /// be applied in `i64`.
    pub fn try_update(&mut self, msg: Msg) -> (r: Option<bool>)
        requires
            old(self).wf(),
        ensures
            final(self).wf(),
            match r {
                Some(render) => {
                    &&& old(self)@.accepts(msg)
                    &&& final(self)@ == old(self)@.step(msg)
                    &&& render == old(self)@.renders(msg)
                },
                None => !old(self)@.accepts(msg) && final(self)@ == old(self)@,
            },
    {
        match msg {
            Msg::Tick => self.try_tick(),
            Msg::Remit { quantity, target } => {
                let mut r: i64 = quantity.0;
                if self.souls.0 < r {
                    r = self.souls.0;
                }
                if r < 0 {
                    r = 0;
                }
                let given: i64 = match target {
                    CustomerKind::Heaven => self.heaven.given.0,
                    CustomerKind::Hell => self.hell.given.0,
                };
                if given > i64::MAX - r {
                    return None;
                }
                self.remit(quantity, target);
                Some(true)
            },
            Msg::Harvest => {
                match self.checked_souls_per_click() {
                    Some(amount) => {
                        let mut h: i64 = amount.0;
                        if self.due.0 < h {
                            h = self.due.0;
                        }
                        if self.alive.0 < h {
                            h = self.alive.0;
                        }
                        if h < 0 {
                            h = 0;
                        }
                        if self.souls.0 > i64::MAX - h {
                            return None;
                        }
                        self.harvest(amount);
                        Some(true)
                    },
                    None => None,
                }
            },
            Msg::Purchase { spec, quantity } => {
                proof {
                    self.lemma_positions(spec);
                }
                match self.items.position(spec) {
                    Some(p) => {
                        if self.try_purchase(p, quantity) {
                            Some(true)
                        } else {
                            None
                        }
                    },
                    None => Some(true),
                }
            },
            Msg::FocusTab { tab } => {
                self.tab = tab;
                Some(true)
            },
            Msg::FocusItemCategory { category } => {
                self.item_category = category;
                Some(true)
            },
            Msg::ConsumeEvent { spec } => {
                self.consume_event(spec);
                Some(true)
            },
            Msg::PurchaseUpgrade { spec } => Some(self.purchase_upgrade(spec)),
        }
    }

    /// Applies the command `msg` and says whether it calls for a new
    /// rendering.
    pub fn update(&mut self, msg: Msg) -> (render: bool)
        requires
            old(self).wf(),
            old(self)@.accepts(msg),
        ensures
            final(self).wf(),
            final(self)@ == old(self)@.step(msg),
            render == old(self)@.renders(msg),
            old(self)@.non_negative() ==> final(self)@.non_negative(),
    {
        proof {
            if self@.non_negative() {
                crate::laws::law_non_negative(self@, msg);
            }
        }
        match self.try_update(msg) {
            Some(render) => render,
            None => vstd::pervasive::unreached(),
        }
    }
}

} // verus!
