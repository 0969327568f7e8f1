//! The rules of the game, as functions on a mathematical state.
//!
//! Amounts are unbounded integers here and rates are counted in
//! thousandths; the executable model refines these functions.

use vstd::prelude::*;
use crate::arith::ceil_div;
use crate::arith::clamp;
use crate::arith::fits_i64;
use crate::arith::max;
use crate::arith::min;
use crate::catalog::hello_from_hell_spec;
use crate::catalog::BAILIFF;
use crate::events::Event;
use crate::events::EventSpec;
use crate::items::bought;
use crate::items::ItemCategory;
use crate::items::ItemSpec;
use crate::items::ItemView;
use crate::items::RateKind;
use crate::items::YieldKind;
use crate::model::CustomerKind;
use crate::model::Msg;
use crate::model::Tab;
use crate::registry::position_of;
use crate::registry::put;
use crate::upgrades::Bucket;
use crate::upgrades::Upgrade;
use crate::upgrades::UpgradeEffect;

verus! {

/// What a click harvests when cheating is on.
pub const CHEAT_YIELD: i64 = 1_000_000_000;

/// The whole state of a game.
#[verifier::ext_equal]
pub struct State {
    /// The living population.
    pub alive: int,
    /// The dead whose souls are not yet harvested.
    pub due: int,
    /// The spendable balance.
    pub souls: int,
    /// Births per year and thousand of population, in thousandths.
    pub base_birth_rate: int,
    /// Deaths per year and thousand of population, in thousandths.
    pub base_death_rate: int,
    /// The virtuous share of the population, in thousandths.
    pub goodness: int,
    /// Months elapsed.
    pub month: int,
    /// Souls remitted to heaven so far.
    pub heaven: int,
    /// Souls remitted to hell so far.
    pub hell: int,
    pub items: Seq<ItemView>,
    /// The active effects, one bucket for each item that has any.
    pub effects: Seq<Bucket>,
    pub upgrades: Seq<Upgrade>,
    pub events: Seq<Event>,
    pub tab: Tab,
    pub item_category: ItemCategory,
    pub cheat: bool,
}

/// The sum of what the first `n` of `effects` add to the factor of the
/// yield `kind`.
pub open spec fn modifier_sum(effects: Seq<UpgradeEffect>, kind: YieldKind, n: nat) -> int
    decreases n,
{
    if n == 0 {
        0
    } else {
        modifier_sum(effects, kind, (n - 1) as nat) + effects[n - 1].modifier(kind)
    }
}

/// The factor, in thousandths, that `effects` give to the yield `kind`:
/// one, and what each effect adds.
pub open spec fn bonus(effects: Seq<UpgradeEffect>, kind: YieldKind) -> int {
    1000 + modifier_sum(effects, kind, effects.len())
}

/// The effects that are active against the item `id`.
pub open spec fn effects_on(buckets: Seq<Bucket>, id: i64) -> Seq<UpgradeEffect> {
    match position_of(buckets, id) {
        Some(p) => buckets[p].effects,
        None => Seq::empty(),
    }
}

/// What one unit yields: the base yield times the bonus factor, rounded
/// down.
pub open spec fn unit_yield(base: int, bonus: int) -> int {
    (base * bonus) / 1000
}

/// What all units of `item` yield together for `kind`.
pub open spec fn item_yield(buckets: Seq<Bucket>, item: ItemView, kind: YieldKind) -> int {
    match item.spec.base_yield(kind) {
        Some(base) => unit_yield(base.0 as int, bonus(effects_on(buckets, item.spec.id), kind))
            * item.quantity,
        None => 0,
    }
}

/// What the first `n` of `items` yield together for `kind`.
pub open spec fn yield_sum(buckets: Seq<Bucket>, items: Seq<ItemView>, kind: YieldKind, n: nat) -> int
    decreases n,
{
    if n == 0 {
        0
    } else {
        yield_sum(buckets, items, kind, (n - 1) as nat) + item_yield(buckets, items[n - 1], kind)
    }
}

/// Whether the yield figures of `item` for `kind` can each be held in an
/// `i64`: the bonus factor, the yield of one unit and that of all units.
pub open spec fn yield_fits(buckets: Seq<Bucket>, item: ItemView, kind: YieldKind) -> bool {
    match item.spec.base_yield(kind) {
        Some(base) => {
            let b = bonus(effects_on(buckets, item.spec.id), kind);
            &&& fits_i64(b)
            &&& fits_i64(unit_yield(base.0 as int, b))
            &&& fits_i64(unit_yield(base.0 as int, b) * item.quantity)
        },
        None => true,
    }
}

/// What `item` adds to the factor of the rate `kind`: its modifier for each
/// unit owned.
pub open spec fn rate_term(item: ItemView, kind: RateKind) -> int {
    match item.spec.rate_modifier(kind) {
        Some(m) => m.0 * item.quantity,
        None => 0,
    }
}

/// What the first `n` of `items` add to the factor of the rate `kind`.
pub open spec fn rate_sum(items: Seq<ItemView>, kind: RateKind, n: nat) -> int
    decreases n,
{
    if n == 0 {
        0
    } else {
        rate_sum(items, kind, (n - 1) as nat) + rate_term(items[n - 1], kind)
    }
}

/// The monthly flow of a population `alive` under a base rate and a rate
/// factor, both in thousandths: `alive / 1000 * rate / 365.25 * 31`,
/// rounded up. A month of 31 days is 124 parts of 1461 of a year of 365.25
/// days; the divisor holds these 1461 parts, the thousand of the
/// population and the million of the two fixed-point factors.
pub open spec fn monthly_flow(alive: int, base: int, factor: int) -> int {
    ceil_div(alive * (base * factor) * 124, 1_461_000_000_000)
}

/// A population of `alive` after the multiplier of `spec`: multiplied and
/// rounded down, and not negative.
pub open spec fn multiplied(spec: ItemSpec, alive: int) -> int {
    match spec.pop_multiplier {
        Some(m) => max(0, m.of(alive)),
        None => alive,
    }
}

/// Those of a population of `alive` that the kill ratio of `spec` kills:
/// the ratio of the population, rounded down, no more than the population
/// and not negative.
pub open spec fn decimated(spec: ItemSpec, alive: int) -> int {
    match spec.pop_kill_ratio {
        Some(r) => clamp(r.of(alive), 0, max(0, alive)),
        None => 0,
    }
}

/// The event that an item brings when its quantity reaches `quantity`.
pub open spec fn triggered_event(item: i64, quantity: int) -> Option<EventSpec> {
    if item == BAILIFF && quantity == 1 {
        Some(hello_from_hell_spec())
    } else {
        None
    }
}

/// Whether an event of `events` is pending.
pub open spec fn has_pending(events: Seq<Event>) -> bool {
    exists|i: int| 0 <= i < events.len() && !(#[trigger] events[i]).consumed
}

/// `item` as the shop shows it with a balance of `souls`: revealed once
/// owned or once half its base price is at hand, and never hidden again.
pub open spec fn reveal_item(item: ItemView, souls: int) -> ItemView {
    ItemView {
        revealed: item.revealed || item.quantity > 0 || souls >= item.spec.cost.0 / 2,
        ..item
    }
}

/// `upgrade` as the shop shows it with a balance of `souls`: revealed once
/// half its price is at hand, and never hidden again.
pub open spec fn reveal_upgrade(upgrade: Upgrade, souls: int) -> Upgrade {
    Upgrade { revealed: upgrade.revealed || souls >= upgrade.spec.cost.0 / 2, ..upgrade }
}

/// `buckets` with `effect` added last to the bucket of its item, which is
/// made where there is none.
pub open spec fn add_effect(buckets: Seq<Bucket>, effect: UpgradeEffect) -> Seq<Bucket> {
    match position_of(buckets, effect.spec.id) {
        Some(p) => buckets.update(
            p,
            Bucket { effects: buckets[p].effects.push(effect), ..buckets[p] },
        ),
        None => buckets.push(Bucket { target: effect.spec.id, effects: seq![effect] }),
    }
}

/// `buckets` with the first `n` of `effects` added in order.
pub open spec fn add_effects(buckets: Seq<Bucket>, effects: Seq<UpgradeEffect>, n: nat) -> Seq<Bucket>
    decreases n,
{
    if n == 0 {
        buckets
    } else {
        add_effect(add_effects(buckets, effects, (n - 1) as nat), effects[n - 1])
    }
}

impl State {
    /// Population, corpses and balance are not negative.
    pub open spec fn non_negative(self) -> bool {
        self.alive >= 0 && self.due >= 0 && self.souls >= 0
    }

    /// Every amount of the state can be held in an `i64`.
    pub open spec fn fits(self) -> bool {
        &&& fits_i64(self.alive)
        &&& fits_i64(self.due)
        &&& fits_i64(self.souls)
        &&& fits_i64(self.month)
        &&& fits_i64(self.heaven)
        &&& fits_i64(self.hell)
    }

    // ---------------------------------------------------------------
    // Yields
    // ---------------------------------------------------------------
    /// What all items yield together for `kind`.
    pub open spec fn total_yield(self, kind: YieldKind) -> int {
        yield_sum(self.effects, self.items, kind, self.items.len())
    }

    /// What a click harvests: one soul and the yield of the items, or the
    /// cheat's amount.
    pub open spec fn souls_per_click(self) -> int {
        if self.cheat {
            CHEAT_YIELD as int
        } else {
            1 + self.total_yield(YieldKind::Click)
        }
    }

    /// What a month harvests: the yield of the items.
    pub open spec fn souls_per_tick(self) -> int {
        self.total_yield(YieldKind::Tick)
    }

    /// Whether the yield figures for `kind` can each be held in an `i64`:
    /// those of every item, and their sum.
    pub open spec fn yields_fit(self, kind: YieldKind) -> bool {
        &&& forall|k: int|
            0 <= k < self.items.len() ==> yield_fits(self.effects, #[trigger] self.items[k], kind)
        &&& fits_i64(self.total_yield(kind))
    }

    /// Whether what a click harvests can be worked out in `i64`.
    pub open spec fn click_fits(self) -> bool {
        self.cheat || (self.yields_fit(YieldKind::Click) && fits_i64(self.souls_per_click()))
    }

    // ---------------------------------------------------------------
    // Population
    // ---------------------------------------------------------------
    /// The base rate `kind`, in thousandths.
    pub open spec fn base_rate(self, kind: RateKind) -> int {
        match kind {
            RateKind::Birth => self.base_birth_rate,
            RateKind::Death => self.base_death_rate,
        }
    }

    /// The factor of the rate `kind`, in thousandths: one, and for each
    /// item its modifier times its quantity.
    pub open spec fn rate_factor(self, kind: RateKind) -> int {
        1000 + rate_sum(self.items, kind, self.items.len())
    }

    /// The effective rate `kind`, in thousandths and rounded down: the base
    /// rate times the factor.
    pub open spec fn effective_rate(self, kind: RateKind) -> int {
        (self.base_rate(kind) * self.rate_factor(kind)) / 1000
    }

    /// The births or deaths of one month, before any clamp:
    /// `alive / 1000 * rate / 365.25 * 31`, rounded up.
    pub open spec fn per_tick(self, kind: RateKind) -> int {
        monthly_flow(self.alive, self.base_rate(kind), self.rate_factor(kind))
    }

    /// Whether the figures of the rate `kind` can each be held in an `i64`:
    /// what each item adds to the factor, the factor, the effective rate
    /// and the monthly flow.
    pub open spec fn rates_fit(self, kind: RateKind) -> bool {
        &&& forall|k: int|
            0 <= k < self.items.len() ==> fits_i64(rate_term(#[trigger] self.items[k], kind))
        &&& fits_i64(self.rate_factor(kind))
        &&& fits_i64(self.effective_rate(kind))
        &&& fits_i64(self.per_tick(kind))
    }

    // ---------------------------------------------------------------
    // Harvest and remit
    // ---------------------------------------------------------------
    /// What a harvest of `amount` moves: no more than the population, the
    /// corpses or the amount, and nothing where that is negative.
    pub open spec fn harvested(self, amount: int) -> int {
        max(0, min(self.alive, min(self.due, amount)))
    }

    /// The state after a harvest of `amount`: what is harvested leaves the
    /// corpses and joins the balance.
    pub open spec fn harvest(self, amount: int) -> State {
        let h = self.harvested(amount);
        State { due: self.due - h, souls: self.souls + h, ..self }
    }

    /// What a remittance of `amount` moves: no more than the balance or
    /// the amount, and nothing where that is negative.
    pub open spec fn remitted(self, amount: int) -> int {
        max(0, min(self.souls, amount))
    }

    /// What has been given to the customer `kind`.
    pub open spec fn given(self, kind: CustomerKind) -> int {
        match kind {
            CustomerKind::Heaven => self.heaven,
            CustomerKind::Hell => self.hell,
        }
    }

    /// The state after a remittance of `amount` to `kind`: what is
    /// remitted leaves the balance and joins the customer's ledger.
    pub open spec fn remit(self, amount: int, kind: CustomerKind) -> State {
        let r = self.remitted(amount);
        match kind {
            CustomerKind::Heaven => State { souls: self.souls - r, heaven: self.heaven + r, ..self },
            CustomerKind::Hell => State { souls: self.souls - r, hell: self.hell + r, ..self },
        }
    }

    // ---------------------------------------------------------------
    // Reveal
    // ---------------------------------------------------------------
    /// The state with every item and upgrade revealed that the balance
    /// reveals.
    pub open spec fn unveil(self) -> State {
        State {
            items: Seq::new(self.items.len(), |k: int| reveal_item(self.items[k], self.souls)),
            upgrades: Seq::new(
                self.upgrades.len(),
                |k: int| reveal_upgrade(self.upgrades[k], self.souls),
            ),
            ..self
        }
    }

    // ---------------------------------------------------------------
    // Tick
    // ---------------------------------------------------------------
    /// The deaths that a month applies: the monthly deaths, no more than
    /// the population and not negative.
    pub open spec fn deaths_applied(self) -> int {
        clamp(self.per_tick(RateKind::Death), 0, max(0, self.alive))
    }

    /// The births that a month applies: the monthly births of the
    /// population as the month found it, not negative.
    pub open spec fn births_applied(self) -> int {
        max(0, self.per_tick(RateKind::Birth))
    }

    /// The state after the population has moved by one month.
    pub open spec fn age(self) -> State {
        let d = self.deaths_applied();
        let b = self.births_applied();
        State { due: self.due + d, alive: self.alive - d + b, month: self.month + 1, ..self }
    }

    /// The state after one month: nothing moves while an event is pending;
    /// else the population moves, the monthly yield is harvested, and the
    /// shop reveals what the balance reveals.
    pub open spec fn tick(self) -> State {
        if has_pending(self.events) {
            self
        } else {
            let aged = self.age();
            aged.harvest(aged.souls_per_tick()).unveil()
        }
    }

    /// Whether a month can be applied in `i64`.
    pub open spec fn tick_fits(self) -> bool {
        has_pending(self.events) || {
            &&& self.rates_fit(RateKind::Birth)
            &&& self.rates_fit(RateKind::Death)
            &&& self.yields_fit(YieldKind::Tick)
            &&& self.age().fits()
            &&& self.tick().fits()
        }
    }

    // ---------------------------------------------------------------
    // Purchases
    // ---------------------------------------------------------------
    /// Whether a unit of the item at position `p` can be bought: the
    /// balance covers its price, and a unique item is not owned yet.
    pub open spec fn can_buy(self, p: int) -> bool {
        &&& self.items[p].cost() <= self.souls
        &&& !(self.items[p].spec.unique && self.items[p].quantity >= 1)
    }

    /// The population after the multiplier of the item at position `p`.
    pub open spec fn grown(self, p: int) -> int {
        multiplied(self.items[p].spec, self.alive)
    }

    /// Those of the grown population that the kill ratio of the item at
    /// position `p` kills.
    pub open spec fn killed(self, p: int) -> int {
        decimated(self.items[p].spec, self.grown(p))
    }

    /// The state after one unit of the item at position `p` is bought: the
    /// price leaves the balance, the quantity grows by one, the population
    /// is multiplied and then decimated as the item says, and the event
    /// that the new quantity triggers becomes pending.
    pub open spec fn buy_one(self, p: int) -> State {
        let item = self.items[p];
        let quantity = item.quantity + 1;
        State {
            souls: self.souls - item.cost(),
            alive: self.grown(p) - self.killed(p),
            due: self.due + self.killed(p),
            items: self.items.update(p, ItemView { quantity, ..item }),
            events: match triggered_event(item.spec.id, quantity) {
                Some(spec) => put(self.events, Event { spec, consumed: false }),
                None => self.events,
            },
            ..self
        }
    }

    /// Whether one unit of the item at position `p` can be bought in
    /// `i64`.
    pub open spec fn buy_fits(self, p: int) -> bool {
        &&& fits_i64(self.items[p].cost())
        &&& fits_i64(self.items[p].quantity + 1)
        &&& fits_i64(self.grown(p))
        &&& self.buy_one(p).fits()
    }

    /// The state after up to `n` units of the item at position `p` are
    /// bought one by one, until one cannot be bought.
    pub open spec fn purchase(self, p: int, n: nat) -> State
        decreases n,
    {
        if n == 0 || !self.can_buy(p) {
            self
        } else {
            self.buy_one(p).purchase(p, (n - 1) as nat)
        }
    }

    /// Whether up to `n` units of the item at position `p` can be bought
    /// in `i64`, one by one.
    pub open spec fn purchase_fits(self, p: int, n: nat) -> bool
        decreases n,
    {
        n == 0 || !self.can_buy(p) || (self.buy_fits(p) && self.buy_one(p).purchase_fits(
            p,
            (n - 1) as nat,
        ))
    }

    // ---------------------------------------------------------------
    // Upgrades and events
    // ---------------------------------------------------------------
    /// The state after the upgrade `id` is bought: nothing changes where
    /// it is unknown or bought already; else it is bought, and each of its
    /// effects becomes active.
    pub open spec fn buy_upgrade(self, id: i64) -> State {
        match position_of(self.upgrades, id) {
            Some(p) => if self.upgrades[p].bought {
                self
            } else {
                State {
                    upgrades: self.upgrades.update(p, Upgrade { bought: true, ..self.upgrades[p] }),
                    effects: add_effects(
                        self.effects,
                        self.upgrades[p].spec.effects@,
                        self.upgrades[p].spec.effects@.len(),
                    ),
                    ..self
                }
            },
            None => self,
        }
    }

    /// Whether buying the upgrade `id` changes the state.
    pub open spec fn upgrade_applies(self, id: i64) -> bool {
        match position_of(self.upgrades, id) {
            Some(p) => !self.upgrades[p].bought,
            None => false,
        }
    }

    /// The state after the event `id` is consumed.
    pub open spec fn consume_event(self, id: i64) -> State {
        match position_of(self.events, id) {
            Some(p) => State {
                events: self.events.update(p, Event { consumed: true, ..self.events[p] }),
                ..self
            },
            None => self,
        }
    }

    // ---------------------------------------------------------------
    // Commands
    // ---------------------------------------------------------------
    /// The state after the command `msg`.
    pub open spec fn step(self, msg: Msg) -> State {
        match msg {
            Msg::Tick => self.tick(),
            Msg::Remit { quantity, target } => self.remit(quantity.0 as int, target),
            Msg::Harvest => self.harvest(self.souls_per_click()),
            Msg::Purchase { spec, quantity } => match position_of(self.items, spec) {
                Some(p) => self.purchase(p, bought(quantity)),
                None => self,
            },
            Msg::FocusTab { tab } => State { tab, ..self },
            Msg::FocusItemCategory { category } => State { item_category: category, ..self },
            Msg::ConsumeEvent { spec } => self.consume_event(spec),
            Msg::PurchaseUpgrade { spec } => self.buy_upgrade(spec),
        }
    }

    /// Whether the command `msg` calls for a new rendering: not a month
    /// that a pending event holds up, and not an upgrade that is unknown
    /// or bought already.
    pub open spec fn renders(self, msg: Msg) -> bool {
        match msg {
            Msg::Tick => !has_pending(self.events),
            Msg::PurchaseUpgrade { spec } => self.upgrade_applies(spec),
            _ => true,
        }
    }

    /// Whether the command `msg` can be applied in `i64`.
    pub open spec fn accepts(self, msg: Msg) -> bool {
        match msg {
            Msg::Tick => self.tick_fits(),
            Msg::Remit { quantity, target } => self.remit(quantity.0 as int, target).fits(),
            Msg::Harvest => self.click_fits() && self.harvest(self.souls_per_click()).fits(),
            Msg::Purchase { spec, quantity } => match position_of(self.items, spec) {
                Some(p) => self.purchase_fits(p, bought(quantity)),
                None => true,
            },
            _ => true,
        }
    }

    /// The state after the commands `msgs`, in order.
    pub open spec fn run(self, msgs: Seq<Msg>) -> State
        decreases msgs.len(),
    {
        if msgs.len() == 0 {
            self
        } else {
            self.run(msgs.drop_last()).step(msgs.last())
        }
    }
}

} // verus!
