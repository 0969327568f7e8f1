//! The simulation controller: it owns the state of a game and applies the
//! commands of the player and of the clock.

use vstd::prelude::*;
use crate::arith::ceil_div;
use crate::arith::ceil_div_wide;
use crate::arith::fits_i64;
use crate::arith::floor_div;
use crate::catalog::accountant;
use crate::catalog::accountant_spec;
use crate::catalog::armed_bailiffs;
use crate::catalog::bailiff;
use crate::catalog::bailiff_spec;
use crate::catalog::banker;
use crate::catalog::banker_spec;
use crate::catalog::collection_agency;
use crate::catalog::collection_agency_spec;
use crate::catalog::collection_multinational;
use crate::catalog::collection_multinational_spec;
use crate::catalog::intern;
use crate::catalog::intern_raise_1;
use crate::catalog::intern_spec;
use crate::catalog::is_armed_bailiffs;
use crate::catalog::is_intern_raise_1;
use crate::catalog::is_paid_interns;
use crate::catalog::killer_instinct;
use crate::catalog::killer_instinct_spec;
use crate::catalog::paid_interns;
use crate::catalog::plague_small;
use crate::catalog::plague_small_spec;
use crate::catalog::soul_fission;
use crate::catalog::soul_fission_spec;
use crate::catalog::survival_instinct;
use crate::catalog::survival_instinct_spec;
use crate::catalog::welcome;
use crate::catalog::welcome_spec;
use crate::events::Event;
use crate::events::EventSpec;
use crate::items::Item;
use crate::items::ItemCategory;
use crate::items::ItemSpec;
use crate::items::ItemView;
use crate::items::RateKind;
use crate::items::YieldKind;
use crate::permille::Permille;
use crate::registry::lemma_position_same_keys;
use crate::registry::lemma_put_new;
use crate::registry::position_of;
use crate::registry::put;
use crate::registry::Registry;
use crate::state::has_pending;
use crate::state::CHEAT_YIELD;
use crate::state::rate_sum;
use crate::state::rate_term;
use crate::state::yield_fits;
use crate::state::yield_sum;
use crate::state::State;
use crate::units::Souls;
use crate::upgrades::EffectList;
use crate::upgrades::Upgrade;
use crate::upgrades::UpgradeSpec;

verus! {

/// One of the two customers to whom souls are remitted.
#[derive(Clone, Copy, Debug, PartialEq, Eq, Structural)]
pub enum CustomerKind {
    Heaven,
    Hell,
}

/// A customer and what it has been given so far.
#[derive(Clone, Copy, Debug)]
pub struct Customer {
    pub kind: CustomerKind,
    pub name: &'static str,
    pub sign: &'static str,
    /// Souls remitted to the customer; it never falls.
    pub given: Souls,
}

/// The tab of the screen that is shown.
#[derive(Clone, Copy, Debug, PartialEq, Eq, Structural)]
pub enum Tab {
    Shop,
    Earth,
    Heaven,
    Hell,
}

/// A command to the controller.
#[allow(inconsistent_fields)]
#[derive(Clone, Copy, Debug)]
pub enum Msg {
    /// One month passes.
    Tick,
    /// Souls leave the balance for a customer.
    Remit { quantity: Souls, target: CustomerKind },
    /// One click of harvest.
    Harvest,
    /// Buy up to `quantity` units of the item with the identity `spec`.
    Purchase { spec: i64, quantity: i64 },
    FocusTab { tab: Tab },
    FocusItemCategory { category: ItemCategory },
    /// Acknowledge the event with the identity `spec`.
    ConsumeEvent { spec: i64 },
    /// Buy the upgrade with the identity `spec`.
    PurchaseUpgrade { spec: i64 },
}

/// An item of which none is owned yet.
pub open spec fn initial_item(spec: ItemSpec) -> ItemView {
    ItemView { spec, quantity: 0, revealed: false }
}

/// The items with which a game starts, none of them owned.
pub open spec fn initial_items() -> Seq<ItemView> {
    seq![
        initial_item(intern_spec()),
        initial_item(bailiff_spec()),
        initial_item(banker_spec()),
        initial_item(accountant_spec()),
        initial_item(collection_agency_spec()),
        initial_item(collection_multinational_spec()),
        initial_item(survival_instinct_spec()),
        initial_item(killer_instinct_spec()),
        initial_item(soul_fission_spec()),
        initial_item(plague_small_spec()),
    ]
}

/// The figures of a population rate.
#[derive(Clone, Copy, Debug)]
pub struct Rates {
    /// The factor that the items give to the base rate.
    pub factor: Permille,
    /// The base rate times the factor, rounded down.
    pub effective: Permille,
    /// The births or deaths of one month.
    pub per_tick: Souls,
}

/// The state of a game and the collections that hold it.
pub struct Model {
    pub alive: Souls,
    pub due: Souls,
    pub souls: Souls,
    pub base_birth_rate: Permille,
    pub base_death_rate: Permille,
    pub goodness: Permille,
    pub month: i64,
    pub heaven: Customer,
    pub hell: Customer,
    pub items: Registry<Item>,
    pub effects: Registry<EffectList>,
    pub upgrades: Registry<Upgrade>,
    pub events: Registry<Event>,
    pub tab: Tab,
    pub item_category: ItemCategory,
    pub cheat: bool,
}

impl View for Model {
    type V = State;

    open spec fn view(&self) -> State {
        State {
            alive: self.alive.0 as int,
            due: self.due.0 as int,
            souls: self.souls.0 as int,
            base_birth_rate: self.base_birth_rate.0 as int,
            base_death_rate: self.base_death_rate.0 as int,
            goodness: self.goodness.0 as int,
            month: self.month as int,
            heaven: self.heaven.given.0 as int,
            hell: self.hell.given.0 as int,
            items: self.items@.map_values(|i: Item| i@),
            effects: self.effects@.map_values(|e: EffectList| e@),
            upgrades: self.upgrades@,
            events: self.events@,
            tab: self.tab,
            item_category: self.item_category,
            cheat: self.cheat,
        }
    }
}

impl Model {
    /// The collections are well formed and no quantity is negative.
    pub open spec fn wf(&self) -> bool {
        &&& self.items.wf()
        &&& self.effects.wf()
        &&& self.upgrades.wf()
        &&& self.events.wf()
        &&& forall|k: int| 0 <= k < self.items@.len() ==> (#[trigger] self.items@[k]).quantity >= 0
    }

    /// The positions of the items and of the effect buckets are those of
    /// their views.
    pub proof fn lemma_positions(&self, id: i64)
        requires
            self.wf(),
        ensures
            position_of(self@.items, id) == position_of(self.items@, id),
            position_of(self@.effects, id) == position_of(self.effects@, id),
    {
        self.items.lemma_distinct();
        self.effects.lemma_distinct();
        lemma_position_same_keys(self.items@, self@.items, id);
        lemma_position_same_keys(self.effects@, self@.effects, id);
    }

    /// A game without items, upgrades or events, with the figures given.
    pub fn new(alive: Souls, base_birth_rate: Permille, base_death_rate: Permille, cheat: bool) -> (m:
        Model)
        ensures
            m.wf(),
            m@ == (State {
                alive: alive.0 as int,
                due: 0,
                souls: 0,
                base_birth_rate: base_birth_rate.0 as int,
                base_death_rate: base_death_rate.0 as int,
                goodness: 1000,
                month: 0,
                heaven: 0,
                hell: 0,
                items: Seq::empty(),
                effects: Seq::empty(),
                upgrades: Seq::empty(),
                events: Seq::empty(),
                tab: Tab::Shop,
                item_category: ItemCategory::Harvest,
                cheat,
            }),
    {
        let m = Model {
            alive,
            due: Souls(0),
            souls: Souls(0),
            base_birth_rate,
            base_death_rate,
            goodness: Permille(1000),
            month: 0,
            heaven: Customer { kind: CustomerKind::Heaven, name: "Heaven", sign: "\u{271d}\u{fe0f}", given: Souls(0) },
            hell: Customer { kind: CustomerKind::Hell, name: "Hell", sign: "\u{26e7}\u{fe0f}", given: Souls(0) },
            items: Registry::new(),
            effects: Registry::new(),
            upgrades: Registry::new(),
            events: Registry::new(),
            tab: Tab::Shop,
            item_category: ItemCategory::Harvest,
            cheat,
        };
        assert(m@.items =~= Seq::empty());
        assert(m@.effects =~= Seq::empty());
        m
    }

    /// The game as it starts: a population of 800,000 with 6 births and 4
    /// deaths per year and thousand, ten items of the catalog with none
    /// owned, its three upgrades, and the welcome pending.
    pub fn create(cheat: bool) -> (m: Model)
        ensures
            m.wf(),
            m@ == (State {
                alive: 800_000,
                due: 0,
                souls: 0,
                base_birth_rate: 6_000,
                base_death_rate: 4_000,
                goodness: 1_000,
                month: 0,
                heaven: 0,
                hell: 0,
                items: initial_items(),
                effects: Seq::empty(),
                upgrades: m@.upgrades,
                events: seq![Event { spec: welcome_spec(), consumed: false }],
                tab: Tab::Shop,
                item_category: ItemCategory::Harvest,
                cheat,
            }),
            m@.upgrades.len() == 3,
            is_paid_interns(m@.upgrades[0].spec),
            is_intern_raise_1(m@.upgrades[1].spec),
            is_armed_bailiffs(m@.upgrades[2].spec),
            forall|k: int|
                0 <= k < 3 ==> !(#[trigger] m@.upgrades[k]).revealed && !m@.upgrades[k].bought,
    {
        let mut m = Model::new(Souls(800 * Souls::K), Permille(6_000), Permille(4_000), cheat);
        proof {
            lemma_put_new(m@.items, initial_item(intern_spec()));
        }
        m.add_item(intern(), 0);
        proof {
            lemma_put_new(m@.items, initial_item(bailiff_spec()));
        }
        m.add_item(bailiff(), 0);
        proof {
            lemma_put_new(m@.items, initial_item(banker_spec()));
        }
        m.add_item(banker(), 0);
        proof {
            lemma_put_new(m@.items, initial_item(accountant_spec()));
        }
        m.add_item(accountant(), 0);
        proof {
            lemma_put_new(m@.items, initial_item(collection_agency_spec()));
        }
        m.add_item(collection_agency(), 0);
        proof {
            lemma_put_new(m@.items, initial_item(collection_multinational_spec()));
        }
        m.add_item(collection_multinational(), 0);
        proof {
            lemma_put_new(m@.items, initial_item(survival_instinct_spec()));
        }
        m.add_item(survival_instinct(), 0);
        proof {
            lemma_put_new(m@.items, initial_item(killer_instinct_spec()));
        }
        m.add_item(killer_instinct(), 0);
        proof {
            lemma_put_new(m@.items, initial_item(soul_fission_spec()));
        }
        m.add_item(soul_fission(), 0);
        proof {
            lemma_put_new(m@.items, initial_item(plague_small_spec()));
        }
        m.add_item(plague_small(), 0);
        assert(m@.items =~= initial_items());

        let first = paid_interns();
        proof {
            lemma_put_new(m@.upgrades, Upgrade { spec: first, revealed: false, bought: false });
        }
        m.add_upgrade(first);
        let second = intern_raise_1();
        proof {
            lemma_put_new(m@.upgrades, Upgrade { spec: second, revealed: false, bought: false });
        }
        m.add_upgrade(second);
        let third = armed_bailiffs();
        proof {
            lemma_put_new(m@.upgrades, Upgrade { spec: third, revealed: false, bought: false });
        }
        m.add_upgrade(third);

        proof {
            lemma_put_new(m@.events, Event { spec: welcome_spec(), consumed: false });
        }
        m.add_event(welcome());
        assert(m@.events =~= seq![Event { spec: welcome_spec(), consumed: false }]);
        m
    }

    /// Files `quantity` units of `spec` among the items, in the place of
    /// the item with the same identity or last.
    pub fn add_item(&mut self, spec: ItemSpec, quantity: i64)
        requires
            old(self).wf(),
            quantity >= 0,
        ensures
            final(self).wf(),
            final(self)@ == (State {
                items: put(
                    old(self)@.items,
                    (Item { spec, quantity, revealed: quantity > 0 })@,
                ),
                ..old(self)@
            }),
    {
        let item = spec.instantiate(quantity);
        proof {
            self.lemma_positions(spec.id);
        }
        self.items.insert(item);
        proof {
            assert(self@.items =~= put(old(self)@.items, item@));
            assert forall|k: int| 0 <= k < self.items@.len() implies (#[trigger] self.items@[k]).quantity
                >= 0 by {
                if self.items@[k] != item {
                    match position_of(old(self).items@, spec.id) {
                        Some(p) => {
                            assert(self.items@[k] == old(self).items@[k]);
                        },
                        None => {
                            assert(self.items@[k] == old(self).items@[k]);
                        },
                    }
                }
            }
        }
    }

    /// Files `spec` among the upgrades, neither revealed nor bought, in
    /// the place of the upgrade with the same identity or last.
    pub fn add_upgrade(&mut self, spec: UpgradeSpec)
        requires
            old(self).wf(),
        ensures
            final(self).wf(),
            final(self)@ == (State {
                upgrades: put(
                    old(self)@.upgrades,
                    Upgrade { spec, revealed: false, bought: false },
                ),
                ..old(self)@
            }),
    {
        let upgrade = spec.instantiate();
        self.upgrades.insert(upgrade);
    }

    /// Makes the event `spec` pending, in the place of the event with the
    /// same identity or last.
    pub fn add_event(&mut self, spec: EventSpec)
        requires
            old(self).wf(),
        ensures
            final(self).wf(),
            final(self)@ == (State {
                events: put(old(self)@.events, Event { spec, consumed: false }),
                ..old(self)@
            }),
    {
        let event = spec.instantiate();
        self.events.insert(event);
    }

    /// The customer `kind`.
    pub fn customer(&self, kind: CustomerKind) -> (c: &Customer)
        ensures
            *c == (match kind {
                CustomerKind::Heaven => self.heaven,
                CustomerKind::Hell => self.hell,
            }),
    {
        match kind {
            CustomerKind::Heaven => &self.heaven,
            CustomerKind::Hell => &self.hell,
        }
    }

    /// The customer `kind`, to be changed in place.
    pub fn customer_mut(&mut self, kind: CustomerKind) -> (c: &mut Customer)
        ensures
            *c == (match kind {
                CustomerKind::Heaven => old(self).heaven,
                CustomerKind::Hell => old(self).hell,
            }),
            *final(self) == (match kind {
                CustomerKind::Heaven => Model { heaven: *final(c), ..*old(self) },
                CustomerKind::Hell => Model { hell: *final(c), ..*old(self) },
            }),
    {
        match kind {
            CustomerKind::Heaven => &mut self.heaven,
            CustomerKind::Hell => &mut self.hell,
        }
    }

    /// The quantity owned of the item `id`: none where it is unknown.
    pub fn item_quantity(&self, id: i64) -> (q: i64)
        requires
            self.wf(),
        ensures
            q == (match position_of(self@.items, id) {
                Some(p) => self@.items[p].quantity,
                None => 0,
            }),
    {
        proof {
            self.lemma_positions(id);
        }
        match self.items.position(id) {
            Some(p) => self.items.get(p).quantity,
            None => 0,
        }
    }

    /// Whether an event is pending.
    pub fn has_active_events(&self) -> (pending: bool)
        ensures
            pending == has_pending(self@.events),
    {
        let n = self.events.len();
        let mut k: usize = 0;
        while k < n
            invariant
                k <= n,
                n == self.events@.len(),
                forall|i: int| 0 <= i < k ==> (#[trigger] self.events@[i]).consumed,
            decreases n - k,
        {
            if !self.events.get(k).consumed {
                return true;
            }
            k = k + 1;
        }
        false
    }

    // ---------------------------------------------------------------
    // Yields
    // ---------------------------------------------------------------
    /// What all items yield together for `kind`, or `None` where a yield
    /// figure cannot be held in an `i64`.
    pub fn checked_yield(&self, kind: YieldKind) -> (r: Option<Souls>)
        requires
            self.wf(),
        ensures
            match r {
                Some(y) => self@.yields_fit(kind) && y.0 == self@.total_yield(kind),
                None => !self@.yields_fit(kind),
            },
    {
        let n = self.items.len();
        let mut total: i128 = 0;
        let mut k: usize = 0;
        while k < n
            invariant
                self.wf(),
                k <= n,
                n == self.items@.len(),
                n == self@.items.len(),
                total == yield_sum(self@.effects, self@.items, kind, k as nat),
                -(k * 0x8000_0000_0000_0000) <= total <= k * 0x8000_0000_0000_0000,
                forall|i: int| 0 <= i < k ==> yield_fits(self@.effects, #[trigger] self@.items[i], kind),
            decreases n - k,
        {
            let item = *self.items.get(k);
            assert(self@.items[k as int] == item@);
            let base = match kind {
                YieldKind::Click => item.spec.spc,
                YieldKind::Tick => item.spec.spt,
            };
            if base.is_some() {
                match item.spec.effective(self, kind) {
                    Some(stats) => {
                        assert(-0x4000_0000_0000_0000_0000_0000_0000_0000 <= stats.effective.0
                            * item.quantity <= 0x4000_0000_0000_0000_0000_0000_0000_0000)
                            by (nonlinear_arith)
                            requires
                                -0x8000_0000_0000_0000 <= stats.effective.0 <= 0x7fff_ffff_ffff_ffff,
                                -0x8000_0000_0000_0000 <= item.quantity <= 0x7fff_ffff_ffff_ffff,
                        ;
                        let all: i128 = (stats.effective.0 as i128) * (item.quantity as i128);
                        if all < i64::MIN as i128 || all > i64::MAX as i128 {
                            assert(!yield_fits(self@.effects, self@.items[k as int], kind));
                            return None;
                        }
                        total = total + all;
                    },
                    None => {
                        assert(!yield_fits(self@.effects, self@.items[k as int], kind));
                        return None;
                    },
                }
            }
            k = k + 1;
        }
        if total < i64::MIN as i128 || total > i64::MAX as i128 {
            return None;
        }
        Some(Souls(total as i64))
    }

    /// What a month harvests: the yield per month of all items.
    pub fn souls_per_tick(&self) -> (y: Souls)
        requires
            self.wf(),
            self@.yields_fit(YieldKind::Tick),
        ensures
            y.0 == self@.souls_per_tick(),
    {
        match self.checked_yield(YieldKind::Tick) {
            Some(y) => y,
            None => vstd::pervasive::unreached(),
        }
    }

    /// What a click harvests, or `None` where a yield figure cannot be
    /// held in an `i64`.
    pub fn checked_souls_per_click(&self) -> (r: Option<Souls>)
        requires
            self.wf(),
        ensures
            match r {
                Some(y) => self@.click_fits() && y.0 == self@.souls_per_click(),
                None => !self@.click_fits(),
            },
    {
        if self.cheat {
            return Some(Souls(CHEAT_YIELD));
        }
        match self.checked_yield(YieldKind::Click) {
            Some(y) => {
                if y.0 == i64::MAX {
                    None
                } else {
                    Some(Souls(y.0 + 1))
                }
            },
            None => None,
        }
    }

    /// What a click harvests: one soul and the yield per click of all
    /// items, or a billion while cheating is on.
    pub fn souls_per_click(&self) -> (y: Souls)
        requires
            self.wf(),
            self@.click_fits(),
        ensures
            y.0 == self@.souls_per_click(),
    {
        match self.checked_souls_per_click() {
            Some(y) => y,
            None => vstd::pervasive::unreached(),
        }
    }

    // ---------------------------------------------------------------
    // Population
    // ---------------------------------------------------------------
    /// The figures of the rate `kind`, or `None` where one of them cannot
    /// be held in an `i64`.
    pub fn checked_rates(&self, kind: RateKind) -> (r: Option<Rates>)
        requires
            self.wf(),
        ensures
            match r {
                Some(rates) => {
                    &&& self@.rates_fit(kind)
                    &&& rates.factor.0 == self@.rate_factor(kind)
                    &&& rates.effective.0 == self@.effective_rate(kind)
                    &&& rates.per_tick.0 == self@.per_tick(kind)
                },
                None => !self@.rates_fit(kind),
            },
    {
        let n = self.items.len();
        let mut sum: i128 = 0;
        let mut k: usize = 0;
        while k < n
            invariant
                self.wf(),
                k <= n,
                n == self.items@.len(),
                n == self@.items.len(),
                sum == rate_sum(self@.items, kind, k as nat),
                -(k * 0x8000_0000_0000_0000) <= sum <= k * 0x8000_0000_0000_0000,
                forall|i: int| 0 <= i < k ==> fits_i64(rate_term(#[trigger] self@.items[i], kind)),
            decreases n - k,
        {
            let item = *self.items.get(k);
            assert(self@.items[k as int] == item@);
            let modifier = match kind {
                RateKind::Birth => item.spec.br_mod,
                RateKind::Death => item.spec.dr_mod,
            };
            match modifier {
                Some(m) => {
                    assert(-0x4000_0000_0000_0000_0000_0000_0000_0000 <= m.0 * item.quantity
                        <= 0x4000_0000_0000_0000_0000_0000_0000_0000) by (nonlinear_arith)
                        requires
                            -0x8000_0000_0000_0000 <= m.0 <= 0x7fff_ffff_ffff_ffff,
                            -0x8000_0000_0000_0000 <= item.quantity <= 0x7fff_ffff_ffff_ffff,
                    ;
                    let term: i128 = (m.0 as i128) * (item.quantity as i128);
                    if term < i64::MIN as i128 || term > i64::MAX as i128 {
                        assert(!fits_i64(rate_term(self@.items[k as int], kind)));
                        return None;
                    }
                    sum = sum + term;
                },
                None => {},
            }
            k = k + 1;
        }
        let factor: i128 = 1000 + sum;
        if factor < i64::MIN as i128 || factor > i64::MAX as i128 {
            return None;
        }
        let base: i64 = match kind {
            RateKind::Birth => self.base_birth_rate.0,
            RateKind::Death => self.base_death_rate.0,
        };
        assert(-0x4000_0000_0000_0000_0000_0000_0000_0000 <= base * factor
            <= 0x4000_0000_0000_0000_0000_0000_0000_0000) by (nonlinear_arith)
            requires
                -0x8000_0000_0000_0000 <= base <= 0x7fff_ffff_ffff_ffff,
                -0x8000_0000_0000_0000 <= factor <= 0x7fff_ffff_ffff_ffff,
        ;
        let product: i128 = (base as i128) * factor;
        let effective = floor_div(product, 1000);
        if effective < i64::MIN as i128 || effective > i64::MAX as i128 {
            return None;
        }
        match monthly(self.alive.0, product) {
            Some(flow) => Some(
                Rates {
                    factor: Permille(factor as i64),
                    effective: Permille(effective as i64),
                    per_tick: Souls(flow),
                },
            ),
            None => None,
        }
    }

    /// The factor that the items give to the base rate `kind`: one, and
    /// for each item its modifier times its quantity.
    pub fn sum_factor(&self, kind: RateKind) -> (f: Permille)
        requires
            self.wf(),
            self@.rates_fit(kind),
        ensures
            f.0 == self@.rate_factor(kind),
    {
        match self.checked_rates(kind) {
            Some(rates) => rates.factor,
            None => vstd::pervasive::unreached(),
        }
    }

    /// Births per year and thousand of population, with the factor of the
    /// items.
    pub fn effective_birth_rate(&self) -> (r: Permille)
        requires
            self.wf(),
            self@.rates_fit(RateKind::Birth),
        ensures
            r.0 == self@.effective_rate(RateKind::Birth),
    {
        match self.checked_rates(RateKind::Birth) {
            Some(rates) => rates.effective,
            None => vstd::pervasive::unreached(),
        }
    }

    /// Deaths per year and thousand of population, with the factor of the
    /// items.
    pub fn effective_death_rate(&self) -> (r: Permille)
        requires
            self.wf(),
            self@.rates_fit(RateKind::Death),
        ensures
            r.0 == self@.effective_rate(RateKind::Death),
    {
        match self.checked_rates(RateKind::Death) {
            Some(rates) => rates.effective,
            None => vstd::pervasive::unreached(),
        }
    }

    /// The births of one month.
    pub fn births_per_tick(&self) -> (b: Souls)
        requires
            self.wf(),
            self@.rates_fit(RateKind::Birth),
        ensures
            b.0 == self@.per_tick(RateKind::Birth),
    {
        match self.checked_rates(RateKind::Birth) {
            Some(rates) => rates.per_tick,
            None => vstd::pervasive::unreached(),
        }
    }

    /// The deaths of one month.
    pub fn deaths_per_tick(&self) -> (d: Souls)
        requires
            self.wf(),
            self@.rates_fit(RateKind::Death),
        ensures
            d.0 == self@.per_tick(RateKind::Death),
    {
        match self.checked_rates(RateKind::Death) {
            Some(rates) => rates.per_tick,
            None => vstd::pervasive::unreached(),
        }
    }
}

/// The monthly flow of a population `alive` under a rate of `product`
/// millionths, or `None` where it cannot be held in an `i64`.
fn monthly(alive: i64, product: i128) -> (r: Option<i64>)
    requires
        fits_i64(product / 1000),
    ensures
        match r {
            Some(flow) => flow == ceil_div(alive * product * 124, 1_461_000_000_000),
            None => !fits_i64(ceil_div(alive * product * 124, 1_461_000_000_000)),
        },
{
    let d: i128 = 1_461_000_000_000;
    proof {
        vstd::arithmetic::div_mod::lemma_fundamental_div_mod(product as int, 1000);
        vstd::arithmetic::div_mod::lemma_mod_bound(product as int, 1000);
    }
    let x: i128 = product * 124;
    let xq = floor_div(x, d);
    proof {
        vstd::arithmetic::div_mod::lemma_fundamental_div_mod(x as int, d as int);
        vstd::arithmetic::div_mod::lemma_mod_bound(x as int, d as int);
    }
    let xr: i128 = x - xq * d;
    assert(-0x4000_0000_0000_0000_0000_0000_0000_0000 <= alive * xq
        <= 0x4000_0000_0000_0000_0000_0000_0000_0000) by (nonlinear_arith)
        requires
            -0x8000_0000_0000_0000 <= alive <= 0x7fff_ffff_ffff_ffff,
            -0x100_0000_0000 <= xq <= 0x100_0000_0000,
    ;
    assert(-0x4000_0000_0000_0000_0000_0000_0000_0000 <= alive * xr
        <= 0x4000_0000_0000_0000_0000_0000_0000_0000) by (nonlinear_arith)
        requires
            -0x8000_0000_0000_0000 <= alive <= 0x7fff_ffff_ffff_ffff,
            0 <= xr <= 0x200_0000_0000,
    ;
    let whole: i128 = (alive as i128) * xq;
    let part: i128 = ceil_div_wide((alive as i128) * xr, d);
    proof {
        let n = alive * product * 124;
        assert(-n == (-(alive * xr)) + (-(alive * xq)) * d) by (nonlinear_arith)
            requires
                n == alive * product * 124,
                x == product * 124,
                xr == x - xq * d,
        ;
        vstd::arithmetic::div_mod::lemma_hoist_over_denominator(-(alive * xr), -(alive * xq), d as nat);
    }
    let flow: i128 = whole + part;
    if flow < i64::MIN as i128 || flow > i64::MAX as i128 {
        None
    } else {
        Some(flow as i64)
    }
}

} // verus!
