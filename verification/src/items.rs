//! Purchasable items: what the catalog says of one, and how many of it the
//! player owns.

use vstd::prelude::*;
use vstd::std_specs::cmp::PartialEqSpecImpl;
use crate::arith::fits_i64;
use crate::arith::floor_div;
use crate::growth::bulk;
use crate::growth::compound;
use crate::growth::compound_cost;
use crate::model::Model;
use crate::permille::Permille;
use crate::registry::Key;
use crate::registry::Keyed;
use crate::state::bonus;
use crate::state::effects_on;
use crate::state::modifier_sum;
use crate::state::unit_yield;
use crate::units::Souls;

verus! {

/// The shelf of the shop on which an item stands.
#[derive(Debug, PartialEq, Eq, Structural, Clone, Copy)]
pub enum ItemCategory {
    Harvest,
    Finance,
    Initiatives,
    Events,
    Upgrades,
}

/// Which of the two yields of an item is meant.
#[derive(Debug, PartialEq, Eq, Structural, Clone, Copy)]
pub enum YieldKind {
    /// Souls harvested by one click.
    Click,
    /// Souls harvested by one month.
    Tick,
}

/// Which of the two population rates is meant.
#[derive(Debug, PartialEq, Eq, Structural, Clone, Copy)]
pub enum RateKind {
    Birth,
    Death,
}

/// What the catalog says of an item. Two specifications are the same item
/// when their identities are equal.
#[derive(Clone, Copy, Debug)]
pub struct ItemSpec {
    pub id: i64,
    pub category: ItemCategory,
    pub name: &'static str,
    pub desc: &'static str,
    /// Price of the first unit.
    pub cost: Souls,
    /// Souls that one unit harvests per click.
    pub spc: Option<Souls>,
    /// Souls that one unit harvests per month.
    pub spt: Option<Souls>,
    /// What one unit adds to the birth-rate factor.
    pub br_mod: Option<Permille>,
    /// What one unit adds to the death-rate factor.
    pub dr_mod: Option<Permille>,
    pub remit_mod: Option<Permille>,
    pub interest: Option<Permille>,
    pub min_hell_favor: Option<Souls>,
    pub min_heaven_favor: Option<Souls>,
    /// Whether at most one unit can be owned.
    pub unique: bool,
    /// Factor applied to the population when a unit is bought.
    pub pop_multiplier: Option<Permille>,
    /// Share of the population that dies when a unit is bought.
    pub pop_kill_ratio: Option<Permille>,
}

/// The yields of one unit of an item: as the catalog has it, and with the
/// bonus of the upgrades bought.
#[derive(Clone, Copy, Debug)]
pub struct Stats {
    pub base: Souls,
    pub effective: Souls,
    pub bonus: Permille,
}

/// An item as the player holds it.
#[derive(Clone, Copy, Debug)]
pub struct Item {
    pub spec: ItemSpec,
    pub quantity: i64,
    pub revealed: bool,
}

/// An item as the rules see it, with an unbounded quantity.
#[verifier::ext_equal]
pub struct ItemView {
    pub spec: ItemSpec,
    pub quantity: int,
    pub revealed: bool,
}

impl View for Item {
    type V = ItemView;

    open spec fn view(&self) -> ItemView {
        ItemView { spec: self.spec, quantity: self.quantity as int, revealed: self.revealed }
    }
}

impl Key for ItemView {
    open spec fn key(&self) -> i64 {
        self.spec.id
    }
}

impl Key for Item {
    open spec fn key(&self) -> i64 {
        self.spec.id
    }
}

impl Keyed for Item {
    fn id(&self) -> (k: i64) {
        self.spec.id
    }
}

impl PartialEq for ItemSpec {
    fn eq(&self, rhs: &Self) -> (r: bool) {
        self.id == rhs.id
    }
}

impl PartialEqSpecImpl for ItemSpec {
    open spec fn obeys_eq_spec() -> bool {
        true
    }

    open spec fn eq_spec(&self, rhs: &Self) -> bool {
        self.id == rhs.id
    }
}

impl Eq for ItemSpec {

}

impl Stats {
    /// What `quantity` units yield together.
    pub fn multiply(&self, quantity: i64) -> (r: Souls)
        requires
            fits_i64(self.effective.0 * quantity),
        ensures
            r.0 == self.effective.0 * quantity,
    {
        Souls(self.effective.0 * quantity)
    }
}

impl ItemSpec {
    /// The item without a name that costs one soul and does nothing, with
    /// the identity `id`.
    pub open spec fn blank(id: i64) -> ItemSpec {
        ItemSpec {
            id,
            category: ItemCategory::Harvest,
            name: "<missing>",
            desc: "",
            cost: Souls(1),
            spc: None,
            spt: None,
            br_mod: None,
            dr_mod: None,
            remit_mod: None,
            interest: None,
            min_hell_favor: None,
            min_heaven_favor: None,
            unique: false,
            pop_multiplier: None,
            pop_kill_ratio: None,
        }
    }

    /// The item without a name that costs one soul and does nothing, with
    /// the identity `id`.
    pub fn new(id: i64) -> (s: ItemSpec)
        ensures
            s == ItemSpec::blank(id),
    {
        ItemSpec {
            id,
            category: ItemCategory::Harvest,
            name: "<missing>",
            desc: "",
            cost: Souls(1),
            spc: None,
            spt: None,
            br_mod: None,
            dr_mod: None,
            remit_mod: None,
            interest: None,
            min_hell_favor: None,
            min_heaven_favor: None,
            unique: false,
            pop_multiplier: None,
            pop_kill_ratio: None,
        }
    }

    /// The yield of one unit that the catalog gives for `kind`.
    pub open spec fn base_yield(self, kind: YieldKind) -> Option<Souls> {
        match kind {
            YieldKind::Click => self.spc,
            YieldKind::Tick => self.spt,
        }
    }

    /// What one unit adds to the factor of the rate `kind`.
    pub open spec fn rate_modifier(self, kind: RateKind) -> Option<Permille> {
        match kind {
            RateKind::Birth => self.br_mod,
            RateKind::Death => self.dr_mod,
        }
    }

    /// The price of the unit bought when `i` units are owned:
    /// the floor of `cost * 1.12^i`.
    pub open spec fn unit_cost(self, i: nat) -> int {
        compound(self.cost.0 as int, i)
    }

    /// The player's holding of `quantity` units, revealed when there is any.
    pub fn instantiate(&self, quantity: i64) -> (item: Item)
        ensures
            item == (Item { spec: *self, quantity, revealed: quantity > 0 }),
    {
        Item { spec: *self, quantity, revealed: quantity > 0 }
    }

    /// The price of the unit bought when `i` units are owned, or `None`
    /// when it cannot be held in an `i64`.
    pub fn checked_ith_cost(&self, i: i64) -> (r: Option<Souls>)
        requires
            i >= 0,
        ensures
            match r {
                Some(c) => c.0 == self.unit_cost(i as nat),
                None => !fits_i64(self.unit_cost(i as nat)),
            },
    {
        match compound_cost(self.cost.0, i) {
            Some(c) => Some(Souls(c)),
            None => None,
        }
    }

    /// The price of the unit bought when `i` units are owned.
    pub fn ith_cost(&self, i: i64) -> (c: Souls)
        requires
            i >= 0,
            fits_i64(self.unit_cost(i as nat)),
        ensures
            c.0 == self.unit_cost(i as nat),
    {
        match compound_cost(self.cost.0, i) {
            Some(c) => Souls(c),
            None => vstd::pervasive::unreached(),
        }
    }
}

impl ItemSpec {
    /// The bonus factor, in thousandths, that the effects active in
    /// `model` give to the yield `kind` of this item.
    pub fn bonus(&self, model: &Model, kind: YieldKind) -> (b: i128)
        requires
            model.wf(),
        ensures
            b == bonus(effects_on(model@.effects, self.id), kind),
    {
        proof {
            model.lemma_positions(self.id);
        }
        let mut total: i128 = 1000;
        match model.effects.position(self.id) {
            Some(p) => {
                let list = model.effects.get(p);
                let n = list.effects.len();
                let mut j: usize = 0;
                while j < n
                    invariant
                        j <= n,
                        n == list.effects@.len(),
                        total == 1000 + modifier_sum(list.effects@, kind, j as nat),
                        -(j * 0x8000_0000_0000_0000) <= total - 1000 <= j * 0x8000_0000_0000_0000,
                    decreases n - j,
                {
                    let effect = list.effects[j];
                    let m: i64 = match kind {
                        YieldKind::Click => match effect.spc_mod {
                            Some(m) => m.0,
                            None => 0,
                        },
                        YieldKind::Tick => match effect.spt_mod {
                            Some(m) => m.0,
                            None => 0,
                        },
                    };
                    total = total + m as i128;
                    j = j + 1;
                }
            },
            None => {},
        }
        total
    }

    /// Whether the yield figures of one unit for `kind` can each be held
    /// in an `i64`: the bonus factor and the yield with the bonus.
    pub open spec fn stats_fit(&self, model: &Model, kind: YieldKind) -> bool {
        match self.base_yield(kind) {
            Some(base) => {
                let b = bonus(effects_on(model@.effects, self.id), kind);
                fits_i64(b) && fits_i64(unit_yield(base.0 as int, b))
            },
            None => true,
        }
    }

    /// The yield figures of one unit for `kind`, as `stats` has them.
    pub open spec fn has_stats(&self, model: &Model, kind: YieldKind, stats: Stats) -> bool {
        let b = bonus(effects_on(model@.effects, self.id), kind);
        &&& self.base_yield(kind) == Some(stats.base)
        &&& stats.bonus.0 == b
        &&& stats.effective.0 == unit_yield(stats.base.0 as int, b)
    }

    /// The yield figures of one unit for `kind`: the base yield, the bonus
    /// factor of the active effects, and the base yield times that factor,
    /// rounded down. `None` where the item has no such yield, or where a
    /// figure cannot be held in an `i64`.
    pub fn effective(&self, model: &Model, kind: YieldKind) -> (r: Option<Stats>)
        requires
            model.wf(),
        ensures
            match r {
                Some(stats) => self.has_stats(model, kind, stats),
                None => self.base_yield(kind) is None || !self.stats_fit(model, kind),
            },
    {
        let base = match kind {
            YieldKind::Click => self.spc,
            YieldKind::Tick => self.spt,
        };
        match base {
            Some(base) => {
                let b = self.bonus(model, kind);
                if b < i64::MIN as i128 || b > i64::MAX as i128 {
                    return None;
                }
                assert(-0x4000_0000_0000_0000_0000_0000_0000_0000 <= base.0 * b
                    <= 0x4000_0000_0000_0000_0000_0000_0000_0000) by (nonlinear_arith)
                    requires
                        -0x8000_0000_0000_0000 <= base.0 <= 0x7fff_ffff_ffff_ffff,
                        -0x8000_0000_0000_0000 <= b <= 0x7fff_ffff_ffff_ffff,
                ;
                let e = floor_div((base.0 as i128) * b, 1000);
                if e < i64::MIN as i128 || e > i64::MAX as i128 {
                    return None;
                }
                Some(Stats { base, effective: Souls(e as i64), bonus: Permille(b as i64) })
            },
            None => None,
        }
    }

    /// The figures of the yield per click of one unit, if the item has
    /// such a yield.
    pub fn get_spc(&self, model: &Model) -> (r: Option<Stats>)
        requires
            model.wf(),
            self.stats_fit(model, YieldKind::Click),
        ensures
            match r {
                Some(stats) => self.has_stats(model, YieldKind::Click, stats),
                None => self.spc is None,
            },
    {
        self.effective(model, YieldKind::Click)
    }

    /// The figures of the yield per month of one unit, if the item has
    /// such a yield.
    pub fn get_spt(&self, model: &Model) -> (r: Option<Stats>)
        requires
            model.wf(),
            self.stats_fit(model, YieldKind::Tick),
        ensures
            match r {
                Some(stats) => self.has_stats(model, YieldKind::Tick, stats),
                None => self.spt is None,
            },
    {
        self.effective(model, YieldKind::Tick)
    }
}

impl ItemView {
    /// The price of the next unit.
    pub open spec fn cost(self) -> int {
        self.spec.unit_cost(self.quantity as nat)
    }

    /// The price of the next `n` units together.
    pub open spec fn cost_n(self, n: nat) -> int {
        bulk(self.spec.cost.0 as int, self.quantity as nat, n)
    }
}

impl Item {
    /// The name of the item.
    pub fn name(&self) -> (n: &str)
        ensures
            n == self.spec.name,
    {
        self.spec.name
    }

    /// The price of the next unit.
    pub fn cost(&self) -> (c: Souls)
        requires
            self.quantity >= 0,
            fits_i64(self@.cost()),
        ensures
            c.0 == self@.cost(),
    {
        self.spec.ith_cost(self.quantity)
    }

    /// The price of the next `n` units together, or `None` when a price or
    /// the sum cannot be held in an `i64`, or the quantity owned cannot
    /// grow by `n`.
    pub fn checked_cost_n(&self, n: i64) -> (r: Option<Souls>)
        requires
            self.quantity >= 0,
        ensures
            match r {
                Some(c) => self.cost_n_fits(n) && c.0 == self@.cost_n(bought(n)),
                None => !self.cost_n_fits(n),
            },
    {
        let mut total: i64 = 0;
        let mut i: i64 = 0;
        while i < n
            invariant
                self.quantity >= 0,
                0 <= i,
                i <= n || (n < 0 && i == 0),
                total == self@.cost_n(i as nat),
                forall|k: int| 0 <= k < i ==> self.unit_fits(k),
            decreases n - i,
        {
            let ghost next = self@.cost_n((i + 1) as nat);
            assert(next == total + self.spec.unit_cost((self.quantity + i) as nat));
            if self.quantity > i64::MAX - i {
                assert(!self.unit_fits(i as int));
                return None;
            }
            match self.spec.checked_ith_cost(self.quantity + i) {
                Some(c) => {
                    match total.checked_add(c.0) {
                        Some(t) => {
                            total = t;
                        },
                        None => {
                            assert(!self.unit_fits(i as int));
                            return None;
                        },
                    }
                },
                None => {
                    assert(!self.unit_fits(i as int));
                    return None;
                },
            }
            assert(self.unit_fits(i as int));
            i = i + 1;
        }
        Some(Souls(total))
    }

    /// The price of the next `n` units together.
    pub fn cost_n(&self, n: i64) -> (c: Souls)
        requires
            self.quantity >= 0,
            self.cost_n_fits(n),
        ensures
            c.0 == self@.cost_n(bought(n)),
    {
        match self.checked_cost_n(n) {
            Some(c) => c,
            None => vstd::pervasive::unreached(),
        }
    }

    /// Whether the price of the next `n` units can be summed in `i64`: the
    /// quantity can grow that far, and each price and each partial sum fits.
    pub open spec fn cost_n_fits(&self, n: i64) -> bool {
        forall|k: int| 0 <= k < n ==> self.unit_fits(k)
    }

    /// Whether the unit bought after `k` others can be priced and added to
    /// their price in `i64`.
    pub open spec fn unit_fits(&self, k: int) -> bool {
        &&& self.quantity + k <= i64::MAX
        &&& fits_i64(self.spec.unit_cost((self.quantity + k) as nat))
        &&& fits_i64(self@.cost_n((k + 1) as nat))
    }
}

/// The number of units that a request for `n` asks for: none where `n` is
/// negative.
pub open spec fn bought(n: i64) -> nat {
    if n < 0 {
        0
    } else {
        n as nat
    }
}

} // verus!
