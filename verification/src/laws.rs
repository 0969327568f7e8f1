//! What holds of the rules on every state.

use vstd::prelude::*;
use vstd::arithmetic::power::pow;
use crate::growth::bulk;
use crate::growth::compound;
use crate::growth::lemma_compound_negative;
use crate::growth::lemma_compound_nondecreasing;
use crate::growth::lemma_compound_step;
use crate::items::ItemSpec;
use crate::model::CustomerKind;
use crate::model::Msg;
use crate::registry::distinct_keys;
use crate::registry::has_key;
use crate::registry::Key;
use crate::registry::lemma_position_same_keys;
use crate::registry::lemma_position_unique;
use crate::registry::position_of;
use crate::state::add_effect;
use crate::state::add_effects;
use crate::state::has_pending;
use crate::state::State;
use crate::upgrades::Bucket;
use crate::upgrades::UpgradeEffect;

verus! {

/// Once the price of a unit has reached 9 souls, the next unit costs
/// strictly more.
pub proof fn law_cost_strictly_increasing(spec: ItemSpec, i: nat)
    requires
        spec.unit_cost(i) >= 9,
    ensures
        spec.unit_cost(i + 1) > spec.unit_cost(i),
{
    if spec.cost.0 < 0 {
        lemma_compound_negative(spec.cost.0 as int, i);
    }
    lemma_compound_step(spec.cost.0 as int, i);
}

/// An item whose first unit costs at least 9 souls costs strictly more
/// with each unit owned.
pub proof fn law_cost_monotone(spec: ItemSpec, i: nat)
    requires
        spec.cost.0 >= 9,
    ensures
        spec.unit_cost(i + 1) > spec.unit_cost(i),
{
    let base = spec.cost.0 as int;
    lemma_compound_nondecreasing(base, 0, i);
    assert(compound(base, 0) == base) by {
        reveal(pow);
        assert(base * 1 == base);
        vstd::arithmetic::div_mod::lemma_div_basics_3(base);
    }
    lemma_compound_step(base, i);
}

/// The price of an item never falls with the quantity owned, where its
/// first unit costs nothing or more.
pub proof fn law_cost_nondecreasing(spec: ItemSpec, i: nat, j: nat)
    requires
        spec.cost.0 >= 0,
        i <= j,
    ensures
        spec.unit_cost(i) <= spec.unit_cost(j),
{
    lemma_compound_nondecreasing(spec.cost.0 as int, i, j);
}

/// The price of several units is the sum of their prices: no units cost
/// nothing, and `n + 1` units from a quantity `q` cost what `n` units cost
/// and the unit bought at the quantity `q + n`.
pub proof fn law_bulk_cost_additive(base: int, q: nat, n: nat)
    ensures
        bulk(base, q, 0) == 0,
        bulk(base, q, n + 1) == bulk(base, q, n) + compound(base, q + n),
{
}

/// A harvest moves souls from the corpses to the balance: their sum stays.
pub proof fn law_harvest_conserves(s: State, amount: int)
    ensures
        s.harvest(amount).due + s.harvest(amount).souls == s.due + s.souls,
        s.harvest(amount).alive == s.alive,
{
}

/// A remittance moves souls from the balance to the customer's ledger:
/// their sum stays, the ledger does not fall, and population and corpses
/// are left alone.
pub proof fn law_remit_conserves(s: State, amount: int, kind: CustomerKind)
    ensures
        s.remit(amount, kind).souls + s.remit(amount, kind).given(kind) == s.souls + s.given(kind),
        s.remit(amount, kind).given(kind) >= s.given(kind),
        s.remit(amount, kind).due == s.due,
        s.remit(amount, kind).alive == s.alive,
{
}

/// Buying units of an item keeps population, corpses and balance from
/// falling below zero.
pub proof fn law_purchase_non_negative(s: State, p: int, n: nat)
    requires
        s.non_negative(),
    ensures
        s.purchase(p, n).non_negative(),
    decreases n,
{
    if n > 0 && s.can_buy(p) {
        law_purchase_non_negative(s.buy_one(p), p, (n - 1) as nat);
    }
}

/// No command takes population, corpses or balance below zero.
pub proof fn law_non_negative(s: State, msg: Msg)
    requires
        s.non_negative(),
    ensures
        s.step(msg).non_negative(),
{
    match msg {
        Msg::Purchase { spec, quantity } => {
            match position_of(s.items, spec) {
                Some(p) => {
                    law_purchase_non_negative(s, p, crate::items::bought(quantity));
                },
                None => {},
            }
        },
        _ => {},
    }
}

/// After any sequence of commands, population, corpses and balance are
/// not negative.
pub proof fn law_non_negative_run(s: State, msgs: Seq<Msg>)
    requires
        s.non_negative(),
    ensures
        s.run(msgs).non_negative(),
    decreases msgs.len(),
{
    if msgs.len() > 0 {
        law_non_negative_run(s, msgs.drop_last());
        law_non_negative(s.run(msgs.drop_last()), msgs.last());
    }
}

/// While an event is pending, a month changes nothing.
pub proof fn law_gate_closed(s: State)
    requires
        has_pending(s.events),
    ensures
        s.step(Msg::Tick) == s,
{
}

/// While an event is pending, no number of months changes anything.
pub proof fn law_gate_closed_run(s: State, n: nat)
    requires
        has_pending(s.events),
    ensures
        s.run(Seq::new(n, |i: int| Msg::Tick)) == s,
    decreases n,
{
    let msgs = Seq::new(n, |i: int| Msg::Tick);
    if n > 0 {
        assert(msgs.drop_last() =~= Seq::new((n - 1) as nat, |i: int| Msg::Tick));
        law_gate_closed_run(s, (n - 1) as nat);
    }
}

/// While no event is pending, a month advances the count of months by
/// one.
pub proof fn law_gate_open(s: State)
    requires
        !has_pending(s.events),
    ensures
        s.step(Msg::Tick).month == s.month + 1,
{
}

/// Once the only pending event is consumed, the next month advances the
/// count of months by one.
pub proof fn law_consume_opens_gate(s: State, id: i64)
    requires
        distinct_keys(s.events),
        forall|i: int|
            0 <= i < s.events.len() && !(#[trigger] s.events[i]).consumed ==> s.events[i].spec.id
                == id,
    ensures
        !has_pending(s.step(Msg::ConsumeEvent { spec: id }).events),
        s.step(Msg::ConsumeEvent { spec: id }).step(Msg::Tick).month == s.month + 1,
{
    let t = s.consume_event(id);
    assert forall|i: int| 0 <= i < t.events.len() implies (#[trigger] t.events[i]).consumed by {
        if !s.events[i].consumed {
            lemma_position_unique(s.events, id, i);
        } else {
            match position_of(s.events, id) {
                Some(p) => {},
                None => {},
            }
        }
    }
}

/// Buying an upgrade a second time changes nothing: its effects become
/// active once.
pub proof fn law_upgrade_idempotent(s: State, id: i64)
    requires
        distinct_keys(s.upgrades),
    ensures
        s.step(Msg::PurchaseUpgrade { spec: id }).step(Msg::PurchaseUpgrade { spec: id }) == s.step(
            Msg::PurchaseUpgrade { spec: id },
        ),
        s.buy_upgrade(id).buy_upgrade(id).effects == s.buy_upgrade(id).effects,
        !s.buy_upgrade(id).upgrade_applies(id),
{
    let t = s.buy_upgrade(id);
    match position_of(s.upgrades, id) {
        Some(p) => {
            assert(has_key(s.upgrades, id));
            assert(t.upgrades.len() == s.upgrades.len());
            assert forall|i: int| 0 <= i < s.upgrades.len() implies (#[trigger] s.upgrades[i]).key()
                == t.upgrades[i].key() by {}
            lemma_position_same_keys(s.upgrades, t.upgrades, id);
        },
        None => {},
    }
}

/// Every unique item of `s` is owned at most once.
pub open spec fn uniques_single(s: State) -> bool {
    forall|k: int|
        0 <= k < s.items.len() ==> ((#[trigger] s.items[k]).spec.unique ==> s.items[k].quantity <= 1)
}

proof fn lemma_purchase_keeps(s: State, p: int, n: nat)
    requires
        0 <= p < s.items.len(),
    ensures
        s.purchase(p, n).events.len() >= s.events.len(),
        forall|k: int|
            0 <= k < s.events.len() ==> (#[trigger] s.purchase(p, n).events[k]).spec.id
                == s.events[k].spec.id,
        s.purchase(p, n).upgrades == s.upgrades,
        s.purchase(p, n).effects == s.effects,
        s.purchase(p, n).month == s.month,
        s.purchase(p, n).heaven == s.heaven,
        s.purchase(p, n).hell == s.hell,
        s.purchase(p, n).items.len() == s.items.len(),
        forall|k: int|
            0 <= k < s.items.len() ==> {
                &&& (#[trigger] s.purchase(p, n).items[k]).spec == s.items[k].spec
                &&& s.purchase(p, n).items[k].revealed == s.items[k].revealed
                &&& s.purchase(p, n).items[k].quantity >= s.items[k].quantity
            },
        uniques_single(s) ==> uniques_single(s.purchase(p, n)),
    decreases n,
{
    if n > 0 && s.can_buy(p) {
        let t = s.buy_one(p);
        lemma_purchase_keeps(t, p, (n - 1) as nat);
        assert(t.events.len() >= s.events.len() && forall|k: int|
            0 <= k < s.events.len() ==> (#[trigger] t.events[k]).spec.id == s.events[k].spec.id) by {
            let hello = crate::events::Event {
                spec: crate::catalog::hello_from_hell_spec(),
                consumed: false,
            };
            if has_key(s.events, hello.key()) {
                let q = position_of(s.events, hello.key())->0;
                assert(s.events[q].key() == hello.key());
            }
        }
        assert forall|k: int| 0 <= k < s.events.len() implies (#[trigger] s.purchase(
            p,
            n,
        ).events[k]).spec.id == s.events[k].spec.id by {
            assert(t.events[k].spec.id == s.events[k].spec.id);
        }
        assert forall|k: int| 0 <= k < s.items.len() implies {
            &&& (#[trigger] s.purchase(p, n).items[k]).spec == s.items[k].spec
            &&& s.purchase(p, n).items[k].revealed == s.items[k].revealed
            &&& s.purchase(p, n).items[k].quantity >= s.items[k].quantity
        } by {
            assert(t.items[k].spec == s.items[k].spec);
        }
        if uniques_single(s) {
            assert forall|k: int|
                0 <= k < t.items.len() && (#[trigger] t.items[k]).spec.unique implies t.items[k].quantity
                <= 1 by {
                if k != p {
                    assert(t.items[k] == s.items[k]);
                }
            }
        }
    }
}

/// No command lets a unique item be owned more than once.
pub proof fn law_unique_items_stay_single(s: State, msg: Msg)
    requires
        uniques_single(s),
    ensures
        uniques_single(s.step(msg)),
{
    match msg {
        Msg::Purchase { spec, quantity } => {
            match position_of(s.items, spec) {
                Some(p) => {
                    assert(has_key(s.items, spec));
                    lemma_purchase_keeps(s, p, crate::items::bought(quantity));
                },
                None => {},
            }
        },
        Msg::Tick => {
            let t = s.step(msg);
            assert forall|k: int|
                0 <= k < t.items.len() && (#[trigger] t.items[k]).spec.unique implies t.items[k].quantity
                <= 1 by {
                if !has_pending(s.events) {
                    assert(t.items[k].quantity == s.items[k].quantity);
                    assert(t.items[k].spec == s.items[k].spec);
                }
            }
        },
        _ => {},
    }
}

/// No command takes a unit of an item away, hides an item that was
/// revealed, or changes what the catalog says of it.
pub proof fn law_items_only_grow(s: State, msg: Msg, k: int)
    requires
        0 <= k < s.items.len(),
    ensures
        s.step(msg).items.len() == s.items.len(),
        s.step(msg).items[k].spec == s.items[k].spec,
        s.step(msg).items[k].quantity >= s.items[k].quantity,
        s.items[k].revealed ==> s.step(msg).items[k].revealed,
{
    match msg {
        Msg::Purchase { spec, quantity } => {
            match position_of(s.items, spec) {
                Some(p) => {
                    assert(has_key(s.items, spec));
                    lemma_purchase_keeps(s, p, crate::items::bought(quantity));
                },
                None => {},
            }
        },
        _ => {},
    }
}

/// No command takes an upgrade back or hides one that was revealed: once
/// bought, an upgrade stays bought.
pub proof fn law_upgrades_only_advance(s: State, msg: Msg, k: int)
    requires
        0 <= k < s.upgrades.len(),
    ensures
        s.step(msg).upgrades.len() == s.upgrades.len(),
        s.step(msg).upgrades[k].spec == s.upgrades[k].spec,
        s.upgrades[k].bought ==> s.step(msg).upgrades[k].bought,
        s.upgrades[k].revealed ==> s.step(msg).upgrades[k].revealed,
{
    match msg {
        Msg::Purchase { spec, quantity } => {
            match position_of(s.items, spec) {
                Some(p) => {
                    assert(has_key(s.items, spec));
                    lemma_purchase_keeps(s, p, crate::items::bought(quantity));
                },
                None => {},
            }
        },
        Msg::PurchaseUpgrade { spec } => {
            match position_of(s.upgrades, spec) {
                Some(p) => {
                    assert(has_key(s.upgrades, spec));
                },
                None => {},
            }
        },
        _ => {},
    }
}

/// Whether `a` begins `b`.
pub open spec fn begins<T>(a: Seq<T>, b: Seq<T>) -> bool {
    a.len() <= b.len() && forall|i: int| 0 <= i < a.len() ==> a[i] == b[i]
}

/// Whether every bucket of `a` stands in `b` at its position, for the same
/// item, with the effects it had as the first of those it has.
pub open spec fn only_grown(a: Seq<Bucket>, b: Seq<Bucket>) -> bool {
    a.len() <= b.len() && forall|k: int|
        0 <= k < a.len() ==> (#[trigger] b[k]).target == a[k].target && begins(
            a[k].effects,
            b[k].effects,
        )
}

proof fn lemma_add_effects_grow(buckets: Seq<Bucket>, effects: Seq<UpgradeEffect>, n: nat)
    ensures
        only_grown(buckets, add_effects(buckets, effects, n)),
    decreases n,
{
    if n > 0 {
        let before = add_effects(buckets, effects, (n - 1) as nat);
        let after = add_effect(before, effects[n - 1]);
        lemma_add_effects_grow(buckets, effects, (n - 1) as nat);
        match position_of(before, effects[n - 1].spec.id) {
            Some(p) => {
                assert(has_key(before, effects[n - 1].spec.id));
            },
            None => {},
        }
        assert forall|k: int| 0 <= k < buckets.len() implies (#[trigger] after[k]).target
            == buckets[k].target && begins(buckets[k].effects, after[k].effects) by {
            assert(before[k].target == buckets[k].target);
            assert(begins(buckets[k].effects, before[k].effects));
        }
    }
}

/// No command removes an active effect or a bucket of effects: the
/// effects are only added to, each after those that were active.
pub proof fn law_effects_only_grow(s: State, msg: Msg)
    ensures
        only_grown(s.effects, s.step(msg).effects),
{
    match msg {
        Msg::Purchase { spec, quantity } => {
            match position_of(s.items, spec) {
                Some(p) => {
                    assert(has_key(s.items, spec));
                    lemma_purchase_keeps(s, p, crate::items::bought(quantity));
                },
                None => {},
            }
        },
        Msg::PurchaseUpgrade { spec } => {
            match position_of(s.upgrades, spec) {
                Some(p) => {
                    lemma_add_effects_grow(
                        s.effects,
                        s.upgrades[p].spec.effects@,
                        s.upgrades[p].spec.effects@.len(),
                    );
                },
                None => {},
            }
        },
        _ => {},
    }
}

/// No command lowers a ledger or turns the months back.
pub proof fn law_ledgers_and_months_never_fall(s: State, msg: Msg)
    ensures
        s.step(msg).heaven >= s.heaven,
        s.step(msg).hell >= s.hell,
        s.step(msg).month >= s.month,
{
    match msg {
        Msg::Purchase { spec, quantity } => {
            match position_of(s.items, spec) {
                Some(p) => {
                    assert(has_key(s.items, spec));
                    lemma_purchase_keeps(s, p, crate::items::bought(quantity));
                },
                None => {},
            }
        },
        _ => {},
    }
}

/// No command removes an event or puts another in its place, and only a
/// purchase can make a consumed event pending again.
pub proof fn law_events_only_advance(s: State, msg: Msg, k: int)
    requires
        0 <= k < s.events.len(),
    ensures
        s.step(msg).events.len() >= s.events.len(),
        s.step(msg).events[k].spec.id == s.events[k].spec.id,
        s.events[k].consumed && !(msg is Purchase) ==> s.step(msg).events[k].consumed,
{
    match msg {
        Msg::Purchase { spec, quantity } => {
            match position_of(s.items, spec) {
                Some(p) => {
                    assert(has_key(s.items, spec));
                    lemma_purchase_keeps(s, p, crate::items::bought(quantity));
                },
                None => {},
            }
        },
        Msg::ConsumeEvent { spec } => {
            match position_of(s.events, spec) {
                Some(p) => {
                    assert(has_key(s.events, spec));
                },
                None => {},
            }
        },
        _ => {},
    }
}

} // verus!
