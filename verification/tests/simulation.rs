use death_inc::catalog;
use death_inc::events::EventSpec;
use death_inc::items::ItemCategory;
use death_inc::items::ItemSpec;
use death_inc::items::RateKind;
use death_inc::items::YieldKind;
use death_inc::model::CustomerKind;
use death_inc::model::Model;
use death_inc::model::Msg;
use death_inc::model::Tab;
use death_inc::permille::Permille;
use death_inc::units::Souls;
use death_inc::upgrades::UpgradeEffect;
use death_inc::upgrades::UpgradeSpec;

fn bare(alive: i64, birth: i64, death: i64) -> Model {
    Model::new(Souls(alive), Permille(birth), Permille(death), false)
}

fn quiet() -> Model {
    bare(1_000_000, 0, 0)
}

fn upgrade(id: i64, effects: Vec<UpgradeEffect>) -> UpgradeSpec {
    UpgradeSpec { effects, ..UpgradeSpec::new(id) }
}

fn figures(m: &Model) -> (i64, i64, i64, i64) {
    (m.alive.0, m.due.0, m.souls.0, m.month)
}

#[test]
fn one_month_of_a_population_of_120_000() {
    let mut m = bare(120_000, 1_000, 100);
    assert_eq!(m.deaths_per_tick(), Souls(2));
    assert_eq!(m.births_per_tick(), Souls(11));
    assert!(m.update(Msg::Tick));
    assert_eq!(m.alive, Souls(120_009));
    assert_eq!(m.due, Souls(2));
    assert_eq!(m.souls, Souls(0));
    assert_eq!(m.month, 1);
}

#[test]
fn births_are_counted_on_the_population_as_the_month_found_it() {
    // 1000 alive, 365.25 deaths per thousand and year: 31 die in a month.
    // Births at the same rate are 31 as well, counted on the 1000.
    let mut m = bare(1_000, 365_250, 365_250);
    assert!(m.update(Msg::Tick));
    assert_eq!(m.due, Souls(31));
    assert_eq!(m.alive, Souls(1_000));
}

#[test]
fn a_month_rounds_births_and_deaths_up() {
    let mut m = bare(1, 1, 1);
    assert_eq!(m.deaths_per_tick(), Souls(1));
    assert_eq!(m.births_per_tick(), Souls(1));
    assert!(m.update(Msg::Tick));
    assert_eq!(figures(&m), (1, 1, 0, 1));
}

#[test]
fn deaths_are_no_more_than_the_population() {
    // A rate of 100,000 per thousand and year would kill 8,488 of 1000.
    let mut m = bare(1_000, 0, 100_000_000);
    assert_eq!(m.deaths_per_tick(), Souls(8_488));
    assert!(m.update(Msg::Tick));
    assert_eq!(m.alive, Souls(0));
    assert_eq!(m.due, Souls(1_000));
}

#[test]
fn negative_rates_move_nobody() {
    let mut m = bare(120_000, -1_000, -100);
    assert_eq!(m.deaths_per_tick(), Souls(-1));
    assert_eq!(m.births_per_tick(), Souls(-10));
    assert!(m.update(Msg::Tick));
    assert_eq!(figures(&m), (120_000, 0, 0, 1));
}

#[test]
fn an_empty_world_stays_empty() {
    let mut m = bare(0, 6_000, 4_000);
    assert!(m.update(Msg::Tick));
    assert_eq!(figures(&m), (0, 0, 0, 1));
}

#[test]
fn rate_modifiers_count_once_per_unit_owned() {
    let mut m = bare(120_000, 1_000, 100);
    let fertile = ItemSpec { br_mod: Some(Permille(10)), ..ItemSpec::new(100) };
    let deadly = ItemSpec { dr_mod: Some(Permille(500)), ..ItemSpec::new(101) };
    m.add_item(fertile, 50);
    m.add_item(deadly, 2);
    assert_eq!(m.sum_factor(RateKind::Birth), Permille(1_500));
    assert_eq!(m.sum_factor(RateKind::Death), Permille(2_000));
    assert_eq!(m.effective_birth_rate(), Permille(1_500));
    assert_eq!(m.effective_death_rate(), Permille(200));
    // 120 * 1.5 / 365.25 * 31 = 15.27..., 120 * 0.2 / 365.25 * 31 = 2.03...
    assert_eq!(m.births_per_tick(), Souls(16));
    assert_eq!(m.deaths_per_tick(), Souls(3));
    assert!(!m.is_declining());
}

#[test]
fn a_population_declines_when_deaths_outnumber_births() {
    let m = bare(120_000, 100, 1_000);
    assert!(m.is_declining());
}

#[test]
fn buying_three_with_a_balance_of_forty_buys_two() {
    let mut m = quiet();
    m.souls = Souls(40);
    m.add_item(ItemSpec { cost: Souls(15), ..ItemSpec::new(100) }, 0);
    assert!(m.update(Msg::Purchase { spec: 100, quantity: 3 }));
    assert_eq!(m.item_quantity(100), 2);
    assert_eq!(m.souls, Souls(9));
}

#[test]
fn buying_with_enough_balance_buys_all() {
    let mut m = quiet();
    m.souls = Souls(49);
    m.add_item(ItemSpec { cost: Souls(15), ..ItemSpec::new(100) }, 0);
    assert!(m.update(Msg::Purchase { spec: 100, quantity: 3 }));
    assert_eq!(m.item_quantity(100), 3);
    assert_eq!(m.souls, Souls(0));
}

#[test]
fn buying_nothing_or_the_unknown_changes_nothing() {
    let mut m = quiet();
    m.souls = Souls(40);
    m.add_item(ItemSpec { cost: Souls(15), ..ItemSpec::new(100) }, 0);
    assert!(m.update(Msg::Purchase { spec: 100, quantity: 0 }));
    assert!(m.update(Msg::Purchase { spec: 100, quantity: -2 }));
    assert!(m.update(Msg::Purchase { spec: 999, quantity: 5 }));
    assert_eq!(m.item_quantity(100), 0);
    assert_eq!(m.item_quantity(999), 0);
    assert_eq!(m.souls, Souls(40));
}

#[test]
fn a_unique_item_is_bought_once() {
    let mut m = quiet();
    m.souls = Souls(10_000);
    m.add_item(ItemSpec { cost: Souls(15), unique: true, ..ItemSpec::new(100) }, 0);
    assert!(m.update(Msg::Purchase { spec: 100, quantity: 3 }));
    assert_eq!(m.item_quantity(100), 1);
    assert_eq!(m.souls, Souls(9_985));
    assert!(m.update(Msg::Purchase { spec: 100, quantity: 1 }));
    assert_eq!(m.item_quantity(100), 1);
    assert_eq!(m.souls, Souls(9_985));
}

#[test]
fn soul_fission_doubles_the_population() {
    let mut m = bare(1_001, 0, 0);
    m.souls = Souls(400);
    m.add_item(catalog::soul_fission(), 0);
    assert!(m.update(Msg::Purchase { spec: catalog::SOUL_FISSION, quantity: 1 }));
    assert_eq!(m.alive, Souls(2_002));
    assert_eq!(m.due, Souls(0));
    assert_eq!(m.souls, Souls(0));
}

#[test]
fn a_plague_moves_its_share_to_the_corpses() {
    let mut m = bare(1_001, 0, 0);
    m.souls = Souls(400);
    m.add_item(catalog::plague_small(), 0);
    assert!(m.update(Msg::Purchase { spec: catalog::PLAGUE_SMALL, quantity: 1 }));
    // 1001 * 0.9 = 900.9
    assert_eq!(m.due, Souls(900));
    assert_eq!(m.alive, Souls(101));
}

#[test]
fn the_multiplier_comes_before_the_kill_ratio() {
    let mut m = bare(1_001, 0, 0);
    m.add_item(
        ItemSpec {
            cost: Souls(0),
            pop_multiplier: Some(Permille(1_500)),
            pop_kill_ratio: Some(Permille(500)),
            ..ItemSpec::new(100)
        },
        0,
    );
    assert!(m.update(Msg::Purchase { spec: 100, quantity: 2 }));
    // 1001 -> 1501 -> 751 dead, 750 left -> 1125 -> 562 dead, 563 left
    assert_eq!(m.alive, Souls(563));
    assert_eq!(m.due, Souls(1_313));
    assert_eq!(m.item_quantity(100), 2);
}

#[test]
fn one_time_effects_never_take_the_population_below_zero() {
    let mut m = bare(1_000, 0, 0);
    m.add_item(
        ItemSpec { cost: Souls(0), pop_kill_ratio: Some(Permille(5_000)), ..ItemSpec::new(100) },
        0,
    );
    m.add_item(
        ItemSpec { cost: Souls(0), pop_multiplier: Some(Permille(-2_000)), ..ItemSpec::new(101) },
        0,
    );
    m.add_item(
        ItemSpec { cost: Souls(0), pop_kill_ratio: Some(Permille(-500)), ..ItemSpec::new(102) },
        0,
    );
    assert!(m.update(Msg::Purchase { spec: 102, quantity: 1 }));
    assert_eq!((m.alive, m.due), (Souls(1_000), Souls(0)));
    assert!(m.update(Msg::Purchase { spec: 100, quantity: 1 }));
    assert_eq!((m.alive, m.due), (Souls(0), Souls(1_000)));
    m.alive = Souls(1_000);
    assert!(m.update(Msg::Purchase { spec: 101, quantity: 1 }));
    assert_eq!((m.alive, m.due), (Souls(0), Souls(1_000)));
}

#[test]
fn apply_buy_effects_multiplies_and_kills() {
    let mut m = bare(200, 0, 0);
    let spec = ItemSpec {
        pop_multiplier: Some(Permille(2_000)),
        pop_kill_ratio: Some(Permille(250)),
        ..ItemSpec::new(100)
    };
    m.apply_buy_effects(&spec, 1);
    assert_eq!((m.alive, m.due), (Souls(300), Souls(100)));
    assert!(!m.has_active_events());
}

#[test]
fn the_first_bailiff_brings_word_from_hell() {
    let mut m = quiet();
    m.souls = Souls(10_000);
    m.add_item(catalog::bailiff(), 0);
    assert!(!m.has_active_events());
    assert!(m.update(Msg::Purchase { spec: catalog::BAILIFF, quantity: 1 }));
    assert!(m.has_active_events());
    let pending = m.pending_events();
    assert_eq!(pending.len(), 1);
    assert_eq!(pending[0].spec.id, catalog::HELLO_FROM_HELL);
    assert_eq!(pending[0].spec.name, "Hello from hell");
    assert!(m.update(Msg::ConsumeEvent { spec: catalog::HELLO_FROM_HELL }));
    assert!(!m.has_active_events());
    // a second bailiff brings nothing
    assert!(m.update(Msg::Purchase { spec: catalog::BAILIFF, quantity: 1 }));
    assert_eq!(m.item_quantity(catalog::BAILIFF), 2);
    assert!(!m.has_active_events());
    assert_eq!(m.events.len(), 1);
}

#[test]
fn two_bailiffs_at_once_bring_the_event_once() {
    let mut m = quiet();
    m.souls = Souls(10_000);
    m.add_item(catalog::bailiff(), 0);
    assert!(m.update(Msg::Purchase { spec: catalog::BAILIFF, quantity: 2 }));
    assert_eq!(m.item_quantity(catalog::BAILIFF), 2);
    assert_eq!(m.events.len(), 1);
    assert_eq!(m.pending_events().len(), 1);
}

#[test]
fn an_event_added_again_is_pending_again_in_its_place() {
    let mut m = quiet();
    m.add_event(catalog::welcome());
    m.add_event(catalog::hello_from_hell());
    m.consume_event(catalog::WELCOME);
    assert_eq!(m.pending_events().len(), 1);
    m.add_event(catalog::welcome());
    assert_eq!(m.events.len(), 2);
    assert_eq!(m.events.get(0).spec.id, catalog::WELCOME);
    assert!(!m.events.get(0).consumed);
    assert_eq!(m.pending_events().len(), 2);
}

#[test]
fn a_harvest_moves_souls_from_the_corpses_to_the_balance() {
    let mut m = quiet();
    m.due = Souls(10);
    m.souls = Souls(5);
    m.harvest(Souls(3));
    assert_eq!((m.due, m.souls), (Souls(7), Souls(8)));
    m.harvest(Souls(100));
    assert_eq!((m.due, m.souls), (Souls(0), Souls(15)));
    m.harvest(Souls(100));
    assert_eq!((m.due, m.souls), (Souls(0), Souls(15)));
}

#[test]
fn a_harvest_is_no_more_than_the_population() {
    let mut m = bare(4, 0, 0);
    m.due = Souls(10);
    m.harvest(Souls(6));
    assert_eq!((m.due, m.souls), (Souls(6), Souls(4)));
}

#[test]
fn a_negative_harvest_moves_nothing() {
    let mut m = quiet();
    m.due = Souls(10);
    m.souls = Souls(5);
    m.harvest(Souls(-3));
    assert_eq!((m.due, m.souls), (Souls(10), Souls(5)));
}

#[test]
fn a_click_harvests_one_soul_without_items() {
    let mut m = quiet();
    m.due = Souls(10);
    assert_eq!(m.souls_per_click(), Souls(1));
    assert!(m.update(Msg::Harvest));
    assert_eq!((m.due, m.souls), (Souls(9), Souls(1)));
}

#[test]
fn a_click_harvests_a_billion_when_cheating() {
    let mut m = Model::new(Souls(5_000_000_000), Permille(0), Permille(0), true);
    m.due = Souls(3_000_000_000);
    assert_eq!(m.souls_per_click(), Souls(1_000_000_000));
    assert!(m.update(Msg::Harvest));
    assert_eq!((m.due, m.souls), (Souls(2_000_000_000), Souls(1_000_000_000)));
}

#[test]
fn a_remittance_moves_souls_to_the_ledger() {
    let mut m = quiet();
    m.souls = Souls(10);
    assert!(m.update(Msg::Remit { quantity: Souls(4), target: CustomerKind::Heaven }));
    assert_eq!(m.souls, Souls(6));
    assert_eq!(m.customer(CustomerKind::Heaven).given, Souls(4));
    assert_eq!(m.customer(CustomerKind::Hell).given, Souls(0));
    assert!(m.update(Msg::Remit { quantity: Souls(100), target: CustomerKind::Hell }));
    assert_eq!(m.souls, Souls(0));
    assert_eq!(m.customer(CustomerKind::Heaven).given, Souls(4));
    assert_eq!(m.customer(CustomerKind::Hell).given, Souls(6));
    assert_eq!(m.customer(CustomerKind::Hell).name, "Hell");
    assert_eq!(m.customer(CustomerKind::Heaven).name, "Heaven");
}

#[test]
fn a_negative_remittance_moves_nothing() {
    let mut m = quiet();
    m.souls = Souls(10);
    m.remit(Souls(-4), CustomerKind::Heaven);
    assert_eq!(m.souls, Souls(10));
    assert_eq!(m.heaven.given, Souls(0));
}

#[test]
fn a_remittance_leaves_population_and_corpses_alone() {
    let mut m = bare(77, 0, 0);
    m.due = Souls(5);
    m.souls = Souls(10);
    m.remit(Souls(3), CustomerKind::Hell);
    assert_eq!((m.alive, m.due), (Souls(77), Souls(5)));
}

#[test]
fn upgrades_raise_the_yield_per_click() {
    let mut m = quiet();
    let worker = ItemSpec { spc: Some(Souls(1)), ..ItemSpec::new(100) };
    m.add_item(worker, 4);
    let half = UpgradeEffect { spc_mod: Some(Permille(500)), ..UpgradeEffect::new(worker) };
    m.add_upgrade(upgrade(200, vec![half]));
    m.add_upgrade(upgrade(201, vec![half]));
    assert_eq!(m.souls_per_click(), Souls(5));

    assert!(m.update(Msg::PurchaseUpgrade { spec: 200 }));
    let stats = worker.get_spc(&m).unwrap();
    assert_eq!(stats.base, Souls(1));
    assert_eq!(stats.bonus, Permille(1_500));
    assert_eq!(stats.effective, Souls(1));
    assert_eq!(stats.multiply(4), Souls(4));
    assert_eq!(m.souls_per_click(), Souls(5));

    assert!(m.update(Msg::PurchaseUpgrade { spec: 201 }));
    let stats = worker.get_spc(&m).unwrap();
    assert_eq!(stats.bonus, Permille(2_000));
    assert_eq!(stats.effective, Souls(2));
    assert_eq!(stats.multiply(4), Souls(8));
    assert_eq!(m.souls_per_click(), Souls(9));
    assert_eq!(m.souls_per_tick(), Souls(0));
    assert!(worker.get_spt(&m).is_none());
}

#[test]
fn upgrades_raise_the_yield_per_month() {
    let mut m = quiet();
    m.add_item(catalog::bailiff(), 3);
    m.add_upgrade(catalog::armed_bailiffs());
    assert_eq!(m.souls_per_tick(), Souls(90));
    assert!(m.update(Msg::PurchaseUpgrade { spec: catalog::ARMED_BAILIFFS }));
    assert_eq!(m.souls_per_tick(), Souls(135));
    assert_eq!(m.souls_per_click(), Souls(1));
    let stats = catalog::bailiff().get_spt(&m).unwrap();
    assert_eq!((stats.base, stats.effective, stats.bonus), (Souls(30), Souls(45), Permille(1_500)));
    assert_eq!(m.checked_yield(YieldKind::Tick), Some(Souls(135)));
    assert_eq!(m.checked_yield(YieldKind::Click), Some(Souls(0)));
}

#[test]
fn the_yield_of_a_unit_is_rounded_down_before_it_is_multiplied() {
    let mut m = quiet();
    let worker = ItemSpec { spc: Some(Souls(3)), ..ItemSpec::new(100) };
    m.add_item(worker, 10);
    let tenth = UpgradeEffect { spc_mod: Some(Permille(100)), ..UpgradeEffect::new(worker) };
    m.add_upgrade(upgrade(200, vec![tenth]));
    assert!(m.update(Msg::PurchaseUpgrade { spec: 200 }));
    // 3 * 1.1 = 3.3 -> 3 per unit
    assert_eq!(m.souls_per_click(), Souls(31));
}

#[test]
fn an_upgrade_is_bought_once() {
    let mut m = quiet();
    let worker = ItemSpec { spc: Some(Souls(1)), ..ItemSpec::new(100) };
    m.add_item(worker, 4);
    let half = UpgradeEffect { spc_mod: Some(Permille(500)), ..UpgradeEffect::new(worker) };
    m.add_upgrade(upgrade(200, vec![half]));
    assert!(m.update(Msg::PurchaseUpgrade { spec: 200 }));
    assert_eq!(m.effects.len(), 1);
    assert_eq!(m.effects.get(0).target, 100);
    assert_eq!(m.effects.get(0).effects.len(), 1);
    assert!(!m.update(Msg::PurchaseUpgrade { spec: 200 }));
    assert_eq!(m.effects.len(), 1);
    assert_eq!(m.effects.get(0).effects.len(), 1);
    assert_eq!(worker.bonus(&m, YieldKind::Click), 1_500);
    assert!(m.upgrades.get(0).bought);
}

#[test]
fn an_unknown_upgrade_is_not_bought() {
    let mut m = quiet();
    assert!(!m.update(Msg::PurchaseUpgrade { spec: 200 }));
    assert_eq!(m.effects.len(), 0);
}

#[test]
fn effects_are_kept_in_the_order_of_purchase() {
    let mut m = quiet();
    let a = ItemSpec { spc: Some(Souls(1)), ..ItemSpec::new(100) };
    let b = ItemSpec { spt: Some(Souls(1)), ..ItemSpec::new(101) };
    let on_a = UpgradeEffect { spc_mod: Some(Permille(250)), ..UpgradeEffect::new(a) };
    let on_b = UpgradeEffect { spt_mod: Some(Permille(750)), ..UpgradeEffect::new(b) };
    let more_on_a = UpgradeEffect { spc_mod: Some(Permille(125)), ..UpgradeEffect::new(a) };
    m.add_upgrade(upgrade(200, vec![on_a, on_b]));
    m.add_upgrade(upgrade(201, vec![more_on_a]));
    assert!(m.update(Msg::PurchaseUpgrade { spec: 201 }));
    assert!(m.update(Msg::PurchaseUpgrade { spec: 200 }));
    assert_eq!(m.effects.len(), 2);
    assert_eq!(m.effects.get(0).target, 100);
    assert_eq!(m.effects.get(1).target, 101);
    let first = &m.effects.get(0).effects;
    assert_eq!(first.len(), 2);
    assert_eq!(first[0].spc_mod, Some(Permille(125)));
    assert_eq!(first[1].spc_mod, Some(Permille(250)));
    assert_eq!(a.bonus(&m, YieldKind::Click), 1_375);
    assert_eq!(a.bonus(&m, YieldKind::Tick), 1_000);
    assert_eq!(b.bonus(&m, YieldKind::Tick), 1_750);
}

#[test]
fn a_pending_event_holds_up_the_months() {
    let mut m = bare(120_000, 1_000, 100);
    m.due = Souls(5);
    m.add_event(EventSpec::new(300));
    for _ in 0..5 {
        assert!(!m.update(Msg::Tick));
        assert_eq!(figures(&m), (120_000, 5, 0, 0));
    }
    assert!(m.update(Msg::ConsumeEvent { spec: 300 }));
    assert!(m.update(Msg::Tick));
    assert_eq!(m.month, 1);
    assert_eq!(m.alive, Souls(120_009));
}

#[test]
fn consuming_an_unknown_event_changes_nothing() {
    let mut m = quiet();
    m.add_event(EventSpec::new(300));
    assert!(m.update(Msg::ConsumeEvent { spec: 301 }));
    assert!(m.has_active_events());
    assert!(!m.update(Msg::Tick));
}

#[test]
fn a_month_harvests_the_monthly_yield() {
    let mut m = bare(120_000, 1_000, 100);
    m.due = Souls(100);
    m.add_item(catalog::bailiff(), 2);
    assert!(m.update(Msg::Tick));
    // 102 corpses, of which 60 are harvested
    assert_eq!(m.due, Souls(42));
    assert_eq!(m.souls, Souls(60));
    assert!(m.update(Msg::Tick));
    assert_eq!(m.due, Souls(0));
    assert_eq!(m.souls, Souls(104));
    assert_eq!(m.month, 2);
}

#[test]
fn a_month_reveals_what_the_balance_reveals() {
    let mut m = bare(120_000, 0, 0);
    m.add_item(ItemSpec { cost: Souls(25), ..ItemSpec::new(100) }, 0);
    m.add_item(ItemSpec { cost: Souls(27), ..ItemSpec::new(101) }, 0);
    m.add_item(ItemSpec { cost: Souls(1_000), ..ItemSpec::new(102) }, 1);
    let mut owned_and_hidden = ItemSpec { cost: Souls(1_000), ..ItemSpec::new(103) }.instantiate(0);
    owned_and_hidden.quantity = 0;
    m.add_item(owned_and_hidden.spec, 0);
    m.add_upgrade(UpgradeSpec { cost: Souls(24), ..UpgradeSpec::new(200) });
    m.add_upgrade(UpgradeSpec { cost: Souls(26), ..UpgradeSpec::new(201) });
    m.souls = Souls(12);
    assert!(m.update(Msg::Tick));
    assert!(m.items.get(0).revealed);
    assert!(!m.items.get(1).revealed);
    assert!(m.items.get(2).revealed);
    assert!(!m.items.get(3).revealed);
    assert!(m.upgrades.get(0).revealed);
    assert!(!m.upgrades.get(1).revealed);
    // what is revealed stays revealed
    m.souls = Souls(0);
    assert!(m.update(Msg::Tick));
    assert!(m.items.get(0).revealed);
    assert!(m.upgrades.get(0).revealed);
    assert!(!m.items.get(1).revealed);
}

#[test]
fn reveals_can_be_asked_for_directly() {
    let mut m = quiet();
    m.add_item(ItemSpec { cost: Souls(10), ..ItemSpec::new(100) }, 0);
    m.add_upgrade(UpgradeSpec { cost: Souls(10), ..UpgradeSpec::new(200) });
    m.souls = Souls(4);
    m.update_items_reveal();
    m.update_upgrades_reveal();
    assert!(!m.items.get(0).revealed);
    assert!(!m.upgrades.get(0).revealed);
    m.souls = Souls(5);
    m.update_items_reveal();
    assert!(m.items.get(0).revealed);
    assert!(!m.upgrades.get(0).revealed);
    m.update_upgrades_reveal();
    assert!(m.upgrades.get(0).revealed);
}

#[test]
fn tabs_and_shelves_follow_the_focus() {
    let mut m = quiet();
    assert_eq!(m.tab, Tab::Shop);
    assert_eq!(m.item_category, ItemCategory::Harvest);
    assert!(m.update(Msg::FocusTab { tab: Tab::Earth }));
    assert!(m.update(Msg::FocusItemCategory { category: ItemCategory::Finance }));
    assert_eq!(m.tab, Tab::Earth);
    assert_eq!(m.item_category, ItemCategory::Finance);
}

#[test]
fn a_game_starts_with_the_catalog_and_the_welcome() {
    let m = Model::create(false);
    assert_eq!(figures(&m), (800_000, 0, 0, 0));
    assert_eq!(m.base_birth_rate, Permille(6_000));
    assert_eq!(m.base_death_rate, Permille(4_000));
    assert_eq!(m.goodness, Permille(1_000));
    assert!(!m.cheat);
    assert!(Model::create(true).cheat);
    assert_eq!(m.items.len(), 10);
    let ids: Vec<i64> = (0..10).map(|k| m.items.get(k).spec.id).collect();
    assert_eq!(
        ids,
        vec![
            catalog::INTERN,
            catalog::BAILIFF,
            catalog::BANKER,
            catalog::ACCOUNTANT,
            catalog::COLLECTION_AGENCY,
            catalog::COLLECTION_MULTINATIONAL,
            catalog::SURVIVAL_INSTINCT,
            catalog::KILLER_INSTINCT,
            catalog::SOUL_FISSION,
            catalog::PLAGUE_SMALL,
        ]
    );
    for k in 0..10 {
        assert_eq!(m.items.get(k).quantity, 0);
        assert!(!m.items.get(k).revealed);
    }
    assert_eq!(m.upgrades.len(), 3);
    assert_eq!(m.upgrades.get(0).spec.id, catalog::PAID_INTERNS);
    assert_eq!(m.upgrades.get(1).spec.id, catalog::INTERN_RAISE_1);
    assert_eq!(m.upgrades.get(2).spec.id, catalog::ARMED_BAILIFFS);
    assert_eq!(m.effects.len(), 0);
    assert_eq!(m.events.len(), 1);
    assert_eq!(m.events.get(0).spec.id, catalog::WELCOME);
    assert!(m.has_active_events());
    assert_eq!(m.souls_per_click(), Souls(1));
    assert_eq!(m.souls_per_tick(), Souls(0));
}

#[test]
fn the_first_month_of_a_game_waits_for_the_welcome() {
    let mut m = Model::create(false);
    assert!(!m.update(Msg::Tick));
    assert_eq!(m.month, 0);
    assert!(m.update(Msg::ConsumeEvent { spec: catalog::WELCOME }));
    assert!(m.update(Msg::Tick));
    assert_eq!(m.month, 1);
    // 800 * 4 / 365.25 * 31 = 271.59..., 800 * 6 / 365.25 * 31 = 407.39...
    assert_eq!(m.due, Souls(272));
    assert_eq!(m.alive, Souls(800_000 - 272 + 408));
}

#[test]
fn the_catalog_has_distinct_identities() {
    let mut ids = vec![
        catalog::item_none().id,
        catalog::intern().id,
        catalog::bailiff().id,
        catalog::collection_agency().id,
        catalog::collection_multinational().id,
        catalog::banker().id,
        catalog::accountant().id,
        catalog::survival_instinct().id,
        catalog::killer_instinct().id,
        catalog::soul_fission().id,
        catalog::soul_fission_2().id,
        catalog::plague_small().id,
        catalog::plague_large().id,
        catalog::paid_interns().id,
        catalog::intern_raise_1().id,
        catalog::armed_bailiffs().id,
        catalog::welcome().id,
        catalog::hello_from_hell().id,
    ];
    ids.sort();
    ids.dedup();
    assert_eq!(ids.len(), 18);
    assert!(ids.iter().all(|id| 1 <= *id && *id <= catalog::LAST_ID));
}

#[test]
fn the_catalog_says_what_the_items_do() {
    let intern = catalog::intern();
    assert_eq!(intern.name, "Intern");
    assert_eq!(intern.cost, Souls(25));
    assert_eq!(intern.spc, Some(Souls(1)));
    assert_eq!(intern.spt, None);
    let bailiff = catalog::bailiff();
    assert_eq!((bailiff.cost, bailiff.spt), (Souls(1_500), Some(Souls(30))));
    assert_eq!(catalog::survival_instinct().br_mod, Some(Permille(10)));
    assert_eq!(catalog::killer_instinct().dr_mod, Some(Permille(10)));
    let fission = catalog::soul_fission();
    assert!(fission.unique);
    assert_eq!(fission.pop_multiplier, Some(Permille(2_000)));
    assert_eq!(fission.category, ItemCategory::Events);
    assert_eq!(catalog::plague_large().pop_kill_ratio, Some(Permille(990)));
    assert_eq!(catalog::plague_small().desc, "Kill 90% of the population.\n\nMore souls for you!");
    let none = catalog::item_none();
    assert_eq!((none.name, none.cost, none.unique), ("<missing>", Souls(1), false));
    let paid = catalog::paid_interns();
    assert_eq!(paid.cost, Souls(1_000));
    assert_eq!(paid.effects.len(), 1);
    assert_eq!(paid.effects[0].spec.id, catalog::INTERN);
    assert_eq!(paid.effects[0].spc_mod, Some(Permille(500)));
    assert_eq!(paid.effects[0].spt_mod, None);
    assert_eq!(catalog::welcome().name, "Welcome to Death Inc.");
    assert!(catalog::welcome().desc.starts_with("You are Death.\n\nEvery day"));
}

#[test]
fn a_command_that_would_overflow_is_refused_and_changes_nothing() {
    let mut m = quiet();
    m.due = Souls(10);
    m.souls = Souls(i64::MAX);
    assert_eq!(m.try_update(Msg::Harvest), None);
    assert_eq!((m.due, m.souls), (Souls(10), Souls(i64::MAX)));

    m.heaven.given = Souls(i64::MAX);
    assert_eq!(m.try_update(Msg::Remit { quantity: Souls(1), target: CustomerKind::Heaven }), None);
    assert_eq!(m.souls, Souls(i64::MAX));
    assert_eq!(
        m.try_update(Msg::Remit { quantity: Souls(1), target: CustomerKind::Hell }),
        Some(true)
    );
    assert_eq!(m.hell.given, Souls(1));

    let mut m = bare(i64::MAX, 0, 0);
    m.add_item(catalog::soul_fission(), 0);
    m.souls = Souls(1_000);
    assert_eq!(m.try_update(Msg::Purchase { spec: catalog::SOUL_FISSION, quantity: 1 }), None);
    assert_eq!(m.item_quantity(catalog::SOUL_FISSION), 0);
    assert_eq!(m.souls, Souls(1_000));

    let mut m = bare(i64::MAX, i64::MAX, 0);
    assert_eq!(m.try_update(Msg::Tick), None);
    assert_eq!(m.month, 0);
    m.month = i64::MAX;
    m.base_birth_rate = Permille(0);
    assert_eq!(m.try_update(Msg::Tick), None);
}

#[test]
fn a_command_that_fits_is_applied_by_try_update() {
    let mut m = bare(120_000, 1_000, 100);
    assert_eq!(m.try_update(Msg::Tick), Some(true));
    assert_eq!(figures(&m), (120_009, 2, 0, 1));
    assert_eq!(m.try_update(Msg::Harvest), Some(true));
    assert_eq!(figures(&m), (120_009, 1, 1, 1));
    assert_eq!(m.try_update(Msg::PurchaseUpgrade { spec: 1 }), Some(false));
    m.add_event(EventSpec::new(300));
    assert_eq!(m.try_update(Msg::Tick), Some(false));
}

#[test]
fn yields_that_cannot_be_held_are_none() {
    let mut m = quiet();
    let worker = ItemSpec { spc: Some(Souls(i64::MAX)), ..ItemSpec::new(100) };
    m.add_item(worker, 2);
    assert_eq!(m.checked_yield(YieldKind::Click), None);
    assert_eq!(m.checked_souls_per_click(), None);
    assert_eq!(m.checked_yield(YieldKind::Tick), Some(Souls(0)));
    assert_eq!(m.try_update(Msg::Harvest), None);
    let mut m = bare(120_000, 1_000, 100);
    m.add_item(ItemSpec { br_mod: Some(Permille(i64::MAX)), ..ItemSpec::new(100) }, 2);
    assert!(m.checked_rates(RateKind::Birth).is_none());
    let rates = m.checked_rates(RateKind::Death).unwrap();
    assert_eq!((rates.factor, rates.effective, rates.per_tick), (Permille(1_000), Permille(100), Souls(2)));
}

#[test]
fn no_command_takes_the_figures_below_zero() {
    let mut m = bare(50, 900_000, 2_000_000);
    m.add_item(ItemSpec { cost: Souls(3), spt: Some(Souls(7)), ..ItemSpec::new(100) }, 0);
    m.add_item(catalog::plague_small(), 0);
    let commands = [
        Msg::Tick,
        Msg::Harvest,
        Msg::Purchase { spec: 100, quantity: 2 },
        Msg::Tick,
        Msg::Remit { quantity: Souls(5), target: CustomerKind::Hell },
        Msg::Purchase { spec: catalog::PLAGUE_SMALL, quantity: 1 },
        Msg::Tick,
        Msg::Harvest,
        Msg::Remit { quantity: Souls(-5), target: CustomerKind::Heaven },
        Msg::Tick,
        Msg::Purchase { spec: 100, quantity: 50 },
    ];
    for round in 0..20 {
        for msg in commands.iter() {
            assert!(m.try_update(*msg).is_some());
            assert!(m.alive >= Souls(0), "round {}", round);
            assert!(m.due >= Souls(0), "round {}", round);
            assert!(m.souls >= Souls(0), "round {}", round);
        }
    }
    assert_eq!(m.month, 80);
}

#[test]
fn harvest_and_remit_conserve_souls() {
    let mut m = bare(1_000, 0, 0);
    m.due = Souls(500);
    m.souls = Souls(40);
    for amount in [0, 1, 7, 400, 10_000, -3] {
        let before = m.due.0 + m.souls.0;
        m.harvest(Souls(amount));
        assert_eq!(m.due.0 + m.souls.0, before);
    }
    for amount in [0, 1, 7, 400, 10_000, -3] {
        let before = m.souls.0 + m.hell.given.0;
        m.remit(Souls(amount), CustomerKind::Hell);
        assert_eq!(m.souls.0 + m.hell.given.0, before);
    }
}

#[test]
fn monthly_flows_match_the_formula_worked_out_in_wide_integers() {
    let populations = [0i64, 1, 999, 1_000, 120_000, 800_000, 7_000_000_000, i64::MAX / 1_000_000];
    let rates = [0i64, 1, 100, 1_000, 4_000, 6_000, 18_500, -2_500];
    let owned = [0i64, 1, 7, 250];
    for alive in populations {
        for rate in rates {
            for quantity in owned {
                let mut m = bare(alive, rate, rate);
                m.add_item(ItemSpec { br_mod: Some(Permille(10)), ..ItemSpec::new(100) }, quantity);
                m.add_item(ItemSpec { dr_mod: Some(Permille(-3)), ..ItemSpec::new(101) }, quantity);
                for (kind, factor) in [
                    (RateKind::Birth, 1_000 + 10 * quantity),
                    (RateKind::Death, 1_000 - 3 * quantity),
                ] {
                    let product = alive as i128 * rate as i128 * factor as i128 * 124;
                    let divisor = 1_461_000_000_000i128;
                    let mut expected = product.div_euclid(divisor);
                    if product.rem_euclid(divisor) != 0 {
                        expected += 1;
                    }
                    let rates = m.checked_rates(kind).unwrap();
                    assert_eq!(rates.factor, Permille(factor));
                    assert_eq!(
                        rates.effective,
                        Permille((rate as i128 * factor as i128).div_euclid(1_000) as i64)
                    );
                    assert_eq!(
                        rates.per_tick,
                        Souls(expected as i64),
                        "alive {} rate {} factor {}",
                        alive,
                        rate,
                        factor
                    );
                }
            }
        }
    }
}
