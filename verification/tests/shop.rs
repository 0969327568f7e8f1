use death_inc::catalog;
use death_inc::events::Event;
use death_inc::events::EventSpec;
use death_inc::items::Item;
use death_inc::items::ItemCategory;
use death_inc::items::ItemSpec;
use death_inc::model::Model;
use death_inc::model::Msg;
use death_inc::permille::Permille;
use death_inc::registry::Registry;
use death_inc::units::Souls;
use death_inc::upgrades::UpgradeSpec;

fn quiet() -> Model {
    Model::new(Souls(1_000_000), Permille(0), Permille(0), false)
}

fn item(id: i64, quantity: i64) -> Item {
    ItemSpec::new(id).instantiate(quantity)
}

#[test]
fn a_registry_keeps_the_order_of_first_insertion() {
    let mut r: Registry<Item> = Registry::new();
    assert_eq!(r.len(), 0);
    r.insert(item(30, 1));
    r.insert(item(10, 2));
    r.insert(item(20, 3));
    assert_eq!(r.len(), 3);
    assert_eq!(r.get(0).spec.id, 30);
    assert_eq!(r.get(1).spec.id, 10);
    assert_eq!(r.get(2).spec.id, 20);
    assert_eq!(r.position(10), Some(1));
    assert_eq!(r.position(20), Some(2));
    assert_eq!(r.position(30), Some(0));
    assert_eq!(r.position(40), None);
}

#[test]
fn a_registry_replaces_an_entry_in_its_place() {
    let mut r: Registry<Item> = Registry::new();
    r.insert(item(30, 1));
    r.insert(item(10, 2));
    r.insert(item(30, 7));
    assert_eq!(r.len(), 2);
    assert_eq!(r.get(0).spec.id, 30);
    assert_eq!(r.get(0).quantity, 7);
    assert_eq!(r.get(1).quantity, 2);
    assert_eq!(r.position(30), Some(0));
}

#[test]
fn a_registry_entry_can_be_changed_in_place() {
    let mut r: Registry<Event> = Registry::new();
    r.insert(EventSpec::new(5).instantiate());
    r.insert(EventSpec::new(6).instantiate());
    r.get_mut(1).consumed = true;
    assert!(!r.get(0).consumed);
    assert!(r.get(1).consumed);
    assert_eq!(r.position(6), Some(1));
}

#[test]
fn an_item_added_again_takes_the_place_of_the_first() {
    let mut m = quiet();
    m.add_item(ItemSpec::new(100), 0);
    m.add_item(ItemSpec::new(101), 0);
    m.add_item(ItemSpec::new(100), 5);
    assert_eq!(m.items.len(), 2);
    assert_eq!(m.item_quantity(100), 5);
    assert!(m.items.get(0).revealed);
}

#[test]
fn the_shelf_shows_the_revealed_items_of_its_category() {
    let mut m = quiet();
    m.add_item(ItemSpec { category: ItemCategory::Harvest, ..ItemSpec::new(100) }, 1);
    m.add_item(ItemSpec { category: ItemCategory::Finance, ..ItemSpec::new(101) }, 1);
    m.add_item(ItemSpec { category: ItemCategory::Harvest, ..ItemSpec::new(102) }, 0);
    m.add_item(ItemSpec { category: ItemCategory::Harvest, ..ItemSpec::new(103) }, 2);
    let shown: Vec<i64> = m.visible_items(ItemCategory::Harvest).iter().map(|i| i.spec.id).collect();
    assert_eq!(shown, vec![100, 103]);
    let shown: Vec<i64> = m.visible_items(ItemCategory::Finance).iter().map(|i| i.spec.id).collect();
    assert_eq!(shown, vec![101]);
    assert!(m.visible_items(ItemCategory::Events).is_empty());
}

#[test]
fn the_shop_offers_the_upgrades_revealed_and_not_bought() {
    let mut m = quiet();
    m.add_upgrade(UpgradeSpec { cost: Souls(10), ..UpgradeSpec::new(200) });
    m.add_upgrade(UpgradeSpec { cost: Souls(1_000), ..UpgradeSpec::new(201) });
    m.add_upgrade(UpgradeSpec { cost: Souls(12), ..UpgradeSpec::new(202) });
    assert!(m.visible_upgrades().is_empty());
    m.souls = Souls(6);
    m.update_upgrades_reveal();
    assert_eq!(m.visible_upgrades(), vec![0, 2]);
    assert!(m.update(Msg::PurchaseUpgrade { spec: 200 }));
    assert_eq!(m.visible_upgrades(), vec![2]);
}

#[test]
fn the_remittance_bar_offers_one_a_quarter_and_all() {
    let mut m = quiet();
    assert!(m.remit_offers().is_empty());
    m.souls = Souls(1);
    assert_eq!(m.remit_offers(), vec![Souls(1), Souls(1)]);
    m.souls = Souls(3);
    assert_eq!(m.remit_offers(), vec![Souls(1), Souls(3)]);
    m.souls = Souls(103);
    assert_eq!(m.remit_offers(), vec![Souls(1), Souls(25), Souls(103)]);
}

#[test]
fn the_shop_sells_what_the_balance_covers() {
    let mut m = quiet();
    m.souls = Souls(40);
    let fifteen = ItemSpec { cost: Souls(15), ..ItemSpec::new(100) }.instantiate(0);
    assert!(!m.purchase_disabled(&fifteen, 1));
    assert!(!m.purchase_disabled(&fifteen, 2));
    assert!(m.purchase_disabled(&fifteen, 3));
    assert!(m.purchase_disabled(&fifteen, 10));
    m.souls = Souls(49);
    assert!(!m.purchase_disabled(&fifteen, 3));
    let dear = ItemSpec { cost: Souls(i64::MAX), ..ItemSpec::new(101) }.instantiate(0);
    assert!(m.purchase_disabled(&dear, 2));
}

#[test]
fn the_shop_offers_one_or_ten_units() {
    let ordinary = ItemSpec::new(100).instantiate(3);
    assert_eq!(ordinary.purchase_sizes(), vec![1, 10]);
    let unique = ItemSpec { unique: true, ..ItemSpec::new(101) };
    assert_eq!(unique.instantiate(0).purchase_sizes(), vec![1]);
    assert!(unique.instantiate(1).purchase_sizes().is_empty());
}

#[test]
fn bought_upgrades_keep_what_the_catalog_says() {
    let mut m = quiet();
    m.add_item(catalog::intern(), 2);
    m.add_upgrade(catalog::paid_interns());
    m.add_upgrade(catalog::intern_raise_1());
    assert!(m.update(Msg::PurchaseUpgrade { spec: catalog::PAID_INTERNS }));
    assert!(m.update(Msg::PurchaseUpgrade { spec: catalog::INTERN_RAISE_1 }));
    assert_eq!(m.upgrades.get(0).spec.name, "Paid interns");
    assert_eq!(m.upgrades.get(1).spec.name, "Double intern pay");
    assert!(m.upgrades.get(0).bought && m.upgrades.get(1).bought);
    // 1 + floor(1 * 2.0) * 2
    assert_eq!(m.souls_per_click(), Souls(5));
}
