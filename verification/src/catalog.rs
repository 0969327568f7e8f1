//! The catalog: the items, upgrades and events of the game, each under a
//! fixed identity.

use vstd::prelude::*;
use crate::events::EventSpec;
use crate::items::ItemCategory;
use crate::items::ItemSpec;
use crate::permille::Permille;
use crate::units::Souls;
use crate::upgrades::UpgradeEffect;
use crate::upgrades::UpgradeSpec;

verus! {

// Identities of the catalog's items.
pub const ITEM_NONE: i64 = 1;

pub const INTERN: i64 = 2;

pub const BAILIFF: i64 = 3;

pub const COLLECTION_AGENCY: i64 = 4;

pub const COLLECTION_MULTINATIONAL: i64 = 5;

pub const BANKER: i64 = 6;

pub const ACCOUNTANT: i64 = 7;

pub const SURVIVAL_INSTINCT: i64 = 8;

pub const KILLER_INSTINCT: i64 = 9;

pub const SOUL_FISSION: i64 = 10;

pub const SOUL_FISSION_2: i64 = 11;

pub const PLAGUE_SMALL: i64 = 12;

pub const PLAGUE_LARGE: i64 = 13;

/// The placeholder that stands where no item is meant.
pub open spec fn item_none_spec() -> ItemSpec {
    ItemSpec::blank(ITEM_NONE)
}

/// The placeholder that stands where no item is meant.
pub fn item_none() -> (s: ItemSpec)
    ensures
        s == item_none_spec(),
{
    ItemSpec::new(ITEM_NONE)
}

/// An intern: harvests one more soul per click.
pub open spec fn intern_spec() -> ItemSpec {
    ItemSpec {
        name: "Intern",
        category: ItemCategory::Harvest,
        desc: "A pair of extra sickle-wielding hands.",
        cost: Souls(25),
        spc: Some(Souls(1)),
        ..ItemSpec::blank(INTERN)
    }
}

/// An intern: harvests one more soul per click.
pub fn intern() -> (s: ItemSpec)
    ensures
        s == intern_spec(),
{
    ItemSpec {
        name: "Intern",
        category: ItemCategory::Harvest,
        desc: "A pair of extra sickle-wielding hands.",
        cost: Souls(25),
        spc: Some(Souls(1)),
        ..ItemSpec::new(INTERN)
    }
}

/// A bailiff: harvests thirty souls per month.
pub open spec fn bailiff_spec() -> ItemSpec {
    ItemSpec {
        name: "Bailiff",
        category: ItemCategory::Harvest,
        desc: "Collecting souls was a logical next career step.",
        cost: Souls(1_500),
        spt: Some(Souls(30)),
        ..ItemSpec::blank(BAILIFF)
    }
}

/// A bailiff: harvests thirty souls per month.
pub fn bailiff() -> (s: ItemSpec)
    ensures
        s == bailiff_spec(),
{
    ItemSpec {
        name: "Bailiff",
        category: ItemCategory::Harvest,
        desc: "Collecting souls was a logical next career step.",
        cost: Souls(1_500),
        spt: Some(Souls(30)),
        ..ItemSpec::new(BAILIFF)
    }
}

/// A collection agency: harvests five thousand souls per month.
pub open spec fn collection_agency_spec() -> ItemSpec {
    ItemSpec {
        name: "Collection agency",
        category: ItemCategory::Harvest,
        desc: "Sharing a coffee machine cuts down costs. It's about the small efficiencies!",
        cost: Souls(120_000),
        spt: Some(Souls(5_000)),
        ..ItemSpec::blank(COLLECTION_AGENCY)
    }
}

/// A collection agency: harvests five thousand souls per month.
pub fn collection_agency() -> (s: ItemSpec)
    ensures
        s == collection_agency_spec(),
{
    ItemSpec {
        name: "Collection agency",
        category: ItemCategory::Harvest,
        desc: "Sharing a coffee machine cuts down costs. It's about the small efficiencies!",
        cost: Souls(120_000),
        spt: Some(Souls(5_000)),
        ..ItemSpec::new(COLLECTION_AGENCY)
    }
}

/// A collection multinational: harvests twenty-five thousand souls per month.
pub open spec fn collection_multinational_spec() -> ItemSpec {
    ItemSpec {
        name: "Collection multinational",
        category: ItemCategory::Harvest,
        desc: "Very efficient at collecting souls",
        cost: Souls(2_000_000),
        spt: Some(Souls(25_000)),
        ..ItemSpec::blank(COLLECTION_MULTINATIONAL)
    }
}

/// A collection multinational: harvests twenty-five thousand souls per month.
pub fn collection_multinational() -> (s: ItemSpec)
    ensures
        s == collection_multinational_spec(),
{
    ItemSpec {
        name: "Collection multinational",
        category: ItemCategory::Harvest,
        desc: "Very efficient at collecting souls",
        cost: Souls(2_000_000),
        spt: Some(Souls(25_000)),
        ..ItemSpec::new(COLLECTION_MULTINATIONAL)
    }
}

/// A banker, with a monthly interest of 1%.
pub open spec fn banker_spec() -> ItemSpec {
    ItemSpec {
        name: "Banker",
        category: ItemCategory::Finance,
        desc: "Increases your total souls by 1% every month.",
        cost: Souls(30_000),
        interest: Some(Permille(10)),
        ..ItemSpec::blank(BANKER)
    }
}

/// A banker, with a monthly interest of 1%.
pub fn banker() -> (s: ItemSpec)
    ensures
        s == banker_spec(),
{
    ItemSpec {
        name: "Banker",
        category: ItemCategory::Finance,
        desc: "Increases your total souls by 1% every month.",
        cost: Souls(30_000),
        interest: Some(Permille(10)),
        ..ItemSpec::new(BANKER)
    }
}

/// An accountant, with a remittance bonus of 1%.
pub open spec fn accountant_spec() -> ItemSpec {
    ItemSpec {
        name: "Accountant",
        category: ItemCategory::Finance,
        desc: "Remits 2% more souls on every transaction... on paper",
        cost: Souls(45_000),
        remit_mod: Some(Permille(10)),
        ..ItemSpec::blank(ACCOUNTANT)
    }
}

/// An accountant, with a remittance bonus of 1%.
pub fn accountant() -> (s: ItemSpec)
    ensures
        s == accountant_spec(),
{
    ItemSpec {
        name: "Accountant",
        category: ItemCategory::Finance,
        desc: "Remits 2% more souls on every transaction... on paper",
        cost: Souls(45_000),
        remit_mod: Some(Permille(10)),
        ..ItemSpec::new(ACCOUNTANT)
    }
}

/// An initiative that raises the birth rate by 1%.
pub open spec fn survival_instinct_spec() -> ItemSpec {
    ItemSpec {
        name: "Fertility rates",
        category: ItemCategory::Initiatives,
        desc: "",
        cost: Souls(250),
        br_mod: Some(Permille(10)),
        ..ItemSpec::blank(SURVIVAL_INSTINCT)
    }
}

/// An initiative that raises the birth rate by 1%.
pub fn survival_instinct() -> (s: ItemSpec)
    ensures
        s == survival_instinct_spec(),
{
    ItemSpec {
        name: "Fertility rates",
        category: ItemCategory::Initiatives,
        desc: "",
        cost: Souls(250),
        br_mod: Some(Permille(10)),
        ..ItemSpec::new(SURVIVAL_INSTINCT)
    }
}

/// An initiative that raises the death rate by 1%.
pub open spec fn killer_instinct_spec() -> ItemSpec {
    ItemSpec {
        name: "Killer instinct",
        category: ItemCategory::Initiatives,
        desc: "",
        cost: Souls(100),
        dr_mod: Some(Permille(10)),
        ..ItemSpec::blank(KILLER_INSTINCT)
    }
}

/// An initiative that raises the death rate by 1%.
pub fn killer_instinct() -> (s: ItemSpec)
    ensures
        s == killer_instinct_spec(),
{
    ItemSpec {
        name: "Killer instinct",
        category: ItemCategory::Initiatives,
        desc: "",
        cost: Souls(100),
        dr_mod: Some(Permille(10)),
        ..ItemSpec::new(KILLER_INSTINCT)
    }
}

/// A one-time doubling of the population.
pub open spec fn soul_fission_spec() -> ItemSpec {
    ItemSpec {
        name: "Soul fission",
        category: ItemCategory::Events,
        desc: "Double the population",
        cost: Souls(400),
        pop_multiplier: Some(Permille(2_000)),
        unique: true,
        ..ItemSpec::blank(SOUL_FISSION)
    }
}

/// A one-time doubling of the population.
pub fn soul_fission() -> (s: ItemSpec)
    ensures
        s == soul_fission_spec(),
{
    ItemSpec {
        name: "Soul fission",
        category: ItemCategory::Events,
        desc: "Double the population",
        cost: Souls(400),
        pop_multiplier: Some(Permille(2_000)),
        unique: true,
        ..ItemSpec::new(SOUL_FISSION)
    }
}

/// A second, dearer one-time doubling of the population.
pub open spec fn soul_fission_2_spec() -> ItemSpec {
    ItemSpec {
        name: "Soul fission 2",
        category: ItemCategory::Events,
        desc: "Double the population",
        cost: Souls(50_000),
        pop_multiplier: Some(Permille(2_000)),
        unique: true,
        ..ItemSpec::blank(SOUL_FISSION_2)
    }
}

/// A second, dearer one-time doubling of the population.
pub fn soul_fission_2() -> (s: ItemSpec)
    ensures
        s == soul_fission_2_spec(),
{
    ItemSpec {
        name: "Soul fission 2",
        category: ItemCategory::Events,
        desc: "Double the population",
        cost: Souls(50_000),
        pop_multiplier: Some(Permille(2_000)),
        unique: true,
        ..ItemSpec::new(SOUL_FISSION_2)
    }
}

/// A one-time plague that kills 90% of the population.
pub open spec fn plague_small_spec() -> ItemSpec {
    ItemSpec {
        name: "Small Plague",
        category: ItemCategory::Events,
        desc: "Kill 90% of the population.\n\nMore souls for you!",
        cost: Souls(400),
        pop_kill_ratio: Some(Permille(900)),
        unique: true,
        ..ItemSpec::blank(PLAGUE_SMALL)
    }
}

/// A one-time plague that kills 90% of the population.
pub fn plague_small() -> (s: ItemSpec)
    ensures
        s == plague_small_spec(),
{
    ItemSpec {
        name: "Small Plague",
        category: ItemCategory::Events,
        desc: "Kill 90% of the population.\n\nMore souls for you!",
        cost: Souls(400),
        pop_kill_ratio: Some(Permille(900)),
        unique: true,
        ..ItemSpec::new(PLAGUE_SMALL)
    }
}

/// A one-time plague that kills 99% of the population.
pub open spec fn plague_large_spec() -> ItemSpec {
    ItemSpec {
        name: "Large Plague",
        category: ItemCategory::Events,
        desc: "Kill 99% of the population.\n\nTough luck!",
        cost: Souls(80_000),
        pop_kill_ratio: Some(Permille(990)),
        unique: true,
        ..ItemSpec::blank(PLAGUE_LARGE)
    }
}

/// A one-time plague that kills 99% of the population.
pub fn plague_large() -> (s: ItemSpec)
    ensures
        s == plague_large_spec(),
{
    ItemSpec {
        name: "Large Plague",
        category: ItemCategory::Events,
        desc: "Kill 99% of the population.\n\nTough luck!",
        cost: Souls(80_000),
        pop_kill_ratio: Some(Permille(990)),
        unique: true,
        ..ItemSpec::new(PLAGUE_LARGE)
    }
}

// Identities of the catalog's upgrades.
pub const PAID_INTERNS: i64 = 14;

pub const INTERN_RAISE_1: i64 = 15;

pub const ARMED_BAILIFFS: i64 = 16;

pub const PAID_INTERNS_DESC: &'static str =
    "It's not like you have a fiber of morality in your ethereal body, but..\ninterns do work at least 50% harder when paid";

pub const ARMED_BAILIFFS_DESC: &'static str =
    "Bailiffs come armed with shotguns, increasing efficiency by 50%.";

/// Interns work half as hard again per click.
pub open spec fn paid_interns_effect() -> UpgradeEffect {
    UpgradeEffect { spec: intern_spec(), spc_mod: Some(Permille(500)), spt_mod: None }
}

/// Whether `s` is the upgrade of the catalog with the identity `PAID_INTERNS`.
pub open spec fn is_paid_interns(s: UpgradeSpec) -> bool {
    &&& s.id == PAID_INTERNS
    &&& s.cost == Souls(1_000)
    &&& s.name == "Paid interns"
    &&& s.desc == PAID_INTERNS_DESC
    &&& s.effects@ == seq![paid_interns_effect()]
}

/// Interns work half as hard again per click.
pub fn paid_interns() -> (s: UpgradeSpec)
    ensures
        is_paid_interns(s),
{
    let mut effects: Vec<UpgradeEffect> = Vec::new();
    effects.push(UpgradeEffect { spec: intern(), spc_mod: Some(Permille(500)), spt_mod: None });
    UpgradeSpec { id: PAID_INTERNS, cost: Souls(1_000), name: "Paid interns", desc: PAID_INTERNS_DESC, effects }
}

/// Interns work half as hard again per click, once more.
pub open spec fn intern_raise_1_effect() -> UpgradeEffect {
    UpgradeEffect { spec: intern_spec(), spc_mod: Some(Permille(500)), spt_mod: None }
}

/// Whether `s` is the upgrade of the catalog with the identity `INTERN_RAISE_1`.
pub open spec fn is_intern_raise_1(s: UpgradeSpec) -> bool {
    &&& s.id == INTERN_RAISE_1
    &&& s.cost == Souls(10_000)
    &&& s.name == "Double intern pay"
    &&& s.desc == PAID_INTERNS_DESC
    &&& s.effects@ == seq![intern_raise_1_effect()]
}

/// Interns work half as hard again per click, once more.
pub fn intern_raise_1() -> (s: UpgradeSpec)
    ensures
        is_intern_raise_1(s),
{
    let mut effects: Vec<UpgradeEffect> = Vec::new();
    effects.push(UpgradeEffect { spec: intern(), spc_mod: Some(Permille(500)), spt_mod: None });
    UpgradeSpec { id: INTERN_RAISE_1, cost: Souls(10_000), name: "Double intern pay", desc: PAID_INTERNS_DESC, effects }
}

/// Bailiffs harvest half as much again per month.
pub open spec fn armed_bailiffs_effect() -> UpgradeEffect {
    UpgradeEffect { spec: bailiff_spec(), spt_mod: Some(Permille(500)), spc_mod: None }
}

/// Whether `s` is the upgrade of the catalog with the identity `ARMED_BAILIFFS`.
pub open spec fn is_armed_bailiffs(s: UpgradeSpec) -> bool {
    &&& s.id == ARMED_BAILIFFS
    &&& s.cost == Souls(50_000)
    &&& s.name == "Armed bailiffs"
    &&& s.desc == ARMED_BAILIFFS_DESC
    &&& s.effects@ == seq![armed_bailiffs_effect()]
}

/// Bailiffs harvest half as much again per month.
pub fn armed_bailiffs() -> (s: UpgradeSpec)
    ensures
        is_armed_bailiffs(s),
{
    let mut effects: Vec<UpgradeEffect> = Vec::new();
    effects.push(UpgradeEffect { spec: bailiff(), spt_mod: Some(Permille(500)), spc_mod: None });
    UpgradeSpec { id: ARMED_BAILIFFS, cost: Souls(50_000), name: "Armed bailiffs", desc: ARMED_BAILIFFS_DESC, effects }
}

// Identities of the catalog's events.
pub const WELCOME: i64 = 17;

pub const HELLO_FROM_HELL: i64 = 18;

/// The greatest identity that the catalog uses: a seed from which further
/// identities can be drawn.
pub const LAST_ID: i64 = 18;

pub const WELCOME_NAME: &'static str = "Welcome to Death Inc.";

pub const WELCOME_DESC: &'static str =
    "You are Death.\n\nEvery day, humans die, leaving a corpse and a soul.\n\nYour job is to collect souls, so their loved ones can bury the corpse.\n\nLet's get started, yes?";

pub const HELLO_FROM_HELL_NAME: &'static str = "Hello from hell";

pub const HELLO_FROM_HELL_DESC: &'static str =
    "Hi!\n\nWe've noticed some humans have started straying from the path of light.\n\nNo biggie, just send them straight to us!\n\nThanks,\n- Dark Lord";

/// The event shown at the start of a game.
pub open spec fn welcome_spec() -> EventSpec {
    EventSpec { id: WELCOME, name: WELCOME_NAME, desc: WELCOME_DESC }
}

/// The event shown at the start of a game.
pub fn welcome() -> (s: EventSpec)
    ensures
        s == welcome_spec(),
{
    EventSpec { id: WELCOME, name: WELCOME_NAME, desc: WELCOME_DESC }
}

/// The event that the first bailiff brings.
pub open spec fn hello_from_hell_spec() -> EventSpec {
    EventSpec { id: HELLO_FROM_HELL, name: HELLO_FROM_HELL_NAME, desc: HELLO_FROM_HELL_DESC }
}

/// The event that the first bailiff brings.
pub fn hello_from_hell() -> (s: EventSpec)
    ensures
        s == hello_from_hell_spec(),
{
    EventSpec { id: HELLO_FROM_HELL, name: HELLO_FROM_HELL_NAME, desc: HELLO_FROM_HELL_DESC }
}

} // verus!
