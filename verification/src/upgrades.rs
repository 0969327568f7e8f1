//! Upgrades: one-time purchases that raise the yield of items.

use vstd::prelude::*;
use vstd::std_specs::cmp::PartialEqSpecImpl;
use crate::catalog::item_none;
use crate::catalog::item_none_spec;
use crate::items::ItemSpec;
use crate::items::YieldKind;
use crate::permille::Permille;
use crate::registry::Key;
use crate::registry::Keyed;
use crate::units::Souls;

verus! {

/// What an upgrade adds to the yield factors of one item.
#[derive(Clone, Copy, Debug)]
pub struct UpgradeEffect {
    /// The item whose yield is raised.
    pub spec: ItemSpec,
    /// What is added to the factor of the item's yield per click.
    pub spc_mod: Option<Permille>,
    /// What is added to the factor of the item's yield per month.
    pub spt_mod: Option<Permille>,
}

/// What the catalog says of an upgrade. Two specifications are the same
/// upgrade when their identities are equal.
#[derive(Debug)]
pub struct UpgradeSpec {
    pub id: i64,
    pub cost: Souls,
    pub name: &'static str,
    pub desc: &'static str,
    pub effects: Vec<UpgradeEffect>,
}

/// An upgrade as the player holds it. Once bought it stays bought.
#[derive(Debug)]
pub struct Upgrade {
    pub spec: UpgradeSpec,
    pub revealed: bool,
    pub bought: bool,
}

/// The effects that are active against one item, in the order in which
/// their upgrades were bought.
#[derive(Debug)]
pub struct EffectList {
    /// Identity of the item.
    pub target: i64,
    pub effects: Vec<UpgradeEffect>,
}

/// The effects that are active against one item, as the rules see them.
#[verifier::ext_equal]
pub struct Bucket {
    pub target: i64,
    pub effects: Seq<UpgradeEffect>,
}

impl View for EffectList {
    type V = Bucket;

    open spec fn view(&self) -> Bucket {
        Bucket { target: self.target, effects: self.effects@ }
    }
}

impl Key for Bucket {
    open spec fn key(&self) -> i64 {
        self.target
    }
}

impl Key for EffectList {
    open spec fn key(&self) -> i64 {
        self.target
    }
}

impl Keyed for EffectList {
    fn id(&self) -> (k: i64) {
        self.target
    }
}

impl Key for Upgrade {
    open spec fn key(&self) -> i64 {
        self.spec.id
    }
}

impl Keyed for Upgrade {
    fn id(&self) -> (k: i64) {
        self.spec.id
    }
}

impl PartialEq for UpgradeSpec {
    fn eq(&self, rhs: &Self) -> (r: bool) {
        self.id == rhs.id
    }
}

impl PartialEqSpecImpl for UpgradeSpec {
    open spec fn obeys_eq_spec() -> bool {
        true
    }

    open spec fn eq_spec(&self, rhs: &Self) -> bool {
        self.id == rhs.id
    }
}

impl Eq for UpgradeSpec {

}

impl Default for UpgradeEffect {
    /// The effect on the catalog's placeholder item that changes nothing.
    fn default() -> (e: UpgradeEffect)
        ensures
            e == (UpgradeEffect { spec: item_none_spec(), spc_mod: None, spt_mod: None }),
    {
        UpgradeEffect { spec: item_none(), spc_mod: None, spt_mod: None }
    }
}

impl UpgradeEffect {
    /// What the effect adds to the factor of the yield `kind`, in
    /// thousandths: nothing where it names no modifier for it.
    pub open spec fn modifier(self, kind: YieldKind) -> int {
        match kind {
            YieldKind::Click => match self.spc_mod {
                Some(m) => m.0 as int,
                None => 0,
            },
            YieldKind::Tick => match self.spt_mod {
                Some(m) => m.0 as int,
                None => 0,
            },
        }
    }

    /// The effect on `spec` that changes nothing.
    pub fn new(spec: ItemSpec) -> (e: UpgradeEffect)
        ensures
            e == (UpgradeEffect { spec, spc_mod: None, spt_mod: None }),
    {
        UpgradeEffect { spec, spc_mod: None, spt_mod: None }
    }
}

impl UpgradeSpec {
    /// Whether the specification is the upgrade without a name that costs
    /// one soul and has no effect, with the identity `id`.
    pub open spec fn is_blank(&self, id: i64) -> bool {
        &&& self.id == id
        &&& self.cost == Souls(1)
        &&& self.name == "<missing>"
        &&& self.desc == ""
        &&& self.effects@ == Seq::<UpgradeEffect>::empty()
    }

    /// The upgrade without a name that costs one soul and has no effect,
    /// with the identity `id`.
    pub fn new(id: i64) -> (s: UpgradeSpec)
        ensures
            s.is_blank(id),
    {
        UpgradeSpec { id, cost: Souls(1), name: "<missing>", desc: "", effects: Vec::new() }
    }

    /// The player's holding of the upgrade: neither revealed nor bought.
    pub fn instantiate(self) -> (u: Upgrade)
        ensures
            u.spec == self,
            !u.revealed,
            !u.bought,
    {
        Upgrade { spec: self, revealed: false, bought: false }
    }
}

} // verus!
