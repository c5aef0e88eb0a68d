//! Upgrade definitions: what the shop sells.

use crate::currency::{lemma_same_funds_same_wallet, Currency, Funds};
use crate::multiplier::Multiplier;
use crate::ticket::{Category, Difficulty};
use vstd::prelude::*;
use vstd::std_specs::cmp::PartialEqSpecImpl;

verus! {

/// Possible effects that improvements can have
#[derive(Clone, Copy, Debug, PartialEq, Eq, Structural)]
pub enum Effects {
    /// factor by which the click multiplier grows
    IncMultiplier(Multiplier),
    /// factor by which the cash multiplier grows
    IncCashMultiplier(Multiplier),
    /// factor by which the XP multiplier grows
    IncXPMultiplier(Multiplier),
    /// which tickets can be autosolved
    AutoSolve(Difficulty, Category),
}

/// Information needed for buying/applying upgrades
/// This is just data that is loaded once, when a game starts
#[derive(Debug)]
pub struct Upgrade {
    /// Unique ID for the upgrade (internal)
    pub id: String,
    /// Name of the upgrade (for display)
    pub name: String,
    /// Upgrade description
    pub desc: String,
    /// Cost in cash + xp
    pub cost: Currency,
    /// ID of upgrades that are needed before this becomes available
    pub requires: Vec<String>,
    /// What the upgrade actually does
    pub effects: Vec<Effects>,
}

/// An upgrade definition as a mathematical value.
#[verifier::ext_equal]
pub struct UpgradeView {
    pub id: Seq<char>,
    pub name: Seq<char>,
    pub desc: Seq<char>,
    pub cost: Funds,
    pub requires: Seq<Seq<char>>,
    pub effects: Seq<Effects>,
}

impl View for Upgrade {
    type V = UpgradeView;

    open spec fn view(&self) -> UpgradeView {
        UpgradeView {
            id: self.id@,
            name: self.name@,
            desc: self.desc@,
            cost: self.cost@,
            requires: self.requires.deep_view(),
            effects: self.effects@,
        }
    }
}

/// Returns true if the two lists hold the same ids in the same order.
fn same_ids(left: &Vec<String>, right: &Vec<String>) -> (same: bool)
    ensures
        same == (left.deep_view() == right.deep_view()),
{
    if left.len() != right.len() {
        assert(left.deep_view().len() != right.deep_view().len());
        return false;
    }
    let mut i: usize = 0;
    while i < left.len()
        invariant
            i <= left.len(),
            left.len() == right.len(),
            forall|j: int| 0 <= j < i ==> left[j]@ == right[j]@,
        decreases left.len() - i,
    {
        if left[i] != right[i] {
            assert(left.deep_view()[i as int] != right.deep_view()[i as int]);
            return false;
        }
        i += 1;
    }
    assert(left.deep_view() =~= right.deep_view());
    true
}

/// Returns true if the two lists hold the same effects in the same order.
fn same_effects(left: &Vec<Effects>, right: &Vec<Effects>) -> (same: bool)
    ensures
        same == (left@ == right@),
{
    if left.len() != right.len() {
        return false;
    }
    let mut i: usize = 0;
    while i < left.len()
        invariant
            i <= left.len(),
            left.len() == right.len(),
            forall|j: int| 0 <= j < i ==> left[j] == right[j],
        decreases left.len() - i,
    {
        if left[i] != right[i] {
            return false;
        }
        i += 1;
    }
    assert(left@ =~= right@);
    true
}

impl PartialEq for Upgrade {
    /// Two definitions are equal when all that they hold is equal.
    fn eq(&self, other: &Self) -> (equal: bool) {
        proof {
            lemma_same_funds_same_wallet(self.cost, other.cost);
        }
        self.id == other.id && self.name == other.name && self.desc == other.desc && self.cost
            == other.cost && same_ids(&self.requires, &other.requires) && same_effects(
            &self.effects,
            &other.effects,
        )
    }
}

impl PartialEqSpecImpl for Upgrade {
    open spec fn obeys_eq_spec() -> bool {
        true
    }

    open spec fn eq_spec(&self, other: &Self) -> bool {
        self@ == other@
    }
}

impl Clone for Upgrade {
    fn clone(&self) -> (copy: Self)
        ensures
            copy@ == self@,
    {
        Upgrade {
            id: self.id.clone(),
            name: self.name.clone(),
            desc: self.desc.clone(),
            cost: self.cost,
            requires: self.requires.clone(),
            effects: self.effects.clone(),
        }
    }
}

} // verus!
