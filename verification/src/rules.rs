//! The set of ticket kinds that solve themselves.

use crate::ticket::{Category, Difficulty};
use vstd::prelude::*;
use vstd::std_specs::cmp::PartialEqSpecImpl;

verus! {

/// One kind of ticket: a difficulty and a category.
pub type Rule = (Difficulty, Category);

/// The place of a kind among the fifteen kinds there are.
pub open spec fn slot(rule: Rule) -> int {
    let row: int = match rule.0 {
        Difficulty::Easy => 0,
        Difficulty::Med => 5,
        Difficulty::Hard => 10,
    };
    let column: int = match rule.1 {
        Category::Network => 0,
        Category::Windows => 1,
        Category::Linux => 2,
        Category::Web => 3,
        Category::Misc => 4,
    };
    row + column
}

fn slot_of(difficulty: Difficulty, category: Category) -> (place: usize)
    ensures
        place == slot((difficulty, category)),
        place < 15,
{
    let row: usize = match difficulty {
        Difficulty::Easy => 0,
        Difficulty::Med => 5,
        Difficulty::Hard => 10,
    };
    let column: usize = match category {
        Category::Network => 0,
        Category::Windows => 1,
        Category::Linux => 2,
        Category::Web => 3,
        Category::Misc => 4,
    };
    row + column
}

fn rule_at(place: usize) -> (rule: Rule)
    requires
        place < 15,
    ensures
        slot(rule) == place,
{
    let difficulty = if place < 5 {
        Difficulty::Easy
    } else if place < 10 {
        Difficulty::Med
    } else {
        Difficulty::Hard
    };
    let column: usize = place % 5;
    let category = if column == 0 {
        Category::Network
    } else if column == 1 {
        Category::Windows
    } else if column == 2 {
        Category::Linux
    } else if column == 3 {
        Category::Web
    } else {
        Category::Misc
    };
    (difficulty, category)
}

/// A set of ticket kinds, one flag for each kind.
#[derive(Debug, Clone, Copy)]
pub struct RuleSet {
    enabled: [bool; 15],
}

impl View for RuleSet {
    type V = Set<Rule>;

    closed spec fn view(&self) -> Set<Rule> {
        Set::new(|rule: Rule| self.enabled@[slot(rule)])
    }
}

impl PartialEq for RuleSet {
    /// Two sets are equal when they hold the same kinds.
    fn eq(&self, other: &Self) -> (equal: bool) {
        let mut place: usize = 0;
        while place < 15
            invariant
                place <= 15,
                forall|i: int| 0 <= i < place ==> self.enabled@[i] == other.enabled@[i],
            decreases 15 - place,
        {
            if self.enabled[place] != other.enabled[place] {
                let rule = rule_at(place);
                assert(self@.contains(rule) != other@.contains(rule));
                return false;
            }
            place += 1;
        }
        assert(self@ =~= other@);
        true
    }
}

impl PartialEqSpecImpl for RuleSet {
    open spec fn obeys_eq_spec() -> bool {
        true
    }

    open spec fn eq_spec(&self, other: &Self) -> bool {
        self@ == other@
    }
}

impl RuleSet {
    /// The empty set.
    pub fn new() -> (rules: Self)
        ensures
            rules@ == Set::<Rule>::empty(),
    {
        RuleSet { enabled: [false; 15] }
    }

    /// Adds a kind to the set. Adding one that is there changes nothing.
    pub fn insert(&mut self, difficulty: Difficulty, category: Category)
        ensures
            final(self)@ == old(self)@.insert((difficulty, category)),
    {
        let place = slot_of(difficulty, category);
        self.enabled[place] = true;
    }

    /// Returns true if the kind is in the set.
    pub fn contains(&self, difficulty: Difficulty, category: Category) -> (found: bool)
        ensures
            found == self@.contains((difficulty, category)),
    {
        let place = slot_of(difficulty, category);
        self.enabled[place]
    }

    /// Returns the kinds in the set, each once: easy before medium before
    /// hard, and within a difficulty in the order network, Windows, Linux,
    /// web, miscellaneous.
    pub fn to_vec(&self) -> (kinds: Vec<Rule>)
        ensures
            kinds@.no_duplicates(),
            kinds@.to_set() == self@,
            forall|i: int, j: int|
                0 <= i < j < kinds.len() ==> slot(#[trigger] kinds[i]) < slot(#[trigger] kinds[j]),
    {
        let mut kinds: Vec<Rule> = Vec::new();
        let mut place: usize = 0;
        while place < 15
            invariant
                place <= 15,
                forall|i: int| 0 <= i < kinds.len() ==> slot(#[trigger] kinds[i]) < place
                    && self@.contains(kinds[i]),
                forall|i: int, j: int|
                    0 <= i < j < kinds.len() ==> slot(#[trigger] kinds[i]) < slot(
                        #[trigger] kinds[j],
                    ),
                forall|rule: Rule|
                    self@.contains(rule) && slot(rule) < place ==> #[trigger] kinds@.contains(rule),
            decreases 15 - place,
        {
            if self.enabled[place] {
                let rule = rule_at(place);
                let ghost before = kinds@;
                kinds.push(rule);
                assert forall|other: Rule|
                    self@.contains(other) && slot(other) < place + 1 implies #[trigger] kinds@.contains(
                    other,
                ) by {
                    if slot(other) < place {
                        assert(before.contains(other));
                        let i = choose|i: int| 0 <= i < before.len() && before[i] == other;
                        assert(kinds@[i] == other);
                    } else {
                        assert(kinds@[before.len() as int] == other);
                    }
                }
            }
            place += 1;
        }
        kinds
    }
}

} // verus!
