use helpdesk_clicker::rules::RuleSet;
use helpdesk_clicker::ticket::{Category, Difficulty};

const DIFFICULTIES: [Difficulty; 3] = [Difficulty::Easy, Difficulty::Med, Difficulty::Hard];
const CATEGORIES: [Category; 5] =
    [Category::Network, Category::Windows, Category::Linux, Category::Web, Category::Misc];

#[test]
fn new_rule_set_is_empty() {
    let rules = RuleSet::new();
    for difficulty in DIFFICULTIES {
        for category in CATEGORIES {
            assert!(!rules.contains(difficulty, category));
        }
    }
    assert!(rules.to_vec().is_empty());
}

#[test]
fn insert_adds_one_kind() {
    for difficulty in DIFFICULTIES {
        for category in CATEGORIES {
            let mut rules = RuleSet::new();
            rules.insert(difficulty, category);
            for d in DIFFICULTIES {
                for c in CATEGORIES {
                    assert_eq!(rules.contains(d, c), d == difficulty && c == category);
                }
            }
            assert_eq!(rules.to_vec(), vec![(difficulty, category)]);
        }
    }
}

#[test]
fn insert_twice_is_insert_once() {
    let mut once = RuleSet::new();
    once.insert(Difficulty::Med, Category::Linux);
    let mut twice = once;
    twice.insert(Difficulty::Med, Category::Linux);
    assert_eq!(once, twice);
    assert_eq!(twice.to_vec().len(), 1);
}

#[test]
fn to_vec_lists_each_kind_once() {
    let mut rules = RuleSet::new();
    rules.insert(Difficulty::Hard, Category::Misc);
    rules.insert(Difficulty::Easy, Category::Web);
    rules.insert(Difficulty::Hard, Category::Misc);
    rules.insert(Difficulty::Med, Category::Network);
    let kinds = rules.to_vec();
    assert_eq!(kinds.len(), 3);
    assert!(kinds.contains(&(Difficulty::Hard, Category::Misc)));
    assert!(kinds.contains(&(Difficulty::Easy, Category::Web)));
    assert!(kinds.contains(&(Difficulty::Med, Category::Network)));
}

#[test]
fn full_rule_set() {
    let mut rules = RuleSet::new();
    for difficulty in DIFFICULTIES {
        for category in CATEGORIES {
            rules.insert(difficulty, category);
        }
    }
    let kinds = rules.to_vec();
    assert_eq!(kinds.len(), 15);
    for difficulty in DIFFICULTIES {
        for category in CATEGORIES {
            assert!(rules.contains(difficulty, category));
            assert_eq!(kinds.iter().filter(|kind| **kind == (difficulty, category)).count(), 1);
        }
    }
}

#[test]
fn to_vec_goes_by_difficulty_then_category() {
    let mut rules = RuleSet::new();
    rules.insert(Difficulty::Hard, Category::Network);
    rules.insert(Difficulty::Easy, Category::Misc);
    rules.insert(Difficulty::Med, Category::Linux);
    rules.insert(Difficulty::Easy, Category::Windows);
    assert_eq!(
        rules.to_vec(),
        vec![
            (Difficulty::Easy, Category::Windows),
            (Difficulty::Easy, Category::Misc),
            (Difficulty::Med, Category::Linux),
            (Difficulty::Hard, Category::Network),
        ]
    );
}

#[test]
fn rule_sets_compare_by_content() {
    let mut left = RuleSet::new();
    let mut right = RuleSet::new();
    assert!(left == right);
    left.insert(Difficulty::Med, Category::Web);
    assert!(left != right);
    right.insert(Difficulty::Med, Category::Misc);
    assert!(left != right);
    left.insert(Difficulty::Med, Category::Misc);
    right.insert(Difficulty::Med, Category::Web);
    assert!(left == right);
}
