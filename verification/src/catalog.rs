//! The catalog: every upgrade of the game, found by its id.

use crate::upgrade::{Upgrade, UpgradeView};
use vstd::hash_map::StringHashMap;
use vstd::prelude::*;

verus! {

/// Whether every definition in the map is filed under its own id.
pub open spec fn filed_by_id(definitions: Map<Seq<char>, UpgradeView>) -> bool {
    forall|id: Seq<char>| #[trigger]
        definitions.contains_key(id) ==> definitions[id].id == id
}

/// The definitions of a list, found by id. Where two entries of the list
/// carry the same id, the later one replaces the earlier.
pub open spec fn last_definitions(list: Seq<UpgradeView>) -> Map<Seq<char>, UpgradeView>
    decreases list.len(),
{
    if list.len() == 0 {
        Map::empty()
    } else {
        last_definitions(list.drop_last()).insert(list.last().id, list.last())
    }
}

/// Whether `id` is one of the listed ids.
pub open spec fn lists(ids: Seq<String>, id: Seq<char>) -> bool {
    exists|i: int| 0 <= i < ids.len() && #[trigger] ids[i]@ == id
}

/// Whether no id is listed twice.
pub open spec fn lists_once(ids: Seq<String>) -> bool {
    forall|i: int, j: int| 0 <= i < j < ids.len() ==> #[trigger] ids[i]@ != #[trigger] ids[j]@
}

/// The mathematical values of a list of definitions.
pub open spec fn upgrade_views(list: Seq<Upgrade>) -> Seq<UpgradeView> {
    list.map_values(|upgrade: Upgrade| upgrade@)
}

/// All upgrade definitions of a game, each under its id. A catalog is made
/// once, from a list, and never changes.
pub struct Catalog {
    /// The definitions, by id.
    by_id: StringHashMap<Upgrade>,
    /// The ids in the order in which they were first filed.
    ids: Vec<String>,
}

impl View for Catalog {
    type V = Map<Seq<char>, UpgradeView>;

    closed spec fn view(&self) -> Map<Seq<char>, UpgradeView> {
        self.by_id@.map_values(|upgrade: Upgrade| upgrade@)
    }
}

impl Catalog {
    /// The list of ids names each filed definition once, and each
    /// definition is filed under its own id.
    #[verifier::type_invariant]
    spec fn consistent(self) -> bool {
        &&& lists_once(self.ids@)
        &&& forall|id: Seq<char>| #[trigger]
            self.by_id@.contains_key(id) <==> lists(self.ids@, id)
        &&& forall|id: Seq<char>| #[trigger]
            self.by_id@.contains_key(id) ==> self.by_id@[id].id@ == id
    }

    /// A catalog without definitions.
    pub fn new() -> (catalog: Self)
        ensures
            catalog@ == Map::<Seq<char>, UpgradeView>::empty(),
    {
        Catalog { by_id: StringHashMap::new(), ids: Vec::new() }
    }

    /// Returns true if a definition is filed under the id.
    pub fn contains_key(&self, id: &str) -> (found: bool)
        ensures
            found == self@.contains_key(id@),
    {
        self.by_id.contains_key(id)
    }

    /// Returns the definition filed under the id, if there is one.
    pub fn get(&self, id: &str) -> (found: Option<&Upgrade>)
        ensures
            found is Some <==> self@.contains_key(id@),
            found matches Some(upgrade) ==> upgrade@ == self@[id@] && upgrade@.id == id@,
    {
        proof {
            use_type_invariant(self);
        }
        self.by_id.get(id)
    }

    /// Returns the ids under which definitions are filed, each once. Nothing
    /// is promised about their order.
    pub fn ids(&self) -> (ids: &Vec<String>)
        ensures
            lists_once(ids@),
            forall|id: Seq<char>| #[trigger] self@.contains_key(id) <==> lists(ids@, id),
            filed_by_id(self@),
    {
        proof {
            use_type_invariant(self);
        }
        &self.ids
    }
}

/// Files each definition of the list under its id. Where two definitions
/// carry the same id, the later one replaces the earlier.
pub fn load_upgrades(upgrades: Vec<Upgrade>) -> (catalog: Catalog)
    ensures
        catalog@ == last_definitions(upgrade_views(upgrades@)),
{
    let ghost list = upgrade_views(upgrades@);
    let mut by_id: StringHashMap<Upgrade> = StringHashMap::new();
    let mut ids: Vec<String> = Vec::new();
    for upgrade in iter: upgrades
        invariant
            list == upgrade_views(iter.seq()),
            lists_once(ids@),
            forall|id: Seq<char>| #[trigger] by_id@.contains_key(id) <==> lists(ids@, id),
            forall|id: Seq<char>| #[trigger] by_id@.contains_key(id) ==> by_id@[id].id@ == id,
            by_id@.map_values(|upgrade: Upgrade| upgrade@) == last_definitions(
                list.take(iter.index() as int),
            ),
    {
        let ghost listed = ids@;
        let ghost id = upgrade.id@;
        let ghost at = iter.index() as int;
        let known = by_id.contains_key(upgrade.id.as_str());
        let key = upgrade.id.clone();
        if !known {
            let entry = upgrade.id.clone();
            ids.push(entry);
        }
        by_id.insert(key, upgrade);
        proof {
            assert(list.take(at + 1).drop_last() =~= list.take(at));
            assert forall|other: Seq<char>| #[trigger]
                by_id@.contains_key(other) <==> lists(ids@, other) by {
                if lists(listed, other) {
                    let i = choose|i: int| 0 <= i < listed.len() && #[trigger] listed[i]@ == other;
                    assert(ids@[i]@ == other);
                }
                if !known && other == id {
                    assert(ids@[listed.len() as int]@ == other);
                }
            }
        }
    }
    proof {
        assert(list.take(list.len() as int) =~= list);
    }
    Catalog { by_id, ids }
}

} // verus!
