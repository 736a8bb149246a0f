//! The entity store: every entity of the game, with what it carries.

use vstd::prelude::*;
use crate::components::{Ball, Bundle, Collider, ComponentSet, Transform, Velocity};

verus! {

/// Names one entity of a store by the place at which it was spawned.
#[derive(Clone, Copy, Debug, PartialEq, Eq, Structural)]
pub struct Entity(pub usize);

/// Owns the bundles of all entities. Entities are spawned and never removed,
/// so an entity names the same bundle for as long as the store lives.
pub struct EntityStore {
    bundles: Vec<Bundle>,
}

/// `i` is the place of the one bundle of `s` that carries all of `set`.
pub open spec fn is_only_match(s: Seq<Bundle>, set: ComponentSet, i: int) -> bool {
    &&& 0 <= i < s.len()
    &&& s[i].carries(set)
    &&& forall|j: int| 0 <= j < s.len() && #[trigger] s[j].carries(set) ==> j == i
}

/// The place of the bundle that carries all of `set`, where exactly one
/// bundle of `s` does; `None` where none does and where several do.
pub open spec fn sole_match(s: Seq<Bundle>, set: ComponentSet) -> Option<int> {
    if exists|i: int| is_only_match(s, set, i) {
        Some(choose|i: int| is_only_match(s, set, i))
    } else {
        None
    }
}

/// `ids` lists the places of all bundles of `s` that carry all of `set`, in
/// rising order.
pub open spec fn lists_matches(s: Seq<Bundle>, set: ComponentSet, ids: Seq<Entity>) -> bool {
    &&& forall|k: int|
        0 <= k < ids.len() ==> (#[trigger] ids[k]).0 < s.len() && s[ids[k].0 as int].carries(set)
    &&& forall|k: int, l: int|
        0 <= k < l < ids.len() ==> (#[trigger] ids[k]).0 < (#[trigger] ids[l]).0
    &&& forall|j: int|
        0 <= j < s.len() && #[trigger] s[j].carries(set) ==> is_listed(ids, j)
}

/// One of `ids` names the place `j`.
pub open spec fn is_listed(ids: Seq<Entity>, j: int) -> bool {
    exists|k: int| 0 <= k < ids.len() && (#[trigger] ids[k]).0 == j
}

/// The only match of a sequence is what `sole_match` finds.
pub proof fn lemma_sole_match_is_only_match(s: Seq<Bundle>, set: ComponentSet, i: int)
    requires
        is_only_match(s, set, i),
    ensures
        sole_match(s, set) == Some(i),
{
    let c = choose|c: int| is_only_match(s, set, c);
    assert(s[i].carries(set));
    assert(c == i);
}

/// Where two different bundles match, no bundle is the only match.
pub proof fn lemma_two_matches_no_sole_match(s: Seq<Bundle>, set: ComponentSet, i: int, j: int)
    requires
        0 <= i < s.len(),
        0 <= j < s.len(),
        i != j,
        s[i].carries(set),
        s[j].carries(set),
    ensures
        sole_match(s, set) is None,
{
    assert forall|k: int| !is_only_match(s, set, k) by {
        if is_only_match(s, set, k) {
            assert(s[i].carries(set));
            assert(s[j].carries(set));
        }
    }
}

/// Where no bundle matches, no bundle is the only match.
pub proof fn lemma_no_match_no_sole_match(s: Seq<Bundle>, set: ComponentSet)
    requires
        forall|i: int| 0 <= i < s.len() ==> !(#[trigger] s[i].carries(set)),
    ensures
        sole_match(s, set) is None,
{
}

/// Asking for the single match is asking for all matches and taking the
/// answer only where it has exactly one entry.
pub proof fn lemma_sole_match_is_query_of_one(s: Seq<Bundle>, set: ComponentSet, ids: Seq<Entity>)
    requires
        lists_matches(s, set, ids),
    ensures
        sole_match(s, set) == if ids.len() == 1 {
            Some(ids[0].0 as int)
        } else {
            None
        },
{
    if ids.len() == 0 {
        assert forall|i: int| 0 <= i < s.len() implies !(#[trigger] s[i].carries(set)) by {
            if s[i].carries(set) {
                assert(is_listed(ids, i));
            }
        }
        lemma_no_match_no_sole_match(s, set);
    } else if ids.len() == 1 {
        let only = ids[0].0 as int;
        assert forall|j: int| 0 <= j < s.len() && #[trigger] s[j].carries(set) implies j
            == only by {
            assert(is_listed(ids, j));
        }
        lemma_sole_match_is_only_match(s, set, only);
    } else {
        assert(ids[0].0 < ids[1].0);
        lemma_two_matches_no_sole_match(s, set, ids[0].0 as int, ids[1].0 as int);
    }
}

impl View for EntityStore {
    type V = Seq<Bundle>;

    /// The bundles of all entities, each at the place that its entity names.
    closed spec fn view(&self) -> Seq<Bundle> {
        self.bundles@
    }
}

impl EntityStore {
    /// A store without entities.
    pub fn new() -> (store: EntityStore)
        ensures
            store@ == Seq::<Bundle>::empty(),
    {
        EntityStore { bundles: Vec::new() }
    }

    /// The number of entities spawned so far.
    pub fn len(&self) -> (n: usize)
        ensures
            n == self@.len(),
    {
        self.bundles.len()
    }

    /// Adds an entity that carries `bundle`, after all earlier ones.
    pub fn spawn(&mut self, bundle: Bundle) -> (entity: Entity)
        ensures
            final(self)@ == old(self)@.push(bundle),
            entity.0 == old(self)@.len(),
    {
        let place: usize = self.bundles.len();
        self.bundles.push(bundle);
        Entity(place)
    }

    /// What `entity` carries, if the store has spawned it.
    pub fn get(&self, entity: Entity) -> (r: Option<Bundle>)
        ensures
            r == if entity.0 < self@.len() {
                Some(self@[entity.0 as int])
            } else {
                None
            },
    {
        if entity.0 < self.bundles.len() {
            Some(self.bundles[entity.0])
        } else {
            None
        }
    }

    /// Moves `entity` to `transform` and leaves all else as it was. Returns
    /// whether the store has spawned `entity`; if not, nothing changes.
    pub fn set_transform(&mut self, entity: Entity, transform: Transform) -> (known: bool)
        ensures
            known == (entity.0 < old(self)@.len()),
            known ==> final(self)@ == old(self)@.update(
                entity.0 as int,
                (Bundle { transform, ..old(self)@[entity.0 as int] }),
            ),
            !known ==> final(self)@ == old(self)@,
    {
        if entity.0 < self.bundles.len() {
            let bundle = self.bundles[entity.0];
            self.bundles.set(entity.0, Bundle { transform, ..bundle });
            true
        } else {
            false
        }
    }

    /// Gives the ball of `entity` the velocity `velocity` and leaves all else
    /// as it was. Returns whether the store has spawned `entity` with a ball;
    /// if not, nothing changes.
    pub fn set_velocity(&mut self, entity: Entity, velocity: Velocity) -> (known: bool)
        ensures
            known == (entity.0 < old(self)@.len() && old(self)@[entity.0 as int].ball is Some),
            known ==> final(self)@ == old(self)@.update(
                entity.0 as int,
                (Bundle { ball: Some(Ball { velocity }), ..old(self)@[entity.0 as int] }),
            ),
            !known ==> final(self)@ == old(self)@,
    {
        if entity.0 < self.bundles.len() {
            let bundle = self.bundles[entity.0];
            if bundle.ball.is_some() {
                self.bundles.set(entity.0, Bundle { ball: Some(Ball { velocity }), ..bundle });
                true
            } else {
                false
            }
        } else {
            false
        }
    }

    /// Takes the collider tag off `entity`, which thereby leaves the play,
    /// and returns the tag. Where `entity` has none, nothing changes.
    pub fn remove_collider(&mut self, entity: Entity) -> (tag: Option<Collider>)
        ensures
            tag == if entity.0 < old(self)@.len() {
                old(self)@[entity.0 as int].collider
            } else {
                None
            },
            entity.0 < old(self)@.len() ==> final(self)@ == old(self)@.update(
                entity.0 as int,
                (Bundle { collider: None, ..old(self)@[entity.0 as int] }),
            ),
            entity.0 >= old(self)@.len() ==> final(self)@ == old(self)@,
    {
        if entity.0 < self.bundles.len() {
            let bundle = self.bundles[entity.0];
            self.bundles.set(entity.0, Bundle { collider: None, ..bundle });
            bundle.collider
        } else {
            None
        }
    }

    /// All entities that carry every component of `set`, in the order in
    /// which they were spawned.
    pub fn query(&self, set: ComponentSet) -> (ids: Vec<Entity>)
        ensures
            lists_matches(self@, set, ids@),
    {
        let mut ids: Vec<Entity> = Vec::new();
        let mut i: usize = 0;
        while i < self.bundles.len()
            invariant
                i <= self.bundles@.len(),
                forall|k: int| 0 <= k < ids@.len() ==> (#[trigger] ids@[k]).0 < i
                    && self.bundles@[ids@[k].0 as int].carries(set),
                forall|k: int, l: int| 0 <= k < l < ids@.len() ==>
                    (#[trigger] ids@[k]).0 < (#[trigger] ids@[l]).0,
                forall|j: int| 0 <= j < i && #[trigger] self.bundles@[j].carries(set) ==>
                    is_listed(ids@, j),
            decreases self.bundles@.len() - i,
        {
            if self.bundles[i].has(set) {
                let ghost before = ids@;
                ids.push(Entity(i));
                proof {
                    assert(ids@[before.len() as int].0 == i);
                    assert forall|j: int| 0 <= j < i + 1 && #[trigger] self.bundles@[j].carries(
                        set,
                    ) implies is_listed(ids@, j) by {
                        if j < i {
                            assert(is_listed(before, j));
                            let k = choose|k: int| 0 <= k < before.len() && before[k].0 == j;
                            assert(ids@[k].0 == j);
                        }
                    }
                }
            }
            i += 1;
        }
        ids
    }

    /// The entity that carries every component of `set`, where exactly one
    /// does. Where none does, and where several do, the answer is `None`.
    pub fn single(&self, set: ComponentSet) -> (r: Option<Entity>)
        ensures
            match r {
                Some(entity) => sole_match(self@, set) == Some(entity.0 as int),
                None => sole_match(self@, set) is None,
            },
            r matches Some(entity) ==> is_only_match(self@, set, entity.0 as int),
    {
        let mut found: Option<usize> = None;
        let mut i: usize = 0;
        while i < self.bundles.len()
            invariant
                i <= self.bundles@.len(),
                match found {
                    Some(k) => k < i && self.bundles@[k as int].carries(set) && forall|j: int|
                        0 <= j < i && #[trigger] self.bundles@[j].carries(set) ==> j == k,
                    None => forall|j: int| 0 <= j < i ==> !(#[trigger] self.bundles@[j].carries(set)),
                },
            decreases self.bundles@.len() - i,
        {
            if self.bundles[i].has(set) {
                match found {
                    Some(k) => {
                        proof {
                            lemma_two_matches_no_sole_match(self@, set, k as int, i as int);
                        }
                        return None;
                    },
                    None => {
                        found = Some(i);
                    },
                }
            }
            i += 1;
        }
        match found {
            Some(k) => {
                proof {
                    lemma_sole_match_is_only_match(self@, set, k as int);
                }
                Some(Entity(k))
            },
            None => {
                proof {
                    lemma_no_match_no_sole_match(self@, set);
                }
                None
            },
        }
    }
}

} // verus!
