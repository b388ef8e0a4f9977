use vstd::prelude::*;

use crate::fighter::{advanced, Fighter};

verus! {

/// No two fighters of `fs` share an identifier.
pub open spec fn ids_unique(fs: Seq<Fighter>) -> bool {
    forall|i: int, j: int| 0 <= i < j < fs.len() ==> #[trigger] fs[i].id@ != #[trigger] fs[j].id@
}

/// Some fighter of `fs` is registered under `id`.
pub open spec fn has_id(fs: Seq<Fighter>, id: Seq<char>) -> bool {
    exists|i: int| 0 <= i < fs.len() && #[trigger] fs[i].id@ == id
}

/// `fs` is a well-formed registry: unique identifiers, every fighter in its
/// domain.
pub open spec fn registry_wf(fs: Seq<Fighter>) -> bool {
    &&& ids_unique(fs)
    &&& forall|i: int| 0 <= i < fs.len() ==> #[trigger] fs[i].wf()
}

/// What rebuilding an engine from the fighters `fs` yields: the same fighters
/// when they form a well-formed registry, nothing otherwise.
pub open spec fn restored(fs: Seq<Fighter>) -> Option<Seq<Fighter>> {
    if registry_wf(fs) {
        Some(fs)
    } else {
        None
    }
}

/// The registry of fighters and the tick that advances them.
pub struct GameEngine {
    all_fighters: Vec<Fighter>,
    ended: bool,
}

impl View for GameEngine {
    /// The registered fighters, in registration order.
    type V = Seq<Fighter>;

    closed spec fn view(&self) -> Seq<Fighter> {
        self.all_fighters@
    }
}

impl GameEngine {
    pub const MIN_X_COORD: u32 = 0;
    pub const MAX_X_COORD: u32 = 375500;
    pub const MIN_Y_COORD: u32 = 0;
    pub const MAX_Y_COORD: u32 = 375500;
    pub const HEADING_FULL_CIRCLE: u32 = 360;
    pub const HEADING_HALF_CIRCLE: u32 = 180;

    pub open spec fn wf(&self) -> bool {
        registry_wf(self@)
    }

    /// The termination flag.
    pub closed spec fn ended(&self) -> bool {
        self.ended
    }

    /// An engine with no fighters, not ended.
    pub fn new() -> (r: GameEngine)
        ensures
            r.wf(),
            r@ == Seq::<Fighter>::empty(),
            !r.ended(),
    {
        GameEngine { all_fighters: Vec::new(), ended: false }
    }

    /// Registers `fighter`; fails, changing nothing, when its identifier is
    /// already registered.
    pub fn add_fighter(&mut self, fighter: Fighter) -> (r: bool)
        requires
            old(self).wf(),
            fighter.wf(),
        ensures
            final(self).wf(),
            r == !has_id(old(self)@, fighter.id@),
            r ==> final(self)@ == old(self)@.push(fighter),
            r ==> final(self).ended() == old(self).ended(),
            !r ==> *final(self) == *old(self),
    {
        let n = self.all_fighters.len();
        let mut i: usize = 0;
        while i < n
            invariant
                n == self.all_fighters@.len(),
                0 <= i <= n,
                *self == *old(self),
                self.wf(),
                forall|k: int| 0 <= k < i ==> #[trigger] self.all_fighters@[k].id@ != fighter.id@,
            decreases n - i,
        {
            if self.all_fighters[i].id == fighter.id {
                return false;
            }
            i = i + 1;
        }
        self.all_fighters.push(fighter);
        proof {
            let fs = self.all_fighters@;
            assert forall|a: int, b: int| 0 <= a < b < fs.len() implies #[trigger] fs[a].id@
                != #[trigger] fs[b].id@ by {
                if b == n as int {
                    assert(old(self).all_fighters@[a] == fs[a]);
                } else {
                    assert(old(self).all_fighters@[a] == fs[a]);
                    assert(old(self).all_fighters@[b] == fs[b]);
                }
            }
            assert forall|k: int| 0 <= k < fs.len() implies #[trigger] fs[k].wf() by {
                if k < n as int {
                    assert(old(self).all_fighters@[k] == fs[k]);
                }
            }
        }
        true
    }

    /// The fighter registered under `id`, if any.
    pub fn get_fighter(&self, id: String) -> (r: Option<&Fighter>)
        ensures
            r is Some == has_id(self@, id@),
            r is Some ==> r->0.id@ == id@ && self@.contains(*r->0),
    {
        let n = self.all_fighters.len();
        let mut i: usize = 0;
        while i < n
            invariant
                n == self.all_fighters@.len(),
                0 <= i <= n,
                forall|k: int| 0 <= k < i ==> #[trigger] self.all_fighters@[k].id@ != id@,
            decreases n - i,
        {
            if self.all_fighters[i].id == id {
                return Some(&self.all_fighters[i]);
            }
            i = i + 1;
        }
        None
    }

    /// Advances every fighter once, each on its own.
    pub fn tick<F: Fn(u32, u32) -> (i32, i32)>(&mut self, components: &F)
        requires
            old(self).wf(),
            forall|s: u32, h: u32|
                s <= Fighter::MAX_SPEED && h <= Fighter::MAX_HEADING ==> #[trigger] components.requires((s, h)),
        ensures
            final(self).wf(),
            final(self).ended() == old(self).ended(),
            final(self)@.len() == old(self)@.len(),
            forall|i: int|
                0 <= i < old(self)@.len() ==> advanced(
                    #[trigger] old(self)@[i],
                    final(self)@[i],
                    *components,
                ),
    {
        let n = self.all_fighters.len();
        let mut i: usize = 0;
        while i < n
            invariant
                n == self.all_fighters@.len(),
                n == old(self).all_fighters@.len(),
                0 <= i <= n,
                self.ended == old(self).ended,
                forall|s: u32, h: u32|
                    s <= Fighter::MAX_SPEED && h <= Fighter::MAX_HEADING ==> #[trigger] components.requires((s, h)),
                forall|k: int| 0 <= k < n ==> #[trigger] self.all_fighters@[k].wf(),
                forall|k: int| 0 <= k < n ==> #[trigger] self.all_fighters@[k].id == old(self).all_fighters@[k].id,
                forall|k: int|
                    0 <= k < i ==> advanced(
                        #[trigger] old(self).all_fighters@[k],
                        self.all_fighters@[k],
                        *components,
                    ),
                forall|k: int| i <= k < n ==> #[trigger] self.all_fighters@[k] == old(self).all_fighters@[k],
            decreases n - i,
        {
            self.all_fighters[i].move_fighter(components);
            i = i + 1;
        }
        proof {
            let fs = self.all_fighters@;
            let ofs = old(self).all_fighters@;
            assert forall|a: int, b: int| 0 <= a < b < fs.len() implies #[trigger] fs[a].id@
                != #[trigger] fs[b].id@ by {
                assert(fs[a].id == ofs[a].id);
                assert(fs[b].id == ofs[b].id);
            }
        }
    }

    /// Copies of every registered fighter, in registration order.
    pub fn snapshot(&self) -> (r: Vec<Fighter>)
        ensures
            r@ == self@,
    {
        let n = self.all_fighters.len();
        let mut r: Vec<Fighter> = Vec::new();
        let mut i: usize = 0;
        while i < n
            invariant
                n == self.all_fighters@.len(),
                0 <= i <= n,
                r@ == self.all_fighters@.subrange(0, i as int),
            decreases n - i,
        {
            r.push(self.all_fighters[i].clone());
            i = i + 1;
            assert(r@ =~= self.all_fighters@.subrange(0, i as int));
        }
        assert(r@ =~= self.all_fighters@);
        r
    }

    /// Rebuilds an engine, not ended, from fighters such as a snapshot holds;
    /// fails when two share an identifier or one lies outside its domain.
    pub fn from_snapshot(fighters: Vec<Fighter>) -> (r: Option<GameEngine>)
        ensures
            r matches Some(e) ==> e.wf() && !e.ended(),
            match r {
                Some(e) => restored(fighters@) == Some(e@),
                None => restored(fighters@) is None,
            },
    {
        let mut e = GameEngine::new();
        let n = fighters.len();
        let mut i: usize = 0;
        while i < n
            invariant
                n == fighters@.len(),
                0 <= i <= n,
                e.wf(),
                !e.ended(),
                e@ == fighters@.subrange(0, i as int),
            decreases n - i,
        {
            let f = fighters[i].clone();
            if !f.is_valid() {
                proof {
                    assert(!fighters@[i as int].wf());
                }
                return None;
            }
            if !e.add_fighter(f) {
                proof {
                    let k = choose|k: int| 0 <= k < i && #[trigger] e@[k].id@ == fighters@[i as int].id@;
                    assert(fighters@[k] == e@[k]);
                    assert(!ids_unique(fighters@));
                }
                return None;
            }
            i = i + 1;
            assert(e@ =~= fighters@.subrange(0, i as int));
        }
        assert(e@ =~= fighters@);
        Some(e)
    }

    /// Whether the simulation has been told to stop.
    pub fn is_ended(&self) -> (r: bool)
        ensures
            r == self.ended(),
    {
        self.ended
    }
}

/// Taking a snapshot of a well-formed engine and rebuilding an engine from
/// it gives back exactly the fighters the snapshot was taken from.
pub proof fn lemma_snapshot_round_trip(e: GameEngine)
    requires
        e.wf(),
    ensures
        restored(e@) == Some(e@),
{
}

} // verus!
