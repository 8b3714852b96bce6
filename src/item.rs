use vstd::prelude::*;
use crate::stat::{Stat, StatTrait};

verus! {

/// An equippable item: applying it adds its fixed delta to a holder's vector.
pub trait ItemTrait {
    /// The fixed delta this item adds.
    spec fn delta(&self) -> Stat;

    /// The delta this item adds.
    fn stat(&self) -> (r: Stat)
        ensures
            r == self.delta(),
    ;

    /// Reads the holder's vector, adds the delta and writes the sum back.
    fn create_effect<T: StatTrait>(&self, target: &mut T)
        requires
            self.delta().add_fits(old(target).current()),
        ensures
            final(target).current() == self.delta().plus(old(target).current()),
    ;
}

/// A helmet: ten defense.
pub struct Helmet {
    stat: Stat,
}

impl Helmet {
    pub fn new() -> (r: Self)
        ensures
            r.delta() == (Stat { health: 0, attack: 0, defense: 10, magic: 0 }),
    {
        Helmet { stat: Stat { health: 0, attack: 0, defense: 10, magic: 0 } }
    }
}

impl ItemTrait for Helmet {
    closed spec fn delta(&self) -> Stat {
        self.stat
    }

    fn stat(&self) -> (r: Stat) {
        self.stat
    }

    fn create_effect<T: StatTrait>(&self, target: &mut T) {
        let current = target.get_stat();
        target.set_stat(self.stat + current);
    }
}

/// A chest plate: fifteen defense.
pub struct ChestPlate {
    stat: Stat,
}

impl ChestPlate {
    pub fn new() -> (r: Self)
        ensures
            r.delta() == (Stat { health: 0, attack: 0, defense: 15, magic: 0 }),
    {
        ChestPlate { stat: Stat { health: 0, attack: 0, defense: 15, magic: 0 } }
    }
}

impl ItemTrait for ChestPlate {
    closed spec fn delta(&self) -> Stat {
        self.stat
    }

    fn stat(&self) -> (r: Stat) {
        self.stat
    }

    fn create_effect<T: StatTrait>(&self, target: &mut T) {
        let current = target.get_stat();
        target.set_stat(self.stat + current);
    }
}

/// A pair of leggings: ten defense.
pub struct Leggings {
    stat: Stat,
}

impl Leggings {
    pub fn new() -> (r: Self)
        ensures
            r.delta() == (Stat { health: 0, attack: 0, defense: 10, magic: 0 }),
    {
        Leggings { stat: Stat { health: 0, attack: 0, defense: 10, magic: 0 } }
    }
}

impl ItemTrait for Leggings {
    closed spec fn delta(&self) -> Stat {
        self.stat
    }

    fn stat(&self) -> (r: Stat) {
        self.stat
    }

    fn create_effect<T: StatTrait>(&self, target: &mut T) {
        let current = target.get_stat();
        target.set_stat(self.stat + current);
    }
}

/// A sword: fifteen attack and four defense.
pub struct Sword {
    stat: Stat,
}

impl Sword {
    pub fn new() -> (r: Self)
        ensures
            r.delta() == (Stat { health: 0, attack: 15, defense: 4, magic: 0 }),
    {
        Sword { stat: Stat { health: 0, attack: 15, defense: 4, magic: 0 } }
    }
}

impl ItemTrait for Sword {
    closed spec fn delta(&self) -> Stat {
        self.stat
    }

    fn stat(&self) -> (r: Stat) {
        self.stat
    }

    fn create_effect<T: StatTrait>(&self, target: &mut T) {
        let current = target.get_stat();
        target.set_stat(self.stat + current);
    }
}

/// A blood bag: thirty health.
pub struct BloodBag {
    stat: Stat,
}

impl BloodBag {
    pub fn new() -> (r: Self)
        ensures
            r.delta() == (Stat { health: 30, attack: 0, defense: 0, magic: 0 }),
    {
        BloodBag { stat: Stat { health: 30, attack: 0, defense: 0, magic: 0 } }
    }
}

impl ItemTrait for BloodBag {
    closed spec fn delta(&self) -> Stat {
        self.stat
    }

    fn stat(&self) -> (r: Stat) {
        self.stat
    }

    fn create_effect<T: StatTrait>(&self, target: &mut T) {
        let current = target.get_stat();
        target.set_stat(self.stat + current);
    }
}

/// A wand: seventy magic.
pub struct Wand {
    stat: Stat,
}

impl Wand {
    pub fn new() -> (r: Self)
        ensures
            r.delta() == (Stat { health: 0, attack: 0, defense: 0, magic: 70 }),
    {
        Wand { stat: Stat { health: 0, attack: 0, defense: 0, magic: 70 } }
    }
}

impl ItemTrait for Wand {
    closed spec fn delta(&self) -> Stat {
        self.stat
    }

    fn stat(&self) -> (r: Stat) {
        self.stat
    }

    fn create_effect<T: StatTrait>(&self, target: &mut T) {
        let current = target.get_stat();
        target.set_stat(self.stat + current);
    }
}

/// Applying an item twice to a holder that starts at the zero vector leaves
/// the holder at exactly twice the item's delta.
pub proof fn lemma_apply_twice_doubles<I: ItemTrait>(item: &I)
    requires
        item.delta().add_fits(item.delta()),
    ensures
        item.delta().add_fits(Stat::zero()),
        item.delta().add_fits(item.delta().plus(Stat::zero())),
        item.delta().plus(item.delta().plus(Stat::zero())) == (Stat {
            health: (2 * item.delta().health) as i32,
            attack: (2 * item.delta().attack) as i32,
            defense: (2 * item.delta().defense) as i32,
            magic: (2 * item.delta().magic) as i32,
        }),
{
}

} // verus!
