use vstd::prelude::*;
use crate::stat::{Stat, StatTrait};

verus! {

/// The closed set of profession kinds.
#[derive(Debug, Clone, Copy, PartialEq, Eq, Structural)]
pub enum ProfessionType {
    WarriorType,
    SorcererType,
    KnightType,
}

impl ProfessionType {
    /// The kind that this kind is effective against.
    pub open spec fn prey(self) -> ProfessionType {
        match self {
            ProfessionType::WarriorType => ProfessionType::KnightType,
            ProfessionType::KnightType => ProfessionType::SorcererType,
            ProfessionType::SorcererType => ProfessionType::WarriorType,
        }
    }

    /// The kind that this kind is suppressed by.
    pub open spec fn predator(self) -> ProfessionType {
        match self {
            ProfessionType::WarriorType => ProfessionType::SorcererType,
            ProfessionType::SorcererType => ProfessionType::KnightType,
            ProfessionType::KnightType => ProfessionType::WarriorType,
        }
    }

    /// The offense score that this kind reads from a vector: magic for a
    /// sorcerer, attack otherwise.
    pub open spec fn offense(self, s: Stat) -> i32 {
        match self {
            ProfessionType::SorcererType => s.magic,
            _ => s.attack,
        }
    }
}

/// Effectiveness forms the cycle warrior, knight, sorcerer, warrior: of two
/// distinct kinds exactly one is effective against the other, the first is
/// never both effective against and suppressed by the second, and
/// suppression is effectiveness read backwards.
pub proof fn lemma_effectiveness_cycle(a: ProfessionType, b: ProfessionType)
    requires
        a != b,
    ensures
        (b == a.prey()) != (b == a.predator()),
        (b == a.prey()) != (a == b.prey()),
        (b == a.predator()) == (a == b.prey()),
        a.prey() != a,
        a.predator() != a,
        a.prey().predator() == a,
        a.predator().prey() == a,
        a.prey().prey().prey() == a,
        ProfessionType::WarriorType.prey() == ProfessionType::KnightType,
        ProfessionType::KnightType.prey() == ProfessionType::SorcererType,
        ProfessionType::SorcererType.prey() == ProfessionType::WarriorType,
        ProfessionType::KnightType.predator() == ProfessionType::WarriorType,
        ProfessionType::SorcererType.predator() == ProfessionType::KnightType,
        ProfessionType::WarriorType.predator() == ProfessionType::SorcererType,
{
}

/// Something that belongs to one profession kind.
pub trait ProfessionKind {
    /// The kind.
    spec fn kind(&self) -> ProfessionType;

    fn profession_type(&self) -> (r: ProfessionType)
        ensures
            r == self.kind(),
    ;
}

/// A profession: a kind in the effectiveness cycle, and a way of reading
/// offense and defense scores from a holder.
pub trait Profession: ProfessionKind {
    /// Whether `profession` is of the kind this one dominates.
    fn effective_against<P: ProfessionKind>(&self, profession: &P) -> (r: bool)
        ensures
            r == (profession.kind() == self.kind().prey()),
    ;

    /// Whether `profession` is of the kind that dominates this one.
    fn suppressed_by<P: ProfessionKind>(&self, profession: &P) -> (r: bool)
        ensures
            r == (profession.kind() == self.kind().predator()),
    ;

    /// The offense score of the holder, as this profession reads it.
    fn attack_points<T: StatTrait>(&self, stat_trait: &T) -> (r: i32)
        ensures
            r == self.kind().offense(stat_trait.current()),
    ;

    /// The defense score of the holder.
    fn defense_points<T: StatTrait>(&self, stat_trait: &T) -> (r: i32)
        ensures
            r == stat_trait.current().defense,
    ;
}

/// The warrior profession.
pub struct Warrior {
    stat: Stat,
}

impl Warrior {
    /// The base vector of this warrior.
    pub closed spec fn base(&self) -> Stat {
        self.stat
    }

    pub fn new() -> (r: Self)
        ensures
            r.base() == (Stat { health: 90, attack: 40, defense: 55, magic: 0 }),
    {
        Warrior { stat: Stat { health: 90, attack: 40, defense: 55, magic: 0 } }
    }

    /// The base vector.
    pub fn stat(&self) -> (r: Stat)
        ensures
            r == self.base(),
    {
        self.stat
    }
}

impl ProfessionKind for Warrior {
    open spec fn kind(&self) -> ProfessionType {
        ProfessionType::WarriorType
    }

    fn profession_type(&self) -> (r: ProfessionType) {
        ProfessionType::WarriorType
    }
}

impl Profession for Warrior {
    fn effective_against<P: ProfessionKind>(&self, profession: &P) -> (r: bool) {
        matches!(profession.profession_type(), ProfessionType::KnightType)
    }

    fn suppressed_by<P: ProfessionKind>(&self, profession: &P) -> (r: bool) {
        matches!(profession.profession_type(), ProfessionType::SorcererType)
    }

    fn attack_points<T: StatTrait>(&self, stat_trait: &T) -> (r: i32) {
        stat_trait.get_stat().attack
    }

    fn defense_points<T: StatTrait>(&self, stat_trait: &T) -> (r: i32) {
        stat_trait.get_stat().defense
    }
}

/// The sorcerer profession.
pub struct Sorcerer {
    stat: Stat,
}

impl Sorcerer {
    /// The base vector of this sorcerer.
    pub closed spec fn base(&self) -> Stat {
        self.stat
    }

    pub fn new() -> (r: Self)
        ensures
            r.base() == (Stat { health: 70, attack: 0, defense: 20, magic: 50 }),
    {
        Sorcerer { stat: Stat { health: 70, attack: 0, defense: 20, magic: 50 } }
    }

    /// The base vector.
    pub fn stat(&self) -> (r: Stat)
        ensures
            r == self.base(),
    {
        self.stat
    }
}

impl ProfessionKind for Sorcerer {
    open spec fn kind(&self) -> ProfessionType {
        ProfessionType::SorcererType
    }

    fn profession_type(&self) -> (r: ProfessionType) {
        ProfessionType::SorcererType
    }
}

impl Profession for Sorcerer {
    fn effective_against<P: ProfessionKind>(&self, profession: &P) -> (r: bool) {
        matches!(profession.profession_type(), ProfessionType::WarriorType)
    }

    fn suppressed_by<P: ProfessionKind>(&self, profession: &P) -> (r: bool) {
        matches!(profession.profession_type(), ProfessionType::KnightType)
    }

    fn attack_points<T: StatTrait>(&self, stat_trait: &T) -> (r: i32) {
        stat_trait.get_stat().magic
    }

    fn defense_points<T: StatTrait>(&self, stat_trait: &T) -> (r: i32) {
        stat_trait.get_stat().defense
    }
}

/// The knight profession.
pub struct Knight {
    stat: Stat,
}

impl Knight {
    /// The base vector of this knight.
    pub closed spec fn base(&self) -> Stat {
        self.stat
    }

    pub fn new() -> (r: Self)
        ensures
            r.base() == (Stat { health: 100, attack: 40, defense: 30, magic: 0 }),
    {
        Knight { stat: Stat { health: 100, attack: 40, defense: 30, magic: 0 } }
    }

    /// The base vector.
    pub fn stat(&self) -> (r: Stat)
        ensures
            r == self.base(),
    {
        self.stat
    }
}

impl ProfessionKind for Knight {
    open spec fn kind(&self) -> ProfessionType {
        ProfessionType::KnightType
    }

    fn profession_type(&self) -> (r: ProfessionType) {
        ProfessionType::KnightType
    }
}

impl Profession for Knight {
    fn effective_against<P: ProfessionKind>(&self, profession: &P) -> (r: bool) {
        matches!(profession.profession_type(), ProfessionType::SorcererType)
    }

    fn suppressed_by<P: ProfessionKind>(&self, profession: &P) -> (r: bool) {
        matches!(profession.profession_type(), ProfessionType::WarriorType)
    }

    fn attack_points<T: StatTrait>(&self, stat_trait: &T) -> (r: i32) {
        stat_trait.get_stat().attack
    }

    fn defense_points<T: StatTrait>(&self, stat_trait: &T) -> (r: i32) {
        stat_trait.get_stat().defense
    }
}

} // verus!
