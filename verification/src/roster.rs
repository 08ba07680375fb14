//! The combatant roster: character classes and pet types, and the role
//! predicates the class AIs key on.
use vstd::prelude::*;

verus! {

/// A combatant's character class. A pet carries its owner's class.
#[derive(Clone, Copy, Debug, PartialEq, Eq, Structural)]
pub enum CharacterClass {
    Warrior,
    Mage,
    Rogue,
    Priest,
    Warlock,
    Paladin,
    Hunter,
    Shaman,
}

/// The pet a Hunter or Warlock commands.
#[derive(Clone, Copy, Debug, PartialEq, Eq, Structural)]
pub enum PetType {
    Felhunter,
    Spider,
    Boar,
    Bird,
}

impl CharacterClass {
    /// Healing classes: Priest, Paladin and Shaman.
    pub open spec fn spec_is_healer(self) -> bool {
        self == CharacterClass::Priest || self == CharacterClass::Paladin
            || self == CharacterClass::Shaman
    }

    /// Classes that must stand in melee reach to deal damage: Warrior, Rogue
    /// and Paladin.
    pub open spec fn spec_is_melee(self) -> bool {
        self == CharacterClass::Warrior || self == CharacterClass::Rogue
            || self == CharacterClass::Paladin
    }

    /// Classes whose melee warrants kiting: Warrior and Rogue only. The
    /// Paladin's melee is not a kiting pressure threat.
    pub open spec fn spec_is_kite_threat(self) -> bool {
        self == CharacterClass::Warrior || self == CharacterClass::Rogue
    }

    /// The rage user, which turns damage taken into rage: the Warrior.
    pub open spec fn spec_gains_rage_from_damage(self) -> bool {
        self == CharacterClass::Warrior
    }

    /// Classes with casts worth a Kick → hold → Kidney Shot chain: Mage,
    /// Priest, Warlock and Paladin.
    pub open spec fn spec_is_spellcaster(self) -> bool {
        self == CharacterClass::Mage || self == CharacterClass::Priest
            || self == CharacterClass::Warlock || self == CharacterClass::Paladin
    }

    pub fn is_healer(&self) -> (r: bool)
        ensures
            r == self.spec_is_healer(),
    {
        matches!(self, CharacterClass::Priest | CharacterClass::Paladin | CharacterClass::Shaman)
    }

    pub fn is_melee(&self) -> (r: bool)
        ensures
            r == self.spec_is_melee(),
    {
        matches!(self, CharacterClass::Warrior | CharacterClass::Rogue | CharacterClass::Paladin)
    }

    /// A class whose melee damage warrants kiting (Warrior, Rogue).
    pub fn is_kite_threat(&self) -> (r: bool)
        ensures
            r == self.spec_is_kite_threat(),
    {
        matches!(self, CharacterClass::Warrior | CharacterClass::Rogue)
    }

    /// Does damage taken feed this class's resource? Only the Warrior's rage.
    pub fn gains_rage_from_damage(&self) -> (r: bool)
        ensures
            r == self.spec_gains_rage_from_damage(),
    {
        matches!(self, CharacterClass::Warrior)
    }

    /// Classes the Rogue reserves Kidney Shot for (Mage, Priest, Warlock,
    /// Paladin); Warrior, Rogue and Hunter are stunned aggressively instead.
    pub fn is_spellcaster(&self) -> (r: bool)
        ensures
            r == self.spec_is_spellcaster(),
    {
        matches!(
            self,
            CharacterClass::Mage | CharacterClass::Priest | CharacterClass::Warlock
                | CharacterClass::Paladin
        )
    }
}

impl PetType {
    /// The stable name of a pet type, as trace events print it.
    pub open spec fn spec_name(self) -> Seq<char> {
        match self {
            PetType::Felhunter => "Felhunter"@,
            PetType::Spider => "Spider"@,
            PetType::Boar => "Boar"@,
            PetType::Bird => "Bird"@,
        }
    }

    /// Render a pet type into a stable string for pet-decision events.
    pub fn name(&self) -> (r: &'static str)
        ensures
            r@ == self.spec_name(),
    {
        match self {
            PetType::Felhunter => "Felhunter",
            PetType::Spider => "Spider",
            PetType::Boar => "Boar",
            PetType::Bird => "Bird",
        }
    }
}

/// Kiting is narrower than melee: every kite threat is a melee class, and the
/// Paladin is melee without being one.
pub proof fn lemma_kite_threats_are_melee(c: CharacterClass)
    ensures
        c.spec_is_kite_threat() ==> c.spec_is_melee(),
        CharacterClass::Paladin.spec_is_melee() && !CharacterClass::Paladin.spec_is_kite_threat(),
{
}

} // verus!
