//! The character sheet and the arithmetic of ability scores.

use crate::text::ascii_upper;
use crate::text::reads_as;
use vstd::prelude::*;

verus! {

/// The six abilities of a character.
#[derive(Clone, Copy, Debug, PartialEq, Eq, Structural)]
pub enum Ability {
    Strength,
    Dexterity,
    Constitution,
    Intelligence,
    Wisdom,
    Charisma,
}

/// One score for each ability.
#[derive(Clone, Copy, Debug)]
pub struct AbilityScores {
    pub str: i32,
    pub dex: i32,
    pub con: i32,
    pub int_: i32,
    pub wis: i32,
    pub cha: i32,
}

/// Half of `x`, rounded toward zero.
pub open spec fn half_toward_zero(x: int) -> int {
    if x >= 0 {
        x / 2
    } else {
        -((-x) / 2)
    }
}

impl AbilityScores {
    /// The score of one ability.
    pub open spec fn score(self, ability: Ability) -> int {
        match ability {
            Ability::Strength => self.str as int,
            Ability::Dexterity => self.dex as int,
            Ability::Constitution => self.con as int,
            Ability::Intelligence => self.int_ as int,
            Ability::Wisdom => self.wis as int,
            Ability::Charisma => self.cha as int,
        }
    }

    /// The modifier of one ability: half of what the score is above ten,
    /// rounded toward zero.
    pub open spec fn modifier_of(self, ability: Ability) -> int {
        half_toward_zero(self.score(ability) - 10)
    }

    /// The modifier of one ability.
    pub fn modifier(&self, ability: Ability) -> (r: i32)
        ensures
            r == self.modifier_of(ability),
    {
        let score: i32 = match ability {
            Ability::Strength => self.str,
            Ability::Dexterity => self.dex,
            Ability::Constitution => self.con,
            Ability::Intelligence => self.int_,
            Ability::Wisdom => self.wis,
            Ability::Charisma => self.cha,
        };
        let above_ten: i64 = score as i64 - 10;
        (above_ten / 2) as i32
    }
}

/// A player character's sheet.
#[derive(Clone, Debug)]
pub struct Character {
    pub name: String,
    pub level: u8,
    pub abilities: AbilityScores,
    pub max_hp: i32,
    pub current_hp: i32,
    pub ac: i32,
    pub proficiency_bonus: i32,
}

/// What a character sheet says.
pub struct CharacterModel {
    pub name: Seq<char>,
    pub level: int,
    pub abilities: AbilityScores,
    pub max_hp: int,
    pub current_hp: int,
    pub ac: int,
    pub proficiency_bonus: int,
}

impl CharacterModel {
    /// What the character adds to an attack roll: the Strength modifier and
    /// the proficiency bonus.
    pub open spec fn attack_bonus(self) -> int {
        self.abilities.modifier_of(Ability::Strength) + self.proficiency_bonus
    }

    /// Whether the character still stands.
    pub open spec fn alive(self) -> bool {
        self.current_hp > 0
    }
}

impl View for Character {
    type V = CharacterModel;

    open spec fn view(&self) -> CharacterModel {
        CharacterModel {
            name: self.name@,
            level: self.level as int,
            abilities: self.abilities,
            max_hp: self.max_hp as int,
            current_hp: self.current_hp as int,
            ac: self.ac as int,
            proficiency_bonus: self.proficiency_bonus as int,
        }
    }
}

/// The ability that a name stands for. A name is a three-letter code or the
/// full word, in any mix of upper and lower case; any other text names none.
pub open spec fn parse_ability(name: Seq<char>) -> Option<Ability> {
    let upper = ascii_upper(name);
    if upper == "STR"@ || upper == "STRENGTH"@ {
        Some(Ability::Strength)
    } else if upper == "DEX"@ || upper == "DEXTERITY"@ {
        Some(Ability::Dexterity)
    } else if upper == "CON"@ || upper == "CONSTITUTION"@ {
        Some(Ability::Constitution)
    } else if upper == "INT"@ || upper == "INTELLIGENCE"@ {
        Some(Ability::Intelligence)
    } else if upper == "WIS"@ || upper == "WISDOM"@ {
        Some(Ability::Wisdom)
    } else if upper == "CHA"@ || upper == "CHARISMA"@ {
        Some(Ability::Charisma)
    } else {
        None
    }
}

/// Reads the name of an ability.
pub fn ability_from_str(s: &str) -> (r: Option<Ability>)
    ensures
        r == parse_ability(s@),
{
    if reads_as(s, "STR") || reads_as(s, "STRENGTH") {
        Some(Ability::Strength)
    } else if reads_as(s, "DEX") || reads_as(s, "DEXTERITY") {
        Some(Ability::Dexterity)
    } else if reads_as(s, "CON") || reads_as(s, "CONSTITUTION") {
        Some(Ability::Constitution)
    } else if reads_as(s, "INT") || reads_as(s, "INTELLIGENCE") {
        Some(Ability::Intelligence)
    } else if reads_as(s, "WIS") || reads_as(s, "WISDOM") {
        Some(Ability::Wisdom)
    } else if reads_as(s, "CHA") || reads_as(s, "CHARISMA") {
        Some(Ability::Charisma)
    } else {
        None
    }
}

} // verus!
