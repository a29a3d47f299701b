//! One round of a fight between the hero and a set of monsters.

use crate::dice::DiceRoller;
use crate::rules::Ability;
use crate::rules::Character;
use crate::rules::CharacterModel;
use crate::search::first_index;
use crate::search::is_first;
use crate::search::lemma_first_index;
use crate::search::none_is;
use crate::text::decimal;
use crate::text::render_int;
use vstd::prelude::*;
use vstd::string::StringExecFns;

verus! {

/// A monster in a fight.
#[derive(Clone, Debug)]
pub struct Monster {
    pub name: String,
    pub ac: i32,
    pub max_hp: i32,
    pub current_hp: i32,
    pub attack_bonus: i32,
    pub damage_dice_count: u8,
    pub damage_dice_sides: u8,
}

/// What is known of a monster.
pub struct MonsterModel {
    pub name: Seq<char>,
    pub ac: int,
    pub max_hp: int,
    pub current_hp: int,
    pub attack_bonus: int,
    pub damage_dice_count: u8,
    pub damage_dice_sides: u8,
}

impl MonsterModel {
    /// Whether the monster still stands.
    pub open spec fn alive(self) -> bool {
        self.current_hp > 0
    }

    /// The monster after it lost `damage` hit points.
    pub open spec fn wounded_by(self, damage: int) -> MonsterModel {
        MonsterModel { current_hp: self.current_hp - damage, ..self }
    }

    /// Whether the monster's damage dice can be thrown: a die that is thrown
    /// has at least one side.
    pub open spec fn dice_sound(self) -> bool {
        self.damage_dice_count > 0 ==> self.damage_dice_sides > 0
    }

    /// The most that the monster's damage dice can show.
    pub open spec fn most_damage(self) -> int {
        damage_dealt(self.damage_dice_count * self.damage_dice_sides)
    }
}

impl View for Monster {
    type V = MonsterModel;

    open spec fn view(&self) -> MonsterModel {
        MonsterModel {
            name: self.name@,
            ac: self.ac as int,
            max_hp: self.max_hp as int,
            current_hp: self.current_hp as int,
            attack_bonus: self.attack_bonus as int,
            damage_dice_count: self.damage_dice_count,
            damage_dice_sides: self.damage_dice_sides,
        }
    }
}

/// What is known of each monster, in order.
pub open spec fn monster_models(monsters: Seq<Monster>) -> Seq<MonsterModel> {
    monsters.map_values(|m: Monster| m@)
}

/// The live state of a fight.
#[derive(Clone, Debug)]
pub struct Encounter {
    pub monsters: Vec<Monster>,
    pub in_progress: bool,
}

/// What is known of a fight.
pub struct EncounterModel {
    pub monsters: Seq<MonsterModel>,
    pub in_progress: bool,
}

/// The test for a monster that still stands.
pub open spec fn standing() -> spec_fn(MonsterModel) -> bool {
    |m: MonsterModel| m.alive()
}

/// The place of the first monster that still stands, if any does.
pub open spec fn first_alive(monsters: Seq<MonsterModel>) -> Option<int> {
    first_index(monsters, standing())
}

/// Whether no monster stands.
pub open spec fn all_down(monsters: Seq<MonsterModel>) -> bool {
    none_is(monsters, standing())
}

impl EncounterModel {
    /// Whether the fight is over: it was marked as ended, the hero is down,
    /// or every monster is.
    pub open spec fn is_over(self, hero: CharacterModel) -> bool {
        !self.in_progress || hero.current_hp <= 0 || all_down(self.monsters)
    }

    /// Whether the damage dice of every monster that stands can be thrown.
    pub open spec fn dice_sound(self) -> bool {
        forall|i: int|
            0 <= i < self.monsters.len() && (#[trigger] self.monsters[i]).alive()
                ==> self.monsters[i].dice_sound()
    }
}

impl View for Encounter {
    type V = EncounterModel;

    open spec fn view(&self) -> EncounterModel {
        EncounterModel { monsters: monster_models(self.monsters@), in_progress: self.in_progress }
    }
}

impl Encounter {
    /// Whether the fight is over.
    pub fn is_over(&self, hero: &Character) -> (r: bool)
        ensures
            r == self@.is_over(hero@),
    {
        if !self.in_progress || hero.current_hp <= 0 {
            return true;
        }
        let mut i: usize = 0;
        while i < self.monsters.len()
            invariant
                i <= self.monsters.len(),
                self.in_progress,
                hero.current_hp > 0,
                forall|j: int| 0 <= j < i ==> !(#[trigger] self@.monsters[j]).alive(),
            decreases self.monsters.len() - i,
        {
            if self.monsters[i].current_hp > 0 {
                assert(self@.monsters[i as int].alive());
                return false;
            }
            i += 1;
        }
        true
    }

    /// Whether the damage dice of every monster that stands can be thrown.
    pub fn dice_sound(&self) -> (r: bool)
        ensures
            r == self@.dice_sound(),
    {
        let mut i: usize = 0;
        while i < self.monsters.len()
            invariant
                i <= self.monsters.len(),
                forall|j: int|
                    0 <= j < i && (#[trigger] self@.monsters[j]).alive()
                        ==> self@.monsters[j].dice_sound(),
            decreases self.monsters.len() - i,
        {
            let monster = &self.monsters[i];
            if monster.current_hp > 0 && monster.damage_dice_count > 0
                && monster.damage_dice_sides == 0 {
                assert(self@.monsters[i as int].alive() && !self@.monsters[i as int].dice_sound());
                return false;
            }
            i += 1;
        }
        true
    }

    /// The first monster that still stands, to be changed in place; `None`
    /// when every monster is down.
    pub fn first_alive_monster_mut(&mut self) -> (r: Option<&mut Monster>)
        ensures
            match r {
                Some(m) => {
                    &&& first_alive(old(self)@.monsters) matches Some(i)
                    &&& *m == old(self).monsters@[i]
                    &&& final(self).monsters@ == old(self).monsters@.update(i, *final(m))
                    &&& final(self).in_progress == old(self).in_progress
                },
                None => first_alive(old(self)@.monsters) is None && *final(self) == *old(self),
            },
    {
        let mut i: usize = 0;
        while i < self.monsters.len()
            invariant
                i <= self.monsters.len(),
                *self == *old(self),
                forall|j: int| 0 <= j < i ==> !(#[trigger] self@.monsters[j]).alive(),
            decreases self.monsters.len() - i,
        {
            if self.monsters[i].current_hp > 0 {
                proof {
                    assert(is_first(self@.monsters, standing(), i as int));
                    lemma_first_index(self@.monsters, standing());
                }
                return Some(&mut self.monsters[i]);
            }
            i += 1;
        }
        proof {
            lemma_first_index(self@.monsters, standing());
        }
        None
    }
}

/// Whether an attack lands: the roll and the bonus together reach the
/// target's armor class.
pub open spec fn attack_hits(roll: int, bonus: int, armor_class: int) -> bool {
    roll + bonus >= armor_class
}

/// The damage that a hit deals: what was rolled, and never less than 1.
pub open spec fn damage_dealt(rolled: int) -> int {
    if rolled < 1 {
        1
    } else {
        rolled
    }
}

/// The damage of a hit by the hero whose damage die shows `die`.
pub open spec fn hero_damage(hero: CharacterModel, die: int) -> int {
    damage_dealt(die + hero.abilities.modifier_of(Ability::Strength))
}

/// The report of a hit by the hero.
pub open spec fn hero_hit_line(target: Seq<char>, damage: int) -> Seq<char> {
    "You hit "@ + target + " for "@ + decimal(damage) + " damage!"@
}

/// The report of a miss by the hero.
pub open spec fn hero_miss_line(target: Seq<char>) -> Seq<char> {
    "You miss "@ + target + "."@
}

/// The report of a hit by a monster.
pub open spec fn monster_hit_line(attacker: Seq<char>, damage: int) -> Seq<char> {
    attacker + " hits you for "@ + decimal(damage) + " damage!"@
}

/// The report of a miss by a monster.
pub open spec fn monster_miss_line(attacker: Seq<char>) -> Seq<char> {
    attacker + " misses you."@
}

/// The hero's attack on one monster: the monster afterwards, the report, and
/// the dice afterwards. A twenty-sided die decides whether the attack lands;
/// only if it does, one eight-sided die is thrown for the damage.
pub open spec fn hero_attack_outcome(hero: CharacterModel, monster: MonsterModel, dice: DiceRoller) -> (
    MonsterModel,
    Seq<char>,
    DiceRoller,
) {
    let thrown = dice.after_d20();
    if attack_hits(dice.d20_value(), hero.attack_bonus(), monster.ac) {
        let damage = hero_damage(hero, thrown.roll_total(1, 8));
        (monster.wounded_by(damage), hero_hit_line(monster.name, damage), thrown.after_roll(1, 8))
    } else {
        (monster, hero_miss_line(monster.name), thrown)
    }
}

/// A monster's attack on the hero: the hero's hit points afterwards, the
/// report, and the dice afterwards. A twenty-sided die decides whether the
/// attack lands; only if it does, the monster's damage dice are thrown.
pub open spec fn monster_attack_outcome(monster: MonsterModel, hero: CharacterModel, dice: DiceRoller) -> (
    CharacterModel,
    Seq<char>,
    DiceRoller,
) {
    let thrown = dice.after_d20();
    if attack_hits(dice.d20_value(), monster.attack_bonus, hero.ac) {
        let damage = damage_dealt(
            thrown.roll_total(monster.damage_dice_count as nat, monster.damage_dice_sides),
        );
        (
            CharacterModel { current_hp: hero.current_hp - damage, ..hero },
            monster_hit_line(monster.name, damage),
            thrown.after_roll(monster.damage_dice_count as nat, monster.damage_dice_sides),
        )
    } else {
        (hero, monster_miss_line(monster.name), thrown)
    }
}

/// Whether an attack with this roll and bonus lands on this armor class.
pub fn attack_lands(roll: i32, bonus: i64, armor_class: i32) -> (r: bool)
    ensures
        r == attack_hits(roll as int, bonus as int, armor_class as int),
{
    roll as i128 + bonus as i128 >= armor_class as i128
}

/// The hero's bonus on an attack roll.
pub fn hero_attack_bonus(hero: &Character) -> (r: i64)
    ensures
        r == hero@.attack_bonus(),
{
    hero.abilities.modifier(Ability::Strength) as i64 + hero.proficiency_bonus as i64
}

/// The hero's hit, once it has landed and the damage die has shown `die`:
/// the monster loses the damage, and the report says how much.
pub fn hero_strike(hero: &Character, monster: &mut Monster, die: i32) -> (line: String)
    requires
        old(monster).current_hp - hero_damage(hero@, die as int) >= i32::MIN,
    ensures
        final(monster)@ == old(monster)@.wounded_by(hero_damage(hero@, die as int)),
        line@ == hero_hit_line(old(monster).name@, hero_damage(hero@, die as int)),
        final(monster).current_hp <= old(monster).current_hp - 1,
{
    let rolled: i64 = die as i64 + hero.abilities.modifier(Ability::Strength) as i64;
    let damage: i64 = if rolled < 1 {
        1
    } else {
        rolled
    };
    monster.current_hp = (monster.current_hp as i64 - damage) as i32;
    String::from_str("You hit ").concat(monster.name.as_str()).concat(" for ").concat(
        render_int(damage).as_str(),
    ).concat(" damage!")
}

/// The hero attacks one monster.
pub fn hero_attack(hero: &Character, monster: &mut Monster, dice: &mut DiceRoller) -> (line: String)
    requires
        old(monster).current_hp - hero_damage(hero@, 8) >= i32::MIN,
    ensures
        (final(monster)@, line@, *final(dice)) == hero_attack_outcome(
            hero@,
            old(monster)@,
            *old(dice),
        ),
{
    let roll = dice.d20();
    if attack_lands(roll, hero_attack_bonus(hero), monster.ac) {
        let die = dice.roll(1, 8);
        hero_strike(hero, monster, die)
    } else {
        String::from_str("You miss ").concat(monster.name.as_str()).concat(".")
    }
}

/// A monster's hit, once it has landed and its damage dice have shown
/// `rolled`: the hero loses the damage, and the report says how much.
pub fn monster_strike(monster: &Monster, hero: &mut Character, rolled: i32) -> (line: String)
    requires
        old(hero).current_hp - damage_dealt(rolled as int) >= i32::MIN,
    ensures
        final(hero)@ == (CharacterModel {
            current_hp: old(hero)@.current_hp - damage_dealt(rolled as int),
            ..old(hero)@
        }),
        line@ == monster_hit_line(monster.name@, damage_dealt(rolled as int)),
        final(hero).current_hp <= old(hero).current_hp - 1,
{
    let damage: i32 = if rolled < 1 {
        1
    } else {
        rolled
    };
    hero.current_hp = hero.current_hp - damage;
    String::from_str(monster.name.as_str()).concat(" hits you for ").concat(
        render_int(damage as i64).as_str(),
    ).concat(" damage!")
}

/// A monster attacks the hero.
pub fn monster_attack(monster: &Monster, hero: &mut Character, dice: &mut DiceRoller) -> (line:
    String)
    requires
        monster@.dice_sound(),
        old(hero).current_hp - monster@.most_damage() >= i32::MIN,
    ensures
        (final(hero)@, line@, *final(dice)) == monster_attack_outcome(
            monster@,
            old(hero)@,
            *old(dice),
        ),
{
    let roll = dice.d20();
    if attack_lands(roll, monster.attack_bonus as i64, hero.ac) {
        let rolled = dice.roll(monster.damage_dice_count, monster.damage_dice_sides);
        monster_strike(monster, hero, rolled)
    } else {
        String::from_str(monster.name.as_str()).concat(" misses you.")
    }
}

} // verus!
