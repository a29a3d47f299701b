//! Choices at a combat node: the encounter is raised on first entry, the
//! hero acts, the monsters answer, and the fight is settled once it is over.

use crate::campaign::Campaign;
use crate::campaign::GameState;
use crate::campaign::GameStateModel;
use crate::campaign::MonsterSpecModel;
use crate::campaign::Node;
use crate::campaign::NodeModel;
use crate::combat::damage_dealt;
use crate::combat::first_alive;
use crate::combat::hero_attack;
use crate::combat::hero_attack_outcome;
use crate::combat::monster_attack;
use crate::combat::monster_attack_outcome;
use crate::combat::monster_models;
use crate::combat::standing;
use crate::combat::Encounter;
use crate::combat::EncounterModel;
use crate::combat::Monster;
use crate::combat::MonsterModel;
use crate::dice::DiceRoller;
use crate::narrative::with_log;
use crate::rules::Character;
use crate::rules::CharacterModel;
use crate::search::lemma_first_index;
use crate::text::join;
use crate::text::join_lines;
use crate::text::opt_text;
use crate::text::same_text;
use crate::text::texts;
use vstd::prelude::*;
use vstd::string::StringExecFns;

verus! {

/// The monster that a template reference stands for: the goblin for its
/// canonical name, and for any other reference a generic monster that bears
/// the reference as its name.
pub open spec fn monster_template(reference: Seq<char>) -> MonsterModel {
    if reference == "srd_goblin"@ {
        MonsterModel {
            name: "Goblin"@,
            ac: 15,
            max_hp: 7,
            current_hp: 7,
            attack_bonus: 4,
            damage_dice_count: 1,
            damage_dice_sides: 6,
        }
    } else {
        MonsterModel {
            name: reference,
            ac: 12,
            max_hp: 8,
            current_hp: 8,
            attack_bonus: 3,
            damage_dice_count: 1,
            damage_dice_sides: 6,
        }
    }
}

/// A monster made from a template reference.
pub fn make_monster_from_ref(r: &str) -> (monster: Monster)
    ensures
        monster@ == monster_template(r@),
{
    if same_text(r, "srd_goblin") {
        Monster {
            name: String::from_str("Goblin"),
            ac: 15,
            max_hp: 7,
            current_hp: 7,
            attack_bonus: 4,
            damage_dice_count: 1,
            damage_dice_sides: 6,
        }
    } else {
        Monster {
            name: String::from_str(r),
            ac: 12,
            max_hp: 8,
            current_hp: 8,
            attack_bonus: 3,
            damage_dice_count: 1,
            damage_dice_sides: 6,
        }
    }
}

/// `count` monsters of one template.
pub open spec fn pack(reference: Seq<char>, count: nat) -> Seq<MonsterModel> {
    Seq::new(count, |i: int| monster_template(reference))
}

/// The monsters that a list of entries stands for: each entry's monsters, in
/// the order of the entries.
pub open spec fn muster(entries: Seq<MonsterSpecModel>) -> Seq<MonsterModel>
    decreases entries.len(),
{
    if entries.len() == 0 {
        Seq::empty()
    } else {
        muster(entries.drop_last()) + pack(entries.last().reference, entries.last().count)
    }
}

/// The encounter that a node raises when it is first entered: its monsters
/// at full strength and the fight in progress; none for a node that lists no
/// monsters at all.
pub open spec fn fresh_encounter(node: NodeModel) -> Option<EncounterModel> {
    match node.encounter {
        Some(spec) => Some(EncounterModel { monsters: muster(spec.monsters), in_progress: true }),
        None => None,
    }
}

/// Every monster that is mustered can throw its damage dice.
pub proof fn lemma_muster_dice_sound(entries: Seq<MonsterSpecModel>)
    ensures
        forall|i: int| 0 <= i < muster(entries).len() ==> (#[trigger] muster(entries)[i]).dice_sound(),
    decreases entries.len(),
{
    if entries.len() > 0 {
        lemma_muster_dice_sound(entries.drop_last());
        let earlier = muster(entries.drop_last());
        let all = muster(entries);
        assert forall|i: int| 0 <= i < all.len() implies (#[trigger] all[i]).dice_sound() by {
            let last = pack(entries.last().reference, entries.last().count);
            if i < earlier.len() {
                assert(all[i] == earlier[i]);
            } else {
                assert(all[i] == last[i - earlier.len()]);
            }
        }
    }
}

/// The hero's part of a round: the monsters afterwards, the report, and the
/// dice afterwards. On `attack` the hero attacks the first monster standing,
/// if there is one; `continue` and any other id leave the monsters alone.
pub open spec fn hero_phase(
    hero: CharacterModel,
    monsters: Seq<MonsterModel>,
    choice_id: Seq<char>,
    dice: DiceRoller,
) -> (Seq<MonsterModel>, Seq<char>, DiceRoller) {
    if choice_id == "attack"@ {
        match first_alive(monsters) {
            Some(i) => {
                let (monster, line, thrown) = hero_attack_outcome(hero, monsters[i], dice);
                (monsters.update(i, monster), line, thrown)
            },
            None => (monsters, "There is nothing left to attack."@, dice),
        }
    } else if choice_id == "continue"@ {
        (monsters, "You press on..."@, dice)
    } else {
        (monsters, "Unknown combat choice: "@ + choice_id, dice)
    }
}

/// The monsters' part of a round, from the monster at `from` on: the hero
/// afterwards, one report for each monster that acted, and the dice
/// afterwards. A monster acts if it stands and the hero still stands when its
/// turn comes.
pub open spec fn reprisal(
    monsters: Seq<MonsterModel>,
    from: int,
    hero: CharacterModel,
    dice: DiceRoller,
) -> (CharacterModel, Seq<Seq<char>>, DiceRoller)
    decreases monsters.len() - from,
{
    if from < 0 || from >= monsters.len() {
        (hero, Seq::empty(), dice)
    } else if monsters[from].alive() && hero.alive() {
        let (hurt, line, thrown) = monster_attack_outcome(monsters[from], hero, dice);
        let (last, lines, left) = reprisal(monsters, from + 1, hurt, thrown);
        (last, seq![line] + lines, left)
    } else {
        reprisal(monsters, from + 1, hero, dice)
    }
}

/// How a round ends: the encounter afterwards, the closing report if there
/// is one, and the node to move to if there is one.
///
/// A fight that is not over changes nothing. One that is over is marked as
/// ended; a hero who stands has won and moves to the victory target, or is
/// told that the story has nowhere to go; a hero who is down moves to the
/// defeat target if there is one.
pub open spec fn conclusion(node: NodeModel, hero: CharacterModel, encounter: EncounterModel) -> (
    EncounterModel,
    Seq<Seq<char>>,
    Option<Seq<char>>,
) {
    if encounter.is_over(hero) {
        let ended = EncounterModel { in_progress: false, ..encounter };
        if hero.alive() {
            match node.on_victory {
                Some(next) => (ended, seq!["You won the fight!"@], Some(next)),
                None => (ended, seq!["You have won, but the story has nowhere to go."@], None),
            }
        } else {
            match node.on_defeat {
                Some(next) => (ended, seq!["You have been defeated..."@], Some(next)),
                None => (ended, Seq::empty(), None),
            }
        }
    } else {
        (encounter, Seq::empty(), None)
    }
}

/// A round fought in a given encounter: the state and the dice afterwards.
/// The log holds the hero's report, the monsters' reports and the closing
/// report, one to a line.
pub open spec fn round(
    node: NodeModel,
    state: GameStateModel,
    encounter: EncounterModel,
    choice_id: Seq<char>,
    dice: DiceRoller,
) -> (GameStateModel, DiceRoller) {
    let (monsters, opening, thrown) = hero_phase(
        state.character,
        encounter.monsters,
        choice_id,
        dice,
    );
    let (hero, replies, left) = reprisal(monsters, 0, state.character, thrown);
    let (ended, closing, target) = conclusion(
        node,
        hero,
        EncounterModel { monsters, ..encounter },
    );
    (
        GameStateModel {
            character: hero,
            current_node_id: match target {
                Some(next) => next,
                None => state.current_node_id,
            },
            encounter: Some(ended),
            last_log: Some(join_lines(seq![opening] + replies + closing)),
        },
        left,
    )
}

/// A choice made at a combat node: the state and the dice afterwards. The
/// encounter is the one that the state holds, or else the one that the node
/// raises; a node that raises none is reported.
pub open spec fn combat_step(
    node: NodeModel,
    state: GameStateModel,
    choice_id: Seq<char>,
    dice: DiceRoller,
) -> (GameStateModel, DiceRoller) {
    let encounter = match state.encounter {
        Some(e) => Some(e),
        None => fresh_encounter(node),
    };
    match encounter {
        Some(e) => round(node, state, e, choice_id, dice),
        None => (with_log(state, "No encounter to resolve."@), dice),
    }
}

impl GameStateModel {
    /// Whether every monster that stands in the encounter held, if one is
    /// held, can throw its damage dice.
    pub open spec fn dice_sound(self) -> bool {
        match self.encounter {
            Some(e) => e.dice_sound(),
            None => true,
        }
    }

    /// Whether a round can be fought: the monsters answer only a hero who
    /// stands, and then every monster that stands must be able to throw its
    /// damage dice.
    pub open spec fn can_fight(self) -> bool {
        self.character.alive() ==> self.dice_sound()
    }
}

/// The view of an optional encounter.
pub open spec fn opt_encounter(encounter: Option<Encounter>) -> Option<EncounterModel> {
    match encounter {
        Some(e) => Some(e@),
        None => None,
    }
}

impl Campaign {
    /// Raises the encounter of a node from the monsters that the node lists.
    pub fn build_encounter(&self, node: &Node) -> (r: Option<Encounter>)
        ensures
            opt_encounter(r) == fresh_encounter(node@),
    {
        let spec = match &node.encounter {
            Some(spec) => spec,
            None => {
                return None;
            },
        };
        let mut monsters: Vec<Monster> = Vec::new();
        let mut i: usize = 0;
        assert(spec@.monsters.take(0) =~= Seq::empty());
        assert(monster_models(monsters@) =~= Seq::empty());
        while i < spec.monsters.len()
            invariant
                i <= spec.monsters.len(),
                monster_models(monsters@) == muster(spec@.monsters.take(i as int)),
            decreases spec.monsters.len() - i,
        {
            let entry = &spec.monsters[i];
            let ghost earlier = monster_models(monsters@);
            let mut made: u8 = 0;
            while made < entry.count
                invariant
                    made <= entry.count,
                    monster_models(monsters@) =~= earlier + pack(entry.reference@, made as nat),
                decreases entry.count - made,
            {
                let ghost before = monsters@;
                let monster = make_monster_from_ref(entry.reference.as_str());
                monsters.push(monster);
                made = made + 1;
                proof {
                    assert(monster_models(monsters@) =~= monster_models(before).push(
                        monster_template(entry.reference@),
                    ));
                    assert(pack(entry.reference@, made as nat) =~= pack(
                        entry.reference@,
                        (made - 1) as nat,
                    ).push(monster_template(entry.reference@)));
                }
            }
            proof {
                let upto = spec@.monsters.take(i as int + 1);
                assert(upto.drop_last() =~= spec@.monsters.take(i as int));
                assert(upto.last() == entry@);
            }
            i += 1;
        }
        assert(spec@.monsters.take(spec.monsters.len() as int) =~= spec@.monsters);
        Some(Encounter { monsters, in_progress: true })
    }
}

/// The hero's part of a round.
fn hero_turn(hero: &Character, encounter: &mut Encounter, choice_id: &str, dice: &mut DiceRoller) -> (line:
    String)
    ensures
        (final(encounter)@.monsters, line@, *final(dice)) == hero_phase(
            hero@,
            old(encounter)@.monsters,
            choice_id@,
            *old(dice),
        ),
        final(encounter).in_progress == old(encounter).in_progress,
        old(encounter)@.dice_sound() ==> final(encounter)@.dice_sound(),
{
    if same_text(choice_id, "attack") {
        proof {
            lemma_first_index(encounter@.monsters, standing());
        }
        match encounter.first_alive_monster_mut() {
            Some(monster) => {
                let ghost target = first_alive(old(encounter)@.monsters)->0;
                assert(old(encounter)@.monsters[target].alive());
                let line = hero_attack(hero, monster, dice);
                proof {
                    assert(encounter@.monsters =~= old(encounter)@.monsters.update(
                        target,
                        encounter.monsters@[target]@,
                    ));
                    assert forall|i: int| 0 <= i < encounter@.monsters.len() implies (
                    #[trigger] encounter@.monsters[i]).dice_sound() == old(
                        encounter,
                    )@.monsters[i].dice_sound() && (encounter@.monsters[i].alive() ==> old(
                        encounter,
                    )@.monsters[i].alive()) by {}
                }
                line
            },
            None => String::from_str("There is nothing left to attack."),
        }
    } else if same_text(choice_id, "continue") {
        String::from_str("You press on...")
    } else {
        String::from_str("Unknown combat choice: ").concat(choice_id)
    }
}

/// The monsters' part of a round: each report is added to `lines`.
fn monsters_turn(
    encounter: &Encounter,
    hero: &mut Character,
    dice: &mut DiceRoller,
    lines: &mut Vec<String>,
)
    requires
        old(hero)@.alive() ==> encounter@.dice_sound(),
    ensures
        (final(hero)@, texts(final(lines)@), *final(dice)) == ({
            let (last, replies, left) = reprisal(encounter@.monsters, 0, old(hero)@, *old(dice));
            (last, texts(old(lines)@) + replies, left)
        }),
{
    let mut i: usize = 0;
    assert(texts(lines@) + Seq::<Seq<char>>::empty() =~= texts(lines@));
    while i < encounter.monsters.len()
        invariant
            i <= encounter.monsters.len(),
            hero@.alive() ==> encounter@.dice_sound(),
            ({
                let (last, replies, left) = reprisal(
                    encounter@.monsters,
                    0,
                    old(hero)@,
                    *old(dice),
                );
                let (last_here, replies_here, left_here) = reprisal(
                    encounter@.monsters,
                    i as int,
                    hero@,
                    *dice,
                );
                &&& last == last_here
                &&& texts(old(lines)@) + replies == texts(lines@) + replies_here
                &&& left == left_here
            }),
        decreases encounter.monsters.len() - i,
    {
        let monster = &encounter.monsters[i];
        assert(monster@ == encounter@.monsters[i as int]);
        if monster.current_hp > 0 && hero.current_hp > 0 {
            assert(monster@.most_damage() <= 255 * 255) by (nonlinear_arith)
                requires
                    monster@.most_damage() == damage_dealt(
                        monster@.damage_dice_count * monster@.damage_dice_sides,
                    ),
                    monster@.damage_dice_count <= 255,
                    monster@.damage_dice_sides <= 255,
            ;
            let ghost before = texts(lines@);
            let ghost rest = reprisal(
                encounter@.monsters,
                i as int + 1,
                monster_attack_outcome(monster@, hero@, *dice).0,
                monster_attack_outcome(monster@, hero@, *dice).2,
            ).1;
            let line = monster_attack(monster, hero, dice);
            lines.push(line);
            proof {
                assert(texts(lines@) =~= before.push(line@));
                assert(before + (seq![line@] + rest) =~= before.push(line@) + rest);
            }
        }
        i += 1;
    }
    assert(texts(lines@) + Seq::<Seq<char>>::empty() =~= texts(lines@));
}

/// Settles a round once both sides have acted: marks a fight that is over
/// as ended, adds the closing report to `lines`, and returns the node to
/// move to, if there is one.
pub fn conclude_round(
    node: &Node,
    hero: &Character,
    encounter: &mut Encounter,
    lines: &mut Vec<String>,
) -> (next: Option<String>)
    ensures
        (final(encounter)@, texts(final(lines)@), opt_text(next)) == ({
            let (ended, closing, target) = conclusion(node@, hero@, old(encounter)@);
            (ended, texts(old(lines)@) + closing, target)
        }),
{
    let ghost before = texts(lines@);
    assert(before + Seq::<Seq<char>>::empty() =~= before);
    if encounter.is_over(hero) {
        encounter.in_progress = false;
        if hero.current_hp > 0 {
            match &node.on_victory {
                Some(next) => {
                    lines.push(String::from_str("You won the fight!"));
                    assert(texts(lines@) =~= before + seq!["You won the fight!"@]);
                    Some(next.clone())
                },
                None => {
                    lines.push(
                        String::from_str("You have won, but the story has nowhere to go."),
                    );
                    assert(texts(lines@) =~= before + seq![
                        "You have won, but the story has nowhere to go."@,
                    ]);
                    None
                },
            }
        } else {
            match &node.on_defeat {
                Some(next) => {
                    lines.push(String::from_str("You have been defeated..."));
                    assert(texts(lines@) =~= before + seq!["You have been defeated..."@]);
                    Some(next.clone())
                },
                None => None,
            }
        }
    } else {
        None
    }
}

impl Campaign {
    /// Applies a choice made at a combat node. If the hero stands, the
    /// monsters that stand in an encounter that the state already holds must
    /// be able to throw their damage dice.
    pub fn apply_combat_choice(
        &self,
        node: &Node,
        choice_id: &str,
        state: &mut GameState,
        dice: &mut DiceRoller,
    )
        requires
            old(state)@.can_fight(),
        ensures
            (final(state)@, *final(dice)) == combat_step(
                node@,
                old(state)@,
                choice_id@,
                *old(dice),
            ),
            old(state)@.dice_sound() ==> final(state)@.dice_sound(),
    {
        if state.encounter.is_none() {
            state.encounter = self.build_encounter(node);
            proof {
                if node@.encounter is Some {
                    lemma_muster_dice_sound(node@.encounter->0.monsters);
                }
            }
        }
        let mut encounter = match state.encounter.take() {
            Some(encounter) => encounter,
            None => {
                state.last_log = Some(String::from_str("No encounter to resolve."));
                return ;
            },
        };
        let ghost entered = encounter@;
        let mut lines: Vec<String> = Vec::new();
        let opening = hero_turn(&state.character, &mut encounter, choice_id, dice);
        lines.push(opening);
        assert(texts(lines@) =~= seq![opening@]);
        monsters_turn(&encounter, &mut state.character, dice, &mut lines);
        assert(encounter@ == (EncounterModel { monsters: encounter@.monsters, ..entered }));
        match conclude_round(node, &state.character, &mut encounter, &mut lines) {
            Some(next) => {
                state.current_node_id = next;
            },
            None => {},
        }
        state.encounter = Some(encounter);
        state.last_log = Some(join(&lines));
    }
}

} // verus!
