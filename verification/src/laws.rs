//! What holds of every session, whatever the campaign, the character, the
//! seed and the choices.

use crate::battle::fresh_encounter;
use crate::battle::hero_phase;
use crate::battle::reprisal;
use crate::battle::round;
use crate::campaign::choice_with_id;
use crate::campaign::node_with_id;
use crate::campaign::CampaignModel;
use crate::campaign::GameStateModel;
use crate::campaign::NodeType;
use crate::campaign::NodeView;
use crate::campaign::SkillCheckModel;
use crate::combat::all_down;
use crate::combat::attack_hits;
use crate::combat::damage_dealt;
use crate::combat::hero_attack_outcome;
use crate::combat::monster_attack_outcome;
use crate::combat::standing;
use crate::combat::MonsterModel;
use crate::dice::DiceRoller;
use crate::engine::Engine;
use crate::narrative::after_skill_check;
use crate::narrative::check_succeeds;
use crate::narrative::with_log;
use crate::rules::CharacterModel;
use crate::search::is_first;
use crate::search::lemma_first_index;
use vstd::prelude::*;

verus! {

/// Whether `run` is the course of a session: it opens for the campaign, the
/// character and the seed, and each later entry is the one before it after
/// the choice made there.
pub open spec fn is_run(
    run: Seq<Engine>,
    campaign: CampaignModel,
    hero: CharacterModel,
    seed: u64,
    choices: Seq<Seq<char>>,
) -> bool {
    &&& run.len() == choices.len() + 1
    &&& run[0].opens(campaign, hero, seed)
    &&& forall|k: int|
        1 <= k <= choices.len() ==> (#[trigger] run[k]).follows(run[k - 1], choices[k - 1])
}

/// Two sessions with the same campaign, character and seed that are given
/// the same choices are in the same state after each of them, with the same
/// log, the same dice and the same view.
pub proof fn lemma_runs_agree(
    campaign: CampaignModel,
    hero: CharacterModel,
    seed: u64,
    choices: Seq<Seq<char>>,
    first: Seq<Engine>,
    second: Seq<Engine>,
    k: int,
)
    requires
        is_run(first, campaign, hero, seed, choices),
        is_run(second, campaign, hero, seed, choices),
        0 <= k <= choices.len(),
    ensures
        first[k].campaign@ == campaign,
        second[k].campaign@ == campaign,
        first[k].state@ == second[k].state@,
        first[k].dice == second[k].dice,
        first[k].shown() == second[k].shown(),
    decreases k,
{
    if k > 0 {
        lemma_runs_agree(campaign, hero, seed, choices, first, second, k - 1);
        assert(first[k].follows(first[k - 1], choices[k - 1]));
        assert(second[k].follows(second[k - 1], choices[k - 1]));
    }
}

/// The view is a function of the session: two views taken of one session
/// with no choice in between say the same.
pub proof fn lemma_view_is_pure(engine: Engine, first: NodeView, second: NodeView)
    requires
        first@ == engine.shown(),
        second@ == engine.shown(),
    ensures
        first@ == second@,
{
}

/// A hit never deals less than 1 damage, whatever was rolled.
pub proof fn lemma_damage_floor(rolled: int)
    ensures
        damage_dealt(rolled) >= 1,
        rolled >= 1 ==> damage_dealt(rolled) == rolled,
{
}

/// An attack of the hero that lands costs the monster at least one hit
/// point; one that misses costs it none.
pub proof fn lemma_hero_hit_wounds(hero: CharacterModel, monster: MonsterModel, dice: DiceRoller)
    ensures
        attack_hits(dice.d20_value(), hero.attack_bonus(), monster.ac) ==> hero_attack_outcome(
            hero,
            monster,
            dice,
        ).0.current_hp <= monster.current_hp - 1,
        !attack_hits(dice.d20_value(), hero.attack_bonus(), monster.ac) ==> hero_attack_outcome(
            hero,
            monster,
            dice,
        ).0 == monster,
{
}

/// An attack of a monster that lands costs the hero at least one hit point;
/// one that misses costs the hero none.
pub proof fn lemma_monster_hit_wounds(monster: MonsterModel, hero: CharacterModel, dice: DiceRoller)
    ensures
        attack_hits(dice.d20_value(), monster.attack_bonus, hero.ac) ==> monster_attack_outcome(
            monster,
            hero,
            dice,
        ).0.current_hp <= hero.current_hp - 1,
        !attack_hits(dice.d20_value(), monster.attack_bonus, hero.ac) ==> monster_attack_outcome(
            monster,
            hero,
            dice,
        ).0 == hero,
{
}

/// A skill check whose roll and modifier add up to exactly the difficulty
/// class succeeds: the session moves to the target set for success.
pub proof fn lemma_meeting_the_dc_succeeds(
    state: GameStateModel,
    check: SkillCheckModel,
    roll: int,
    modifier: int,
)
    requires
        roll + modifier == check.dc,
    ensures
        check_succeeds(roll, modifier, check.dc),
        !check_succeeds(roll - 1, modifier, check.dc),
        after_skill_check(state, check, roll, modifier).current_node_id == (match check.success_next {
            Some(next) => next,
            None => state.current_node_id,
        }),
{
}

/// At an ending every choice does the same: the log says that the adventure
/// is over, and nothing else changes, however often it is done.
pub proof fn lemma_ending_is_final(
    campaign: CampaignModel,
    state: GameStateModel,
    choice_id: Seq<char>,
    again: Seq<char>,
    dice: DiceRoller,
)
    requires
        campaign.has_node(state.current_node_id),
        campaign.node(state.current_node_id).kind == NodeType::End,
    ensures
        campaign.step(state, choice_id, dice) == (with_log(state, "The adventure is over."@), dice),
        campaign.step(state, choice_id, dice).0.current_node_id == state.current_node_id,
        campaign.step(campaign.step(state, choice_id, dice).0, again, dice) == campaign.step(
            state,
            choice_id,
            dice,
        ),
{
}

/// At a narrative node or an ending, a choice that the node does not offer
/// leaves the session where it is: the node, the character, the encounter
/// and the dice are unchanged, and only the log says what happened.
pub proof fn lemma_unknown_choice_stays(
    campaign: CampaignModel,
    state: GameStateModel,
    choice_id: Seq<char>,
    dice: DiceRoller,
)
    requires
        campaign.has_node(state.current_node_id),
        campaign.node(state.current_node_id).kind != NodeType::Combat,
        campaign.node(state.current_node_id).choice(choice_id) is None,
    ensures
        campaign.step(state, choice_id, dice).1 == dice,
        campaign.step(state, choice_id, dice).0 == with_log(
            state,
            campaign.step(state, choice_id, dice).0.last_log->0,
        ),
        campaign.step(state, choice_id, dice).0.last_log is Some,
{
}

/// At a combat node the session moves only when the fight has ended, and
/// then only to the node's victory or defeat target, whatever was chosen.
pub proof fn lemma_combat_moves_only_when_over(
    campaign: CampaignModel,
    state: GameStateModel,
    choice_id: Seq<char>,
    dice: DiceRoller,
)
    requires
        campaign.has_node(state.current_node_id),
        campaign.node(state.current_node_id).kind == NodeType::Combat,
    ensures
        ({
            let node = campaign.node(state.current_node_id);
            let after = campaign.step(state, choice_id, dice).0;
            ||| after.current_node_id == state.current_node_id
            ||| {
                &&& after.encounter matches Some(e)
                &&& !e.in_progress
                &&& after.character.alive() ==> node.on_victory == Some(after.current_node_id)
                &&& !after.character.alive() ==> node.on_defeat == Some(after.current_node_id)
            }
        }),
{
}

/// The monsters' part of a round changes nothing of the hero but the hit
/// points, and never raises them.
pub proof fn lemma_reprisal_only_wounds(
    monsters: Seq<MonsterModel>,
    from: int,
    hero: CharacterModel,
    dice: DiceRoller,
)
    ensures
        reprisal(monsters, from, hero, dice).0 == (CharacterModel {
            current_hp: reprisal(monsters, from, hero, dice).0.current_hp,
            ..hero
        }),
        reprisal(monsters, from, hero, dice).0.current_hp <= hero.current_hp,
    decreases monsters.len() - from,
{
    if 0 <= from < monsters.len() {
        if monsters[from].alive() && hero.alive() {
            let (hurt, line, thrown) = monster_attack_outcome(monsters[from], hero, dice);
            lemma_reprisal_only_wounds(monsters, from + 1, hurt, thrown);
        } else {
            lemma_reprisal_only_wounds(monsters, from + 1, hero, dice);
        }
    }
}

/// The hero's part of a round leaves as many monsters as there were, and
/// changes nothing of any of them but the hit points, which it never raises.
pub proof fn lemma_hero_phase_only_wounds(
    hero: CharacterModel,
    monsters: Seq<MonsterModel>,
    choice_id: Seq<char>,
    dice: DiceRoller,
    i: int,
)
    requires
        0 <= i < monsters.len(),
    ensures
        hero_phase(hero, monsters, choice_id, dice).0.len() == monsters.len(),
        hero_phase(hero, monsters, choice_id, dice).0[i] == (MonsterModel {
            current_hp: hero_phase(hero, monsters, choice_id, dice).0[i].current_hp,
            ..monsters[i]
        }),
        hero_phase(hero, monsters, choice_id, dice).0[i].current_hp <= monsters[i].current_hp,
{
    lemma_first_index(monsters, standing());
}

/// A choice changes nothing of the character but the hit points, and never
/// raises them; outside a combat node it changes nothing of the character
/// at all.
pub proof fn lemma_only_damage_changes_the_hero(
    campaign: CampaignModel,
    state: GameStateModel,
    choice_id: Seq<char>,
    dice: DiceRoller,
)
    requires
        campaign.has_node(state.current_node_id),
    ensures
        ({
            let after = campaign.step(state, choice_id, dice).0;
            &&& after.character == (CharacterModel {
                current_hp: after.character.current_hp,
                ..state.character
            })
            &&& after.character.current_hp <= state.character.current_hp
            &&& campaign.node(state.current_node_id).kind != NodeType::Combat ==> after.character
                == state.character
        }),
{
    let node = campaign.node(state.current_node_id);
    if node.kind == NodeType::Combat {
        let held = match state.encounter {
            Some(e) => Some(e),
            None => fresh_encounter(node),
        };
        if held is Some {
            let (monsters, opening, thrown) = hero_phase(
                state.character,
                held->0.monsters,
                choice_id,
                dice,
            );
            lemma_reprisal_only_wounds(monsters, 0, state.character, thrown);
        }
    }
}

/// A fight that has ended stays ended: no choice puts an encounter back in
/// progress.
pub proof fn lemma_an_ended_fight_stays_ended(
    campaign: CampaignModel,
    state: GameStateModel,
    choice_id: Seq<char>,
    dice: DiceRoller,
)
    requires
        campaign.has_node(state.current_node_id),
        state.encounter matches Some(e) && !e.in_progress,
    ensures
        campaign.step(state, choice_id, dice).0.encounter matches Some(e) && !e.in_progress,
{
}

/// A finishing blow wins the fight: when the only monster has one hit point
/// left and the hero's attack lands, one `attack` ends the encounter with the
/// hero unharmed and moves the session to the victory target.
pub proof fn lemma_finishing_blow_wins(
    campaign: CampaignModel,
    state: GameStateModel,
    dice: DiceRoller,
    target: Seq<char>,
)
    requires
        campaign.has_node(state.current_node_id),
        campaign.node(state.current_node_id).kind == NodeType::Combat,
        campaign.node(state.current_node_id).on_victory == Some(target),
        state.character.alive(),
        state.encounter matches Some(e) && e.monsters.len() == 1 && e.monsters[0].current_hp == 1
            && attack_hits(dice.d20_value(), state.character.attack_bonus(), e.monsters[0].ac),
    ensures
        ({
            let after = campaign.step(state, "attack"@, dice).0;
            &&& after.current_node_id == target
            &&& after.character == state.character
            &&& after.encounter matches Some(e) && !e.in_progress && all_down(e.monsters)
        }),
{
    let node = campaign.node(state.current_node_id);
    let entered = state.encounter->0;
    assert(standing()(entered.monsters[0]));
    assert(is_first(entered.monsters, standing(), 0));
    lemma_first_index(entered.monsters, standing());
    let (monsters, opening, thrown) = hero_phase(
        state.character,
        entered.monsters,
        "attack"@,
        dice,
    );
    assert(monsters.len() == 1);
    assert(monsters[0].current_hp <= 0);
    reveal_with_fuel(reprisal, 3);
    assert(reprisal(monsters, 0, state.character, thrown).0 == state.character);
    assert(all_down(monsters)) by {
        assert forall|j: int| 0 <= j < monsters.len() implies !standing()(
            #[trigger] monsters[j],
        ) by {}
    }
}

/// The last hit point is lost to a hit: when the hero has one hit point
/// left and faces a single monster that still stands after the hero's part
/// of the round and whose attack lands, the round ends the encounter with the
/// hero down, and the session moves to the defeat target, or stays where it
/// is if there is none.
pub proof fn lemma_last_hit_point_lost(
    campaign: CampaignModel,
    state: GameStateModel,
    choice_id: Seq<char>,
    dice: DiceRoller,
)
    requires
        campaign.has_node(state.current_node_id),
        campaign.node(state.current_node_id).kind == NodeType::Combat,
        state.character.current_hp == 1,
        state.encounter matches Some(e) && e.monsters.len() == 1 && ({
            let (monsters, opening, thrown) = hero_phase(
                state.character,
                e.monsters,
                choice_id,
                dice,
            );
            monsters[0].alive() && attack_hits(
                thrown.d20_value(),
                monsters[0].attack_bonus,
                state.character.ac,
            )
        }),
    ensures
        ({
            let node = campaign.node(state.current_node_id);
            let after = campaign.step(state, choice_id, dice).0;
            &&& !after.character.alive()
            &&& after.encounter matches Some(e) && !e.in_progress
            &&& after.current_node_id == (match node.on_defeat {
                Some(next) => next,
                None => state.current_node_id,
            })
        }),
{
    let entered = state.encounter->0;
    lemma_hero_phase_only_wounds(state.character, entered.monsters, choice_id, dice, 0);
    reveal_with_fuel(reprisal, 3);
}

/// In a campaign whose graph is whole, a session that is at one of the
/// campaign's nodes is at one of them after every choice.
pub proof fn lemma_step_stays_in_graph(
    campaign: CampaignModel,
    state: GameStateModel,
    choice_id: Seq<char>,
    dice: DiceRoller,
)
    requires
        campaign.well_formed(),
        campaign.has_node(state.current_node_id),
    ensures
        campaign.has_node(campaign.step(state, choice_id, dice).0.current_node_id),
{
    let node = campaign.node(state.current_node_id);
    lemma_first_index(campaign.nodes, node_with_id(state.current_node_id));
    assert(campaign.node_resolves(node));
    match node.kind {
        NodeType::Narrative => {
            lemma_first_index(node.choices, choice_with_id(choice_id));
            match node.choice(choice_id) {
                Some(choice) => {
                    assert(campaign.choice_resolves(choice));
                },
                None => {},
            }
        },
        NodeType::Combat => {},
        NodeType::End => {},
    }
}

} // verus!
