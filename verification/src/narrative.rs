//! Choices at a narrative node: direct transitions and skill checks.

use crate::campaign::Campaign;
use crate::campaign::GameState;
use crate::campaign::GameStateModel;
use crate::campaign::Node;
use crate::campaign::NodeModel;
use crate::campaign::SkillCheck;
use crate::campaign::SkillCheckModel;
use crate::dice::DiceRoller;
use crate::rules::ability_from_str;
use crate::rules::parse_ability;
use crate::text::decimal;
use crate::text::render_int;
use vstd::prelude::*;
use vstd::string::StringExecFns;

verus! {

/// Whether a skill check succeeds: the roll and the modifier together reach
/// the difficulty class.
pub open spec fn check_succeeds(roll: int, modifier: int, dc: int) -> bool {
    roll + modifier >= dc
}

/// The line that reports a skill check.
pub open spec fn skill_check_line(ability: Seq<char>, dc: int, roll: int, modifier: int) -> Seq<
    char,
> {
    "Skill check ("@ + ability + ", DC "@ + decimal(dc) + "): rolled "@ + decimal(roll) + " + "@
        + decimal(modifier) + " = "@ + decimal(roll + modifier) + " => "@ + (if check_succeeds(
        roll,
        modifier,
        dc,
    ) {
        "success"@
    } else {
        "failure"@
    })
}

/// The log of a skill check: its description, if it has one, on a line of
/// its own, then the line that reports the roll.
pub open spec fn skill_check_log(check: SkillCheckModel, roll: int, modifier: int) -> Seq<char> {
    let line = skill_check_line(check.ability, check.dc, roll, modifier);
    match check.description {
        Some(description) => description + "\n"@ + line,
        None => line,
    }
}

/// The state after a skill check was rolled: the log reports it, and the
/// session moves to the target set for the outcome, or stays where none is set.
pub open spec fn after_skill_check(
    state: GameStateModel,
    check: SkillCheckModel,
    roll: int,
    modifier: int,
) -> GameStateModel {
    let target = if check_succeeds(roll, modifier, check.dc) {
        check.success_next
    } else {
        check.failure_next
    };
    GameStateModel {
        current_node_id: match target {
            Some(next) => next,
            None => state.current_node_id,
        },
        last_log: Some(skill_check_log(check, roll, modifier)),
        ..state
    }
}

/// The state with another log and nothing else changed.
pub open spec fn with_log(state: GameStateModel, log: Seq<char>) -> GameStateModel {
    GameStateModel { last_log: Some(log), ..state }
}

/// A choice made at a narrative node: the state and the dice afterwards.
///
/// An id that the node does not offer is reported and changes nothing else.
/// A choice with a skill check rolls a twenty-sided die for it, unless the
/// check names no known ability, which is reported. A choice without one
/// moves to its target and clears the log, or reports that it leads nowhere.
pub open spec fn narrative_step(
    node: NodeModel,
    state: GameStateModel,
    choice_id: Seq<char>,
    dice: DiceRoller,
) -> (GameStateModel, DiceRoller) {
    match node.choice(choice_id) {
        None => (with_log(state, "Unknown choice: "@ + choice_id), dice),
        Some(choice) => match choice.skill_check {
            Some(check) => match parse_ability(check.ability) {
                None => (
                    with_log(state, "Unknown ability in skill check: "@ + check.ability),
                    dice,
                ),
                Some(ability) => (
                    after_skill_check(
                        state,
                        check,
                        dice.d20_value(),
                        state.character.abilities.modifier_of(ability),
                    ),
                    dice.after_d20(),
                ),
            },
            None => match choice.next {
                Some(next) => (
                    GameStateModel { current_node_id: next, last_log: None, ..state },
                    dice,
                ),
                None => (with_log(state, "Nowhere to go from here."@), dice),
            },
        },
    }
}

/// Settles a skill check whose die has shown `roll`, for a character whose
/// modifier for the ability is `modifier`.
pub fn resolve_skill_check(check: &SkillCheck, roll: i32, modifier: i32, state: &mut GameState)
    ensures
        final(state)@ == after_skill_check(old(state)@, check@, roll as int, modifier as int),
{
    let total: i64 = roll as i64 + modifier as i64;
    let success = total >= check.dc as i64;
    let line = String::from_str("Skill check (").concat(check.ability.as_str()).concat(
        ", DC ",
    ).concat(render_int(check.dc as i64).as_str()).concat("): rolled ").concat(
        render_int(roll as i64).as_str(),
    ).concat(" + ").concat(render_int(modifier as i64).as_str()).concat(" = ").concat(
        render_int(total).as_str(),
    ).concat(" => ").concat(
        if success {
            "success"
        } else {
            "failure"
        },
    );
    let log = match &check.description {
        Some(description) => String::from_str(description.as_str()).concat("\n").concat(
            line.as_str(),
        ),
        None => line,
    };
    state.last_log = Some(log);
    let target = if success {
        &check.success_next
    } else {
        &check.failure_next
    };
    match target {
        Some(next) => {
            state.current_node_id = next.clone();
        },
        None => {},
    }
}

impl Campaign {
    /// Applies a choice made at a narrative node.
    pub fn apply_narrative_choice(
        &self,
        node: &Node,
        choice_id: &str,
        state: &mut GameState,
        dice: &mut DiceRoller,
    )
        ensures
            (final(state)@, *final(dice)) == narrative_step(
                node@,
                old(state)@,
                choice_id@,
                *old(dice),
            ),
    {
        let choice = match node.find_choice(choice_id) {
            Some(choice) => choice,
            None => {
                state.last_log = Some(String::from_str("Unknown choice: ").concat(choice_id));
                return ;
            },
        };
        match &choice.skill_check {
            Some(check) => {
                let ability = match ability_from_str(check.ability.as_str()) {
                    Some(ability) => ability,
                    None => {
                        state.last_log = Some(
                            String::from_str("Unknown ability in skill check: ").concat(
                                check.ability.as_str(),
                            ),
                        );
                        return ;
                    },
                };
                let roll = dice.d20();
                let modifier = state.character.abilities.modifier(ability);
                resolve_skill_check(check, roll, modifier, state);
            },
            None => match &choice.next {
                Some(next) => {
                    state.current_node_id = next.clone();
                    state.last_log = None;
                },
                None => {
                    state.last_log = Some(String::from_str("Nowhere to go from here."));
                },
            },
        }
    }
}

} // verus!
