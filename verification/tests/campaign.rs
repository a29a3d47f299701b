use solo_engine::battle::conclude_round;
use solo_engine::battle::make_monster_from_ref;
use solo_engine::campaign::Campaign;
use solo_engine::campaign::Choice;
use solo_engine::campaign::EncounterSpec;
use solo_engine::campaign::GameState;
use solo_engine::campaign::MonsterSpec;
use solo_engine::campaign::Node;
use solo_engine::campaign::NodeType;
use solo_engine::campaign::SkillCheck;
use solo_engine::combat::Encounter;
use solo_engine::combat::Monster;
use solo_engine::dice::DiceRoller;
use solo_engine::narrative::resolve_skill_check;
use solo_engine::rules::AbilityScores;
use solo_engine::rules::Character;

fn hero() -> Character {
    Character {
        name: "Aria".to_string(),
        level: 3,
        abilities: AbilityScores { str: 16, dex: 14, con: 12, int_: 10, wis: 8, cha: 13 },
        max_hp: 24,
        current_hp: 24,
        ac: 16,
        proficiency_bonus: 2,
    }
}

fn go(id: &str, label: &str, next: Option<&str>) -> Choice {
    Choice {
        id: id.to_string(),
        label: label.to_string(),
        next: next.map(|n| n.to_string()),
        skill_check: None,
    }
}

fn check(ability: &str, dc: i32, description: Option<&str>) -> SkillCheck {
    SkillCheck {
        ability: ability.to_string(),
        dc,
        success_next: Some("glade".to_string()),
        failure_next: Some("pit".to_string()),
        description: description.map(|d| d.to_string()),
    }
}

fn node(id: &str, kind: NodeType, choices: Vec<Choice>) -> Node {
    Node {
        id: id.to_string(),
        kind,
        title: Some(format!("At the {}", id)),
        text: vec![format!("You are at the {}.", id)],
        choices,
        encounter: None,
        on_victory: None,
        on_defeat: None,
    }
}

fn campaign() -> Campaign {
    let mut road = node(
        "road",
        NodeType::Narrative,
        vec![
            go("walk", "Walk on", Some("glade")),
            go("wait", "Wait", None),
            Choice {
                id: "climb".to_string(),
                label: "Climb the cliff".to_string(),
                next: Some("end".to_string()),
                skill_check: Some(check("dex", 12, Some("You reach for the ledge."))),
            },
            Choice {
                id: "pray".to_string(),
                label: "Pray".to_string(),
                next: None,
                skill_check: Some(check("luck", 5, None)),
            },
            go("walk", "Walk back", Some("pit")),
        ],
    );
    road.text.push("The road forks.".to_string());
    let mut glade = node(
        "glade",
        NodeType::Combat,
        vec![go("attack", "Attack", None), go("continue", "Press on", None)],
    );
    glade.encounter = Some(EncounterSpec {
        monsters: vec![
            MonsterSpec { reference: "srd_goblin".to_string(), count: 2 },
            MonsterSpec { reference: "wolf".to_string(), count: 1 },
        ],
    });
    glade.on_victory = Some("end".to_string());
    glade.on_defeat = Some("pit".to_string());
    let bare = node("bare", NodeType::Combat, vec![go("attack", "Attack", None)]);
    let mut end = node("end", NodeType::End, vec![go("again", "Again", Some("road"))]);
    end.title = None;
    let pit = node("pit", NodeType::End, Vec::new());
    Campaign {
        id: "demo".to_string(),
        title: "Demo".to_string(),
        start_node_id: "road".to_string(),
        nodes: vec![road, glade, bare, end, pit],
    }
}

fn state_at(id: &str) -> GameState {
    GameState {
        character: hero(),
        current_node_id: id.to_string(),
        encounter: None,
        last_log: None,
    }
}

fn foe(name: &str, hp: i32, attack_bonus: i32) -> Monster {
    Monster {
        name: name.to_string(),
        ac: 12,
        max_hp: 8,
        current_hp: hp,
        attack_bonus,
        damage_dice_count: 1,
        damage_dice_sides: 6,
    }
}

#[test]
fn a_node_is_found_by_its_id() {
    let c = campaign();
    assert_eq!(c.find_node("glade").map(|n| n.kind), Some(NodeType::Combat));
    assert_eq!(c.find_node("pit").map(|n| n.id.clone()), Some("pit".to_string()));
    assert!(c.find_node("nowhere").is_none());
    assert!(c.find_node("").is_none());
    assert!(c.find_node("Road").is_none());
}

#[test]
fn the_first_of_two_nodes_with_one_id_is_found() {
    let mut c = campaign();
    let mut twin = node("road", NodeType::End, Vec::new());
    twin.title = Some("Twin".to_string());
    c.nodes.push(twin);
    assert_eq!(c.find_node("road").map(|n| n.kind), Some(NodeType::Narrative));
}

#[test]
fn a_choice_is_found_by_its_id() {
    let c = campaign();
    let road = c.find_node("road").unwrap();
    assert_eq!(road.find_choice("wait").map(|x| x.label.clone()), Some("Wait".to_string()));
    assert_eq!(road.find_choice("walk").map(|x| x.label.clone()), Some("Walk on".to_string()));
    assert!(road.find_choice("fly").is_none());
}

#[test]
fn the_view_shows_the_node_and_the_character() {
    let c = campaign();
    let view = c.view_node(&state_at("road"));
    assert_eq!(view.title, Some("At the road".to_string()));
    assert_eq!(view.text, vec!["You are at the road.".to_string(), "The road forks.".to_string()]);
    let shown: Vec<(String, String)> =
        view.choices.iter().map(|x| (x.id.clone(), x.label.clone())).collect();
    assert_eq!(
        shown,
        vec![
            ("walk".to_string(), "Walk on".to_string()),
            ("wait".to_string(), "Wait".to_string()),
            ("climb".to_string(), "Climb the cliff".to_string()),
            ("pray".to_string(), "Pray".to_string()),
            ("walk".to_string(), "Walk back".to_string()),
        ]
    );
    assert_eq!(view.character_summary.name, "Aria");
    assert_eq!(view.character_summary.level, 3);
    assert_eq!(view.character_summary.current_hp, 24);
    assert_eq!(view.character_summary.max_hp, 24);
    assert_eq!(view.log, None);
}

#[test]
fn the_view_puts_the_log_after_an_empty_line() {
    let c = campaign();
    let mut state = state_at("road");
    state.last_log = Some("Something happened.".to_string());
    let view = c.view_node(&state);
    assert_eq!(
        view.text,
        vec![
            "You are at the road.".to_string(),
            "The road forks.".to_string(),
            "".to_string(),
            "Something happened.".to_string(),
        ]
    );
    assert_eq!(view.log, Some("Something happened.".to_string()));
}

#[test]
fn the_view_leaves_an_empty_log_out_of_the_text() {
    let c = campaign();
    let mut state = state_at("road");
    state.last_log = Some(String::new());
    let view = c.view_node(&state);
    assert_eq!(view.text.len(), 2);
    assert_eq!(view.log, Some(String::new()));
}

#[test]
fn the_view_of_an_ending_shows_no_choices() {
    let c = campaign();
    let view = c.view_node(&state_at("end"));
    assert!(view.choices.is_empty());
    assert_eq!(view.title, None);
    assert_eq!(view.text, vec!["You are at the end.".to_string()]);
}

#[test]
fn the_view_changes_nothing() {
    let c = campaign();
    let mut state = state_at("glade");
    state.last_log = Some("log".to_string());
    let before = format!("{:?}", state);
    let first = c.view_node(&state);
    let second = c.view_node(&state);
    assert_eq!(format!("{:?}", first), format!("{:?}", second));
    assert_eq!(format!("{:?}", state), before);
}

#[test]
fn an_ending_only_says_that_the_adventure_is_over() {
    let c = campaign();
    for choice in ["again", "attack", "", "anything"] {
        let mut state = state_at("end");
        let mut dice = DiceRoller::new(1);
        let mut twin = DiceRoller::new(1);
        c.apply_choice(choice, &mut state, &mut dice);
        assert_eq!(state.current_node_id, "end");
        assert_eq!(state.last_log, Some("The adventure is over.".to_string()));
        assert!(state.encounter.is_none());
        assert_eq!(state.character.current_hp, 24);
        assert_eq!(dice.d20(), twin.d20());
        c.apply_choice(choice, &mut state, &mut dice);
        assert_eq!(state.current_node_id, "end");
        assert_eq!(state.last_log, Some("The adventure is over.".to_string()));
    }
}

#[test]
fn an_unknown_choice_is_reported_and_changes_nothing_else() {
    let c = campaign();
    let mut state = state_at("road");
    let mut dice = DiceRoller::new(1);
    let mut twin = DiceRoller::new(1);
    c.apply_choice("fly", &mut state, &mut dice);
    assert_eq!(state.current_node_id, "road");
    assert_eq!(state.last_log, Some("Unknown choice: fly".to_string()));
    assert!(state.encounter.is_none());
    assert_eq!(dice.d20(), twin.d20());
    c.apply_choice("", &mut state, &mut dice);
    assert_eq!(state.current_node_id, "road");
    assert_eq!(state.last_log, Some("Unknown choice: ".to_string()));
}

#[test]
fn a_direct_choice_moves_and_clears_the_log() {
    let c = campaign();
    let mut state = state_at("road");
    state.last_log = Some("old".to_string());
    let mut dice = DiceRoller::new(1);
    let mut twin = DiceRoller::new(1);
    c.apply_choice("walk", &mut state, &mut dice);
    assert_eq!(state.current_node_id, "glade");
    assert_eq!(state.last_log, None);
    assert_eq!(dice.d20(), twin.d20());
}

#[test]
fn a_choice_without_a_target_leads_nowhere() {
    let c = campaign();
    let mut state = state_at("road");
    let mut dice = DiceRoller::new(1);
    c.apply_choice("wait", &mut state, &mut dice);
    assert_eq!(state.current_node_id, "road");
    assert_eq!(state.last_log, Some("Nowhere to go from here.".to_string()));
}

#[test]
fn an_unknown_ability_is_reported_without_a_roll() {
    let c = campaign();
    let mut state = state_at("road");
    let mut dice = DiceRoller::new(1);
    let mut twin = DiceRoller::new(1);
    c.apply_choice("pray", &mut state, &mut dice);
    assert_eq!(state.current_node_id, "road");
    assert_eq!(state.last_log, Some("Unknown ability in skill check: luck".to_string()));
    assert_eq!(dice.d20(), twin.d20());
}

#[test]
fn a_skill_check_takes_precedence_over_a_direct_target() {
    let c = campaign();
    for seed in 0..100 {
        let mut state = state_at("road");
        let mut dice = DiceRoller::new(seed);
        let mut twin = DiceRoller::new(seed);
        c.apply_choice("climb", &mut state, &mut dice);
        let roll = twin.d20();
        let total = roll + 2;
        let success = total >= 12;
        assert_eq!(state.current_node_id, if success { "glade" } else { "pit" });
        assert_eq!(
            state.last_log,
            Some(format!(
                "You reach for the ledge.\nSkill check (dex, DC 12): rolled {} + 2 = {} => {}",
                roll,
                total,
                if success { "success" } else { "failure" }
            ))
        );
        assert_eq!(dice.d20(), twin.d20());
    }
}

#[test]
fn a_skill_check_that_meets_the_dc_succeeds() {
    let mut state = state_at("road");
    resolve_skill_check(&check("dex", 12, None), 10, 2, &mut state);
    assert_eq!(state.current_node_id, "glade");
    assert_eq!(
        state.last_log,
        Some("Skill check (dex, DC 12): rolled 10 + 2 = 12 => success".to_string())
    );
}

#[test]
fn a_skill_check_one_short_of_the_dc_fails() {
    let mut state = state_at("road");
    resolve_skill_check(&check("Wisdom", 12, None), 12, -1, &mut state);
    assert_eq!(state.current_node_id, "pit");
    assert_eq!(
        state.last_log,
        Some("Skill check (Wisdom, DC 12): rolled 12 + -1 = 11 => failure".to_string())
    );
}

#[test]
fn a_skill_check_without_a_target_stays_put() {
    let mut open = check("str", 5, Some("You push."));
    open.success_next = None;
    open.failure_next = None;
    let mut state = state_at("road");
    resolve_skill_check(&open, 20, 3, &mut state);
    assert_eq!(state.current_node_id, "road");
    assert_eq!(
        state.last_log,
        Some("You push.\nSkill check (str, DC 5): rolled 20 + 3 = 23 => success".to_string())
    );
    resolve_skill_check(&open, 1, 3, &mut state);
    assert_eq!(state.current_node_id, "road");
    assert_eq!(
        state.last_log,
        Some("You push.\nSkill check (str, DC 5): rolled 1 + 3 = 4 => failure".to_string())
    );
}

#[test]
fn a_skill_check_with_a_negative_dc_is_written_with_its_sign() {
    let mut state = state_at("road");
    resolve_skill_check(&check("cha", -3, None), 1, -5, &mut state);
    assert_eq!(state.current_node_id, "pit");
    assert_eq!(
        state.last_log,
        Some("Skill check (cha, DC -3): rolled 1 + -5 = -4 => failure".to_string())
    );
}

#[test]
fn the_goblin_template_is_known() {
    let goblin = make_monster_from_ref("srd_goblin");
    assert_eq!(goblin.name, "Goblin");
    assert_eq!(goblin.ac, 15);
    assert_eq!(goblin.max_hp, 7);
    assert_eq!(goblin.current_hp, 7);
    assert_eq!(goblin.attack_bonus, 4);
    assert_eq!(goblin.damage_dice_count, 1);
    assert_eq!(goblin.damage_dice_sides, 6);
}

#[test]
fn any_other_reference_gives_the_generic_monster() {
    for reference in ["wolf", "SRD_GOBLIN", ""] {
        let other = make_monster_from_ref(reference);
        assert_eq!(other.name, reference);
        assert_eq!(other.ac, 12);
        assert_eq!(other.max_hp, 8);
        assert_eq!(other.current_hp, 8);
        assert_eq!(other.attack_bonus, 3);
        assert_eq!(other.damage_dice_count, 1);
        assert_eq!(other.damage_dice_sides, 6);
    }
}

#[test]
fn an_encounter_is_raised_from_the_listed_monsters() {
    let c = campaign();
    let raised = c.build_encounter(c.find_node("glade").unwrap()).unwrap();
    assert!(raised.in_progress);
    let names: Vec<&str> = raised.monsters.iter().map(|m| m.name.as_str()).collect();
    assert_eq!(names, vec!["Goblin", "Goblin", "wolf"]);
    let hps: Vec<i32> = raised.monsters.iter().map(|m| m.current_hp).collect();
    assert_eq!(hps, vec![7, 7, 8]);
}

#[test]
fn a_node_without_a_monster_list_raises_no_encounter() {
    let c = campaign();
    assert!(c.build_encounter(c.find_node("bare").unwrap()).is_none());
    assert!(c.build_encounter(c.find_node("road").unwrap()).is_none());
}

#[test]
fn an_entry_with_count_zero_raises_no_monster() {
    let c = campaign();
    let mut empty = node("empty", NodeType::Combat, Vec::new());
    empty.encounter = Some(EncounterSpec {
        monsters: vec![
            MonsterSpec { reference: "srd_goblin".to_string(), count: 0 },
            MonsterSpec { reference: "rat".to_string(), count: 3 },
            MonsterSpec { reference: "wolf".to_string(), count: 0 },
        ],
    });
    let raised = c.build_encounter(&empty).unwrap();
    let names: Vec<&str> = raised.monsters.iter().map(|m| m.name.as_str()).collect();
    assert_eq!(names, vec!["rat", "rat", "rat"]);
}

#[test]
fn a_combat_node_without_an_encounter_is_reported() {
    let c = campaign();
    let mut state = state_at("bare");
    let mut dice = DiceRoller::new(1);
    c.apply_choice("attack", &mut state, &mut dice);
    assert_eq!(state.current_node_id, "bare");
    assert_eq!(state.last_log, Some("No encounter to resolve.".to_string()));
    assert!(state.encounter.is_none());
}

#[test]
fn the_first_choice_at_a_combat_node_raises_the_encounter() {
    let c = campaign();
    let mut state = state_at("glade");
    let mut dice = DiceRoller::new(1);
    c.apply_choice("continue", &mut state, &mut dice);
    let fight = state.encounter.as_ref().unwrap();
    assert_eq!(fight.monsters.len(), 3);
    assert!(state.last_log.as_ref().unwrap().starts_with("You press on..."));
}

#[test]
fn a_finishing_blow_wins_the_fight() {
    let c = campaign();
    for seed in 0..50 {
        let mut state = state_at("glade");
        state.character.proficiency_bonus = 1000;
        state.encounter = Some(Encounter { monsters: vec![foe("Rat", 1, 3)], in_progress: true });
        let mut dice = DiceRoller::new(seed);
        let mut twin = DiceRoller::new(seed);
        c.apply_choice("attack", &mut state, &mut dice);
        twin.d20();
        let damage = twin.roll(1, 8) + 3;
        assert_eq!(state.current_node_id, "end");
        assert_eq!(state.character.current_hp, 24);
        let fight = state.encounter.as_ref().unwrap();
        assert!(!fight.in_progress);
        assert_eq!(fight.monsters[0].current_hp, 1 - damage);
        assert_eq!(
            state.last_log,
            Some(format!("You hit Rat for {} damage!\nYou won the fight!", damage))
        );
        assert_eq!(dice.d20(), twin.d20());
    }
}

#[test]
fn a_win_without_a_victory_target_stays_put() {
    let mut c = campaign();
    c.nodes[1].on_victory = None;
    let mut state = state_at("glade");
    state.character.proficiency_bonus = 1000;
    state.encounter = Some(Encounter { monsters: vec![foe("Rat", 1, 3)], in_progress: true });
    let mut dice = DiceRoller::new(4);
    c.apply_choice("attack", &mut state, &mut dice);
    assert_eq!(state.current_node_id, "glade");
    assert!(!state.encounter.as_ref().unwrap().in_progress);
    assert!(state
        .last_log
        .as_ref()
        .unwrap()
        .ends_with("\nYou have won, but the story has nowhere to go."));
}

#[test]
fn the_last_hit_point_is_lost_to_a_sure_hit() {
    let c = campaign();
    for choice in ["continue", "attack", "dance"] {
        for seed in 0..30 {
            let mut state = state_at("glade");
            state.character.current_hp = 1;
            state.character.proficiency_bonus = -1000;
            state.encounter = Some(Encounter {
                monsters: vec![foe("Ogre", 30, 1000), foe("Rat", 5, 1000)],
                in_progress: true,
            });
            let mut dice = DiceRoller::new(seed);
            c.apply_choice(choice, &mut state, &mut dice);
            assert_eq!(state.current_node_id, "pit");
            assert!(state.character.current_hp <= 0);
            assert!(!state.encounter.as_ref().unwrap().in_progress);
            let log = state.last_log.unwrap();
            let lines: Vec<&str> = log.split('\n').collect();
            assert_eq!(lines.len(), 3);
            assert!(lines[1].starts_with("Ogre hits you for "));
            assert_eq!(lines[2], "You have been defeated...");
        }
    }
}

#[test]
fn a_defeat_without_a_defeat_target_stays_put() {
    let mut c = campaign();
    c.nodes[1].on_defeat = None;
    let mut state = state_at("glade");
    state.character.current_hp = 1;
    state.encounter = Some(Encounter { monsters: vec![foe("Ogre", 30, 1000)], in_progress: true });
    let mut dice = DiceRoller::new(8);
    c.apply_choice("continue", &mut state, &mut dice);
    assert_eq!(state.current_node_id, "glade");
    assert!(state.character.current_hp <= 0);
    assert!(!state.encounter.as_ref().unwrap().in_progress);
    let log = state.last_log.unwrap();
    let lines: Vec<&str> = log.split('\n').collect();
    assert_eq!(lines.len(), 2);
    assert_eq!(lines[0], "You press on...");
    assert!(lines[1].starts_with("Ogre hits you for "));
}

#[test]
fn pressing_on_exposes_the_hero_to_every_standing_monster() {
    let c = campaign();
    let mut state = state_at("glade");
    state.character.current_hp = 1000;
    state.encounter = Some(Encounter {
        monsters: vec![foe("Ogre", 30, 1000), foe("Ghost", 0, 1000), foe("Rat", 5, -1000)],
        in_progress: true,
    });
    let mut dice = DiceRoller::new(8);
    let mut twin = DiceRoller::new(8);
    c.apply_choice("continue", &mut state, &mut dice);
    twin.d20();
    let damage = twin.roll(1, 6);
    twin.d20();
    assert_eq!(state.current_node_id, "glade");
    assert_eq!(state.character.current_hp, 1000 - damage);
    assert!(state.encounter.as_ref().unwrap().in_progress);
    assert_eq!(
        state.last_log,
        Some(format!("You press on...\nOgre hits you for {} damage!\nRat misses you.", damage))
    );
    assert_eq!(dice.d20(), twin.d20());
}

#[test]
fn an_unknown_combat_choice_is_reported_and_the_monsters_still_act() {
    let c = campaign();
    let mut state = state_at("glade");
    state.encounter = Some(Encounter { monsters: vec![foe("Rat", 5, -1000)], in_progress: true });
    let mut dice = DiceRoller::new(8);
    c.apply_choice("dance", &mut state, &mut dice);
    assert_eq!(state.current_node_id, "glade");
    assert_eq!(state.last_log, Some("Unknown combat choice: dance\nRat misses you.".to_string()));
}

#[test]
fn an_attack_with_no_monster_standing_finds_no_target() {
    let c = campaign();
    let mut state = state_at("glade");
    state.encounter = Some(Encounter { monsters: vec![foe("Rat", 0, 3)], in_progress: true });
    let mut dice = DiceRoller::new(8);
    let mut twin = DiceRoller::new(8);
    c.apply_choice("attack", &mut state, &mut dice);
    assert_eq!(state.current_node_id, "end");
    assert_eq!(
        state.last_log,
        Some("There is nothing left to attack.\nYou won the fight!".to_string())
    );
    assert_eq!(dice.d20(), twin.d20());
}

#[test]
fn a_resolved_encounter_is_kept_when_the_node_is_entered_again() {
    let c = campaign();
    let mut state = state_at("glade");
    state.encounter = Some(Encounter { monsters: vec![foe("Rat", -2, 3)], in_progress: false });
    let mut dice = DiceRoller::new(8);
    c.apply_choice("continue", &mut state, &mut dice);
    assert_eq!(state.current_node_id, "end");
    let fight = state.encounter.as_ref().unwrap();
    assert_eq!(fight.monsters.len(), 1);
    assert_eq!(fight.monsters[0].current_hp, -2);
    assert_eq!(state.last_log, Some("You press on...\nYou won the fight!".to_string()));
}

#[test]
fn a_hero_who_is_down_is_not_attacked_again() {
    let c = campaign();
    let mut state = state_at("glade");
    state.character.current_hp = 0;
    state.encounter = Some(Encounter { monsters: vec![foe("Ogre", 30, 1000)], in_progress: true });
    let mut dice = DiceRoller::new(8);
    let mut twin = DiceRoller::new(8);
    c.apply_choice("continue", &mut state, &mut dice);
    assert_eq!(state.character.current_hp, 0);
    assert_eq!(state.current_node_id, "pit");
    assert_eq!(state.last_log, Some("You press on...\nYou have been defeated...".to_string()));
    assert_eq!(dice.d20(), twin.d20());
}

#[test]
fn a_round_that_is_not_over_is_left_open() {
    let c = campaign();
    let glade = c.find_node("glade").unwrap();
    let mut fight = Encounter { monsters: vec![foe("Rat", 5, 3)], in_progress: true };
    let mut lines = vec!["You press on...".to_string()];
    let next = conclude_round(glade, &hero(), &mut fight, &mut lines);
    assert_eq!(next, None);
    assert!(fight.in_progress);
    assert_eq!(lines, vec!["You press on...".to_string()]);
}

#[test]
fn a_round_that_is_won_moves_to_the_victory_target() {
    let c = campaign();
    let glade = c.find_node("glade").unwrap();
    let mut fight = Encounter { monsters: vec![foe("Rat", 0, 3)], in_progress: true };
    let mut lines = Vec::new();
    let next = conclude_round(glade, &hero(), &mut fight, &mut lines);
    assert_eq!(next, Some("end".to_string()));
    assert!(!fight.in_progress);
    assert_eq!(lines, vec!["You won the fight!".to_string()]);
}

#[test]
fn a_round_that_is_lost_moves_to_the_defeat_target() {
    let c = campaign();
    let glade = c.find_node("glade").unwrap();
    let mut fight = Encounter { monsters: vec![foe("Rat", 5, 3)], in_progress: true };
    let mut down = hero();
    down.current_hp = -1;
    let mut lines = Vec::new();
    let next = conclude_round(glade, &down, &mut fight, &mut lines);
    assert_eq!(next, Some("pit".to_string()));
    assert!(!fight.in_progress);
    assert_eq!(lines, vec!["You have been defeated...".to_string()]);
}

#[test]
fn a_round_that_is_lost_without_a_target_adds_no_line() {
    let c = campaign();
    let bare = c.find_node("bare").unwrap();
    let mut fight = Encounter { monsters: vec![foe("Rat", 5, 3)], in_progress: true };
    let mut down = hero();
    down.current_hp = 0;
    let mut lines = vec!["first".to_string()];
    let next = conclude_round(bare, &down, &mut fight, &mut lines);
    assert_eq!(next, None);
    assert!(!fight.in_progress);
    assert_eq!(lines, vec!["first".to_string()]);
}

#[test]
fn a_whole_graph_is_well_formed() {
    assert!(campaign().is_well_formed());
}

#[test]
fn a_missing_start_node_breaks_the_graph() {
    let mut c = campaign();
    c.start_node_id = "nowhere".to_string();
    assert!(!c.is_well_formed());
}

#[test]
fn a_dangling_target_breaks_the_graph() {
    let mut c = campaign();
    c.nodes[0].choices[0].next = Some("nowhere".to_string());
    assert!(!c.is_well_formed());
    let mut c = campaign();
    c.nodes[1].on_victory = Some("nowhere".to_string());
    assert!(!c.is_well_formed());
    let mut c = campaign();
    c.nodes[1].on_defeat = Some("nowhere".to_string());
    assert!(!c.is_well_formed());
    let mut c = campaign();
    c.nodes[0].choices[2].skill_check.as_mut().unwrap().success_next = Some("x".to_string());
    assert!(!c.is_well_formed());
    let mut c = campaign();
    c.nodes[0].choices[2].skill_check.as_mut().unwrap().failure_next = Some("x".to_string());
    assert!(!c.is_well_formed());
}

#[test]
fn a_monster_that_is_down_needs_no_dice() {
    let c = campaign();
    let mut state = state_at("glade");
    let mut husk = foe("Husk", 0, 1000);
    husk.damage_dice_count = 3;
    husk.damage_dice_sides = 0;
    state.encounter = Some(Encounter {
        monsters: vec![husk, foe("Rat", 5, -1000)],
        in_progress: true,
    });
    let mut dice = DiceRoller::new(2);
    c.apply_choice("continue", &mut state, &mut dice);
    assert_eq!(state.current_node_id, "glade");
    assert_eq!(state.last_log, Some("You press on...\nRat misses you.".to_string()));
}

#[test]
fn a_narrative_choice_leaves_a_held_encounter_alone() {
    let c = campaign();
    let mut state = state_at("road");
    let mut odd = foe("Odd", 5, 1000);
    odd.damage_dice_count = 3;
    odd.damage_dice_sides = 0;
    state.encounter = Some(Encounter { monsters: vec![odd], in_progress: true });
    let mut dice = DiceRoller::new(2);
    c.apply_choice("wait", &mut state, &mut dice);
    assert_eq!(state.current_node_id, "road");
    let held = state.encounter.as_ref().unwrap();
    assert_eq!(held.monsters.len(), 1);
    assert_eq!(held.monsters[0].current_hp, 5);
    assert!(held.in_progress);
}

#[test]
fn an_encounter_held_from_an_earlier_node_is_fought_on() {
    let c = campaign();
    let mut state = state_at("bare");
    state.encounter = Some(Encounter { monsters: vec![foe("Rat", 0, 3)], in_progress: true });
    let mut dice = DiceRoller::new(2);
    c.apply_choice("continue", &mut state, &mut dice);
    assert_eq!(state.current_node_id, "bare");
    assert!(!state.encounter.as_ref().unwrap().in_progress);
    assert_eq!(
        state.last_log,
        Some("You press on...\nYou have won, but the story has nowhere to go.".to_string())
    );
}
