use solo_engine::rules::ability_from_str;
use solo_engine::rules::Ability;
use solo_engine::rules::AbilityScores;

fn scores(value: i32) -> AbilityScores {
    AbilityScores { str: value, dex: value, con: value, int_: value, wis: value, cha: value }
}

#[test]
fn modifiers_of_common_scores() {
    let expected = [(8, -1), (10, 0), (11, 0), (12, 1), (13, 1), (20, 5)];
    for (score, modifier) in expected {
        assert_eq!(scores(score).modifier(Ability::Strength), modifier);
    }
}

#[test]
fn modifiers_round_toward_zero_below_ten() {
    assert_eq!(scores(9).modifier(Ability::Wisdom), 0);
    assert_eq!(scores(7).modifier(Ability::Wisdom), -1);
    assert_eq!(scores(6).modifier(Ability::Wisdom), -2);
    assert_eq!(scores(1).modifier(Ability::Wisdom), -4);
    assert_eq!(scores(0).modifier(Ability::Wisdom), -5);
    assert_eq!(scores(-1).modifier(Ability::Wisdom), -5);
}

#[test]
fn modifiers_of_the_extreme_scores() {
    assert_eq!(scores(i32::MAX).modifier(Ability::Charisma), 1_073_741_818);
    assert_eq!(scores(i32::MIN).modifier(Ability::Charisma), -1_073_741_829);
}

#[test]
fn modifier_reads_the_score_of_the_ability_asked_for() {
    let sheet = AbilityScores { str: 8, dex: 12, con: 14, int_: 16, wis: 18, cha: 20 };
    assert_eq!(sheet.modifier(Ability::Strength), -1);
    assert_eq!(sheet.modifier(Ability::Dexterity), 1);
    assert_eq!(sheet.modifier(Ability::Constitution), 2);
    assert_eq!(sheet.modifier(Ability::Intelligence), 3);
    assert_eq!(sheet.modifier(Ability::Wisdom), 4);
    assert_eq!(sheet.modifier(Ability::Charisma), 5);
}

#[test]
fn ability_codes_are_read() {
    assert_eq!(ability_from_str("STR"), Some(Ability::Strength));
    assert_eq!(ability_from_str("DEX"), Some(Ability::Dexterity));
    assert_eq!(ability_from_str("CON"), Some(Ability::Constitution));
    assert_eq!(ability_from_str("INT"), Some(Ability::Intelligence));
    assert_eq!(ability_from_str("WIS"), Some(Ability::Wisdom));
    assert_eq!(ability_from_str("CHA"), Some(Ability::Charisma));
}

#[test]
fn ability_words_are_read() {
    assert_eq!(ability_from_str("STRENGTH"), Some(Ability::Strength));
    assert_eq!(ability_from_str("DEXTERITY"), Some(Ability::Dexterity));
    assert_eq!(ability_from_str("CONSTITUTION"), Some(Ability::Constitution));
    assert_eq!(ability_from_str("INTELLIGENCE"), Some(Ability::Intelligence));
    assert_eq!(ability_from_str("WISDOM"), Some(Ability::Wisdom));
    assert_eq!(ability_from_str("CHARISMA"), Some(Ability::Charisma));
}

#[test]
fn ability_names_are_read_in_any_case() {
    assert_eq!(ability_from_str("str"), Some(Ability::Strength));
    assert_eq!(ability_from_str("Dexterity"), Some(Ability::Dexterity));
    assert_eq!(ability_from_str("wIsDoM"), Some(Ability::Wisdom));
    assert_eq!(ability_from_str("cha"), Some(Ability::Charisma));
}

#[test]
fn other_texts_name_no_ability() {
    assert_eq!(ability_from_str(""), None);
    assert_eq!(ability_from_str("luck"), None);
    assert_eq!(ability_from_str("st"), None);
    assert_eq!(ability_from_str("strr"), None);
    assert_eq!(ability_from_str(" str"), None);
    assert_eq!(ability_from_str("str "), None);
    assert_eq!(ability_from_str("stre"), None);
}

#[test]
fn letters_outside_ascii_are_not_folded() {
    // U+017F, the long s, is upper-cased to S by Unicode but not by ASCII rules.
    assert_eq!(ability_from_str("\u{17f}tr"), None);
    assert_eq!(ability_from_str("wi\u{17f}"), None);
    assert_eq!(ability_from_str("d\u{e9}x"), None);
}
