use skyedex::model::{LookupError, NatureInfo, PokemonInfo, TypeInfo};
use skyedex::model::{resolve_nature, resolve_pokemon, resolve_type};
use skyedex::render::{
    get_ability, get_nature_details, get_pokemon_type_names, get_stats, render_nature,
    render_pokemon, render_type, render_type_matchup, SecondaryLookup,
};

fn pikachu() -> PokemonInfo {
    PokemonInfo {
        name: "pikachu".to_string(),
        types: vec!["electric".to_string()],
        stats: vec![35, 55, 40, 50, 50, 90],
        abilities: vec!["static".to_string(), "lightning-rod".to_string()],
    }
}

fn bulbasaur() -> PokemonInfo {
    PokemonInfo {
        name: "bulbasaur".to_string(),
        types: vec!["grass".to_string(), "poison".to_string()],
        stats: vec![45, 49, 49, 65, 65, 45],
        abilities: vec!["overgrow".to_string()],
    }
}

fn bare_type(name: &str) -> TypeInfo {
    TypeInfo {
        name: name.to_string(),
        no_damage_from: vec![],
        half_damage_from: vec![],
        double_damage_from: vec![],
        no_damage_to: vec![],
        half_damage_to: vec![],
        double_damage_to: vec![],
    }
}

#[test]
fn one_type_renders_in_single_parentheses() {
    let lines = render_pokemon(&pikachu(), false, false, true, false);
    assert_eq!(lines, vec!["Pikachu\t(Electric)".to_string()]);
}

#[test]
fn two_types_render_comma_separated() {
    let lines = render_pokemon(&bulbasaur(), false, false, true, false);
    assert_eq!(lines, vec!["Bulbasaur\t(Grass, Poison)".to_string()]);
}

#[test]
fn stats_render_in_fixed_order_and_width() {
    let lines = render_pokemon(&pikachu(), true, false, false, false);
    assert_eq!(
        lines,
        vec![
            " HP:  35".to_string(),
            "Atk:  55\tDef:  40".to_string(),
            "SpA:  50\tSpD:  50".to_string(),
            "Spe:  90".to_string(),
        ]
    );
}

#[test]
fn three_digit_stats_fill_the_field() {
    let mut mon = pikachu();
    mon.stats = vec![5, 130, 4, 95, 101, 255];
    let lines = render_pokemon(&mon, true, false, false, false);
    assert_eq!(lines[0], " HP:   5");
    assert_eq!(lines[1], "Atk: 130\tDef:   4");
    assert_eq!(lines[2], "SpA:  95\tSpD: 101");
    assert_eq!(lines[3], "Spe: 255");
}

#[test]
fn abilities_render_joined_and_titlecased() {
    let lines = render_pokemon(&pikachu(), false, true, false, false);
    assert_eq!(lines, vec!["Abilities: Static, Lightning-rod".to_string()]);
}

#[test]
fn all_forces_stats_and_abilities() {
    let with_all = render_pokemon(&pikachu(), false, false, true, true);
    let with_both = render_pokemon(&pikachu(), true, true, true, false);
    assert_eq!(with_all, with_both);
    assert_eq!(with_all.len(), 6);
}

#[test]
fn accessors_give_titlecased_names_and_decimal_stats() {
    let mon = pikachu();
    assert_eq!(get_pokemon_type_names(&mon), vec!["Electric".to_string()]);
    assert_eq!(
        get_ability(&mon),
        vec!["Static".to_string(), "Lightning-rod".to_string()]
    );
    assert_eq!(
        get_stats(&mon),
        vec!["35", "55", "40", "50", "50", "90"]
            .into_iter()
            .map(|s| s.to_string())
            .collect::<Vec<String>>()
    );
}

#[test]
fn type_render_shows_both_blocks_by_default() {
    let mut fire = bare_type("fire");
    fire.half_damage_from = vec!["grass".to_string(), "ice".to_string()];
    fire.double_damage_from = vec!["water".to_string()];
    fire.double_damage_to = vec!["grass".to_string()];
    let blocks = render_type(&fire, false, false);
    assert_eq!(
        blocks,
        vec![
            "Fire".to_string(),
            "Immune To:\n".to_string(),
            "Resistant To:\nGrass Ice\n".to_string(),
            "Weakness To:\nWater\n".to_string(),
            "Ineffective Against:\n".to_string(),
            "Not Very Effective Against:\n".to_string(),
            "Very Effective Against:\nGrass\n".to_string(),
        ]
    );
}

#[test]
fn defense_only_uses_the_defense_headers() {
    let mut fire = bare_type("fire");
    fire.double_damage_from = vec!["water".to_string()];
    let blocks = render_type(&fire, true, false);
    assert_eq!(
        blocks,
        vec![
            "Fire".to_string(),
            "Immune To:\n".to_string(),
            "Resistant To:\n".to_string(),
            "Weakness To:\nWater\n".to_string(),
        ]
    );
}

#[test]
fn offense_only_uses_the_offense_headers() {
    let mut fire = bare_type("fire");
    fire.double_damage_to = vec!["grass".to_string(), "bug".to_string()];
    let blocks = render_type(&fire, false, true);
    assert_eq!(
        blocks,
        vec![
            "Fire".to_string(),
            "Ineffective Against:\n".to_string(),
            "Not Very Effective Against:\n".to_string(),
            "Very Effective Against:\nGrass Bug\n".to_string(),
        ]
    );
}

#[test]
fn matchup_without_secondary_is_the_primary_effectiveness() {
    let mut water = bare_type("water");
    water.double_damage_from = vec!["fire".to_string()];
    let fire = bare_type("fire");
    let line = render_type_matchup("fire", &fire, Some(water), SecondaryLookup::Absent);
    assert_eq!(line, Ok("A fire-type move will do 2x damage.".to_string()));
}

#[test]
fn matchup_with_secondary_multiplies_both_effectivenesses() {
    let mut water = bare_type("water");
    water.half_damage_from = vec!["fire".to_string()];
    let mut grass = bare_type("grass");
    grass.double_damage_from = vec!["fire".to_string()];
    let fire = bare_type("fire");
    let line = render_type_matchup(
        "fire",
        &fire,
        Some(water),
        SecondaryLookup::Found(grass),
    );
    assert_eq!(line, Ok("A fire-type move will do 1x damage.".to_string()));
}

#[test]
fn matchup_without_primary_names_the_missing_primary() {
    let fire = bare_type("fire");
    let r = render_type_matchup("fire", &fire, None, SecondaryLookup::Absent);
    assert_eq!(r, Err(LookupError::MissingPrimaryType));
    assert_eq!(
        LookupError::MissingPrimaryType.message(),
        "You forgot a primary type!"
    );
}

#[test]
fn matchup_with_unknown_secondary_keeps_the_type_error() {
    let fire = bare_type("fire");
    let water = bare_type("water");
    let r = render_type_matchup("fire", &fire, Some(water), SecondaryLookup::NotFound);
    assert_eq!(r, Err(LookupError::TypeNotFound));
}

#[test]
fn missing_records_earn_their_exact_messages() {
    assert_eq!(
        resolve_pokemon(None).unwrap_err().message(),
        "Couldn't find the Pokemon!"
    );
    assert_eq!(
        resolve_type(None).unwrap_err().message(),
        "Couldn't find the type!"
    );
    assert_eq!(
        resolve_nature(None).unwrap_err().message(),
        "Couldn't find the Nature!"
    );
    assert_eq!(LookupError::Dependency.message(), "Something went wrong!");
}

#[test]
fn found_records_pass_through_resolution() {
    let found = resolve_pokemon(Some(pikachu()));
    assert_eq!(found.unwrap().name, "pikachu");
    let t = resolve_type(Some(bare_type("fire")));
    assert_eq!(t.unwrap().name, "fire");
}

#[test]
fn nature_renders_both_stat_references() {
    let n = NatureInfo {
        name: "adamant".to_string(),
        decreased: Some("special-attack".to_string()),
        increased: Some("attack".to_string()),
    };
    assert_eq!(render_nature(&n), "-Special-attack, +Attack");
    assert_eq!(
        get_nature_details(&n),
        vec!["Special-attack".to_string(), "Attack".to_string()]
    );
}

#[test]
fn nature_without_references_prints_the_word_none() {
    let n = NatureInfo {
        name: "hardy".to_string(),
        decreased: None,
        increased: None,
    };
    assert_eq!(render_nature(&n), "-None, +None");
}
