use skyedex::cli::{parse, Request, UsageError};

fn args(list: &[&str]) -> Vec<String> {
    list.iter().map(|s| s.to_string()).collect()
}

#[test]
fn pokemon_request_with_flags_parses() {
    let r = parse(&args(&["pokemon", "pikachu", "-s", "--ability"]));
    match r {
        Ok(Request::PokemonLookup { name, show_stats, show_ability, show_basic, show_all }) => {
            assert_eq!(name, "pikachu");
            assert!(show_stats);
            assert!(show_ability);
            assert!(show_basic);
            assert!(!show_all);
        },
        other => panic!("unexpected parse outcome: {:?}", other.is_ok()),
    }
}

#[test]
fn no_basic_switches_the_basic_part_off() {
    let r = parse(&args(&["pokemon", "ditto", "--no-basic", "-a"]));
    match r {
        Ok(Request::PokemonLookup { name, show_basic, show_all, .. }) => {
            assert_eq!(name, "ditto");
            assert!(!show_basic);
            assert!(show_all);
        },
        _ => panic!("expected a pokemon request"),
    }
}

#[test]
fn flag_order_does_not_matter() {
    let r = parse(&args(&["pokemon", "--stat", "eevee"]));
    match r {
        Ok(Request::PokemonLookup { name, show_stats, .. }) => {
            assert_eq!(name, "eevee");
            assert!(show_stats);
        },
        _ => panic!("expected a pokemon request"),
    }
}

#[test]
fn empty_line_misses_the_subcommand() {
    assert_eq!(parse(&args(&[])).unwrap_err(), UsageError::MissingSubcommand);
}

#[test]
fn unknown_subcommand_is_refused() {
    assert_eq!(parse(&args(&["berry", "oran"])).unwrap_err(), UsageError::UnknownSubcommand);
}

#[test]
fn missing_name_is_refused() {
    assert_eq!(parse(&args(&["pokemon"])).unwrap_err(), UsageError::MissingName);
    assert_eq!(parse(&args(&["pokemon", "-s"])).unwrap_err(), UsageError::MissingName);
    assert_eq!(parse(&args(&["nature"])).unwrap_err(), UsageError::MissingName);
}

#[test]
fn unknown_flag_is_refused() {
    assert_eq!(parse(&args(&["pokemon", "pikachu", "-z"])).unwrap_err(), UsageError::UnknownFlag);
    assert_eq!(parse(&args(&["type", "fire", "--stat"])).unwrap_err(), UsageError::UnknownFlag);
    assert_eq!(parse(&args(&["nature", "-a"])).unwrap_err(), UsageError::UnknownFlag);
}

#[test]
fn extra_positionals_are_refused() {
    assert_eq!(
        parse(&args(&["pokemon", "pikachu", "raichu"])).unwrap_err(),
        UsageError::UnexpectedArgument,
    );
    assert_eq!(
        parse(&args(&["type", "fire", "water", "grass", "rock"])).unwrap_err(),
        UsageError::UnexpectedArgument,
    );
}

#[test]
fn type_matchup_request_parses_both_targets() {
    let r = parse(&args(&["type", "fire", "-a", "water", "grass"]));
    match r {
        Ok(Request::TypeLookup { name, compare, primary, secondary, .. }) => {
            assert_eq!(name, "fire");
            assert!(compare);
            assert_eq!(primary, Some("water".to_string()));
            assert_eq!(secondary, Some("grass".to_string()));
        },
        _ => panic!("expected a type request"),
    }
}

#[test]
fn missing_matchup_types_stay_absent() {
    let r = parse(&args(&["type", "fire", "--against"]));
    match r {
        Ok(Request::TypeLookup { compare, primary, secondary, .. }) => {
            assert!(compare);
            assert_eq!(primary, None);
            assert_eq!(secondary, None);
        },
        _ => panic!("expected a type request"),
    }
}

#[test]
fn the_null_sentinel_means_absent() {
    let r = parse(&args(&["type", "fire", "-a", "null", "null"]));
    match r {
        Ok(Request::TypeLookup { primary, secondary, .. }) => {
            assert_eq!(primary, None);
            assert_eq!(secondary, None);
        },
        _ => panic!("expected a type request"),
    }
}

#[test]
fn defense_and_offense_switches_parse() {
    let r = parse(&args(&["type", "fire", "-d"]));
    match r {
        Ok(Request::TypeLookup { show_defense, show_offense, compare, .. }) => {
            assert!(show_defense);
            assert!(!show_offense);
            assert!(!compare);
        },
        _ => panic!("expected a type request"),
    }
    let r = parse(&args(&["type", "fire", "--offense"]));
    match r {
        Ok(Request::TypeLookup { show_defense, show_offense, .. }) => {
            assert!(!show_defense);
            assert!(show_offense);
        },
        _ => panic!("expected a type request"),
    }
}

#[test]
fn nature_request_parses() {
    let r = parse(&args(&["nature", "adamant"]));
    match r {
        Ok(Request::NatureLookup { name }) => assert_eq!(name, "adamant"),
        _ => panic!("expected a nature request"),
    }
}

#[test]
fn usage_errors_carry_their_messages() {
    assert_eq!(
        UsageError::MissingSubcommand.message(),
        "Expected a subcommand: pokemon, type or nature."
    );
    assert_eq!(
        UsageError::UnknownSubcommand.message(),
        "Unknown subcommand: expected pokemon, type or nature."
    );
    assert_eq!(UsageError::MissingName.message(), "Expected a name to look up.");
    assert_eq!(UsageError::UnexpectedArgument.message(), "Too many arguments.");
    assert_eq!(UsageError::UnknownFlag.message(), "Unknown flag.");
}
