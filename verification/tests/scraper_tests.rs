use termdex::downloader::{
    PokeAbility, PokeAbilityName, PokeMove, PokeMoveDetails, PokeType, PokemonAPIData, Stat,
    StatName, TypeName,
};
use termdex::models::{NewPType, NewPokemon, PType};
use termdex::scraper::{resolve_associations, sentinel_row, Scraper};

fn bulbasaur_payload() -> PokemonAPIData {
    let pokemon_types = vec![PokeType {
        poketype: TypeName {
            name: String::from("grass"),
            url: String::from("https://pokeapi.co/api/v2/type/12/"),
        },
    }];
    let pokemon_stats = vec![Stat {
        base_stat: 80,
        effort: 0,
        stat: StatName {
            name: String::from("hp"),
        },
    }];
    let pokemon_abilities = vec![PokeAbility {
        ability: PokeAbilityName {
            name: String::from("overgrow"),
            url: String::from("https://pokeapi.co/api/v2/ability/65/"),
        },
    }];
    let pokemon_moves = vec![PokeMove {
        poke_move: PokeMoveDetails {
            name: String::from("swords-dance"),
            url: String::from("https://pokeapi.co/api/v2/move/14/"),
        },
    }];
    PokemonAPIData {
        name: String::from("bulbasaur"),
        types: pokemon_types,
        stats: pokemon_stats,
        abilities: pokemon_abilities,
        base_experience: 64,
        height: 7,
        moves: pokemon_moves,
        weight: 69,
    }
}

#[test]
fn test_scraper() {
    let l_data = String::from("large bulbasaur sprite");
    let s_data = String::from("small bulbasaur sprite");

    let expected = vec![NewPokemon {
        pokemon_id: 1,
        name: String::from("bulbasaur"),
        large: l_data.clone(),
        small: s_data.clone(),
        base_experience: 64,
        height: 7,
        weight: 69,
        hp: 80,
        attack: 0,
        defense: 0,
        special_attack: 0,
        special_defense: 0,
        speed: 0,
    }];

    let mut scraper = Scraper::new();
    scraper.save_pokemon(bulbasaur_payload(), 1, l_data, s_data);
    assert_eq!(scraper.pokemon_data, expected);
}

#[test]
fn test_entity_one_scenario() {
    let mut scraper = Scraper::new();
    let mut payload = bulbasaur_payload();
    payload.types[0].poketype.url = String::from("U");
    scraper.save_pokemon(payload, 1, String::from("L"), String::from("S"));

    let row = &scraper.pokemon_data[0];
    assert_eq!(row.hp, 80);
    assert_eq!(row.attack, 0);
    assert_eq!(row.defense, 0);
    assert_eq!(row.special_attack, 0);
    assert_eq!(row.special_defense, 0);
    assert_eq!(row.speed, 0);
    assert_eq!(row.base_experience, 64);
    assert_eq!(row.height, 7);
    assert_eq!(row.weight, 69);

    assert_eq!(
        scraper.pokemon_types,
        vec![NewPType {
            name: String::from("grass"),
            url: String::from("U"),
        }]
    );

    assert_eq!(scraper.poke_type_tracker.len(), 1);
    assert_eq!(scraper.poke_type_tracker[0].pokemon_id, 1);
    assert_eq!(scraper.poke_type_tracker[0].name, "grass");

    // Resolve the one pending association against the returned taxonomy row.
    let db_types = vec![PType {
        id: 12,
        name: String::from("grass"),
        url: String::from("U"),
    }];
    let resolved = resolve_associations(&db_types, &scraper.poke_type_tracker).unwrap();
    assert_eq!(resolved.len(), 1);
    assert_eq!(resolved[0].pokemon_id, 1);
    assert_eq!(resolved[0].type_id, 12);
}

#[test]
fn test_taxonomy_dedup_by_name() {
    let mut scraper = Scraper::new();
    let mut first = bulbasaur_payload();
    first.types[0].poketype.url = String::from("https://pokeapi.co/api/v2/type/12/");
    scraper.save_pokemon(first, 1, String::from("L1"), String::from("S1"));

    // A second entity references the same tag name under a differently
    // formatted URL: the name is the dedup key, so no second row appears.
    let mut second = bulbasaur_payload();
    second.name = String::from("ivysaur");
    second.types[0].poketype.url = String::from("https://pokeapi.co/api/v2/type/12");
    scraper.save_pokemon(second, 2, String::from("L2"), String::from("S2"));

    assert_eq!(scraper.pokemon_types.len(), 1);
    assert_eq!(scraper.pokemon_types[0].name, "grass");
    assert_eq!(
        scraper.pokemon_types[0].url,
        "https://pokeapi.co/api/v2/type/12/"
    );
    // Both entities still have their association staged.
    assert_eq!(scraper.poke_type_tracker.len(), 2);
}

#[test]
fn test_sentinel_row_fields() {
    let sentinel = sentinel_row(String::from("big art"), String::from("small art"));
    assert_eq!(sentinel.pokemon_id, 0);
    assert_eq!(sentinel.name, "Not Found");
    assert_eq!(sentinel.large, "big art");
    assert_eq!(sentinel.small, "small art");
    assert_eq!(sentinel.base_experience, -1);
    assert_eq!(sentinel.height, -1);
    assert_eq!(sentinel.weight, -1);
    assert_eq!(sentinel.hp, -1);
    assert_eq!(sentinel.attack, -1);
    assert_eq!(sentinel.defense, -1);
    assert_eq!(sentinel.special_attack, -1);
    assert_eq!(sentinel.special_defense, -1);
    assert_eq!(sentinel.speed, -1);
}

#[test]
fn test_plan_always_holds_sentinel() {
    // Even a run where every fetch failed produces a plan with the sentinel.
    let scraper = Scraper::new();
    let plan = scraper.into_plan(String::from("nf large"), String::from("nf small"));
    assert_eq!(plan.sentinel.pokemon_id, 0);
    assert_eq!(plan.sentinel.name, "Not Found");
    assert!(plan.pokemon_rows.is_empty());
    assert!(plan.tag_types.is_empty());
}

#[test]
fn test_rerun_duplicates_rows() {
    // Re-running the pipeline against non-empty state duplicates rows:
    // there is no upsert and no already-ran guard, by design.
    let mut scraper = Scraper::new();
    scraper.save_pokemon(bulbasaur_payload(), 1, String::from("L"), String::from("S"));
    scraper.save_pokemon(bulbasaur_payload(), 1, String::from("L"), String::from("S"));
    assert_eq!(scraper.pokemon_data.len(), 2);
    assert_eq!(scraper.pokemon_data[0].pokemon_id, 1);
    assert_eq!(scraper.pokemon_data[1].pokemon_id, 1);
    // The taxonomy set still deduplicates, but the associations double up.
    assert_eq!(scraper.pokemon_types.len(), 1);
    assert_eq!(scraper.poke_type_tracker.len(), 2);
}

#[test]
fn test_resolve_unknown_tag_is_an_error() {
    let mut scraper = Scraper::new();
    scraper.save_pokemon(bulbasaur_payload(), 1, String::from("L"), String::from("S"));
    // The returned taxonomy rows miss the staged name entirely.
    let db_types = vec![PType {
        id: 3,
        name: String::from("poison"),
        url: String::from("V"),
    }];
    let err = resolve_associations(&db_types, &scraper.poke_type_tracker).unwrap_err();
    assert_eq!(err.name, "grass");
}

#[test]
fn test_association_round_trip() {
    let db_types = vec![
        PType {
            id: 3,
            name: String::from("poison"),
            url: String::from("V"),
        },
        PType {
            id: 12,
            name: String::from("grass"),
            url: String::from("U"),
        },
    ];
    let mut scraper = Scraper::new();
    let mut payload = bulbasaur_payload();
    payload.types.push(PokeType {
        poketype: TypeName {
            name: String::from("poison"),
            url: String::from("V"),
        },
    });
    scraper.save_pokemon(payload, 1, String::from("L"), String::from("S"));

    let resolved = resolve_associations(&db_types, &scraper.poke_type_tracker).unwrap();
    assert_eq!(resolved.len(), 2);
    for (assoc, pending) in resolved.iter().zip(scraper.poke_type_tracker.iter()) {
        // Following the foreign key back recovers the original tag name.
        let back = db_types.iter().find(|t| t.id == assoc.type_id).unwrap();
        assert_eq!(back.name, pending.name);
        assert_eq!(assoc.pokemon_id, pending.pokemon_id);
    }
}
