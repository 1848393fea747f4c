use termdex::downloader::{
    FetchError, FetchPolicy, PokeType, PokemonAPIData, Stat, StatName, TypeName,
    resolve_attempts,
};
use termdex::scraper::{FetchRecord, FetchedEntity, Scraper};

fn tiny_payload(name: &str) -> PokemonAPIData {
    PokemonAPIData {
        name: String::from(name),
        types: vec![PokeType {
            poketype: TypeName {
                name: String::from("grass"),
                url: String::from("U"),
            },
        }],
        stats: vec![Stat {
            base_stat: 45,
            effort: 0,
            stat: StatName {
                name: String::from("speed"),
            },
        }],
        abilities: Vec::new(),
        base_experience: 64,
        height: 7,
        moves: Vec::new(),
        weight: 69,
    }
}

#[test]
fn test_no_silent_disappearance() {
    // Every entity a batch covers ends up either as a staged row or as a
    // recorded failure.
    let mut scraper = Scraper::new();
    let records = vec![
        FetchRecord {
            url: String::from("https://pokeapi.co/api/v2/pokemon/1"),
            entity_id: 1,
            outcome: Ok(FetchedEntity {
                data: tiny_payload("bulbasaur"),
                large: String::from("L"),
                small: String::from("S"),
            }),
        },
        FetchRecord {
            url: String::from("https://pokeapi.co/api/v2/pokemon/2"),
            entity_id: 2,
            outcome: Err(FetchError {
                message: String::from("connection reset"),
            }),
        },
    ];
    scraper.process_results(records);

    assert!(scraper.pokemon_data.iter().any(|r| r.pokemon_id == 1));
    assert!(!scraper.pokemon_data.iter().any(|r| r.pokemon_id == 2));
    assert_eq!(scraper.failures.len(), 1);
    assert_eq!(scraper.failures[0].entity_id, 2);
    assert_eq!(scraper.failures[0].message, "connection reset");
    // Both URLs were marked visited, success or not.
    assert_eq!(scraper.visited_urls.len(), 2);
}

#[test]
fn test_visited_urls_deduplicate() {
    let mut scraper = Scraper::new();
    let url = String::from("https://pokeapi.co/api/v2/pokemon/9");
    scraper.record_result(
        url.clone(),
        9,
        Err(FetchError {
            message: String::from("timeout"),
        }),
    );
    scraper.record_result(
        url.clone(),
        9,
        Err(FetchError {
            message: String::from("timeout again"),
        }),
    );
    assert_eq!(scraper.visited_urls, vec![url]);
    assert_eq!(scraper.failures.len(), 2);
}

#[test]
fn test_fetch_third_attempt_succeeds() {
    // Three tries, the first two fail, the third succeeds: the fetch
    // resolves to the third attempt's success.
    let outcomes = vec![
        Err(FetchError {
            message: String::from("first down"),
        }),
        Err(FetchError {
            message: String::from("second down"),
        }),
        Ok(tiny_payload("bulbasaur")),
    ];
    let resolved = resolve_attempts(outcomes).unwrap();
    assert_eq!(resolved.name, "bulbasaur");
}

#[test]
fn test_fetch_all_attempts_fail_returns_last_error() {
    let outcomes: Vec<Result<PokemonAPIData, FetchError>> = vec![
        Err(FetchError {
            message: String::from("first down"),
        }),
        Err(FetchError {
            message: String::from("second down"),
        }),
        Err(FetchError {
            message: String::from("third down"),
        }),
    ];
    let err = resolve_attempts(outcomes).unwrap_err();
    assert_eq!(err.message, "third down");
}

#[test]
fn test_first_success_wins() {
    let outcomes = vec![
        Err(FetchError {
            message: String::from("down"),
        }),
        Ok(tiny_payload("early")),
        Ok(tiny_payload("late")),
    ];
    let resolved = resolve_attempts(outcomes).unwrap();
    assert_eq!(resolved.name, "early");
}

#[test]
fn test_should_retry_rule() {
    let policy = FetchPolicy::new(3);
    // A failure retries while attempts remain.
    assert!(policy.should_retry(1, true));
    assert!(policy.should_retry(2, true));
    // The third failed attempt was the last one.
    assert!(!policy.should_retry(3, true));
    // Success never retries.
    assert!(!policy.should_retry(1, false));
}
