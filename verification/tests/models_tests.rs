use termdex::models::NewMaxStats;
use termdex::scraper::StatValues;

#[test]
fn test_stat_values_default_is_all_zero() {
    let sv = StatValues::default();
    assert_eq!(
        sv,
        StatValues {
            hp: 0,
            attack: 0,
            defense: 0,
            special_attack: 0,
            special_defense: 0,
            speed: 0,
        }
    );
}

#[test]
fn test_new_max_stats_default_is_all_zero() {
    let ms = NewMaxStats::default();
    assert_eq!(
        ms,
        NewMaxStats {
            hp: 0,
            attack: 0,
            defense: 0,
            special_attack: 0,
            special_defense: 0,
            speed: 0,
        }
    );
}
