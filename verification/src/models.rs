use vstd::prelude::*;

verus! {

/// An entity row staged for the bulk insert into the `pokemon` table.
/// One row per successfully fetched entity, plus one sentinel row.
#[derive(Debug, PartialEq, Clone)]
pub struct NewPokemon {
    pub pokemon_id: i32,
    pub name: String,
    pub large: String,
    pub small: String,
    pub base_experience: i32,
    pub height: i32,
    pub weight: i32,
    pub hp: i32,
    pub attack: i32,
    pub defense: i32,
    pub special_attack: i32,
    pub special_defense: i32,
    pub speed: i32,
}

/// An entity row as read back from the `pokemon` table, with its generated key.
#[derive(Debug, Clone, PartialEq)]
pub struct Pokemon {
    pub id: i32,
    pub pokemon_id: i32,
    pub name: String,
    pub large: String,
    pub small: String,
    pub base_experience: i32,
    pub height: i32,
    pub weight: i32,
    pub hp: i32,
    pub attack: i32,
    pub defense: i32,
    pub special_attack: i32,
    pub special_defense: i32,
    pub speed: i32,
}

/// An association row staged for the join table, after its tag name has been
/// resolved to the taxonomy row's generated key.
#[derive(Debug, PartialEq, Clone)]
pub struct NewPokemonType {
    pub pokemon_id: i32,
    pub type_id: i32,
}

/// An association row as read back from the join table.
#[derive(Debug, Clone, PartialEq)]
pub struct PokemonType {
    pub id: i32,
    pub pokemon_id: i32,
    pub type_id: i32,
}

/// A taxonomy row staged for insertion: a tag name and its canonical URL.
/// The scrape deduplicates these by name before any write.
#[derive(Debug, PartialEq, Eq, Hash, Clone)]
pub struct NewPType {
    pub name: String,
    pub url: String,
}

/// A taxonomy row as read back from the `ptype` table, with its generated key.
#[derive(Debug, Clone, PartialEq)]
pub struct PType {
    pub id: i32,
    pub name: String,
    pub url: String,
}

/// Column-wise maxima over all entity rows, staged for insertion.
#[derive(Debug, PartialEq, Clone)]
pub struct NewMaxStats {
    pub hp: i32,
    pub attack: i32,
    pub defense: i32,
    pub special_attack: i32,
    pub special_defense: i32,
    pub speed: i32,
}

impl Default for NewMaxStats {
    fn default() -> (r: NewMaxStats)
        ensures
            r.hp == 0 && r.attack == 0 && r.defense == 0,
            r.special_attack == 0 && r.special_defense == 0 && r.speed == 0,
    {
        NewMaxStats {
            hp: 0,
            attack: 0,
            defense: 0,
            special_attack: 0,
            special_defense: 0,
            speed: 0,
        }
    }
}

/// Column-wise maxima as read back, with the generated key.
#[derive(Debug, Clone, PartialEq)]
pub struct MaxStats {
    pub id: i32,
    pub hp: i32,
    pub attack: i32,
    pub defense: i32,
    pub special_attack: i32,
    pub special_defense: i32,
    pub speed: i32,
}

} // verus!
