use vstd::prelude::*;
use crate::models::{PType, Pokemon, PokemonType};

verus! {

/// An entity as the display front end shows it: the row itself plus the
/// names of its tags.
pub struct TUIPokemon {
    pub tui_pokemon: Pokemon,
    pub tui_types: Vec<String>,
}

/// The Unicode uppercase mapping of one character.
pub uninterp spec fn upper_of(c: char) -> Seq<char>;

/// Relies on char::to_uppercase: the uppercase mapping of a character,
/// which depends on the character alone; collecting the iterator yields
/// its characters in order.
#[verifier::external_body]
fn char_to_uppercase(c: char) -> (r: String)
    ensures
        r@ == upper_of(c),
{
    c.to_uppercase().collect::<String>()
}

/// Capitalize a word: the first character is replaced by its uppercase
/// mapping and the rest is kept; the empty string stays empty.
pub fn capitalize(s: &str) -> (r: String)
    ensures
        s@.len() == 0 ==> r@ == Seq::<char>::empty(),
        s@.len() > 0 ==> r@ == upper_of(s@[0]) + s@.subrange(1, s@.len() as int),
{
    let n = s.unicode_len();
    if n == 0 {
        String::new()
    } else {
        let first = s.get_char(0);
        let rest = s.substring_char(1, n);
        let up = char_to_uppercase(first);
        up.concat(rest)
    }
}

/// How a search term is interpreted: an all-digit term looks the entity up
/// by its external ID, anything else by name.
#[derive(Debug, PartialEq)]
pub enum SearchKey {
    Id(i32),
    Name(String),
}

pub open spec fn is_ascii_digit_char(c: char) -> bool {
    48 <= c as u32 <= 57
}

pub open spec fn all_ascii_digits(s: Seq<char>) -> bool {
    forall|i: int| 0 <= i < s.len() ==> is_ascii_digit_char(#[trigger] s[i])
}

pub open spec fn digit_val(c: char) -> int {
    c as u32 - 48
}

/// The number an all-digit term denotes.
pub open spec fn decimal_value(s: Seq<char>) -> int
    decreases s.len(),
{
    if s.len() == 0 {
        0
    } else {
        decimal_value(s.drop_last()) * 10 + digit_val(s.last())
    }
}

proof fn lemma_decimal_nonneg(s: Seq<char>)
    requires
        all_ascii_digits(s),
    ensures
        decimal_value(s) >= 0,
    decreases s.len(),
{
    if s.len() > 0 {
        assert(all_ascii_digits(s.drop_last()));
        lemma_decimal_nonneg(s.drop_last());
    }
}

proof fn lemma_decimal_prefix_le(s: Seq<char>, i: int)
    requires
        all_ascii_digits(s),
        0 <= i <= s.len(),
    ensures
        decimal_value(s.subrange(0, i)) <= decimal_value(s),
    decreases s.len() - i,
{
    if i < s.len() {
        lemma_decimal_prefix_le(s, i + 1);
        let p = s.subrange(0, i);
        let q = s.subrange(0, i + 1);
        assert(q.drop_last() =~= p);
        assert(q.last() == s[i]);
        assert(all_ascii_digits(p));
        lemma_decimal_nonneg(p);
    } else {
        assert(s.subrange(0, i) =~= s);
    }
}

/// Interpret a search term: a non-empty all-digit term denotes the entity
/// with that external ID, any other term is a name lookup. An all-digit
/// term too large for the ID column is outside the contract, as is the
/// empty term.
pub fn classify_search_term(term: &str) -> (r: SearchKey)
    requires
        term@.len() > 0,
        all_ascii_digits(term@) ==> decimal_value(term@) <= i32::MAX,
    ensures
        all_ascii_digits(term@) ==> r == SearchKey::Id(decimal_value(term@) as i32),
        !all_ascii_digits(term@) ==> (r matches SearchKey::Name(t) && t@ == term@),
{
    let n = term.unicode_len();
    let mut i: usize = 0;
    while i < n
        invariant
            i <= n,
            n == term@.len(),
            forall|j: int| 0 <= j < i ==> is_ascii_digit_char(#[trigger] term@[j]),
        decreases n - i,
    {
        let c = term.get_char(i);
        let b = c as u32;
        if b < 48 || b > 57 {
            return SearchKey::Name(String::from_str(term));
        }
        i = i + 1;
    }
    let mut value: i32 = 0;
    let mut k: usize = 0;
    while k < n
        invariant
            k <= n,
            n == term@.len(),
            all_ascii_digits(term@),
            decimal_value(term@) <= i32::MAX,
            value == decimal_value(term@.subrange(0, k as int)),
            value >= 0,
        decreases n - k,
    {
        let c = term.get_char(k);
        let d = (c as u32 - 48) as i32;
        proof {
            let p = term@.subrange(0, k as int);
            let q = term@.subrange(0, k + 1 as int);
            assert(q.drop_last() =~= p);
            assert(q.last() == term@[k as int]);
            lemma_decimal_prefix_le(term@, k + 1 as int);
            lemma_decimal_nonneg(q);
        }
        value = value * 10 + d;
        k = k + 1;
    }
    proof {
        assert(term@.subrange(0, n as int) =~= term@);
    }
    SearchKey::Id(value)
}

pub open spec fn has_relation(rels: Seq<PokemonType>, pid: i32, tid: i32) -> bool {
    exists|i: int|
        0 <= i < rels.len() && (#[trigger] rels[i]).pokemon_id == pid && rels[i].type_id == tid
}

/// The names, in taxonomy order, of the tags that the association rows
/// link to this entity.
pub open spec fn selected_type_names(
    types: Seq<PType>,
    rels: Seq<PokemonType>,
    pid: i32,
) -> Seq<Seq<char>>
    decreases types.len(),
{
    if types.len() == 0 {
        Seq::empty()
    } else {
        let prev = selected_type_names(types.drop_last(), rels, pid);
        if has_relation(rels, pid, types.last().id) {
            prev.push(types.last().name@)
        } else {
            prev
        }
    }
}

/// Whether some association row links this entity to this tag.
fn relation_exists(rels: &Vec<PokemonType>, pid: i32, tid: i32) -> (r: bool)
    ensures
        r == has_relation(rels@, pid, tid),
{
    let n = rels.len();
    let mut i: usize = 0;
    while i < n
        invariant
            i <= n,
            n == rels@.len(),
            forall|j: int|
                0 <= j < i ==> !((#[trigger] rels@[j]).pokemon_id == pid && rels@[j].type_id
                    == tid),
        decreases n - i,
    {
        if rels[i].pokemon_id == pid && rels[i].type_id == tid {
            return true;
        }
        i = i + 1;
    }
    false
}

/// The tag names shown for one entity: walk the taxonomy in order and keep
/// each tag that some association row links to the entity.
pub fn get_types(types: &Vec<PType>, relations: &Vec<PokemonType>, pokemon_id: i32) -> (r: Vec<
    String,
>)
    ensures
        r.deep_view() == selected_type_names(types@, relations@, pokemon_id),
{
    let n = types.len();
    let mut out: Vec<String> = Vec::new();
    let mut i: usize = 0;
    while i < n
        invariant
            i <= n,
            n == types@.len(),
            out.deep_view() == selected_type_names(
                types@.subrange(0, i as int),
                relations@,
                pokemon_id,
            ),
        decreases n - i,
    {
        let ghost pre = out.deep_view();
        if relation_exists(relations, pokemon_id, types[i].id) {
            out.push(types[i].name.clone());
        }
        proof {
            let p = types@.subrange(0, i as int);
            let q = types@.subrange(0, i + 1 as int);
            assert(q.drop_last() =~= p);
            assert(q.last() == types@[i as int]);
            if has_relation(relations@, pokemon_id, types@[i as int].id) {
                assert(out.deep_view() =~= pre.push(types@[i as int].name@));
            }
        }
        i = i + 1;
    }
    proof {
        assert(types@.subrange(0, n as int) =~= types@);
    }
    out
}

/// The display fallback rule: a found entity is shown with its tag names;
/// a missing entity (or a failed lookup) falls back to the sentinel entity
/// shown with no tags.
pub fn get_pokemon(found: Option<Pokemon>, found_types: Vec<String>, notfound: Pokemon) -> (r:
    TUIPokemon)
    ensures
        found matches Some(p) ==> r.tui_pokemon == p && r.tui_types == found_types,
        found is None ==> r.tui_pokemon == notfound && r.tui_types@.len() == 0,
{
    match found {
        Some(p) => TUIPokemon { tui_pokemon: p, tui_types: found_types },
        None => TUIPokemon { tui_pokemon: notfound, tui_types: Vec::new() },
    }
}

} // verus!
