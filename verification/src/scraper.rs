use vstd::prelude::*;
use crate::downloader::{FetchError, PokeType, PokemonAPIData, Stat};
use crate::models::{NewPType, NewPokemon, PType, NewPokemonType};
use crate::queue::{queue_jobs, FetchJob, JobQueue};

verus! {

/// The six stat columns of an entity row, extracted from the payload's stat
/// entries by name. A stat entry with an unrecognized name is ignored.
#[derive(Debug, PartialEq, Eq, Structural, Clone, Copy)]
pub struct StatValues {
    pub hp: u64,
    pub attack: u64,
    pub defense: u64,
    pub special_attack: u64,
    pub special_defense: u64,
    pub speed: u64,
}

impl Default for StatValues {
    fn default() -> (r: StatValues)
        ensures
            r == (StatValues { hp: 0, attack: 0, defense: 0, special_attack: 0, special_defense: 0, speed: 0 }),
    {
        StatValues { hp: 0, attack: 0, defense: 0, special_attack: 0, special_defense: 0, speed: 0 }
    }
}

/// A pending association discovered during scraping: the entity and the tag
/// *name*, staged until the taxonomy insert returns generated keys.
#[derive(Debug, PartialEq, Clone)]
pub struct PokeTypeTracker {
    pub pokemon_id: i32,
    pub name: String,
}

/// The value of the stat entry named `name` that occurs last in `stats`, or
/// zero when no entry carries that name. Later entries overwrite earlier
/// ones, mirroring a single forward pass over the payload.
pub open spec fn stat_for(stats: Seq<Stat>, name: Seq<char>) -> u64
    decreases stats.len(),
{
    if stats.len() == 0 {
        0u64
    } else if stats.last().stat.name@ == name {
        stats.last().base_stat
    } else {
        stat_for(stats.drop_last(), name)
    }
}

/// All six stat columns as extracted from a payload's stat entries.
pub open spec fn stat_values_of(stats: Seq<Stat>) -> StatValues {
    StatValues {
        hp: stat_for(stats, "hp"@),
        attack: stat_for(stats, "attack"@),
        defense: stat_for(stats, "defense"@),
        special_attack: stat_for(stats, "special-attack"@),
        special_defense: stat_for(stats, "special-defense"@),
        speed: stat_for(stats, "speed"@),
    }
}

/// Extract the six recognized stats from the payload's entries by name.
/// An entry whose name matches none of the six columns is ignored.
pub fn extract_stats(stats: &Vec<Stat>) -> (r: StatValues)
    ensures
        r == stat_values_of(stats@),
{
    let hp_name = String::from_str("hp");
    let attack_name = String::from_str("attack");
    let defense_name = String::from_str("defense");
    let special_attack_name = String::from_str("special-attack");
    let special_defense_name = String::from_str("special-defense");
    let speed_name = String::from_str("speed");
    let mut acc = StatValues::default();
    let n = stats.len();
    let mut i: usize = 0;
    while i < n
        invariant
            i <= n,
            n == stats@.len(),
            acc == stat_values_of(stats@.subrange(0, i as int)),
            hp_name@ == "hp"@,
            attack_name@ == "attack"@,
            defense_name@ == "defense"@,
            special_attack_name@ == "special-attack"@,
            special_defense_name@ == "special-defense"@,
            speed_name@ == "speed"@,
        decreases n - i,
    {
        let entry = &stats[i];
        if entry.stat.name == hp_name {
            acc.hp = entry.base_stat;
        }
        if entry.stat.name == attack_name {
            acc.attack = entry.base_stat;
        }
        if entry.stat.name == defense_name {
            acc.defense = entry.base_stat;
        }
        if entry.stat.name == special_attack_name {
            acc.special_attack = entry.base_stat;
        }
        if entry.stat.name == special_defense_name {
            acc.special_defense = entry.base_stat;
        }
        if entry.stat.name == speed_name {
            acc.speed = entry.base_stat;
        }
        proof {
            let pre = stats@.subrange(0, i as int);
            let post = stats@.subrange(0, i + 1 as int);
            assert(post.drop_last() =~= pre);
            assert(post.last() == stats@[i as int]);
        }
        i = i + 1;
    }
    proof {
        assert(stats@.subrange(0, n as int) =~= stats@);
    }
    acc
}

/// The decimal digits of `n`, most significant first, as ASCII bytes.
pub open spec fn dec_bytes(n: nat) -> Seq<u8>
    decreases n,
{
    if n < 10 {
        seq![(48 + n) as u8]
    } else {
        dec_bytes(n / 10).push((48 + n % 10) as u8)
    }
}

/// The decimal digits of `n` as characters.
pub open spec fn dec_chars(n: nat) -> Seq<char> {
    dec_bytes(n).map_values(|b: u8| b as char)
}

/// The remote URL that fetches the entity with this ID.
pub open spec fn entity_url(id: nat) -> Seq<char> {
    "https://pokeapi.co/api/v2/pokemon/"@ + dec_chars(id)
}

pub proof fn lemma_dec_bytes_ascii(n: nat)
    ensures
        forall|i: int| 0 <= i < dec_bytes(n).len() ==> 48 <= #[trigger] dec_bytes(n)[i] <= 57,
    decreases n,
{
    if n >= 10 {
        lemma_dec_bytes_ascii(n / 10);
        assert forall|i: int| 0 <= i < dec_bytes(n).len() implies 48 <= #[trigger] dec_bytes(n)[i]
            <= 57 by {
            if i < dec_bytes(n / 10).len() {
                assert(dec_bytes(n)[i] == dec_bytes(n / 10)[i]);
            } else {
                assert(dec_bytes(n)[i] == (48 + n % 10) as u8);
            }
        }
    }
}

/// Append the decimal digits of `n`, most significant first.
fn push_dec_digits(n: u64, out: &mut Vec<u8>)
    ensures
        final(out)@ == old(out)@ + dec_bytes(n as nat),
    decreases n,
{
    if n >= 10 {
        push_dec_digits(n / 10, out);
    }
    out.push((n % 10) as u8 + 48);
    proof {
        assert(final(out)@ =~= old(out)@ + dec_bytes(n as nat));
    }
}

/// Relies on String::from_utf8: a vector of bytes below 128 is valid UTF-8,
/// and the resulting string's characters are exactly those bytes.
#[verifier::external_body]
fn ascii_to_string(bytes: Vec<u8>) -> (r: String)
    requires
        forall|i: int| 0 <= i < bytes@.len() ==> bytes@[i] < 128,
    ensures
        r@ == bytes@.map_values(|b: u8| b as char),
{
    String::from_utf8(bytes).unwrap()
}

/// Render `n` in decimal.
pub fn u64_to_string(n: u64) -> (r: String)
    ensures
        r@ == dec_chars(n as nat),
{
    let mut digits: Vec<u8> = Vec::new();
    push_dec_digits(n, &mut digits);
    proof {
        lemma_dec_bytes_ascii(n as nat);
        assert(digits@ =~= dec_bytes(n as nat));
    }
    ascii_to_string(digits)
}

/// Build the fetch URL for one entity ID.
pub fn pokemon_url(id: u64) -> (r: String)
    ensures
        r@ == entity_url(id as nat),
{
    let base = String::from_str("https://pokeapi.co/api/v2/pokemon/");
    let digits = u64_to_string(id);
    base.concat(digits.as_str())
}

/// Relies on rand::Rng::gen_range over the inclusive range 0..=bound, drawn
/// from the thread-local generator: the draw lies within the range; nothing
/// more can be promised of a random value.
#[verifier::external_body]
fn random_extra_secs(bound: u64) -> (r: u64)
    ensures
        r <= bound,
{
    rand::Rng::gen_range(&mut rand::thread_rng(), 0..=bound)
}

/// The jittered per-worker throttle before the next dequeue: a fixed base
/// of one second plus a uniformly random zero-to-two extra seconds. This is
/// the sole protection of the remote service against the pool's aggregate
/// request rate.
pub fn throttle_delay_secs() -> (r: u64)
    ensures
        1 <= r <= 3,
{
    let base_delay: u64 = 1;
    let random_range: u64 = 2;
    base_delay + random_extra_secs(random_range)
}

/// One exhausted fetch: the job's URL and entity ID together with the last
/// error observed, kept so that the run reports every entity it dropped.
#[derive(Debug, PartialEq, Clone)]
pub struct FetchFailure {
    pub url: String,
    pub entity_id: u64,
    pub message: String,
}

/// A successfully fetched and sprite-provisioned entity, ready for the
/// transform-and-accumulate step.
#[derive(Debug, PartialEq, Clone)]
pub struct FetchedEntity {
    pub data: PokemonAPIData,
    pub large: String,
    pub small: String,
}

/// What one worker hands back for one job: the job's identity and either
/// the fetched entity or the error that exhausted the retries.
#[derive(Debug, PartialEq)]
pub struct FetchRecord {
    pub url: String,
    pub entity_id: u64,
    pub outcome: Result<FetchedEntity, FetchError>,
}

pub open spec fn has_type_name(ts: Seq<NewPType>, name: Seq<char>) -> bool {
    exists|i: int| 0 <= i < ts.len() && (#[trigger] ts[i]).name@ == name
}

pub open spec fn has_url(urls: Seq<String>, url: Seq<char>) -> bool {
    exists|i: int| 0 <= i < urls.len() && (#[trigger] urls[i])@ == url
}

pub open spec fn has_row_for(rows: Seq<NewPokemon>, id: u64) -> bool {
    exists|i: int| 0 <= i < rows.len() && (#[trigger] rows[i]).pokemon_id == id as i32
}

pub open spec fn has_failure_for(fs: Seq<FetchFailure>, id: u64) -> bool {
    exists|i: int| 0 <= i < fs.len() && (#[trigger] fs[i]).entity_id == id
}

/// No two staged taxonomy rows carry the same name.
pub open spec fn unique_type_names(ts: Seq<NewPType>) -> bool {
    forall|i: int, j: int| 0 <= i < j < ts.len() ==> ts[i].name@ != ts[j].name@
}

/// Every pending association names a tag that the staged taxonomy holds.
pub open spec fn trackers_covered(trk: Seq<PokeTypeTracker>, ts: Seq<NewPType>) -> bool {
    forall|k: int| 0 <= k < trk.len() ==> has_type_name(ts, (#[trigger] trk[k]).name@)
}

pub open spec fn unique_urls(urls: Seq<String>) -> bool {
    forall|i: int, j: int| 0 <= i < j < urls.len() ==> urls[i]@ != urls[j]@
}

/// The payload's integers all fit the entity row's 32-bit columns.
pub open spec fn fits_entity_row(data: PokemonAPIData, id: u64) -> bool {
    &&& id <= i32::MAX
    &&& data.base_experience <= i32::MAX
    &&& data.height <= i32::MAX
    &&& data.weight <= i32::MAX
    &&& forall|i: int|
        0 <= i < data.stats@.len() ==> (#[trigger] data.stats@[i]).base_stat <= i32::MAX
}

/// Decide at run time whether a payload's integers all fit the entity
/// row's 32-bit columns: the condition under which the transform step
/// accepts the payload.
pub fn fits(data: &PokemonAPIData, id: u64) -> (r: bool)
    ensures
        r == fits_entity_row(*data, id),
{
    if id > i32::MAX as u64 || data.base_experience > i32::MAX as u64 || data.height
        > i32::MAX as u64 || data.weight > i32::MAX as u64 {
        return false;
    }
    let n = data.stats.len();
    let mut i: usize = 0;
    while i < n
        invariant
            i <= n,
            n == data.stats@.len(),
            id <= i32::MAX,
            data.base_experience <= i32::MAX,
            data.height <= i32::MAX,
            data.weight <= i32::MAX,
            forall|j: int| 0 <= j < i ==> (#[trigger] data.stats@[j]).base_stat <= i32::MAX,
        decreases n - i,
    {
        if data.stats[i].base_stat > i32::MAX as u64 {
            return false;
        }
        i = i + 1;
    }
    true
}

/// The entity row that the transform step builds from one payload.
pub open spec fn is_entity_row(
    r: NewPokemon,
    data: PokemonAPIData,
    id: u64,
    large: Seq<char>,
    small: Seq<char>,
) -> bool {
    let sv = stat_values_of(data.stats@);
    &&& r.pokemon_id == id as i32
    &&& r.name@ == data.name@
    &&& r.large@ == large
    &&& r.small@ == small
    &&& r.base_experience == data.base_experience as i32
    &&& r.height == data.height as i32
    &&& r.weight == data.weight as i32
    &&& r.hp == sv.hp as i32
    &&& r.attack == sv.attack as i32
    &&& r.defense == sv.defense as i32
    &&& r.special_attack == sv.special_attack as i32
    &&& r.special_defense == sv.special_defense as i32
    &&& r.speed == sv.speed as i32
}

/// The taxonomy after inserting each referenced tag in order, skipping any
/// whose name is already present: deduplication is by name alone, so it
/// survives URL formatting differences between references to one tag.
pub open spec fn add_tags(ts: Seq<NewPType>, refs: Seq<PokeType>) -> Seq<NewPType>
    decreases refs.len(),
{
    if refs.len() == 0 {
        ts
    } else {
        let prev = add_tags(ts, refs.drop_last());
        let t = refs.last().poketype;
        if has_type_name(prev, t.name@) {
            prev
        } else {
            prev.push(NewPType { name: t.name, url: t.url })
        }
    }
}

/// The pending associations one payload contributes: one per tag reference,
/// staged by tag name.
pub open spec fn trackers_of(refs: Seq<PokeType>, id: u64) -> Seq<PokeTypeTracker> {
    refs.map_values(
        |p: PokeType| PokeTypeTracker { pokemon_id: id as i32, name: p.poketype.name },
    )
}

/// The scrape-and-ingest accumulator: the work queue plus the collections
/// built up during the run and read only after every worker has finished.
pub struct Scraper {
    pub queue: JobQueue,
    pub visited_urls: Vec<String>,
    pub pokemon_data: Vec<NewPokemon>,
    pub pokemon_types: Vec<NewPType>,
    pub poke_type_tracker: Vec<PokeTypeTracker>,
    pub failures: Vec<FetchFailure>,
}

/// The job for each ID of the inclusive range, in ascending order.
pub open spec fn job_seq(first: int, last: int) -> Seq<(Seq<char>, u64)>
    decreases last - first + 1,
{
    if first > last {
        Seq::empty()
    } else {
        seq![(entity_url(first as nat), first as u64)] + job_seq(first + 1, last)
    }
}

proof fn lemma_job_seq_snoc(first: int, last: int)
    requires
        first <= last,
    ensures
        job_seq(first, last) == job_seq(first, last - 1).push(
            (entity_url(last as nat), last as u64),
        ),
    decreases last - first,
{
    if first < last {
        lemma_job_seq_snoc(first + 1, last);
        assert(job_seq(first, last) =~= job_seq(first, last - 1).push(
            (entity_url(last as nat), last as u64),
        ));
    } else {
        assert(job_seq(first + 1, last) =~= Seq::<(Seq<char>, u64)>::empty());
        assert(job_seq(first, last - 1) =~= Seq::<(Seq<char>, u64)>::empty());
        assert(job_seq(first, last) =~= job_seq(first, last - 1).push(
            (entity_url(last as nat), last as u64),
        ));
    }
}

impl Scraper {
    /// The accumulators are consistent: staged taxonomy names are unique,
    /// every pending association's name is already in the taxonomy, and the
    /// visited set holds each URL once.
    pub open spec fn wf(&self) -> bool {
        &&& unique_type_names(self.pokemon_types@)
        &&& trackers_covered(self.poke_type_tracker@, self.pokemon_types@)
        &&& unique_urls(self.visited_urls@)
    }

    /// This entity ID did not silently disappear: the run either staged a
    /// row for it or recorded its failure.
    pub open spec fn accounts_for(&self, id: u64) -> bool {
        has_row_for(self.pokemon_data@, id) || has_failure_for(self.failures@, id)
    }

    /// A fresh scraper: an empty queue and empty accumulators.
    pub fn new() -> (s: Scraper)
        ensures
            s.wf(),
            queue_jobs(s.queue) == Seq::<(Seq<char>, u64)>::empty(),
            s.visited_urls@.len() == 0,
            s.pokemon_data@.len() == 0,
            s.pokemon_types@.len() == 0,
            s.poke_type_tracker@.len() == 0,
            s.failures@.len() == 0,
    {
        Scraper {
            queue: JobQueue::new(),
            visited_urls: Vec::new(),
            pokemon_data: Vec::new(),
            pokemon_types: Vec::new(),
            poke_type_tracker: Vec::new(),
            failures: Vec::new(),
        }
    }

    /// Seed the work queue with one job per entity ID of the inclusive
    /// range, in order, before any worker starts.
    pub fn seed(&mut self, first: u64, last: u64)
        requires
            last < u64::MAX,
        ensures
            queue_jobs(final(self).queue) == queue_jobs(old(self).queue) + job_seq(
                first as int,
                last as int,
            ),
            final(self).visited_urls == old(self).visited_urls,
            final(self).pokemon_data == old(self).pokemon_data,
            final(self).pokemon_types == old(self).pokemon_types,
            final(self).poke_type_tracker == old(self).poke_type_tracker,
            final(self).failures == old(self).failures,
            old(self).wf() ==> final(self).wf(),
    {
        if first > last {
            proof {
                assert(job_seq(first as int, last as int) =~= Seq::<(Seq<char>, u64)>::empty());
                assert(queue_jobs(self.queue) =~= queue_jobs(old(self).queue) + job_seq(
                    first as int,
                    last as int,
                ));
            }
            return ;
        }
        let mut i: u64 = first;
        while i <= last
            invariant
                first <= i,
                i <= last + 1,
                last < u64::MAX,
                queue_jobs(self.queue) == queue_jobs(old(self).queue) + job_seq(
                    first as int,
                    i - 1,
                ),
                self.visited_urls == old(self).visited_urls,
                self.pokemon_data == old(self).pokemon_data,
                self.pokemon_types == old(self).pokemon_types,
                self.poke_type_tracker == old(self).poke_type_tracker,
                self.failures == old(self).failures,
            decreases last + 1 - i,
        {
            let url = pokemon_url(i);
            self.queue.push(FetchJob { url, entity_id: i });
            proof {
                lemma_job_seq_snoc(first as int, i as int);
                assert(queue_jobs(self.queue) =~= queue_jobs(old(self).queue) + job_seq(
                    first as int,
                    i as int,
                ));
            }
            i = i + 1;
        }
    }

    /// One non-blocking dequeue attempt against the shared queue.
    pub fn try_next_job(&mut self) -> (r: Option<FetchJob>)
        ensures
            queue_jobs(old(self).queue).len() == 0 ==> r is None && *final(self) == *old(self),
            queue_jobs(old(self).queue).len() > 0 ==> (r matches Some(job) && job@ == queue_jobs(
                old(self).queue,
            )[0] && queue_jobs(final(self).queue) == queue_jobs(old(self).queue).drop_first()),
            final(self).visited_urls == old(self).visited_urls,
            final(self).pokemon_data == old(self).pokemon_data,
            final(self).pokemon_types == old(self).pokemon_types,
            final(self).poke_type_tracker == old(self).poke_type_tracker,
            final(self).failures == old(self).failures,
            old(self).wf() ==> final(self).wf(),
    {
        self.queue.try_pop()
    }
}

/// Whether the staged taxonomy already holds a row with this name.
fn contains_type_name(ts: &Vec<NewPType>, name: &String) -> (r: bool)
    ensures
        r == has_type_name(ts@, name@),
{
    let n = ts.len();
    let mut i: usize = 0;
    while i < n
        invariant
            i <= n,
            n == ts@.len(),
            forall|j: int| 0 <= j < i ==> (#[trigger] ts@[j]).name@ != name@,
        decreases n - i,
    {
        if ts[i].name == *name {
            return true;
        }
        i = i + 1;
    }
    false
}

/// Whether this URL was already recorded as visited.
fn contains_url(urls: &Vec<String>, url: &String) -> (r: bool)
    ensures
        r == has_url(urls@, url@),
{
    let n = urls.len();
    let mut i: usize = 0;
    while i < n
        invariant
            i <= n,
            n == urls@.len(),
            forall|j: int| 0 <= j < i ==> (#[trigger] urls@[j])@ != url@,
        decreases n - i,
    {
        if urls[i] == *url {
            return true;
        }
        i = i + 1;
    }
    false
}

impl Scraper {
    /// Transform one fetched payload and accumulate it: stage the entity
    /// row, insert each referenced tag into the taxonomy unless its name is
    /// already present, and stage one pending association per tag reference.
    pub fn save_pokemon(&mut self, data: PokemonAPIData, id: u64, large: String, small: String)
        requires
            old(self).wf(),
            fits_entity_row(data, id),
        ensures
            final(self).wf(),
            final(self).queue == old(self).queue,
            final(self).visited_urls == old(self).visited_urls,
            final(self).failures == old(self).failures,
            final(self).pokemon_data@.len() == old(self).pokemon_data@.len() + 1,
            final(self).pokemon_data@.drop_last() == old(self).pokemon_data@,
            is_entity_row(final(self).pokemon_data@.last(), data, id, large@, small@),
            final(self).pokemon_types@ == add_tags(old(self).pokemon_types@, data.types@),
            final(self).poke_type_tracker@ == old(self).poke_type_tracker@ + trackers_of(
                data.types@,
                id,
            ),
    {
        let PokemonAPIData {
            name,
            types,
            stats,
            abilities: _,
            base_experience,
            height,
            moves: _,
            weight,
        } = data;
        let statvalues = extract_stats(&stats);
        let new_pokemon = NewPokemon {
            pokemon_id: id as i32,
            name,
            large,
            small,
            base_experience: base_experience as i32,
            height: height as i32,
            weight: weight as i32,
            hp: statvalues.hp as i32,
            attack: statvalues.attack as i32,
            defense: statvalues.defense as i32,
            special_attack: statvalues.special_attack as i32,
            special_defense: statvalues.special_defense as i32,
            speed: statvalues.speed as i32,
        };
        let n = types.len();
        let mut i: usize = 0;
        while i < n
            invariant
                i <= n,
                n == types@.len(),
                types@ == data.types@,
                self.pokemon_types@ == add_tags(
                    old(self).pokemon_types@,
                    types@.subrange(0, i as int),
                ),
                self.poke_type_tracker@ == old(self).poke_type_tracker@ + trackers_of(
                    types@.subrange(0, i as int),
                    id,
                ),
                unique_type_names(self.pokemon_types@),
                trackers_covered(self.poke_type_tracker@, self.pokemon_types@),
                self.queue == old(self).queue,
                self.visited_urls == old(self).visited_urls,
                self.failures == old(self).failures,
                self.pokemon_data == old(self).pokemon_data,
            decreases n - i,
        {
            let ghost pre_types = self.pokemon_types@;
            let ghost pre_trackers = self.poke_type_tracker@;
            let tname = types[i].poketype.name.clone();
            let turl = types[i].poketype.url.clone();
            let present = contains_type_name(&self.pokemon_types, &tname);
            if !present {
                self.pokemon_types.push(NewPType { name: tname.clone(), url: turl });
            }
            self.poke_type_tracker.push(PokeTypeTracker { pokemon_id: id as i32, name: tname });
            proof {
                let prefix = types@.subrange(0, i as int);
                let prefix1 = types@.subrange(0, i + 1 as int);
                assert(prefix1.drop_last() =~= prefix);
                assert(prefix1.last() == types@[i as int]);
                assert(self.pokemon_types@ == add_tags(old(self).pokemon_types@, prefix1));
                assert(self.poke_type_tracker@ =~= old(self).poke_type_tracker@ + trackers_of(
                    prefix1,
                    id,
                ));
                if !present {
                    assert forall|a: int, b: int|
                        0 <= a < b < self.pokemon_types@.len() implies self.pokemon_types@[a].name@
                        != self.pokemon_types@[b].name@ by {
                        if b < pre_types.len() {
                            assert(self.pokemon_types@[a] == pre_types[a]);
                            assert(self.pokemon_types@[b] == pre_types[b]);
                        } else {
                            assert(self.pokemon_types@[a] == pre_types[a]);
                            assert(!has_type_name(pre_types, tname@));
                        }
                    }
                }
                assert forall|k: int|
                    0 <= k < self.poke_type_tracker@.len() implies has_type_name(
                    self.pokemon_types@,
                    (#[trigger] self.poke_type_tracker@[k]).name@,
                ) by {
                    if k < pre_trackers.len() {
                        assert(self.poke_type_tracker@[k] == pre_trackers[k]);
                        let w = choose|w: int|
                            0 <= w < pre_types.len() && (#[trigger] pre_types[w]).name@
                                == pre_trackers[k].name@;
                        assert(self.pokemon_types@[w] == pre_types[w]);
                    } else {
                        assert(self.poke_type_tracker@[k].name@ == tname@);
                        if present {
                            let w = choose|w: int|
                                0 <= w < pre_types.len() && (#[trigger] pre_types[w]).name@
                                    == tname@;
                            assert(self.pokemon_types@[w] == pre_types[w]);
                        } else {
                            assert(self.pokemon_types@.last().name@ == tname@);
                        }
                    }
                }
            }
            i = i + 1;
        }
        self.pokemon_data.push(new_pokemon);
        proof {
            assert(types@.subrange(0, n as int) =~= types@);
            assert(final(self).pokemon_data@.drop_last() =~= old(self).pokemon_data@);
        }
    }

    /// Record the outcome of one job: on success run the transform step, on
    /// failure record the dropped entity; either way mark the URL visited.
    pub fn record_result(
        &mut self,
        url: String,
        entity_id: u64,
        outcome: Result<FetchedEntity, FetchError>,
    )
        requires
            old(self).wf(),
            outcome matches Ok(f) ==> fits_entity_row(f.data, entity_id),
        ensures
            final(self).wf(),
            final(self).queue == old(self).queue,
            outcome matches Ok(f) ==> {
                &&& final(self).pokemon_data@.len() == old(self).pokemon_data@.len() + 1
                &&& final(self).pokemon_data@.drop_last() == old(self).pokemon_data@
                &&& is_entity_row(
                    final(self).pokemon_data@.last(),
                    f.data,
                    entity_id,
                    f.large@,
                    f.small@,
                )
                &&& final(self).pokemon_types@ == add_tags(
                    old(self).pokemon_types@,
                    f.data.types@,
                )
                &&& final(self).poke_type_tracker@ == old(self).poke_type_tracker@ + trackers_of(
                    f.data.types@,
                    entity_id,
                )
                &&& final(self).failures == old(self).failures
            },
            outcome matches Err(e) ==> {
                &&& final(self).pokemon_data == old(self).pokemon_data
                &&& final(self).pokemon_types == old(self).pokemon_types
                &&& final(self).poke_type_tracker == old(self).poke_type_tracker
                &&& final(self).failures@.len() == old(self).failures@.len() + 1
                &&& final(self).failures@.drop_last() == old(self).failures@
                &&& final(self).failures@.last().url@ == url@
                &&& final(self).failures@.last().entity_id == entity_id
                &&& final(self).failures@.last().message@ == e.message@
            },
            has_url(final(self).visited_urls@, url@),
            !has_url(old(self).visited_urls@, url@) ==> final(self).visited_urls@.drop_last()
                == old(self).visited_urls@ && final(self).visited_urls@.last()@ == url@,
            has_url(old(self).visited_urls@, url@) ==> final(self).visited_urls == old(
                self,
            ).visited_urls,
            final(self).accounts_for(entity_id),
            forall|x: u64| old(self).accounts_for(x) ==> final(self).accounts_for(x),
    {
        let ghost entry = *old(self);
        match outcome {
            Ok(fetched) => {
                let FetchedEntity { data, large, small } = fetched;
                self.save_pokemon(data, entity_id, large, small);
            },
            Err(e) => {
                self.failures.push(
                    FetchFailure { url: url.clone(), entity_id, message: e.message },
                );
                proof {
                    assert(self.failures@.drop_last() =~= entry.failures@);
                }
            },
        }
        let ghost mid = *self;
        if !contains_url(&self.visited_urls, &url) {
            self.visited_urls.push(url);
            proof {
                assert(self.visited_urls@.drop_last() =~= mid.visited_urls@);
                assert forall|a: int, b: int|
                    0 <= a < b < self.visited_urls@.len() implies self.visited_urls@[a]@
                    != self.visited_urls@[b]@ by {
                    if b < mid.visited_urls@.len() {
                        assert(self.visited_urls@[a] == mid.visited_urls@[a]);
                        assert(self.visited_urls@[b] == mid.visited_urls@[b]);
                    } else {
                        assert(self.visited_urls@[a] == mid.visited_urls@[a]);
                    }
                }
            }
        }
        proof {
            assert(has_url(self.visited_urls@, url@)) by {
                if has_url(mid.visited_urls@, url@) {
                    let w = choose|w: int|
                        0 <= w < mid.visited_urls@.len() && (#[trigger] mid.visited_urls@[w])@
                            == url@;
                    assert(self.visited_urls@[w] == mid.visited_urls@[w]);
                } else {
                    assert(self.visited_urls@.last()@ == url@);
                }
            }
            assert(self.accounts_for(entity_id)) by {
                if outcome is Ok {
                    assert(self.pokemon_data@.last().pokemon_id == entity_id as i32);
                } else {
                    assert(self.failures@.last().entity_id == entity_id);
                }
            }
            assert forall|x: u64| entry.accounts_for(x) implies self.accounts_for(x) by {
                if has_row_for(entry.pokemon_data@, x) {
                    let w = choose|w: int|
                        0 <= w < entry.pokemon_data@.len() && (#[trigger] entry.pokemon_data@[w]).pokemon_id
                            == x as i32;
                    assert(self.pokemon_data@[w] == entry.pokemon_data@[w]);
                } else {
                    let w = choose|w: int|
                        0 <= w < entry.failures@.len() && (#[trigger] entry.failures@[w]).entity_id
                            == x;
                    assert(self.failures@[w] == entry.failures@[w]);
                }
            }
        }
    }

    /// Fold a whole batch of worker results into the accumulators, in the
    /// given order. Afterwards every entity the batch covered is accounted
    /// for: it either has a staged row or a recorded failure — no silent
    /// disappearance — and everything accounted for before is still there.
    pub fn process_results(&mut self, results: Vec<FetchRecord>)
        requires
            old(self).wf(),
            forall|k: int|
                0 <= k < results@.len() ==> ((#[trigger] results@[k]).outcome matches Ok(f)
                    ==> fits_entity_row(f.data, results@[k].entity_id)),
        ensures
            final(self).wf(),
            final(self).queue == old(self).queue,
            forall|k: int|
                0 <= k < results@.len() ==> final(self).accounts_for(
                    (#[trigger] results@[k]).entity_id,
                ),
            forall|x: u64| old(self).accounts_for(x) ==> final(self).accounts_for(x),
    {
        let ghost all = results@;
        let mut rest = results;
        while rest.len() > 0
            invariant
                self.wf(),
                self.queue == old(self).queue,
                rest@.len() <= all.len(),
                rest@ == all.subrange(all.len() - rest@.len(), all.len() as int),
                forall|k: int|
                    0 <= k < all.len() ==> ((#[trigger] all[k]).outcome matches Ok(f)
                        ==> fits_entity_row(f.data, all[k].entity_id)),
                forall|k: int|
                    0 <= k < all.len() - rest@.len() ==> self.accounts_for(
                        (#[trigger] all[k]).entity_id,
                    ),
                forall|x: u64| old(self).accounts_for(x) ==> self.accounts_for(x),
            decreases rest@.len(),
    {
            let ghost pre = *self;
            let ghost pre_rest = rest@;
            let rec = rest.remove(0);
            proof {
                assert(rec == all[all.len() - pre_rest.len()]);
                assert(rest@ =~= all.subrange(all.len() - rest@.len(), all.len() as int));
            }
            let FetchRecord { url, entity_id, outcome } = rec;
            self.record_result(url, entity_id, outcome);
            proof {
                assert forall|k: int| 0 <= k < all.len() - rest@.len() implies self.accounts_for(
                    (#[trigger] all[k]).entity_id,
                ) by {
                    if k < all.len() - pre_rest.len() {
                        assert(pre.accounts_for(all[k].entity_id));
                    }
                }
            }
        }
    }
}

/// The synthesized "not found" placeholder: entity ID zero, which the
/// remote source never assigns, with every numeric column set to -1 and
/// the fixed sentinel sprites.
pub open spec fn is_sentinel_row(r: NewPokemon, large: Seq<char>, small: Seq<char>) -> bool {
    &&& r.pokemon_id == 0
    &&& r.name@ == "Not Found"@
    &&& r.large@ == large
    &&& r.small@ == small
    &&& r.base_experience == -1
    &&& r.height == -1
    &&& r.weight == -1
    &&& r.hp == -1
    &&& r.attack == -1
    &&& r.defense == -1
    &&& r.special_attack == -1
    &&& r.special_defense == -1
    &&& r.speed == -1
}

/// Build the sentinel row from the pre-rendered sentinel sprites.
pub fn sentinel_row(large: String, small: String) -> (r: NewPokemon)
    ensures
        is_sentinel_row(r, large@, small@),
{
    NewPokemon {
        pokemon_id: 0,
        name: String::from_str("Not Found"),
        large,
        small,
        base_experience: -1,
        height: -1,
        weight: -1,
        hp: -1,
        attack: -1,
        defense: -1,
        special_attack: -1,
        special_defense: -1,
        speed: -1,
    }
}

/// Everything the three-phase relational write needs, frozen after the
/// pool has joined: the staged entity rows, the sentinel row, the
/// deduplicated taxonomy, and the associations still pending by name,
/// together with the run's diagnostics.
pub struct IngestPlan {
    pub pokemon_rows: Vec<NewPokemon>,
    pub sentinel: NewPokemon,
    pub tag_types: Vec<NewPType>,
    pub pending_associations: Vec<PokeTypeTracker>,
    pub visited_urls: Vec<String>,
    pub failures: Vec<FetchFailure>,
}

impl Scraper {
    /// Freeze the accumulators into the write plan, once every worker has
    /// joined. The sentinel row is part of every plan, however many of the
    /// other fetches failed, and the staged taxonomy carries no duplicate
    /// names.
    pub fn into_plan(self, notfound_large: String, notfound_small: String) -> (p: IngestPlan)
        requires
            self.wf(),
        ensures
            p.pokemon_rows == self.pokemon_data,
            p.tag_types == self.pokemon_types,
            p.pending_associations == self.poke_type_tracker,
            p.visited_urls == self.visited_urls,
            p.failures == self.failures,
            is_sentinel_row(p.sentinel, notfound_large@, notfound_small@),
            unique_type_names(p.tag_types@),
            trackers_covered(p.pending_associations@, p.tag_types@),
    {
        let Scraper { queue: _, visited_urls, pokemon_data, pokemon_types, poke_type_tracker, failures } = self;
        IngestPlan {
            pokemon_rows: pokemon_data,
            sentinel: sentinel_row(notfound_large, notfound_small),
            tag_types: pokemon_types,
            pending_associations: poke_type_tracker,
            visited_urls,
            failures,
        }
    }
}

/// The generated key that the returned taxonomy rows give this tag name:
/// when several rows carry the name, the one returned last wins, exactly
/// as repeated inserts into the name-to-key lookup would leave it.
pub open spec fn type_id_for(db: Seq<PType>, name: Seq<char>) -> Option<i32>
    decreases db.len(),
{
    if db.len() == 0 {
        None
    } else if db.last().name@ == name {
        Some(db.last().id)
    } else {
        type_id_for(db.drop_last(), name)
    }
}

/// No two returned taxonomy rows share a generated key.
pub open spec fn unique_type_ids(db: Seq<PType>) -> bool {
    forall|i: int, j: int| 0 <= i < j < db.len() ==> db[i].id != db[j].id
}

/// A pending association names a tag that the returned taxonomy rows do
/// not hold: a programming or data error, fatal for the write.
#[derive(Debug, PartialEq, Clone)]
pub struct UnknownTagError {
    pub name: String,
}

/// Look a tag name up among the returned taxonomy rows.
fn lookup_type_id(db: &Vec<PType>, name: &String) -> (r: Option<i32>)
    ensures
        r == type_id_for(db@, name@),
{
    let n = db.len();
    let mut found: Option<i32> = None;
    let mut i: usize = 0;
    while i < n
        invariant
            i <= n,
            n == db@.len(),
            found == type_id_for(db@.subrange(0, i as int), name@),
        decreases n - i,
    {
        if db[i].name == *name {
            found = Some(db[i].id);
        }
        proof {
            let pre = db@.subrange(0, i as int);
            let post = db@.subrange(0, i + 1 as int);
            assert(post.drop_last() =~= pre);
            assert(post.last() == db@[i as int]);
        }
        i = i + 1;
    }
    proof {
        assert(db@.subrange(0, n as int) =~= db@);
    }
    found
}

/// Resolve every pending association's tag name to its generated key, in
/// order. Succeeds exactly when every name resolves; otherwise reports the
/// first name that does not.
pub fn resolve_associations(db_types: &Vec<PType>, pending: &Vec<PokeTypeTracker>) -> (r: Result<
    Vec<NewPokemonType>,
    UnknownTagError,
>)
    ensures
        (r is Ok) <==> (forall|k: int|
            0 <= k < pending@.len() ==> type_id_for(db_types@, (#[trigger] pending@[k]).name@)
                is Some),
        r matches Ok(v) ==> v@.len() == pending@.len() && (forall|k: int|
            0 <= k < pending@.len() ==> (#[trigger] v@[k]).pokemon_id == pending@[k].pokemon_id
                && type_id_for(db_types@, pending@[k].name@) == Some(v@[k].type_id)),
        r matches Err(e) ==> (exists|k: int|
            {
                &&& 0 <= k < pending@.len()
                &&& type_id_for(db_types@, (#[trigger] pending@[k]).name@) is None
                &&& e.name@ == pending@[k].name@
                &&& forall|j: int|
                    0 <= j < k ==> type_id_for(db_types@, (#[trigger] pending@[j]).name@) is Some
            }),
{
    let n = pending.len();
    let mut out: Vec<NewPokemonType> = Vec::new();
    let mut k: usize = 0;
    while k < n
        invariant
            k <= n,
            n == pending@.len(),
            out@.len() == k,
            forall|j: int|
                0 <= j < k ==> (#[trigger] out@[j]).pokemon_id == pending@[j].pokemon_id
                    && type_id_for(db_types@, pending@[j].name@) == Some(out@[j].type_id),
        decreases n - k,
    {
        match lookup_type_id(db_types, &pending[k].name) {
            Some(type_id) => {
                out.push(NewPokemonType { pokemon_id: pending[k].pokemon_id, type_id });
            },
            None => {
                let missing = pending[k].name.clone();
                proof {
                    assert forall|j: int| 0 <= j < k as int implies type_id_for(
                        db_types@,
                        (#[trigger] pending@[j]).name@,
                    ) is Some by {
                        assert(type_id_for(db_types@, pending@[j].name@) == Some(
                            out@[j].type_id,
                        ));
                    }
                    assert((k as int) < pending@.len() && type_id_for(
                        db_types@,
                        (#[trigger] pending@[k as int]).name@,
                    ) is None && missing@ == pending@[k as int].name@);
                }
                return Err(UnknownTagError { name: missing });
            },
        }
        k = k + 1;
    }
    proof {
        assert forall|kk: int| 0 <= kk < pending@.len() implies type_id_for(
            db_types@,
            (#[trigger] pending@[kk]).name@,
        ) is Some by {
            assert(type_id_for(db_types@, pending@[kk].name@) == Some(out@[kk].type_id));
        }
    }
    Ok(out)
}

proof fn lemma_type_id_for_witness(db: Seq<PType>, name: Seq<char>)
    requires
        type_id_for(db, name) is Some,
    ensures
        exists|i: int|
            0 <= i < db.len() && (#[trigger] db[i]).name@ == name && db[i].id == type_id_for(
                db,
                name,
            )->Some_0,
    decreases db.len(),
{
    if db.last().name@ == name {
        assert(db[db.len() - 1].name@ == name);
    } else {
        lemma_type_id_for_witness(db.drop_last(), name);
        let w = choose|i: int|
            0 <= i < db.drop_last().len() && (#[trigger] db.drop_last()[i]).name@ == name
                && db.drop_last()[i].id == type_id_for(db.drop_last(), name)->Some_0;
        assert(db[w] == db.drop_last()[w]);
    }
}

/// Round-trip law of the two-phase write: when the returned taxonomy rows
/// carry distinct generated keys, following any resolved association's
/// tag-type foreign key back into the taxonomy finds exactly the row whose
/// name is the tag name originally associated with that entity.
pub proof fn lemma_association_round_trip(
    db: Seq<PType>,
    pending: Seq<PokeTypeTracker>,
    out: Seq<NewPokemonType>,
    k: int,
    j: int,
)
    requires
        unique_type_ids(db),
        out.len() == pending.len(),
        forall|m: int|
            0 <= m < pending.len() ==> type_id_for(db, (#[trigger] pending[m]).name@) == Some(
                out[m].type_id,
            ),
        0 <= k < out.len(),
        0 <= j < db.len(),
        db[j].id == out[k].type_id,
    ensures
        db[j].name@ == pending[k].name@,
{
    lemma_type_id_for_witness(db, pending[k].name@);
    let w = choose|i: int|
        0 <= i < db.len() && (#[trigger] db[i]).name@ == pending[k].name@ && db[i].id
            == type_id_for(db, pending[k].name@)->Some_0;
    if w < j {
        assert(db[w].id != db[j].id);
    } else if j < w {
        assert(db[j].id != db[w].id);
    }
}

} // verus!

