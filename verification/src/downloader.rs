use vstd::prelude::*;

verus! {

/// The deserialized remote JSON payload for one entity, as the transform
/// step consumes it. The transport layer hands these in as plain values.
#[derive(Debug, PartialEq, Clone)]
pub struct PokemonAPIData {
    pub name: String,
    pub types: Vec<PokeType>,
    pub stats: Vec<Stat>,
    pub abilities: Vec<PokeAbility>,
    pub base_experience: u64,
    pub height: u64,
    pub moves: Vec<PokeMove>,
    pub weight: u64,
}

#[derive(Debug, PartialEq, Clone)]
pub struct PokeAbility {
    pub ability: PokeAbilityName,
}

#[derive(Debug, PartialEq, Clone)]
pub struct PokeAbilityName {
    pub name: String,
    pub url: String,
}

#[derive(Debug, PartialEq, Clone)]
pub struct PokeMove {
    pub poke_move: PokeMoveDetails,
}

#[derive(Debug, PartialEq, Clone)]
pub struct PokeMoveDetails {
    pub name: String,
    pub url: String,
}

#[derive(Debug, PartialEq, Clone)]
pub struct PokeType {
    pub poketype: TypeName,
}

#[derive(Debug, PartialEq, Clone)]
pub struct TypeName {
    pub name: String,
    pub url: String,
}

#[derive(Debug, PartialEq, Clone)]
pub struct Stat {
    pub base_stat: u64,
    pub effort: u64,
    pub stat: StatName,
}

#[derive(Debug, PartialEq, Clone)]
pub struct StatName {
    pub name: String,
}

/// A failed fetch attempt: transport or deserialization trouble, reduced to
/// a diagnostic message.
#[derive(Debug, PartialEq, Clone)]
pub struct FetchError {
    pub message: String,
}

/// The retry rule of the fetch client: up to `tries` attempts per URL, the
/// first success wins, and when every attempt fails the *last* error is the
/// one reported. The transport loop consults `should_retry` after each
/// attempt; `resolve_attempts` states the same rule over a whole sequence of
/// attempt outcomes.
#[derive(Debug, PartialEq, Clone)]
pub struct FetchPolicy {
    pub tries: usize,
}

/// What a sequence of attempt outcomes resolves to: the first success if
/// there is one, otherwise the last of the errors.
pub open spec fn fetch_outcome(outcomes: Seq<Result<PokemonAPIData, FetchError>>) -> Result<
    PokemonAPIData,
    FetchError,
>
    recommends
        outcomes.len() > 0,
    decreases outcomes.len(),
{
    if outcomes.len() <= 1 {
        outcomes[0]
    } else if outcomes[0] is Ok {
        outcomes[0]
    } else {
        fetch_outcome(outcomes.drop_first())
    }
}

/// Index of the first successful outcome, when one exists.
pub open spec fn first_success(outcomes: Seq<Result<PokemonAPIData, FetchError>>) -> int
    decreases outcomes.len(),
{
    if outcomes.len() == 0 {
        0
    } else if outcomes[0] is Ok {
        0
    } else {
        1 + first_success(outcomes.drop_first())
    }
}

impl FetchPolicy {
    pub fn new(tries: usize) -> (r: FetchPolicy)
        ensures
            r.tries == tries,
    {
        FetchPolicy { tries }
    }

    /// After `attempts_made` completed attempts, of which the latest failed
    /// iff `failed`, decide whether the client makes another attempt.
    pub fn should_retry(&self, attempts_made: usize, failed: bool) -> (r: bool)
        ensures
            r == (failed && attempts_made < self.tries),
    {
        failed && attempts_made < self.tries
    }
}

/// Reduce a non-empty sequence of attempt outcomes to the result the fetch
/// client reports: the first success, or failing that, the last error.
pub fn resolve_attempts(outcomes: Vec<Result<PokemonAPIData, FetchError>>) -> (r: Result<
    PokemonAPIData,
    FetchError,
>)
    requires
        outcomes@.len() > 0,
    ensures
        r == fetch_outcome(outcomes@),
    decreases outcomes@.len(),
{
    let mut rest = outcomes;
    let first = rest.remove(0);
    if first.is_ok() {
        first
    } else if rest.len() == 0 {
        first
    } else {
        assert(rest@ =~= outcomes@.drop_first());
        resolve_attempts(rest)
    }
}

/// The fetch client's retry law: a successful attempt ends the retries, so
/// the first success is what the client returns; and when every attempt
/// fails, what the client returns is the error of the final attempt, not the
/// first one observed.
pub proof fn lemma_fetch_outcome(outcomes: Seq<Result<PokemonAPIData, FetchError>>)
    requires
        outcomes.len() > 0,
    ensures
        (forall|i: int| 0 <= i < outcomes.len() ==> outcomes[i] is Err) ==> fetch_outcome(outcomes)
            == outcomes.last(),
        (exists|i: int| 0 <= i < outcomes.len() && outcomes[i] is Ok) ==> {
            &&& 0 <= first_success(outcomes) < outcomes.len()
            &&& fetch_outcome(outcomes) == outcomes[first_success(outcomes)]
            &&& outcomes[first_success(outcomes)] is Ok
            &&& forall|i: int| 0 <= i < first_success(outcomes) ==> outcomes[i] is Err
        },
    decreases outcomes.len(),
{
    if outcomes[0] is Ok || outcomes.len() == 1 {
        // Immediate from the definitions.
    } else {
        let rest = outcomes.drop_first();
        lemma_fetch_outcome(rest);
        assert(forall|i: int| 0 <= i < rest.len() ==> rest[i] == outcomes[i + 1]);
        if exists|i: int| 0 <= i < outcomes.len() && outcomes[i] is Ok {
            let w = choose|i: int| 0 <= i < outcomes.len() && outcomes[i] is Ok;
            assert(rest[w - 1] is Ok);
            let fsr = first_success(rest);
            assert(first_success(outcomes) == 1 + fsr);
            assert(outcomes[first_success(outcomes)] == rest[fsr]);
            assert forall|i: int| 0 <= i < first_success(outcomes) implies outcomes[i] is Err by {
                if i > 0 {
                    assert(rest[i - 1] is Err);
                }
            }
        } else {
            assert forall|i: int| 0 <= i < rest.len() implies rest[i] is Err by {
                assert(outcomes[i + 1] is Err);
            }
            assert(fetch_outcome(rest) == rest.last());
            assert(outcomes.last() == rest.last());
        }
    }
}

} // verus!
