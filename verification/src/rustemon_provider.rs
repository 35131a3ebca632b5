//! The decisions of the Pokemon provider that reads PokeAPI.
//!
//! A Pokemon is looked up in two calls: first its data, which names its
//! species, then the species, which holds its descriptions, its habitat and
//! whether it is legendary. The caller makes the calls and hands over what
//! came back, as the plain records below; this module says what follows.

use crate::service::{Pokemon, ServiceError, ServiceErrorView};
use crate::text::{sanitize_description, sanitized};
use vstd::prelude::*;
use vstd::string::StringExecFns;

verus! {

/// One description of a species, with the name of its language (`"en"`, ...).
#[derive(Clone, Debug, PartialEq, Eq)]
pub struct FlavorTextEntry {
    pub flavor_text: String,
    pub language: String,
}

/// What the provider reads of a Pokemon's data: its name and the name of its
/// species.
#[derive(Clone, Debug, PartialEq, Eq)]
pub struct PokemonRecord {
    pub name: String,
    pub species_name: String,
}

/// What the provider reads of a species.
#[derive(Clone, Debug, PartialEq, Eq)]
pub struct SpeciesRecord {
    pub flavor_text_entries: Vec<FlavorTextEntry>,
    pub habitat: Option<String>,
    pub is_legendary: bool,
}

/// Why fetching the data of a Pokemon failed.
#[derive(Clone, Debug, PartialEq, Eq)]
pub enum FetchFailure {
    /// The HTTP request failed or was answered with an error status.
    Reqwest,
    /// Any other failure, with its debug rendering.
    Other { debug: String },
}

/// What follows the fetch of a Pokemon's data.
#[derive(Debug, PartialEq, Eq)]
pub enum LookupStep {
    /// The species named in `record` is to be fetched.
    FetchSpecies { record: PokemonRecord },
    /// The lookup is over, with this answer.
    Finished(Result<Pokemon, ServiceError>),
}

/// The text of the first English description in `entries`, if there is one.
pub open spec fn first_english_text(entries: Seq<FlavorTextEntry>) -> Option<Seq<char>>
    decreases entries.len(),
{
    if entries.len() == 0 {
        None
    } else if entries[0].language@ == "en"@ {
        Some(entries[0].flavor_text@)
    } else {
        first_english_text(entries.skip(1))
    }
}

/// The description of a species: its first English description, cleaned, or
/// the empty text when it has none.
pub open spec fn species_description(species: SpeciesRecord) -> Seq<char> {
    match first_english_text(species.flavor_text_entries@) {
        Some(text) => sanitized(text),
        None => Seq::empty(),
    }
}

/// The first English description of `entries` is the text of the entry at the
/// least index whose language is `"en"`; there is none when no entry is in
/// English.
pub proof fn lemma_first_english_text_by_index(entries: Seq<FlavorTextEntry>)
    ensures
        forall|i: int|
            0 <= i < entries.len() && (#[trigger] entries[i]).language@ == "en"@ && (forall|j: int|
                0 <= j < i ==> (#[trigger] entries[j]).language@ != "en"@) ==> first_english_text(
                entries,
            ) == Some(entries[i].flavor_text@),
        (forall|i: int| 0 <= i < entries.len() ==> (#[trigger] entries[i]).language@ != "en"@)
            ==> first_english_text(entries) is None,
    decreases entries.len(),
{
    if entries.len() > 0 {
        let rest = entries.skip(1);
        lemma_first_english_text_by_index(rest);
        assert forall|i: int|
            0 <= i < entries.len() && (#[trigger] entries[i]).language@ == "en"@ && (forall|j: int|
                0 <= j < i ==> (#[trigger] entries[j]).language@ != "en"@) implies first_english_text(
            entries,
        ) == Some(entries[i].flavor_text@) by {
            if i > 0 {
                assert(entries[0].language@ != "en"@);
                assert(rest[i - 1] == entries[i]);
                assert forall|j: int| 0 <= j < i - 1 implies (#[trigger] rest[j]).language@
                    != "en"@ by {
                    assert(rest[j] == entries[j + 1]);
                }
            }
        }
        if forall|i: int| 0 <= i < entries.len() ==> (#[trigger] entries[i]).language@ != "en"@ {
            assert(entries[0].language@ != "en"@);
            assert forall|i: int| 0 <= i < rest.len() implies (#[trigger] rest[i]).language@
                != "en"@ by {
                assert(rest[i] == entries[i + 1]);
            }
        }
    }
}

/// The description of a species whose entry at index `i` is its first one in
/// English is that entry's text, cleaned.
pub proof fn lemma_species_description_by_index(species: SpeciesRecord, i: int)
    requires
        0 <= i < species.flavor_text_entries@.len(),
        species.flavor_text_entries@[i].language@ == "en"@,
        forall|j: int| 0 <= j < i ==> (#[trigger] species.flavor_text_entries@[j]).language@ != "en"@,
    ensures
        species_description(species) == sanitized(species.flavor_text_entries@[i].flavor_text@),
{
    lemma_first_english_text_by_index(species.flavor_text_entries@);
}

/// A species with no description in English has the empty description.
pub proof fn lemma_species_description_without_english(species: SpeciesRecord)
    requires
        forall|i: int|
            0 <= i < species.flavor_text_entries@.len() ==> (
            #[trigger] species.flavor_text_entries@[i]).language@ != "en"@,
    ensures
        species_description(species) == Seq::<char>::empty(),
{
    lemma_first_english_text_by_index(species.flavor_text_entries@);
}

/// The description of a species depends on its descriptions alone, not on its
/// habitat nor on whether it is legendary.
pub proof fn lemma_description_depends_only_on_entries(a: SpeciesRecord, b: SpeciesRecord)
    requires
        a.flavor_text_entries@ == b.flavor_text_entries@,
    ensures
        species_description(a) == species_description(b),
{
    lemma_first_english_text_by_index(a.flavor_text_entries@);
    lemma_first_english_text_by_index(b.flavor_text_entries@);
}

/// The description of `species`: its first English description, cleaned, or
/// the empty text when it has none.
pub fn extract_description(species: &SpeciesRecord) -> (description: String)
    ensures
        description@ == species_description(*species),
        forall|i: int|
            0 <= i < species.flavor_text_entries@.len() && (
            #[trigger] species.flavor_text_entries@[i]).language@ == "en"@ && (forall|j: int|
                0 <= j < i ==> (#[trigger] species.flavor_text_entries@[j]).language@ != "en"@)
                ==> description@ == sanitized(species.flavor_text_entries@[i].flavor_text@),
        (forall|i: int|
            0 <= i < species.flavor_text_entries@.len() ==> (
            #[trigger] species.flavor_text_entries@[i]).language@ != "en"@) ==> description@.len()
            == 0,
{
    proof {
        lemma_first_english_text_by_index(species.flavor_text_entries@);
    }
    let entries = &species.flavor_text_entries;
    let en = String::from_str("en");
    let n = entries.len();
    let mut i: usize = 0;
    assert(entries@.skip(0) =~= entries@);
    while i < n
        invariant
            n == entries.len(),
            i <= n,
            en@ == "en"@,
            entries@ == species.flavor_text_entries@,
            first_english_text(entries@) == first_english_text(entries@.skip(i as int)),
        decreases n - i,
    {
        assert(entries@.skip(i as int)[0] == entries@[i as int]);
        if entries[i].language.eq(&en) {
            proof {
                lemma_first_english_text_by_index(species.flavor_text_entries@);
            }
            return sanitize_description(entries[i].flavor_text.as_str());
        }
        assert(entries@.skip(i as int).skip(1) =~= entries@.skip(i + 1));
        i = i + 1;
    }
    String::new()
}

/// The error for a failed fetch of the data of the Pokemon named `name`.
pub open spec fn lookup_error_view(name: Seq<char>, failure: FetchFailure) -> ServiceErrorView {
    match failure {
        FetchFailure::Reqwest => ServiceErrorView::NotFound(name),
        FetchFailure::Other { debug } => ServiceErrorView::Unknown(debug@),
    }
}

/// A failed HTTP request for the data of the Pokemon named `name` means that no
/// Pokemon has that name, whatever the name; any other failure is unknown,
/// described by its debug rendering.
pub proof fn lemma_lookup_error_cases(name: Seq<char>, failure: FetchFailure)
    ensures
        (failure is Reqwest) ==> (lookup_error_view(name, failure) == ServiceErrorView::NotFound(
            name,
        )),
        (failure is Other) ==> (lookup_error_view(name, failure) == ServiceErrorView::Unknown(
            failure->debug@,
        )),
{
}

/// The error for a failed fetch of the data of the Pokemon named `name`: a
/// failed HTTP request means that no such Pokemon exists; any other failure
/// is unknown, described by its debug rendering.
pub fn lookup_error(name: &str, failure: FetchFailure) -> (e: ServiceError)
    ensures
        e@ == lookup_error_view(name@, failure),
        (failure is Reqwest) ==> (e@ == ServiceErrorView::NotFound(name@)),
        (failure is Other) ==> (e@ == ServiceErrorView::Unknown(failure->debug@)),
{
    match failure {
        FetchFailure::Reqwest => ServiceError::NotFound { name: String::from_str(name) },
        FetchFailure::Other { debug } => ServiceError::Unknown { error: debug },
    }
}

/// What follows the fetch of the data of the Pokemon named `name`: fetched
/// data names the species to fetch next; a failed fetch ends the lookup
/// with the error that `lookup_error` gives.
pub fn after_pokemon_data(name: &str, fetched: Result<PokemonRecord, FetchFailure>) -> (step:
    LookupStep)
    ensures
        (match fetched {
            Ok(record) => step == (LookupStep::FetchSpecies { record }),
            Err(failure) => step is Finished && step->Finished_0 is Err
                && step->Finished_0->Err_0@ == lookup_error_view(name@, failure),
        }),
        (fetched is Err && fetched->Err_0 is Reqwest) ==> (step is Finished && step->Finished_0 is Err
            && step->Finished_0->Err_0@ == ServiceErrorView::NotFound(name@)),
{
    match fetched {
        Ok(record) => LookupStep::FetchSpecies { record },
        Err(failure) => LookupStep::Finished(Err(lookup_error(name, failure))),
    }
}

/// The Pokemon found once its species came back: its name from its data;
/// its description, habitat and legendary state from its species. A failed
/// fetch of the species is an unknown error, described by `debug`.
pub fn after_species(record: PokemonRecord, fetched: Result<SpeciesRecord, String>) -> (found:
    Result<Pokemon, ServiceError>)
    ensures
        (match fetched {
            Ok(species) => found is Ok && found->Ok_0.name == record.name
                && found->Ok_0.description@ == species_description(species)
                && found->Ok_0.habitat == species.habitat && found->Ok_0.is_legendary
                == species.is_legendary,
            Err(debug) => found == Err::<Pokemon, ServiceError>(
                ServiceError::Unknown { error: debug },
            ),
        }),
{
    match fetched {
        Ok(species) => {
            let description = extract_description(&species);
            Ok(
                Pokemon {
                    name: record.name,
                    description,
                    habitat: species.habitat,
                    is_legendary: species.is_legendary,
                },
            )
        },
        Err(debug) => Err(ServiceError::Unknown { error: debug }),
    }
}

} // verus!
