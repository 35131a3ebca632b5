//! The data model of the service and the decisions it takes between its calls
//! to the Pokemon provider and the translation provider.
//!
//! Serving a translated Pokemon takes two calls to outside services: first
//! the Pokemon is fetched, then its description is translated. The caller
//! makes the calls; this module says what follows each of them.

use crate::language_policies::{is_legendary_or_cave_dweller, CaveAndLegendarySpeakAsYoda};
use vstd::prelude::*;

verus! {

/// What the service tells about one Pokemon.
#[derive(Clone, Debug, PartialEq, Eq)]
pub struct Pokemon {
    pub name: String,
    pub description: String,
    pub habitat: Option<String>,
    pub is_legendary: bool,
}

/// The languages a description can be translated into.
#[derive(Debug, Copy, Clone, PartialEq, Eq, Structural)]
pub enum Language {
    Yoda,
    Shakespeare,
}

/// The errors of the service.
#[derive(Clone, Debug, PartialEq, Eq)]
pub enum ServiceError {
    /// No Pokemon has the requested name.
    NotFound { name: String },
    /// Anything else went wrong; `error` describes it.
    Unknown { error: String },
}

/// A `ServiceError` with its text taken by its characters.
pub enum ServiceErrorView {
    NotFound(Seq<char>),
    Unknown(Seq<char>),
}

impl View for ServiceError {
    type V = ServiceErrorView;

    open spec fn view(&self) -> ServiceErrorView {
        match self {
            ServiceError::NotFound { name } => ServiceErrorView::NotFound(name@),
            ServiceError::Unknown { error } => ServiceErrorView::Unknown(error@),
        }
    }
}

/// Chooses the language that a Pokemon's description is translated into.
pub trait SelectLanguagePolicy {
    /// The language this policy selects for `pokemon`.
    spec fn selects(&self, pokemon: Pokemon) -> Language;

    /// The language this policy selects for `pokemon`.
    fn select(&self, pokemon: &Pokemon) -> (language: Language)
        ensures
            language == self.selects(*pokemon),
    ;
}

/// What follows the fetch of the Pokemon for a translated answer.
#[derive(Debug, PartialEq, Eq)]
pub enum TranslationStep {
    /// The answer is ready: no translation is asked for.
    Finished(Result<Pokemon, ServiceError>),
    /// The description of `pokemon` is to be translated into `language`.
    Translate { pokemon: Pokemon, language: Language },
}

/// The service: it holds the policy that chooses the translation language.
pub struct PokemonService<L: SelectLanguagePolicy> {
    language_policy: L,
}

impl<L: SelectLanguagePolicy> PokemonService<L> {
    /// The language policy of the service.
    pub closed spec fn policy(&self) -> L {
        self.language_policy
    }

    /// A service that chooses translation languages with `language_policy`.
    pub fn new(language_policy: L) -> (service: Self)
        ensures
            service.policy() == language_policy,
    {
        PokemonService { language_policy }
    }

    /// What follows the fetch of the Pokemon: a failed fetch is the answer,
    /// unchanged; a fetched Pokemon, unchanged, has its description
    /// translated into the language that the service's policy selects for it.
    pub fn after_pokemon_fetched(&self, fetched: Result<Pokemon, ServiceError>) -> (step:
        TranslationStep)
        ensures
            (match fetched {
                Ok(p) => step == (TranslationStep::Translate {
                    pokemon: p,
                    language: self.policy().selects(p),
                }),
                Err(e) => step == TranslationStep::Finished(Err(e)),
            }),
    {
        match fetched {
            Ok(p) => {
                let language = self.language_policy.select(&p);
                TranslationStep::Translate { pokemon: p, language }
            },
            Err(e) => TranslationStep::Finished(Err(e)),
        }
    }
}

impl Default for PokemonService<CaveAndLegendarySpeakAsYoda> {
    /// The service of the Pokedex: Yoda for legendary Pokemon and cave
    /// dwellers, Shakespeare for the others.
    fn default() -> (service: Self)
        ensures
            service.policy() == CaveAndLegendarySpeakAsYoda,
    {
        PokemonService::new(CaveAndLegendarySpeakAsYoda)
    }
}

/// The Pokedex's service with its default policy sends the description of a
/// legendary Pokemon or of a cave dweller to be translated into Yoda's speech,
/// and that of any other Pokemon into Shakespeare's.
pub proof fn lemma_default_service_language(
    service: PokemonService<CaveAndLegendarySpeakAsYoda>,
    pokemon: Pokemon,
)
    ensures
        service.policy().selects(pokemon) == (if is_legendary_or_cave_dweller(pokemon) {
            Language::Yoda
        } else {
            Language::Shakespeare
        }),
{
}

/// The Pokemon served once the translation of its description came back:
/// a translated text replaces the description; when the translation failed
/// the Pokemon is served as it was fetched.
pub fn after_translation(pokemon: Pokemon, translated: Result<String, ServiceError>) -> (served:
    Pokemon)
    ensures
        served.name == pokemon.name,
        served.habitat == pokemon.habitat,
        served.is_legendary == pokemon.is_legendary,
        served.description == (match translated {
            Ok(text) => text,
            Err(_) => pokemon.description,
        }),
{
    let mut served = pokemon;
    match translated {
        Ok(text) => {
            served.description = text;
        },
        Err(_) => {},
    }
    served
}

} // verus!
