//! Policies that choose the translation language of a Pokemon.
//!
//! `CaveAndLegendarySpeakAsYoda` chooses `Yoda` for every legendary Pokemon
//! and for every Pokemon that lives in a cave, and `Shakespeare` otherwise.

use crate::service::{Language, Pokemon, SelectLanguagePolicy};
use vstd::prelude::*;
use vstd::string::StringExecFns;

verus! {

/// Whether `pokemon` is legendary or lives in a cave.
pub open spec fn is_legendary_or_cave_dweller(pokemon: Pokemon) -> bool {
    ||| pokemon.is_legendary
    ||| (pokemon.habitat matches Some(h) && h@ == "cave"@)
}

/// Selects Yoda for each legendary Pokemon and each one that comes from a
/// cave, Shakespeare for the others.
pub struct CaveAndLegendarySpeakAsYoda;

impl SelectLanguagePolicy for CaveAndLegendarySpeakAsYoda {
    open spec fn selects(&self, pokemon: Pokemon) -> Language {
        if is_legendary_or_cave_dweller(pokemon) {
            Language::Yoda
        } else {
            Language::Shakespeare
        }
    }

    fn select(&self, pokemon: &Pokemon) -> (language: Language)
        ensures
            pokemon.is_legendary ==> language == Language::Yoda,
            (pokemon.habitat is Some && pokemon.habitat->0@ == "cave"@) ==> language
                == Language::Yoda,
            (!pokemon.is_legendary && (pokemon.habitat is None || pokemon.habitat->0@ != "cave"@))
                ==> language == Language::Shakespeare,
    {
        if pokemon.is_legendary {
            return Language::Yoda;
        }
        match &pokemon.habitat {
            Some(h) => {
                let cave = String::from_str("cave");
                if h.eq(&cave) {
                    Language::Yoda
                } else {
                    Language::Shakespeare
                }
            },
            None => Language::Shakespeare,
        }
    }
}

/// The policy selects Yoda for a legendary Pokemon and for one whose habitat
/// is exactly `"cave"`, and Shakespeare for one that is not legendary and has
/// no habitat or any other habitat.
pub proof fn lemma_cave_and_legendary_selection(pokemon: Pokemon)
    ensures
        pokemon.is_legendary ==> CaveAndLegendarySpeakAsYoda.selects(pokemon) == Language::Yoda,
        (pokemon.habitat is Some && pokemon.habitat->0@ == "cave"@)
            ==> CaveAndLegendarySpeakAsYoda.selects(pokemon) == Language::Yoda,
        (!pokemon.is_legendary && (pokemon.habitat is None || pokemon.habitat->0@ != "cave"@))
            ==> CaveAndLegendarySpeakAsYoda.selects(pokemon) == Language::Shakespeare,
{
}

} // verus!
