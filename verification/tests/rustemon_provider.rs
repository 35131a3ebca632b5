use tl_ex::rustemon_provider::{
    after_pokemon_data, after_species, extract_description, lookup_error, FetchFailure,
    FlavorTextEntry, LookupStep, PokemonRecord, SpeciesRecord,
};
use tl_ex::service::{Pokemon, ServiceError};

fn entry(text: &str, language: &str) -> FlavorTextEntry {
    FlavorTextEntry { flavor_text: text.to_string(), language: language.to_string() }
}

fn mewtwo_species() -> SpeciesRecord {
    SpeciesRecord {
        flavor_text_entries: vec![
            entry("Il a été créé par un scientifique", "fr"),
            entry("It was created by\na scientist after years of horrific\u{c}gene splicing and DNA\nengineering experiments.", "en"),
            entry("Second english text", "en"),
        ],
        habitat: Some("rare".to_string()),
        is_legendary: true,
    }
}

#[test]
fn description_is_first_english_text_sanitized() {
    assert_eq!(
        "It was created by a scientist after years of horrific gene splicing and DNA engineering experiments.",
        extract_description(&mewtwo_species())
    );
}

#[test]
fn description_without_english_text_is_empty() {
    let species = SpeciesRecord {
        flavor_text_entries: vec![entry("texte", "fr"), entry("Text", "de"), entry("text", "EN")],
        habitat: None,
        is_legendary: false,
    };
    assert_eq!("", extract_description(&species));
    let empty = SpeciesRecord { flavor_text_entries: vec![], habitat: None, is_legendary: false };
    assert_eq!("", extract_description(&empty));
}

#[test]
fn should_return_not_found_error() {
    for name in ["not_a_pokemon", "", "a/s/d", "#$@", ","] {
        assert_eq!(
            ServiceError::NotFound { name: name.to_string() },
            lookup_error(name, FetchFailure::Reqwest)
        );
    }
}

#[test]
fn other_fetch_failure_is_unknown() {
    assert_eq!(
        ServiceError::Unknown { error: "UrlParse(\"x\")".to_string() },
        lookup_error("x", FetchFailure::Other { debug: "UrlParse(\"x\")".to_string() })
    );
}

#[test]
fn fetched_data_asks_for_species() {
    let record = PokemonRecord { name: "mewtwo".to_string(), species_name: "mewtwo".to_string() };
    assert_eq!(
        LookupStep::FetchSpecies { record: record.clone() },
        after_pokemon_data("MEWTWO", Ok(record))
    );
}

#[test]
fn failed_data_fetch_finishes_lookup() {
    assert_eq!(
        LookupStep::Finished(Err(ServiceError::NotFound { name: "missingno".to_string() })),
        after_pokemon_data("missingno", Err(FetchFailure::Reqwest))
    );
}

#[test]
fn should_return_correct_name_habitat_and_legendary_state() {
    let record = PokemonRecord { name: "mewtwo".to_string(), species_name: "mewtwo".to_string() };
    let found = after_species(record, Ok(mewtwo_species()));
    assert_eq!(
        Ok(Pokemon {
            name: "mewtwo".to_string(),
            description: "It was created by a scientist after years of horrific gene splicing and DNA engineering experiments.".to_string(),
            habitat: Some("rare".to_string()),
            is_legendary: true,
        }),
        found
    );
}

#[test]
fn species_without_habitat() {
    let record = PokemonRecord { name: "quaxly".to_string(), species_name: "quaxly".to_string() };
    let species = SpeciesRecord { flavor_text_entries: vec![], habitat: None, is_legendary: false };
    let found = after_species(record, Ok(species)).unwrap();
    assert_eq!(None, found.habitat);
    assert!(!found.is_legendary);
    assert_eq!("", found.description);
}

#[test]
fn failed_species_fetch_is_unknown() {
    let record = PokemonRecord { name: "mewtwo".to_string(), species_name: "mewtwo".to_string() };
    assert_eq!(
        Err(ServiceError::Unknown { error: "Reqwest(timeout)".to_string() }),
        after_species(record, Err("Reqwest(timeout)".to_string()))
    );
}
