use tl_ex::http::{answer_status, error_status};
use tl_ex::language_policies::CaveAndLegendarySpeakAsYoda;
use tl_ex::service::{
    after_translation, Language, Pokemon, PokemonService, SelectLanguagePolicy, ServiceError,
    TranslationStep,
};

/// A policy that always answers the same language.
struct FixedLanguage(Language);

impl SelectLanguagePolicy for FixedLanguage {
    fn selects(&self, _pokemon: Pokemon) -> Language {
        self.0
    }

    fn select(&self, _pokemon: &Pokemon) -> Language {
        self.0
    }
}

fn mewtwo() -> Pokemon {
    Pokemon {
        name: "mewtwo".to_string(),
        description: "It was created by a scientist after years of horrific gene splicing and DNA engineering experiments".to_string(),
        habitat: Some("rare").map(str::to_string),
        is_legendary: true,
    }
}

fn pikachu() -> Pokemon {
    Pokemon {
        name: "pikachu".to_string(),
        description: "When several of these POKéMON gather, their electricity could build and cause lightning storms.".to_string(),
        habitat: Some("forest".to_string()),
        is_legendary: false,
    }
}

#[test]
fn tests_exists() {
    let answer: Result<Pokemon, ServiceError> = Ok(mewtwo());
    assert_eq!(200, answer_status(&answer));
}

#[test]
fn tests_does_not_exist() {
    let service = PokemonService::new(FixedLanguage(Language::Shakespeare));
    let fetched = Err(ServiceError::NotFound { name: "mewtwo".to_string() });
    match service.after_pokemon_fetched(fetched) {
        TranslationStep::Finished(answer) => {
            assert_eq!(404, answer_status(&answer));
            assert_eq!(Err(ServiceError::NotFound { name: "mewtwo".to_string() }), answer);
        }
        other => panic!("unexpected step {other:?}"),
    }
}

#[test]
fn provider_error() {
    let error = ServiceError::Unknown { error: "Pokemon name: mewtwo".to_string() };
    assert_eq!(500, error_status(&error));
    assert_eq!(500, answer_status(&Err(error)));
}

#[test]
fn should_translate() {
    for language in [Language::Shakespeare, Language::Yoda] {
        let service = PokemonService::new(FixedLanguage(language));
        let mewtwo_desc = mewtwo().description;
        let (pokemon, chosen) = match service.after_pokemon_fetched(Ok(mewtwo())) {
            TranslationStep::Translate { pokemon, language } => (pokemon, language),
            other => panic!("unexpected step {other:?}"),
        };
        assert_eq!(language, chosen);
        assert_eq!(mewtwo_desc, pokemon.description);
        let translated = format!("{chosen:?}-{}", pokemon.description);
        let served = after_translation(pokemon, Ok(translated));
        assert_eq!(format!("{language:?}-{mewtwo_desc}"), served.description);
        assert_eq!("mewtwo", served.name);
        assert_eq!(Some("rare".to_string()), served.habitat);
        assert!(served.is_legendary);
    }
}

#[test]
fn translate_error_should_return_orig_description() {
    for language in [Language::Shakespeare, Language::Yoda] {
        let service = PokemonService::new(FixedLanguage(language));
        let mewtwo_desc = mewtwo().description;
        let pokemon = match service.after_pokemon_fetched(Ok(mewtwo())) {
            TranslationStep::Translate { pokemon, .. } => pokemon,
            other => panic!("unexpected step {other:?}"),
        };
        let failure = ServiceError::Unknown { error: mewtwo_desc.clone() };
        let served = after_translation(pokemon, Err(failure));
        assert_eq!(mewtwo_desc, served.description);
        assert_eq!(mewtwo(), served);
    }
}

#[test]
fn default_service_translates_legendary_into_yoda() {
    let service: PokemonService<CaveAndLegendarySpeakAsYoda> = Default::default();
    match service.after_pokemon_fetched(Ok(mewtwo())) {
        TranslationStep::Translate { language, pokemon } => {
            assert_eq!(Language::Yoda, language);
            assert_eq!(mewtwo(), pokemon);
        }
        other => panic!("unexpected step {other:?}"),
    }
    match service.after_pokemon_fetched(Ok(pikachu())) {
        TranslationStep::Translate { language, .. } => assert_eq!(Language::Shakespeare, language),
        other => panic!("unexpected step {other:?}"),
    }
}

#[test]
fn unknown_fetch_error_passes_through() {
    let service: PokemonService<CaveAndLegendarySpeakAsYoda> = Default::default();
    let error = ServiceError::Unknown { error: "timeout".to_string() };
    assert_eq!(
        TranslationStep::Finished(Err(error.clone())),
        service.after_pokemon_fetched(Err(error))
    );
}

#[test]
fn default_service_translates_cave_dweller_into_yoda() {
    let service: PokemonService<CaveAndLegendarySpeakAsYoda> = Default::default();
    let mut zubat = pikachu();
    zubat.name = "zubat".to_string();
    zubat.habitat = Some("cave".to_string());
    match service.after_pokemon_fetched(Ok(zubat.clone())) {
        TranslationStep::Translate { language, pokemon } => {
            assert_eq!(Language::Yoda, language);
            assert_eq!(zubat, pokemon);
        }
        other => panic!("unexpected step {other:?}"),
    }
}
