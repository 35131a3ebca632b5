use tl_ex::language_policies::CaveAndLegendarySpeakAsYoda;
use tl_ex::service::{Language, Pokemon, SelectLanguagePolicy};

fn pokefake() -> Pokemon {
    Pokemon {
        name: "pokefake".to_string(),
        description: "Fake Description".to_string(),
        habitat: None,
        is_legendary: false,
    }
}

fn legendary() -> Pokemon {
    let mut p = pokefake();
    p.is_legendary = true;
    p
}

#[test]
fn pokefake_use_shakespeare() {
    for habitat in [Some("rare"), Some("forest"), None] {
        for name in ["pikachu", "zubat", "nocare", "mewtwo"] {
            let mut p = pokefake();
            p.name = name.to_string();
            p.habitat = habitat.map(|h| h.to_string());
            assert_eq!(Language::Shakespeare, CaveAndLegendarySpeakAsYoda.select(&p));
        }
    }
}

#[test]
fn legendary_pokemon_use_yoda() {
    for habitat in [Some("rare"), Some("forest"), None] {
        for name in ["pikachu", "zubat", "nocare"] {
            let mut p = legendary();
            p.name = name.to_string();
            p.habitat = habitat.map(|h| h.to_string());
            assert_eq!(Language::Yoda, CaveAndLegendarySpeakAsYoda.select(&p));
        }
    }
}

#[test]
fn pokemon_from_cave_use_yoda() {
    for name in ["nocare", "zubat", "pokefake"] {
        let mut p = pokefake();
        p.name = name.to_string();
        p.habitat = Some("cave".to_string());
        assert_eq!(Language::Yoda, CaveAndLegendarySpeakAsYoda.select(&p));
    }
}

#[test]
fn habitat_must_be_exactly_cave() {
    for habitat in ["Cave", "caves", "cave ", " cave", "cav", ""] {
        let mut p = pokefake();
        p.habitat = Some(habitat.to_string());
        assert_eq!(Language::Shakespeare, CaveAndLegendarySpeakAsYoda.select(&p));
    }
}

#[test]
fn legendary_cave_dweller_uses_yoda() {
    let mut p = legendary();
    p.habitat = Some("cave".to_string());
    assert_eq!(Language::Yoda, CaveAndLegendarySpeakAsYoda.select(&p));
}
