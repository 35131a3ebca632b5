//! A small Pokedex service: the data model, the choice of the language a
//! description is translated into, the clean-up of raw descriptions, and the
//! decisions taken between the calls to the Pokemon and translation services.

pub mod funtranslation_provider;
pub mod http;
pub mod language_policies;
pub mod rustemon_provider;
pub mod service;
pub mod text;
