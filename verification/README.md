# tl_ex — a Pokedex REST service with a verified core

The server answers `GET /pokemon/<name>` with a Pokemon's name, description,
habitat and legendary state, and `GET /pokemon/translated/<name>` with the
same Pokemon whose description is translated into Yoda's speech (legendary
Pokemon and cave dwellers) or Shakespeare's (all others). A failed translation
leaves the description as it was.

Layout:

- `src/` — the library, verified with Verus:
  - `service.rs`: the data model and the two steps of a translated answer;
  - `language_policies.rs`: the choice of the translation language;
  - `text.rs`: the clean-up of raw descriptions, with its laws;
  - `rustemon_provider.rs`: what follows each call to PokeAPI;
  - `funtranslation_provider.rs`: where translation requests go and what
    their replies give;
  - `http.rs`: the HTTP status of each answer.
- `app/` — the server: routing (actix-web), the network calls (rustemon,
  reqwest), JSON, the command line.
- `tests/` — tests of the library.
