# artifact_content

The text of the artifacts that a GraphQL compiler writes: modules for operations,
updatable queries, split operations and fragments, in JavaScript, TypeScript, Flow and
ReScript.

- `src/` is the library. Every function is verified with Verus against a statement of
  the text that it writes.
  - `text`, `replace`: text as a sequence of characters, and the replacement of words.
  - `signing`: the signature in the docblock of a generated file.
  - `config`, `ir`, `rendered`: the settings, the definitions, and the text that the
    printer and the type generator made of them.
  - `annotations`, `sections`: the parts that modules are made of.
  - `operation`, `fragment`, `rescript`: the modules.
  - `artifact_content`: an artifact, what has to be rendered for it, and its bytes.
  - `laws`: what holds of all artifacts.
- `app/` asks the printer and the type generator of the compiler for what the library
  needs.
- `tests/` holds the tests.
