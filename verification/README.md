# renert

Fact extraction for Russian text: fact schemes and records, interpretation of matched
tokens into facts (attributes, normalizers, interpretators), grammeme codes, and the
resolution of overlapping matches. The library under `src/` is verified with Verus; `app/`
holds what touches the disk, the morphological dictionary and JSON.

## Layout

- `src/internal/fact_schema.rs`: fact schemes (name, lineage, attributes with defaults and
  repeatability) and fact records, with their laws (a record reads back what it was given,
  or the default; unknown keys are refused exactly when present).
- `src/interpretation/`: values of facts (`value.rs`), attributes (`attribute.rs`),
  normalizers and runtime results (`normalizer.rs`), runtime facts with `set` and `merge`
  (`fact.rs`), and interpretators (`interpretator.rs`).
- `src/morph/`: grammemes and their OpenCorpora codes (`grammemes.rs`), gender, number and
  case projections of a set of codes (`models.rs`), and forms of words with their inflection
  through the morph-rs analyzer, grammeme checks and the analyzer checked for use
  (`form.rs`).
- `src/parser/`: the chart of a parse, whose columns hold each state once (`chart.rs`); the
  fields of a fact being extracted, sorted by name, with repeatable fields accumulating
  lists (`fact_extract.rs`); the choice of non-overlapping matches (`match_result.rs`);
  rules made of productions of words and other rules, their registry, and the Earley
  recognizer that fills a chart from them with predict, scan and complete, proved to
  terminate and to leave each column free of repeats and closed under the three steps,
  with the parser that finds the matches of a rule in a text (`engine.rs`).
- `src/token.rs`, `src/span.rs`, `src/text.rs`, `src/error.rs`: tokens (with the parses of
  their words, which give their normal forms), spans, text helpers and error types.
- `app/`: the morphological analyzer over `morph-rs` with its cache and a tokenizer that
  attaches parses to tokens, the dictionary loader, global initialisation, and JSON
  conversion with `serde_json`.

The text of a fact record writes a nested fact as an indented block of its own:

```text
Person(
    position='управляющий директор',
    name=Name(
        first='иван',
        last='ульянов'
    )
)
```
- `tests/`: tests of the library.

## Checking

Verus proves every function under `src/`. Where a result rests on the dictionary on disk
(the parses of a word, inflection, the check of an analyzer), the contract states what holds of every answer the
analyzer can give. The calls into the standard library, `serde_json` and `morph-rs` whose
behaviour Verus does not know are wrapped in small trusted functions whose doc comments say
what is assumed.

Inflection needs the analyzer: `InflectedNormalizer::call_with`, `NormalizerCallable::call_with`
and the interpretators' `call_with` take a `CheckedAnalyzer`; without one, `inflected(...)`
gives the normal forms of the tokens.
