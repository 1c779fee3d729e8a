# OwlGuard (枭卫) — verified fraud-script detection

OwlGuard spots telecom fraud in chat conversations. Ten "script machines"
follow the stages of common fraud scripts (fake part-time jobs, fake
investment, fake police, romance scams, ...); a detector finds bank card
numbers, identity numbers, verification codes and payment passwords; local
blacklists flag URLs and app names; a scorer combines it all into one
verdict. The service speaks the Model Context Protocol over stdio.

Layout:

- `src/` — the library, written in Verus. Every function carries a
  contract over mathematical models (`Seq`, `Set`, views of each type), and
  the library states and proves its laws: a script machine never moves back,
  its risk never falls, a scan reports the highest risk of all scripts, the
  verdict follows the scoring table, cleaned text is in normal form.
  - `utils/` — text helpers, Luhn check, identity-number check, text cleaning.
  - `matchers/` — keyword (Aho-Corasick) and regex matchers.
  - `detectors/` — script machines, sensitive data, threat lists, scorer,
    and the orchestrator that runs them together.
  - `rules/` — rule-file records and their conversion into script machines.
  - `mcp/` — the request and result records of the service's tools.
- `app/` — the MCP server: JSON (de)serialisation, rule-file reading, stdio.
- `tests/` — tests of the library.

Risk scores are kept in hundredths (`0..=100`); the server reports them as
fractions.
