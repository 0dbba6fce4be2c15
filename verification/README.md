# jj_commit

A guided, convention-aware commit-message builder for Jujutsu (`jjc`), with its
logic verified in Verus.

- `src/` is the verified library:
  - `text` — character-level primitives (first line, trimming, splitting,
    joining, searching) with their specifications;
  - `types` — the Conventional Commits types and the Gitmoji table;
  - `commit` — parsing a pre-filled message into its fields, the decisions of
    the interactive prompts, and formatting of the final message;
  - `convention` — recognising each convention and detecting the one a history
    follows;
  - `cli` — the command line and the rules tying its flags to the convention;
  - `jj` — the decisions taken around the repository: which descriptions count,
    where the ancestor-bookmark walk stops, and what happens to the bookmarks
    it finds;
  - `config` — where the user configuration is looked for, in order, and the
    environment overrides.
  Alongside the functions stand the proved laws: reading back what the builder
  writes gives the fields back (for every entry of the Gitmoji table, emoji of
  several characters included), the builder's messages are detected as their
  own convention, every table entry is recognised and read back by shortcode
  and by emoji (an emoji being a code point of Unicode's pictographic ranges),
  and pre-filling puts each prompt on the right entry.
- `app/` is the program: argument parsing, the prompts, and the repository work
  through `jj-lib`.
- `tests/` runs the library on concrete values.
