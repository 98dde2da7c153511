# mira_logic

The rules of Mira, a turn-based role-playing game built on the Bevy engine, as a library
verified with Verus, with the engine's side of the game around it.

- `src/` — the verified library: the battle (slots, targets, hits, turn order), text fields and
  typing, the splash screen and menus, character switching, the audio channel registry, area
  loading, player movement state and animation choice, the cursor lock, and attack hits. Each
  public function states its result in its contract; the `lemma_*` proof functions state the
  laws that span several calls.
- `tests/` — tests on concrete values.
- `app/` — the engine's side: states, resources and systems that read the keyboard and the
  clock, read the configuration and character files, compute with floating point numbers
  (damage, volumes, fades), and ask the library what to do.
