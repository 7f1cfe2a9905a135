# cista

A local, encrypted password manager. The library in `src/` is written in
Verus: its functions carry contracts that Verus proves. The calls into other
crates (the cipher, Argon2id, BLAKE2s, the random source, the clock, the
platform directories, terminal colours, `secrecy`, `zeroize`) and a few std
calls (path components, error text, Unicode lowercasing) sit behind small
`#[verifier::external_body]` wrappers whose contracts are trusted, not proved;
each says in its doc comment what it claims of the crate it calls.

- `format`, `cipher`, `kdf`, `sealing`: the `.cista` file layout, the AEAD and
  the Argon2id key derivation, and sealing/opening a payload (the open of a
  seal gives the payload back).
- `model`: entries, secrets and the vault (search never looks at passwords).
- `password_gen`: password generation and the weak-password heuristics.
- `paths`, `cli`, `meta`, `vault_files`, `config`: file locations, vault path
  rules, metadata and backup names, the listing of vault files, settings.
- `handlers`, `prompts`, `repl`, `ui`: the decisions of the command line and of
  the interactive session.
- `tui`: key bindings and the screen state machine of the terminal UI, with
  its laws in `tui::laws`.

`app/` holds the programs around the library: argument parsing, files,
clipboard, terminal drawing and the event loops. `tests/` runs the library.
