# Passforge

A terminal password manager. Logins are kept in a passfile: the JSON text of
the vault, encrypted with AES-256 under the user's password and written in
Base64.

- `src/` is the verified library: the vault (`vault`, `entry`), sealing and
  opening a passfile (`crypto`), password generation (`generator`), the
  reading of menu replies (`text`, `menu`), the dialogue's next step for
  each screen (`flow`) and the session state and file locations (`session`).
- `app/` is the interactive program around it: prompts, screen, files,
  clipboard and the JSON encoding of the vault.
- `tests/` exercises the library on concrete values.
