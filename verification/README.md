# stegrust

A command-line tool that encrypts secrets with AES-256-GCM under an Argon2id key
derived from a master password, and hides the result in PNG images through an
LSB steganography script. An encrypted SQLite index records which image holds
which entry.

- `src/` is the verified library: key derivation, sealing and opening of
  payloads (`salt | nonce | ciphertext | tag`), the pure rules of the index
  database (salt file, SQLCipher key, wrong-password detection, UPDATE
  statements), the command selection of the command line, and the rules of the
  bridge to the steganography script. Its contracts are checked by Verus.
- `app/` is the program around it: argument parsing, the system keyring, the
  SQLite connection, the Python subprocess and the terminal output.
- `tests/` exercises the library, including AES-256-GCM known answers.
