# nue

An NFC card reading / writing system for the PN532 reader, built around a library
whose behaviour is stated in contracts and proved with Verus.

## Layout

- `src/` — the verified library:
  - `auth`: the ChaCha20Poly1305 authentication token (`Token`), its byte layout,
    encryption and decryption.
  - `raw_card`: the card UID (`CardID`, shown as `04:A1:FF:3C`) and the raw card
    stored on a tag (`RawCard`), with its 44-byte layout.
  - `card`: card records kept in storage (`NfcCard`, `NfcCardBuilder`), their
    subscription tier and status, UTC timestamps, and the storage row layout.
  - `error`: the error type and its messages.
  - `storage`: the storage traits and the in-memory store.
  - `nfc`: the NTAG page protocol: the READ and WRITE commands that move a raw
    card to and from a tag, and the decisions taken while polling the reader.
- `tests/` — tests of the library on concrete values.
- `app/` — the programs around the library: the NFC reader on libnfc, the LMDB and
  SQLite storage backends, the card manager CLI and the web entry point.
