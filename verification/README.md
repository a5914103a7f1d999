# mycelium

A Verus-verified library for reading PCI configuration-space headers, with
the bookkeeping of an in-kernel test runner.

- `src/` is the verified library: header type register, interrupt pin,
  base address register decoding, device and class identities looked up in
  the PCI ID database (`pci-ids`), hexadecimal text, and test-run tallies.
  The trusted calls are the lookups in the database, each a wrapper in
  `src/pci_db.rs` whose contract names the database's answer, and
  `push_char` in `src/fmt.rs`, which wraps `String::push`.
- `app/` is ordinary Rust: the test runner's linker section, output and
  global state, `core::fmt` and `mycelium_bitfield` trait impls on copies of
  library types, and raw-pointer helpers.
- `tests/` exercises the library on concrete values.
