# winrt-nostd

A model of the Windows Runtime (WinRT) for bare-metal environments, written
in Verus: the functions of the library carry contracts that Verus proves.
Two small wrappers of std calls are trusted rather than proved:
`text::push_char` (`String::push`) and `activation::btree_get_mut`
(`BTreeMap::get_mut`); their contracts restate what std documents.

Layout:

- `src/` — the verified library.
  - `text.rs`: character-level helpers (search, UTF-16 encoding, hexadecimal
    digits, decimal parsing) specified over `Seq<char>`.
  - `activation.rs`: HSTRINGs, GUIDs, activation factories and the table of
    live objects.
  - `metadata.rs`: the `.winmd`-style type catalogue and the built-in types.
  - `async_ops.rs`: `IAsyncOperation`, `IAsyncAction` and
    `IAsyncOperationWithProgress` as state machines.
  - `projections.rs`: `Uri`, `DateTime`, `TimeSpan`, `StorageFile`,
    `StorageFolder`, `Color`/`Colors` and `HostName`.
  - `driver.rs`: runtime start-up, activation by class name, type
    information and statistics.
- `app/` — the process-wide state behind `spin` locks, logging through `log`,
  and the floating-point `TimeSpan` conversions; it calls the library.
- `tests/` — tests of the library on concrete values.

The library takes the process-wide state (registry slot, handle and
operation-id counters, runtime state) as explicit parameters; `app/` keeps
that state in statics and passes it in.
