# blockwork

The logic of Blockwork, a visual macro editor and player, as a library
whose functions carry Verus contracts and are proved against them.

- `src/` is the library. Every function in it is verified by Verus, apart
  from a few small wrappers around outside crates (`uuid`, `base64`,
  `bincode`, `png`) and `std::time`, whose contracts are stated in their doc
  comments. The modules are grouped in `src/lib.rs`: the block vocabulary
  and the macro document (values, instructions, field slots, lists, legacy
  loads, key capture), the editor state and commands, the daemon protocol
  and its socket, the input helpers and the shared-memory ring, and the
  installed-app listing and icons.
- `tests/` runs the library on concrete values.
- `app/` is the host around it: the JSON transport, the daemon's and the
  window's socket loops, reading settings, desktop entries and input
  devices from disk, and the one-second timers. It hands the library plain
  values and acts on what the library decides.
