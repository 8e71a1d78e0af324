# td — verified rules of a small tower-defense village game

`src/` is a Verus library holding the game's integer rules with their contracts and
laws: seed mixing and per-chunk counts, chunk streaming, the seed argument, the
economy of towers and upgrades, combat and wave progression, the input state machines,
the build catalog, and the resource passes. Calls into `rand` stand behind the trusted
items in `src/random.rs`.

`app/` is an ordinary Bevy program that runs the rules headless: it owns the
floating-point world (positions, roads, timers) and the I/O, and hands the library
plain values.

`tests/rules.rs` runs the library on concrete values.
