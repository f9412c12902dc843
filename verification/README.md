# multiruntime_streams

Routes stream processing across several Tokio runtimes.

- `src/` is the verified core (Verus): the presets of the shared runtimes and
  the Tokio builder set up from them, with a model of what the builder has
  been told (`spawners`), the runtime handle wrapper
  (`spawner`), and the decisions of the stream operators (`ops::poll_on`:
  channel setup with the pairing of the channel ends and the bound, the
  forwarding state machine and the stop signal;
  `ops::flat_map`: what is yielded for each task outcome).
- `app/` is the async layer: the `Spawner` traits, the `poll_on` /
  `flat_map` operators as `Stream`s, and the lazily built shared runtimes.
  It performs the awaits and hands each outcome to the verified core.
- `tests/` exercises the core on concrete values.
