# myrtio_light

Logic of a Wi-Fi LED light, verified with Verus: the light composer (8-bit color math,
fixed-point rainbow gradients, color transitions, brightness envelopes, effect and mode
slots), the Home Assistant integration (topics, entity builders, message routing, number
payloads), and the firmware's decisions (light commands, change intents, the persisted
light-state record, debounced persistence, and the over-the-air update: the invite, the
GET request, the header/body split, the status check, and the sequence of messages a
download hands to the flasher and the update controller).

- `src/` is the verified library. Every public function carries a contract; the `law_*`
  proof functions state properties that span several calls.
- `tests/` runs the library on concrete values.
- `app/` is the unverified glue: `smart_leds` pixel types, the floating-point flowing
  rainbow, JSON messages through `serde`/`serde-json-core`, number entities (their step is a
  float), and the asynchronous storage, persistence and update loops.

Bounded text and byte buffers (topics, invite fields, the GET request) are std `String` and
`Vec` in `src/`. Their append rule is `heapless`'s documented one, restated in a few lines
(`push_bounded`, `bounded_extend`): a piece is appended whole if it fits the capacity and
dropped otherwise. `heapless::String<N>`/`Vec<T, N>` themselves are not used. Their
capacity `N` is a type parameter, and the crate names the contents of outside values only
over non-generic types.
