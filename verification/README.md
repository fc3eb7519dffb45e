# fracture

Core logic of the Fracture survival game, verified with Verus: the four
dimensions of reality and which dimension each chunk belongs to, fracture
events at weak points, creatures, anchors, phase shifting, the
cross-dimension network codecs, Prime world generation and the placement
preview.

- `src/` — the verified library. Each public function carries a contract over
  spec functions and views; the `law_*` proof functions state the properties
  that relate several operations (what a read gives back after a write, what
  unregistering undoes, that decoding inverts encoding, ...).
- `app/` — plain Rust around the library: glam vectors at the API edge, serde
  copies of the library's plain types, and everything that computes with
  floating-point values (probabilities, fuel, colours, temperatures). The
  random draws that decide fractures are made there and handed to
  `FractureEngine::advance_day`.
- `tests/` — tests of the library.
