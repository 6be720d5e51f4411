# post

The logic of a forum — home workbench, search, comment threads, taxonomy, moderation,
notifications, uploads, roles and the integration outbox — written in Verus, with each
public function's behaviour stated in its contract and proved.

## Layout

- `src/` — the verified library (crate `post`). `bridge.rs` holds every call into std or
  an outside crate (`uuid`, `time`, `sha2`, `base64`, `regex`) whose contract is trusted;
  everything else is proved. Laws that relate several functions are public proof
  functions named `law_*`, next to the functions they speak of.
- `tests/` — tests of the library on concrete values.
- `app/` — the program around the library: JSON documents (sidebar cache, outbox
  payloads, search-engine queries and responses), the error type's display form,
  floating-point counters and environment switches.

The web server, page rendering and database access are not part of this build.
