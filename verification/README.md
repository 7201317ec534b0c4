# clipsync

The verified core of ClipSync, a local clipboard synchronisation service
between desktop and mobile devices on the same network.

`src/` is the library, checked by Verus:

- `text` — character-level string operations (substring search, lexicographic
  order, Unicode trimming, decimal formatting) proved against `Seq<char>` specs.
- `name_map` — a finite map keyed by peer name, viewed as `Map<Seq<char>, V>`.
- `models`, `state` — settings, wire messages and the runtime state with its invariant.
- `hashing` — payload hashes and the bounded loop-prevention cache.
- `logging` — clock readings, event lines and the bounded diagnostics buffer.
- `security` — the conflict policy (newest timestamp, ties by sender name) and
  local-network scoping of peers.
- `settings` — the announced device name.
- `network` — discovery bookkeeping, stale-peer pruning, handshake targets.
- `sync` — planning local sends and applying payloads received from peers.
- `transport` — pairing, inbound and outbound authentication, and send-outcome bookkeeping.
- `status` — dashboard summary, tray text and user commands.
- `clipboard` — clipboard read results and native bridge commands.
- `laws` — properties that span several operations.

`app/` is the runtime around it: shared state behind a mutex, the settings
file, mDNS and UDP discovery, the WebSocket transport and the user commands.
