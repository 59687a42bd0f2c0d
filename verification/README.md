# sync-clipboard

Synchronises the clipboard (text and images) between machines on a local network,
over a mesh of WebSocket connections. The library under `src/` is verified with Verus;
`app/` is the program around it (command line, Wayland and Windows clipboard I/O,
WebSocket networking).

Library modules:

- `message`: the wire format (`serialize`, `deserialize`, payload encoding) and the
  content hash; `lemma_wire_roundtrip` proves that every message `serialize` produces
  deserializes to the content it came from.
- `sync`: echo suppression (`SyncState`) and the decisions on local and remote
  clipboard changes, with lemmas on what a write, an expiry and empty content lead to.
- `clipboard`: which mime types are text, how clipboard reads become content, what a
  clipboard write offers, the BMP framing of Windows bitmaps and image conversion.
- `transport`: what the read loop does with each WebSocket frame, reconnect delays.
- `inspect`: image format detection from magic bytes.

Calls into `sha2`, `zstd`, `image` and `String::from_utf8_lossy` go through small
trusted wrappers whose contracts are stated next to them.
