# lumi

Lumi is a small privacy-first web stack: the LMP binary protocol, the LumiML
page language, `.lumi` name resolution, site packages, a browser and a
server. This crate holds its logic as a library verified with Verus.

## Layout

- `src/` — the verified library.
  - `lumiml/` — the LumiML model (`model.rs`, a grammar over character
    sequences), the node type, and the parser proved to follow the model.
  - `protocol/` — errors, `lumi://` URIs, the name service, message
    framing with a step-by-step frame reader and stream ids, site packages,
    and certificates and keys read from PEM text.
  - `browser/` — the browser's state: tabs, history, log, the events of
    the window, the network session, responses from
    the network and how a payload becomes a page.
  - `render.rs` — what an element shows, where a button leads, and which
    elements are drawn through their children.
  - `server.rs` — which page answers a request.
  - `site.rs` — the files of a new site.
  - `text.rs` — character and string helpers shared by the above.
- `tests/` — tests of the library.
- `app/` — the programs around it: frames on byte streams, JSON forms of
  headers and packages, the TLS transport, the egui renderer and browser
  window, the `lumid` server and the `lumi` command line.
