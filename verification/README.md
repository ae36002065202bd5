# clash-tui

A terminal client for mihomo (Clash): dashboard, proxy groups and latency
tests, connections, core logs, rules, system proxy and subscriptions, with a
daemon mode in which clients reach the core through a loopback connection.

The decisions of the client form a library whose behaviour is stated in
contracts and proved with Verus:

- `src/app.rs` — what each action does to the application state, and the
  work it hands to the caller as commands;
- `src/state` — applying refreshes (traffic speeds, the connection debounce,
  speed histories, logs) and the status line;
- `src/ui` — the pages' key handling and what they show, the page router,
  themes, and number formatting equal to `{:.1}`/`{:.0}` of the values as
  `f64`;
- `src/clash`, `src/ipc` — the API data model, request paths, and the
  messages between client and daemon;
- `src/subscription.rs`, `src/core_manager.rs`, `src/launch.rs`,
  `src/proxy.rs`, `src/hotkey.rs` — subscription bodies and entries, the
  core's configuration, the start-up of the core, the system proxy and the
  global hotkey;
- `src/text.rs` — text helpers with contracts over `Seq<char>`.

`app/` is the program around it: the terminal, drawing, HTTP, the daemon's
TCP server, files, processes and the registry.
