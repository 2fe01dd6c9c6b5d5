# spooler

Items carry scripts, in JavaScript or WebAssembly. A manifest says what an item is
made of; its logic section names the modules of a script. This library holds the rules by which manifests
are spawned and scripts are found, started, scheduled and talked to, written and
verified in Verus. The script engine (deno), the game loop (bevy), threads and
JSON stay outside, in `app/`.

## Layout

* `src/manifest.rs`, `src/dom.rs`: manifests, and what spawning them adds to
  items.
* `src/logic/mod.rs`, `src/logic/worker.rs`: the manager, its worker, the rounds
  in which a worker gives runtimes their turns, and the connections that carry
  events between runtimes and items.
* `src/logic/instance.rs`, `src/logic/startup.rs`: a runtime's status, and the
  steps by which a script engine is brought up.
* `src/logic/module.rs`, `src/logic/module_url.rs`, `src/logic/loader.rs`,
  `src/logic/bundle.rs`: modules, their addresses, and who serves them.
* `src/logic/proxy.rs`, `src/logic/runtime.rs`: scripts that run behind a proxy
  and are sent a message each frame.
* `src/logic/expose.rs`, `src/logic/func.rs`, `src/derive.rs`: native values that
  scripts can read, and what `#[derive(RuntimeExposed)]` generates.
* `src/logic/channel.rs`, `src/logic/share.rs`: what is taken on trust of tokio's
  channels and of `Arc`. The URL parser is trusted in `src/logic/module_url.rs`,
  the identity of types in `src/logic/expose.rs`, the parser of declarations in
  `src/derive.rs`.

Numbers of floating-point type pass through the library as their bit patterns,
and times as nanoseconds.
