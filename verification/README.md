# crux_core

The side-effect-free core of a Crux app, with its behaviour stated as Verus
contracts and proved.

## Layout

- `src/` — the verified library:
  - `steps`, `stream`, `middleware`, `bridge` — how effect requests are
    resolved: one-shot and repeated continuations, the shell stream's poll
    decisions, routing effects through a middleware, and the layout of a
    request id.
  - `capability`, `operation`, `command`, `key_value`, `platform`, `render`,
    `sender`, `playground` — operations, capabilities and the commands they
    hand back.
  - `type_generation` — what type generation decides: the names the
    generated shell API claims and the checks that protect them, the effect
    metadata recorded during reflection, which effect a generated
    declaration belongs to, the imports, manifest entries and companion files
    each plugin adds, the configuration checks made before a language is
    generated, and — in `type_generation::emit` — the source each plugin
    writes for the effect (the request kind accessor, the request id
    decoder, the effect handler and dispatcher, and the `Core` loop), as
    lines built around the code generator's rendering of types.
  - `typegen` — the serde-reflection generator's registration phases, its
    error messages and the patches applied to the sources it writes.
- `app/` — the plain Rust around it: reflecting types with facet, driving
  facet-generate's installers and `pnpm`, the plugin hooks that render types
  and serialization code and write the library's lines, the serde-reflection
  generator, the stream's executor plumbing and the bincode FFI format.
- `tests/` — tests of the library.

## What is not here

The original's middleware stack — `Layer`, `HandleEffectLayer`,
`MapEffectLayer`, `EffectMiddleware`, `EffectResolver` (with its refusal of a
resolve made while the middleware is still being called) and the FFI `Bridge`
— is not part of this crate: it is built on the core, request and
resolve-registry modules, which are not part of it either. What it decides
stands in `middleware` (which effects a middleware handles and which pass on,
and converting effects between layers) and in `bridge` (the layout of a request
id). The `App` trait, which names those modules' `Command` and `Effect`, is
left out for the same reason.

