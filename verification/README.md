# base_ui_leptos

Headless, accessible UI building blocks for Leptos: avatar, meter, progress,
separator and fieldset parts, the providers they read (CSP, text direction,
labelable fields), and the utilities behind them (ids, animation frames,
timers, scroll locking, a small observable store, class/style/render props).

## Layout

- `src/` — the library, verified with Verus. It holds the state of every
  part, the rules that decide what a part renders (which attributes, which
  text, which style), the schedulers and reference counters, and the string
  logic (ids, error messages, browser detection, media queries). Each public
  function states in its contract what it returns or changes, as far as that
  is decided by the library and not by the reactive runtime or by callbacks
  the user supplies (the store records which listener it notified of which
  state); the properties that relate several calls are public proof
  functions named `lemma_*`.
- `app/` — ordinary Rust around the library: the Leptos components and the
  browser work (DOM access, `setTimeout`, `requestAnimationFrame`, computed
  styles, floating-point measurements and formatting), calling the library
  for every decision.
- `tests/` — tests of the library on concrete values.
