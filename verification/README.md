# inv

The verified core of `inv`, an invoicing service: invoice lifecycle
bookkeeping, bus event mapping, signed view links, webhook signatures and
the request-side decisions of its CLI and HTTP adapters.

## Layout

- `src/` — the library, verified with Verus.
  - `domain.rs` — lifecycle states, amounts (`Money`), dates and their
    wire spellings.
  - `text.rs` — character-level helpers (decimal rendering and parsing,
    trimming, prefix and substring search, hex).
  - `bus/` — topic constants and payloads, the topic remap, the outbox
    row-to-event mapping and the inbound consumer's routing.
  - `commands/` — inputs and their validation, document numbers, audit
    rows and event payloads of each command, the ordered list of events a
    transition publishes, send, schedule, reminder and overdue decisions.
  - `api/` — bearer-token check, problem-detail mapping, signed links,
    webhook signatures and request handling decisions.
  - `cli/` — configuration defaults and lookup, argument parsing.
- `tests/` — executable tests of the library.
- `app/` — process glue: JSON and TOML shapes, conversions, the
  publisher seam and the outbox relay loop, configuration loading.
