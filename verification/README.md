# cazzmachine_lib

The verified core of a "doomscroll proxy": an app that crawls memes, jokes,
news, videos and gossip on the user's behalf and reports back with teasers
and an end-of-day summary.

- `src/` is the library; its functions are proved against their contracts,
  except a handful of small wrappers around `rand`, `base64` and `chrono`,
  whose contracts are taken on trust from those crates' sources:
  - `settings` – throttle level, consumption threads, notification skip;
  - `crawler` – providers per cycle, the provider list and its names, crawl
    retries, refill decisions, crawl log events;
  - `buffer` – health of the buffer of unconsumed items;
  - `selection` – drawing providers without replacement;
  - `summary`, `templates` – the daily summary and notification teasers;
  - `media` – `data:` URLs for fetched images;
  - `recency` – minutes since a provider last succeeded;
  - `text`, `diagnostics`, `random` – shared helpers.
- `app/` holds what is not proved: process-wide settings, the commands
  over the item store, the floating-point provider scoring, the crawl loops,
  network fetches and opening URLs.
- `tests/` exercises the library on concrete values.
