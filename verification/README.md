# kamism

The decisions of the kamism card-key licensing service, verified with Verus: how
the public API activates, verifies and unbinds devices and records heartbeats
(with black and white lists, per-card rate limits and escalating blocks), how
merchants' apps are listed, created, read, deleted and switched on and off, how
the signing service issues single-use authorization keys and runs keys' code, how
the call log groups calls, how OAuth logins find or create merchants, what the
operation log records, and what the system-update page shows.

## Layout

- `src/` — the verified library. Each request handler of the service is a function
  from what is known so far (a `…Facts` value) to the next piece of work or the
  answer (an `Act`), with a contract over spec functions; the laws that hold across
  steps are public proof functions (`law_…`).
  - `public_api.rs` (activation, verification, unbinding, heartbeats), `risk.rs`
    (blocks, alerts, limits);
  - `apps.rs`, `api_keys.rs`;
  - `api_ts.rs` (authorization keys, signing), `call_log.rs` (the call log);
  - `oauth.rs` (settings, provider answers), `oauth_login.rs` (logins);
  - `oplog.rs`, `system_update.rs`, `lines.rs`;
  - `text.rs`, `json.rs`, `draw.rs` — texts, JSON documents, random tokens.
- `tests/` — tests of the library on concrete values.
- `app/` — the axum service around the library: database, Redis, HTTP, shell and
  Python work, performing what the library's decisions name.

## Notes

- The call log groups today's calls (same key name, same card key, same five-second
  window) by searching a vector of groups rather than through a hash map keyed by
  text: with `String` keys Verus's specifications of `HashMap` gave nothing that
  could be proved, while the search over the vector is proved to put each of
  today's calls in exactly one group.
- A valid verification answers with the card code it was asked about and the
  card's expiry, remaining days, device limit and bound devices. The answer is
  cached for a minute in a record that also names the card; an answer is given
  from the cache only after the card is checked again (it exists, is neither
  disabled, expired nor unused, is not past its expiry) and the device is found
  still bound to it.
- A block's length follows the violation number that the key's black-list reasons
  record (`第N次违规`), so repeated blocks of a key climb the ladder.
