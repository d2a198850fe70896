# serenity (verified core)

The decisions of a Discord API client library, written in Verus:

- `src/snowflake.rs`: IDs (`Snowflake`), which are never `u64::MAX`, their
  decimal text and how it is read back.
- `src/decimal.rs`: what `u64`'s `FromStr` accepts and what its `Display`
  writes, as specifications, with the round-trip lemma.
- `src/http.rs`: request methods (`LightMethod` and its `reqwest::Method`),
  pagination, and the reading of webhook URLs (`parse_webhook`).
- `src/cache/wrappers.rs`: `MaybeMap` and `ReadOnlyMapRef` around `dashmap`,
  where a disabled field is always empty, and `MaybeOwnedArc`.
- `src/utils.rs`: `ParseValue`.
- `src/text.rs`: the few `str` operations used, with their documented
  behaviour as contracts.

`app/` holds what Verus does not take: the serde forms of the types, the types
that carry files and mentions, task spawning and the macros.
