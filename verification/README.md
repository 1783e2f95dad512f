# openposterdb_api

The verified core of OpenPosterDB, a self-hosted service that renders movie
and TV posters, logos, backdrops and episode stills with rating badges.

- `src/` is the library, verified with Verus: ID parsing and cache keys,
  rating-source preferences and cache-key suffixes, provider request paths
  and answer handling, image selection, retry policy, badge geometry and
  badge layouts, corner rounding, configuration, errors, authentication
  helpers, refresh-token rotation, routing helpers and the cache-key upgrade.
- `tests/` exercises the library on concrete values.
- `app/` is the server around it: environment, HTTP clients, JWTs, image
  decoding and drawing, and the router.
