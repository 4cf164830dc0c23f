# m_rs_lib

A reader and archiver for Medium posts. It crawls a creator's posts through
Medium's GraphQL API into SQLite and onto disk (images), caches API answers
as JSON files, and serves the archived posts over HTTP.

- `src/` is the library, verified with Verus: the data model, path and media
  URL computations, cache decisions and the cache-aside decisions (serve a hit without a
  fetch; store a fetched success; return a failure as it came), the crawl as a
  state machine (with laws over whole runs), storage row mapping with
  round-trip laws, GraphQL request bodies and the routing rules.
- `app/` is the program around it: HTTP handlers, the GraphQL client, SQLite,
  file I/O, JSON (de)serialisation and HTML templates.
- `tests/` exercise the library on concrete values.
