# hnscraper

Reads the stories that a Hacker News user upvoted or marked as favorites and
turns them into bookmarks for a bookmark service, one listing page at a time.

- `src/` is the verified library (Verus):
  - `auth.rs`: the user name and the session cookie taken from the `user` cookie value;
  - `scrape.rs`: what a listing page holds (its stories, the link to the next page),
    read with the `scraper` crate;
  - `pager.rs`: walking a listing page by page;
  - `sync.rs`: the counters of a sync, which stops after five bookmarks in a row that
    already existed, with the laws that describe a whole run;
  - `settings.rs`: boolean settings taken from environment variables;
  - `favorites.rs`: the favorites plugin's decisions.
- `app/` is the unverified shell: the HTTP client and page stream (`reqwest`, `futures`),
  the configuration (`config`, `dotenvy`, `serde`), and the async plugin trait.
- `tests/` runs the library on concrete pages and values.
