# crawlers

A crawler for second-hand record listings, written in Verus.

- `src/` is the verified library: the search URLs of the targets
  (`collector`, `crawler::buyee`), the listings read off result pages
  (`crawlers::buyee`, over the `scraper` crate in `html`), the plan of a
  collection run as a state machine (`collector::CollectRun`), the rules of an
  API reply (`api`), the wire names of job types (`pubsub`), what a job asks
  for (`rare_finder`) and the messages on the crawler channel (`message`).
- `app/` is the service around it: HTTP fetches with reqwest, redis pub-sub,
  the tokio job loop, JSON through serde, logging and configuration.
- `tests/` runs the library on concrete values.
