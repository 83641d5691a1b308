# ics_proxy

A proxy for `.ics` calendars: each calendar address is stored under a uuid,
and the proxy serves the calendar at `<root>/<uuid>/events.ics`, so the
address behind a uuid can change without touching subscribed calendars.

- `src/` is the verified library (Verus): the decisions of every request
  handler (`handlers`), the pages they answer with (`pages`), the check of
  destinations (`destination`), uuid reading and printing (`ids`), reading
  the uuid out of a submitted address (`submission`), timestamps (`clock`),
  the stored `Link` (`link`) and properties of the whole (`laws`).
- `app/` is the server: routes (actix-web), templates (tera), the SQLite
  store (sqlx) and fetching calendars (reqwest). It performs the steps that
  the library asks for and renders the pages it chooses.
- `tests/` runs the library on concrete requests.
