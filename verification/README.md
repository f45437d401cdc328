# RustPress

A small content management system: pages and posts rendered through site
templates, an admin area with revisions, collaborators, sites and themes, and
user accounts with Argon2 passwords.

- `src/` is the `rustpress` library, verified with Verus: form checks, HTML
  escaping and templating, access rules, the admin area guard, the rate
  limiter, the sign-in and registration steps, revision decisions, the user
  store's outcomes and query text, and the data the pages show. Each public
  function states its result in its contract; the laws that relate several
  functions are public proof functions (`lemma_*`).
- `tests/` exercises the library on concrete values.
- `app/` is the Actix server around the library: PostgreSQL queries with
  sqlx, request and response plumbing, and the HTML of the pages.
