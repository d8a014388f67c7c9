# fastclient

A small customer-relationship manager. The library under `src/` holds its
logic, written in Verus and proved against its contracts:

- `text`, `search`, `json`: character-level helpers, first-match search and a
  plain JSON value type (filled by `serde_json`'s parser), each with its
  mathematical meaning.
- `status`: the customer statuses, their labels and badge classes, and the
  per-status tally of the dashboard.
- `models`: customers, notes and users, and password hashing and checking.
- `csv_data`: the CSV export table and the rules by which an uploaded CSV
  file becomes customers.
- `scrape`: reading a business's name, e-mail, phone, city, state and
  industry off its web page.
- `accounts`, `config`, `migrations`, `pages`, `templates`, `display`: sign-in
  and registration checks, settings, the schema steps and the HTML pages.

`app/` is the web server around it: routing, sessions, the database, HTTP
fetches and the JSON of requests and replies. `tests/` runs the library on concrete values.
