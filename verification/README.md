# msggram

A small chat server. `src/` is the verified library; `app/` is the web
server around it (routes, database calls, files, the web-socket loop).

Library modules:

- `user_data` — the sign-up/sign-in forms and the rules that sign-up data
  must meet (`checking_user_data`).
- `text` — trimming, searching and replacing over the `Seq<char>` view of
  strings; the Unicode character classes as `char` reports them.
- `pages` — the notice each page shows for the message in its query.
- `contacts` — a user's contacts keyed by identifier, and the home page.
- `ids` — 128-bit identifiers and their hyphenated text.
- `cookies` — reading the cookie jar and setting the session cookie.
- `errors` — the server's errors, their messages and HTTP statuses.
- `flows` — the decisions of the sign-in, sign-up, add-contact and home
  requests, one function per stage between database calls.
- `chat` — chat messages and the decisions of a web-socket session.
