# roblox_rs

A client for the Roblox web API, written in Verus.

`src/` is the verified library. It holds what the client decides:

- `json` — a model of the JSON documents the API answers with, and the
  lookups the client makes in them;
- `http` — status ranges, the status line of an error message, header
  value rules, and the headers every request carries;
- `endpoints` — the URLs of the API;
- `responses` — how each answer is read: CSRF token, authentication
  ticket, account id, settings flags, Robux values, totals, and the
  status checks of the friend endpoints with their error messages;
- `listings` — the users, games, game passes and badges read from list
  answers;
- `account`, `order` — the session handle, its builder, and its identity
  and order by user id;
- `error`, `types`, `text` — the error type, the data types, and the text
  helpers (decimal numbers, truncation).

`app/` is the asynchronous network side: it sends the requests with
`reqwest`, decodes JSON with `serde_json`, and hands statuses, headers and
documents to the library. It also carries the serde and `thiserror` forms
of the library's types.
