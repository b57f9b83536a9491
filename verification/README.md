# zero2production

A newsletter service built on actix-web. The crate's library (`src/`) is verified with
Verus:

- `email_client`: the mail-send call to the provider's V3 API: the URL, the bearer
  token, the JSON body (`Message`, `Personalization`, `Email`, `Content`), and the rule
  that decides whether a send succeeded from the provider's answer.
- `routes::admin::dashboard`: the admin dashboard's state machine (redirect anonymous
  visitors to `/login`, greet the admin by name, answer 500 on failures) and its page.

`app/` holds the HTTP server, the session and database access, the JSON serialisation
and the asynchronous sending, which call into the library.
