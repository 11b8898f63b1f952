# collabs_code

Account and sign-in logic of the collabs-code web service, verified with Verus.

- `src/` — the verified library:
  - `validation`, `dtos`: the request payloads and their field rules;
  - `helper`: trimming and e-mail normalisation;
  - `account`, `errors`: signup and login decisions and their error answers;
  - `oidc`: the Google OpenID Connect state, client settings and callback code;
  - `settings`, `database`: configuration sources and database preparation.
- `app/` — the HTTP server (actix-web), database access (sea-orm), OpenID Connect
  network calls and configuration loading, built on the library.
- `tests/` — tests of the library on concrete inputs.
