# authflow

The account and session rules of a small sign-in web service, verified with
Verus.

- `src/` is the verified library: decimal user ids carried in cookies and read
  back (`decimal`), the sign-in log and its lockout (`services::log_service`),
  argon2 hashing and one-time codes (`services::secrets`), the mail that
  carries a code (`services::mail`), form rules
  (`validators`), the account services (`services::user_service`), the signed-in
  session (`services::session`), the cookie jar, redirects and flash messages
  (`web`), and the answer of each page handler (`controllers::user_controller`).
- `app/` is the Rocket server around it: routes, templates, the database
  through SeaORM, mail through lettre, the captcha and GitHub requests through
  reqwest, and the schema changes of the database (`app/migration`). It hands
  the library plain values and acts on what it answers: the handlers and
  services that talk to the outside are step functions in the library, and
  `app/` runs their loops, performing each action and reporting the event.
- `tests/` exercises the library on concrete values.
