# uat

The core of a small blog and account web service, written in Verus.

- `src/` is the verified library:
  - `hex`: lower-case hexadecimal text of numbers (zero-padded) and of bytes;
  - `text`: text equality, concatenation and replacement of every occurrence
    of a pattern;
  - `mail`: topic, template file, addresses and subject of the service's
    mails, and the filling of template placeholders;
  - `message`: building the mail for delivery with `lettre`;
  - `blog`: blog posts and projects, paging three posts to a page, and the
    messages of failed fetches;
  - `todo`: the sample to-do list;
  - `account`: one-time tokens, salted SHA-512 password hashes and the
    sign-up procedure as a state machine;
  - `credentials`: activation by the confirmation token, sign-in, password
    reset and password change by the reset token, over a model of the users
    table;
  - `endpoints`: endpoints that are announced but not implemented yet.
- `app/` is the actix-web server around it: request parsing, the PostgreSQL
  queries, SMTP delivery and the OpenAPI documentation.
- `tests/` runs the library on concrete values.
