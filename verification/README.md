# blog_comments

A self-hosted comment section for blog posts: threaded comments that wait for
moderation, a honeypot and time-trap against bots, optional hCaptcha /
reCAPTCHA and Akismet checks, moderator and reply notifications, likes, and
dashboard cards.

The library in `src/` holds the logic, verified with Verus:

- `text`, `numbers`, `utils`: string handling, decimal numerals (printing and
  std-compatible parsing) and HTML escaping, with the laws that escaping
  never yields markup and can be read back.
- `lang`: the visitor-facing texts in English and German.
- `render`: the HTML of the comment section in the page's language: status
  banner, heading, thread and the submit form, whose captcha widget only the
  top-level form carries.
- `replies`: the reply tree: every comment with its like button and reply
  form, and its replies nested inside it.
- `antispam`: honeypot, time-trap, client address, captcha and Akismet
  requests.
- `api::submission`: the form checks and the submission protocol, a state
  machine whose invariant guarantees that nothing is stored before the
  captcha and flood guards passed, and that moderated comments are stored
  as pending.
- `api::public`, `api::admin`, `api::dashboard`, `api::settings`: redirects,
  route resolution, likes, moderation, card rows and settings cleaning.

`app/` is the axum server around it: database queries, HTTP calls to the
captcha provider, Akismet and the mail endpoint, and the request handlers
that drive the library.
