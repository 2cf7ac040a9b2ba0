# imagegen

Backend of an image-generation service: users sign up and log in with an
e-mail address and password, receive a signed token, and ask for images,
each recorded as a job in PostgreSQL and stored in an R2 (S3-compatible) bucket.

- `src/` is the verified library (Verus): password hashing and checking
  (bcrypt), token claims and expiry, error-to-response mapping, object URLs,
  interpretation of image-service replies, and the decision logic of the
  signup, login and generate requests as step functions from state and event
  to next state and action, with the laws that tie the steps together.
- `app/` is the HTTP server (axum), the database queries (sqlx), the
  image-service and storage calls, token encoding (jsonwebtoken) and
  environment reading. It drives the library's step functions, performing
  each action it asks for.
- `tests/` exercises the library on concrete values.
