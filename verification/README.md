# flaremail_rs

A client for Cloudflare Email Service whose logic is verified with Verus.

- `src/` is the verified library: the message builders (`message`), the client's
  settings and the requests it makes (`client`, `exchange`), the errors (`error`), the
  state machine that decides each step of sending a message (`delivery`), the properties
  proved of them (`laws`), and the trusted items on `reqwest` (`outside`).
- `app/` performs the HTTP requests with `reqwest`, reads the environment, encodes and
  decodes JSON with `serde`, and offers the async `Email` / `Emails` API on top of the
  library's `Delivery`.
- `tests/` exercises the library on concrete values.
