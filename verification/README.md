# cdpay

A client for the CryptoDiggers payment gateway API (version 1), verified with Verus.

- `src/` is the verified library: the typed request data (`Timeout`, `OrderID`,
  `RequestData`, the currency codes), the URL of each API call (with
  percent-encoding through the `urlencoding` crate), and how the server's answers
  are read (`InitResponse`, `StatusResponse`, the errors), and the step of the wait
  for payment (`wait_step`: ask again, or finish with a result).
- `app/` is the network side on tokio and hyper: it sends the requests, parses the
  JSON answers with serde, hands them to the library and runs the wait loop.
- `tests/` runs the library on concrete values.
