# enterprise_http3

The core of an HTTP/3 service, verified with Verus, and a small desktop application around it.

- `src/` holds the library. It builds requests and responses, turns them into header fields and
  back, makes certificates and configurations, and decides each step of a connection, of a server
  and of a client. Each function states what it does, and laws that span several functions are
  proved beside them.
- `tests/` runs the library on concrete values.
- `app/` is the application: a window, an HTTP/3 server on `127.0.0.1:8080`, and the code that
  carries out the steps with the QUIC library. With the argument `cert-gen` it writes a test
  certificate to `temp_cert.pem` and `temp_key.pem` instead.

What the library takes on trust from other crates is marked `#[verifier::external_body]` or
`assume_specification`; a comment above each says what is claimed.
