# msf_ffi

Node-API bindings for Apple's Security framework (certificates, keys,
keychains and passwords, trust, CMS, authorization, code signing, transforms,
randomness and Secure Transport), built on the `security-framework` crate.

- `src/` is the verified library: the values that cross the JavaScript
  boundary (string enums, flag tables, result records) and the decisions the
  bindings take around each native call — resources that may be used only
  once, cipher-suite and external-form validation, authorization item sets,
  the order in which import options reach the native importer, the shape of
  keychain search results, certificate property trees, handshake outcomes and
  trust evaluations. Each function carries its contract and is proved by
  Verus.
- `app/` is the Node-API layer: the JavaScript classes, the native calls into
  `security-framework`, and the conversions between the library's values and
  the native ones. Like the framework it binds, it builds on macOS only.
- `tests/` exercises the library on concrete values.

Handshakes follow the documented behaviour: `SslContext.connect`,
`ClientBuilder.connect` and the `resume` methods return the TLS stream itself.
A handshake interrupted at an authentication breakpoint throws
`HandshakeError` with the resumable `stream`, or `ClientHandshakeError` with
the resumable `builder`; the library states this in `handshake_result`.
