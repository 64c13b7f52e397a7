# nssf

A 5G Network Slice Selection Function (NSSF) whose decision logic is
written and proved with Verus.

- `src/` is the verified library: identifier validation, feature
  negotiation, slice policies, S-NSSAI mapping, NSAG admission, NSSRG
  assignment, AMF selection, the three kinds of network slice selection,
  NSSAI availability subscriptions, NRF registration messages and the
  answers of the configuration API. Each public function states what it
  returns in its `ensures`; the laws that relate several functions are
  public proof functions named `law_*`.
- `tests/` runs the library on concrete values.
- `app/` is the server around it: settings, MongoDB, the NRF client and the
  HTTP routes (axum). It loads the configuration the library reads, hands it
  plain values and stores what the library decided.
