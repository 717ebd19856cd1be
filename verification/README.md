# esp_idf_svc

Services over the ESP-IDF SDK — Bluetooth Classic and BLE (Bluedroid and
NimBLE GATT servers), the HTTP server, a captive-portal DNS responder,
Ethernet, event loops, FAT filesystems and logging — with their logic
verified by Verus.

## Layout

- `src/` is the verified library. It holds what the services decide and
  compute: the DNS reply built from a query, the GATT attribute database
  and the routing of reads, writes and value changes, the CCCD store, the
  response headers handed to the HTTP server, the native configurations
  derived from the user's ones, the bring-up sequences of the drivers
  (run step by step, stopping at the first failure), and the conversions
  between the services' types and the native codes. Each public function
  states its result in its `ensures`; the laws that relate several
  functions are public proof functions (`lemma_*`).
- `app/` is the native side: the SDK calls, the sockets, the `log` facade
  and the reading of the SDK's callback parameters. It hands plain values
  to the library and acts on what the library returns.
- `tests/` runs the library on concrete values.

The few calls into other crates that the library makes (`uncased` for
case-insensitive header names, the cookie helpers of `embedded-svc`, the
`log` facade's maximum level, `String::push`) go through small wrappers
marked `#[verifier::external_body]`, each documented with what its contract
claims.
