# scanopy

The rules of a network-discovery service, written in Verus and proved
against their contracts: plans and billing decisions, credential targeting,
daemon install commands (from the daemon record and the caller's advanced
settings) and version policy, the discovery digest's window, statuses and
section routing and per-host children, email-domain classification, the
daemon url checks, and the sign-in checks.

- `src/` is the verified library. Each module states its model as spec
  functions and proves every public function against it; the laws that
  span functions are public proof functions (`lemma_*`).
- `tests/` runs the library on concrete values, with the real outside
  crates linked.
- `app/` holds what cannot be verified: DNS and HTTP probes, the DNS
  lookup of a daemon url's host, the thread's secret-exposure flag,
  logging, floating-point pricing, reading the vendored reference files,
  and the serde forms of library values. The digest's database reads and
  the outside services' calls are not part of this crate.
