# alkahest

The computing core of an escrow/obligation SDK for EAS-based contracts,
verified with Verus.

- `src/` — the verified library: ABI encodings of obligation records,
  escrow and payment data and the ERC20 permit-and-pay flow, hex text, approval planning for token bundles, arbiter demand decoding,
  command-signer invocations and their output, `Attested` event lookup,
  and the client's extension bookkeeping. Calls into alloy (hex, ABI,
  keccak, signatures, key derivation) stand behind small trusted wrappers
  whose contracts are stated in `src/`.
- `app/` — the unverified edge: serde configuration copies, JSON items,
  running signing commands, converting receipt logs.
- `tests/` — tests of the library run against the real alloy crates.
