# proton_meet

Identifiers, ratchet-tree arithmetic, room policies, credential payloads and
MLS validation rules for MIMI rooms over MLS, written in Verus. The
functions in `src/` carry contracts; Verus proves all of them but the small
trusted wrappers around calls into outside crates and std (hashing, HMAC,
signatures, HPKE, base64, base58, URI parsing, the MLS encodings, the system
clock and generator), which are marked `#[verifier::external_body]` and
whose contracts state what those crates document.

Layout of `src/`:

- `identifiers`: user, device, room, message and account identifiers, their
  URI and text forms.
- `tree_index`, `ratchet_tree`, `tree_reader`, `tree_writer`: the array
  layout of an MLS ratchet tree, its paths and resolutions, adding and
  removing members.
- `policy`: roles, capabilities and the policies of hosted rooms, waiting
  rooms and open lobbies, with the laws they keep (`policy/laws.rs`).
- `claims`: the claims of Proton credentials, read from and written to the
  entries of a CBOR payload.
- `mls`, `validations`: the MLS structures the rules read, and the checks of
  proposals, commits, key packages, leaf nodes, content and group
  information, and of tree hashes and parent hashes.
- `suites`, `tls`, `signatures`, `pke`, `transcript`: ciphersuites, hashes,
  HMAC, the labelled encodings MLS signs and encrypts to, signatures, HPKE and
  transcript hashes.
- `meet`: room-level helpers: senders, commit rejection reasons, component
  identifiers and compatible components.

Everything around those wrappers is verified against their contracts.

`app/` holds what Verus does not check: the serde and ciborium forms of
payloads and identifiers.
