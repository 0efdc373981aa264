# router

Payment-router domain logic with machine-checked contracts (Verus).

- `src/opayo.rs` — the Opayo connector: payment and refund requests built
  from the router's data, Opayo's payment and refund answers folded back into
  it, status mappings, credentials.
- `src/router_data.rs` — the data that a connector receives for a flow.
- `src/webhooks.rs` — the incoming-webhook trait that connectors implement,
  with the body decoding and source verification pipelines.
- `src/customer.rs`, `src/storage.rs` — customers and their stored records;
  `src/crypto.rs` — AES-256-GCM decryption of stored fields (through `ring`).
- `src/dashboard_metadata.rs` — dashboard metadata entries and updates.
- `app/` — serde wire formats, actix-web request conversion and the parsing
  of a merchant's stored webhook configuration around the library.
