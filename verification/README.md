# echo_server

A push notification relay for wallet clients: clients register a device token
with a provider (APNs, FCM, FCM v1 or a no-op provider), and signed push
requests from the relay are delivered to them once.

The library under `src/` is written in Verus and proved against its
contracts:

- `handlers/push_message.rs` — delivering a push request as a state machine:
  the client lookup, duplicate detection, tenant and provider checks, the send,
  and what a failed send leads to (deleting the client or suspending the
  tenant). Its laws state that a send happens at most once, only after every
  check passed, and carries the fetched client's token and the message chosen
  for it; a bad token deletes that same client.
- `middleware/` — the Ed25519 signature over `timestamp.length.body` that the
  relay puts on requests, and per-address rate limiting.
- `handlers/update_apns.rs` — a tenant's APNS update as a state machine:
  the new topic is stored first, new credentials are checked by loading them
  with the APNS client before they are stored, and the tenant is unsuspended
  only if the updated tenant is suspended.
- `stores/` — tenants and the providers they enable, and what a client
  registration writes to the clients and notifications tables (an upsert by
  id and by token; a client whose token is taken over loses its
  notifications).
- `providers/` — the messages built for APNs and FCM v1 and how their answers
  are reported.
- `error.rs` — the answer every error gives a client.
- `codec.rs`, `relay.rs`, `authentication.rs` — base64, hex, Ed25519 and JWT
  pieces, each outside call behind a small trusted wrapper.

`app/` is the HTTP server around it (axum, sqlx, a2, fcm): it reads requests,
runs the library's decisions and performs the I/O they ask for. Without
`TENANT_DATABASE_URL` it serves one tenant from its configuration (`/clients`);
with it, tenants come from that database (`/:tenant_id/clients`, and
`/tenants`, `/tenants/:id`, `/tenants/:id/fcm`, `/tenants/:id/apns` for
requests bearing a token signed with `JWT_SECRET`), and clients of the default
tenant are served under any tenant. FCM v1 credentials cannot be checked or
used by this build, whose dependencies lack an FCM v1 client. The no-op
provider is part of every build of the library.
