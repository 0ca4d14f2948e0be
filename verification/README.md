# deping

The verified core of the DePing uptime-monitoring miner.

`src/` is a Verus library:

- `identity` — the node's Ed25519 identity as Base58 text, the JSON identity
  file, and signing;
- `config` — settings from the identity file, environment variables and
  `-key=value` flags;
- `engine::worker` — a probe as a step function: target from the URL, DNS and
  HTTP phases, latency split, signed result record;
- `engine::scheduler` — the work a batch hands out and what a finished probe
  sends;
- `network::stream` — reconnect back-off and the session's answers to backend
  messages;
- `text`, `error`, `types` — decimal text, errors, messages;
- `codec`, `crypto` — the calls into `serde_json`, `bs58`, `url` and
  `ed25519-dalek`, each behind a trusted wrapper;
- `types::telemetry` — the fixed byte encoding of a probe record that its
  signature covers.

`app/` is the program around it: command line, files, environment, the HTTP
client, the gRPC stream and the tasks that run probes concurrently.

## Probe signatures

The signature in a probe result is the node's Ed25519 signature over every
reported field of the record, not over the job id and task nonce alone. A
backend checks it against the node's public key over these bytes, in this
order:

| field | encoding |
|---|---|
| job id, task nonce, batch id, node id, target URL | UTF-8 length as 8 big-endian bytes, then the UTF-8 bytes |
| success | 1 byte: 1 or 0 |
| status code, DNS, TCP, TLS, time-to-first-byte, total (µs) | 8 big-endian bytes each |
| error kind, error message | UTF-8 length as 8 big-endian bytes, then the UTF-8 bytes |
| timestamp (ms) | 8 big-endian bytes |

The signature field itself is not covered. Two records that differ in any
reported field have different signed bytes (`telemetry_bytes_identify_record`).
The signature is empty where the stored private key is not the Base58 text of a
32-byte secret.

## Configuration

| variable | meaning | default |
|---|---|---|
| `MINER_NODE_ID` | node id | the stored public key, else `anonymous_node` |
| `DEPING_GRPC_ENDPOINT` | ingress server; wins over `SERVER_GRPC_URL` | `http://127.0.0.1:50051` |
| `DEPING_MAX_CONCURRENT_JOBS` | job limit; wins over `MAX_CONCURRENT_JOBS` | 10 |
| `DEPING_HEARTBEAT_INTERVAL` | seconds between heartbeats (positive) | 30 |
| `DEPING_CONNECT_TIMEOUT` | seconds allowed to connect (positive) | 5 |

A job limit that does not read as a count gives 10. `-node_id=`, `-server_url=`
and `-max_jobs=` flags override the environment. `DEPING_GATEWAY_URL` is not
read: the miner speaks to one endpoint, the gRPC ingress.

HTTP 403 and 429 answers end a probe with `TargetDdosProtectionTriggered`.
