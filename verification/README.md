# solana-trader-quic-client-rust

A client that submits signed Solana transactions over QUIC, authenticated by a client certificate.
What the client decides and computes is verified with Verus.

- `src/` is the verified library. It opens no socket and reads no file.
  - `config`: the configuration of a client and its defaults.
  - `identity`, `pem`: the certificate chain and the private key, and how they are read from PEM
    data.
  - `endpoint`: what an endpoint names, and which address is taken.
  - `settings`: the TLS and QUIC settings that a client connects with.
  - `connect`: establishing a connection, step by step.
  - `client`: the steps in which a transaction is submitted.
  - `error`: the errors, and their texts.
  - `cli`: the command line of a program that submits one transaction.
  - `text`: splitting, trimming and decimal numbers.
  - `outside`: the calls into other crates, each with the contract that the proofs take on trust.
- `app/` performs the steps on a live connection, and reads and looks up addresses with std. It
  holds no rule of its own.
- `tests/` runs the library.

```rust
let config = config_from_pem_files(
    "ny.solana.dex.blxrbdn.com",
    "/path/to/external_gateway_cert.pem",
    "/path/to/external_gateway_key.pem",
)?;
let client = TraderApiQuicClient::connect(config).await?;
client.send_transaction_datagram(&tx_bytes)?;
```

A client can be used for any number of submissions, in any of the three ways: a datagram, a
unidirectional stream, or a bidirectional stream that the server answers on.
